//! The OPC address-space projection policy: which machine fields become
//! tags, under which node id strings they are created at run start, what
//! each poll writes, and which node ids are torn down on stop.  The process
//! around the library applies these plans to the actual OPC server; every
//! id and value is decided here.
use vstd::prelude::*;
use vstd::string::*;

use crate::factory::Factory;
use crate::machine::{specUpdateState, Machine};

verus! {

/// One refresh of a machine's tag values.
pub struct MachineTags {
    pub machineID: String,
    pub stateText: String,
    pub faultMessage: String,
    pub producedCount: u64,
    pub consumedCount: u64,
    pub stateChangeCount: u64,
    pub faultCount: u64,
    pub inputInventory: u64,
    pub outputInventory: u64,
    pub sensor: bool,
}

/// The tag values a machine publishes: its status lowercased, the message
/// of the active fault (empty otherwise), and the counters and buffer
/// levels as unsigned 64-bit values.
pub open spec fn tagsMatch(t: MachineTags, m: Machine) -> bool {
    &&& t.machineID == m.id
    &&& t.stateText@ == m.state.specText()
    &&& t.faultMessage@ == (match m.currentFault {
        Some(fi) => m.faults@[fi as int].faultMessage@,
        None => Seq::<char>::empty(),
    })
    &&& t.producedCount == m.producedCount as u64
    &&& t.consumedCount == m.consumedCount as u64
    &&& t.stateChangeCount == m.stateChangeCount as u64
    &&& t.faultCount == m.faultedCount as u64
    &&& t.inputInventory == m.inputInventory as u64
    &&& t.outputInventory == m.outputInventory as u64
    &&& t.sensor == m.sensor
}

/// Snapshot the published tag values of one machine.
pub fn tagsOf(m: &Machine) -> (r: MachineTags)
    requires
        m.wf(),
    ensures
        tagsMatch(r, *m),
{
    let faultMessage: String = match &m.currentFault {
        Some(fi) => m.faults[*fi].faultMessage.clone(),
        None => String::new(),
    };
    MachineTags {
        machineID: m.id.clone(),
        stateText: m.state.toText(),
        faultMessage,
        producedCount: m.producedCount as u64,
        consumedCount: m.consumedCount as u64,
        stateChangeCount: m.stateChangeCount as u64,
        faultCount: m.faultedCount as u64,
        inputInventory: m.inputInventory as u64,
        outputInventory: m.outputInventory as u64,
        sensor: m.sensor,
    }
}

/// The node id strings created for one machine: a folder and one variable
/// node per published tag; the sensor node exists only for machines with a
/// sensor.
pub struct MachineNodes {
    pub folderID: String,
    pub folderName: String,
    pub stateNode: String,
    pub faultMsgNode: String,
    pub producedNode: String,
    pub consumedNode: String,
    pub stateChangeNode: String,
    pub faultCountNode: String,
    pub inputInvNode: String,
    pub outputInvNode: String,
    pub sensorNode: Option<String>,
}

pub open spec fn nodesMatch(n: MachineNodes, m: Machine) -> bool {
    &&& n.folderID@ == m.id@ + "-folder"@
    &&& n.folderName@ == "Machine-ID-"@ + m.id@
    &&& n.stateNode@ == m.id@ + "-state"@
    &&& n.faultMsgNode@ == m.id@ + "-fault-msg"@
    &&& n.producedNode@ == m.id@ + "-produced-count"@
    &&& n.consumedNode@ == m.id@ + "-consumed-count"@
    &&& n.stateChangeNode@ == m.id@ + "-state-change-count"@
    &&& n.faultCountNode@ == m.id@ + "-fault-count"@
    &&& n.inputInvNode@ == m.id@ + "-input-inventory"@
    &&& n.outputInvNode@ == m.id@ + "-output-inventory"@
    &&& (match n.sensorNode {
        Some(s) => m.sensor && s@ == m.id@ + "-sensor"@,
        None => !m.sensor,
    })
}

/// Derive the node id strings for one machine.
pub fn machineNodes(m: &Machine) -> (r: MachineNodes)
    ensures
        nodesMatch(r, *m),
{
    let sensorNode: Option<String> = if m.sensor {
        Some(m.id.clone().concat("-sensor"))
    } else {
        None
    };
    MachineNodes {
        folderID: m.id.clone().concat("-folder"),
        folderName: String::from_str("Machine-ID-").concat(m.id.as_str()),
        stateNode: m.id.clone().concat("-state"),
        faultMsgNode: m.id.clone().concat("-fault-msg"),
        producedNode: m.id.clone().concat("-produced-count"),
        consumedNode: m.id.clone().concat("-consumed-count"),
        stateChangeNode: m.id.clone().concat("-state-change-count"),
        faultCountNode: m.id.clone().concat("-fault-count"),
        inputInvNode: m.id.clone().concat("-input-inventory"),
        outputInvNode: m.id.clone().concat("-output-inventory"),
        sensorNode,
    }
}

/// The address-space plan of one run: the root folder for the line and one
/// folder of tag nodes per machine, with their initial values.
pub struct ServerPlan {
    pub rootID: String,
    pub machines: Vec<(MachineNodes, MachineTags)>,
}

/// Build the projection plan at run start, in machine order.
pub fn serverSetup(factory: &Factory, lineName: &str) -> (r: ServerPlan)
    requires
        factory.wf(),
    ensures
        r.rootID@ == lineName@,
        r.machines@.len() == factory.machines@.len(),
        forall|k: int|
            0 <= k < factory.machines@.len() ==> nodesMatch(
                (#[trigger] r.machines@[k]).0,
                factory.machines@[k],
            ) && tagsMatch(r.machines@[k].1, factory.machines@[k]),
{
    let count = factory.machines.len();
    let mut machines: Vec<(MachineNodes, MachineTags)> = Vec::new();
    let mut k: usize = 0;
    while k < count
        invariant
            factory.wf(),
            count == factory.machines@.len(),
            k <= count,
            machines@.len() == k,
            forall|i: int|
                0 <= i < k ==> nodesMatch(
                    (#[trigger] machines@[i]).0,
                    factory.machines@[i],
                ) && tagsMatch(machines@[i].1, factory.machines@[i]),
        decreases count - k,
    {
        let m = &factory.machines[k];
        let nodes = machineNodes(m);
        let tags = tagsOf(m);
        machines.push((nodes, tags));
        k = k + 1;
    }
    ServerPlan { rootID: String::from_str(lineName), machines }
}

/// One OPC poll: run the debounced classifier on every machine, then
/// snapshot every machine's tag values for the refresh.
pub fn serverPoll(factory: &mut Factory) -> (r: Vec<MachineTags>)
    requires
        old(factory).wf(),
    ensures
        final(factory).wf(),
        final(factory).conveyors@ == old(factory).conveyors@,
        final(factory).machines@.len() == old(factory).machines@.len(),
        forall|k: int|
            0 <= k < old(factory).machines@.len() ==> #[trigger] final(factory).machines@[k]
                == specUpdateState(old(factory).machines@[k]),
        r@.len() == old(factory).machines@.len(),
        forall|k: int|
            0 <= k < old(factory).machines@.len() ==> tagsMatch(
                #[trigger] r@[k],
                final(factory).machines@[k],
            ),
{
    factory.pollStates();
    let count = factory.machines.len();
    let mut tags: Vec<MachineTags> = Vec::new();
    let mut k: usize = 0;
    while k < count
        invariant
            factory.wf(),
            count == factory.machines@.len(),
            k <= count,
            tags@.len() == k,
            forall|i: int|
                0 <= i < k ==> tagsMatch(#[trigger] tags@[i], factory.machines@[i]),
        decreases count - k,
    {
        let t = tagsOf(&factory.machines[k]);
        tags.push(t);
        k = k + 1;
    }
    tags
}

/// The node ids of one machine's plan, folder first.
pub open spec fn specMachineNodeIDs(n: MachineNodes) -> Seq<String> {
    let base = seq![
        n.folderID,
        n.stateNode,
        n.faultMsgNode,
        n.producedNode,
        n.consumedNode,
        n.stateChangeNode,
        n.faultCountNode,
        n.inputInvNode,
        n.outputInvNode,
    ];
    match n.sensorNode {
        Some(s) => base.push(s),
        None => base,
    }
}

/// All node ids of the first `upTo` machine plans, in creation order.
pub open spec fn specPlanNodeIDs(plans: Seq<(MachineNodes, MachineTags)>, upTo: int) -> Seq<
    String,
>
    decreases upTo,
{
    if upTo <= 0 {
        Seq::empty()
    } else {
        specPlanNodeIDs(plans, upTo - 1) + specMachineNodeIDs(plans[upTo - 1].0)
    }
}

/// The tear-down list of a run: exactly the run's root folder followed by
/// every node id its machine plans created, so deleting this list leaves
/// none of the run's machine nodes behind.
pub fn teardownIDs(plan: &ServerPlan) -> (r: Vec<String>)
    ensures
        r@ == seq![plan.rootID] + specPlanNodeIDs(plan.machines@, plan.machines@.len() as int),
{
    let mut ids: Vec<String> = Vec::new();
    ids.push(plan.rootID.clone());
    proof {
        assert(ids@ =~= seq![plan.rootID] + specPlanNodeIDs(plan.machines@, 0));
    }
    let count = plan.machines.len();
    let mut k: usize = 0;
    while k < count
        invariant
            count == plan.machines@.len(),
            k <= count,
            ids@ == seq![plan.rootID] + specPlanNodeIDs(plan.machines@, k as int),
        decreases count - k,
    {
        let n = &plan.machines[k].0;
        ids.push(n.folderID.clone());
        ids.push(n.stateNode.clone());
        ids.push(n.faultMsgNode.clone());
        ids.push(n.producedNode.clone());
        ids.push(n.consumedNode.clone());
        ids.push(n.stateChangeNode.clone());
        ids.push(n.faultCountNode.clone());
        ids.push(n.inputInvNode.clone());
        ids.push(n.outputInvNode.clone());
        match &n.sensorNode {
            Some(s) => {
                ids.push(s.clone());
            },
            None => {},
        }
        proof {
            assert(ids@ =~= seq![plan.rootID] + specPlanNodeIDs(
                plan.machines@,
                k as int + 1,
            ));
        }
        k = k + 1;
    }
    ids
}

} // verus!
