//! The factory graph: the machines and belts built from a validated
//! configuration, advanced tick by tick in configured order, plus the
//! construction from and serialization back to the configuration schema.
use vstd::prelude::*;
use vstd::string::*;

use crate::arith::MAX_TIME_US;
use crate::belt::{beltsWf, sameShape, ConveyorBelt};
use crate::json::{JSONConveyor, JSONData, JSONFactory, JSONFault, JSONMachine};
use crate::machine::{
    specUpdateState, InputBehavior, Machine, OPCState, OutputBehavior, ProcessingBehavior,
};

verus! {

/// Upper bound on the simulation speed, in thousandths: a millionfold
/// speed-up, far beyond any use, which keeps the scaled time delta inside
/// a `u128`.
pub const MAX_SIM_SPEED_MILLI: u64 = 1000000000;

/// Largest time field accepted from the configuration, in milliseconds;
/// converting it to microseconds stays below the global time bound.
pub const MAX_TIME_MS: u64 = 18446744073709551;

/// The machine/belt graph of one run.
#[verifier::ext_equal]
pub struct Factory {
    pub name: String,
    pub description: String,
    pub simSpeedMilli: u64,
    pub pollRateUs: u128,
    pub debounceRateInPolls: i64,
    pub machines: Vec<Machine>,
    pub conveyors: Vec<ConveyorBelt>,
}

/// The upstream hand-off on the belt list: when belt `i`'s head is free
/// and belt `j`'s tail occupied, one item moves across; otherwise nothing
/// changes.
pub open spec fn specTakeInputRel(
    b: Seq<ConveyorBelt>,
    b2: Seq<ConveyorBelt>,
    i: int,
    j: int,
) -> bool {
    &&& b2.len() == b.len()
    &&& forall|k: int| 0 <= k < b.len() && k != i && k != j ==> b2[k] == b[k]
    &&& sameShape(b[i], b2[i])
    &&& sameShape(b[j], b2[j])
    &&& if crate::belt::headEmpty(b[i]) && crate::belt::tailOccupied(b[j]) {
        b2[i].belt@ == b[i].belt@.update(0, Some(crate::belt::freshItem(b[i]))) && b2[j].belt@
            == b[j].belt@.update(b[j].capacity - 1, None)
    } else {
        b2 == b
    }
}

/// The hand-off of belt `k`'s turn: from its configured upstream, if any.
pub open spec fn specHandOffRel(b: Seq<ConveyorBelt>, b2: Seq<ConveyorBelt>, k: int) -> bool {
    match b[k].inputID {
        Some(j) => specTakeInputRel(b, b2, k, j as int),
        None => b2 == b,
    }
}

/// One belt's turn in the belt phase: resolve the upstream hand-off first,
/// then advance the belt's own cells by the pass.
pub open spec fn specBeltTurn(
    b: Seq<ConveyorBelt>,
    bf: Seq<ConveyorBelt>,
    k: int,
    dt: u128,
) -> bool {
    exists|bMid: Seq<ConveyorBelt>|
        #![trigger specHandOffRel(b, bMid, k)]
        {
            &&& specHandOffRel(b, bMid, k)
            &&& bf.len() == bMid.len()
            &&& forall|i: int| 0 <= i < bMid.len() && i != k ==> bf[i] == bMid[i]
            &&& sameShape(bMid[k], bf[k])
            &&& bf[k].belt@ == crate::belt::specBeltPass(bMid[k].belt@, dt, 0)
        }
}

/// Every belt has taken its turn, in configured order: some chain of belt
/// states `bs` threads the turns together, starting at `b0` and ending at
/// `bf`, with belt `k`'s turn taking `bs[k]` to `bs[k+1]`.
pub open spec fn specBeltsAdvance(
    b0: Seq<ConveyorBelt>,
    bf: Seq<ConveyorBelt>,
    dt: u128,
) -> bool {
    exists|bs: Seq<Seq<ConveyorBelt>>|
        #![trigger bs.len()]
        {
            &&& bs.len() == b0.len() + 1
            &&& bs[0] == b0
            &&& bs[b0.len() as int] == bf
            &&& forall|k: int| 0 <= k < b0.len() ==> specBeltTurn(#[trigger] bs[k], bs[k + 1], k, dt)
        }
}

/// Every machine has run exactly one machine tick, in configured order:
/// machine `i` turns `ms0[i]` into `msf[i]` against the belts as they
/// stood at its turn (`bs[i]`), handing the belts on as `bs[i+1]`; the
/// whole chain starts at `b0` and ends at `bf`.
pub open spec fn specMachinesAdvance(
    ms0: Seq<Machine>,
    b0: Seq<ConveyorBelt>,
    msf: Seq<Machine>,
    bf: Seq<ConveyorBelt>,
    dt: u128,
) -> bool {
    &&& msf.len() == ms0.len()
    &&& exists|bs: Seq<Seq<ConveyorBelt>>|
        #![trigger bs.len()]
        {
            &&& bs.len() == ms0.len() + 1
            &&& bs[0] == b0
            &&& bs[ms0.len() as int] == bf
            &&& forall|i: int|
                0 <= i < ms0.len() ==> crate::machine::specMachineTick(
                    ms0[i],
                    #[trigger] bs[i],
                    msf[i],
                    bs[i + 1],
                    dt,
                )
        }
}

/// One whole driver tick of the graph: every machine advanced once by the
/// machine-tick relation, in configured order, then every belt takes its
/// turn (hand-off, then its own pass), in configured order.
pub open spec fn specFactoryTick(f0: Factory, ff: Factory, dt: u128) -> bool {
    &&& ff.name == f0.name
    &&& ff.description == f0.description
    &&& ff.simSpeedMilli == f0.simSpeedMilli
    &&& ff.pollRateUs == f0.pollRateUs
    &&& ff.debounceRateInPolls == f0.debounceRateInPolls
    &&& exists|bMid: Seq<ConveyorBelt>|
        #![trigger specBeltsAdvance(bMid, ff.conveyors@, dt)]
        {
            &&& specMachinesAdvance(f0.machines@, f0.conveyors@, ff.machines@, bMid, dt)
            &&& specBeltsAdvance(bMid, ff.conveyors@, dt)
        }
}

impl Factory {
    /// Every machine and belt is well formed, every belt reference lands
    /// inside the belt list, and no belt feeds itself.
    pub open spec fn wf(self) -> bool {
        &&& 1 <= self.pollRateUs <= MAX_TIME_US
        &&& self.simSpeedMilli <= MAX_SIM_SPEED_MILLI
        &&& beltsWf(self.conveyors@)
        &&& forall|k: int|
            0 <= k < self.conveyors@.len() ==> ((#[trigger] self.conveyors@[k]).inputID matches Some(
                j,
            ) ==> j < self.conveyors@.len() && j != k)
        &&& forall|k: int| 0 <= k < self.machines@.len() ==> (#[trigger] self.machines@[k]).wf()
        &&& forall|k: int, i: int|
            0 <= k < self.machines@.len() && 0 <= i < self.machines@[k].inputIDs@.len()
                ==> (#[trigger] self.machines@[k].inputIDs@[i]) < self.conveyors@.len()
        &&& forall|k: int, i: int|
            0 <= k < self.machines@.len() && 0 <= i < self.machines@[k].outputIDs@.len()
                ==> (#[trigger] self.machines@[k].outputIDs@[i]) < self.conveyors@.len()
    }

    /// One driver tick: advance every machine in configured order, then
    /// every belt in configured order (upstream hand-off first, then the
    /// belt's own cells).
    pub fn update(&mut self, deltaTime: u128)
        requires
            old(self).wf(),
            deltaTime <= MAX_TIME_US,
        ensures
            final(self).wf(),
            final(self).machines@.len() == old(self).machines@.len(),
            final(self).conveyors@.len() == old(self).conveyors@.len(),
            final(self).name == old(self).name,
            final(self).description == old(self).description,
            final(self).simSpeedMilli == old(self).simSpeedMilli,
            final(self).pollRateUs == old(self).pollRateUs,
            final(self).debounceRateInPolls == old(self).debounceRateInPolls,
            forall|k: int|
                0 <= k < old(self).machines@.len() ==> (#[trigger] final(self).machines@[k]).sameConfig(old(self).machines@[k]),
            forall|k: int|
                0 <= k < old(self).machines@.len() ==> (#[trigger] final(self).machines@[k]).producedCount >= old(self).machines@[k].producedCount
                    && final(self).machines@[k].consumedCount >= old(self).machines@[k].consumedCount,
            forall|k: int|
                0 <= k < old(self).machines@.len() && old(self).machines@[k].faultConsistent()
                    ==> (#[trigger] final(self).machines@[k]).faultConsistent(),
            specFactoryTick(*old(self), *final(self), deltaTime),
    {
        let mut idx: usize = 0;
        let machineCount = self.machines.len();
        let ghost mut beltTrace: Seq<Seq<ConveyorBelt>> = seq![old(self).conveyors@];
        while idx < machineCount
            invariant
                self.wf(),
                deltaTime <= MAX_TIME_US,
                machineCount == self.machines@.len(),
                idx <= machineCount,
                self.conveyors@.len() == old(self).conveyors@.len(),
                self.name == old(self).name,
                self.description == old(self).description,
                self.simSpeedMilli == old(self).simSpeedMilli,
                self.pollRateUs == old(self).pollRateUs,
                self.debounceRateInPolls == old(self).debounceRateInPolls,
                machineCount == old(self).machines@.len(),
                forall|k: int|
                    idx <= k < machineCount ==> #[trigger] self.machines@[k] == old(
                        self,
                    ).machines@[k],
                forall|k: int|
                    0 <= k < machineCount ==> (#[trigger] self.machines@[k]).sameConfig(
                        old(self).machines@[k],
                    ),
                forall|k: int|
                    0 <= k < machineCount ==> (#[trigger] self.machines@[k]).producedCount >= old(
                        self,
                    ).machines@[k].producedCount && self.machines@[k].consumedCount >= old(
                        self,
                    ).machines@[k].consumedCount,
                forall|k: int|
                    0 <= k < machineCount && old(self).machines@[k].faultConsistent() ==> (
                    #[trigger] self.machines@[k]).faultConsistent(),
                beltTrace.len() == idx + 1,
                beltTrace[0] == old(self).conveyors@,
                beltTrace[idx as int] == self.conveyors@,
                forall|i: int|
                    0 <= i < idx ==> crate::machine::specMachineTick(
                        old(self).machines@[i],
                        #[trigger] beltTrace[i],
                        self.machines@[i],
                        beltTrace[i + 1],
                        deltaTime,
                    ),
            decreases machineCount - idx,
        {
            let ghost machinesBefore = self.machines@;
            let ghost beltsBefore = self.conveyors@;
            let mut m = self.machines.remove(idx);
            m.update(&mut self.conveyors, deltaTime);
            let ghost mAfter = m;
            self.machines.insert(idx, m);
            proof {
                assert(self.machines@ =~= machinesBefore.update(idx as int, mAfter));
                assert(crate::machine::specMachineTick(
                    old(self).machines@[idx as int],
                    beltTrace[idx as int],
                    self.machines@[idx as int],
                    self.conveyors@,
                    deltaTime,
                ));
                beltTrace = beltTrace.push(self.conveyors@);
            }
            idx = idx + 1;
        }
        proof {
            assert(beltTrace.len() == old(self).machines@.len() + 1);
            assert(specMachinesAdvance(
                old(self).machines@,
                old(self).conveyors@,
                self.machines@,
                self.conveyors@,
                deltaTime,
            ));
        }

        let ghost machinesDone = *self;
        let ghost mut turnTrace: Seq<Seq<ConveyorBelt>> = seq![self.conveyors@];
        let mut k: usize = 0;
        let beltCount = self.conveyors.len();
        while k < beltCount
            invariant
                self.wf(),
                deltaTime <= MAX_TIME_US,
                beltCount == self.conveyors@.len(),
                k <= beltCount,
                self.machines@ == machinesDone.machines@,
                specMachinesAdvance(
                    old(self).machines@,
                    old(self).conveyors@,
                    machinesDone.machines@,
                    machinesDone.conveyors@,
                    deltaTime,
                ),
                turnTrace.len() == k + 1,
                turnTrace[0] == machinesDone.conveyors@,
                turnTrace[k as int] == self.conveyors@,
                forall|i: int|
                    0 <= i < k ==> specBeltTurn(
                        #[trigger] turnTrace[i],
                        turnTrace[i + 1],
                        i,
                        deltaTime,
                    ),
                self.machines@.len() == old(self).machines@.len(),
                self.conveyors@.len() == old(self).conveyors@.len(),
                self.name == old(self).name,
                self.description == old(self).description,
                self.simSpeedMilli == old(self).simSpeedMilli,
                self.pollRateUs == old(self).pollRateUs,
                self.debounceRateInPolls == old(self).debounceRateInPolls,
                forall|j: int|
                    0 <= j < self.machines@.len() ==> (#[trigger] self.machines@[j]).sameConfig(
                        old(self).machines@[j],
                    ),
                forall|j: int|
                    0 <= j < self.machines@.len() ==> (#[trigger] self.machines@[j]).producedCount
                        >= old(self).machines@[j].producedCount && self.machines@[j].consumedCount
                        >= old(self).machines@[j].consumedCount,
                forall|j: int|
                    0 <= j < self.machines@.len() && old(self).machines@[j].faultConsistent()
                        ==> (#[trigger] self.machines@[j]).faultConsistent(),
            decreases beltCount - k,
        {
            let ghost turnStart = self.conveyors@;
            let upstream = self.conveyors[k].inputID;
            if let Some(j) = upstream {
                crate::belt::takeInputAt(&mut self.conveyors, k, j);
            }
            let ghost beltsBefore = self.conveyors@;
            proof {
                assert(specHandOffRel(turnStart, beltsBefore, k as int));
            }
            let mut b = self.conveyors.remove(k);
            b.update(deltaTime);
            let ghost bAfter = b;
            self.conveyors.insert(k, b);
            proof {
                assert(self.conveyors@ =~= beltsBefore.update(k as int, bAfter));
                assert(specBeltTurn(turnStart, self.conveyors@, k as int, deltaTime));
                turnTrace = turnTrace.push(self.conveyors@);
            }
            k = k + 1;
        }
        proof {
            assert(turnTrace.len() == machinesDone.conveyors@.len() + 1);
            assert(specBeltsAdvance(machinesDone.conveyors@, self.conveyors@, deltaTime));
            assert(specFactoryTick(*old(self), *self, deltaTime));
        }
    }

    /// One classifier poll over every machine, in configured order.
    pub fn pollStates(&mut self)
        requires
            old(self).wf(),
        ensures
            final(self).wf(),
            final(self).machines@.len() == old(self).machines@.len(),
            final(self).conveyors@ == old(self).conveyors@,
            final(self).name == old(self).name,
            final(self).description == old(self).description,
            final(self).simSpeedMilli == old(self).simSpeedMilli,
            final(self).pollRateUs == old(self).pollRateUs,
            final(self).debounceRateInPolls == old(self).debounceRateInPolls,
            forall|k: int|
                0 <= k < old(self).machines@.len() ==> #[trigger] final(self).machines@[k]
                    == specUpdateState(old(self).machines@[k]),
    {
        let mut idx: usize = 0;
        let machineCount = self.machines.len();
        while idx < machineCount
            invariant
                self.wf(),
                machineCount == self.machines@.len(),
                machineCount == old(self).machines@.len(),
                idx <= machineCount,
                self.conveyors@ == old(self).conveyors@,
                self.name == old(self).name,
                self.description == old(self).description,
                self.simSpeedMilli == old(self).simSpeedMilli,
                self.pollRateUs == old(self).pollRateUs,
                self.debounceRateInPolls == old(self).debounceRateInPolls,
                forall|k: int|
                    idx <= k < machineCount ==> #[trigger] self.machines@[k] == old(
                        self,
                    ).machines@[k],
                forall|k: int|
                    0 <= k < idx ==> #[trigger] self.machines@[k] == specUpdateState(
                        old(self).machines@[k],
                    ),
            decreases machineCount - idx,
        {
            let ghost machinesBefore = self.machines@;
            let mut m = self.machines.remove(idx);
            m.updateState();
            let ghost mAfter = m;
            self.machines.insert(idx, m);
            proof {
                assert(self.machines@ =~= machinesBefore.update(idx as int, mAfter));
            }
            idx = idx + 1;
        }
    }
}

/// A conveyor with this id exists in the configuration.
pub open spec fn specHasConveyor(convs: Seq<JSONConveyor>, id: Seq<char>) -> bool {
    exists|k: int| 0 <= k < convs.len() && (#[trigger] convs[k]).id@ == id
}

/// Position `k` holds the first conveyor with this id.
pub open spec fn isFirstMatchConveyor(convs: Seq<JSONConveyor>, id: Seq<char>, k: int) -> bool {
    &&& 0 <= k < convs.len()
    &&& convs[k].id@ == id
    &&& forall|j: int| 0 <= j < k ==> (#[trigger] convs[j]).id@ != id
}

pub open spec fn specDistinctConveyorIDs(convs: Seq<JSONConveyor>) -> bool {
    forall|j: int, k: int|
        0 <= j < k < convs.len() ==> (#[trigger] convs[j]).id@ != (#[trigger] convs[k]).id@
}

pub open spec fn specDistinctMachineIDs(ms: Seq<JSONMachine>) -> bool {
    forall|j: int, k: int|
        0 <= j < k < ms.len() ==> (#[trigger] ms[j]).id@ != (#[trigger] ms[k]).id@
}

/// The belt that belt `k` of the configuration draws from: the first
/// conveyor carrying the configured upstream id, when that id resolves.
pub open spec fn specUpstreamIdx(convs: Seq<JSONConveyor>, k: int) -> Option<int> {
    match convs[k].inputID {
        Some(s) => if exists|j: int| isFirstMatchConveyor(convs, s@, j) {
            Some(choose|j: int| isFirstMatchConveyor(convs, s@, j))
        } else {
            None
        },
        None => None,
    }
}

/// Following upstream links from belt `from` passes through belt `target`
/// within `steps` hops.
pub open spec fn specUpstreamReaches(
    convs: Seq<JSONConveyor>,
    from: int,
    target: int,
    steps: nat,
) -> bool
    decreases steps,
{
    if steps == 0 {
        false
    } else {
        match specUpstreamIdx(convs, from) {
            Some(j) => j == target || specUpstreamReaches(convs, j, target, (steps - 1) as nat),
            None => false,
        }
    }
}

/// No belt is its own upstream, directly or transitively.  The upstream
/// relation is a partial function, so any cycle through a belt closes
/// within as many hops as there are belts.
pub open spec fn specAcyclicConveyors(convs: Seq<JSONConveyor>) -> bool {
    forall|k: int|
        0 <= k < convs.len() ==> !specUpstreamReaches(convs, k, k, convs.len())
}

/// At most one position can be the first match for an id.
pub proof fn lemmaFirstMatchUnique(convs: Seq<JSONConveyor>, id: Seq<char>, j1: int, j2: int)
    requires
        isFirstMatchConveyor(convs, id, j1),
        isFirstMatchConveyor(convs, id, j2),
    ensures
        j1 == j2,
{
    if j1 < j2 {
        assert(convs[j1].id@ == id);
    }
    if j2 < j1 {
        assert(convs[j2].id@ == id);
    }
}

/// A resolved first match determines the upstream function.
pub proof fn lemmaUpstreamIdxOf(convs: Seq<JSONConveyor>, k: int, j: int)
    requires
        0 <= k < convs.len(),
        convs[k].inputID matches Some(s) && isFirstMatchConveyor(convs, s@, j),
    ensures
        specUpstreamIdx(convs, k) == Some(j),
{
    match convs[k].inputID {
        Some(s) => {
            assert(isFirstMatchConveyor(convs, s@, j));
            let c = choose|j2: int| isFirstMatchConveyor(convs, s@, j2);
            lemmaFirstMatchUnique(convs, s@, c, j);
        },
        None => {},
    }
}

/// Reachability along upstream links is monotone in the hop budget.
pub proof fn lemmaReachesMonotone(
    convs: Seq<JSONConveyor>,
    from: int,
    target: int,
    n1: nat,
    n2: nat,
)
    requires
        n1 <= n2,
        specUpstreamReaches(convs, from, target, n1),
    ensures
        specUpstreamReaches(convs, from, target, n2),
    decreases n1,
{
    if n1 > 0 {
        match specUpstreamIdx(convs, from) {
            Some(j) => {
                if j != target {
                    lemmaReachesMonotone(convs, j, target, (n1 - 1) as nat, (n2 - 1) as nat);
                }
            },
            None => {},
        }
    }
}

pub open spec fn specFaultOk(jf: JSONFault) -> bool {
    &&& jf.faultChanceMilli <= 1000
    &&& jf.faultTimeLowMs <= jf.faultTimeHighMs
    &&& jf.faultTimeHighMs <= MAX_TIME_MS
}

/// Validity of one configured conveyor: at least one cell, a representable
/// speed, and an upstream reference (if any) that exists and is not the
/// belt itself.
pub open spec fn specConveyorOk(convs: Seq<JSONConveyor>, k: int) -> bool {
    let jc = convs[k];
    &&& jc.capacity >= 1
    &&& jc.beltSpeedMs <= MAX_TIME_MS
    &&& (jc.inputID matches Some(s) ==> specHasConveyor(convs, s@) && !isFirstMatchConveyor(
        convs,
        s@,
        k,
    ))
}

/// Validity of one configured machine: representable stage speeds, a sound
/// fault table, and belt references that exist.
pub open spec fn specMachineOk(fac: JSONFactory, k: int) -> bool {
    let jm = fac.machines[k];
    &&& jm.inputSpeedMs <= MAX_TIME_MS
    &&& jm.processingSpeedMs <= MAX_TIME_MS
    &&& jm.outputSpeedMs <= MAX_TIME_MS
    &&& forall|i: int| 0 <= i < jm.faults@.len() ==> specFaultOk(#[trigger] jm.faults@[i])
    &&& forall|i: int|
        0 <= i < jm.inputIDs@.len() ==> specHasConveyor(
            fac.conveyors@,
            (#[trigger] jm.inputIDs@[i])@,
        )
    &&& forall|i: int|
        0 <= i < jm.outputIDs@.len() ==> specHasConveyor(
            fac.conveyors@,
            (#[trigger] jm.outputIDs@[i])@,
        )
}

/// A configuration is accepted exactly when all of this holds.
pub open spec fn specConfigValid(d: JSONData) -> bool {
    &&& 1 <= d.factory.pollRateMs
    &&& d.factory.pollRateMs <= MAX_TIME_MS
    &&& d.factory.simSpeedMilli <= MAX_SIM_SPEED_MILLI
    &&& specDistinctConveyorIDs(d.factory.conveyors@)
    &&& specDistinctMachineIDs(d.factory.machines@)
    &&& specAcyclicConveyors(d.factory.conveyors@)
    &&& forall|k: int| 0 <= k < d.factory.conveyors@.len() ==> specConveyorOk(
        d.factory.conveyors@,
        k,
    )
    &&& forall|k: int| 0 <= k < d.factory.machines@.len() ==> specMachineOk(d.factory, k)
}

/// Why a configuration was rejected.
#[derive(Clone, Copy, Debug, PartialEq, Eq, Structural)]
pub enum ConfigError {
    ZeroPollRate,
    TimeTooLarge,
    SpeedTooLarge,
    DuplicateConveyorID,
    DuplicateMachineID,
    ZeroBeltCapacity,
    UnknownConveyor,
    SelfFeedingConveyor,
    CyclicConveyors,
    BadFaultChance,
    BadFaultTimes,
}

impl ConfigError {
    /// The text reported for a rejected configuration.
    pub open spec fn specMessage(self) -> Seq<char> {
        match self {
            ConfigError::ZeroPollRate => "Poll rate must be positive."@,
            ConfigError::TimeTooLarge => "A time field is too large."@,
            ConfigError::SpeedTooLarge => "Simulation speed is too large."@,
            ConfigError::DuplicateConveyorID => "Conveyor ids must be unique."@,
            ConfigError::DuplicateMachineID => "Machine ids must be unique."@,
            ConfigError::ZeroBeltCapacity => "Conveyor capacity must be at least one."@,
            ConfigError::UnknownConveyor => "A referenced conveyor does not exist."@,
            ConfigError::SelfFeedingConveyor => "A conveyor cannot take input from itself."@,
            ConfigError::CyclicConveyors => "The conveyors feed each other in a cycle."@,
            ConfigError::BadFaultChance => "A fault chance is above one."@,
            ConfigError::BadFaultTimes => "A fault recovery window is inverted."@,
        }
    }

    pub fn message(&self) -> (r: String)
        ensures
            r@ == self.specMessage(),
    {
        match self {
            ConfigError::ZeroPollRate => String::from_str("Poll rate must be positive."),
            ConfigError::TimeTooLarge => String::from_str("A time field is too large."),
            ConfigError::SpeedTooLarge => String::from_str("Simulation speed is too large."),
            ConfigError::DuplicateConveyorID => String::from_str("Conveyor ids must be unique."),
            ConfigError::DuplicateMachineID => String::from_str("Machine ids must be unique."),
            ConfigError::ZeroBeltCapacity => String::from_str(
                "Conveyor capacity must be at least one.",
            ),
            ConfigError::UnknownConveyor => String::from_str(
                "A referenced conveyor does not exist.",
            ),
            ConfigError::SelfFeedingConveyor => String::from_str(
                "A conveyor cannot take input from itself.",
            ),
            ConfigError::CyclicConveyors => String::from_str(
                "The conveyors feed each other in a cycle.",
            ),
            ConfigError::BadFaultChance => String::from_str(
                "A fault chance is above one.",
            ),
            ConfigError::BadFaultTimes => String::from_str(
                "A fault recovery window is inverted.",
            ),
        }
    }
}

/// The initial machine status named by the configuration; unknown words
/// fall back to PRODUCING.
pub open spec fn specStateOf(s: Seq<char>) -> OPCState {
    if crate::text::lowerChars(s) == crate::text::lowerChars("producing"@) {
        OPCState::PRODUCING
    } else if crate::text::lowerChars(s) == crate::text::lowerChars("faulted"@) {
        OPCState::FAULTED
    } else if crate::text::lowerChars(s) == crate::text::lowerChars("blocked"@) {
        OPCState::BLOCKED
    } else if crate::text::lowerChars(s) == crate::text::lowerChars("starved"@) {
        OPCState::STARVED
    } else {
        OPCState::PRODUCING
    }
}

/// The input behavior named by the configuration; unknown words fall back
/// to the single-belt behavior.
pub open spec fn specInputBehaviorOf(s: Seq<char>) -> InputBehavior {
    if crate::text::lowerChars(s) == crate::text::lowerChars("spawner"@) {
        InputBehavior::SPAWNER
    } else {
        InputBehavior::SINGLE
    }
}

/// The output behavior named by the configuration; `default` and unknown
/// words fall back to the single-belt behavior.
pub open spec fn specOutputBehaviorOf(s: Seq<char>) -> OutputBehavior {
    if crate::text::lowerChars(s) == crate::text::lowerChars("consumer"@) {
        OutputBehavior::CONSUMER
    } else {
        OutputBehavior::SINGLE
    }
}

/// A runtime fault entry built from its configuration entry.
pub open spec fn builtFault(ft: crate::machine::Fault, jf: JSONFault) -> bool {
    &&& ft.faultChanceMilli == jf.faultChanceMilli
    &&& ft.faultMessage == jf.faultMessage
    &&& ft.faultTimeLowUs == jf.faultTimeLowMs * 1000
    &&& ft.faultTimeHighUs == jf.faultTimeHighMs * 1000
}

/// A belt built from conveyor `k` of the configuration: empty cells, times
/// converted to microseconds, the upstream id resolved to the first
/// conveyor with that id.
pub open spec fn builtBelt(b: ConveyorBelt, convs: Seq<JSONConveyor>, k: int) -> bool {
    let jc = convs[k];
    &&& b.id == jc.id
    &&& b.capacity == jc.capacity
    &&& b.beltSpeedUs == jc.beltSpeedMs * 1000
    &&& (match (b.inputID, jc.inputID) {
        (Some(j), Some(s)) => isFirstMatchConveyor(convs, s@, j as int),
        (None, None) => true,
        _ => false,
    })
    &&& b.belt@.len() == jc.capacity
    &&& forall|i: int| 0 <= i < b.belt@.len() ==> b.belt@[i] is None
}

/// A machine built from machine `k` of the configuration: fresh runtime
/// state, times converted to microseconds, keywords resolved, belt ids
/// resolved to positions in the belt list.
pub open spec fn builtMachine(m: Machine, fac: JSONFactory, k: int) -> bool {
    let jm = fac.machines[k];
    &&& m.id == jm.id
    &&& m.cost == jm.cost
    &&& m.throughput == jm.throughput
    &&& m.state == specStateOf(jm.state@)
    &&& m.faults@.len() == jm.faults@.len()
    &&& forall|i: int| 0 <= i < jm.faults@.len() ==> builtFault(
        #[trigger] m.faults@[i],
        jm.faults@[i],
    )
    &&& m.currentFault is None
    &&& m.faultTimeCurrentUs == 0
    &&& m.faultClockUs == 0
    &&& m.processingBehavior == ProcessingBehavior::DEFAULT
    &&& m.processingClockUs == 0
    &&& m.processingTickSpeedUs == jm.processingSpeedMs * 1000
    &&& !m.processingInProgress
    &&& !m.processingDebouncer
    &&& m.inputBehavior == specInputBehaviorOf(jm.inputBehavior@)
    &&& m.inputClockUs == 0
    &&& m.inputTickSpeedUs == jm.inputSpeedMs * 1000
    &&& !m.inputInProgress
    &&& !m.inputDebouncer
    &&& !m.inputWaiting
    &&& m.inputIDs@.len() == jm.inputIDs@.len()
    &&& forall|i: int|
        0 <= i < jm.inputIDs@.len() ==> isFirstMatchConveyor(
            fac.conveyors@,
            (jm.inputIDs@[i])@,
            (#[trigger] m.inputIDs@[i]) as int,
        )
    &&& m.inputInventory == 0
    &&& m.inputInvCapacity == jm.inputCapacity
    &&& m.nextInput == 0
    &&& m.outputBehavior == specOutputBehaviorOf(jm.outputBehavior@)
    &&& m.outputClockUs == 0
    &&& m.outputTickSpeedUs == jm.outputSpeedMs * 1000
    &&& !m.outputInProgress
    &&& !m.outputDebouncer
    &&& !m.outputWaiting
    &&& m.outputIDs@.len() == jm.outputIDs@.len()
    &&& forall|i: int|
        0 <= i < jm.outputIDs@.len() ==> isFirstMatchConveyor(
            fac.conveyors@,
            (jm.outputIDs@[i])@,
            (#[trigger] m.outputIDs@[i]) as int,
        )
    &&& m.outputInventory == 0
    &&& m.outputInvCapacity == jm.outputCapacity
    &&& m.nextOutput == 0
    &&& m.producedCount == 0
    &&& m.consumedCount == 0
    &&& m.stateChangeCount == 0
    &&& m.faultedCount == 0
    &&& m.sensor == jm.sensor
    &&& m.baselineMilli == jm.sensorBaselineMilli
    &&& m.varianceMilli == jm.sensorVarianceMilli
}

/// A factory built from a configuration.
pub open spec fn buildMatches(d: JSONData, f: Factory) -> bool {
    &&& f.name == d.factory.name
    &&& f.description == d.factory.description
    &&& f.simSpeedMilli == d.factory.simSpeedMilli
    &&& f.pollRateUs == d.factory.pollRateMs * 1000
    &&& f.debounceRateInPolls == d.factory.debounceRateInPolls
    &&& f.conveyors@.len() == d.factory.conveyors@.len()
    &&& forall|k: int| 0 <= k < f.conveyors@.len() ==> builtBelt(
        #[trigger] f.conveyors@[k],
        d.factory.conveyors@,
        k,
    )
    &&& f.machines@.len() == d.factory.machines@.len()
    &&& forall|k: int| 0 <= k < f.machines@.len() ==> builtMachine(
        #[trigger] f.machines@[k],
        d.factory,
        k,
    )
}

/// First conveyor with the given id, if any.
fn findConveyorIndex(convs: &Vec<JSONConveyor>, id: &String) -> (r: Option<usize>)
    ensures
        r matches Some(k) ==> isFirstMatchConveyor(convs@, id@, k as int),
        r is None ==> !specHasConveyor(convs@, id@),
{
    let len = convs.len();
    let mut i: usize = 0;
    while i < len
        invariant
            len == convs@.len(),
            i <= len,
            forall|j: int| 0 <= j < i ==> (#[trigger] convs@[j]).id@ != id@,
        decreases len - i,
    {
        if crate::text::stringsEqual(&convs[i].id, id) {
            return Some(i);
        }
        i = i + 1;
    }
    None
}

/// Are all conveyor ids distinct?
fn conveyorIDsDistinct(convs: &Vec<JSONConveyor>) -> (r: bool)
    ensures
        r == specDistinctConveyorIDs(convs@),
{
    let len = convs.len();
    let mut k: usize = 0;
    while k < len
        invariant
            len == convs@.len(),
            k <= len,
            forall|a: int, b: int|
                0 <= a < b < k ==> (#[trigger] convs@[a]).id@ != (#[trigger] convs@[b]).id@,
        decreases len - k,
    {
        let mut j: usize = 0;
        while j < k
            invariant
                len == convs@.len(),
                j <= k < len,
                forall|a: int, b: int|
                    0 <= a < b < k ==> (#[trigger] convs@[a]).id@ != (#[trigger] convs@[b]).id@,
                forall|a: int| 0 <= a < j ==> (#[trigger] convs@[a]).id@ != convs@[k as int].id@,
            decreases k - j,
        {
            if crate::text::stringsEqual(&convs[j].id, &convs[k].id) {
                return false;
            }
            j = j + 1;
        }
        k = k + 1;
    }
    true
}

/// Are all machine ids distinct?
fn machineIDsDistinct(ms: &Vec<JSONMachine>) -> (r: bool)
    ensures
        r == specDistinctMachineIDs(ms@),
{
    let len = ms.len();
    let mut k: usize = 0;
    while k < len
        invariant
            len == ms@.len(),
            k <= len,
            forall|a: int, b: int|
                0 <= a < b < k ==> (#[trigger] ms@[a]).id@ != (#[trigger] ms@[b]).id@,
        decreases len - k,
    {
        let mut j: usize = 0;
        while j < k
            invariant
                len == ms@.len(),
                j <= k < len,
                forall|a: int, b: int|
                    0 <= a < b < k ==> (#[trigger] ms@[a]).id@ != (#[trigger] ms@[b]).id@,
                forall|a: int| 0 <= a < j ==> (#[trigger] ms@[a]).id@ != ms@[k as int].id@,
            decreases k - j,
        {
            if crate::text::stringsEqual(&ms[j].id, &ms[k].id) {
                return false;
            }
            j = j + 1;
        }
        k = k + 1;
    }
    true
}

/// Does following upstream links from belt `start` come back to `start`
/// within one full lap of the belt list?  Walks the built belts, whose
/// resolved upstream positions realize the configuration's upstream
/// function.
fn chainReturnsTo(conveyors: &Vec<ConveyorBelt>, convs: &Vec<JSONConveyor>, start: usize) -> (r:
    bool)
    requires
        conveyors@.len() == convs@.len(),
        start < conveyors@.len(),
        forall|i: int| 0 <= i < conveyors@.len() ==> builtBelt(
            #[trigger] conveyors@[i],
            convs@,
            i,
        ),
    ensures
        r == specUpstreamReaches(convs@, start as int, start as int, convs@.len()),
{
    let len = conveyors.len();
    let mut cur: usize = start;
    let mut steps: usize = 0;
    while steps < len
        invariant
            len == convs@.len(),
            len == conveyors@.len(),
            forall|i: int| 0 <= i < conveyors@.len() ==> builtBelt(
                #[trigger] conveyors@[i],
                convs@,
                i,
            ),
            start < len,
            cur < len,
            steps <= len,
            forall|m: nat|
                specUpstreamReaches(convs@, start as int, start as int, (steps + m) as nat)
                    == #[trigger] specUpstreamReaches(convs@, cur as int, start as int, m),
        decreases len - steps,
    {
        let upstream = conveyors[cur].inputID;
        match upstream {
            None => {
                proof {
                    assert(specUpstreamIdx(convs@, cur as int) is None);
                    let rem = (len - steps) as nat;
                    assert(!specUpstreamReaches(convs@, cur as int, start as int, rem));
                    assert(specUpstreamReaches(
                        convs@,
                        start as int,
                        start as int,
                        (steps + rem) as nat,
                    ) == specUpstreamReaches(convs@, cur as int, start as int, rem));
                    assert((steps + rem) as nat == convs@.len());
                }
                return false;
            },
            Some(j) => {
                proof {
                    assert(builtBelt(conveyors@[cur as int], convs@, cur as int));
                    lemmaUpstreamIdxOf(convs@, cur as int, j as int);
                }
                if j == start {
                    proof {
                        assert(specUpstreamReaches(convs@, cur as int, start as int, 1));
                        assert(specUpstreamReaches(
                            convs@,
                            start as int,
                            start as int,
                            (steps + 1) as nat,
                        ));
                        lemmaReachesMonotone(
                            convs@,
                            start as int,
                            start as int,
                            (steps + 1) as nat,
                            convs@.len(),
                        );
                    }
                    return true;
                }
                proof {
                    assert forall|m: nat|
                        specUpstreamReaches(
                            convs@,
                            start as int,
                            start as int,
                            ((steps + 1) + m) as nat,
                        ) == #[trigger] specUpstreamReaches(
                            convs@,
                            j as int,
                            start as int,
                            m,
                        ) by {
                        assert(specUpstreamReaches(
                            convs@,
                            cur as int,
                            start as int,
                            (m + 1) as nat,
                        ) == specUpstreamReaches(convs@, j as int, start as int, m));
                        assert(specUpstreamReaches(
                            convs@,
                            start as int,
                            start as int,
                            (steps + (m + 1) as nat) as nat,
                        ) == specUpstreamReaches(convs@, cur as int, start as int, (m + 1) as nat));
                        assert(((steps + 1) + m) as nat == (steps + (m + 1) as nat) as nat);
                    }
                }
                cur = j;
            },
        }
        steps = steps + 1;
    }
    proof {
        assert(specUpstreamReaches(convs@, start as int, start as int, (steps + 0) as nat)
            == specUpstreamReaches(convs@, cur as int, start as int, 0));
        assert((steps + 0) as nat == convs@.len());
    }
    false
}

/// Build the runtime factory from a parsed configuration, validating it
/// first; the configuration is accepted exactly when `specConfigValid`
/// holds of it.
#[verifier::rlimit(100)]
pub fn factorySetup(data: &JSONData) -> (r: Result<Factory, ConfigError>)
    ensures
        r is Ok <==> specConfigValid(*data),
        r matches Ok(f) ==> f.wf() && buildMatches(*data, f),
{
    if data.factory.pollRateMs == 0 {
        return Err(ConfigError::ZeroPollRate);
    }
    if data.factory.pollRateMs > MAX_TIME_MS {
        return Err(ConfigError::TimeTooLarge);
    }
    if data.factory.simSpeedMilli > MAX_SIM_SPEED_MILLI {
        return Err(ConfigError::SpeedTooLarge);
    }
    if !conveyorIDsDistinct(&data.factory.conveyors) {
        return Err(ConfigError::DuplicateConveyorID);
    }
    if !machineIDsDistinct(&data.factory.machines) {
        return Err(ConfigError::DuplicateMachineID);
    }

    let beltCount = data.factory.conveyors.len();
    let mut conveyors: Vec<ConveyorBelt> = Vec::new();
    let mut k: usize = 0;
    while k < beltCount
        invariant
            beltCount == data.factory.conveyors@.len(),
            k <= beltCount,
            conveyors@.len() == k,
            beltsWf(conveyors@),
            forall|i: int| 0 <= i < k ==> specConveyorOk(data.factory.conveyors@, i),
            forall|i: int| 0 <= i < k ==> builtBelt(
                #[trigger] conveyors@[i],
                data.factory.conveyors@,
                i,
            ),
        decreases beltCount - k,
    {
        let jc = &data.factory.conveyors[k];
        if jc.capacity == 0 {
            proof {
                assert(!specConveyorOk(data.factory.conveyors@, k as int));
            }
            return Err(ConfigError::ZeroBeltCapacity);
        }
        if jc.beltSpeedMs > MAX_TIME_MS {
            proof {
                assert(!specConveyorOk(data.factory.conveyors@, k as int));
            }
            return Err(ConfigError::TimeTooLarge);
        }
        let inputIdx: Option<usize> = match &jc.inputID {
            None => None,
            Some(s) => {
                match findConveyorIndex(&data.factory.conveyors, s) {
                    None => {
                        proof {
                            assert(!specConveyorOk(data.factory.conveyors@, k as int));
                        }
                        return Err(ConfigError::UnknownConveyor);
                    },
                    Some(j) => {
                        if j == k {
                            proof {
                                assert(!specConveyorOk(data.factory.conveyors@, k as int));
                            }
                            return Err(ConfigError::SelfFeedingConveyor);
                        }
                        proof {
                            assert(data.factory.conveyors@[j as int].id@ == s@);
                            assert(specHasConveyor(data.factory.conveyors@, s@));
                        }
                        Some(j)
                    },
                }
            },
        };
        let b = ConveyorBelt::new(
            jc.id.clone(),
            jc.capacity,
            (jc.beltSpeedMs as u128) * 1000,
            inputIdx,
        );
        conveyors.push(b);
        proof {
            assert(specConveyorOk(data.factory.conveyors@, k as int));
            assert(builtBelt(conveyors@[k as int], data.factory.conveyors@, k as int));
        }
        k = k + 1;
    }

    let mut ci: usize = 0;
    while ci < beltCount
        invariant
            beltCount == data.factory.conveyors@.len(),
            conveyors@.len() == beltCount,
            beltsWf(conveyors@),
            forall|i: int| 0 <= i < beltCount ==> specConveyorOk(data.factory.conveyors@, i),
            forall|i: int| 0 <= i < beltCount ==> builtBelt(
                #[trigger] conveyors@[i],
                data.factory.conveyors@,
                i,
            ),
            ci <= beltCount,
            forall|i: int|
                0 <= i < ci ==> !specUpstreamReaches(
                    data.factory.conveyors@,
                    i,
                    i,
                    data.factory.conveyors@.len(),
                ),
        decreases beltCount - ci,
    {
        if chainReturnsTo(&conveyors, &data.factory.conveyors, ci) {
            proof {
                assert(!specAcyclicConveyors(data.factory.conveyors@));
            }
            return Err(ConfigError::CyclicConveyors);
        }
        ci = ci + 1;
    }
    proof {
        assert(specAcyclicConveyors(data.factory.conveyors@));
    }

    let machineCount = data.factory.machines.len();
    let mut machines: Vec<Machine> = Vec::new();
    let mut mk: usize = 0;
    while mk < machineCount
        invariant
            machineCount == data.factory.machines@.len(),
            mk <= machineCount,
            machines@.len() == mk,
            beltCount == data.factory.conveyors@.len(),
            conveyors@.len() == beltCount,
            beltsWf(conveyors@),
            forall|i: int| 0 <= i < beltCount ==> specConveyorOk(data.factory.conveyors@, i),
            forall|i: int| 0 <= i < beltCount ==> builtBelt(
                #[trigger] conveyors@[i],
                data.factory.conveyors@,
                i,
            ),
            forall|i: int| 0 <= i < mk ==> specMachineOk(data.factory, i),
            forall|i: int| 0 <= i < mk ==> builtMachine(
                #[trigger] machines@[i],
                data.factory,
                i,
            ),
            forall|i: int| 0 <= i < mk ==> (#[trigger] machines@[i]).wf(),
        decreases machineCount - mk,
    {
        let jm = &data.factory.machines[mk];
        if jm.inputSpeedMs > MAX_TIME_MS || jm.processingSpeedMs > MAX_TIME_MS
            || jm.outputSpeedMs > MAX_TIME_MS {
            proof {
                assert(!specMachineOk(data.factory, mk as int));
            }
            return Err(ConfigError::TimeTooLarge);
        }

        let mut state = OPCState::PRODUCING;
        if crate::text::eqIgnoreAsciiCase(jm.state.as_str(), "producing") {
            state = OPCState::PRODUCING;
        } else if crate::text::eqIgnoreAsciiCase(jm.state.as_str(), "faulted") {
            state = OPCState::FAULTED;
        } else if crate::text::eqIgnoreAsciiCase(jm.state.as_str(), "blocked") {
            state = OPCState::BLOCKED;
        } else if crate::text::eqIgnoreAsciiCase(jm.state.as_str(), "starved") {
            state = OPCState::STARVED;
        }
        proof {
            assert(state == specStateOf(jm.state@));
        }

        let faultCount = jm.faults.len();
        let mut machineFaults: Vec<crate::machine::Fault> = Vec::new();
        let mut fi: usize = 0;
        while fi < faultCount
            invariant
                mk < machineCount,
                machineCount == data.factory.machines@.len(),
                *jm == data.factory.machines@[mk as int],
                faultCount == jm.faults@.len(),
                fi <= faultCount,
                machineFaults@.len() == fi,
                forall|i: int| 0 <= i < fi ==> specFaultOk(jm.faults@[i]),
                forall|i: int| 0 <= i < fi ==> builtFault(
                    #[trigger] machineFaults@[i],
                    jm.faults@[i],
                ),
                forall|i: int| 0 <= i < fi ==> (#[trigger] machineFaults@[i]).wf(),
            decreases faultCount - fi,
        {
            let jf = &jm.faults[fi];
            if jf.faultChanceMilli > 1000 || jf.faultTimeLowMs > jf.faultTimeHighMs
                || jf.faultTimeHighMs > MAX_TIME_MS {
                proof {
                    assert(!specFaultOk(jm.faults@[fi as int]));
                    assert(!specMachineOk(data.factory, mk as int));
                }
                if jf.faultChanceMilli > 1000 {
                    return Err(ConfigError::BadFaultChance);
                }
                if jf.faultTimeLowMs > jf.faultTimeHighMs {
                    return Err(ConfigError::BadFaultTimes);
                }
                return Err(ConfigError::TimeTooLarge);
            }
            machineFaults.push(
                crate::machine::Fault {
                    faultChanceMilli: jf.faultChanceMilli,
                    faultMessage: jf.faultMessage.clone(),
                    faultTimeHighUs: (jf.faultTimeHighMs as u128) * 1000,
                    faultTimeLowUs: (jf.faultTimeLowMs as u128) * 1000,
                },
            );
            fi = fi + 1;
        }

        let inCount = jm.inputIDs.len();
        let mut inIdx: Vec<usize> = Vec::new();
        let mut ii: usize = 0;
        while ii < inCount
            invariant
                mk < machineCount,
                machineCount == data.factory.machines@.len(),
                *jm == data.factory.machines@[mk as int],
                inCount == jm.inputIDs@.len(),
                ii <= inCount,
                inIdx@.len() == ii,
                beltCount == data.factory.conveyors@.len(),
                forall|i: int|
                    0 <= i < ii ==> specHasConveyor(
                        data.factory.conveyors@,
                        (jm.inputIDs@[i])@,
                    ),
                forall|i: int|
                    0 <= i < ii ==> isFirstMatchConveyor(
                        data.factory.conveyors@,
                        (jm.inputIDs@[i])@,
                        (#[trigger] inIdx@[i]) as int,
                    ),
            decreases inCount - ii,
        {
            match findConveyorIndex(&data.factory.conveyors, &jm.inputIDs[ii]) {
                None => {
                    proof {
                        assert(!specMachineOk(data.factory, mk as int));
                    }
                    return Err(ConfigError::UnknownConveyor);
                },
                Some(j) => {
                    proof {
                        assert(data.factory.conveyors@[j as int].id@ == jm.inputIDs@[ii as int]@);
                        assert(specHasConveyor(
                            data.factory.conveyors@,
                            jm.inputIDs@[ii as int]@,
                        ));
                    }
                    inIdx.push(j);
                },
            }
            ii = ii + 1;
        }

        let outCount = jm.outputIDs.len();
        let mut outIdx: Vec<usize> = Vec::new();
        let mut oi: usize = 0;
        while oi < outCount
            invariant
                mk < machineCount,
                machineCount == data.factory.machines@.len(),
                *jm == data.factory.machines@[mk as int],
                outCount == jm.outputIDs@.len(),
                oi <= outCount,
                outIdx@.len() == oi,
                beltCount == data.factory.conveyors@.len(),
                forall|i: int|
                    0 <= i < oi ==> specHasConveyor(
                        data.factory.conveyors@,
                        (jm.outputIDs@[i])@,
                    ),
                forall|i: int|
                    0 <= i < oi ==> isFirstMatchConveyor(
                        data.factory.conveyors@,
                        (jm.outputIDs@[i])@,
                        (#[trigger] outIdx@[i]) as int,
                    ),
            decreases outCount - oi,
        {
            match findConveyorIndex(&data.factory.conveyors, &jm.outputIDs[oi]) {
                None => {
                    proof {
                        assert(!specMachineOk(data.factory, mk as int));
                    }
                    return Err(ConfigError::UnknownConveyor);
                },
                Some(j) => {
                    proof {
                        assert(data.factory.conveyors@[j as int].id@ == jm.outputIDs@[oi as int]@);
                        assert(specHasConveyor(
                            data.factory.conveyors@,
                            jm.outputIDs@[oi as int]@,
                        ));
                    }
                    outIdx.push(j);
                },
            }
            oi = oi + 1;
        }

        let mut newMachine = Machine::new(
            jm.id.clone(),
            jm.cost,
            jm.throughput,
            state,
            machineFaults,
            (jm.processingSpeedMs as u128) * 1000,
            (jm.inputSpeedMs as u128) * 1000,
            jm.inputCapacity,
            (jm.outputSpeedMs as u128) * 1000,
            jm.outputCapacity,
            jm.sensor,
            jm.sensorBaselineMilli,
            jm.sensorVarianceMilli,
        );
        newMachine.inputIDs = inIdx;
        newMachine.outputIDs = outIdx;

        let mut inputBehavior = InputBehavior::SINGLE;
        if crate::text::eqIgnoreAsciiCase(jm.inputBehavior.as_str(), "spawner") {
            inputBehavior = InputBehavior::SPAWNER;
        } else if crate::text::eqIgnoreAsciiCase(jm.inputBehavior.as_str(), "single") {
            inputBehavior = InputBehavior::SINGLE;
        }
        let processingBehavior = ProcessingBehavior::DEFAULT;
        let mut outputBehavior = OutputBehavior::SINGLE;
        if crate::text::eqIgnoreAsciiCase(jm.outputBehavior.as_str(), "consumer") {
            outputBehavior = OutputBehavior::CONSUMER;
        } else if crate::text::eqIgnoreAsciiCase(jm.outputBehavior.as_str(), "default") {
            outputBehavior = OutputBehavior::SINGLE;
        }
        newMachine.inputBehavior = inputBehavior;
        newMachine.processingBehavior = processingBehavior;
        newMachine.outputBehavior = outputBehavior;

        machines.push(newMachine);
        proof {
            assert(specMachineOk(data.factory, mk as int));
            assert(builtMachine(machines@[mk as int], data.factory, mk as int));
        }
        mk = mk + 1;
    }

    let result = Factory {
        name: data.factory.name.clone(),
        description: data.factory.description.clone(),
        simSpeedMilli: data.factory.simSpeedMilli,
        pollRateUs: (data.factory.pollRateMs as u128) * 1000,
        debounceRateInPolls: data.factory.debounceRateInPolls,
        machines,
        conveyors,
    };
    proof {
        assert forall|k2: int|
            0 <= k2 < result.conveyors@.len() implies ((#[trigger] result.conveyors@[k2]).inputID
            matches Some(j) ==> j < result.conveyors@.len() && j != k2) by {
            assert(builtBelt(result.conveyors@[k2], data.factory.conveyors@, k2));
            assert(specConveyorOk(data.factory.conveyors@, k2));
            match result.conveyors@[k2].inputID {
                Some(j) => {
                    match data.factory.conveyors@[k2].inputID {
                        Some(s) => {
                            assert(isFirstMatchConveyor(data.factory.conveyors@, s@, j as int));
                            assert(!isFirstMatchConveyor(data.factory.conveyors@, s@, k2));
                        },
                        None => {},
                    }
                },
                None => {},
            }
        }
        assert forall|k2: int, i: int|
            0 <= k2 < result.machines@.len() && 0 <= i
                < result.machines@[k2].inputIDs@.len() implies (
        #[trigger] result.machines@[k2].inputIDs@[i]) < result.conveyors@.len() by {
            assert(builtMachine(result.machines@[k2], data.factory, k2));
        }
        assert forall|k2: int, i: int|
            0 <= k2 < result.machines@.len() && 0 <= i
                < result.machines@[k2].outputIDs@.len() implies (
        #[trigger] result.machines@[k2].outputIDs@[i]) < result.conveyors@.len() by {
            assert(builtMachine(result.machines@[k2], data.factory, k2));
        }
        assert(result.wf());
    }
    Ok(result)
}

} // verus!
