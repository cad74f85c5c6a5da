//! Machines: three-stage state machines (input, processing, output) with
//! per-stage clocks, buffers, a fault table and a debounced observable
//! status.  Each stage is advanced once per driver tick; stages are selected
//! by small behavior enums resolved from the configuration.
use vstd::prelude::*;
use vstd::string::*;

use crate::arith::{satAddUsize, specSatAdd, MAX_TIME_US};
use crate::belt::{
    beltsWf, freshItem, headEmpty, pullAt, pushAt, sameShape, tailOccupied, ConveyorBelt,
};
use vstd::arithmetic::div_mod::{
    lemma_add_mod_noop, lemma_div_is_ordered, lemma_div_multiples_vanish, lemma_small_mod,
};

verus! {

/// Relies on rand::random: a uniformly drawn value; nothing can be promised
/// of a random result, so this has no `ensures`.
pub assume_specification<T>[ rand::random::<T> ]() -> (r: T)
    where
        rand::distributions::Standard: rand::distributions::Distribution<T>,
;

/// The observable machine status published over OPC.
#[derive(Clone, Copy, Debug, PartialEq, Eq, Structural)]
pub enum OPCState {
    PRODUCING,
    FAULTED,
    BLOCKED,
    STARVED,
    STARVEDBLOCKED,
}

impl OPCState {
    /// The lowercase text form of a status, as published on the `state` tag.
    pub open spec fn specText(self) -> Seq<char> {
        match self {
            OPCState::PRODUCING => "producing"@,
            OPCState::FAULTED => "faulted"@,
            OPCState::BLOCKED => "blocked"@,
            OPCState::STARVED => "starved"@,
            OPCState::STARVEDBLOCKED => "starved and blocked"@,
        }
    }

    pub fn toText(&self) -> (r: String)
        ensures
            r@ == self.specText(),
    {
        match self {
            OPCState::PRODUCING => String::from_str("producing"),
            OPCState::FAULTED => String::from_str("faulted"),
            OPCState::BLOCKED => String::from_str("blocked"),
            OPCState::STARVED => String::from_str("starved"),
            OPCState::STARVEDBLOCKED => String::from_str("starved and blocked"),
        }
    }
}

/// How the input stage acquires material.
#[derive(Clone, Copy, Debug, PartialEq, Eq, Structural)]
pub enum InputBehavior {
    /// Infinite source: material is always available.
    SPAWNER,
    /// Pull one item at a time from one upstream belt.
    SINGLE,
}

/// How the processing stage runs.
#[derive(Clone, Copy, Debug, PartialEq, Eq, Structural)]
pub enum ProcessingBehavior {
    DEFAULT,
}

/// How the output stage disposes of products.
#[derive(Clone, Copy, Debug, PartialEq, Eq, Structural)]
pub enum OutputBehavior {
    /// Infinite sink: products simply disappear.
    CONSUMER,
    /// Push one item at a time onto one downstream belt.
    SINGLE,
}

/// One entry of a machine's fault table.  The firing chance is held in
/// thousandths, so a roll `seed` drawn uniformly from `[0, 1000)` fires the
/// fault exactly when `seed < faultChanceMilli`; recovery times are held in
/// microseconds with `faultTimeLowUs <= faultTimeHighUs`.
pub struct Fault {
    pub faultChanceMilli: u64,
    pub faultMessage: String,
    pub faultTimeHighUs: u128,
    pub faultTimeLowUs: u128,
}

impl Fault {
    pub open spec fn wf(self) -> bool {
        &&& self.faultChanceMilli <= 1000
        &&& self.faultTimeLowUs <= self.faultTimeHighUs
        &&& self.faultTimeHighUs <= MAX_TIME_US
    }
}

/// A production machine.  All clocks and tick thresholds are microseconds.
/// `inputIDs` and `outputIDs` are positions of belts in the driver's belt
/// list; `currentFault` is the position of the active fault in `faults`.
#[verifier::ext_equal]
pub struct Machine {
    pub id: String,
    pub cost: usize,
    pub throughput: usize,
    pub state: OPCState,
    pub faults: Vec<Fault>,
    pub currentFault: Option<usize>,
    pub faultTimeCurrentUs: u128,
    pub faultClockUs: u128,

    pub processingBehavior: ProcessingBehavior,
    pub processingClockUs: u128,
    pub processingTickSpeedUs: u128,
    pub processingInProgress: bool,
    pub processingDebouncer: bool,

    pub inputBehavior: InputBehavior,
    pub inputClockUs: u128,
    pub inputTickSpeedUs: u128,
    pub inputInProgress: bool,
    pub inputDebouncer: bool,
    pub inputWaiting: bool,
    pub inputIDs: Vec<usize>,
    pub inputInventory: usize,
    pub inputInvCapacity: usize,
    pub nextInput: usize,

    pub outputBehavior: OutputBehavior,
    pub outputClockUs: u128,
    pub outputTickSpeedUs: u128,
    pub outputInProgress: bool,
    pub outputDebouncer: bool,
    pub outputWaiting: bool,
    pub outputIDs: Vec<usize>,
    pub outputInventory: usize,
    pub outputInvCapacity: usize,
    pub nextOutput: usize,

    pub producedCount: usize,
    pub consumedCount: usize,
    pub stateChangeCount: usize,
    pub faultedCount: usize,

    pub sensor: bool,
    pub baselineMilli: i64,
    pub varianceMilli: i64,
}

impl Machine {
    /// Structural invariant of a machine.  The two buffer bounds are the
    /// inventory invariant: `0 <= inputInventory <= inputInvCapacity` and
    /// `0 <= outputInventory <= outputInvCapacity`.
    pub open spec fn wf(self) -> bool {
        &&& self.inputInventory <= self.inputInvCapacity
        &&& self.outputInventory <= self.outputInvCapacity
        &&& self.inputInProgress ==> self.inputInventory < self.inputInvCapacity
        &&& self.outputInProgress ==> self.outputInventory > 0
        &&& self.processingInProgress ==> self.inputInventory >= self.cost
            && self.outputInventory == 0 && self.outputInvCapacity >= self.throughput
        &&& self.outputBehavior == OutputBehavior::SINGLE && self.outputInProgress
            ==> self.outputIDs@.len() > 0
        &&& self.inputIDs@.len() > 0 ==> self.nextInput < self.inputIDs@.len()
        &&& self.outputIDs@.len() > 0 ==> self.nextOutput < self.outputIDs@.len()
        &&& forall|i: int| 0 <= i < self.faults@.len() ==> (#[trigger] self.faults@[i]).wf()
        &&& self.currentFault matches Some(fi) ==> fi < self.faults@.len()
        &&& self.inputTickSpeedUs <= MAX_TIME_US
        &&& self.processingTickSpeedUs <= MAX_TIME_US
        &&& self.outputTickSpeedUs <= MAX_TIME_US
        &&& self.faultTimeCurrentUs <= MAX_TIME_US
        &&& self.faultClockUs <= self.faultTimeCurrentUs
    }

    /// A fault reference is held exactly while the machine is FAULTED.
    pub open spec fn faultConsistent(self) -> bool {
        (self.currentFault is Some) <==> self.state == OPCState::FAULTED
    }

    /// Everything the configuration fixes about a machine: identity,
    /// production parameters, topology, behaviors and the fault table.
    pub open spec fn sameConfig(self, o: Machine) -> bool {
        &&& self.id == o.id
        &&& self.cost == o.cost
        &&& self.throughput == o.throughput
        &&& self.faults == o.faults
        &&& self.processingBehavior == o.processingBehavior
        &&& self.processingTickSpeedUs == o.processingTickSpeedUs
        &&& self.inputBehavior == o.inputBehavior
        &&& self.inputTickSpeedUs == o.inputTickSpeedUs
        &&& self.inputIDs == o.inputIDs
        &&& self.inputInvCapacity == o.inputInvCapacity
        &&& self.outputBehavior == o.outputBehavior
        &&& self.outputTickSpeedUs == o.outputTickSpeedUs
        &&& self.outputIDs == o.outputIDs
        &&& self.outputInvCapacity == o.outputInvCapacity
        &&& self.sensor == o.sensor
        &&& self.baselineMilli == o.baselineMilli
        &&& self.varianceMilli == o.varianceMilli
    }

    pub fn new(
        id: String,
        cost: usize,
        throughput: usize,
        state: OPCState,
        faults: Vec<Fault>,
        processingTickSpeedUs: u128,
        inputTickSpeedUs: u128,
        inputInvCapacity: usize,
        outputTickSpeedUs: u128,
        outputInvCapacity: usize,
        sensor: bool,
        baselineMilli: i64,
        varianceMilli: i64,
    ) -> (r: Machine)
        requires
            forall|i: int| 0 <= i < faults@.len() ==> (#[trigger] faults@[i]).wf(),
            processingTickSpeedUs <= MAX_TIME_US,
            inputTickSpeedUs <= MAX_TIME_US,
            outputTickSpeedUs <= MAX_TIME_US,
        ensures
            r.wf(),
            r.id == id,
            r.cost == cost,
            r.throughput == throughput,
            r.state == state,
            r.faults == faults,
            r.currentFault is None,
            r.faultTimeCurrentUs == 0,
            r.faultClockUs == 0,
            r.processingBehavior == ProcessingBehavior::DEFAULT,
            r.processingClockUs == 0,
            r.processingTickSpeedUs == processingTickSpeedUs,
            !r.processingInProgress,
            !r.processingDebouncer,
            r.inputBehavior == InputBehavior::SINGLE,
            r.inputClockUs == 0,
            r.inputTickSpeedUs == inputTickSpeedUs,
            !r.inputInProgress,
            !r.inputDebouncer,
            !r.inputWaiting,
            r.inputIDs@.len() == 0,
            r.inputInventory == 0,
            r.inputInvCapacity == inputInvCapacity,
            r.nextInput == 0,
            r.outputBehavior == OutputBehavior::SINGLE,
            r.outputClockUs == 0,
            r.outputTickSpeedUs == outputTickSpeedUs,
            !r.outputInProgress,
            !r.outputDebouncer,
            !r.outputWaiting,
            r.outputIDs@.len() == 0,
            r.outputInventory == 0,
            r.outputInvCapacity == outputInvCapacity,
            r.nextOutput == 0,
            r.producedCount == 0,
            r.consumedCount == 0,
            r.stateChangeCount == 0,
            r.faultedCount == 0,
            r.sensor == sensor,
            r.baselineMilli == baselineMilli,
            r.varianceMilli == varianceMilli,
    {
        let inIDs = Vec::<usize>::new();
        let outIDs = Vec::<usize>::new();
        Machine {
            id,
            cost,
            throughput,
            state,
            faults,
            currentFault: None,
            faultTimeCurrentUs: 0,
            faultClockUs: 0,

            processingBehavior: ProcessingBehavior::DEFAULT,
            processingClockUs: 0,
            processingTickSpeedUs,
            processingInProgress: false,
            processingDebouncer: false,

            inputBehavior: InputBehavior::SINGLE,
            inputClockUs: 0,
            inputTickSpeedUs,
            inputInProgress: false,
            inputDebouncer: false,
            inputWaiting: false,
            inputIDs: inIDs,
            inputInventory: 0,
            inputInvCapacity,
            nextInput: 0,

            outputBehavior: OutputBehavior::SINGLE,
            outputClockUs: 0,
            outputTickSpeedUs,
            outputInProgress: false,
            outputDebouncer: false,
            outputWaiting: false,
            outputIDs: outIDs,
            outputInventory: 0,
            outputInvCapacity,
            nextOutput: 0,

            producedCount: 0,
            consumedCount: 0,
            stateChangeCount: 0,
            faultedCount: 0,

            sensor,
            baselineMilli,
            varianceMilli,
        }
    }
}

/// What the spawner input stage does in one tick: start a timed input
/// whenever there is room, and commit one unit when the input clock has
/// reached the input threshold.
pub open spec fn specSpawnerInput(m: Machine, dt: u128) -> (Machine, bool) {
    if !m.inputInProgress && m.inputInventory < m.inputInvCapacity {
        let started = Machine {
            inputWaiting: true,
            inputInProgress: true,
            inputClockUs: 0,
            ..m
        };
        specInputClockPhase(started, dt)
    } else if !m.inputInProgress {
        (Machine { inputWaiting: false, ..m }, false)
    } else {
        specInputClockPhase(m, dt)
    }
}

/// The timed part shared by both input behaviors: advance the clock, or
/// commit one unit of input once the threshold is reached.
pub open spec fn specInputClockPhase(m: Machine, dt: u128) -> (Machine, bool) {
    if m.inputClockUs < m.inputTickSpeedUs {
        (Machine { inputClockUs: (m.inputClockUs + dt) as u128, ..m }, false)
    } else {
        (
            Machine {
                inputInventory: (m.inputInventory + 1) as usize,
                inputInProgress: false,
                ..m
            },
            true,
        )
    }
}

/// What the consumer output stage does in one tick: start a timed output
/// whenever a product is buffered, and discard one unit on completion.
pub open spec fn specConsumerOutput(m: Machine, dt: u128) -> (Machine, bool) {
    if !m.outputInProgress && m.outputInventory > 0 {
        let started = Machine {
            outputWaiting: true,
            outputInProgress: true,
            outputClockUs: 0,
            ..m
        };
        specOutputClockPhase(started, dt)
    } else if !m.outputInProgress {
        (Machine { outputWaiting: false, ..m }, false)
    } else {
        specOutputClockPhase(m, dt)
    }
}

/// The timed part of the consumer output: advance the clock, or remove one
/// unit from the output buffer once the threshold is reached.
pub open spec fn specOutputClockPhase(m: Machine, dt: u128) -> (Machine, bool) {
    if m.outputClockUs < m.outputTickSpeedUs {
        (Machine { outputClockUs: (m.outputClockUs + dt) as u128, ..m }, false)
    } else {
        (
            Machine {
                outputInventory: (m.outputInventory - 1) as usize,
                outputInProgress: false,
                ..m
            },
            true,
        )
    }
}

/// Round-robin search for an upstream belt with an item at its tail.  One
/// position is examined per step, starting at cursor `next`; on a miss the
/// cursor advances modulo the number of input belts.
pub open spec fn specFindInput(
    ids: Seq<usize>,
    belts: Seq<ConveyorBelt>,
    next: int,
    remaining: nat,
) -> (bool, int)
    decreases remaining,
{
    if remaining == 0 {
        (false, next)
    } else if tailOccupied(belts[ids[next] as int]) {
        (true, next)
    } else {
        specFindInput(ids, belts, (next + 1) % (ids.len() as int), (remaining - 1) as nat)
    }
}

/// Round-robin search for a downstream belt with a free head cell.
pub open spec fn specFindOutput(
    ids: Seq<usize>,
    belts: Seq<ConveyorBelt>,
    next: int,
    remaining: nat,
) -> (bool, int)
    decreases remaining,
{
    if remaining == 0 {
        (false, next)
    } else if headEmpty(belts[ids[next] as int]) {
        (true, next)
    } else {
        specFindOutput(ids, belts, (next + 1) % (ids.len() as int), (remaining - 1) as nat)
    }
}

/// The input search as the stage runs it: nothing is sought while the input
/// buffer is full, and the cursor then stays put.
pub open spec fn specFindGuardedInput(m: Machine, belts: Seq<ConveyorBelt>) -> (bool, int) {
    if m.inputInventory >= m.inputInvCapacity {
        (false, m.nextInput as int)
    } else {
        specFindInput(m.inputIDs@, belts, m.nextInput as int, m.inputIDs@.len())
    }
}

/// The output search as the stage runs it: nothing is sought while the
/// output buffer is empty.
pub open spec fn specFindGuardedOutput(m: Machine, belts: Seq<ConveyorBelt>) -> (bool, int) {
    if m.outputInventory == 0 {
        (false, m.nextOutput as int)
    } else {
        specFindOutput(m.outputIDs@, belts, m.nextOutput as int, m.outputIDs@.len())
    }
}

/// The search lands inside the cursor range, on a hit it points at a belt
/// with an occupied tail, and on a full-scan miss it wraps back to where it
/// started.
pub proof fn lemmaFindInputProps(
    ids: Seq<usize>,
    belts: Seq<ConveyorBelt>,
    next: int,
    remaining: nat,
)
    requires
        ids.len() > 0,
        0 <= next < ids.len(),
        remaining <= ids.len(),
    ensures
        ({
            let (f, n) = specFindInput(ids, belts, next, remaining);
            &&& 0 <= n < ids.len()
            &&& f ==> tailOccupied(belts[ids[n] as int])
            &&& !f ==> n == (next + remaining) % (ids.len() as int)
        }),
    decreases remaining,
{
    let len = ids.len() as int;
    if remaining == 0 {
        lemma_small_mod(next as nat, len as nat);
    } else if tailOccupied(belts[ids[next] as int]) {
    } else {
        let next2 = (next + 1) % len;
        lemmaFindInputProps(ids, belts, next2, (remaining - 1) as nat);
        let (f, n) = specFindInput(ids, belts, next2, (remaining - 1) as nat);
        if !f {
            lemma_add_mod_noop(next + 1, remaining - 1, len);
            lemma_small_mod((remaining - 1) as nat, len as nat);
            assert((next2 + (remaining - 1)) % len == (next + remaining) % len);
        }
    }
}

/// The same properties for the output search.
pub proof fn lemmaFindOutputProps(
    ids: Seq<usize>,
    belts: Seq<ConveyorBelt>,
    next: int,
    remaining: nat,
)
    requires
        ids.len() > 0,
        0 <= next < ids.len(),
        remaining <= ids.len(),
    ensures
        ({
            let (f, n) = specFindOutput(ids, belts, next, remaining);
            &&& 0 <= n < ids.len()
            &&& f ==> headEmpty(belts[ids[n] as int])
            &&& !f ==> n == (next + remaining) % (ids.len() as int)
        }),
    decreases remaining,
{
    let len = ids.len() as int;
    if remaining == 0 {
        lemma_small_mod(next as nat, len as nat);
    } else if headEmpty(belts[ids[next] as int]) {
    } else {
        let next2 = (next + 1) % len;
        lemmaFindOutputProps(ids, belts, next2, (remaining - 1) as nat);
        let (f, n) = specFindOutput(ids, belts, next2, (remaining - 1) as nat);
        if !f {
            lemma_add_mod_noop(next + 1, remaining - 1, len);
            lemma_small_mod((remaining - 1) as nat, len as nat);
            assert((next2 + (remaining - 1)) % len == (next + remaining) % len);
        }
    }
}

/// What the single-belt input stage does in one tick, given the outcome
/// `(found, n)` of the guarded search on the belts as the tick began.
pub open spec fn specSingleInput(m: Machine, found: bool, n: int, dt: u128) -> (Machine, bool) {
    if !m.inputInProgress && m.outputInventory == 0 {
        if !found {
            (Machine { inputWaiting: false, nextInput: n as usize, ..m }, false)
        } else {
            let n2 = (n + 1) % (m.inputIDs@.len() as int);
            let m2 = Machine {
                nextInput: n2 as usize,
                inputWaiting: true,
                inputInProgress: true,
                inputClockUs: 0,
                ..m
            };
            specInputClockPhase(m2, dt)
        }
    } else {
        let m2 = if m.outputInventory > 0 && found {
            Machine { inputWaiting: true, nextInput: n as usize, ..m }
        } else if m.outputInventory > 0 {
            Machine { inputWaiting: false, nextInput: n as usize, ..m }
        } else {
            Machine { inputWaiting: false, ..m }
        };
        if !m2.inputInProgress {
            (m2, false)
        } else {
            specInputClockPhase(m2, dt)
        }
    }
}

/// What the single-belt output stage does in one tick, given the outcome
/// `(found, n)` of the guarded search on the belts as the tick began.
pub open spec fn specSingleOutput(m: Machine, found: bool, n: int, dt: u128) -> (Machine, bool) {
    if !m.outputInProgress && m.outputInventory > 0 && !found {
        (Machine { outputWaiting: false, nextOutput: n as usize, ..m }, false)
    } else {
        let m2 = if !m.outputInProgress && m.outputInventory > 0 {
            Machine {
                nextOutput: n as usize,
                outputWaiting: true,
                outputInProgress: true,
                outputClockUs: 0,
                ..m
            }
        } else {
            m
        };
        if !m2.outputInProgress {
            (Machine { outputWaiting: false, ..m2 }, false)
        } else if m2.outputClockUs < m2.outputTickSpeedUs {
            (Machine { outputClockUs: (m2.outputClockUs + dt) as u128, ..m2 }, false)
        } else {
            let n3 = (m2.nextOutput + 1) % (m2.outputIDs@.len() as int);
            (
                Machine {
                    outputInventory: (m2.outputInventory - 1) as usize,
                    nextOutput: n3 as usize,
                    outputInProgress: false,
                    ..m2
                },
                true,
            )
        }
    }
}

/// The belt effect of one single-belt input tick, given the guarded search
/// outcome `(f, n)` on the belts as the tick began: when a fresh input
/// starts, one item leaves the tail of the chosen upstream belt; otherwise
/// the belts are untouched.
pub open spec fn specSingleInputBelts(
    m: Machine,
    b: Seq<ConveyorBelt>,
    b2: Seq<ConveyorBelt>,
    f: bool,
    n: int,
) -> bool {
    if !m.inputInProgress && m.outputInventory == 0 && f {
        let bi = m.inputIDs@[n] as int;
        &&& b2.len() == b.len()
        &&& forall|j: int| 0 <= j < b.len() && j != bi ==> b2[j] == b[j]
        &&& sameShape(b[bi], b2[bi])
        &&& b2[bi].belt@ == b[bi].belt@.update(b[bi].capacity - 1, None)
    } else {
        b2 == b
    }
}

/// The belt effect of one single-belt output tick: a completed output
/// pushes one item onto the head of the belt the cursor had settled on,
/// without re-checking it (an occupied head swallows the item, as the
/// push's own contract records); otherwise the belts are untouched.
pub open spec fn specSingleOutputBelts(
    m: Machine,
    b: Seq<ConveyorBelt>,
    b2: Seq<ConveyorBelt>,
    f: bool,
    n: int,
    dt: u128,
) -> bool {
    let (mf, rr) = specSingleOutput(m, f, n, dt);
    if rr {
        let ci = if !m.outputInProgress && m.outputInventory > 0 {
            n
        } else {
            m.nextOutput as int
        };
        let bi = m.outputIDs@[ci] as int;
        &&& b2.len() == b.len()
        &&& forall|j: int| 0 <= j < b.len() && j != bi ==> b2[j] == b[j]
        &&& sameShape(b[bi], b2[bi])
        &&& b2[bi].belt@ == (if headEmpty(b[bi]) {
            b[bi].belt@.update(0, Some(freshItem(b[bi])))
        } else {
            b[bi].belt@
        })
    } else {
        b2 == b
    }
}

/// The input stage of one machine tick: nothing while FAULTED, otherwise
/// the selected input behavior runs once.
pub open spec fn specInputStageRel(
    m: Machine,
    b: Seq<ConveyorBelt>,
    m2: Machine,
    b2: Seq<ConveyorBelt>,
    dt: u128,
) -> bool {
    if m.state == OPCState::FAULTED {
        m2 == m && b2 == b
    } else {
        match m.inputBehavior {
            InputBehavior::SPAWNER => m2 == specSpawnerInput(m, dt).0 && b2 == b,
            InputBehavior::SINGLE => ({
                let (f, n) = specFindGuardedInput(m, b);
                &&& m2 == specSingleInput(m, f, n, dt).0
                &&& specSingleInputBelts(m, b, b2, f, n)
            }),
        }
    }
}

/// The processing stage of one machine tick: nothing while FAULTED;
/// otherwise a cycle may start, its clock advances, and at the threshold
/// either the batch commits or some fault of the table fires with some
/// time roll.
pub open spec fn specProcessingStageRel(m: Machine, m2: Machine, dt: u128) -> bool {
    if m.state == OPCState::FAULTED {
        m2 == m
    } else {
        let ms = specProcessingStart(m);
        if !ms.processingInProgress {
            m2 == ms
        } else if ms.processingClockUs < ms.processingTickSpeedUs {
            m2 == (Machine { processingClockUs: (ms.processingClockUs + dt) as u128, ..ms })
        } else {
            m2 == specCommitProcessing(ms) || (exists|fi: int, t: int|
                0 <= fi < ms.faults@.len() && 0 <= t <= 100 && m2 == #[trigger] specApplyFault(
                    ms,
                    fi,
                    t,
                ))
        }
    }
}

/// Fault recovery within one machine tick: it runs exactly when the
/// machine is FAULTED at this point of the tick.
pub open spec fn specRecoveryRel(m: Machine, m2: Machine, dt: u128) -> bool {
    if m.state == OPCState::FAULTED {
        m2 == specFaulted(m, dt)
    } else {
        m2 == m
    }
}

/// The output stage of one machine tick: it always runs, so output may
/// drain during a fault.
pub open spec fn specOutputStageRel(
    m: Machine,
    b: Seq<ConveyorBelt>,
    m2: Machine,
    b2: Seq<ConveyorBelt>,
    dt: u128,
) -> bool {
    match m.outputBehavior {
        OutputBehavior::CONSUMER => m2 == specConsumerOutput(m, dt).0 && b2 == b,
        OutputBehavior::SINGLE => ({
            let (f, n) = specFindGuardedOutput(m, b);
            &&& m2 == specSingleOutput(m, f, n, dt).0
            &&& specSingleOutputBelts(m, b, b2, f, n, dt)
        }),
    }
}

/// One full machine tick over the machine and the belt list: the input
/// stage, the processing stage, fault recovery and the output stage run
/// once each, in exactly that order.  The FAULTED gate sits inside the
/// stage relations: while FAULTED, input and processing do nothing and
/// recovery accumulates toward the drawn target; the output stage always
/// runs.
pub open spec fn specMachineTick(
    m: Machine,
    b: Seq<ConveyorBelt>,
    mf: Machine,
    bf: Seq<ConveyorBelt>,
    dt: u128,
) -> bool {
    exists|m1: Machine, b1: Seq<ConveyorBelt>, m2: Machine, m3: Machine|
        #![trigger specInputStageRel(m, b, m1, b1, dt), specProcessingStageRel(m1, m2, dt), specRecoveryRel(m2, m3, dt)]
        {
            &&& specInputStageRel(m, b, m1, b1, dt)
            &&& specProcessingStageRel(m1, m2, dt)
            &&& specRecoveryRel(m2, m3, dt)
            &&& specOutputStageRel(m3, b1, mf, bf, dt)
        }
}

/// Start condition of the processing stage: enough input, an empty output
/// buffer, and room for a whole production batch.
pub open spec fn specProcessingStart(m: Machine) -> Machine {
    if !m.processingInProgress && m.inputInventory >= m.cost && m.outputInventory == 0
        && m.outputInvCapacity >= m.throughput {
        Machine { processingInProgress: true, processingClockUs: 0, ..m }
    } else {
        m
    }
}

/// A completed processing cycle: `cost` units leave the input buffer and
/// `throughput` units enter the output buffer, with both lifetime counters
/// stepped in the same atomic commit.
pub open spec fn specCommitProcessing(m: Machine) -> Machine {
    Machine {
        inputInventory: (m.inputInventory - m.cost) as usize,
        consumedCount: specSatAdd(m.consumedCount as int, m.cost as int, usize::MAX as int)
            as usize,
        outputInventory: (m.outputInventory + m.throughput) as usize,
        producedCount: specSatAdd(m.producedCount as int, m.throughput as int, usize::MAX as int)
            as usize,
        processingInProgress: false,
        ..m
    }
}

/// The recovery duration drawn for a firing fault: `timeLow` plus `t`
/// hundredths of the span up to `timeHigh`, in microseconds.
pub open spec fn specFaultTarget(f: Fault, t: int) -> int {
    f.faultTimeLowUs + (f.faultTimeHighUs - f.faultTimeLowUs) * t / 100
}

/// The state written when fault `fi` fires with time roll `t`: the machine
/// becomes FAULTED, every running stage is cancelled, and the recovery
/// clock is armed.
pub open spec fn specApplyFault(m: Machine, fi: int, t: int) -> Machine {
    Machine {
        currentFault: Some(fi as usize),
        state: OPCState::FAULTED,
        stateChangeCount: specSatAdd(m.stateChangeCount as int, 1, usize::MAX as int) as usize,
        faultedCount: specSatAdd(m.faultedCount as int, 1, usize::MAX as int) as usize,
        processingInProgress: false,
        inputInProgress: false,
        outputInProgress: false,
        faultTimeCurrentUs: specFaultTarget(m.faults@[fi], t) as u128,
        faultClockUs: 0,
        ..m
    }
}


/// The "starved" dimension of the classifier: too little input for one
/// batch and no input under way or ready.
pub open spec fn specStarvedCond(m: Machine) -> bool {
    m.inputInventory < m.cost && !m.inputWaiting
}

/// The "blocked" dimension: no room to place a finished batch and no output
/// under way or ready.
pub open spec fn specBlockedCond(m: Machine) -> bool {
    (m.outputInventory != 0 || m.outputInvCapacity < m.throughput) && !m.outputWaiting
}

/// One saturating step of the transition counter.
pub open spec fn specCountUp(c: usize) -> usize {
    specSatAdd(c as int, 1, usize::MAX as int) as usize
}

/// The input (starved) dimension of the debounced classifier.  A proposed
/// change applies only when the debounce bit was already set by the
/// previous evaluation; every applied change steps the transition counter.
pub open spec fn specInputDim(m: Machine) -> Machine {
    if specStarvedCond(m) {
        let m1 = if m.state == OPCState::PRODUCING && m.inputDebouncer {
            Machine {
                state: OPCState::STARVED,
                stateChangeCount: specCountUp(m.stateChangeCount),
                ..m
            }
        } else if m.state == OPCState::BLOCKED && m.inputDebouncer {
            Machine {
                state: OPCState::STARVEDBLOCKED,
                stateChangeCount: specCountUp(m.stateChangeCount),
                ..m
            }
        } else {
            m
        };
        let m2 = if m1.inputDebouncer {
            Machine { inputDebouncer: false, ..m1 }
        } else {
            m1
        };
        if !m2.inputDebouncer && (m2.state == OPCState::PRODUCING || m2.state
            == OPCState::BLOCKED) {
            Machine { inputDebouncer: true, ..m2 }
        } else {
            m2
        }
    } else {
        let m1 = if m.state == OPCState::STARVEDBLOCKED && m.inputDebouncer {
            Machine {
                state: OPCState::BLOCKED,
                inputDebouncer: false,
                stateChangeCount: specCountUp(m.stateChangeCount),
                ..m
            }
        } else {
            m
        };
        if !m1.inputDebouncer && m1.state == OPCState::STARVEDBLOCKED {
            Machine { inputDebouncer: true, ..m1 }
        } else {
            m1
        }
    }
}

/// The output (blocked) dimension of the debounced classifier.
pub open spec fn specOutputDim(m: Machine) -> Machine {
    if specBlockedCond(m) {
        let m1 = if m.state == OPCState::PRODUCING && m.outputDebouncer {
            Machine {
                state: OPCState::BLOCKED,
                stateChangeCount: specCountUp(m.stateChangeCount),
                ..m
            }
        } else if m.state == OPCState::STARVED && m.outputDebouncer {
            Machine {
                state: OPCState::STARVEDBLOCKED,
                stateChangeCount: specCountUp(m.stateChangeCount),
                ..m
            }
        } else {
            m
        };
        let m2 = if m1.outputDebouncer {
            Machine { outputDebouncer: false, ..m1 }
        } else {
            m1
        };
        if !m2.outputDebouncer && (m2.state == OPCState::PRODUCING || m2.state
            == OPCState::STARVED) {
            Machine { outputDebouncer: true, ..m2 }
        } else {
            m2
        }
    } else {
        let m1 = if m.state == OPCState::STARVEDBLOCKED && m.outputDebouncer {
            Machine {
                state: OPCState::STARVED,
                outputDebouncer: false,
                stateChangeCount: specCountUp(m.stateChangeCount),
                ..m
            }
        } else {
            m
        };
        if !m1.outputDebouncer && m1.state == OPCState::STARVEDBLOCKED {
            Machine { outputDebouncer: true, ..m1 }
        } else {
            m1
        }
    }
}

/// The fall-back to PRODUCING when neither dimension reports a problem,
/// debounced by its own bit.
pub open spec fn specProducingStep(m: Machine) -> Machine {
    if m.state != OPCState::PRODUCING && m.processingDebouncer {
        Machine {
            state: OPCState::PRODUCING,
            processingDebouncer: false,
            stateChangeCount: specCountUp(m.stateChangeCount),
            ..m
        }
    } else if !m.processingDebouncer {
        Machine { processingDebouncer: true, ..m }
    } else {
        m
    }
}

/// The whole debounced status classification, as run once per poll:
/// FAULTED machines are left alone; otherwise the starved and blocked
/// dimensions are evaluated (only outside a processing cycle) and the
/// machine falls back to PRODUCING when neither condition holds.
pub open spec fn specUpdateState(m: Machine) -> Machine {
    if m.state == OPCState::FAULTED {
        m
    } else {
        let m3 = if !m.processingInProgress {
            specOutputDim(specInputDim(m))
        } else {
            m
        };
        if !m.processingInProgress && (specStarvedCond(m) || specBlockedCond(m)) {
            m3
        } else {
            specProducingStep(m3)
        }
    }
}

/// The input dimension steps the counter exactly when it applies a status
/// change.
pub proof fn lemmaInputDimCount(m: Machine)
    ensures
        ({
            let n = specInputDim(m);
            n.stateChangeCount == (if n.state != m.state {
                specCountUp(m.stateChangeCount)
            } else {
                m.stateChangeCount
            })
        }),
{
}

/// The output dimension steps the counter exactly when it applies a status
/// change.
pub proof fn lemmaOutputDimCount(m: Machine)
    ensures
        ({
            let n = specOutputDim(m);
            n.stateChangeCount == (if n.state != m.state {
                specCountUp(m.stateChangeCount)
            } else {
                m.stateChangeCount
            })
        }),
{
}

/// The fall-back to PRODUCING steps the counter exactly when it applies a
/// status change.
pub proof fn lemmaProducingStepCount(m: Machine)
    ensures
        ({
            let n = specProducingStep(m);
            n.stateChangeCount == (if n.state != m.state {
                specCountUp(m.stateChangeCount)
            } else {
                m.stateChangeCount
            })
        }),
{
}

/// Law: one classifier run steps the transition counter exactly once per
/// applied status change, so a run that steps through two states (such as
/// STARVED_BLOCKED through BLOCKED to PRODUCING over later polls) counts
/// each transition.  Short of the counter's machine limit, the count is
/// exactly the number of changes of this run.
pub proof fn lemmaStateChangeExact(m: Machine)
    requires
        m.stateChangeCount + 3 <= usize::MAX,
    ensures
        ({
            let n = specUpdateState(m);
            if m.state == OPCState::FAULTED {
                n.stateChangeCount == m.stateChangeCount
            } else {
                let m1 = if !m.processingInProgress {
                    specInputDim(m)
                } else {
                    m
                };
                let m2 = if !m.processingInProgress {
                    specOutputDim(m1)
                } else {
                    m
                };
                let skipProducing = !m.processingInProgress && (specStarvedCond(m)
                    || specBlockedCond(m));
                let m3 = if skipProducing {
                    m2
                } else {
                    specProducingStep(m2)
                };
                n.stateChangeCount == m.stateChangeCount + (if m1.state != m.state {
                    1int
                } else {
                    0int
                }) + (if m2.state != m1.state {
                    1int
                } else {
                    0int
                }) + (if m3.state != m2.state {
                    1int
                } else {
                    0int
                })
            }
        }),
{
    if m.state != OPCState::FAULTED {
        if !m.processingInProgress {
            lemmaInputDimCount(m);
            lemmaOutputDimCount(specInputDim(m));
            lemmaProducingStepCount(specOutputDim(specInputDim(m)));
        } else {
            lemmaProducingStepCount(m);
        }
    }
}

/// Transition accounting for one classifier run: the counter never moves
/// without an observed status change, and (short of counter saturation)
/// every status change moves it.
#[verifier::rlimit(100)]
pub proof fn lemmaStateChangeAccounting(m: Machine)
    ensures
        ({
            let n = specUpdateState(m);
            &&& n.stateChangeCount >= m.stateChangeCount
            &&& n.state == m.state ==> n.stateChangeCount == m.stateChangeCount
            &&& n.state != m.state && m.stateChangeCount < usize::MAX ==> n.stateChangeCount
                > m.stateChangeCount
        }),
{
}

/// Fault recovery: accumulate time and, once the drawn recovery duration
/// has passed, clear the fault, return to PRODUCING and count the
/// transition.
pub open spec fn specFaulted(m: Machine, dt: u128) -> Machine {
    let clock = m.faultClockUs + dt;
    if clock < m.faultTimeCurrentUs {
        Machine { faultClockUs: clock as u128, ..m }
    } else {
        Machine {
            state: OPCState::PRODUCING,
            currentFault: None,
            faultTimeCurrentUs: 0,
            faultClockUs: 0,
            stateChangeCount: specSatAdd(
                m.stateChangeCount as int,
                1,
                usize::MAX as int,
            ) as usize,
            ..m
        }
    }
}

impl Machine {
    /// Infinite-source input stage; `conveyors` is untouched and only kept
    /// so every input behavior has the same shape.
    #[allow(unused_variables)]
    #[verifier::rlimit(100)]
    pub fn spawnerInput(&mut self, conveyors: &mut Vec<ConveyorBelt>, deltaTime: u128) -> (r:
        bool)
        requires
            old(self).wf(),
            deltaTime <= MAX_TIME_US,
        ensures
            final(self).wf(),
            *final(conveyors) == *old(conveyors),
            (*final(self), r) == specSpawnerInput(*old(self), deltaTime),
            final(self).sameConfig(*old(self)),
            final(self).state == old(self).state,
            final(self).currentFault == old(self).currentFault,
            final(self).producedCount == old(self).producedCount,
            final(self).consumedCount == old(self).consumedCount,
            final(self).stateChangeCount == old(self).stateChangeCount,
            final(self).faultedCount == old(self).faultedCount,
    {
        if !self.inputInProgress && self.inputInventory < self.inputInvCapacity {
            self.inputWaiting = true;
            self.inputInProgress = true;
            self.inputClockUs = 0;
        }

        if !self.inputInProgress {
            self.inputWaiting = false;
            return false;
        }

        if self.inputClockUs < self.inputTickSpeedUs {
            self.inputClockUs = self.inputClockUs + deltaTime;
            return false;
        }

        self.inputInventory = self.inputInventory + 1;
        self.inputInProgress = false;
        true
    }

    /// Infinite-sink output stage.
    #[allow(unused_variables)]
    pub fn consumerOutput(&mut self, conveyors: &mut Vec<ConveyorBelt>, deltaTime: u128) -> (r:
        bool)
        requires
            old(self).wf(),
            old(self).outputBehavior == OutputBehavior::CONSUMER,
            deltaTime <= MAX_TIME_US,
        ensures
            final(self).wf(),
            *final(conveyors) == *old(conveyors),
            (*final(self), r) == specConsumerOutput(*old(self), deltaTime),
            final(self).sameConfig(*old(self)),
            final(self).state == old(self).state,
            final(self).currentFault == old(self).currentFault,
            final(self).producedCount == old(self).producedCount,
            final(self).consumedCount == old(self).consumedCount,
            final(self).stateChangeCount == old(self).stateChangeCount,
            final(self).faultedCount == old(self).faultedCount,
    {
        if !self.outputInProgress && self.outputInventory > 0 {
            self.outputWaiting = true;
            self.outputInProgress = true;
            self.outputClockUs = 0;
        }

        if !self.outputInProgress {
            self.outputWaiting = false;
            return false;
        }

        if self.outputClockUs < self.outputTickSpeedUs {
            self.outputClockUs = self.outputClockUs + deltaTime;
            return false;
        }

        self.outputInventory = self.outputInventory - 1;
        self.outputInProgress = false;
        true
    }

    /// Round-robin scan of the input belts, starting at `nextInput`, for a
    /// belt with an item at its tail.  The cursor stops on the first hit and
    /// wraps back to its starting point when nothing is found.
    fn findInputSingle(&mut self, conveyors: &mut Vec<ConveyorBelt>) -> (r: bool)
        requires
            old(self).wf(),
            beltsWf(old(conveyors)@),
            forall|i: int|
                0 <= i < old(self).inputIDs@.len() ==> (#[trigger] old(self).inputIDs@[i])
                    < old(conveyors)@.len(),
        ensures
            final(self).wf(),
            *final(conveyors) == *old(conveyors),
            ({
                let (f, n) = specFindGuardedInput(*old(self), old(conveyors)@);
                &&& r == f
                &&& *final(self) == (Machine { nextInput: n as usize, ..*old(self) })
            }),
    {
        if self.inputInventory >= self.inputInvCapacity {
            return false;
        }
        let len = self.inputIDs.len();
        let mut k: usize = 0;
        while k < len
            invariant
                self.wf(),
                beltsWf(conveyors@),
                *conveyors == *old(conveyors),
                len == self.inputIDs@.len(),
                forall|i: int|
                    0 <= i < self.inputIDs@.len() ==> (#[trigger] self.inputIDs@[i])
                        < conveyors@.len(),
                k <= len,
                old(self).inputInventory < old(self).inputInvCapacity,
                len > 0 ==> self.nextInput < len,
                *self == (Machine { nextInput: self.nextInput, ..*old(self) }),
                specFindInput(
                    self.inputIDs@,
                    conveyors@,
                    old(self).nextInput as int,
                    len as nat,
                ) == specFindInput(
                    self.inputIDs@,
                    conveyors@,
                    self.nextInput as int,
                    (len - k) as nat,
                ),
            decreases len - k,
        {
            let currentInputID = self.inputIDs[self.nextInput];
            if conveyors[currentInputID].isEndSome() {
                proof {
                    assert(specFindInput(
                        self.inputIDs@,
                        conveyors@,
                        self.nextInput as int,
                        (len - k) as nat,
                    ) == (true, self.nextInput as int));
                }
                return true;
            }
            self.nextInput = self.nextInput + 1;
            self.nextInput = self.nextInput % len;
            k = k + 1;
        }
        false
    }

    /// Round-robin scan of the output belts for one with a free head cell.
    fn findOutputSingle(&mut self, conveyors: &mut Vec<ConveyorBelt>) -> (r: bool)
        requires
            old(self).wf(),
            beltsWf(old(conveyors)@),
            forall|i: int|
                0 <= i < old(self).outputIDs@.len() ==> (#[trigger] old(self).outputIDs@[i])
                    < old(conveyors)@.len(),
        ensures
            final(self).wf(),
            *final(conveyors) == *old(conveyors),
            ({
                let (f, n) = specFindGuardedOutput(*old(self), old(conveyors)@);
                &&& r == f
                &&& *final(self) == (Machine { nextOutput: n as usize, ..*old(self) })
            }),
    {
        if self.outputInventory == 0 {
            return false;
        }
        let len = self.outputIDs.len();
        let mut k: usize = 0;
        while k < len
            invariant
                self.wf(),
                beltsWf(conveyors@),
                *conveyors == *old(conveyors),
                len == self.outputIDs@.len(),
                forall|i: int|
                    0 <= i < self.outputIDs@.len() ==> (#[trigger] self.outputIDs@[i])
                        < conveyors@.len(),
                k <= len,
                old(self).outputInventory > 0,
                len > 0 ==> self.nextOutput < len,
                *self == (Machine { nextOutput: self.nextOutput, ..*old(self) }),
                specFindOutput(
                    self.outputIDs@,
                    conveyors@,
                    old(self).nextOutput as int,
                    len as nat,
                ) == specFindOutput(
                    self.outputIDs@,
                    conveyors@,
                    self.nextOutput as int,
                    (len - k) as nat,
                ),
            decreases len - k,
        {
            let currentOutputID = self.outputIDs[self.nextOutput];
            if !conveyors[currentOutputID].isStartSome() {
                proof {
                    assert(specFindOutput(
                        self.outputIDs@,
                        conveyors@,
                        self.nextOutput as int,
                        (len - k) as nat,
                    ) == (true, self.nextOutput as int));
                }
                return true;
            }
            self.nextOutput = self.nextOutput + 1;
            self.nextOutput = self.nextOutput % len;
            k = k + 1;
        }
        false
    }

    /// Single-belt input stage: pull one item from one upstream belt, but
    /// only while the output buffer is empty; otherwise just publish whether
    /// input would be available.
    #[verifier::rlimit(100)]
    #[verifier::spinoff_prover]
    pub fn singleInput(&mut self, conveyors: &mut Vec<ConveyorBelt>, deltaTime: u128) -> (r:
        bool)
        requires
            old(self).wf(),
            beltsWf(old(conveyors)@),
            forall|i: int|
                0 <= i < old(self).inputIDs@.len() ==> (#[trigger] old(self).inputIDs@[i])
                    < old(conveyors)@.len(),
            deltaTime <= MAX_TIME_US,
        ensures
            final(self).wf(),
            beltsWf(final(conveyors)@),
            final(conveyors)@.len() == old(conveyors)@.len(),
            final(self).sameConfig(*old(self)),
            final(self).state == old(self).state,
            final(self).currentFault == old(self).currentFault,
            final(self).producedCount == old(self).producedCount,
            final(self).consumedCount == old(self).consumedCount,
            final(self).stateChangeCount == old(self).stateChangeCount,
            final(self).faultedCount == old(self).faultedCount,
            ({
                let (f, n) = specFindGuardedInput(*old(self), old(conveyors)@);
                (*final(self), r) == specSingleInput(*old(self), f, n, deltaTime)
            }),
            ({
                let (f, n) = specFindGuardedInput(*old(self), old(conveyors)@);
                specSingleInputBelts(*old(self), old(conveyors)@, final(conveyors)@, f, n)
            }),
    {
        if !self.inputInProgress && self.outputInventory == 0 {
            if !self.singleInputAcquire(conveyors) {
                return false;
            }
            return self.inputClockStep(deltaTime);
        }
        if self.outputInventory > 0 && self.findInputSingle(conveyors) {
            self.inputWaiting = true;
        } else {
            self.inputWaiting = false;
        }

        if !self.inputInProgress {
            return false;
        }

        self.inputClockStep(deltaTime)
    }

    /// The acquisition phase of a single-belt input: search the upstream
    /// belts round-robin, pull one item from the first with an occupied
    /// tail, and start the timed input; on a miss only publish that no
    /// input is available.
    #[verifier::rlimit(100)]
    fn singleInputAcquire(&mut self, conveyors: &mut Vec<ConveyorBelt>) -> (r: bool)
        requires
            old(self).wf(),
            !old(self).inputInProgress,
            old(self).outputInventory == 0,
            beltsWf(old(conveyors)@),
            forall|i: int|
                0 <= i < old(self).inputIDs@.len() ==> (#[trigger] old(self).inputIDs@[i])
                    < old(conveyors)@.len(),
        ensures
            final(self).wf(),
            beltsWf(final(conveyors)@),
            final(conveyors)@.len() == old(conveyors)@.len(),
            ({
                let (f, n) = specFindGuardedInput(*old(self), old(conveyors)@);
                &&& r == f
                &&& specSingleInputBelts(*old(self), old(conveyors)@, final(conveyors)@, f, n)
                &&& if !f {
                    *final(self) == (Machine {
                        inputWaiting: false,
                        nextInput: n as usize,
                        ..*old(self)
                    })
                } else {
                    *final(self) == (Machine {
                        nextInput: (((n + 1) % (old(self).inputIDs@.len() as int)) as usize),
                        inputWaiting: true,
                        inputInProgress: true,
                        inputClockUs: 0,
                        ..*old(self)
                    })
                }
            }),
    {
        if !self.findInputSingle(conveyors) {
            self.inputWaiting = false;
            return false;
        }
        proof {
            assert(self.inputIDs@.len() > 0);
            lemmaFindInputProps(
                old(self).inputIDs@,
                old(conveyors)@,
                old(self).nextInput as int,
                old(self).inputIDs@.len(),
            );
            let (f, n) = specFindGuardedInput(*old(self), old(conveyors)@);
            assert(f);
            assert((f, n) == specFindInput(
                old(self).inputIDs@,
                old(conveyors)@,
                old(self).nextInput as int,
                old(self).inputIDs@.len(),
            ));
        }
        let len = self.inputIDs.len();
        let currentInputID = self.inputIDs[self.nextInput];
        self.nextInput = self.nextInput + 1;
        self.nextInput = self.nextInput % len;
        self.inputWaiting = true;
        self.inputInProgress = true;
        self.inputClockUs = 0;
        pullAt(conveyors, currentInputID);
        true
    }

    /// Single-belt output stage: once a timed output completes, push one
    /// item onto the downstream belt the round-robin cursor had settled on.
    #[verifier::rlimit(100)]
    pub fn singleOutput(&mut self, conveyors: &mut Vec<ConveyorBelt>, deltaTime: u128) -> (r:
        bool)
        requires
            old(self).wf(),
            old(self).outputBehavior == OutputBehavior::SINGLE,
            beltsWf(old(conveyors)@),
            forall|i: int|
                0 <= i < old(self).outputIDs@.len() ==> (#[trigger] old(self).outputIDs@[i])
                    < old(conveyors)@.len(),
            deltaTime <= MAX_TIME_US,
        ensures
            final(self).wf(),
            beltsWf(final(conveyors)@),
            final(conveyors)@.len() == old(conveyors)@.len(),
            final(self).sameConfig(*old(self)),
            final(self).state == old(self).state,
            final(self).currentFault == old(self).currentFault,
            final(self).producedCount == old(self).producedCount,
            final(self).consumedCount == old(self).consumedCount,
            final(self).stateChangeCount == old(self).stateChangeCount,
            final(self).faultedCount == old(self).faultedCount,
            ({
                let (f, n) = specFindGuardedOutput(*old(self), old(conveyors)@);
                (*final(self), r) == specSingleOutput(*old(self), f, n, deltaTime)
            }),
            ({
                let (f, n) = specFindGuardedOutput(*old(self), old(conveyors)@);
                specSingleOutputBelts(*old(self), old(conveyors)@, final(conveyors)@, f, n, deltaTime)
            }),
    {
        if !self.outputInProgress && self.outputInventory > 0 {
            if !self.findOutputSingle(conveyors) {
                self.outputWaiting = false;
                return false;
            }
            let outLen = self.outputIDs.len();
            proof {
                assert(self.outputIDs@.len() == outLen);
                assert(self.outputIDs@.len() > 0);
                lemmaFindOutputProps(
                    old(self).outputIDs@,
                    conveyors@,
                    old(self).nextOutput as int,
                    old(self).outputIDs@.len(),
                );
            }
            self.outputWaiting = true;
            self.outputInProgress = true;
            self.outputClockUs = 0;
        }

        if !self.outputInProgress {
            self.outputWaiting = false;
            return false;
        }

        if self.outputClockUs < self.outputTickSpeedUs {
            self.outputClockUs = self.outputClockUs + deltaTime;
            return false;
        }

        self.singleOutputCommit(conveyors)
    }


    /// The timed tail of an input stage that is in progress: advance the
    /// clock, or commit one unit once the threshold is reached.
    fn inputClockStep(&mut self, deltaTime: u128) -> (r: bool)
        requires
            old(self).wf(),
            old(self).inputInProgress,
            deltaTime <= MAX_TIME_US,
        ensures
            final(self).wf(),
            (*final(self), r) == specInputClockPhase(*old(self), deltaTime),
    {
        if self.inputClockUs < self.inputTickSpeedUs {
            self.inputClockUs = self.inputClockUs + deltaTime;
            return false;
        }
        self.inputInventory = self.inputInventory + 1;
        self.inputInProgress = false;
        true
    }

    /// Completion of a single-belt output: take one unit out of the output
    /// buffer and push an item onto the belt the cursor had settled on.
    fn singleOutputCommit(&mut self, conveyors: &mut Vec<ConveyorBelt>) -> (r: bool)
        requires
            old(self).wf(),
            old(self).outputInProgress,
            old(self).outputBehavior == OutputBehavior::SINGLE,
            beltsWf(old(conveyors)@),
            forall|i: int|
                0 <= i < old(self).outputIDs@.len() ==> (#[trigger] old(self).outputIDs@[i])
                    < old(conveyors)@.len(),
        ensures
            final(self).wf(),
            beltsWf(final(conveyors)@),
            final(conveyors)@.len() == old(conveyors)@.len(),
            r == true,
            *final(self) == (Machine {
                outputInventory: (old(self).outputInventory - 1) as usize,
                nextOutput: (((old(self).nextOutput + 1) % (
                    old(self).outputIDs@.len() as int
                )) as usize),
                outputInProgress: false,
                ..*old(self)
            }),
            ({
                let bi = old(self).outputIDs@[old(self).nextOutput as int] as int;
                &&& forall|j: int|
                    0 <= j < old(conveyors)@.len() && j != bi ==> final(conveyors)@[j] == old(
                        conveyors,
                    )@[j]
                &&& sameShape(old(conveyors)@[bi], final(conveyors)@[bi])
                &&& final(conveyors)@[bi].belt@ == (if headEmpty(old(conveyors)@[bi]) {
                    old(conveyors)@[bi].belt@.update(0, Some(freshItem(old(conveyors)@[bi])))
                } else {
                    old(conveyors)@[bi].belt@
                })
            }),
    {
        self.outputInventory = self.outputInventory - 1;
        let len = self.outputIDs.len();
        let currentOutputID = self.outputIDs[self.nextOutput];
        self.nextOutput = self.nextOutput + 1;
        self.nextOutput = self.nextOutput % len;
        self.outputInProgress = false;
        pushAt(conveyors, currentOutputID);
        true
    }

    /// Roll every fault in table order; the first one whose chance roll
    /// succeeds fires, which cancels both running stages and arms the
    /// recovery clock with a second roll.  A fault with chance zero can
    /// never fire; one with chance one always fires when reached.
    fn checkIfShouldFault(&mut self) -> (r: bool)
        requires
            old(self).wf(),
        ensures
            final(self).wf(),
            !r ==> *final(self) == *old(self),
            r ==> exists|fi: int, t: int|
                0 <= fi < old(self).faults@.len() && 0 <= t <= 100 && old(
                    self,
                ).faults@[fi].faultChanceMilli > 0 && *final(self) == #[trigger] specApplyFault(
                    *old(self),
                    fi,
                    t,
                ),
            (exists|i: int|
                0 <= i < old(self).faults@.len() && (#[trigger] old(
                    self,
                ).faults@[i]).faultChanceMilli >= 1000) ==> r,
            (forall|i: int|
                0 <= i < old(self).faults@.len() ==> (#[trigger] old(
                    self,
                ).faults@[i]).faultChanceMilli == 0) ==> !r,
    {
        let flen = self.faults.len();
        let mut i: usize = 0;
        while i < flen
            invariant
                *self == *old(self),
                self.wf(),
                flen == self.faults@.len(),
                i <= flen,
                forall|k: int|
                    0 <= k < i ==> (#[trigger] self.faults@[k]).faultChanceMilli < 1000,
            decreases flen - i,
        {
            let faultSeed = rand::random::<u64>() % 1000;
            let chance = self.faults[i].faultChanceMilli;
            if faultSeed < chance {
                let timeSeed = rand::random::<u64>() % 101;
                let lowUs = self.faults[i].faultTimeLowUs;
                let highUs = self.faults[i].faultTimeHighUs;
                let span = highUs - lowUs;
                proof {
                    assert(span * (timeSeed as u128) as int <= span * 100) by (nonlinear_arith)
                        requires
                            timeSeed as u128 <= 100,
                            0 <= span,
                    ;
                    lemma_div_is_ordered(
                        span as int * (timeSeed as u128) as int,
                        span as int * 100,
                        100,
                    );
                    lemma_div_multiples_vanish(span as int, 100);
                }
                let targetUs = lowUs + span * (timeSeed as u128) / 100;
                self.currentFault = Some(i);
                self.state = OPCState::FAULTED;
                self.stateChangeCount = satAddUsize(self.stateChangeCount, 1);
                self.faultedCount = satAddUsize(self.faultedCount, 1);
                self.processingInProgress = false;
                self.inputInProgress = false;
                self.outputInProgress = false;
                self.faultTimeCurrentUs = targetUs;
                self.faultClockUs = 0;
                proof {
                    assert(*self == specApplyFault(*old(self), i as int, timeSeed as int));
                }
                return true;
            }
            i = i + 1;
        }
        false
    }

    /// Processing stage: start a cycle when input, output room and batch
    /// size allow it; at completion first roll the fault table, and only
    /// when no fault fires commit the batch atomically.
    #[verifier::rlimit(100)]
    pub fn defaultProcessing(&mut self, deltaTime: u128) -> (r: bool)
        requires
            old(self).wf(),
            deltaTime <= MAX_TIME_US,
        ensures
            final(self).wf(),
            final(self).sameConfig(*old(self)),
            final(self).producedCount >= old(self).producedCount,
            final(self).consumedCount >= old(self).consumedCount,
            final(self).stateChangeCount >= old(self).stateChangeCount,
            final(self).faultedCount >= old(self).faultedCount,
            final(self).producedCount as int <= old(self).producedCount + old(self).throughput,
            (final(self).producedCount != old(self).producedCount || final(self).consumedCount
                != old(self).consumedCount) ==> r && final(self).producedCount == specSatAdd(
                old(self).producedCount as int,
                old(self).throughput as int,
                usize::MAX as int,
            ) && final(self).consumedCount == specSatAdd(
                old(self).consumedCount as int,
                old(self).cost as int,
                usize::MAX as int,
            ),
            old(self).faultConsistent() ==> final(self).faultConsistent(),
            ({
                let m2 = specProcessingStart(*old(self));
                if !m2.processingInProgress {
                    !r && *final(self) == m2
                } else if m2.processingClockUs < m2.processingTickSpeedUs {
                    !r && *final(self) == (Machine {
                        processingClockUs: (m2.processingClockUs + deltaTime) as u128,
                        ..m2
                    })
                } else {
                    &&& r ==> *final(self) == specCommitProcessing(m2)
                    &&& !r ==> exists|fi: int, t: int|
                        0 <= fi < m2.faults@.len() && 0 <= t <= 100
                            && m2.faults@[fi].faultChanceMilli > 0 && *final(self)
                            == #[trigger] specApplyFault(m2, fi, t)
                    &&& (forall|i: int|
                        0 <= i < m2.faults@.len() ==> (#[trigger] m2.faults@[i]).faultChanceMilli
                            == 0) ==> r
                    &&& (exists|i: int|
                        0 <= i < m2.faults@.len() && (#[trigger] m2.faults@[i]).faultChanceMilli
                            >= 1000) ==> !r
                }
            }),
    {
        if !self.processingInProgress {
            if self.inputInventory >= self.cost && self.outputInventory == 0
                && self.outputInvCapacity >= self.throughput {
                self.processingInProgress = true;
                self.processingClockUs = 0;
            } else {
                self.processingInProgress = false;
            }
        }

        if !self.processingInProgress {
            return false;
        }

        if self.processingClockUs < self.processingTickSpeedUs {
            self.processingClockUs = self.processingClockUs + deltaTime;
            return false;
        }

        if self.checkIfShouldFault() {
            return false;
        }

        self.processingCommit();
        true
    }

    /// The atomic commit of one production batch.
    fn processingCommit(&mut self)
        requires
            old(self).wf(),
            old(self).processingInProgress,
        ensures
            final(self).wf(),
            *final(self) == specCommitProcessing(*old(self)),
    {
        self.inputInventory = self.inputInventory - self.cost;
        self.consumedCount = satAddUsize(self.consumedCount, self.cost);
        self.outputInventory = self.outputInventory + self.throughput;
        self.producedCount = satAddUsize(self.producedCount, self.throughput);
        self.processingInProgress = false;
    }

    /// Fault recovery step, run while the machine is FAULTED.
    #[verifier::rlimit(100)]
    fn faulted(&mut self, deltaTime: u128)
        requires
            old(self).wf(),
            deltaTime <= MAX_TIME_US,
        ensures
            final(self).wf(),
            *final(self) == specFaulted(*old(self), deltaTime),
            final(self).sameConfig(*old(self)),
            final(self).producedCount == old(self).producedCount,
            final(self).consumedCount == old(self).consumedCount,
            final(self).stateChangeCount >= old(self).stateChangeCount,
            final(self).faultedCount == old(self).faultedCount,
            old(self).faultConsistent() ==> final(self).faultConsistent(),
    {
        self.faultClockUs = self.faultClockUs + deltaTime;
        if self.faultClockUs < self.faultTimeCurrentUs {
            return;
        }
        self.state = OPCState::PRODUCING;
        self.currentFault = None;
        self.faultTimeCurrentUs = 0;
        self.faultClockUs = 0;
        self.stateChangeCount = satAddUsize(self.stateChangeCount, 1);
    }

    /// The debounced status classifier, run once per OPC poll.
    #[verifier::rlimit(100)]
    pub fn updateState(&mut self)
        requires
            old(self).wf(),
        ensures
            final(self).wf(),
            *final(self) == specUpdateState(*old(self)),
            final(self).sameConfig(*old(self)),
            final(self).stateChangeCount >= old(self).stateChangeCount,
            old(self).faultConsistent() ==> final(self).faultConsistent(),
    {
        if self.state == OPCState::FAULTED {
            return;
        }

        let mut stateNotProducing = false;

        if !self.processingInProgress {
            let starved = self.inputInventory < self.cost && !self.inputWaiting;
            let blocked = (self.outputInventory != 0 || self.outputInvCapacity
                < self.throughput) && !self.outputWaiting;
            stateNotProducing = starved || blocked;
            proof {
                assert(starved == specStarvedCond(*old(self)));
                assert(blocked == specBlockedCond(*old(self)));
            }
            self.classifyInputDim();
            self.classifyOutputDim();
            proof {
                assert(*self == specOutputDim(specInputDim(*old(self))));
            }
        }

        if stateNotProducing {
            return;
        }

        if self.state != OPCState::PRODUCING && self.processingDebouncer {
            self.state = OPCState::PRODUCING;
            self.processingDebouncer = false;
            self.stateChangeCount = satAddUsize(self.stateChangeCount, 1);
            return;
        }

        if !self.processingDebouncer {
            self.processingDebouncer = true;
        }
    }

    /// The starved dimension of one classifier run.
    fn classifyInputDim(&mut self)
        requires
            old(self).wf(),
        ensures
            final(self).wf(),
            *final(self) == specInputDim(*old(self)),
    {
        if self.inputInventory < self.cost && !self.inputWaiting {
            if self.state == OPCState::PRODUCING && self.inputDebouncer {
                self.state = OPCState::STARVED;
                self.stateChangeCount = satAddUsize(self.stateChangeCount, 1);
            } else if self.state == OPCState::BLOCKED && self.inputDebouncer {
                self.state = OPCState::STARVEDBLOCKED;
                self.stateChangeCount = satAddUsize(self.stateChangeCount, 1);
            }

            if self.inputDebouncer {
                self.inputDebouncer = false;
            }

            if !self.inputDebouncer && (self.state == OPCState::PRODUCING || self.state
                == OPCState::BLOCKED) {
                self.inputDebouncer = true;
            }
        } else {
            if self.state == OPCState::STARVEDBLOCKED && self.inputDebouncer {
                self.state = OPCState::BLOCKED;
                self.inputDebouncer = false;
                self.stateChangeCount = satAddUsize(self.stateChangeCount, 1);
            }

            if !self.inputDebouncer && self.state == OPCState::STARVEDBLOCKED {
                self.inputDebouncer = true;
            }
        }
    }

    /// The blocked dimension of one classifier run.
    fn classifyOutputDim(&mut self)
        requires
            old(self).wf(),
        ensures
            final(self).wf(),
            *final(self) == specOutputDim(*old(self)),
    {
        if (self.outputInventory != 0 || self.outputInvCapacity < self.throughput)
            && !self.outputWaiting {
            if self.state == OPCState::PRODUCING && self.outputDebouncer {
                self.state = OPCState::BLOCKED;
                self.stateChangeCount = satAddUsize(self.stateChangeCount, 1);
            } else if self.state == OPCState::STARVED && self.outputDebouncer {
                self.state = OPCState::STARVEDBLOCKED;
                self.stateChangeCount = satAddUsize(self.stateChangeCount, 1);
            }

            if self.outputDebouncer {
                self.outputDebouncer = false;
            }

            if !self.outputDebouncer && (self.state == OPCState::PRODUCING || self.state
                == OPCState::STARVED) {
                self.outputDebouncer = true;
            }
        } else {
            if self.state == OPCState::STARVEDBLOCKED && self.outputDebouncer {
                self.state = OPCState::STARVED;
                self.outputDebouncer = false;
                self.stateChangeCount = satAddUsize(self.stateChangeCount, 1);
            }

            if !self.outputDebouncer && self.state == OPCState::STARVEDBLOCKED {
                self.outputDebouncer = true;
            }
        }
    }

    /// One driver tick of the machine: input, processing, fault recovery
    /// and output, in that order, with input and processing skipped while
    /// the machine is FAULTED (output may drain during a fault).
    #[verifier::rlimit(100)]
    pub fn update(&mut self, conveyors: &mut Vec<ConveyorBelt>, deltaTime: u128)
        requires
            old(self).wf(),
            beltsWf(old(conveyors)@),
            forall|i: int|
                0 <= i < old(self).inputIDs@.len() ==> (#[trigger] old(self).inputIDs@[i])
                    < old(conveyors)@.len(),
            forall|i: int|
                0 <= i < old(self).outputIDs@.len() ==> (#[trigger] old(self).outputIDs@[i])
                    < old(conveyors)@.len(),
            deltaTime <= MAX_TIME_US,
        ensures
            final(self).wf(),
            beltsWf(final(conveyors)@),
            final(conveyors)@.len() == old(conveyors)@.len(),
            forall|k: int|
                0 <= k < old(conveyors)@.len() ==> sameShape(
                    old(conveyors)@[k],
                    #[trigger] final(conveyors)@[k],
                ),
            final(self).sameConfig(*old(self)),
            final(self).producedCount >= old(self).producedCount,
            final(self).consumedCount >= old(self).consumedCount,
            final(self).stateChangeCount >= old(self).stateChangeCount,
            final(self).faultedCount >= old(self).faultedCount,
            final(self).producedCount as int <= old(self).producedCount + old(self).throughput,
            (final(self).producedCount != old(self).producedCount || final(self).consumedCount
                != old(self).consumedCount) ==> final(self).producedCount == specSatAdd(
                old(self).producedCount as int,
                old(self).throughput as int,
                usize::MAX as int,
            ) && final(self).consumedCount == specSatAdd(
                old(self).consumedCount as int,
                old(self).cost as int,
                usize::MAX as int,
            ),
            old(self).faultConsistent() ==> final(self).faultConsistent(),
            specMachineTick(
                *old(self),
                old(conveyors)@,
                *final(self),
                final(conveyors)@,
                deltaTime,
            ),
    {
        let ghost m0 = *self;
        let ghost b0 = conveyors@;

        if self.state != OPCState::FAULTED {
            match self.inputBehavior {
                InputBehavior::SPAWNER => {
                    self.spawnerInput(conveyors, deltaTime);
                },
                InputBehavior::SINGLE => {
                    self.singleInput(conveyors, deltaTime);
                },
            }
        }
        let ghost m1 = *self;
        let ghost b1 = conveyors@;
        proof {
            assert(specInputStageRel(m0, b0, m1, b1, deltaTime));
        }

        if self.state != OPCState::FAULTED {
            match self.processingBehavior {
                ProcessingBehavior::DEFAULT => {
                    self.defaultProcessing(deltaTime);
                },
            }
        }
        let ghost m2 = *self;
        proof {
            assert(specProcessingStageRel(m1, m2, deltaTime));
        }

        if self.state == OPCState::FAULTED {
            self.faulted(deltaTime);
        }
        let ghost m3 = *self;
        proof {
            assert(specRecoveryRel(m2, m3, deltaTime));
        }

        match self.outputBehavior {
            OutputBehavior::CONSUMER => {
                self.consumerOutput(conveyors, deltaTime);
            },
            OutputBehavior::SINGLE => {
                self.singleOutput(conveyors, deltaTime);
            },
        }
        proof {
            assert(specOutputStageRel(m3, b1, *self, conveyors@, deltaTime));
            assert(specMachineTick(m0, b0, *self, conveyors@, deltaTime));
        }
    }
}

} // verus!
