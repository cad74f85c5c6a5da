//! The simulation driver's per-iteration logic.  The surrounding process
//! reads the monotonic clock and the shared control registers, hands both
//! in, and performs the returned actions (clock bookkeeping, OPC polls,
//! stopping); everything the iteration decides is computed here.
use vstd::prelude::*;

use crate::arith::{satAddU128, specSatAdd, MAX_TIME_US};
use crate::factory::Factory;
use crate::registers::SimulationState;
use vstd::arithmetic::div_mod::lemma_fundamental_div_mod_converse;

verus! {

/// What one driver iteration decided.
pub struct StepOutcome {
    /// The effective time delta of this iteration, after speed scaling and
    /// after the post-pause zeroing; the caller adds it to the clocks.
    pub deltaTimeUs: u128,
    /// How many OPC polls fell due in this iteration.
    pub polls: u128,
    /// The run-duration limit was reached: the caller stops the run.
    pub stopped: bool,
    /// The simulation is paused: nothing was advanced.
    pub paused: bool,
}

/// The raw wall-clock delta scaled by the simulation speed (held in
/// thousandths), capped at the global time bound.
pub open spec fn specScaledDelta(rawUs: int, speedMilli: int) -> int {
    let scaled = rawUs * speedMilli / 1000;
    if scaled <= MAX_TIME_US as int {
        scaled
    } else {
        MAX_TIME_US as int
    }
}

/// The state one simulation run carries between driver iterations.
#[verifier::ext_equal]
pub struct Simulation {
    pub factory: Factory,
    pub prevTimeUs: u128,
    pub pollDeltaTimeUs: u128,
    pub executionTimerUs: u128,
    pub timerLimitUs: u128,
    pub pauseHappened: bool,
}

impl Simulation {
    pub open spec fn wf(self) -> bool {
        &&& self.factory.wf()
        &&& self.prevTimeUs <= MAX_TIME_US
        &&& self.pollDeltaTimeUs < self.factory.pollRateUs
        &&& self.timerLimitUs <= MAX_TIME_US
    }

    /// A fresh run over `factory`; a zero `timerLimitUs` means no limit.
    pub fn new(factory: Factory, timerLimitUs: u128) -> (r: Simulation)
        requires
            factory.wf(),
            timerLimitUs <= MAX_TIME_US,
        ensures
            r.wf(),
            r.factory == factory,
            r.prevTimeUs == 0,
            r.pollDeltaTimeUs == 0,
            r.executionTimerUs == 0,
            r.timerLimitUs == timerLimitUs,
            !r.pauseHappened,
    {
        Simulation {
            factory,
            prevTimeUs: 0,
            pollDeltaTimeUs: 0,
            executionTimerUs: 0,
            timerLimitUs,
            pauseHappened: false,
        }
    }

    /// One driver iteration at monotonic time `iterTimeUs`.  While PAUSED
    /// nothing advances (the returned delta still feeds the runtime clock);
    /// the first iteration after a pause runs with a zero delta, so a pause
    /// never inflates production.  When the armed run-duration limit is
    /// reached the iteration stops the run before advancing anything.
    #[verifier::rlimit(100)]
    pub fn step(&mut self, iterTimeUs: u128, state: SimulationState) -> (r: StepOutcome)
        requires
            old(self).wf(),
            old(self).prevTimeUs <= iterTimeUs,
            iterTimeUs <= MAX_TIME_US,
        ensures
            final(self).wf(),
            final(self).prevTimeUs == iterTimeUs,
            final(self).timerLimitUs == old(self).timerLimitUs,
            r.deltaTimeUs <= MAX_TIME_US,
            ({
                let scaled = specScaledDelta(
                    iterTimeUs - old(self).prevTimeUs,
                    old(self).factory.simSpeedMilli as int,
                );
                if state == SimulationState::PAUSED {
                    &&& r.paused
                    &&& !r.stopped
                    &&& r.polls == 0
                    &&& r.deltaTimeUs == scaled
                    &&& final(self).factory == old(self).factory
                    &&& final(self).pauseHappened
                    &&& final(self).pollDeltaTimeUs == old(self).pollDeltaTimeUs
                    &&& final(self).executionTimerUs == old(self).executionTimerUs
                } else {
                    let dt = if old(self).pauseHappened {
                        0int
                    } else {
                        scaled
                    };
                    let timerAfter = specSatAdd(
                        old(self).executionTimerUs as int,
                        dt,
                        u128::MAX as int,
                    );
                    &&& !r.paused
                    &&& r.deltaTimeUs == dt
                    &&& !final(self).pauseHappened
                    &&& (old(self).timerLimitUs != 0 ==> final(self).executionTimerUs
                        == timerAfter)
                    &&& (old(self).timerLimitUs == 0 ==> final(self).executionTimerUs
                        == old(self).executionTimerUs)
                    &&& r.stopped == (old(self).timerLimitUs != 0 && timerAfter
                        >= old(self).timerLimitUs)
                    &&& (r.stopped ==> final(self).factory == old(self).factory && r.polls == 0
                        && final(self).pollDeltaTimeUs == old(self).pollDeltaTimeUs)
                    &&& (!r.stopped ==> r.polls == (old(self).pollDeltaTimeUs + dt) / (
                    old(self).factory.pollRateUs as int) && final(self).pollDeltaTimeUs == (
                    old(self).pollDeltaTimeUs + dt) % (old(self).factory.pollRateUs as int))
                    &&& (!r.stopped ==> crate::factory::specFactoryTick(
                        old(self).factory,
                        final(self).factory,
                        r.deltaTimeUs,
                    ))
                }
            }),
            final(self).factory.machines@.len() == old(self).factory.machines@.len(),
            final(self).factory.conveyors@.len() == old(self).factory.conveyors@.len(),
            final(self).factory.pollRateUs == old(self).factory.pollRateUs,
            final(self).factory.simSpeedMilli == old(self).factory.simSpeedMilli,
            forall|k: int|
                0 <= k < old(self).factory.machines@.len() ==> (#[trigger] final(self).factory.machines@[k]).sameConfig(old(self).factory.machines@[k]),
            forall|k: int|
                0 <= k < old(self).factory.machines@.len() ==> (#[trigger] final(self).factory.machines@[k]).producedCount >= old(self).factory.machines@[k].producedCount,
            forall|k: int|
                0 <= k < old(self).factory.machines@.len() && old(self).factory.machines@[k].faultConsistent()
                    ==> (#[trigger] final(self).factory.machines@[k]).faultConsistent(),
    {
        let raw = iterTimeUs - self.prevTimeUs;
        proof {
            assert(raw * (self.factory.simSpeedMilli as u128) <= MAX_TIME_US * (
            MAX_SIM_SPEED_MILLI_WIDE)) by (nonlinear_arith)
                requires
                    raw <= MAX_TIME_US,
                    self.factory.simSpeedMilli as u128 <= MAX_SIM_SPEED_MILLI_WIDE,
            ;
        }
        let wide = raw * (self.factory.simSpeedMilli as u128);
        let mut deltaTime = wide / 1000;
        if deltaTime > MAX_TIME_US {
            deltaTime = MAX_TIME_US;
        }

        if state == SimulationState::PAUSED {
            self.prevTimeUs = iterTimeUs;
            self.pauseHappened = true;
            return StepOutcome { deltaTimeUs: deltaTime, polls: 0, stopped: false, paused: true };
        }

        if self.pauseHappened {
            self.pauseHappened = false;
            deltaTime = 0;
        }
        self.prevTimeUs = iterTimeUs;

        if self.timerLimitUs != 0 {
            self.executionTimerUs = satAddU128(self.executionTimerUs, deltaTime);
            if self.executionTimerUs >= self.timerLimitUs {
                return StepOutcome {
                    deltaTimeUs: deltaTime,
                    polls: 0,
                    stopped: true,
                    paused: false,
                };
            }
        }

        self.factory.update(deltaTime);

        let ghost pollTotal = self.pollDeltaTimeUs + deltaTime;
        self.pollDeltaTimeUs = self.pollDeltaTimeUs + deltaTime;
        let ghost snap = *self;
        let mut polls: u128 = 0;
        while self.pollDeltaTimeUs >= self.factory.pollRateUs
            invariant
                *self == (Simulation { pollDeltaTimeUs: self.pollDeltaTimeUs, ..snap }),
                self.factory.pollRateUs >= 1,
                pollTotal == polls * self.factory.pollRateUs + self.pollDeltaTimeUs,
                polls <= pollTotal,
                pollTotal <= u128::MAX,
            decreases self.pollDeltaTimeUs,
        {
            proof {
                assert((polls + 1) * self.factory.pollRateUs == polls * self.factory.pollRateUs
                    + self.factory.pollRateUs) by (nonlinear_arith);
                assert(polls * self.factory.pollRateUs >= polls) by (nonlinear_arith)
                    requires
                        self.factory.pollRateUs >= 1,
                        polls >= 0,
                ;
            }
            self.pollDeltaTimeUs = self.pollDeltaTimeUs - self.factory.pollRateUs;
            polls = polls + 1;
        }
        proof {
            lemma_fundamental_div_mod_converse(
                pollTotal as int,
                self.factory.pollRateUs as int,
                polls as int,
                self.pollDeltaTimeUs as int,
            );
        }

        StepOutcome { deltaTimeUs: deltaTime, polls, stopped: false, paused: false }
    }
}

/// `MAX_SIM_SPEED_MILLI` widened for the scaling multiplication.
pub const MAX_SIM_SPEED_MILLI_WIDE: u128 = 1000000000;

} // verus!
