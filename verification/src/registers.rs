//! The cross-thread control registers: the global run state, the configured
//! file name, the two elapsed clocks and the optional run-duration limit.
//! The HTTP layer and the driver both act on a value of this type under a
//! lock; every transition they perform is a function defined here.
use vstd::prelude::*;
use vstd::string::*;

use crate::arith::{satAddU128, specSatAdd, MAX_TIME_US};

verus! {

/// The four global run states.
#[derive(Clone, Copy, Debug, PartialEq, Eq, Structural)]
pub enum SimulationState {
    RUNNING,
    PAUSED,
    STOP,
    EXIT,
}

/// What the pre-transition validation of the configuration found.  The file
/// checks themselves are I/O and happen outside the library; their outcome
/// is handed in as a plain value.
#[derive(Clone, Copy, Debug, PartialEq, Eq, Structural)]
pub enum ConfigCheck {
    FILE_MISSING,
    BAD_STRUCTURE,
    VALID,
}

/// The answer of a start/stop toggle request.
#[derive(Clone, Copy, Debug, PartialEq, Eq, Structural)]
pub enum ToggleResponse {
    SUCCESS,
    NEGATIVE_TIMER,
    FILE_MISSING,
    BAD_STRUCTURE,
}

impl ToggleResponse {
    /// The message body sent back over HTTP.
    pub open spec fn specMessage(self) -> Seq<char> {
        match self {
            ToggleResponse::SUCCESS => "success"@,
            ToggleResponse::NEGATIVE_TIMER => "Time cannot be negative."@,
            ToggleResponse::FILE_MISSING => "File does not exist."@,
            ToggleResponse::BAD_STRUCTURE => "JSON file has invalid structure."@,
        }
    }

    pub fn message(&self) -> (r: String)
        ensures
            r@ == self.specMessage(),
    {
        match self {
            ToggleResponse::SUCCESS => String::from_str("success"),
            ToggleResponse::NEGATIVE_TIMER => String::from_str("Time cannot be negative."),
            ToggleResponse::FILE_MISSING => String::from_str("File does not exist."),
            ToggleResponse::BAD_STRUCTURE => String::from_str(
                "JSON file has invalid structure.",
            ),
        }
    }
}

/// The process-wide control registers.
pub struct ControlRegisters {
    pub state: SimulationState,
    pub configName: String,
    pub activeTimeUs: u128,
    pub runtimeUs: u128,
    pub timerLimitUs: i128,
}

/// What a start/stop toggle does: from STOP it validates first (an invalid
/// timer or configuration leaves everything unchanged), a running
/// simulation is stopped, EXIT is final, and a paused one is stopped.
pub open spec fn specToggleSim(regs: ControlRegisters, check: ConfigCheck) -> (
    ControlRegisters,
    ToggleResponse,
) {
    if regs.state == SimulationState::STOP && regs.timerLimitUs < 0 {
        (regs, ToggleResponse::NEGATIVE_TIMER)
    } else if regs.state == SimulationState::STOP && check == ConfigCheck::FILE_MISSING {
        (regs, ToggleResponse::FILE_MISSING)
    } else if regs.state == SimulationState::STOP && check == ConfigCheck::BAD_STRUCTURE {
        (regs, ToggleResponse::BAD_STRUCTURE)
    } else {
        let next = match regs.state {
            SimulationState::RUNNING => SimulationState::STOP,
            SimulationState::STOP => SimulationState::RUNNING,
            SimulationState::EXIT => SimulationState::EXIT,
            SimulationState::PAUSED => SimulationState::STOP,
        };
        (ControlRegisters { state: next, ..regs }, ToggleResponse::SUCCESS)
    }
}

/// What a suspend request does: RUNNING and PAUSED swap, the two final
/// states are untouched.
pub open spec fn specSuspendSim(regs: ControlRegisters) -> ControlRegisters {
    match regs.state {
        SimulationState::RUNNING => ControlRegisters { state: SimulationState::PAUSED, ..regs },
        SimulationState::PAUSED => ControlRegisters { state: SimulationState::RUNNING, ..regs },
        SimulationState::EXIT => regs,
        SimulationState::STOP => regs,
    }
}

impl ControlRegisters {
    /// Initial registers: stopped, no configuration name, zero clocks, no
    /// run-duration limit.
    pub fn new() -> (r: ControlRegisters)
        ensures
            r.state == SimulationState::STOP,
            r.configName@ == Seq::<char>::empty(),
            r.activeTimeUs == 0,
            r.runtimeUs == 0,
            r.timerLimitUs == 0,
    {
        ControlRegisters {
            state: SimulationState::STOP,
            configName: String::new(),
            activeTimeUs: 0,
            runtimeUs: 0,
            timerLimitUs: 0,
        }
    }

    /// The configured file name, defaulting to `factory.json`; the default
    /// is written back, as the original configuration cell does.
    pub fn configNameOrDefault(&mut self) -> (r: String)
        ensures
            r@ == (if old(self).configName@.len() == 0 {
                "factory.json"@
            } else {
                old(self).configName@
            }),
            final(self).configName@ == r@,
            final(self).state == old(self).state,
            final(self).activeTimeUs == old(self).activeTimeUs,
            final(self).runtimeUs == old(self).runtimeUs,
            final(self).timerLimitUs == old(self).timerLimitUs,
    {
        if self.configName.as_str().unicode_len() == 0 {
            self.configName = String::from_str("factory.json");
        }
        self.configName.clone()
    }

    /// Store a new configuration name.
    pub fn setConfig(&mut self, name: String)
        ensures
            *final(self) == (ControlRegisters { configName: name, ..*old(self) }),
    {
        self.configName = name;
    }

    /// Zero both elapsed clocks, as done on every transition into RUNNING.
    pub fn zeroClocks(&mut self)
        ensures
            *final(self) == (ControlRegisters { activeTimeUs: 0, runtimeUs: 0, ..*old(self) }),
    {
        self.activeTimeUs = 0;
        self.runtimeUs = 0;
    }

    /// Advance the clocks by one time delta: the runtime clock always
    /// counts, the active clock only while the simulation is RUNNING.
    pub fn addTime(&mut self, deltaTimeUs: u128)
        requires
            deltaTimeUs <= MAX_TIME_US,
        ensures
            final(self).runtimeUs == specSatAdd(
                old(self).runtimeUs as int,
                deltaTimeUs as int,
                u128::MAX as int,
            ),
            final(self).activeTimeUs == (if old(self).state == SimulationState::RUNNING {
                specSatAdd(old(self).activeTimeUs as int, deltaTimeUs as int, u128::MAX as int)
            } else {
                old(self).activeTimeUs as int
            }),
            final(self).state == old(self).state,
            final(self).configName == old(self).configName,
            final(self).timerLimitUs == old(self).timerLimitUs,
    {
        self.runtimeUs = satAddU128(self.runtimeUs, deltaTimeUs);
        if self.state == SimulationState::RUNNING {
            self.activeTimeUs = satAddU128(self.activeTimeUs, deltaTimeUs);
        }
    }

    /// Arm (or disarm) the run-duration limit; the request is in minutes.
    pub fn setTimer(&mut self, minutes: i64)
        ensures
            *final(self) == (ControlRegisters {
                timerLimitUs: (minutes as int * 60000000) as i128,
                ..*old(self)
            }),
    {
        self.timerLimitUs = minutes as i128 * 60000000;
    }

    /// Microseconds of active time left before the limit stops the run;
    /// zero when no limit is armed or the limit has passed.
    pub fn timeRemaining(&self) -> (r: u128)
        ensures
            r == (if self.timerLimitUs <= 0 {
                0int
            } else if self.activeTimeUs >= self.timerLimitUs {
                0int
            } else {
                self.timerLimitUs - self.activeTimeUs
            }),
    {
        if self.timerLimitUs <= 0 {
            return 0;
        }
        let limit = self.timerLimitUs as u128;
        if self.activeTimeUs >= limit {
            return 0;
        }
        limit - self.activeTimeUs
    }

    /// Start or stop the simulation, validating first when starting.
    pub fn toggleSim(&mut self, check: ConfigCheck) -> (r: ToggleResponse)
        ensures
            (*final(self), r) == specToggleSim(*old(self), check),
    {
        if self.state == SimulationState::STOP {
            if self.timerLimitUs < 0 {
                return ToggleResponse::NEGATIVE_TIMER;
            }
            if check == ConfigCheck::FILE_MISSING {
                return ToggleResponse::FILE_MISSING;
            }
            if check == ConfigCheck::BAD_STRUCTURE {
                return ToggleResponse::BAD_STRUCTURE;
            }
        }
        match self.state {
            SimulationState::RUNNING => {
                self.state = SimulationState::STOP;
            },
            SimulationState::STOP => {
                self.state = SimulationState::RUNNING;
            },
            SimulationState::EXIT => {},
            SimulationState::PAUSED => {
                self.state = SimulationState::STOP;
            },
        }
        ToggleResponse::SUCCESS
    }

    /// Pause or resume the simulation.
    pub fn suspendSim(&mut self)
        ensures
            *final(self) == specSuspendSim(*old(self)),
    {
        match self.state {
            SimulationState::RUNNING => {
                self.state = SimulationState::PAUSED;
            },
            SimulationState::PAUSED => {
                self.state = SimulationState::RUNNING;
            },
            SimulationState::EXIT => {},
            SimulationState::STOP => {},
        }
    }

    /// Request process exit; allowed from any state.
    pub fn exitSim(&mut self)
        ensures
            *final(self) == (ControlRegisters { state: SimulationState::EXIT, ..*old(self) }),
    {
        self.state = SimulationState::EXIT;
    }

    /// The state text reported by the state query endpoint.
    pub fn stateText(&self) -> (r: String)
        ensures
            r@ == (match self.state {
                SimulationState::RUNNING => "running"@,
                SimulationState::STOP => "stop"@,
                SimulationState::PAUSED => "paused"@,
                SimulationState::EXIT => "error"@,
            }),
    {
        match self.state {
            SimulationState::RUNNING => String::from_str("running"),
            SimulationState::STOP => String::from_str("stop"),
            SimulationState::PAUSED => String::from_str("paused"),
            SimulationState::EXIT => String::from_str("error"),
        }
    }
}

/// Law: two toggles from STOP with a valid configuration return to STOP
/// with the registers exactly as they were — the toggle touches no clock,
/// no name and no limit.
pub proof fn lemmaToggleTwiceFromStop(regs: ControlRegisters)
    requires
        regs.state == SimulationState::STOP,
        regs.timerLimitUs >= 0,
    ensures
        ({
            let (r1, a1) = specToggleSim(regs, ConfigCheck::VALID);
            let (r2, a2) = specToggleSim(r1, ConfigCheck::VALID);
            &&& r1.state == SimulationState::RUNNING
            &&& a1 == ToggleResponse::SUCCESS
            &&& a2 == ToggleResponse::SUCCESS
            &&& r2 == regs
        }),
{
}

} // verus!
