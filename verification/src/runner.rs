//! The scheduling state machine of the runner.
//!
//! One outer iteration of the loop is Drive, then Sample, then a wait that
//! races an adaptive timeout against input. The machine here decides; the
//! surrounding process performs: each call of [`AsyncRunner::step`] consumes
//! one observation ([`Event`]) and returns the outputs to emit together with
//! the next [`Action`] to carry out. The emulator itself, the lock around it,
//! the channels and the timers all live with the caller.

use vstd::prelude::*;

use crate::events::{console_output, console_outputs, Input, InputModel, Output, OutputModel};

verus! {

/// How many idle probes a drive phase issues at most before it falls back to
/// the default delay.
pub const PROBE_BUDGET: u8 = 5;

/// The delay adopted when the probe budget is exhausted without a positive
/// hint, in time units.
pub const DEFAULT_DELAY: u64 = 1;

/// The floor under the first wait of a burst, in time units.
pub const FIRST_WAIT_FLOOR: u64 = 10;

/// The short wait used after an input was absorbed, so a burst of inputs is
/// drained before the next full drive phase, in time units.
pub const BURST_WAIT: u64 = 1;

/// Where the runner stands inside one outer iteration of the loop.
#[derive(Clone, Copy, Debug, PartialEq, Eq, Structural)]
pub enum Phase {
    /// Before the startup stimulus was delivered.
    Startup,
    /// Probing the emulator for idleness; `probes` idle probes were already
    /// answered with zero in this drive phase.
    Drive { probes: u8 },
    /// Driving is done with the given adopted delay; observable emulator
    /// state is being sampled.
    Sample { delay: u64 },
    /// Racing a timeout against input; `first` is whether no input was
    /// absorbed yet since the last sample.
    Wait { delay: u64, first: bool },
    /// An input event is being applied to the emulator.
    Applying { delay: u64 },
    /// A fatal error ended the run.
    Stopped,
}

/// One observation handed back by the surrounding process: the result of the
/// action the machine asked for last.
#[derive(Clone, Debug, PartialEq, Eq)]
pub enum Event {
    /// The startup stimulus was delivered; these console bytes were drained
    /// right after it.
    StartupDone(Vec<u8>),
    /// An idle probe returned this non-negative duration hint.
    Probed(u64),
    /// Sampling finished: the screen frame if graphics changed, and the
    /// drained console bytes.
    Sampled(Option<Vec<u8>>, Vec<u8>),
    /// The wait elapsed without input.
    TimedOut,
    /// An input event arrived before the wait elapsed.
    InputArrived(Input),
    /// The offloaded application of an input event was acknowledged.
    InputApplied,
    /// The input stream is closed; no further input will ever arrive.
    InputClosed,
    /// A fatal error: the emulator failed during startup, drive or sample,
    /// or the offload mechanism itself failed.
    Fatal,
}

/// What the machine asks the surrounding process to do next.
#[derive(Clone, Debug, PartialEq, Eq)]
pub enum Action {
    /// Offload one blocking idle probe on the emulator.
    Probe,
    /// Under one lock acquisition: check whether graphics changed, fetch the
    /// screen if so, and drain the console buffer.
    Sample,
    /// Wait this many time units, racing the timeout against input reception
    /// while the input stream is open.
    Wait(u64),
    /// Offload the application of this input to the emulator; its result is
    /// best-effort and does not stop the loop.
    ApplyInput(Input),
    /// The run is over; propagate the fatal error.
    Stop,
}

/// The mathematical model of an [`Event`].
pub ghost enum EventModel {
    StartupDone(Seq<u8>),
    Probed(u64),
    Sampled(Option<Seq<u8>>, Seq<u8>),
    TimedOut,
    InputArrived(InputModel),
    InputApplied,
    InputClosed,
    Fatal,
}

/// The mathematical model of an [`Action`].
pub ghost enum ActionModel {
    Probe,
    Sample,
    Wait(u64),
    ApplyInput(InputModel),
    Stop,
}

impl View for Event {
    type V = EventModel;

    open spec fn view(&self) -> EventModel {
        match self {
            Event::StartupDone(console) => EventModel::StartupDone(console@),
            Event::Probed(hint) => EventModel::Probed(*hint),
            Event::Sampled(screen, console) => EventModel::Sampled(
                screen.deep_view(),
                console@,
            ),
            Event::TimedOut => EventModel::TimedOut,
            Event::InputArrived(input) => EventModel::InputArrived(input@),
            Event::InputApplied => EventModel::InputApplied,
            Event::InputClosed => EventModel::InputClosed,
            Event::Fatal => EventModel::Fatal,
        }
    }
}

impl View for Action {
    type V = ActionModel;

    open spec fn view(&self) -> ActionModel {
        match self {
            Action::Probe => ActionModel::Probe,
            Action::Sample => ActionModel::Sample,
            Action::Wait(units) => ActionModel::Wait(*units),
            Action::ApplyInput(input) => ActionModel::ApplyInput(input@),
            Action::Stop => ActionModel::Stop,
        }
    }
}

/// The model of one step: the state after it, the outputs it emits in order,
/// and the action it asks for.
pub ghost struct Transition {
    pub phase: Phase,
    pub input_open: bool,
    pub outputs: Seq<OutputModel>,
    pub action: ActionModel,
}

/// The wait duration of the input-or-timeout race: the adopted delay floored
/// at [`FIRST_WAIT_FLOOR`] for the first wait of a burst, [`BURST_WAIT`] for
/// every later one.
pub open spec fn wait_units(delay: u64, first: bool) -> u64 {
    if first {
        if delay > FIRST_WAIT_FLOOR {
            delay
        } else {
            FIRST_WAIT_FLOOR
        }
    } else {
        BURST_WAIT
    }
}

/// The outputs of a sample: the screen frame if graphics changed, then the
/// console bytes if any were drained.
pub open spec fn sample_outputs(screen: Option<Seq<u8>>, console: Seq<u8>) -> Seq<OutputModel> {
    (match screen {
        Some(frame) => seq![OutputModel::Screen(frame)],
        None => Seq::empty(),
    }) + console_outputs(console)
}

/// The transition relation of the scheduling loop, as a function: what one
/// step does to the state, which outputs it emits, and what it asks for next.
/// Combinations of phase and event that [`AsyncRunner::accepts`] rules out
/// are given a harmless default.
pub open spec fn transition(phase: Phase, input_open: bool, event: EventModel) -> Transition {
    match (phase, event) {
        (Phase::Startup, EventModel::StartupDone(console)) => Transition {
            phase: Phase::Drive { probes: 0 },
            input_open,
            outputs: console_outputs(console),
            action: ActionModel::Probe,
        },
        (Phase::Drive { probes }, EventModel::Probed(hint)) => if hint > 0 {
            Transition {
                phase: Phase::Sample { delay: hint },
                input_open,
                outputs: Seq::empty(),
                action: ActionModel::Sample,
            }
        } else if probes + 1 < PROBE_BUDGET {
            Transition {
                phase: Phase::Drive { probes: (probes + 1) as u8 },
                input_open,
                outputs: Seq::empty(),
                action: ActionModel::Probe,
            }
        } else {
            Transition {
                phase: Phase::Sample { delay: DEFAULT_DELAY },
                input_open,
                outputs: Seq::empty(),
                action: ActionModel::Sample,
            }
        },
        (Phase::Sample { delay }, EventModel::Sampled(screen, console)) => Transition {
            phase: Phase::Wait { delay, first: true },
            input_open,
            outputs: sample_outputs(screen, console),
            action: ActionModel::Wait(wait_units(delay, true)),
        },
        (Phase::Wait { .. }, EventModel::TimedOut) => Transition {
            phase: Phase::Drive { probes: 0 },
            input_open,
            outputs: Seq::empty(),
            action: ActionModel::Probe,
        },
        (Phase::Wait { delay, .. }, EventModel::InputArrived(input)) => Transition {
            phase: Phase::Applying { delay },
            input_open,
            outputs: Seq::empty(),
            action: ActionModel::ApplyInput(input),
        },
        (Phase::Wait { delay, first }, EventModel::InputClosed) => Transition {
            phase: Phase::Wait { delay, first },
            input_open: false,
            outputs: Seq::empty(),
            action: ActionModel::Wait(wait_units(delay, first)),
        },
        (Phase::Applying { delay }, EventModel::InputApplied) => Transition {
            phase: Phase::Wait { delay, first: false },
            input_open,
            outputs: Seq::empty(),
            action: ActionModel::Wait(BURST_WAIT),
        },
        (_, EventModel::Fatal) => Transition {
            phase: Phase::Stopped,
            input_open,
            outputs: Seq::empty(),
            action: ActionModel::Stop,
        },
        _ => Transition { phase, input_open, outputs: Seq::empty(), action: ActionModel::Stop },
    }
}

/// What one call of [`AsyncRunner::step`] returned: the outputs to emit, in
/// order, and the next action to perform.
#[derive(Clone, Debug, PartialEq, Eq)]
pub struct StepResult {
    pub outputs: Vec<Output>,
    pub action: Action,
}

/// The scheduling loop's state between two steps.
#[derive(Clone, Copy, Debug, PartialEq, Eq, Structural)]
pub struct AsyncRunner {
    /// Where the loop stands inside the current outer iteration.
    pub phase: Phase,
    /// Whether the input stream is still open; once it closes, the loop
    /// keeps running on timeouts alone.
    pub input_open: bool,
}

impl AsyncRunner {
    /// The state invariant: the probe count never reaches the budget while
    /// still driving, and an adopted delay is at least the default floor.
    pub open spec fn wf(self) -> bool {
        &&& (self.phase matches Phase::Drive { probes } ==> probes < PROBE_BUDGET)
        &&& (self.phase matches Phase::Sample { delay } ==> delay >= DEFAULT_DELAY)
        &&& (self.phase matches Phase::Wait { delay, .. } ==> delay >= DEFAULT_DELAY)
        &&& (self.phase matches Phase::Applying { delay } ==> delay >= DEFAULT_DELAY)
    }

    /// Which events can be observed in the current state: each phase awaits
    /// the result of the one action it asked for, and input reception is only
    /// raced while the input stream is open.
    pub open spec fn accepts(self, event: Event) -> bool {
        match (self.phase, event) {
            (Phase::Startup, Event::StartupDone(_)) => true,
            (Phase::Startup, Event::Fatal) => true,
            (Phase::Drive { .. }, Event::Probed(_)) => true,
            (Phase::Drive { .. }, Event::Fatal) => true,
            (Phase::Sample { .. }, Event::Sampled(_, _)) => true,
            (Phase::Sample { .. }, Event::Fatal) => true,
            (Phase::Wait { .. }, Event::TimedOut) => true,
            (Phase::Wait { .. }, Event::InputArrived(_)) => self.input_open,
            (Phase::Wait { .. }, Event::InputClosed) => self.input_open,
            (Phase::Applying { .. }, Event::InputApplied) => true,
            (Phase::Applying { .. }, Event::Fatal) => true,
            _ => false,
        }
    }

    /// A fresh runner: the startup stimulus is still owed, and the input
    /// stream is open.
    pub fn new() -> (r: Self)
        ensures
            r == (AsyncRunner { phase: Phase::Startup, input_open: true }),
    {
        AsyncRunner { phase: Phase::Startup, input_open: true }
    }

    /// Consumes one observation and decides: the new state, the outputs to
    /// emit, and the next action, exactly as [`transition`] says.
    pub fn step(&mut self, event: Event) -> (r: StepResult)
        requires
            old(self).wf(),
            old(self).accepts(event),
        ensures
            final(self).wf(),
            ({
                let t = transition(old(self).phase, old(self).input_open, event@);
                &&& final(self).phase == t.phase
                &&& final(self).input_open == t.input_open
                &&& r.outputs.deep_view() == t.outputs
                &&& r.action@ == t.action
            }),
    {
        let phase = self.phase;
        match (phase, event) {
            (Phase::Startup, Event::StartupDone(console)) => {
                self.phase = Phase::Drive { probes: 0 };
                let ghost console_model = console@;
                let mut outputs: Vec<Output> = Vec::new();
                match console_output(console) {
                    Some(out) => outputs.push(out),
                    None => {},
                }
                proof {
                    assert(outputs.deep_view() =~= console_outputs(console_model));
                }
                StepResult { outputs, action: Action::Probe }
            },
            (Phase::Drive { probes }, Event::Probed(hint)) => {
                if hint > 0 {
                    self.phase = Phase::Sample { delay: hint };
                    StepResult { outputs: Vec::new(), action: Action::Sample }
                } else if probes + 1 < PROBE_BUDGET {
                    self.phase = Phase::Drive { probes: probes + 1 };
                    StepResult { outputs: Vec::new(), action: Action::Probe }
                } else {
                    self.phase = Phase::Sample { delay: DEFAULT_DELAY };
                    StepResult { outputs: Vec::new(), action: Action::Sample }
                }
            },
            (Phase::Sample { delay }, Event::Sampled(screen, console)) => {
                self.phase = Phase::Wait { delay, first: true };
                let ghost screen_model = screen.deep_view();
                let ghost console_model = console@;
                let mut outputs: Vec<Output> = Vec::new();
                match screen {
                    Some(frame) => {
                        proof {
                            // ties the moved frame back to the model of the event
                            assert(screen_model matches Some(f) && f == frame@);
                        }
                        outputs.push(Output::Screen(frame));
                    },
                    None => {},
                }
                match console_output(console) {
                    Some(out) => outputs.push(out),
                    None => {},
                }
                proof {
                    assert(outputs.deep_view() =~= sample_outputs(screen_model, console_model));
                }
                let units: u64 = if delay > FIRST_WAIT_FLOOR {
                    delay
                } else {
                    FIRST_WAIT_FLOOR
                };
                StepResult { outputs, action: Action::Wait(units) }
            },
            (Phase::Wait { .. }, Event::TimedOut) => {
                self.phase = Phase::Drive { probes: 0 };
                StepResult { outputs: Vec::new(), action: Action::Probe }
            },
            (Phase::Wait { delay, .. }, Event::InputArrived(input)) => {
                self.phase = Phase::Applying { delay };
                StepResult { outputs: Vec::new(), action: Action::ApplyInput(input) }
            },
            (Phase::Wait { delay, first }, Event::InputClosed) => {
                self.input_open = false;
                let units: u64 = if first {
                    if delay > FIRST_WAIT_FLOOR {
                        delay
                    } else {
                        FIRST_WAIT_FLOOR
                    }
                } else {
                    BURST_WAIT
                };
                StepResult { outputs: Vec::new(), action: Action::Wait(units) }
            },
            (Phase::Applying { delay }, Event::InputApplied) => {
                self.phase = Phase::Wait { delay, first: false };
                StepResult { outputs: Vec::new(), action: Action::Wait(BURST_WAIT) }
            },
            (_, Event::Fatal) => {
                self.phase = Phase::Stopped;
                StepResult { outputs: Vec::new(), action: Action::Stop }
            },
            _ => vstd::pervasive::unreached(),
        }
    }
}

} // verus!
