//! The guarantees of the scheduling loop, stated and proved over the
//! transition relation of [`crate::runner`].

use vstd::prelude::*;

use crate::events::{Input, OutputModel};
use crate::runner::{
    transition, wait_units, ActionModel, AsyncRunner, Event, EventModel, Phase, BURST_WAIT,
    DEFAULT_DELAY, PROBE_BUDGET,
};

verus! {

/// How a whole drive phase ends: the phase the runner reaches and how many of
/// the idle-probe hints it consumed.
pub ghost struct DriveRun {
    pub phase: Phase,
    pub probes: int,
}

/// Iterates [`transition`] through a drive phase that already issued
/// `probes_done` zero-answered probes, feeding it the idle-probe hints in
/// order, until it leaves the drive phase or runs out of hints.
pub open spec fn drive_run(probes_done: u8, input_open: bool, hints: Seq<u64>) -> DriveRun
    decreases hints.len(),
{
    if hints.len() == 0 {
        DriveRun { phase: Phase::Drive { probes: probes_done }, probes: 0 }
    } else {
        let t = transition(
            Phase::Drive { probes: probes_done },
            input_open,
            EventModel::Probed(hints[0]),
        );
        match t.phase {
            Phase::Drive { probes } => {
                let rest = drive_run(probes, input_open, hints.drop_first());
                DriveRun { phase: rest.phase, probes: 1 + rest.probes }
            },
            p => DriveRun { phase: p, probes: 1 },
        }
    }
}

/// A drive phase that already issued `probes_done` probes and whose next
/// positive hint stands at index `k`, within the remaining budget, adopts
/// that hint as the delay and consumes exactly the hints up to it.
proof fn lemma_drive_run_adopts(probes_done: u8, input_open: bool, hints: Seq<u64>, k: int)
    requires
        probes_done < PROBE_BUDGET,
        0 <= k < PROBE_BUDGET - probes_done,
        k < hints.len(),
        hints[k] > 0,
        forall|i: int| 0 <= i < k ==> hints[i] == 0,
    ensures
        drive_run(probes_done, input_open, hints).phase == (Phase::Sample { delay: hints[k] }),
        drive_run(probes_done, input_open, hints).probes == k + 1,
    decreases k,
{
    if k > 0 {
        lemma_drive_run_adopts((probes_done + 1) as u8, input_open, hints.drop_first(), k - 1);
    }
}

/// A drive phase that already issued `probes_done` probes and is answered
/// with zeros for the whole rest of its budget falls back to the default
/// delay, consuming exactly that rest.
proof fn lemma_drive_run_exhausts(probes_done: u8, input_open: bool, hints: Seq<u64>)
    requires
        probes_done < PROBE_BUDGET,
        hints.len() >= PROBE_BUDGET - probes_done,
        forall|i: int| 0 <= i < PROBE_BUDGET - probes_done ==> hints[i] == 0,
    ensures
        drive_run(probes_done, input_open, hints).phase == (Phase::Sample { delay: DEFAULT_DELAY }),
        drive_run(probes_done, input_open, hints).probes == PROBE_BUDGET - probes_done,
    decreases PROBE_BUDGET - probes_done,
{
    if probes_done + 1 < PROBE_BUDGET {
        lemma_drive_run_exhausts((probes_done + 1) as u8, input_open, hints.drop_first());
    }
}

/// Whenever one of the idle probes within the budget would return a positive
/// hint, the drive phase adopts the first such hint as the delay and issues
/// no probe after it.
pub proof fn lemma_drive_adopts_first_positive(input_open: bool, hints: Seq<u64>, k: int)
    requires
        0 <= k < PROBE_BUDGET,
        k < hints.len(),
        hints[k] > 0,
        forall|i: int| 0 <= i < k ==> hints[i] == 0,
    ensures
        drive_run(0, input_open, hints).phase == (Phase::Sample { delay: hints[k] }),
        drive_run(0, input_open, hints).probes == k + 1,
{
    lemma_drive_run_adopts(0, input_open, hints, k);
}

/// When every probe in the budget returns zero, the drive phase adopts the
/// default delay, whatever any later hint would have been: exactly the
/// budgeted number of probes is issued and nothing past it is ever consumed.
pub proof fn lemma_drive_defaults_on_zeros(input_open: bool, hints: Seq<u64>)
    requires
        hints.len() >= PROBE_BUDGET,
        forall|i: int| 0 <= i < PROBE_BUDGET ==> hints[i] == 0,
    ensures
        drive_run(0, input_open, hints).phase == (Phase::Sample { delay: DEFAULT_DELAY }),
        drive_run(0, input_open, hints).probes == PROBE_BUDGET,
{
    lemma_drive_run_exhausts(0, input_open, hints);
}

/// The first wait of a burst lasts the adopted delay floored at ten units;
/// every later wait of the same burst, entered after an input was applied,
/// lasts exactly one unit, whatever the adopted delay.
pub proof fn lemma_wait_tiers(
    delay: u64,
    input_open: bool,
    screen: Option<Seq<u8>>,
    console: Seq<u8>,
)
    ensures
        transition(Phase::Sample { delay }, input_open, EventModel::Sampled(screen, console)).action
            == ActionModel::Wait(if delay > 10 { delay } else { 10 }),
        transition(Phase::Applying { delay }, input_open, EventModel::InputApplied).action
            == ActionModel::Wait(1),
        wait_units(delay, true) == (if delay > 10 { delay } else { 10 }),
        wait_units(delay, false) == BURST_WAIT,
{
}

/// An empty console buffer never yields an output event; a non-empty one
/// yields exactly one console output, carrying those bytes, per sample or
/// startup flush: it is the last output of the step and no other output of
/// the step is a console event.
pub proof fn lemma_console_filter(
    delay: u64,
    input_open: bool,
    screen: Option<Seq<u8>>,
    console: Seq<u8>,
)
    ensures
        ({
            let outs = transition(
                Phase::Sample { delay },
                input_open,
                EventModel::Sampled(screen, console),
            ).outputs;
            &&& console.len() == 0 ==> (forall|j: int|
                0 <= j < outs.len() ==> !(#[trigger] outs[j] matches OutputModel::Console(_)))
            &&& console.len() > 0 ==> {
                &&& outs.len() >= 1
                &&& outs[outs.len() - 1] == OutputModel::Console(console)
                &&& forall|j: int|
                    0 <= j < outs.len() - 1 ==> !(#[trigger] outs[j] matches OutputModel::Console(_))
            }
        }),
        ({
            let outs = transition(
                Phase::Startup,
                input_open,
                EventModel::StartupDone(console),
            ).outputs;
            &&& console.len() == 0 ==> outs.len() == 0
            &&& console.len() > 0 ==> outs == seq![OutputModel::Console(console)]
        }),
{
}

/// Closing the input stream never stops the loop: the runner stays in its
/// wait without asking to stop, and the next timeout still leads back to a
/// drive phase with a fresh probe.
pub proof fn lemma_input_close_keeps_running(delay: u64, first: bool)
    ensures
        ({
            let t = transition(Phase::Wait { delay, first }, true, EventModel::InputClosed);
            &&& t.phase == (Phase::Wait { delay, first })
            &&& !t.input_open
            &&& !(t.action is Stop)
            &&& transition(t.phase, t.input_open, EventModel::TimedOut).phase
                == (Phase::Drive { probes: 0 })
            &&& transition(t.phase, t.input_open, EventModel::TimedOut).action == ActionModel::Probe
        }),
{
}

/// At most one input application is ever in flight: when an input arrives,
/// the runner asks for exactly that application and accepts no further input
/// until it was acknowledged, so inputs reach the emulator one at a time, in
/// arrival order.
pub proof fn lemma_one_input_in_flight(s: AsyncRunner, input: Input)
    requires
        s.wf(),
        s.accepts(Event::InputArrived(input)),
    ensures
        ({
            let t = transition(s.phase, s.input_open, EventModel::InputArrived(input@));
            let after = AsyncRunner { phase: t.phase, input_open: t.input_open };
            &&& t.action == ActionModel::ApplyInput(input@)
            &&& forall|next: Event|
                #[trigger] after.accepts(next) ==> (next matches Event::InputApplied || next
                    matches Event::Fatal)
        }),
{
}

/// Only a fatal error stops the runner: every other event it accepts leaves
/// it in a running phase.
pub proof fn lemma_only_fatal_stops(s: AsyncRunner, event: Event)
    requires
        s.wf(),
        s.accepts(event),
        !(event is Fatal),
    ensures
        transition(s.phase, s.input_open, event@).phase != Phase::Stopped,
{
}

} // verus!
