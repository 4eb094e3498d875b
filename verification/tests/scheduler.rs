use emu_runner::events::{console_output, Input, Output};
use emu_runner::runner::{Action, AsyncRunner, Event, Phase, StepResult};

/// Walks a fresh runner through startup with an empty console flush and a
/// drive phase answered by the given hints, and returns it together with the
/// result of the step that left the drive phase.
fn after_drive(hints: &[u64]) -> (AsyncRunner, StepResult) {
    let mut runner = AsyncRunner::new();
    let mut step = runner.step(Event::StartupDone(Vec::new()));
    assert_eq!(step.action, Action::Probe);
    for (i, hint) in hints.iter().enumerate() {
        step = runner.step(Event::Probed(*hint));
        if i + 1 < hints.len() {
            assert_eq!(step.action, Action::Probe);
        }
    }
    (runner, step)
}

#[test]
fn new_runner_starts_at_startup() {
    let runner = AsyncRunner::new();
    assert_eq!(runner.phase, Phase::Startup);
    assert!(runner.input_open);
}

#[test]
fn first_positive_hint_is_adopted_and_probing_stops() {
    let (runner, step) = after_drive(&[0, 0, 3]);
    assert_eq!(runner.phase, Phase::Sample { delay: 3 });
    assert_eq!(step.action, Action::Sample);
}

#[test]
fn immediate_positive_hint_needs_one_probe() {
    let (runner, step) = after_drive(&[25]);
    assert_eq!(runner.phase, Phase::Sample { delay: 25 });
    assert_eq!(step.action, Action::Sample);
}

#[test]
fn positive_hint_on_the_last_budgeted_probe_is_adopted() {
    let (runner, step) = after_drive(&[0, 0, 0, 0, 7]);
    assert_eq!(runner.phase, Phase::Sample { delay: 7 });
    assert_eq!(step.action, Action::Sample);
}

#[test]
fn largest_delay_is_adopted_unchanged() {
    let (mut runner, _) = after_drive(&[u64::MAX]);
    assert_eq!(runner.phase, Phase::Sample { delay: u64::MAX });
    let step = runner.step(Event::Sampled(None, Vec::new()));
    assert_eq!(step.action, Action::Wait(u64::MAX));
}

#[test]
fn five_zero_hints_fall_back_to_default_delay() {
    let (runner, step) = after_drive(&[0, 0, 0, 0, 0]);
    assert_eq!(runner.phase, Phase::Sample { delay: 1 });
    assert_eq!(step.action, Action::Sample);
}

#[test]
fn first_wait_is_delay_floored_at_ten() {
    let (mut runner, _) = after_drive(&[3]);
    let step = runner.step(Event::Sampled(None, Vec::new()));
    assert_eq!(step.action, Action::Wait(10));

    let (mut runner, _) = after_drive(&[50]);
    let step = runner.step(Event::Sampled(None, Vec::new()));
    assert_eq!(step.action, Action::Wait(50));
}

#[test]
fn waits_after_an_applied_input_last_one_unit() {
    let (mut runner, _) = after_drive(&[50]);
    let step = runner.step(Event::Sampled(None, Vec::new()));
    assert_eq!(step.action, Action::Wait(50));
    let step = runner.step(Event::InputArrived(Input::Button(true)));
    assert_eq!(step.action, Action::ApplyInput(Input::Button(true)));
    let step = runner.step(Event::InputApplied);
    assert_eq!(step.action, Action::Wait(1));
    let step = runner.step(Event::InputArrived(Input::Button(false)));
    assert_eq!(step.action, Action::ApplyInput(Input::Button(false)));
    let step = runner.step(Event::InputApplied);
    assert_eq!(step.action, Action::Wait(1));
}

#[test]
fn empty_console_bytes_are_suppressed() {
    assert_eq!(console_output(Vec::new()), None);
    let (mut runner, _) = after_drive(&[5]);
    let step = runner.step(Event::Sampled(None, Vec::new()));
    assert!(step.outputs.is_empty());
}

#[test]
fn non_empty_console_bytes_give_exactly_one_output() {
    assert_eq!(
        console_output(vec![104, 105]),
        Some(Output::Console(vec![104, 105]))
    );
    let (mut runner, _) = after_drive(&[5]);
    let step = runner.step(Event::Sampled(None, vec![104, 105]));
    assert_eq!(step.outputs, vec![Output::Console(vec![104, 105])]);
}

#[test]
fn startup_console_bytes_are_flushed_and_filtered() {
    let mut runner = AsyncRunner::new();
    let step = runner.step(Event::StartupDone(vec![62]));
    assert_eq!(step.outputs, vec![Output::Console(vec![62])]);
    assert_eq!(step.action, Action::Probe);

    let mut runner = AsyncRunner::new();
    let step = runner.step(Event::StartupDone(Vec::new()));
    assert!(step.outputs.is_empty());
}

#[test]
fn closed_input_keeps_the_loop_running() {
    let (mut runner, _) = after_drive(&[20]);
    let step = runner.step(Event::Sampled(None, Vec::new()));
    assert_eq!(step.action, Action::Wait(20));
    let step = runner.step(Event::InputClosed);
    assert!(!runner.input_open);
    assert_eq!(step.action, Action::Wait(20));
    let step = runner.step(Event::TimedOut);
    assert_eq!(runner.phase, Phase::Drive { probes: 0 });
    assert_eq!(step.action, Action::Probe);
    // a later iteration still samples and emits outputs
    let step = runner.step(Event::Probed(4));
    assert_eq!(step.action, Action::Sample);
    let step = runner.step(Event::Sampled(Some(vec![9]), vec![33]));
    assert_eq!(
        step.outputs,
        vec![Output::Screen(vec![9]), Output::Console(vec![33])]
    );
}

#[test]
fn input_closing_during_a_burst_keeps_the_short_wait() {
    let (mut runner, _) = after_drive(&[20]);
    let _ = runner.step(Event::Sampled(None, Vec::new()));
    let _ = runner.step(Event::InputArrived(Input::Button(true)));
    let step = runner.step(Event::InputApplied);
    assert_eq!(step.action, Action::Wait(1));
    let step = runner.step(Event::InputClosed);
    assert_eq!(step.action, Action::Wait(1));
    let step = runner.step(Event::TimedOut);
    assert_eq!(step.action, Action::Probe);
}

#[test]
fn changed_graphics_emit_exactly_one_screen_frame() {
    let (mut runner, _) = after_drive(&[5]);
    let frame = vec![1, 2, 3, 4];
    let step = runner.step(Event::Sampled(Some(frame.clone()), Vec::new()));
    assert_eq!(step.outputs, vec![Output::Screen(frame)]);
    let step = runner.step(Event::TimedOut);
    assert_eq!(step.action, Action::Probe);
    let step = runner.step(Event::Probed(5));
    assert_eq!(step.action, Action::Sample);
    let step = runner.step(Event::Sampled(None, Vec::new()));
    assert!(step.outputs.is_empty());
    assert_eq!(step.action, Action::Wait(10));
}

#[test]
fn touch_input_is_applied_before_the_next_drive_phase() {
    let (mut runner, _) = after_drive(&[12]);
    let step = runner.step(Event::Sampled(None, Vec::new()));
    assert_eq!(step.action, Action::Wait(12));
    let step = runner.step(Event::InputArrived(Input::Touch(10, 20, true)));
    // the application is asked for at once, before any further probe
    assert_eq!(step.action, Action::ApplyInput(Input::Touch(10, 20, true)));
    assert_eq!(runner.phase, Phase::Applying { delay: 12 });
    let step = runner.step(Event::InputApplied);
    assert_eq!(step.action, Action::Wait(1));
    let step = runner.step(Event::TimedOut);
    assert_eq!(runner.phase, Phase::Drive { probes: 0 });
    assert_eq!(step.action, Action::Probe);
}

#[test]
fn console_input_is_forwarded_verbatim() {
    let (mut runner, _) = after_drive(&[12]);
    let _ = runner.step(Event::Sampled(None, Vec::new()));
    let step = runner.step(Event::InputArrived(Input::Console(vec![65, 66])));
    assert_eq!(step.action, Action::ApplyInput(Input::Console(vec![65, 66])));
}

#[test]
fn fatal_probe_error_stops_the_run_at_once() {
    let mut runner = AsyncRunner::new();
    let step = runner.step(Event::StartupDone(Vec::new()));
    assert_eq!(step.action, Action::Probe);
    let step = runner.step(Event::Probed(0));
    assert_eq!(step.action, Action::Probe);
    let step = runner.step(Event::Probed(0));
    assert_eq!(step.action, Action::Probe);
    // the third probe fails: the run ends with no further probe, sample or wait
    let step = runner.step(Event::Fatal);
    assert_eq!(step.action, Action::Stop);
    assert!(step.outputs.is_empty());
    assert_eq!(runner.phase, Phase::Stopped);
}

#[test]
fn fatal_sample_error_stops_the_run() {
    let (mut runner, _) = after_drive(&[8]);
    let step = runner.step(Event::Fatal);
    assert_eq!(step.action, Action::Stop);
    assert_eq!(runner.phase, Phase::Stopped);
}

#[test]
fn fatal_startup_error_stops_the_run() {
    let mut runner = AsyncRunner::new();
    let step = runner.step(Event::Fatal);
    assert_eq!(step.action, Action::Stop);
    assert_eq!(runner.phase, Phase::Stopped);
}
