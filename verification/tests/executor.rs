use springsteel::executor::{Countdown, HostLoop, StepVerdict, Task};

#[test]
fn submit_registers_exactly_one_step() {
    let mut host = HostLoop::new();
    let task = Task::submit(Countdown::new(1), &mut host);
    assert!(task.is_scheduled());
    assert!(!task.is_done());
    assert_eq!(host.live_count(), 1);
    assert_eq!(task.outstanding_handles(), 0);
}

#[test]
fn wakes_before_next_step_coalesce() {
    let mut host = HostLoop::new();
    let mut task = Task::submit(Countdown::new(2), &mut host);
    // The first step clears the marker and asks the host to repeat.
    assert_eq!(task.step(&mut host), StepVerdict::Repeat);
    assert!(!task.is_scheduled());
    assert_eq!(host.live_count(), 1);
    // Several wake sources fire before the next step: only the first
    // registers a new step, the rest coalesce into it.
    task.clone_handle();
    task.clone_handle();
    task.clone_handle();
    assert!(task.wake_by_ref(&mut host));
    assert!(!task.wake_by_ref(&mut host));
    assert!(!task.wake(&mut host));
    assert!(!task.wake(&mut host));
    assert_eq!(host.live_count(), 2);
    assert_eq!(task.outstanding_handles(), 1);
}

#[test]
fn dropping_a_handle_schedules_nothing() {
    let mut host = HostLoop::new();
    let mut task = Task::submit(Countdown::new(1), &mut host);
    assert_eq!(task.step(&mut host), StepVerdict::Repeat);
    task.clone_handle();
    task.drop_handle();
    assert!(!task.is_scheduled());
    assert_eq!(host.live_count(), 1);
    assert_eq!(task.outstanding_handles(), 0);
}

#[test]
fn countdown_takes_exactly_k_plus_one_steps() {
    let (task, host, steps) = springsteel::executor::run_countdown(3);
    assert_eq!(steps, 4);
    assert!(task.is_done());
    assert!(!task.is_scheduled());
    assert_eq!(host.live_count(), 0);
}

#[test]
fn immediately_ready_computation_takes_one_step() {
    let (task, host, steps) = springsteel::executor::run_countdown(0);
    assert_eq!(steps, 1);
    assert!(task.is_done());
    assert_eq!(host.live_count(), 0);
}

#[test]
fn stale_wake_after_completion_schedules_nothing() {
    let (mut task, mut host, _) = springsteel::executor::run_countdown(2);
    task.clone_handle();
    assert!(!task.wake_by_ref(&mut host));
    assert!(!task.wake(&mut host));
    assert!(!task.is_scheduled());
    assert_eq!(host.live_count(), 0);
}

#[test]
fn stale_registration_after_completion_retires_quietly() {
    let mut host = HostLoop::new();
    let mut task = Task::submit(Countdown::new(1), &mut host);
    // First step: not ready; marker cleared, registration kept repeating.
    assert_eq!(task.step(&mut host), StepVerdict::Repeat);
    // A wake races in before the repeat: it sees no marker and registers a
    // second step.
    task.clone_handle();
    assert!(task.wake(&mut host));
    assert_eq!(host.live_count(), 2);
    // The repeating registration completes the computation.
    assert_eq!(task.step(&mut host), StepVerdict::Finished);
    assert!(task.is_done());
    assert_eq!(host.live_count(), 1);
    // The extra registration fires against the released task: it polls
    // nothing and is retired.
    assert_eq!(task.step(&mut host), StepVerdict::Finished);
    assert!(task.is_done());
    assert_eq!(host.live_count(), 0);
}
