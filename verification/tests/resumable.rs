use core::ops::ControlFlow;
use middle::{pause, Resumable};
use std::cell::Cell;

#[test]
fn ready_wraps_output() {
    assert_eq!(Resumable::from_output(7u32), Resumable::Ready(7u32));
}

#[test]
fn branch_breaks_on_pause_and_continues_on_ready() {
    assert!(matches!(Resumable::<u8>::Pause.branch(), ControlFlow::Break(Resumable::Pause)));
    assert!(matches!(Resumable::Ready(3u8).branch(), ControlFlow::Continue(3)));
}

#[test]
fn residual_of_a_pause_is_a_pause() {
    match Resumable::<u8>::Pause.branch() {
        ControlFlow::Break(residual) => {
            assert_eq!(Resumable::<String>::from_residual(residual), Resumable::Pause)
        }
        ControlFlow::Continue(_) => panic!("a pause does not continue"),
    }
}

#[test]
fn is_pause_and_is_ready_tell_the_two_states_apart() {
    assert!(Resumable::<u8>::Pause.is_pause());
    assert!(!Resumable::<u8>::Pause.is_ready());
    assert!(Resumable::Ready(1u8).is_ready());
    assert!(!Resumable::Ready(1u8).is_pause());
}

fn workflow(signal: u32, calls: &Cell<u32>) -> Resumable<u32> {
    pause(signal).and_then(|()| {
        calls.set(calls.get() + 1);
        Resumable::Ready(41 + 1)
    })
}

#[test]
fn paused_workflow_does_not_run_later_steps() {
    let calls = Cell::new(0);
    assert_eq!(workflow(0, &calls), Resumable::Pause);
    assert_eq!(calls.get(), 0);
}

#[test]
fn ready_workflow_runs_later_steps_and_wraps_the_result() {
    let calls = Cell::new(0);
    assert_eq!(workflow(1, &calls), Resumable::Ready(42));
    assert_eq!(calls.get(), 1);
}

#[test]
fn rerun_executes_the_workflow_from_its_start() {
    let calls = Cell::new(0);
    assert_eq!(workflow(0, &calls), Resumable::Pause);
    assert_eq!(workflow(0, &calls), Resumable::Pause);
    assert_eq!(workflow(7, &calls), Resumable::Ready(42));
    assert_eq!(calls.get(), 1);
}

#[test]
fn a_later_pause_stops_the_chain() {
    let ran = Cell::new(false);
    let out: Resumable<u8> = Resumable::Ready(1u8)
        .and_then(|_| Resumable::<u8>::Pause)
        .and_then(|v| {
            ran.set(true);
            Resumable::Ready(v)
        });
    assert_eq!(out, Resumable::Pause);
    assert!(!ran.get());
}

#[test]
fn map_applies_to_ready_only() {
    let ran = Cell::new(false);
    assert_eq!(Resumable::Ready(2u8).map(|v| v + 1), Resumable::Ready(3u8));
    let out = Resumable::<u8>::Pause.map(|v| {
        ran.set(true);
        v
    });
    assert_eq!(out, Resumable::Pause);
    assert!(!ran.get());
}
