use schedule_announcer::dispatch::{
    DispatchAction, DispatchConfig, DispatchLoop, LoopEvent, LoopState, PollOutcome,
};
use schedule_announcer::notify::{DispatchMode, Event, OutgoingNotification};

fn event(venue: &str, title: &str) -> Event {
    Event { venue: venue.to_string(), title: title.to_string(), start_time: 0 }
}

fn config(dry_run: bool) -> DispatchConfig {
    DispatchConfig { mode: DispatchMode::Rubric { rubric: "emfcamp".to_string() }, dry_run }
}

#[test]
fn cancellation_while_idle_terminates_the_loop() {
    let mut lp = DispatchLoop::new();
    assert!(lp.is_running());

    let act = lp.step(LoopEvent::Cancelled, &config(false));
    assert!(matches!(act, DispatchAction::Shutdown));
    assert!(!lp.is_running());
    assert_eq!(lp.state, LoopState::Terminated);
}

#[test]
fn terminated_loop_consumes_no_further_poll_results() {
    let mut lp = DispatchLoop::new();
    lp.step(LoopEvent::Cancelled, &config(false));

    // Even if a poll result were already queued, a terminated loop only
    // ever answers Shutdown and stays terminated.
    let act = lp.step(LoopEvent::Poll(PollOutcome::Event(event("Stage A", "Talk"))), &config(false));
    assert!(matches!(act, DispatchAction::Shutdown));
    assert_eq!(lp.state, LoopState::Terminated);
}

#[test]
fn event_poll_result_demands_a_delivery() {
    let mut lp = DispatchLoop::new();
    let act = lp.step(
        LoopEvent::Poll(PollOutcome::Event(event("Stage A", "Opening Talk"))),
        &config(false),
    );
    match act {
        DispatchAction::Deliver(OutgoingNotification::RubricNews {
            rubric,
            channel_number,
            text,
        }) => {
            assert_eq!(rubric, "emfcamp");
            assert_eq!(channel_number, 1);
            assert_eq!(text, "Stg A: Opening Talk");
        }
        other => panic!("expected a delivery demand, got {other:?}"),
    }
    assert!(lp.is_running());
}

#[test]
fn dry_run_never_demands_a_delivery() {
    let mut deliveries = 0usize;
    let mut lp = DispatchLoop::new();
    let cfg = config(true);

    let events = [
        LoopEvent::Poll(PollOutcome::Event(event("Stage A", "Opening Talk"))),
        LoopEvent::Poll(PollOutcome::NoOp),
        LoopEvent::Poll(PollOutcome::Event(event("Lounge", "Quiet Hour"))),
        LoopEvent::Poll(PollOutcome::TransientError),
    ];
    let mut logged = 0usize;
    for ev in events {
        match lp.step(ev, &cfg) {
            DispatchAction::Deliver(_) => deliveries += 1,
            DispatchAction::LogOnly(n) => {
                // Translation still ran and produced the real payload.
                match n {
                    OutgoingNotification::RubricNews { text, .. } => {
                        assert!(!text.is_empty());
                    }
                    OutgoingNotification::Call { text, .. } => assert!(!text.is_empty()),
                }
                logged += 1;
            }
            _ => {}
        }
    }
    assert_eq!(deliveries, 0);
    assert_eq!(logged, 2);
    assert!(lp.is_running());
}

#[test]
fn transient_poll_error_keeps_the_loop_running() {
    let mut lp = DispatchLoop::new();
    let act = lp.step(LoopEvent::Poll(PollOutcome::TransientError), &config(false));
    assert!(matches!(act, DispatchAction::WarnPollError));
    assert!(lp.is_running());
}

#[test]
fn noop_poll_result_is_ignored() {
    let mut lp = DispatchLoop::new();
    let act = lp.step(LoopEvent::Poll(PollOutcome::NoOp), &config(false));
    assert!(matches!(act, DispatchAction::Idle));
    assert!(lp.is_running());
}

#[test]
fn oversized_payload_is_dropped_not_delivered() {
    let mut lp = DispatchLoop::new();
    let title = "x".repeat(200);
    let act = lp.step(
        LoopEvent::Poll(PollOutcome::Event(event("Stage A", &title))),
        &config(false),
    );
    assert!(matches!(act, DispatchAction::DropEvent));
    assert!(lp.is_running());
}
