use schedule_announcer::delivery::{
    run_delivery, AttemptDisposition, DeliveryManager, DeliveryOutcome, MAX_DELIVERY_ATTEMPTS,
    RETRY_DELAY_SECONDS,
};

/// A transport stand-in: answers each send attempt from a fixed script and
/// counts how often it was invoked.
struct StubTransport {
    script: Vec<bool>,
    calls: usize,
}

impl StubTransport {
    fn new(script: Vec<bool>) -> Self {
        StubTransport { script, calls: 0 }
    }

    fn attempt(&mut self) -> bool {
        let ok = self.script.get(self.calls).copied().unwrap_or(false);
        self.calls += 1;
        ok
    }
}

/// Drives one delivery cycle the way the surrounding process does: attempt,
/// report the outcome, and follow the prescribed disposition. Returns the
/// final outcome plus the recorded metric increments and delays.
fn drive(transport: &mut StubTransport) -> (DeliveryOutcome, usize, usize, usize) {
    let mut mgr = DeliveryManager::new();
    let mut failures = 0usize;
    let mut successes = 0usize;
    let mut delays = 0usize;
    loop {
        let ok = transport.attempt();
        match mgr.on_attempt_outcome(ok) {
            AttemptDisposition::Succeeded => {
                successes += 1;
                return (DeliveryOutcome::Success, failures, successes, delays);
            }
            AttemptDisposition::RetryAfterDelay => {
                failures += 1;
                delays += 1; // a real runner sleeps RETRY_DELAY_SECONDS here
            }
            AttemptDisposition::GiveUp => {
                failures += 1;
                return (DeliveryOutcome::Failure, failures, successes, delays);
            }
        }
    }
}

#[test]
fn always_failing_transport_records_five_failures_and_four_delays() {
    let mut transport = StubTransport::new(vec![false; 5]);
    let (outcome, failures, successes, delays) = drive(&mut transport);
    assert_eq!(outcome, DeliveryOutcome::Failure);
    assert_eq!(failures, 5);
    assert_eq!(successes, 0);
    assert_eq!(delays, 4);
    assert_eq!(transport.calls, 5);
}

#[test]
fn two_failures_then_success_stops_immediately() {
    let mut transport = StubTransport::new(vec![false, false, true, true, true]);
    let (outcome, failures, successes, delays) = drive(&mut transport);
    assert_eq!(outcome, DeliveryOutcome::Success);
    assert_eq!(failures, 2);
    assert_eq!(successes, 1);
    assert_eq!(delays, 2);
    // No further attempt after the success.
    assert_eq!(transport.calls, 3);
}

#[test]
fn first_attempt_success_needs_no_retry() {
    let mut transport = StubTransport::new(vec![true]);
    let (outcome, failures, successes, delays) = drive(&mut transport);
    assert_eq!(outcome, DeliveryOutcome::Success);
    assert_eq!(failures, 0);
    assert_eq!(successes, 1);
    assert_eq!(delays, 0);
    assert_eq!(transport.calls, 1);
}

#[test]
fn run_delivery_matches_the_driven_machine() {
    let report = run_delivery(&vec![false, false, true, false, false]);
    assert_eq!(report.outcome, DeliveryOutcome::Success);
    assert_eq!(report.attempts, 3);
    assert_eq!(report.failures_recorded, 2);
    assert_eq!(report.successes_recorded, 1);
    assert_eq!(report.delays_taken, 2);

    let report = run_delivery(&vec![false; 5]);
    assert_eq!(report.outcome, DeliveryOutcome::Failure);
    assert_eq!(report.attempts, 5);
    assert_eq!(report.failures_recorded, 5);
    assert_eq!(report.successes_recorded, 0);
    assert_eq!(report.delays_taken, 4);

    let report = run_delivery(&vec![true, false, false, false, false]);
    assert_eq!(report.outcome, DeliveryOutcome::Success);
    assert_eq!(report.attempts, 1);
    assert_eq!(report.failures_recorded, 0);
    assert_eq!(report.successes_recorded, 1);
    assert_eq!(report.delays_taken, 0);
}

#[test]
fn success_on_the_last_budgeted_attempt_still_succeeds() {
    let report = run_delivery(&vec![false, false, false, false, true]);
    assert_eq!(report.outcome, DeliveryOutcome::Success);
    assert_eq!(report.attempts, 5);
    assert_eq!(report.failures_recorded, 4);
    assert_eq!(report.successes_recorded, 1);
    assert_eq!(report.delays_taken, 4);
}

#[test]
fn policy_constants_are_as_configured() {
    assert_eq!(MAX_DELIVERY_ATTEMPTS, 5);
    assert_eq!(RETRY_DELAY_SECONDS, 1);
}
