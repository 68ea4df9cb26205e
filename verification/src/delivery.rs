use vstd::prelude::*;

verus! {

/// Total attempt budget for delivering one notification.
pub const MAX_DELIVERY_ATTEMPTS: u8 = 5;

/// Fixed delay between two delivery attempts, in seconds. No backoff growth
/// and no jitter: every inter-attempt delay is exactly this long.
pub const RETRY_DELAY_SECONDS: u64 = 1;

/// Final outcome of one complete delivery cycle.
#[derive(Clone, Copy, Debug, PartialEq, Eq, Structural)]
pub enum DeliveryOutcome {
    Success,
    Failure,
}

/// What the caller must do after reporting one attempt's outcome.
///
/// Every disposition also names the metric to record for the attempt:
/// `Succeeded` records one success increment, the other two record one
/// failure increment each.
#[derive(Clone, Copy, Debug, PartialEq, Eq, Structural)]
pub enum AttemptDisposition {
    /// The attempt succeeded: record one success metric and stop at once.
    Succeeded,
    /// The attempt failed with budget left: record one failure metric,
    /// wait `RETRY_DELAY_SECONDS`, then attempt again.
    RetryAfterDelay,
    /// The attempt failed and the budget is exhausted: record one failure
    /// metric and give up; the notification is dropped.
    GiveUp,
}

/// The disposition the retry policy prescribes once `attempts_completed`
/// attempts have been made and the latest of them ended with `ok`.
pub open spec fn spec_disposition(attempts_completed: int, ok: bool) -> AttemptDisposition {
    if ok {
        AttemptDisposition::Succeeded
    } else if attempts_completed < MAX_DELIVERY_ATTEMPTS {
        AttemptDisposition::RetryAfterDelay
    } else {
        AttemptDisposition::GiveUp
    }
}

/// Tracks the delivery cycle of a single notification: how many transport
/// attempts have completed so far.
#[derive(Clone, Copy, Debug)]
pub struct DeliveryManager {
    pub attempts_made: u8,
}

impl DeliveryManager {
    /// Start a fresh delivery cycle: no attempts made yet.
    pub fn new() -> (r: DeliveryManager)
        ensures
            r.attempts_made == 0,
    {
        DeliveryManager { attempts_made: 0 }
    }

    /// Report the outcome of the attempt just completed and learn what to
    /// do next. May only be called while budget remains.
    pub fn on_attempt_outcome(&mut self, ok: bool) -> (d: AttemptDisposition)
        requires
            old(self).attempts_made < MAX_DELIVERY_ATTEMPTS,
        ensures
            final(self).attempts_made == old(self).attempts_made + 1,
            d == spec_disposition(old(self).attempts_made + 1, ok),
    {
        self.attempts_made = self.attempts_made + 1;
        if ok {
            AttemptDisposition::Succeeded
        } else if self.attempts_made < MAX_DELIVERY_ATTEMPTS {
            AttemptDisposition::RetryAfterDelay
        } else {
            AttemptDisposition::GiveUp
        }
    }
}

/// Everything one delivery cycle did: its final outcome, how many attempts
/// ran, which metric increments were recorded, and how many inter-attempt
/// delays were taken.
#[derive(Clone, Copy, Debug)]
pub struct DeliveryReport {
    pub outcome: DeliveryOutcome,
    pub attempts: u8,
    pub failures_recorded: u8,
    pub successes_recorded: u8,
    pub delays_taken: u8,
}

/// How many attempts the policy runs when attempt `i` and later ones come
/// out as `outcomes` says: attempts stop at the first success, or when the
/// budget is spent.
pub open spec fn spec_attempts_used(outcomes: Seq<bool>, i: int) -> int
    decreases MAX_DELIVERY_ATTEMPTS - i,
{
    if i < 0 || i >= MAX_DELIVERY_ATTEMPTS {
        0
    } else if outcomes[i] {
        1
    } else {
        1 + spec_attempts_used(outcomes, i + 1)
    }
}

/// Whether a delivery cycle facing these attempt outcomes ends in success:
/// some attempt within the budget succeeds.
pub open spec fn spec_delivery_succeeds(outcomes: Seq<bool>) -> bool {
    exists|i: int| 0 <= i < MAX_DELIVERY_ATTEMPTS && outcomes[i]
}

/// If the first success among the budgeted attempts stands at position `i`
/// (counting from `k`), the cycle started at `k` stops right there: it uses
/// exactly the attempts up to and including `i`.
pub proof fn lemma_first_success_stops(outcomes: Seq<bool>, k: int, i: int)
    requires
        0 <= k <= i < MAX_DELIVERY_ATTEMPTS,
        forall|j: int| k <= j < i ==> !outcomes[j],
        outcomes[i],
    ensures
        spec_attempts_used(outcomes, k) == i + 1 - k,
    decreases i - k,
{
    if k < i {
        lemma_first_success_stops(outcomes, k + 1, i);
    }
}

/// If every budgeted attempt from `k` on fails, the cycle started at `k`
/// spends the whole remaining budget.
pub proof fn lemma_exhaustion_spends_budget(outcomes: Seq<bool>, k: int)
    requires
        0 <= k <= MAX_DELIVERY_ATTEMPTS,
        forall|j: int| k <= j < MAX_DELIVERY_ATTEMPTS ==> !outcomes[j],
    ensures
        spec_attempts_used(outcomes, k) == MAX_DELIVERY_ATTEMPTS - k,
    decreases MAX_DELIVERY_ATTEMPTS - k,
{
    if k < MAX_DELIVERY_ATTEMPTS {
        lemma_exhaustion_spends_budget(outcomes, k + 1);
    }
}

/// Run one full delivery cycle against a script of attempt outcomes:
/// `outcomes[i]` is whether attempt `i + 1` would succeed. This is the
/// retry policy in full: one failure metric per failed attempt, one success
/// metric on the succeeding attempt, a fixed delay after every failed
/// attempt except the last, immediate stop on success, and a `Failure`
/// outcome only when the whole budget is spent.
pub fn run_delivery(outcomes: &Vec<bool>) -> (r: DeliveryReport)
    requires
        outcomes@.len() >= MAX_DELIVERY_ATTEMPTS,
    ensures
        r.attempts == spec_attempts_used(outcomes@, 0),
        1 <= r.attempts <= MAX_DELIVERY_ATTEMPTS,
        (r.outcome == DeliveryOutcome::Success) == spec_delivery_succeeds(outcomes@),
        r.successes_recorded == (if spec_delivery_succeeds(outcomes@) { 1int } else { 0int }),
        r.failures_recorded == r.attempts - r.successes_recorded,
        r.delays_taken == r.attempts - 1,
{
    let mut mgr = DeliveryManager::new();
    let mut failures: u8 = 0;
    let mut delays: u8 = 0;
    loop
        invariant
            outcomes@.len() >= MAX_DELIVERY_ATTEMPTS,
            mgr.attempts_made < MAX_DELIVERY_ATTEMPTS,
            failures == mgr.attempts_made,
            delays == mgr.attempts_made,
            forall|j: int| 0 <= j < mgr.attempts_made ==> !outcomes@[j],
        decreases MAX_DELIVERY_ATTEMPTS - mgr.attempts_made,
    {
        let idx = mgr.attempts_made as usize;
        let ok = outcomes[idx];
        match mgr.on_attempt_outcome(ok) {
            AttemptDisposition::Succeeded => {
                proof {
                    lemma_first_success_stops(outcomes@, 0, mgr.attempts_made - 1);
                }
                return DeliveryReport {
                    outcome: DeliveryOutcome::Success,
                    attempts: mgr.attempts_made,
                    failures_recorded: failures,
                    successes_recorded: 1,
                    delays_taken: delays,
                };
            },
            AttemptDisposition::RetryAfterDelay => {
                failures = failures + 1;
                delays = delays + 1;
            },
            AttemptDisposition::GiveUp => {
                failures = failures + 1;
                proof {
                    lemma_exhaustion_spends_budget(outcomes@, 0);
                    assert(!spec_delivery_succeeds(outcomes@));
                }
                return DeliveryReport {
                    outcome: DeliveryOutcome::Failure,
                    attempts: mgr.attempts_made,
                    failures_recorded: failures,
                    successes_recorded: 0,
                    delays_taken: delays,
                };
            },
        }
    }
}

} // verus!
