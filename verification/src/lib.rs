//! Schedule announcement core: venue resolution, event-to-notification
//! translation, bounded-retry delivery policy, and the dispatch loop's
//! state machine. The surrounding process wires these to the schedule
//! source and the paging transport.

pub mod venue;
pub mod notify;
pub mod delivery;
pub mod dispatch;

pub use venue::{Venue, resolve, news_number_for_venue, venue_short_name, FALLBACK_CHANNEL};
pub use notify::{Event, DispatchMode, OutgoingNotification, translate, MAX_TEXT_LEN};
pub use delivery::{
    AttemptDisposition, DeliveryManager, DeliveryOutcome, DeliveryReport, run_delivery,
    MAX_DELIVERY_ATTEMPTS, RETRY_DELAY_SECONDS,
};
pub use dispatch::{DispatchAction, DispatchConfig, DispatchLoop, LoopEvent, LoopState, PollOutcome};
