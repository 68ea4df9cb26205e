use vstd::prelude::*;
use crate::venue;

verus! {

/// An incoming schedule event, as handed over by the schedule source.
/// Only the venue and title feed into the notification text; the start time
/// is carried for logging and is not read by the translation logic.
#[derive(Debug)]
pub struct Event {
    pub venue: String,
    pub title: String,
    /// Event start, in seconds since the Unix epoch.
    pub start_time: i64,
}

/// How notifications are dispatched: broadcast to one rubric, or paged as
/// direct calls to a fixed set of recipients.
#[derive(Debug)]
pub enum DispatchMode {
    Rubric { rubric: String },
    Call { recipients: Vec<String> },
}

/// An outgoing notification payload, ready for the transport.
#[derive(Debug)]
pub enum OutgoingNotification {
    RubricNews { rubric: String, channel_number: i8, text: String },
    Call { recipients: Vec<String>, text: String },
}

/// Longest notification text the paging transport accepts, in characters.
pub const MAX_TEXT_LEN: usize = 80;

/// The notification text built for an event: short venue name, a separator,
/// then the event title.
pub open spec fn spec_text(venue: Seq<char>, title: Seq<char>) -> Seq<char> {
    venue::spec_short_name(venue) + ": "@ + title
}

/// Whether the text built for an event passes payload validation.
pub open spec fn text_fits(venue: Seq<char>, title: Seq<char>) -> bool {
    spec_text(venue, title).len() <= MAX_TEXT_LEN
}

/// What a correctly translated payload for an event looks like under a
/// dispatch mode.
pub open spec fn translation_matches(
    event: Event,
    mode: DispatchMode,
    n: OutgoingNotification,
) -> bool {
    match mode {
        DispatchMode::Rubric { rubric } => {
            &&& n matches OutgoingNotification::RubricNews {
                rubric: nr,
                channel_number,
                text,
            }
            &&& nr@ == rubric@
            &&& channel_number == venue::spec_channel_number(event.venue@)
            &&& text@ == spec_text(event.venue@, event.title@)
        },
        DispatchMode::Call { recipients } => {
            &&& n matches OutgoingNotification::Call { recipients: nr, text }
            &&& nr.deep_view() == recipients.deep_view()
            &&& text@ == spec_text(event.venue@, event.title@)
        },
    }
}

/// Build the outgoing payload for an event under the given dispatch mode.
///
/// Total over all events; returns `None` exactly when the built text exceeds
/// the transport's length limit (payload validation), in which case the
/// event is to be dropped, not retried.
pub fn translate(event: &Event, mode: &DispatchMode) -> (r: Option<OutgoingNotification>)
    ensures
        r is Some <==> text_fits(event.venue@, event.title@),
        r matches Some(n) ==> translation_matches(*event, *mode, n),
{
    let resolved = venue::resolve(event.venue.as_str());
    let channel_number = resolved.channel_number;
    let mut text = resolved.short_name;
    text.append(": ");
    text.append(event.title.as_str());
    if text.as_str().unicode_len() > MAX_TEXT_LEN {
        return None;
    }
    match mode {
        DispatchMode::Rubric { rubric } => {
            Some(OutgoingNotification::RubricNews { rubric: rubric.clone(), channel_number, text })
        },
        DispatchMode::Call { recipients } => {
            let rs = clone_recipients(recipients);
            Some(OutgoingNotification::Call { recipients: rs, text })
        },
    }
}

/// Element-wise copy of a recipient list, preserving its contents.
fn clone_recipients(rs: &Vec<String>) -> (r: Vec<String>)
    ensures
        r.deep_view() == rs.deep_view(),
{
    let mut out: Vec<String> = Vec::new();
    let mut i: usize = 0;
    while i < rs.len()
        invariant
            i <= rs.len(),
            out@.len() == i,
            forall|j: int| 0 <= j < i ==> out@[j]@ == rs@[j]@,
        decreases rs.len() - i,
    {
        out.push(rs[i].clone());
        i = i + 1;
    }
    proof {
        assert(out.deep_view() =~= rs.deep_view());
    }
    out
}

/// The text built for an event is never empty: it always carries the
/// separator between the venue's short name and the title.
pub proof fn lemma_text_nonempty(venue: Seq<char>, title: Seq<char>)
    ensures
        spec_text(venue, title).len() >= 2,
{
    reveal_strlit(": ");
}

} // verus!
