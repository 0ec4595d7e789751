//! One push event per received fragment.
//!
//! A subscriber's connection task receives fragments from the hub and writes
//! each one out as a text-event-stream event. The wire format is
//! line-delimited, so line breaks are removed from the payload before it is
//! framed.
use vstd::prelude::*;

verus! {

/// The event type under which fragment updates are pushed.
pub const PATCH_EVENT: &'static str = "datastar-patch-elements";

/// The prefix that precedes the fragment in an event's data.
pub const PATCH_PREFIX: &'static str = "elements ";

/// A character that would end a line of the wire format.
pub open spec fn is_line_break(c: char) -> bool {
    c == '\n' || c == '\r'
}

/// `s` with every line break removed, the other characters kept in order.
pub open spec fn without_line_breaks(s: Seq<char>) -> Seq<char>
    decreases s.len(),
{
    if s.len() == 0 {
        Seq::empty()
    } else {
        let rest = without_line_breaks(s.drop_last());
        if is_line_break(s.last()) {
            rest
        } else {
            rest.push(s.last())
        }
    }
}

/// Relies on `String::push`: appends one character.
#[verifier::external_body]
fn push_char(s: &mut String, c: char)
    ensures
        final(s)@ == old(s)@.push(c),
{
    s.push(c);
}

/// Removes every `'\n'` and `'\r'` from a fragment.
pub fn strip_line_breaks(html: &str) -> (r: String)
    ensures
        r@ == without_line_breaks(html@),
{
    let mut out = String::new();
    for c in it: html.chars()
        invariant
            it.seq() == html@,
            out@ == without_line_breaks(html@.subrange(0, it.index() as int)),
    {
        proof {
            let next = html@.subrange(0, it.index() + 1);
            assert(next.drop_last() =~= html@.subrange(0, it.index() as int));
            assert(next.last() == c);
        }
        if c != '\n' && c != '\r' {
            push_char(&mut out, c);
        }
    }
    proof {
        assert(html@.subrange(0, html@.len() as int) =~= html@);
    }
    out
}

/// One event of the push protocol: its type and its single data line.
pub struct SseEvent {
    pub event: String,
    pub data: String,
}

/// The event that carries the fragment `html`.
pub open spec fn patch_event_data(html: Seq<char>) -> Seq<char> {
    PATCH_PREFIX@ + without_line_breaks(html)
}

/// Frames a fragment as a fragment-update event.
pub fn fragment_event(html: &str) -> (e: SseEvent)
    ensures
        e.event@ == PATCH_EVENT@,
        e.data@ == patch_event_data(html@),
{
    let cleaned = strip_line_breaks(html);
    let mut data = String::from_str(PATCH_PREFIX);
    data.append(cleaned.as_str());
    SseEvent { event: String::from_str(PATCH_EVENT), data }
}

/// What a subscriber's receive handle yields next.
pub enum Delivery {
    /// A fragment that was published after the subscription was made.
    Fragment(String),
    /// The backlog overflowed and this many of the oldest fragments were
    /// dropped for this subscriber alone.
    Lagged(u64),
    /// The hub is gone or the subscription was released: nothing more comes.
    Closed,
}

/// What the connection task does with one delivery.
pub enum StreamStep {
    /// Write this event to the connection.
    Emit(SseEvent),
    /// Write nothing and wait for the next delivery.
    Skip,
    /// End the stream and release the subscription.
    Stop,
}

/// A fragment becomes exactly one event; a lag is skipped silently; a closed
/// subscription ends the stream.
pub fn on_delivery(d: Delivery) -> (s: StreamStep)
    ensures
        match d {
            Delivery::Fragment(html) => match s {
                StreamStep::Emit(e) => e.event@ == PATCH_EVENT@ && e.data@ == patch_event_data(html@),
                _ => false,
            },
            Delivery::Lagged(_) => s is Skip,
            Delivery::Closed => s is Stop,
        },
{
    match d {
        Delivery::Fragment(html) => StreamStep::Emit(fragment_event(html.as_str())),
        Delivery::Lagged(_) => StreamStep::Skip,
        Delivery::Closed => StreamStep::Stop,
    }
}

} // verus!
