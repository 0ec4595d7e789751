//! The process-wide fan-out channel.
//!
//! Fragments go out over tokio's broadcast channel: each subscriber has its
//! own backlog of the channel's capacity, a full backlog drops its oldest
//! entries for that subscriber alone, and a send never waits on a
//! subscriber. What a send reaches depends on the subscribers alive at that
//! moment, which other tasks change without the hub being passed along. So a
//! publish is split in two: the calls into the channel (the live count, then
//! the send), and [`report_of`], which says exactly what is reported for
//! every outcome of those calls. Each publish returns a [`PublishReport`] of
//! what it saw, so that a caller can tell that nothing was sent and zero was
//! reported whenever nobody was live.
use tokio::sync::broadcast::error::SendError;
use tokio::sync::broadcast::{Receiver, Sender};
use vstd::prelude::*;

verus! {

#[verifier::external_type_specification]
#[verifier::external_body]
#[verifier::reject_recursive_types(T)]
pub struct ExSender<T>(Sender<T>);

#[verifier::external_type_specification]
#[verifier::external_body]
#[verifier::reject_recursive_types(T)]
pub struct ExReceiver<T>(Receiver<T>);

#[verifier::external_type_specification]
#[verifier::reject_recursive_types(T)]
pub struct ExSendError<T>(SendError<T>);

/// The largest capacity that a broadcast channel accepts.
pub const MAX_CAPACITY: usize = usize::MAX >> 1;

/// Every capacity up to `0x7fff_ffff` is accepted, on every target.
pub proof fn lemma_max_capacity()
    ensures
        MAX_CAPACITY >= 0x7fff_ffff,
{
    let x = usize::MAX;
    assert(x >> 1 == x / 2) by (bit_vector);
}

/// Relies on `tokio::sync::broadcast::Sender::new`, which panics on a zero
/// capacity or one above `usize::MAX >> 1`.
#[verifier::external_body]
fn new_sender(capacity: usize) -> (tx: Sender<String>)
    requires
        0 < capacity <= MAX_CAPACITY,
{
    Sender::new(capacity)
}

/// Relies on `tokio::sync::broadcast::Sender::send`: with no live receiver
/// the value comes back in the error; otherwise it is queued for each live
/// receiver and their number, at least one, is returned.
#[verifier::external_body]
fn send_value(tx: &Sender<String>, value: String) -> (r: Result<usize, SendError<String>>)
    ensures
        match r {
            Ok(n) => n >= 1,
            Err(e) => e.0 == value,
        },
{
    tx.send(value)
}

/// Relies on `tokio::sync::broadcast::Sender::receiver_count`: the number of
/// live receivers at the time of the call.
#[verifier::external_body]
fn live_receivers(tx: &Sender<String>) -> usize {
    tx.receiver_count()
}

/// Relies on `tokio::sync::broadcast::Sender::subscribe`: a receiver that
/// gets every value sent after this call. It panics only with `usize::MAX >> 2`
/// receivers alive at once, which no memory can hold.
#[verifier::external_body]
fn new_receiver(tx: &Sender<String>) -> Receiver<String> {
    tx.subscribe()
}

/// What happened to the fragment in one publish.
pub enum SendOutcome {
    /// Nobody was live, so nothing was handed to the channel.
    NotSent,
    /// The send queued the fragment for this many subscribers, at least one.
    Reached(usize),
    /// The send found nobody live (the last one left meanwhile); the
    /// fragment came back unsent.
    NobodyLeft,
}

/// What one publish observed and did.
pub struct PublishReport {
    /// The live subscribers counted before sending.
    pub live: usize,
    /// What became of the fragment.
    pub outcome: SendOutcome,
    /// The count reported to the caller: the subscribers the send reached.
    pub delivered: usize,
}

/// The report that a publish gives for the live count it saw and the
/// outcome of the send, if one was made: with nobody live nothing is sent
/// and zero is reported; otherwise the count is what the send reached, and
/// zero when it found nobody.
pub open spec fn report_for(live: usize, sent: Option<Result<usize, SendError<String>>>) -> PublishReport {
    if live == 0 {
        PublishReport { live, outcome: SendOutcome::NotSent, delivered: 0 }
    } else {
        match sent {
            Some(Ok(k)) => PublishReport { live, outcome: SendOutcome::Reached(k), delivered: k },
            _ => PublishReport { live, outcome: SendOutcome::NobodyLeft, delivered: 0 },
        }
    }
}

/// A report that a publish can give: nothing is sent exactly when nobody was
/// counted live, and then zero is reported; a send that reached anyone
/// reached at least one, and its count is the one reported; a send that
/// found nobody reports zero.
pub open spec fn consistent_report(r: PublishReport) -> bool {
    &&& (r.live == 0 <==> r.outcome is NotSent)
    &&& match r.outcome {
        SendOutcome::NotSent => r.delivered == 0,
        SendOutcome::Reached(k) => k >= 1 && r.delivered == k,
        SendOutcome::NobodyLeft => r.delivered == 0,
    }
}

/// The report of a publish, for each outcome of its two calls into the
/// channel. Publishing to no subscriber is no error: it reports zero.
pub fn report_of(live: usize, sent: &Option<Result<usize, SendError<String>>>) -> (r: PublishReport)
    ensures
        r == report_for(live, *sent),
{
    if live == 0 {
        PublishReport { live, outcome: SendOutcome::NotSent, delivered: 0 }
    } else {
        match sent {
            Some(Ok(k)) => PublishReport { live, outcome: SendOutcome::Reached(*k), delivered: *k },
            _ => PublishReport { live, outcome: SendOutcome::NobodyLeft, delivered: 0 },
        }
    }
}

/// Publishes `value` on `tx`: counts the live subscribers, hands `value` to
/// the send only when someone is live, and reports what happened.
fn publish_on(tx: &Sender<String>, value: String) -> (r: PublishReport)
    ensures
        consistent_report(r),
{
    let live = live_receivers(tx);
    let sent = if live == 0 {
        None
    } else {
        Some(send_value(tx, value))
    };
    report_of(live, &sent)
}

/// A broadcast bus of string events.
pub struct EventBus {
    sender: Sender<String>,
    capacity: Ghost<nat>,
}

impl EventBus {
    /// The backlog bound that the bus was asked for when it was made.
    pub closed spec fn capacity(&self) -> nat {
        self.capacity@
    }

    /// A bus whose subscribers each buffer at least `capacity` events (the
    /// channel rounds the bound up to a power of two).
    pub fn new(capacity: usize) -> (b: Self)
        requires
            0 < capacity <= MAX_CAPACITY,
        ensures
            b.capacity() == capacity,
    {
        EventBus { sender: new_sender(capacity), capacity: Ghost(capacity as nat) }
    }

    /// Sends `event` to every live subscriber and reports how many it
    /// reached. Never fails: with no subscriber it sends nothing and reports
    /// zero.
    pub fn publish(&self, event: String) -> (r: PublishReport)
        ensures
            consistent_report(r),
    {
        publish_on(&self.sender, event)
    }

    /// A new subscription, which receives the events published after it.
    pub fn subscribe(&self) -> Receiver<String> {
        new_receiver(&self.sender)
    }
}

/// The hub that fans rendered fragments out to every push connection.
pub struct SseService {
    html_tx: Sender<String>,
    capacity: Ghost<nat>,
}

impl SseService {
    /// The backlog bound that the hub was asked for when it was made.
    pub closed spec fn capacity(&self) -> nat {
        self.capacity@
    }

    /// A hub whose subscribers each buffer at least `capacity` fragments;
    /// beyond its backlog a subscriber lags. [`SseService::capacity`] is the
    /// bound asked for here; the channel rounds it up to a power of two.
    pub fn new(capacity: usize) -> (h: Self)
        requires
            0 < capacity <= MAX_CAPACITY,
        ensures
            h.capacity() == capacity,
    {
        SseService { html_tx: new_sender(capacity), capacity: Ghost(capacity as nat) }
    }

    /// Publishes a fragment to every live subscriber and reports how many it
    /// reached. Never blocks and never fails: with no subscriber it sends
    /// nothing and reports zero.
    pub fn publish_html(&self, html: String) -> (r: PublishReport)
        ensures
            consistent_report(r),
    {
        publish_on(&self.html_tx, html)
    }

    /// Hands a re-rendered view to the subscribers after a committed change.
    /// A fragment that rendered is published and the count it reached is
    /// returned; a rendering failure publishes nothing and is passed on.
    pub fn publish_rendered(&self, rendered: Result<String, String>) -> (r: Result<PublishReport, String>)
        ensures
            match rendered {
                Ok(_) => r is Ok && consistent_report(r->Ok_0),
                Err(e) => r == Err::<PublishReport, String>(e),
            },
    {
        match rendered {
            Ok(html) => Ok(self.publish_html(html)),
            Err(e) => Err(e),
        }
    }

    /// A new subscription, which receives the fragments published after it.
    /// Dropping it releases it from the hub.
    pub fn subscriber(&self) -> Receiver<String> {
        new_receiver(&self.html_tx)
    }

    /// The number of live subscriptions.
    pub fn live_subscribers(&self) -> usize {
        live_receivers(&self.html_tx)
    }
}

} // verus!
