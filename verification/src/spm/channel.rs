//! The in-process channels of `tokio` that requests come in by and that answers and
//! events leave through, and the clock they are timed with.
//!
//! What goes through a channel is kept on record. A record is written by the call
//! that uses the channel and by nothing else, so a contract that speaks of a record
//! speaks of calls that were made.

use vstd::prelude::*;

use super::engine::{EngineEvent, EngineRequest, EventView};
use super::SessionId;

verus! {

/// The sending half of a channel for a single value, `tokio::sync::oneshot::Sender`.
#[verifier::external_type_specification]
#[verifier::external_body]
#[verifier::reject_recursive_types(T)]
pub struct ExOneshotSender<T>(tokio::sync::oneshot::Sender<T>);

/// The sending half of an unbounded channel, `tokio::sync::mpsc::UnboundedSender`.
#[verifier::external_type_specification]
#[verifier::external_body]
#[verifier::reject_recursive_types(T)]
pub struct ExUnboundedSender<T>(tokio::sync::mpsc::UnboundedSender<T>);

/// The receiving half of an unbounded channel, `tokio::sync::mpsc::UnboundedReceiver`.
#[verifier::external_type_specification]
#[verifier::external_body]
#[verifier::reject_recursive_types(T)]
pub struct ExUnboundedReceiver<T>(tokio::sync::mpsc::UnboundedReceiver<T>);

/// An answer that was sent, and where.
#[verifier::reject_recursive_types(T)]
pub struct Answer<T> {
    pub to: tokio::sync::oneshot::Sender<T>,
    pub value: T,
}

/// The answers sent so far, in order.
#[verifier::reject_recursive_types(T)]
pub struct AnswerLog<T> {
    sent: Ghost<Seq<Answer<T>>>,
}

impl<T> View for AnswerLog<T> {
    type V = Seq<Answer<T>>;

    closed spec fn view(&self) -> Seq<Answer<T>> {
        self.sent@
    }
}

impl<T> AnswerLog<T> {
    /// Nothing was sent.
    pub fn new() -> (res: Self)
        ensures
            res@ == Seq::<Answer<T>>::empty(),
    {
        AnswerLog { sent: Ghost(Seq::empty()) }
    }
}

/// Calls `tokio::sync::oneshot::Sender::send`, which hands `value` to the receiver
/// of `to`. Claims that this very value was sent to this very channel, once. Whether
/// the receiver is still there is not stated; where it is gone, the value is
/// dropped.
#[verifier::external_body]
pub(crate) fn send_answer<T>(
    log: &mut AnswerLog<T>,
    to: tokio::sync::oneshot::Sender<T>,
    value: T,
)
    ensures
        final(log)@ == old(log)@.push(Answer { to, value }),
{
    let _ = to.send(value);
}

/// An event that was sent: about which session, and to whom.
pub struct Emission {
    pub session_id: SessionId,
    pub to: tokio::sync::mpsc::UnboundedSender<EngineEvent>,
    pub event: EventView,
}

/// The events sent so far, in order.
pub struct EventLog {
    sent: Ghost<Seq<Emission>>,
}

impl View for EventLog {
    type V = Seq<Emission>;

    closed spec fn view(&self) -> Seq<Emission> {
        self.sent@
    }
}

impl EventLog {
    /// Nothing was sent.
    pub fn new() -> (res: Self)
        ensures
            res@ == Seq::<Emission>::empty(),
    {
        EventLog { sent: Ghost(Seq::empty()) }
    }
}

/// Calls `tokio::sync::mpsc::UnboundedSender::send`, which queues `event` for the
/// receiver of `events`. Claims that this very event was sent to this very channel,
/// once; `session_id` only labels the entry in the record. Whether the receiver is
/// still there is not stated; where it is gone, the event is dropped.
#[verifier::external_body]
pub(crate) fn send_event(
    log: &mut EventLog,
    session_id: SessionId,
    events: &tokio::sync::mpsc::UnboundedSender<EngineEvent>,
    event: EngineEvent,
)
    ensures
        final(log)@ == old(log)@.push(Emission { session_id, to: *events, event: event@ }),
{
    let _ = events.send(event);
}

/// `tx` and `rx` are the two halves of one channel: what is sent through `tx` is what
/// `rx` receives.
pub uninterp spec fn feeds(
    tx: tokio::sync::mpsc::UnboundedSender<EngineRequest>,
    rx: tokio::sync::mpsc::UnboundedReceiver<EngineRequest>,
) -> bool;

/// Calls `tokio::sync::mpsc::unbounded_channel`, which makes a channel for requests.
/// Claims that the halves it returns are those of one channel.
#[verifier::external_body]
pub(crate) fn request_channel() -> (halves: (
    tokio::sync::mpsc::UnboundedSender<EngineRequest>,
    tokio::sync::mpsc::UnboundedReceiver<EngineRequest>,
))
    ensures
        feeds(halves.0, halves.1),
{
    tokio::sync::mpsc::unbounded_channel()
}

/// Where requests come from, with a record of what was taken out without waiting.
pub struct Inbox {
    requests: tokio::sync::mpsc::UnboundedReceiver<EngineRequest>,
    looked: Ghost<nat>,
    taken: Ghost<Seq<EngineRequest>>,
}

impl Inbox {
    /// The channel that requests come by.
    pub closed spec fn source(&self) -> tokio::sync::mpsc::UnboundedReceiver<EngineRequest> {
        self.requests
    }

    /// How often the channel was looked into.
    pub closed spec fn looked(&self) -> nat {
        self.looked@
    }

    /// The requests that were found in the channel, in order.
    pub closed spec fn taken(&self) -> Seq<EngineRequest> {
        self.taken@
    }

    /// Whatever was sent to `before` still reaches `self`: it is on the same channel.
    pub open spec fn same_channel(&self, before: &Self) -> bool {
        forall|tx: tokio::sync::mpsc::UnboundedSender<EngineRequest>|
            feeds(tx, before.source()) ==> #[trigger] feeds(tx, self.source())
    }

    /// An inbox that was not looked into yet.
    pub fn new(requests: tokio::sync::mpsc::UnboundedReceiver<EngineRequest>) -> (res: Self)
        ensures
            res.source() == requests,
            res.looked() == 0,
            res.taken() == Seq::<EngineRequest>::empty(),
    {
        Inbox { requests, looked: Ghost(0), taken: Ghost(Seq::empty()) }
    }

    /// The channel itself, for whoever waits for a request.
    pub fn requests(&mut self) -> (res: &mut tokio::sync::mpsc::UnboundedReceiver<EngineRequest>)
        ensures
            *res == old(self).source(),
            *final(res) == final(self).source(),
            final(self).looked() == old(self).looked(),
            final(self).taken() == old(self).taken(),
    {
        &mut self.requests
    }
}

/// Calls `tokio::sync::mpsc::UnboundedReceiver::try_recv` on the channel of `inbox`,
/// which takes the oldest request out if one is there. Claims that the channel was
/// looked into once, that what is returned is what was taken out, and that the
/// receiver stays on its channel. Which request
/// that is, or whether there is one, depends on the requesters and is not stated; an
/// empty channel and one without requesters both give `None`.
#[verifier::external_body]
pub(crate) fn try_receive(inbox: &mut Inbox) -> (request: Option<EngineRequest>)
    ensures
        final(inbox).looked() == old(inbox).looked() + 1,
        final(inbox).taken() == match request {
            Some(request) => old(inbox).taken().push(request),
            None => old(inbox).taken(),
        },
        forall|tx: tokio::sync::mpsc::UnboundedSender<EngineRequest>|
            feeds(tx, old(inbox).source()) ==> #[trigger] feeds(tx, final(inbox).source()),
{
    match inbox.requests.try_recv() {
        Ok(request) => Some(request),
        Err(_) => None,
    }
}

/// A moment on the monotonic clock, `std::time::Instant`.
#[verifier::external_type_specification]
#[verifier::external_body]
pub struct ExInstant(std::time::Instant);

/// `std::time::Instant::now` gives the present moment. Nothing is stated of it.
pub assume_specification[ std::time::Instant::now ]() -> (now: std::time::Instant)
;

/// The time since the engine was made, with a record of what was read.
pub struct EngineClock {
    origin: std::time::Instant,
    readings: Ghost<Seq<u128>>,
}

impl EngineClock {
    /// The moment that is counted from.
    pub closed spec fn origin(&self) -> std::time::Instant {
        self.origin
    }

    /// What was read so far, in nanoseconds.
    pub closed spec fn readings(&self) -> Seq<u128> {
        self.readings@
    }

    /// `self` is `before` after one more reading.
    pub open spec fn read_after(&self, before: &Self) -> bool {
        &&& self.origin() == before.origin()
        &&& self.readings().len() == before.readings().len() + 1
        &&& self.readings().drop_last() == before.readings()
    }

    /// A clock that starts now.
    pub fn new() -> (res: Self)
        ensures
            res.readings() == Seq::<u128>::empty(),
    {
        EngineClock { origin: std::time::Instant::now(), readings: Ghost(Seq::empty()) }
    }
}

/// Calls `std::time::Instant::elapsed` on the origin of `clock` and gives the result
/// in nanoseconds. Claims that the clock was read once and that what is returned is
/// what was read. How much that is depends on time and is not stated.
#[verifier::external_body]
pub(crate) fn read_clock(clock: &mut EngineClock) -> (now_ns: u128)
    ensures
        final(clock).origin() == old(clock).origin(),
        final(clock).readings() == old(clock).readings().push(now_ns),
{
    clock.origin.elapsed().as_nanos()
}

} // verus!
