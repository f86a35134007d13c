use vstd::prelude::*;
use crate::event::Event;

verus! {

/// `crossbeam_channel::Sender`: a send end of a channel, carried as it is.
#[verifier::external_type_specification]
#[verifier::external_body]
#[verifier::reject_recursive_types(T)]
pub struct ExSender<T>(crossbeam_channel::Sender<T>);

/// `crossbeam_channel::Receiver`: a receive end of a channel, carried as it
/// is.
#[verifier::external_type_specification]
#[verifier::external_body]
#[verifier::reject_recursive_types(T)]
pub struct ExReceiver<T>(crossbeam_channel::Receiver<T>);

/// What `Sender::same_channel` returns for two send ends: whether they
/// belong to one channel.
pub uninterp spec fn senders_share(a: crossbeam_channel::Sender<Event>, b: crossbeam_channel::Sender<Event>) -> bool;

/// What `Receiver::same_channel` returns for two receive ends: whether they
/// belong to one channel.
pub uninterp spec fn receivers_share(a: crossbeam_channel::Receiver<Event>, b: crossbeam_channel::Receiver<Event>) -> bool;

/// What `Sender::capacity` returns for a send end: the most messages that its
/// channel holds at a time, or nothing for a channel without a limit.
pub uninterp spec fn sender_capacity(tx: crossbeam_channel::Sender<Event>) -> Option<usize>;

/// Calls `crossbeam_channel::unbounded`, which makes a channel without a
/// capacity limit and returns its two ends. Claimed: the send end reports no
/// capacity.
#[verifier::external_body]
pub(crate) fn open_mailbox() -> (ends: (
    crossbeam_channel::Sender<Event>,
    crossbeam_channel::Receiver<Event>,
))
    ensures
        sender_capacity(ends.0) is None,
{
    crossbeam_channel::unbounded()
}

/// The largest capacity that a bounded mailbox can be opened with. A bounded
/// channel keeps one slot per message, an event and a stamp, which take at
/// most 64 bytes together, and no allocation is larger than `isize::MAX`
/// bytes.
pub const MAX_CAPACITY: usize = usize::MAX / 128;

/// Calls `crossbeam_channel::bounded`, which makes a channel that holds at
/// most `capacity` messages at a time and returns its two ends. Claimed: the
/// send end reports that capacity. The call panics where the capacity plus
/// one has no next power of two, where twice that power overflows, or where
/// the size of the slots overflows; no capacity up to `MAX_CAPACITY` does any
/// of these.
#[verifier::external_body]
pub(crate) fn open_bounded_mailbox(capacity: usize) -> (ends: (
    crossbeam_channel::Sender<Event>,
    crossbeam_channel::Receiver<Event>,
))
    requires
        capacity <= MAX_CAPACITY,
    ensures
        sender_capacity(ends.0) == Some(capacity),
{
    crossbeam_channel::bounded(capacity)
}

/// Calls `Sender::clone`, which returns another send end of the same channel.
/// Claimed: the two ends belong to one channel, every send end that belongs
/// to the channel of the first belongs to that of the second, and the two
/// report the same capacity.
#[verifier::external_body]
pub(crate) fn share_sender(tx: &crossbeam_channel::Sender<Event>) -> (other:
    crossbeam_channel::Sender<Event>)
    ensures
        senders_share(*tx, other),
        forall|first: crossbeam_channel::Sender<Event>|
            senders_share(first, *tx) ==> #[trigger] senders_share(first, other),
        sender_capacity(other) == sender_capacity(*tx),
{
    tx.clone()
}

/// Calls `Receiver::clone`, which returns another receive end of the same
/// channel. Claimed: the two ends belong to one channel.
#[verifier::external_body]
pub(crate) fn share_receiver(rx: &crossbeam_channel::Receiver<Event>) -> (other:
    crossbeam_channel::Receiver<Event>)
    ensures
        receivers_share(*rx, other),
{
    rx.clone()
}

/// What became of an event handed to a send end.
#[derive(Debug, Clone, Copy, PartialEq, Eq, Structural)]
pub enum Delivery {
    /// The event is in the mailbox.
    Sent,
    /// The mailbox is bounded and full; the event was dropped.
    Full,
    /// Every receive end of the mailbox is gone; the event was dropped.
    Closed,
}

/// What a receive end had to give.
#[derive(Debug, PartialEq, Eq)]
pub enum Intake {
    /// The oldest event of the mailbox, now taken out of it.
    Event(Event),
    /// The mailbox holds nothing right now.
    Empty,
    /// The mailbox holds nothing and every send end is gone.
    Closed,
}

/// Calls `Sender::try_send`, which puts the event into the channel without
/// blocking, or fails because the channel is full or disconnected. Which of
/// the three happens depends on the channel. Claimed: only a channel with a
/// capacity is ever full.
#[verifier::external_body]
pub(crate) fn try_deliver(tx: &crossbeam_channel::Sender<Event>, event: Event) -> (d: Delivery)
    ensures
        d == Delivery::Full ==> sender_capacity(*tx) is Some,
{
    match tx.try_send(event) {
        Ok(()) => Delivery::Sent,
        Err(crossbeam_channel::TrySendError::Full(_)) => Delivery::Full,
        Err(crossbeam_channel::TrySendError::Disconnected(_)) => Delivery::Closed,
    }
}

/// Calls `Receiver::try_recv`, which takes a message out of the channel
/// without blocking, or fails because the channel is empty, or empty and
/// disconnected. Which of the three happens depends on the channel; nothing
/// is claimed of it.
#[verifier::external_body]
pub(crate) fn try_take(rx: &crossbeam_channel::Receiver<Event>) -> (i: Intake) {
    match rx.try_recv() {
        Ok(event) => Intake::Event(event),
        Err(crossbeam_channel::TryRecvError::Empty) => Intake::Empty,
        Err(crossbeam_channel::TryRecvError::Disconnected) => Intake::Closed,
    }
}

/// Calls `Receiver::recv_timeout`, which waits until the channel has a
/// message to take out, until it is empty and disconnected, or until the time
/// is over, here `wait_ms` milliseconds. Which of the three happens depends
/// on the channel and the clock; nothing is claimed of it. The call comes
/// back within that time wherever the clock can tell the instant at which it
/// is over.
#[verifier::external_body]
pub(crate) fn try_take_within(rx: &crossbeam_channel::Receiver<Event>, wait_ms: u16) -> (i: Intake) {
    match rx.recv_timeout(std::time::Duration::from_millis(u64::from(wait_ms))) {
        Ok(event) => Intake::Event(event),
        Err(crossbeam_channel::RecvTimeoutError::Timeout) => Intake::Empty,
        Err(crossbeam_channel::RecvTimeoutError::Disconnected) => Intake::Closed,
    }
}

} // verus!
