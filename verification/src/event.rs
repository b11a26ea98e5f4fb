//! Where a session's events go.

use vstd::prelude::*;

verus! {

/// A receiver of events that the frontend supplies.
pub trait EventSink<T: Send>: Send + 'static {
    /// The event has been handed to this sink. Of a sink that is not known in full, only
    /// a call of `send` tells so.
    open spec fn took(&self, event: T) -> bool {
        true
    }

    fn send(&self, event: T)
        ensures
            self.took(event),
    ;
}

/// `std::sync::mpsc::Sender`, carried as an opaque value.
#[verifier::external_type_specification]
#[verifier::external_body]
#[verifier::reject_recursive_types(T)]
pub struct ExSender<T>(std::sync::mpsc::Sender<T>);

/// Calls `std::sync::mpsc::Sender::send`. Where the channel is closed, the event comes
/// back unsent. Whether the channel is open, and whether a sent event is ever received,
/// lies with the receiver, and nothing is claimed of it.
#[verifier::external_body]
fn channel_send<T>(tx: &std::sync::mpsc::Sender<T>, event: T) -> (sent: Result<(), T>)
    ensures
        sent matches Err(unsent) ==> unsent == event,
{
    tx.send(event).map_err(|e| e.0)
}

/// The event was given to the channel behind this sender, which may have been closed.
pub closed spec fn channel_took<T>(tx: std::sync::mpsc::Sender<T>, event: T) -> bool {
    exists|sent: Result<(), T>| call_ensures(channel_send::<T>, (&tx, event), sent)
}

/// A channel took an event if and only if that very event was sent on it.
proof fn law_channel_takes_what_is_sent<T>(tx: std::sync::mpsc::Sender<T>, event: T)
    ensures
        channel_took(tx, event) <==> exists|sent: Result<(), T>| #[trigger]
            call_ensures(channel_send::<T>, (&tx, event), sent),
{
}

/// A sink that passes events on to a channel. An event for a closed channel is dropped.
#[verifier::reject_recursive_types(T)]
pub struct MpscEventSink<T> {
    tx: std::sync::mpsc::Sender<T>,
}

impl<T> MpscEventSink<T> {
    /// The channel's sending half.
    pub closed spec fn sender(&self) -> std::sync::mpsc::Sender<T> {
        self.tx
    }
}

impl<T: Send> MpscEventSink<T> {
    pub fn new(tx: std::sync::mpsc::Sender<T>) -> (sink: Self)
        ensures
            sink.sender() == tx,
    {
        Self { tx }
    }
}

impl<T: Send + 'static> EventSink<T> for MpscEventSink<T> {
    /// The event was given to this sink's channel.
    open spec fn took(&self, event: T) -> bool {
        channel_took(self.sender(), event)
    }

    fn send(&self, event: T) {
        let sent = channel_send(&self.tx, event);
        proof {
            law_channel_takes_what_is_sent(self.tx, event);
            assert(call_ensures(channel_send::<T>, (&self.tx, event), sent));
        }
    }
}

} // verus!
