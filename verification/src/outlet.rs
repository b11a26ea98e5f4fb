//! The one place through which a session's events leave it.

use vstd::prelude::*;
use crate::dto::LockEvent;
use crate::event::EventSink;

verus! {

/// An outlet as the contracts speak of it.
pub struct OutletModel {
    pub sink: Option<Box<dyn EventSink<LockEvent>>>,
    /// The events that the present sink was sent, oldest first.
    pub sent: Seq<LockEvent>,
}

impl OutletModel {
    /// An event reaches a sink only where there is one.
    pub open spec fn emit(self, event: LockEvent) -> OutletModel {
        if self.sink is Some {
            OutletModel { sent: self.sent.push(event), ..self }
        } else {
            self
        }
    }

    /// Every event in the history was handed to the sink.
    pub open spec fn delivered(self) -> bool {
        self.sink matches Some(sink) ==> forall|i: int|
            0 <= i < self.sent.len() ==> sink.took(#[trigger] self.sent[i])
    }
}

/// The frontend's sink, if it has attached one, and what it was sent. Every event in the
/// history was handed to the sink. The sink is out of reach for everyone else; that it is
/// called once for each event lies in the body of `send_event`.
pub struct LockOutlet {
    sink: Option<Box<dyn EventSink<LockEvent>>>,
    sent: Ghost<Seq<LockEvent>>,
}

impl View for LockOutlet {
    type V = OutletModel;

    closed spec fn view(&self) -> OutletModel {
        OutletModel { sink: self.sink, sent: self.sent@ }
    }
}

impl LockOutlet {
    /// An outlet with this sink, which has been sent nothing yet.
    pub fn new(sink: Option<Box<dyn EventSink<LockEvent>>>) -> (outlet: LockOutlet)
        ensures
            outlet@ == (OutletModel { sink, sent: Seq::empty() }),
            outlet@.delivered(),
    {
        LockOutlet { sink, sent: Ghost(Seq::empty()) }
    }

    /// Sends an event to the sink, if there is one.
    pub fn send_event(&mut self, event: LockEvent)
        ensures
            final(self)@ == old(self)@.emit(event),
            old(self)@.sink matches Some(sink) ==> sink.took(event),
            old(self)@.delivered() ==> final(self)@.delivered(),
    {
        if let Some(sink) = &self.sink {
            sink.send(event);
            proof {
                self.sent@ = self.sent@.push(event);
            }
        }
    }
}

} // verus!
