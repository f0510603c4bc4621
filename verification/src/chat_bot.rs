//! A tiny event-dispatch seam: an event kind, a handler interface for users
//! to implement, and a listener that feeds events to a handler.

use vstd::prelude::*;

verus! {

/// The kinds of event a chat listener can report.
#[derive(Clone, Copy, Debug, PartialEq, Eq, Structural)]
pub enum Event {
    Message,
    UserBan,
    UserJoin,
    UserLeave,
    Mention,
}

/// A sink for events. Implementors describe through `handled` what receiving
/// one event does to them, so callers of `listen_events` that know the
/// concrete handler can reason exactly about the effect.
pub trait EventHandler: Sized {
    /// The relation that receiving `event` establishes between the handler
    /// before (`self`) and after (`post`). An implementor that does not
    /// describe itself leaves the default, which promises nothing.
    open spec fn handled(self, post: Self, event: Event) -> bool {
        true
    }

    /// Receive one event.
    fn receive_event(&mut self, event: Event)
        ensures
            old(self).handled(*final(self), event),
    ;
}

/// A handler that records every event it receives, in order.
pub struct EventLog {
    events: Vec<Event>,
}

impl EventLog {
    /// The events received so far, oldest first.
    pub closed spec fn log(&self) -> Seq<Event> {
        self.events@
    }

    /// An empty log.
    pub fn new() -> (l: Self)
        ensures
            l.log() == Seq::<Event>::empty(),
    {
        EventLog { events: Vec::new() }
    }

    /// The recorded events, oldest first.
    pub fn events(&self) -> (r: &Vec<Event>)
        ensures
            r@ == self.log(),
    {
        &self.events
    }
}

impl EventHandler for EventLog {
    /// Receiving an event appends it to the log.
    open spec fn handled(self, post: Self, event: Event) -> bool {
        post.log() == self.log().push(event)
    }

    fn receive_event(&mut self, event: Event)
        ensures
            old(self).handled(*final(self), event),
    {
        self.events.push(event);
    }
}

/// Feed the handler the one event this toy listener produces: a `Message`.
pub fn listen_events<T: EventHandler>(handler: &mut T)
    ensures
        old(handler).handled(*final(handler), Event::Message),
{
    handler.receive_event(Event::Message);
}

} // verus!
