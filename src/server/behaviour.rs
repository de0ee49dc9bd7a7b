//! The accepting side's registry: it only forwards the ends of runs.
use crate::server::handler;
use vstd::prelude::*;

verus! {

/// A server-side run ended on some connection.
#[derive(Clone, Copy, Debug, PartialEq, Eq, Structural)]
pub struct Event {}

/// Ends of runs not yet handed out.
pub struct Behaviour {
    queued_events: usize,
}

impl Behaviour {
    pub closed spec fn queued(&self) -> nat {
        self.queued_events as nat
    }

    pub fn new() -> (r: Behaviour)
        ensures
            r.queued() == 0,
    {
        Behaviour { queued_events: 0 }
    }

    /// The number of events not yet handed out.
    pub fn pending_events(&self) -> (r: usize)
        ensures
            r == self.queued(),
    {
        self.queued_events
    }

    /// A connection reported the end of a run; it is queued.
    pub fn on_connection_handler_event(&mut self, event: handler::Event)
        requires
            old(self).queued() < usize::MAX,
        ensures
            final(self).queued() == old(self).queued() + 1,
    {
        let handler::Event {} = event;
        self.queued_events = self.queued_events + 1;
    }

    /// Hands out one queued event, if any.
    pub fn poll(&mut self) -> (r: Option<Event>)
        ensures
            old(self).queued() == 0 ==> r is None && final(self).queued() == 0,
            old(self).queued() > 0 ==> r == Some(Event {}) && final(self).queued() == old(
                self,
            ).queued() - 1,
    {
        if self.queued_events == 0 {
            return None;
        }
        self.queued_events = self.queued_events - 1;
        Some(Event {})
    }
}

} // verus!
