//! Per-connection request correlation.
//!
//! Each benchmark command asks the transport for one outbound stream. The
//! transport answers every request, in the order the requests were made, with
//! either a negotiated stream or a failure; the answer is matched to the
//! oldest command still waiting. A negotiated stream then runs the wire
//! protocol, tagged with the command's id, until it reports its result.
use std::collections::VecDeque;
use vstd::prelude::*;

verus! {

broadcast use vstd::seq_lib::group_to_multiset_ensures;

/// A benchmark to run over a new stream of this connection.
#[derive(Clone, Copy, Debug, PartialEq, Eq, Structural)]
pub struct Command {
    pub id: usize,
    pub upload_bytes: u64,
    pub download_bytes: u64,
}

/// The one outcome of a command.
#[derive(Debug)]
pub struct Event {
    pub id: usize,
    pub result: Result<(), String>,
}

/// What the connection asks of its owner.
#[derive(Debug)]
pub enum HandlerEvent {
    /// Open one more outbound benchmark stream.
    OutboundSubstreamRequest,
    /// Hand this completion to the registry.
    NotifyBehaviour(Event),
}

/// A transport report that no outstanding work explains: the correlation
/// state of the connection can no longer be trusted.
#[derive(Clone, Copy, Debug, PartialEq, Eq, Structural)]
pub enum SessionFault {
    /// A stream negotiation ended while no command was waiting for one.
    NoPendingCommand,
    /// A run with this id finished while no such run was in flight.
    UnknownExecution(usize),
}

/// The ids of a sequence of commands.
pub open spec fn command_ids(cmds: Seq<Command>) -> Seq<usize> {
    cmds.map_values(|c: Command| c.id)
}

/// The correlation state of one connection.
pub struct Handler {
    /// Events to hand out when polled, oldest first.
    queued_events: VecDeque<HandlerEvent>,
    /// Commands waiting for their stream, in submission order.
    requested_streams: VecDeque<Command>,
    /// Ids of the runs in flight over negotiated streams.
    outbound: Vec<usize>,
    /// Ids of all commands received, in order.
    submitted: Ghost<Seq<usize>>,
    /// Ids of all completion events produced, in order.
    completed: Ghost<Seq<usize>>,
}

impl Handler {
    pub closed spec fn pending(&self) -> Seq<Command> {
        self.requested_streams@
    }

    pub closed spec fn queued(&self) -> Seq<HandlerEvent> {
        self.queued_events@
    }

    pub closed spec fn in_flight(&self) -> Seq<usize> {
        self.outbound@
    }

    pub closed spec fn submitted(&self) -> Seq<usize> {
        self.submitted@
    }

    pub closed spec fn completed(&self) -> Seq<usize> {
        self.completed@
    }

    /// Every command received is, exactly once, waiting, in flight or
    /// completed.
    pub open spec fn wf(&self) -> bool {
        self.submitted().to_multiset() =~= command_ids(self.pending()).to_multiset().add(
            self.in_flight().to_multiset(),
        ).add(self.completed().to_multiset())
    }

    /// No command is waiting and no run is in flight.
    pub open spec fn idle(&self) -> bool {
        self.pending().len() == 0 && self.in_flight().len() == 0
    }

    pub fn new() -> (r: Handler)
        ensures
            r.wf(),
            r.pending() == Seq::<Command>::empty(),
            r.queued().len() == 0,
            r.in_flight() == Seq::<usize>::empty(),
            r.submitted() == Seq::<usize>::empty(),
            r.completed() == Seq::<usize>::empty(),
    {
        let r = Handler {
            queued_events: VecDeque::new(),
            requested_streams: VecDeque::new(),
            outbound: Vec::new(),
            submitted: Ghost(Seq::empty()),
            completed: Ghost(Seq::empty()),
        };
        assert(command_ids(r.pending()) =~= Seq::<usize>::empty());
        r
    }

    /// Whether nothing is waiting or in flight.
    pub fn is_idle(&self) -> (r: bool)
        ensures
            r == self.idle(),
    {
        self.requested_streams.len() == 0 && self.outbound.len() == 0
    }

    /// Accepts a command: it waits for a stream, and one stream is requested.
    pub fn on_behaviour_event(&mut self, command: Command)
        requires
            old(self).wf(),
        ensures
            final(self).wf(),
            final(self).pending() == old(self).pending().push(command),
            final(self).queued() == old(self).queued().push(HandlerEvent::OutboundSubstreamRequest),
            final(self).in_flight() == old(self).in_flight(),
            final(self).submitted() == old(self).submitted().push(command.id),
            final(self).completed() == old(self).completed(),
    {
        self.requested_streams.push_back(command);
        self.queued_events.push_back(HandlerEvent::OutboundSubstreamRequest);
        self.submitted = Ghost(self.submitted@.push(command.id));
        assert(command_ids(self.pending()) =~= command_ids(old(self).pending()).push(command.id));
    }

    /// Hands out the oldest queued event.
    pub fn poll(&mut self) -> (r: Option<HandlerEvent>)
        ensures
            final(self).pending() == old(self).pending(),
            final(self).in_flight() == old(self).in_flight(),
            final(self).submitted() == old(self).submitted(),
            final(self).completed() == old(self).completed(),
            old(self).queued().len() == 0 ==> r is None && final(self).queued() == old(self).queued(),
            old(self).queued().len() > 0 ==> r == Some(old(self).queued()[0]) && final(self).queued()
                == old(self).queued().drop_first(),
    {
        let r = self.queued_events.pop_front();
        proof {
            if old(self).queued().len() > 0 {
                assert(self.queued() =~= old(self).queued().drop_first());
            }
        }
        r
    }

    proof fn lemma_take_first(&self)
        requires
            self.pending().len() > 0,
        ensures
            command_ids(self.pending()).to_multiset() =~= command_ids(
                self.pending().drop_first(),
            ).to_multiset().insert(self.pending()[0].id),
    {
        let ids = command_ids(self.pending());
        assert(ids.remove(0) =~= command_ids(self.pending().drop_first()));
        assert(ids.to_multiset().remove(ids[0]).insert(ids[0]) =~= ids.to_multiset());
    }

    /// A stream was negotiated: it serves the oldest waiting command, whose run
    /// is now in flight. The caller runs the client side of the wire protocol
    /// for the returned command and reports the result through
    /// [`Handler::on_execution_finished`].
    pub fn on_outbound_negotiated(&mut self) -> (r: Result<Command, SessionFault>)
        requires
            old(self).wf(),
        ensures
            final(self).wf(),
            final(self).queued() == old(self).queued(),
            final(self).submitted() == old(self).submitted(),
            final(self).completed() == old(self).completed(),
            old(self).pending().len() == 0 ==> {
                &&& r == Err::<Command, SessionFault>(SessionFault::NoPendingCommand)
                &&& final(self).pending() == old(self).pending()
                &&& final(self).in_flight() == old(self).in_flight()
            },
            old(self).pending().len() > 0 ==> {
                &&& r == Ok::<Command, SessionFault>(old(self).pending()[0])
                &&& final(self).pending() == old(self).pending().drop_first()
                &&& final(self).in_flight() == old(self).in_flight().push(old(self).pending()[0].id)
            },
    {
        proof {
            if old(self).pending().len() > 0 {
                old(self).lemma_take_first();
            }
        }
        match self.requested_streams.pop_front() {
            None => Err(SessionFault::NoPendingCommand),
            Some(command) => {
                self.outbound.push(command.id);
                assert(self.pending() =~= old(self).pending().drop_first());
                Ok(command)
            },
        }
    }

    /// Negotiating a stream failed: the oldest waiting command completes with
    /// the error, and its completion is queued.
    pub fn on_dial_upgrade_error(&mut self, error: String) -> (r: Result<(), SessionFault>)
        requires
            old(self).wf(),
        ensures
            final(self).wf(),
            final(self).in_flight() == old(self).in_flight(),
            final(self).submitted() == old(self).submitted(),
            old(self).pending().len() == 0 ==> {
                &&& r == Err::<(), SessionFault>(SessionFault::NoPendingCommand)
                &&& final(self).pending() == old(self).pending()
                &&& final(self).queued() == old(self).queued()
                &&& final(self).completed() == old(self).completed()
            },
            old(self).pending().len() > 0 ==> {
                &&& r == Ok::<(), SessionFault>(())
                &&& final(self).pending() == old(self).pending().drop_first()
                &&& final(self).completed() == old(self).completed().push(old(self).pending()[0].id)
                &&& final(self).queued() == old(self).queued().push(
                    HandlerEvent::NotifyBehaviour(
                        Event { id: old(self).pending()[0].id, result: Err(error) },
                    ),
                )
            },
    {
        proof {
            if old(self).pending().len() > 0 {
                old(self).lemma_take_first();
            }
        }
        match self.requested_streams.pop_front() {
            None => Err(SessionFault::NoPendingCommand),
            Some(command) => {
                self.queued_events.push_back(
                    HandlerEvent::NotifyBehaviour(Event { id: command.id, result: Err(error) }),
                );
                self.completed = Ghost(self.completed@.push(command.id));
                assert(self.pending() =~= old(self).pending().drop_first());
                Ok(())
            },
        }
    }

    /// The run with this id finished: it leaves the flight, and its completion
    /// is returned for the registry.
    pub fn on_execution_finished(&mut self, id: usize, result: Result<(), String>) -> (r: Result<Event, SessionFault>)
        requires
            old(self).wf(),
        ensures
            final(self).wf(),
            final(self).pending() == old(self).pending(),
            final(self).queued() == old(self).queued(),
            final(self).submitted() == old(self).submitted(),
            !old(self).in_flight().contains(id) ==> {
                &&& r == Err::<Event, SessionFault>(SessionFault::UnknownExecution(id))
                &&& final(self).in_flight() == old(self).in_flight()
                &&& final(self).completed() == old(self).completed()
            },
            old(self).in_flight().contains(id) ==> {
                &&& r == Ok::<Event, SessionFault>(Event { id, result })
                &&& final(self).completed() == old(self).completed().push(id)
                &&& exists|i: int|
                    0 <= i < old(self).in_flight().len() && old(self).in_flight()[i] == id
                        && #[trigger] final(self).in_flight() == old(self).in_flight().remove(i)
            },
    {
        let mut i: usize = 0;
        while i < self.outbound.len()
            invariant
                self == old(self),
                old(self).wf(),
                0 <= i <= self.outbound@.len(),
                forall|j: int| 0 <= j < i ==> self.outbound@[j] != id,
            decreases self.outbound@.len() - i,
        {
            if self.outbound[i] == id {
                let ghost before = self.outbound@;
                self.outbound.remove(i);
                self.completed = Ghost(self.completed@.push(id));
                proof {
                    let p = command_ids(self.pending()).to_multiset();
                    let f = before.to_multiset();
                    let c = old(self).completed().to_multiset();
                    assert(self.outbound@ =~= before.remove(i as int));
                    assert(self.outbound@.to_multiset() =~= f.remove(id));
                    assert(self.completed@.to_multiset() =~= c.insert(id));
                    assert(f.count(id) > 0);
                    assert(p.add(f.remove(id)).add(c.insert(id)) =~= p.add(f).add(c));
                }
                return Ok(Event { id, result });
            }
            i = i + 1;
        }
        Err(SessionFault::UnknownExecution(id))
    }
}

/// Every command is answered exactly once: when nothing is waiting or in
/// flight, the completions produced are the commands received, each id as
/// often as it was received; with distinct ids, each id completed once.
pub proof fn lemma_idle_handler_completed_each_once(h: &Handler)
    requires
        h.wf(),
        h.idle(),
    ensures
        h.completed().to_multiset() == h.submitted().to_multiset(),
        h.completed().len() == h.submitted().len(),
        h.submitted().no_duplicates() ==> forall|id: usize|
            h.submitted().contains(id) ==> #[trigger] h.completed().to_multiset().count(id) == 1,
{
    assert(command_ids(h.pending()) =~= Seq::<usize>::empty());
    assert(h.completed().to_multiset() =~= h.submitted().to_multiset());
    assert(h.completed().to_multiset().len() == h.submitted().to_multiset().len());
    if h.submitted().no_duplicates() {
        h.submitted().lemma_multiset_has_no_duplicates();
    }
}

} // verus!
