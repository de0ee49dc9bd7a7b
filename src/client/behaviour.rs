//! The registry of connected peers and the entry point for benchmark
//! requests.
use crate::client::handler::{self, Command};
use std::collections::VecDeque;
use vstd::prelude::*;

verus! {

/// A peer's identity, as the bytes of its encoding.
#[derive(Debug)]
pub struct PeerKey {
    pub bytes: Vec<u8>,
}

impl View for PeerKey {
    type V = Seq<u8>;

    open spec fn view(&self) -> Seq<u8> {
        self.bytes@
    }
}

impl PeerKey {
    /// Whether two keys name the same peer.
    pub fn same_as(&self, other: &PeerKey) -> (r: bool)
        ensures
            r == (self@ == other@),
    {
        if self.bytes.len() != other.bytes.len() {
            return false;
        }
        let mut i: usize = 0;
        while i < self.bytes.len()
            invariant
                self.bytes@.len() == other.bytes@.len(),
                0 <= i <= self.bytes@.len(),
                forall|j: int| 0 <= j < i ==> self.bytes@[j] == other.bytes@[j],
            decreases self.bytes@.len() - i,
        {
            if self.bytes[i] != other.bytes[i] {
                return false;
            }
            i = i + 1;
        }
        assert(self@ =~= other@);
        true
    }
}

/// The completion of a benchmark request, as the caller sees it.
#[derive(Debug)]
pub struct Event {
    pub id: usize,
    pub result: Result<(), String>,
}

/// The request named a peer that is not connected.
#[derive(Clone, Copy, Debug, PartialEq, Eq, Structural)]
pub struct NotConnected();

impl NotConnected {
    /// The message that describes the error.
    pub fn message(&self) -> (r: &'static str)
        ensures
            r@ == "not connected to peer"@,
    {
        "not connected to peer"
    }
}

/// What the registry asks of the swarm that drives it.
#[derive(Debug)]
pub enum BehaviourAction {
    /// Deliver this command to one connection with the peer.
    NotifyHandler { peer_id: PeerKey, command: Command },
    /// Report this completion to the caller.
    GenerateEvent(Event),
}

/// The peers that are connected, and the requests and completions not yet
/// handed out.
pub struct Behaviour {
    /// Actions to hand out when polled, oldest first.
    queued_events: VecDeque<BehaviourAction>,
    /// The connected peers, each once.
    connected: Vec<PeerKey>,
    /// The id that the next request gets.
    next_run_id: usize,
}

impl Behaviour {
    pub closed spec fn peers(&self) -> Seq<Seq<u8>> {
        self.connected@.map_values(|p: PeerKey| p@)
    }

    /// The peers that are connected.
    pub open spec fn connected(&self) -> Set<Seq<u8>> {
        Set::new(|q: Seq<u8>| self.peers().contains(q))
    }

    pub closed spec fn queued(&self) -> Seq<BehaviourAction> {
        self.queued_events@
    }

    /// The id that the next accepted request gets.
    pub closed spec fn next_id(&self) -> usize {
        self.next_run_id
    }

    pub open spec fn wf(&self) -> bool {
        &&& self.peers().no_duplicates()
        &&& self.next_id() >= 1
    }

    /// A registry with no peer connected; ids start at 1.
    pub fn new() -> (r: Behaviour)
        ensures
            r.wf(),
            r.connected() == Set::<Seq<u8>>::empty(),
            r.queued().len() == 0,
            r.next_id() == 1,
    {
        let r = Behaviour { queued_events: VecDeque::new(), connected: Vec::new(), next_run_id: 1 };
        assert(r.peers() =~= Seq::<Seq<u8>>::empty());
        assert(r.connected() =~= Set::<Seq<u8>>::empty());
        r
    }

    fn find(&self, peer: &PeerKey) -> (r: Option<usize>)
        ensures
            match r {
                Some(i) => i < self.peers().len() && self.peers()[i as int] == peer@,
                None => !self.peers().contains(peer@),
            },
    {
        let mut i: usize = 0;
        while i < self.connected.len()
            invariant
                0 <= i <= self.connected@.len(),
                forall|j: int| 0 <= j < i ==> self.peers()[j] != peer@,
            decreases self.connected@.len() - i,
        {
            if self.connected[i].same_as(peer) {
                return Some(i);
            }
            i = i + 1;
        }
        None
    }

    /// Whether the peer is connected.
    pub fn is_connected(&self, peer: &PeerKey) -> (r: bool)
        ensures
            r == self.connected().contains(peer@),
    {
        self.find(peer).is_some()
    }

    /// Whether every id has been handed out; no request can be accepted then.
    pub fn ids_exhausted(&self) -> (r: bool)
        ensures
            r == (self.next_id() == usize::MAX),
    {
        self.next_run_id == usize::MAX
    }

    /// Asks for a benchmark against `server`: a request with a fresh id goes
    /// to one of the peer's connections, and the id is returned. A peer that
    /// is not connected is refused at once, and nothing is sent.
    pub fn perf(&mut self, server: PeerKey, upload_bytes: u64, download_bytes: u64) -> (r: Result<
        usize,
        NotConnected,
    >)
        requires
            old(self).wf(),
            old(self).next_id() < usize::MAX,
        ensures
            final(self).wf(),
            final(self).connected() == old(self).connected(),
            !old(self).connected().contains(server@) ==> {
                &&& r == Err::<usize, NotConnected>(NotConnected())
                &&& final(self).queued() == old(self).queued()
                &&& final(self).next_id() == old(self).next_id()
            },
            old(self).connected().contains(server@) ==> {
                &&& r == Ok::<usize, NotConnected>(old(self).next_id())
                &&& final(self).next_id() == old(self).next_id() + 1
                &&& final(self).queued() == old(self).queued().push(
                    BehaviourAction::NotifyHandler {
                        peer_id: server,
                        command: Command {
                            id: old(self).next_id(),
                            upload_bytes,
                            download_bytes,
                        },
                    },
                )
            },
    {
        if !self.is_connected(&server) {
            return Err(NotConnected());
        }
        let id = self.next_run_id;
        self.next_run_id = id + 1;
        self.queued_events.push_back(
            BehaviourAction::NotifyHandler {
                peer_id: server,
                command: Command { id, upload_bytes, download_bytes },
            },
        );
        Ok(id)
    }

    /// A connection with the peer was established.
    pub fn on_connection_established(&mut self, peer: PeerKey)
        requires
            old(self).wf(),
        ensures
            final(self).wf(),
            final(self).connected() == old(self).connected().insert(peer@),
            final(self).queued() == old(self).queued(),
            final(self).next_id() == old(self).next_id(),
    {
        let ghost key = peer@;
        if self.find(&peer).is_none() {
            self.connected.push(peer);
            proof {
                assert(self.peers() =~= old(self).peers().push(key));
                assert forall|q: Seq<u8>|
                    self.peers().contains(q) implies old(self).peers().contains(q) || q == key by {
                    let j = choose|j: int| 0 <= j < self.peers().len() && self.peers()[j] == q;
                    if j < old(self).peers().len() {
                        assert(old(self).peers()[j] == q);
                    }
                }
                assert forall|q: Seq<u8>|
                    old(self).peers().contains(q) implies self.peers().contains(q) by {
                    let j = choose|j: int| 0 <= j < old(self).peers().len() && old(self).peers()[j] == q;
                    assert(self.peers()[j] == q);
                }
                assert(self.peers()[old(self).peers().len() as int] == key);
            }
        }
        assert(self.connected() =~= old(self).connected().insert(key));
    }

    /// A connection with the peer closed, and `remaining_established` others
    /// with it are still open. The peer stays connected unless none remain.
    /// Returns whether the peer left the registry; a last connection of a peer
    /// that was not registered changes nothing.
    pub fn on_connection_closed(&mut self, peer: &PeerKey, remaining_established: usize) -> (r:
        bool)
        requires
            old(self).wf(),
        ensures
            final(self).wf(),
            r == (remaining_established == 0 && old(self).connected().contains(peer@)),
            final(self).connected() == if remaining_established == 0 {
                old(self).connected().remove(peer@)
            } else {
                old(self).connected()
            },
            final(self).queued() == old(self).queued(),
            final(self).next_id() == old(self).next_id(),
    {
        if remaining_established != 0 {
            return false;
        }
        match self.find(peer) {
            None => {
                assert(self.connected() =~= old(self).connected().remove(peer@));
                false
            },
            Some(i) => {
                let ghost before = self.peers();
                self.connected.remove(i);
                proof {
                    assert(self.peers() =~= before.remove(i as int));
                    assert forall|q: Seq<u8>|
                        #[trigger] self.peers().contains(q) <==> (before.contains(q) && q != peer@) by {
                        if self.peers().contains(q) {
                            let j = choose|j: int| 0 <= j < self.peers().len() && self.peers()[j] == q;
                            if j < i {
                                assert(before[j] == q);
                            } else {
                                assert(before[j + 1] == q);
                            }
                        }
                        if before.contains(q) && q != peer@ {
                            let j = choose|j: int| 0 <= j < before.len() && before[j] == q;
                            if j < i {
                                assert(self.peers()[j] == q);
                            } else {
                                assert(j != i);
                                assert(self.peers()[j - 1] == q);
                            }
                        }
                    }
                }
                assert(self.connected() =~= old(self).connected().remove(peer@));
                true
            },
        }
    }

    /// A connection reported the completion of one of its requests; it is
    /// queued for the caller.
    pub fn on_connection_handler_event(&mut self, event: handler::Event)
        requires
            old(self).wf(),
        ensures
            final(self).wf(),
            final(self).connected() == old(self).connected(),
            final(self).next_id() == old(self).next_id(),
            final(self).queued() == old(self).queued().push(
                BehaviourAction::GenerateEvent(Event { id: event.id, result: event.result }),
            ),
    {
        let handler::Event { id, result } = event;
        self.queued_events.push_back(BehaviourAction::GenerateEvent(Event { id, result }));
    }

    /// Hands out the oldest queued action.
    pub fn poll(&mut self) -> (r: Option<BehaviourAction>)
        requires
            old(self).wf(),
        ensures
            final(self).wf(),
            final(self).connected() == old(self).connected(),
            final(self).next_id() == old(self).next_id(),
            old(self).queued().len() == 0 ==> r is None && final(self).queued() == old(self).queued(),
            old(self).queued().len() > 0 ==> r == Some(old(self).queued()[0]) && final(self).queued()
                == old(self).queued().drop_first(),
    {
        let r = self.queued_events.pop_front();
        proof {
            if old(self).queued().len() > 0 {
                assert(self.queued() =~= old(self).queued().drop_first());
            }
        }
        r
    }
}

} // verus!
