//! Per-connection state of the accepting side.
use crate::perf::{Phase, Role, RunState, WireRun};
use vstd::prelude::*;

verus! {

/// A server-side run ended.
#[derive(Clone, Copy, Debug, PartialEq, Eq, Structural)]
pub struct Event {}

/// A run ended that this connection never started.
#[derive(Clone, Copy, Debug, PartialEq, Eq, Structural)]
pub struct UnknownRun();

/// The runs of one connection that serve inbound streams.
pub struct Handler {
    /// Runs started and not yet ended.
    inbound: usize,
}

impl Handler {
    pub closed spec fn running(&self) -> nat {
        self.inbound as nat
    }

    pub fn new() -> (r: Handler)
        ensures
            r.running() == 0,
    {
        Handler { inbound: 0 }
    }

    /// The number of runs in flight.
    pub fn in_flight(&self) -> (r: usize)
        ensures
            r == self.running(),
    {
        self.inbound
    }

    /// An inbound benchmark stream was negotiated: the returned run, in the
    /// server role and before anything was read, is to be driven over it.
    pub fn on_inbound_negotiated(&mut self) -> (r: WireRun)
        requires
            old(self).running() < usize::MAX,
        ensures
            final(self).running() == old(self).running() + 1,
            r.wf(),
            r@ == (RunState {
                role: Role::Server,
                phase: Phase::UploadSize,
                upload_size: 0,
                download_size: 0,
                uploaded: 0,
                downloaded: 0,
                upload_cut: false,
                download_cut: false,
            }),
    {
        self.inbound = self.inbound + 1;
        WireRun::server()
    }

    /// A run ended, successfully or not: the outcome is only noted, and one
    /// event tells the registry that a run ended.
    pub fn on_execution_finished(&mut self) -> (r: Result<Event, UnknownRun>)
        ensures
            old(self).running() == 0 ==> r == Err::<Event, UnknownRun>(UnknownRun())
                && final(self).running() == 0,
            old(self).running() > 0 ==> r == Ok::<Event, UnknownRun>(Event {})
                && final(self).running() == old(self).running() - 1,
    {
        if self.inbound == 0 {
            return Err(UnknownRun());
        }
        self.inbound = self.inbound - 1;
        Ok(Event {})
    }
}

} // verus!
