//! The benchmark as a protocol of a transport service that hands out
//! connection and substream events: what each mode does with each event.
use crate::perf::{Phase, Role, RunState, WireRun};
use vstd::prelude::*;

verus! {

/// What the service does.
#[derive(Clone, Copy, Debug, PartialEq, Eq, Structural)]
pub enum PerfMode {
    /// Serve every substream.
    Server,
    /// Run one benchmark per connection.
    Client { upload_bytes: u64, download_bytes: u64 },
    /// Open `substreams` substreams per connection and time how long opening
    /// them takes.
    ClientSubstream { substreams: usize },
}

/// Who opened a substream.
#[derive(Clone, Copy, Debug, PartialEq, Eq, Structural)]
pub enum Direction {
    Inbound,
    Outbound,
}

/// What the service's owner is to do after an event.
pub enum PerfAction {
    /// Nothing.
    Idle,
    /// Open this many outbound substreams to the peer, then restart the clock
    /// that times their opening.
    OpenSubstreams(usize),
    /// Drive this run over the substream.
    Run(WireRun),
    /// All substreams of the round are open; this is the mean time, in
    /// nanoseconds, that each took.
    AverageOpenTime(u128),
}

/// The state of the service.
pub struct Perf {
    mode: PerfMode,
    /// Outbound substreams of the current round opened so far.
    opened: usize,
    /// Their opening times added up, in nanoseconds.
    open_nanos: u128,
}

/// The number of substreams that a mode opens per connection.
pub open spec fn substreams_of(mode: PerfMode) -> nat {
    match mode {
        PerfMode::Server => 0,
        PerfMode::Client { .. } => 1,
        PerfMode::ClientSubstream { substreams } => substreams as nat,
    }
}

impl Perf {
    pub closed spec fn mode(&self) -> PerfMode {
        self.mode
    }

    /// Outbound substreams of the current timing round opened so far.
    pub closed spec fn opened(&self) -> nat {
        self.opened as nat
    }

    /// The total opening time of those substreams, in nanoseconds.
    pub closed spec fn open_nanos(&self) -> nat {
        self.open_nanos as nat
    }

    pub open spec fn wf(&self) -> bool {
        &&& (self.opened() > 0 ==> self.opened() < substreams_of(self.mode()))
        &&& self.open_nanos() <= self.opened() * (u64::MAX as nat)
    }

    pub fn new(mode: PerfMode) -> (r: Perf)
        ensures
            r.wf(),
            r.mode() == mode,
            r.opened() == 0,
            r.open_nanos() == 0,
    {
        Perf { mode, opened: 0, open_nanos: 0 }
    }

    /// The number of substreams that this service opens per connection.
    pub fn num_substreams(&self) -> (r: usize)
        ensures
            r == substreams_of(self.mode()),
    {
        match self.mode {
            PerfMode::Server => 0,
            PerfMode::Client { .. } => 1,
            PerfMode::ClientSubstream { substreams } => substreams,
        }
    }

    /// A connection was established: open the mode's substreams.
    pub fn on_connection_established(&self) -> (r: PerfAction)
        ensures
            r == PerfAction::OpenSubstreams(substreams_of(self.mode()) as usize),
    {
        PerfAction::OpenSubstreams(self.num_substreams())
    }

    /// A substream was opened, `elapsed_nanos` after the clock was last
    /// restarted. A server serves it and a client runs its benchmark over it,
    /// whoever opened it. When timing the opening, an outbound substream adds
    /// its time to the round, and the last one of the round reports the mean
    /// and starts a new round; an inbound one is ignored.
    pub fn on_substream_opened(&mut self, direction: Direction, elapsed_nanos: u64) -> (r:
        PerfAction)
        requires
            old(self).wf(),
        ensures
            final(self).wf(),
            final(self).mode() == old(self).mode(),
            match old(self).mode() {
                PerfMode::Server => {
                    &&& r matches PerfAction::Run(run)
                    &&& run.wf()
                    &&& run@ == (RunState {
                        role: Role::Server,
                        phase: Phase::UploadSize,
                        upload_size: 0,
                        download_size: 0,
                        uploaded: 0,
                        downloaded: 0,
                        upload_cut: false,
                        download_cut: false,
                    })
                    &&& final(self).opened() == old(self).opened()
                    &&& final(self).open_nanos() == old(self).open_nanos()
                },
                PerfMode::Client { upload_bytes, download_bytes } => {
                    &&& r matches PerfAction::Run(run)
                    &&& run.wf()
                    &&& run@ == (RunState {
                        role: Role::Client,
                        phase: Phase::UploadSize,
                        upload_size: upload_bytes,
                        download_size: download_bytes,
                        uploaded: 0,
                        downloaded: 0,
                        upload_cut: false,
                        download_cut: false,
                    })
                    &&& final(self).opened() == old(self).opened()
                    &&& final(self).open_nanos() == old(self).open_nanos()
                },
                PerfMode::ClientSubstream { substreams } => {
                    let opened: nat = old(self).opened() + 1;
                    let total: nat = (old(self).open_nanos() + elapsed_nanos) as nat;
                    if direction == Direction::Inbound || substreams == 0 {
                        &&& r is Idle
                        &&& final(self).opened() == old(self).opened()
                        &&& final(self).open_nanos() == old(self).open_nanos()
                    } else if opened == substreams {
                        &&& r == PerfAction::AverageOpenTime((total / opened) as u128)
                        &&& final(self).opened() == 0
                        &&& final(self).open_nanos() == 0
                    } else {
                        &&& r is Idle
                        &&& final(self).opened() == opened
                        &&& final(self).open_nanos() == total
                    }
                },
            },
    {
        match self.mode {
            PerfMode::Server => PerfAction::Run(WireRun::server()),
            PerfMode::Client { upload_bytes, download_bytes } => PerfAction::Run(
                WireRun::client(upload_bytes, download_bytes),
            ),
            PerfMode::ClientSubstream { substreams } => {
                if direction == Direction::Inbound || substreams == 0 {
                    return PerfAction::Idle;
                }
                assert(self.open_nanos + elapsed_nanos <= (self.opened + 1) * (u64::MAX as nat))
                    by (nonlinear_arith)
                    requires
                        self.open_nanos <= self.opened * (u64::MAX as nat),
                        elapsed_nanos <= u64::MAX,
                ;
                assert((self.opened + 1) * (u64::MAX as nat) < u128::MAX) by (nonlinear_arith)
                    requires
                        self.opened < usize::MAX,
                ;
                let opened = self.opened + 1;
                let total = self.open_nanos + elapsed_nanos as u128;
                if opened == substreams {
                    self.opened = 0;
                    self.open_nanos = 0;
                    PerfAction::AverageOpenTime(total / opened as u128)
                } else {
                    self.opened = opened;
                    self.open_nanos = total;
                    PerfAction::Idle
                }
            },
        }
    }
}

} // verus!
