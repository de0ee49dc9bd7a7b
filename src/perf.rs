//! The benchmark's wire protocol over one open stream.
//!
//! The client announces the upload size as an 8-byte big-endian integer and
//! sends that many bytes; it then announces the download size the same way and
//! receives that many bytes. The server mirrors each step. A [`WireRun`] holds
//! the progress of one side and says which I/O step comes next; whoever owns
//! the stream performs the step and reports its outcome back.
use vstd::prelude::*;

verus! {

/// The identifier negotiated for benchmark streams.
pub const PROTOCOL_NAME: &'static str = "/litep2p-perf/1.0.0";

/// The largest number of payload bytes moved by one read or write.
pub const CHUNK_SIZE: u64 = 1024;

/// The 8-byte big-endian encoding of `v`.
pub open spec fn be_bytes(v: u64) -> Seq<u8> {
    seq![
        (v >> 56u64) as u8,
        (v >> 48u64) as u8,
        (v >> 40u64) as u8,
        (v >> 32u64) as u8,
        (v >> 24u64) as u8,
        (v >> 16u64) as u8,
        (v >> 8u64) as u8,
        v as u8,
    ]
}

/// The integer whose 8-byte big-endian encoding is `b`.
pub open spec fn be_value(b: Seq<u8>) -> u64
    recommends
        b.len() == 8,
{
    (b[0] as u64) << 56u64 | (b[1] as u64) << 48u64 | (b[2] as u64) << 40u64 | (b[3] as u64)
        << 32u64 | (b[4] as u64) << 24u64 | (b[5] as u64) << 16u64 | (b[6] as u64) << 8u64 | (
    b[7] as u64)
}

/// Encodes a size announcement.
pub fn encode_u64(v: u64) -> (r: [u8; 8])
    ensures
        r@ == be_bytes(v),
{
    let r = [
        (v >> 56u64) as u8,
        (v >> 48u64) as u8,
        (v >> 40u64) as u8,
        (v >> 32u64) as u8,
        (v >> 24u64) as u8,
        (v >> 16u64) as u8,
        (v >> 8u64) as u8,
        v as u8,
    ];
    assert(r@ =~= be_bytes(v));
    r
}

/// Decodes a size announcement.
pub fn decode_u64(b: [u8; 8]) -> (r: u64)
    ensures
        r == be_value(b@),
{
    (b[0] as u64) << 56u64 | (b[1] as u64) << 48u64 | (b[2] as u64) << 40u64 | (b[3] as u64)
        << 32u64 | (b[4] as u64) << 24u64 | (b[5] as u64) << 16u64 | (b[6] as u64) << 8u64 | (
    b[7] as u64)
}

/// Decoding an announcement gives back the size that was encoded.
pub proof fn lemma_size_round_trip(v: u64)
    ensures
        be_value(be_bytes(v)) == v,
{
    let b = be_bytes(v);
    let (b0, b1, b2, b3, b4, b5, b6, b7) = (b[0], b[1], b[2], b[3], b[4], b[5], b[6], b[7]);
    assert(b0 == (v >> 56u64) as u8 && b7 == v as u8);
    assert(((v >> 56u64) as u8 as u64) << 56u64 | ((v >> 48u64) as u8 as u64) << 48u64 | ((v
        >> 40u64) as u8 as u64) << 40u64 | ((v >> 32u64) as u8 as u64) << 32u64 | ((v >> 24u64)
        as u8 as u64) << 24u64 | ((v >> 16u64) as u8 as u64) << 16u64 | ((v >> 8u64) as u8 as u64)
        << 8u64 | (v as u8 as u64) == v) by (bit_vector);
}

/// Which end of the stream a run plays.
#[derive(Clone, Copy, Debug, PartialEq, Eq, Structural)]
pub enum Role {
    /// Accepts the stream, reads both announcements, drains the upload and
    /// sends the download.
    Server,
    /// Opens the stream, announces both sizes, sends the upload and drains the
    /// download.
    Client,
}

/// Where a run stands.
#[derive(Clone, Copy, Debug, PartialEq, Eq, Structural)]
pub enum Phase {
    /// The upload size is to be announced (client) or read (server).
    UploadSize,
    /// Upload payload moves from client to server.
    Upload,
    /// The download size is to be announced (client) or read (server).
    DownloadSize,
    /// Download payload moves from server to client.
    Download,
    /// Both phases are over.
    Finished,
}

/// The next I/O operation a run asks of the stream's owner.
#[derive(Clone, Copy, Debug, PartialEq, Eq)]
pub enum Step {
    /// Read exactly 8 bytes: a size announcement.
    ReadSize,
    /// Write these 8 bytes: a size announcement.
    WriteSize([u8; 8]),
    /// Read at most this many payload bytes, one read.
    Receive(usize),
    /// Write exactly this many payload bytes.
    Send(usize),
    /// Nothing is left to do: the run succeeded.
    Done,
}

/// The abstract state of a run.
pub struct RunState {
    pub role: Role,
    pub phase: Phase,
    /// The announced upload size (for a server, known once read).
    pub upload_size: u64,
    /// The announced download size (for a server, known once read).
    pub download_size: u64,
    /// Upload payload bytes moved so far.
    pub uploaded: u64,
    /// Download payload bytes moved so far.
    pub downloaded: u64,
    /// The peer closed the stream before the upload was complete.
    pub upload_cut: bool,
    /// The peer closed the stream before the download was complete.
    pub download_cut: bool,
}

/// The size of the next payload chunk when `remaining` bytes are still due.
pub open spec fn chunk_for(remaining: int) -> int {
    if remaining < CHUNK_SIZE {
        remaining
    } else {
        CHUNK_SIZE as int
    }
}

impl RunState {
    /// The phase that follows the upload size announcement.
    pub open spec fn phase_after_upload_size(size: u64) -> Phase {
        if size == 0 {
            Phase::DownloadSize
        } else {
            Phase::Upload
        }
    }

    /// The phase that follows the download size announcement.
    pub open spec fn phase_after_download_size(size: u64) -> Phase {
        if size == 0 {
            Phase::Finished
        } else {
            Phase::Download
        }
    }

    /// The invariant of a run.
    pub open spec fn wf(self) -> bool {
        &&& self.uploaded <= self.upload_size
        &&& self.downloaded <= self.download_size
        &&& (self.upload_cut ==> self.role == Role::Server)
        &&& (self.download_cut ==> self.role == Role::Client)
        &&& match self.phase {
            Phase::UploadSize => self.uploaded == 0 && self.downloaded == 0 && !self.upload_cut
                && !self.download_cut,
            Phase::Upload => self.uploaded < self.upload_size && self.downloaded == 0
                && !self.upload_cut && !self.download_cut,
            Phase::DownloadSize => (self.uploaded == self.upload_size || self.upload_cut)
                && self.downloaded == 0 && !self.download_cut,
            Phase::Download => (self.uploaded == self.upload_size || self.upload_cut)
                && self.downloaded < self.download_size && !self.download_cut,
            Phase::Finished => (self.uploaded == self.upload_size || self.upload_cut) && (
            self.downloaded == self.download_size || self.download_cut),
        }
    }

    /// Whether this side receives payload in phase `p`.
    pub open spec fn receives_in(self, p: Phase) -> bool {
        (self.role == Role::Server && p == Phase::Upload) || (self.role == Role::Client && p
            == Phase::Download)
    }

    /// Whether this side sends payload in phase `p`.
    pub open spec fn sends_in(self, p: Phase) -> bool {
        (self.role == Role::Client && p == Phase::Upload) || (self.role == Role::Server && p
            == Phase::Download)
    }

    /// Payload bytes still due in the current phase.
    pub open spec fn remaining(self) -> int {
        if self.phase == Phase::Upload {
            self.upload_size - self.uploaded
        } else {
            self.download_size - self.downloaded
        }
    }

    /// `st` is the step that the run asks for next.
    pub open spec fn is_step(self, st: Step) -> bool {
        match self.phase {
            Phase::UploadSize => if self.role == Role::Server {
                st == Step::ReadSize
            } else {
                st matches Step::WriteSize(b) && b@ == be_bytes(self.upload_size)
            },
            Phase::DownloadSize => if self.role == Role::Server {
                st == Step::ReadSize
            } else {
                st matches Step::WriteSize(b) && b@ == be_bytes(self.download_size)
            },
            Phase::Upload | Phase::Download => if self.receives_in(self.phase) {
                st == Step::Receive(chunk_for(self.remaining()) as usize)
            } else {
                st == Step::Send(chunk_for(self.remaining()) as usize)
            },
            Phase::Finished => st == Step::Done,
        }
    }

    /// The state once the size of the current announcement phase is `v`.
    pub open spec fn with_size(self, v: u64) -> RunState {
        if self.phase == Phase::UploadSize {
            RunState { upload_size: v, phase: Self::phase_after_upload_size(v), ..self }
        } else {
            RunState { download_size: v, phase: Self::phase_after_download_size(v), ..self }
        }
    }

    /// The size that the current announcement phase announces.
    pub open spec fn announced(self) -> u64 {
        if self.phase == Phase::UploadSize {
            self.upload_size
        } else {
            self.download_size
        }
    }

    /// The state once `n` payload bytes have moved in the current phase; on the
    /// receiving side `0` means that the peer closed the stream.
    pub open spec fn after_transfer(self, n: u64) -> RunState {
        if self.phase == Phase::Upload {
            if n == 0 {
                RunState { upload_cut: true, phase: Phase::DownloadSize, ..self }
            } else if self.uploaded + n == self.upload_size {
                RunState {
                    uploaded: (self.uploaded + n) as u64,
                    phase: Phase::DownloadSize,
                    ..self
                }
            } else {
                RunState { uploaded: (self.uploaded + n) as u64, ..self }
            }
        } else {
            if n == 0 {
                RunState { download_cut: true, phase: Phase::Finished, ..self }
            } else if self.downloaded + n == self.download_size {
                RunState {
                    downloaded: (self.downloaded + n) as u64,
                    phase: Phase::Finished,
                    ..self
                }
            } else {
                RunState { downloaded: (self.downloaded + n) as u64, ..self }
            }
        }
    }
}

/// Byte-count conservation: a run that finished without the peer closing the
/// stream early has moved exactly the announced number of bytes in each
/// direction, whatever the chunk size.
pub proof fn lemma_finished_run_moved_announced(s: RunState)
    requires
        s.wf(),
        s.phase == Phase::Finished,
        !s.upload_cut,
        !s.download_cut,
    ensures
        s.uploaded == s.upload_size,
        s.downloaded == s.download_size,
{
}

/// A client never changes the sizes it was made with: announcing a size and
/// moving payload keep both, so a client run that finished without the peer
/// closing early has sent and received exactly the sizes it was asked for.
pub proof fn lemma_client_keeps_its_sizes(s: RunState, n: u64)
    requires
        s.wf(),
        s.role == Role::Client,
    ensures
        (s.phase == Phase::UploadSize || s.phase == Phase::DownloadSize) ==> {
            let t = s.with_size(s.announced());
            t.upload_size == s.upload_size && t.download_size == s.download_size && t.wf()
        },
        (s.phase == Phase::Upload || s.phase == Phase::Download) ==> {
            let t = s.after_transfer(n);
            t.upload_size == s.upload_size && t.download_size == s.download_size
        },
{
}

/// A server that reads the announcements a client wrote learns the client's
/// sizes.
pub proof fn lemma_server_learns_announced_size(s: RunState, v: u64)
    requires
        s.role == Role::Server,
        s.phase == Phase::UploadSize || s.phase == Phase::DownloadSize,
    ensures
        s.phase == Phase::UploadSize ==> s.with_size(be_value(be_bytes(v))).upload_size == v,
        s.phase == Phase::DownloadSize ==> s.with_size(be_value(be_bytes(v))).download_size == v,
{
    lemma_size_round_trip(v);
}

/// One side of a benchmark stream, as a state machine over [`RunState`].
pub struct WireRun {
    state: RunState,
}

impl View for WireRun {
    type V = RunState;

    closed spec fn view(&self) -> RunState {
        self.state
    }
}

impl WireRun {
    pub open spec fn wf(&self) -> bool {
        self@.wf()
    }

    /// A run of the accepting side, before anything was read.
    pub fn server() -> (r: WireRun)
        ensures
            r.wf(),
            r@ == (RunState {
                role: Role::Server,
                phase: Phase::UploadSize,
                upload_size: 0,
                download_size: 0,
                uploaded: 0,
                downloaded: 0,
                upload_cut: false,
                download_cut: false,
            }),
    {
        WireRun {
            state: RunState {
                role: Role::Server,
                phase: Phase::UploadSize,
                upload_size: 0,
                download_size: 0,
                uploaded: 0,
                downloaded: 0,
                upload_cut: false,
                download_cut: false,
            },
        }
    }

    /// A run of the opening side that will upload `upload_bytes` and download
    /// `download_bytes`.
    pub fn client(upload_bytes: u64, download_bytes: u64) -> (r: WireRun)
        ensures
            r.wf(),
            r@ == (RunState {
                role: Role::Client,
                phase: Phase::UploadSize,
                upload_size: upload_bytes,
                download_size: download_bytes,
                uploaded: 0,
                downloaded: 0,
                upload_cut: false,
                download_cut: false,
            }),
    {
        WireRun {
            state: RunState {
                role: Role::Client,
                phase: Phase::UploadSize,
                upload_size: upload_bytes,
                download_size: download_bytes,
                uploaded: 0,
                downloaded: 0,
                upload_cut: false,
                download_cut: false,
            },
        }
    }

    pub fn phase(&self) -> (r: Phase)
        ensures
            r == self@.phase,
    {
        self.state.phase
    }

    /// Upload and download payload bytes moved so far.
    pub fn moved(&self) -> (r: (u64, u64))
        ensures
            r == (self@.uploaded, self@.downloaded),
    {
        (self.state.uploaded, self.state.downloaded)
    }

    /// Whether the peer closed the stream before a receiving phase was complete.
    pub fn was_cut(&self) -> (r: bool)
        ensures
            r == (self@.upload_cut || self@.download_cut),
    {
        self.state.upload_cut || self.state.download_cut
    }

    fn chunk(remaining: u64) -> (r: usize)
        ensures
            r == chunk_for(remaining as int),
    {
        if remaining < CHUNK_SIZE {
            remaining as usize
        } else {
            CHUNK_SIZE as usize
        }
    }

    /// The I/O step to perform next.
    pub fn next_step(&self) -> (st: Step)
        requires
            self.wf(),
        ensures
            self@.is_step(st),
    {
        let s = &self.state;
        match s.phase {
            Phase::UploadSize => if s.role == Role::Server {
                Step::ReadSize
            } else {
                Step::WriteSize(encode_u64(s.upload_size))
            },
            Phase::DownloadSize => if s.role == Role::Server {
                Step::ReadSize
            } else {
                Step::WriteSize(encode_u64(s.download_size))
            },
            Phase::Upload => {
                let c = Self::chunk(s.upload_size - s.uploaded);
                if s.role == Role::Server {
                    Step::Receive(c)
                } else {
                    Step::Send(c)
                }
            },
            Phase::Download => {
                let c = Self::chunk(s.download_size - s.downloaded);
                if s.role == Role::Client {
                    Step::Receive(c)
                } else {
                    Step::Send(c)
                }
            },
            Phase::Finished => Step::Done,
        }
    }

    fn set_size(&mut self, v: u64)
        requires
            old(self).wf(),
            old(self)@.phase == Phase::UploadSize || old(self)@.phase == Phase::DownloadSize,
        ensures
            final(self)@ == old(self)@.with_size(v),
    {
        if self.state.phase == Phase::UploadSize {
            self.state.upload_size = v;
            self.state.phase = if v == 0 {
                Phase::DownloadSize
            } else {
                Phase::Upload
            };
        } else {
            self.state.download_size = v;
            self.state.phase = if v == 0 {
                Phase::Finished
            } else {
                Phase::Download
            };
        }
    }

    /// A server has read the 8 bytes of an announcement.
    pub fn size_read(&mut self, header: [u8; 8])
        requires
            old(self).wf(),
            old(self)@.role == Role::Server,
            old(self)@.phase == Phase::UploadSize || old(self)@.phase == Phase::DownloadSize,
        ensures
            final(self).wf(),
            final(self)@ == old(self)@.with_size(be_value(header@)),
    {
        let v = decode_u64(header);
        self.set_size(v);
    }

    /// A client has written its announcement.
    pub fn size_written(&mut self)
        requires
            old(self).wf(),
            old(self)@.role == Role::Client,
            old(self)@.phase == Phase::UploadSize || old(self)@.phase == Phase::DownloadSize,
        ensures
            final(self).wf(),
            final(self)@ == old(self)@.with_size(old(self)@.announced()),
    {
        let v = if self.state.phase == Phase::UploadSize {
            self.state.upload_size
        } else {
            self.state.download_size
        };
        self.set_size(v);
    }

    fn add_moved(&mut self, n: u64)
        requires
            old(self).wf(),
            old(self)@.phase == Phase::Upload || old(self)@.phase == Phase::Download,
            n <= chunk_for(old(self)@.remaining()),
        ensures
            final(self)@ == old(self)@.after_transfer(n),
    {
        if self.state.phase == Phase::Upload {
            if n == 0 {
                self.state.upload_cut = true;
                self.state.phase = Phase::DownloadSize;
            } else {
                self.state.uploaded = self.state.uploaded + n;
                if self.state.uploaded == self.state.upload_size {
                    self.state.phase = Phase::DownloadSize;
                }
            }
        } else {
            if n == 0 {
                self.state.download_cut = true;
                self.state.phase = Phase::Finished;
            } else {
                self.state.downloaded = self.state.downloaded + n;
                if self.state.downloaded == self.state.download_size {
                    self.state.phase = Phase::Finished;
                }
            }
        }
    }

    /// The receiving side has read `n` payload bytes; `0` means that the peer
    /// closed the stream, which ends the phase early without an error.
    pub fn received(&mut self, n: usize)
        requires
            old(self).wf(),
            old(self)@.receives_in(old(self)@.phase),
            n <= chunk_for(old(self)@.remaining()),
        ensures
            final(self).wf(),
            final(self)@ == old(self)@.after_transfer(n as u64),
    {
        self.add_moved(n as u64);
    }

    /// The sending side has written the `n` payload bytes that were asked for.
    pub fn sent(&mut self, n: usize)
        requires
            old(self).wf(),
            old(self)@.sends_in(old(self)@.phase),
            n == chunk_for(old(self)@.remaining()),
        ensures
            final(self).wf(),
            final(self)@ == old(self)@.after_transfer(n as u64),
    {
        self.add_moved(n as u64);
    }
}

} // verus!
