//! What the command line asks for.
use crate::service::PerfMode;
use vstd::prelude::*;

verus! {

/// The length of a node's secret key, in bytes.
pub const SECRET_KEY_LEN: usize = 32;

/// What to run.
#[derive(Debug)]
pub enum Command {
    /// Serve benchmarks.
    Server(ServerOpts),
    /// Run one benchmark against a server.
    Client(ClientOpts),
    /// Time the opening of substreams to a server.
    ClientSubstream(ClientSubstreamOpts),
}

/// Options of the server.
#[derive(Debug)]
pub struct ServerOpts {
    /// The address to listen on.
    pub listen_address: String,
    /// The text from which the server's secret key, and so its peer id, is
    /// derived.
    pub node_key: String,
}

/// Options of a benchmark client.
#[derive(Debug)]
pub struct ClientOpts {
    /// The server's address.
    pub server_address: String,
    /// Bytes to upload.
    pub upload_bytes: usize,
    /// Bytes to download.
    pub download_bytes: usize,
}

/// Options of a substream-opening client.
#[derive(Debug)]
pub struct ClientSubstreamOpts {
    /// The server's address.
    pub server_address: String,
    /// Substreams to open per connection.
    pub substreams: usize,
}

/// The secret key made of `raw`: its first 32 bytes, padded with zero bytes
/// when it is shorter.
pub open spec fn secret_key_of(raw: Seq<u8>) -> Seq<u8> {
    Seq::new(SECRET_KEY_LEN as nat, |i: int| if i < raw.len() { raw[i] } else { 0u8 })
}

impl ServerOpts {
    /// The server's secret key: the UTF-8 bytes of the node key, truncated or
    /// zero-padded to 32 bytes.
    pub fn secret_key_bytes(&self) -> (r: Vec<u8>)
        ensures
            r@ == secret_key_of(vstd::utf8::encode_utf8(self.node_key@)),
    {
        let raw = self.node_key.as_str().as_bytes();
        let mut key: Vec<u8> = Vec::new();
        let mut i: usize = 0;
        while i < SECRET_KEY_LEN
            invariant
                raw@ == vstd::utf8::encode_utf8(self.node_key@),
                i <= SECRET_KEY_LEN,
                key@.len() == i,
                forall|j: int| 0 <= j < i ==> key@[j] == secret_key_of(raw@)[j],
            decreases SECRET_KEY_LEN - i,
        {
            if i < raw.len() {
                key.push(raw[i]);
            } else {
                key.push(0u8);
            }
            i = i + 1;
        }
        assert(key@ =~= secret_key_of(raw@));
        key
    }
}

impl Command {
    /// The mode of the benchmark service that the command asks for.
    pub fn perf_mode(&self) -> (r: PerfMode)
        ensures
            r == match self {
                Command::Server(_) => PerfMode::Server,
                Command::Client(o) => PerfMode::Client {
                    upload_bytes: o.upload_bytes as u64,
                    download_bytes: o.download_bytes as u64,
                },
                Command::ClientSubstream(o) => PerfMode::ClientSubstream {
                    substreams: o.substreams,
                },
            },
    {
        match self {
            Command::Server(_) => PerfMode::Server,
            Command::Client(o) => PerfMode::Client {
                upload_bytes: o.upload_bytes as u64,
                download_bytes: o.download_bytes as u64,
            },
            Command::ClientSubstream(o) => PerfMode::ClientSubstream { substreams: o.substreams },
        }
    }
}

} // verus!
