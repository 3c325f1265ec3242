//! The eD2k values that the agent works on.

use vstd::prelude::*;
use vstd::string::*;
use crate::ids::{Ed2kHash, Endpoint, Ipv4Addr, SocketAddr};
use crate::publish::emule_connect_options;

verus! {

/// Client IDs below this are low IDs: their owners take no connections.
pub const LOW_ID_LIMIT: u32 = 0x100_0000;

/// A peer that is said to have a file.
#[derive(Debug, Clone, Copy, PartialEq, Eq)]
pub struct Ed2kFoundSource {
    pub file_hash: Ed2kHash,
    pub ip: Ipv4Addr,
    pub tcp_port: u16,
    pub client_id: u32,
    pub low_id: bool,
    pub obfuscated: bool,
    pub obfuscation_options: Option<u8>,
    pub user_hash: Option<[u8; 16]>,
    /// The server that named the peer.
    pub source_server: Option<SocketAddr>,
}

impl Ed2kFoundSource {
    /// Whether the peer can be dialed without a server's help.
    pub open spec fn dialable(self) -> bool {
        !self.low_id && self.tcp_port != 0
    }

    /// Where the peer listens.
    pub open spec fn endpoint_of(self) -> Endpoint {
        Endpoint { ip: self.ip, port: self.tcp_port }
    }

    pub fn is_direct_dialable(&self) -> (r: bool)
        ensures
            r == self.dialable(),
    {
        !self.low_id && self.tcp_port != 0
    }

    pub fn endpoint(&self) -> (r: Endpoint)
        ensures
            r == self.endpoint_of(),
    {
        Endpoint { ip: self.ip, port: self.tcp_port }
    }
}

/// A file that a server search turned up.
#[derive(Debug, PartialEq, Eq)]
pub struct Ed2kSearchFile {
    pub file_hash: Ed2kHash,
    pub file_name: Option<String>,
    pub file_size: Option<u64>,
    pub file_type: Option<String>,
    pub source_count: Option<u32>,
}

/// The settings of the eD2k side that the agent's decisions read.
#[derive(Debug, PartialEq, Eq)]
pub struct Ed2kConfig {
    pub listen_port: u16,
    pub obfuscation_enabled: bool,
    pub server_entries: Vec<String>,
    pub server_endpoints: Vec<String>,
    pub connect_timeout_secs: u64,
    pub keyword_server_attempt_budget: usize,
    pub exact_hash_keyword_server_attempt_budget: usize,
    pub source_server_attempt_budget: usize,
    pub kad_source_supplement_max_existing_sources: usize,
    pub max_parallel_download_peers: usize,
}

/// What is known of the connection to the eD2k server.
#[derive(Debug, Clone, Copy, PartialEq, Eq, Structural)]
pub struct Ed2kServerState {
    pub connected: bool,
    pub endpoint: Option<SocketAddr>,
    pub client_id: Option<u32>,
}

impl Ed2kServerState {
    /// The server's verdict on whether the agent can be reached, once it has given an ID.
    pub open spec fn verdict(self) -> Option<bool> {
        match self.client_id {
            Some(id) => Some(id < LOW_ID_LIMIT),
            None => None,
        }
    }

    /// The server that the agent has a session with, which its searches prefer.
    pub fn session_endpoint(&self) -> (r: Option<SocketAddr>)
        ensures
            r == if self.connected {
                self.endpoint
            } else {
                None
            },
    {
        if self.connected {
            self.endpoint
        } else {
            None
        }
    }

    pub fn tcp_firewalled(&self) -> (r: Option<bool>)
        ensures
            r == self.verdict(),
    {
        match self.client_id {
            Some(id) => Some(id < LOW_ID_LIMIT),
            None => None,
        }
    }
}

impl Default for Ed2kServerState {
    fn default() -> (r: Ed2kServerState)
        ensures
            r == (Ed2kServerState { connected: false, endpoint: None, client_id: None }),
    {
        Ed2kServerState { connected: false, endpoint: None, client_id: None }
    }
}

/// Who the agent says it is to an eD2k peer or server.
#[derive(Debug, Clone, Copy, PartialEq, Eq)]
pub struct Ed2kHelloIdentity {
    pub user_hash: [u8; 16],
    pub client_id: u32,
    pub tcp_port: u16,
    pub udp_port: u16,
    pub server_ip: u32,
    pub server_port: u16,
    pub connect_options: u8,
    pub direct_udp_callback: bool,
}

/// The identity of an agent that has no server yet.
pub fn ed2k_hello_identity_from_config(
    config: &Ed2kConfig,
    kad_listen_port: u16,
    ed2k_user_hash: [u8; 16],
) -> (r: Ed2kHelloIdentity)
    ensures
        r == (Ed2kHelloIdentity {
            user_hash: ed2k_user_hash,
            client_id: 0,
            tcp_port: config.listen_port,
            udp_port: kad_listen_port,
            server_ip: 0,
            server_port: 0,
            connect_options: if config.obfuscation_enabled {
                3
            } else {
                0
            },
            direct_udp_callback: false,
        }),
{
    Ed2kHelloIdentity {
        user_hash: ed2k_user_hash,
        client_id: 0,
        tcp_port: config.listen_port,
        udp_port: kad_listen_port,
        server_ip: 0,
        server_port: 0,
        connect_options: emule_connect_options(config.obfuscation_enabled),
        direct_udp_callback: false,
    }
}

/// One piece of a file under transfer.
#[derive(Debug, Clone, Copy, PartialEq, Eq, Structural)]
pub struct Ed2kPiece {
    pub bytes_written: u64,
}

/// What has been persisted of a transfer.
#[derive(Debug, PartialEq, Eq)]
pub struct Ed2kResumeManifest {
    pub completed: bool,
    pub md4_hashset_acquired: bool,
    /// Verified byte ranges.
    pub verified_ranges: Vec<(u64, u64)>,
    pub pieces: Vec<Ed2kPiece>,
}

impl Ed2kResumeManifest {
    /// Whether anything of the transfer has been persisted.
    pub open spec fn in_progress(self) -> bool {
        self.completed || self.md4_hashset_acquired || self.verified_ranges@.len() > 0 || exists|i: int|
            0 <= i < self.pieces@.len() && (#[trigger] self.pieces@[i]).bytes_written != 0
    }
}

/// Callback-driven downloads can continue after the initial server-side callback request
/// completes. Persisted piece or hashset progress is proof that a real transfer is in flight.
pub fn manifest_has_ed2k_transfer_progress(manifest: &Ed2kResumeManifest) -> (r: bool)
    ensures
        r == manifest.in_progress(),
{
    if manifest.completed || manifest.md4_hashset_acquired || manifest.verified_ranges.len() > 0 {
        return true;
    }
    let mut i: usize = 0;
    while i < manifest.pieces.len()
        invariant
            i <= manifest.pieces.len(),
            forall|j: int| 0 <= j < i ==> (#[trigger] manifest.pieces@[j]).bytes_written == 0,
        decreases manifest.pieces.len() - i,
    {
        if manifest.pieces[i].bytes_written != 0 {
            assert(manifest.pieces@[i as int].bytes_written != 0);
            return true;
        }
        i = i + 1;
    }
    false
}

/// A peer can be dialed exactly where it has a high ID and a port, and then at its own address.
pub proof fn law_dialable(source: &Ed2kFoundSource, r: bool, at: Endpoint)
    requires
        call_ensures(Ed2kFoundSource::is_direct_dialable, (source,), r),
        call_ensures(Ed2kFoundSource::endpoint, (source,), at),
    ensures
        source.low_id ==> !r,
        source.tcp_port == 0 ==> !r,
        !source.low_id && source.tcp_port != 0 ==> r,
        at.ip == source.ip,
        at.port == source.tcp_port,
{
}

/// A server that has given an ID has decided whether the agent is firewalled: an ID below two to the
/// power of twenty-four says so.
pub proof fn law_server_verdict(state: &Ed2kServerState, r: Option<bool>, session: Option<SocketAddr>)
    requires
        call_ensures(Ed2kServerState::tcp_firewalled, (state,), r),
        call_ensures(Ed2kServerState::session_endpoint, (state,), session),
    ensures
        state.client_id is None <==> r is None,
        state.client_id matches Some(id) ==> (r == Some(true) <==> id < 16_777_216),
        !state.connected ==> session is None,
        state.connected ==> session == state.endpoint,
{
}

/// The identity of an agent without a server names its own ports and user hash, and no server.
pub proof fn law_identity_without_server(
    config: &Ed2kConfig,
    kad_listen_port: u16,
    user_hash: [u8; 16],
    r: Ed2kHelloIdentity,
)
    requires
        call_ensures(ed2k_hello_identity_from_config, (config, kad_listen_port, user_hash), r),
    ensures
        r.user_hash == user_hash,
        r.tcp_port == config.listen_port,
        r.udp_port == kad_listen_port,
        r.client_id == 0 && r.server_ip == 0 && r.server_port == 0,
        !r.direct_udp_callback,
        config.obfuscation_enabled ==> r.connect_options == 3,
        !config.obfuscation_enabled ==> r.connect_options == 0,
{
}

/// A transfer without progress has nothing persisted at all; a single written byte, verified range or
/// hash set is progress.
pub proof fn law_transfer_progress(manifest: &Ed2kResumeManifest, r: bool, i: int)
    requires
        call_ensures(manifest_has_ed2k_transfer_progress, (manifest,), r),
    ensures
        !r ==> !manifest.completed && !manifest.md4_hashset_acquired && manifest.verified_ranges@.len() == 0,
        !r && 0 <= i < manifest.pieces@.len() ==> manifest.pieces@[i].bytes_written == 0,
        manifest.completed || manifest.md4_hashset_acquired || manifest.verified_ranges@.len() > 0 ==> r,
        0 <= i < manifest.pieces@.len() && manifest.pieces@[i].bytes_written > 0 ==> r,
        !manifest.completed && !manifest.md4_hashset_acquired && manifest.verified_ranges@.len() == 0 && (
        forall|j: int| 0 <= j < manifest.pieces@.len() ==> (#[trigger] manifest.pieces@[j]).bytes_written == 0)
            ==> !r,
{
}

} // verus!
