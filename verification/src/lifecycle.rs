//! What the agent keeps between runs, and how a run starts and ends.

use vstd::prelude::*;
use vstd::string::*;
use crate::ids;
use crate::ids::{IpAddr, Ipv4Addr, NodeId, SocketAddr, Uuid};
use crate::kad::Contact;
use crate::kad_firewall::TransportProtocol;
use crate::random;
use crate::random::{draw_bytes16, draw_udp_key, draw_uuid};
use crate::text;
use crate::text::{chars_of, decimal_text, joined, trim_text};
use crate::types;
use crate::types::AgentExit;

verus! {

broadcast use vstd::string::group_string_axioms;

/// Where a file of the agent lies.
#[derive(Debug, PartialEq, Eq)]
pub enum StatePath {
    /// In the state directory, under that name.
    InStateDir(String),
    /// Where the configuration says.
    Configured(String),
}

/// What a [`StatePath`] stands for.
pub enum StatePathView {
    InStateDir(Seq<char>),
    Configured(Seq<char>),
}

impl View for StatePath {
    type V = StatePathView;

    open spec fn view(&self) -> StatePathView {
        match self {
            StatePath::InStateDir(name) => StatePathView::InStateDir(name@),
            StatePath::Configured(path) => StatePathView::Configured(path@),
        }
    }
}

/// Where the agent keeps its state.
#[derive(Debug, PartialEq, Eq)]
pub struct AgentStatePaths {
    pub node_id_path: StatePath,
    pub udp_key_path: StatePath,
    pub ed2k_user_hash_path: StatePath,
    pub ed2k_secure_ident_path: StatePath,
    pub ed2k_transfer_root: StatePath,
    pub nodes_dat_path: StatePath,
    pub networking_config_path: StatePath,
}

impl AgentStatePaths {
    /// All files lie in the state directory; only the list of nodes may be elsewhere.
    pub fn from_config(configured_nodes_dat: &str) -> (r: AgentStatePaths)
        ensures
            r.node_id_path@ == StatePathView::InStateDir("overlord-kad.node-id"@),
            r.udp_key_path@ == StatePathView::InStateDir("overlord-kad.udp-key"@),
            r.ed2k_user_hash_path@ == StatePathView::InStateDir("overlord-ed2k.user-hash.bin"@),
            r.ed2k_secure_ident_path@ == StatePathView::InStateDir("overlord-ed2k.secident.pkcs8.der"@),
            r.ed2k_transfer_root@ == StatePathView::InStateDir("overlord-ed2k-transfer"@),
            r.networking_config_path@ == StatePathView::InStateDir("overlord-agent.networking.json"@),
            r.nodes_dat_path@ == if text::trimmed(configured_nodes_dat@).len() == 0 {
                StatePathView::InStateDir("overlord-kad.nodes.dat"@)
            } else {
                StatePathView::Configured(configured_nodes_dat@)
            },
    {
        let trimmed: String = trim_text(configured_nodes_dat);
        let nodes_dat_path: StatePath = if trimmed.as_str().unicode_len() == 0 {
            StatePath::InStateDir("overlord-kad.nodes.dat".to_owned())
        } else {
            StatePath::Configured(configured_nodes_dat.to_owned())
        };
        AgentStatePaths {
            node_id_path: StatePath::InStateDir("overlord-kad.node-id".to_owned()),
            udp_key_path: StatePath::InStateDir("overlord-kad.udp-key".to_owned()),
            ed2k_user_hash_path: StatePath::InStateDir("overlord-ed2k.user-hash.bin".to_owned()),
            ed2k_secure_ident_path: StatePath::InStateDir("overlord-ed2k.secident.pkcs8.der".to_owned()),
            ed2k_transfer_root: StatePath::InStateDir("overlord-ed2k-transfer".to_owned()),
            nodes_dat_path,
            networking_config_path: StatePath::InStateDir("overlord-agent.networking.json".to_owned()),
        }
    }
}

/// Why a stored identity cannot be used.
#[derive(Debug, Clone, Copy, PartialEq, Eq, Structural)]
pub enum StoredIdentityError {
    InvalidUuid,
    InvalidNodeId,
    InvalidUdpKey,
}

impl StoredIdentityError {
    /// The text of the error for a file at `path`.
    pub open spec fn text(self, path: Seq<char>) -> Seq<char> {
        match self {
            StoredIdentityError::InvalidUuid => "invalid uuid in "@ + path,
            StoredIdentityError::InvalidNodeId => "invalid node id in "@ + path,
            StoredIdentityError::InvalidUdpKey => "invalid udp key in "@ + path,
        }
    }

    pub fn message(self, path: &str) -> (r: String)
        ensures
            r@ == self.text(path@),
    {
        match self {
            StoredIdentityError::InvalidUuid => joined("invalid uuid in ", path),
            StoredIdentityError::InvalidNodeId => joined("invalid node id in ", path),
            StoredIdentityError::InvalidUdpKey => joined("invalid udp key in ", path),
        }
    }
}

/// The identifier that a stored text spells, whitespace around it aside.
pub open spec fn stored_uuid(contents: Seq<char>) -> Option<u128> {
    ids::parsed_uuid(text::trimmed(contents))
}

proof fn lemma_hex_solid(bytes: Seq<u8>)
    ensures
        forall|i: int|
            0 <= i < text::hex_text(bytes).len() ==> !text::char_is_whitespace(
                #[trigger] text::hex_text(bytes)[i],
            ),
{
    assert forall|i: int| 0 <= i < text::hex_text(bytes).len() implies !text::char_is_whitespace(
        #[trigger] text::hex_text(bytes)[i],
    ) by {
        let b = bytes[i / 2] as int;
        assert(0 <= b / 16 < 16 && 0 <= b % 16 < 16);
    }
}

proof fn lemma_uuid_text_solid(id: Uuid)
    ensures
        text::trimmed(ids::uuid_text(id)) == ids::uuid_text(id),
{
    let digits = text::hex_text(ids::be_bytes(id.0));
    lemma_hex_solid(ids::be_bytes(id.0));
    let t = ids::uuid_text(id);
    assert forall|i: int| 0 <= i < t.len() implies !text::char_is_whitespace(#[trigger] t[i]) by {
        if i < 8 {
            assert(t[i] == digits[i]);
        } else if i == 8 {
        } else if i < 13 {
            assert(t[i] == digits[i - 1]);
        } else if i == 13 {
        } else if i < 18 {
            assert(t[i] == digits[i - 2]);
        } else if i == 18 {
        } else if i < 23 {
            assert(t[i] == digits[i - 3]);
        } else if i == 23 {
        } else {
            assert(t[i] == digits[i - 4]);
        }
    }
    text::lemma_trimmed_solid(t);
}

/// The agent's identifier, and the text to store where it is new.
#[derive(Debug, PartialEq, Eq)]
pub struct IndexerIdentity {
    pub id: Uuid,
    pub write: Option<String>,
}

/// Reads the agent's identifier, or makes a new one where none is stored. What is stored of a new
/// one is read back as the same.
pub fn load_or_create_indexer_id(stored: Option<&str>) -> (r: Result<IndexerIdentity, StoredIdentityError>)
    ensures
        match stored {
            Some(contents) => match r {
                Ok(identity) => stored_uuid(contents@) == Some(identity.id.0) && identity.write is None,
                Err(error) => stored_uuid(contents@) is None && error is InvalidUuid,
            },
            None => {
                &&& r matches Ok(identity)
                &&& random::is_uuid_v4(identity.id.0)
                &&& identity.write matches Some(contents)
                &&& contents@ == ids::uuid_text(identity.id)
                &&& stored_uuid(contents@) == Some(identity.id.0)
            },
        },
{
    match stored {
        Some(contents) => {
            let trimmed: String = trim_text(contents);
            match Uuid::parse_str(trimmed.as_str()) {
                Some(id) => Ok(IndexerIdentity { id, write: None }),
                None => Err(StoredIdentityError::InvalidUuid),
            }
        },
        None => {
            let id: Uuid = draw_uuid();
            let contents: String = id.to_text();
            proof {
                lemma_uuid_text_solid(id);
            }
            Ok(IndexerIdentity { id, write: Some(contents) })
        },
    }
}

/// The node identity, and the text to store where it is new.
#[derive(Debug, PartialEq, Eq)]
pub struct NodeIdentity {
    pub node_id: NodeId,
    pub write: Option<String>,
}

/// Whether a stored text spells that node identity, whitespace around it aside.
pub open spec fn stored_node_id(contents: Seq<char>, node_id: NodeId) -> bool {
    ids::is_hash_text(text::trimmed(contents)) && node_id.0@ == text::hex_bytes(text::trimmed(contents))
}

/// The identity that `bytes` make, and the text to store of it.
pub fn new_node_identity(bytes: [u8; 16]) -> (r: NodeIdentity)
    ensures
        r.node_id == NodeId(bytes),
        r.write matches Some(contents) && contents@ == text::hex_text(bytes@) && stored_node_id(
            contents@,
            NodeId(bytes),
        ),
{
    let node_id: NodeId = NodeId::from_bytes(bytes);
    let contents: String = node_id.to_text();
    proof {
        lemma_hex_solid(bytes@);
        text::lemma_trimmed_solid(contents@);
        ids::law_hex_round_trip(bytes@);
    }
    NodeIdentity { node_id, write: Some(contents) }
}

/// Reads the node identity, or makes a random one where none is stored. What is stored of a new
/// one is read back as the same.
pub fn load_or_create_node_id(stored: Option<&str>) -> (r: Result<NodeIdentity, StoredIdentityError>)
    ensures
        match stored {
            Some(contents) => match r {
                Ok(identity) => stored_node_id(contents@, identity.node_id) && identity.write is None,
                Err(error) => !ids::is_hash_text(text::trimmed(contents@)) && error is InvalidNodeId,
            },
            None => {
                &&& r matches Ok(identity)
                &&& identity.write matches Some(contents)
                &&& contents@ == text::hex_text(identity.node_id.0@)
                &&& stored_node_id(contents@, identity.node_id)
            },
        },
{
    match stored {
        Some(contents) => {
            let trimmed: String = trim_text(contents);
            match NodeId::from_text(trimmed.as_str()) {
                Some(node_id) => Ok(NodeIdentity { node_id, write: None }),
                None => Err(StoredIdentityError::InvalidNodeId),
            }
        },
        None => Ok(new_node_identity(draw_bytes16())),
    }
}

/// The value of a run of decimal digits.
pub open spec fn digits_value(digits: Seq<char>) -> nat
    decreases digits.len(),
{
    if digits.len() == 0 {
        0
    } else {
        digits_value(digits.drop_last()) * 10 + (digits.last() as int - 48) as nat
    }
}

/// Whether a text is decimal digits, one at least.
pub open spec fn is_digits(s: Seq<char>) -> bool {
    s.len() > 0 && forall|i: int| 0 <= i < s.len() ==> '0' <= #[trigger] s[i] && s[i] <= '9'
}

/// A text without a leading plus sign.
pub open spec fn unsigned_part(s: Seq<char>) -> Seq<char> {
    if s.len() > 0 && s[0] == '+' {
        s.skip(1)
    } else {
        s
    }
}

/// The number of 32 bits that a text spells.
pub open spec fn parsed_u32(s: Seq<char>) -> Option<u32> {
    let digits = unsigned_part(s);
    if is_digits(digits) && digits_value(digits) <= u32::MAX {
        Some(digits_value(digits) as u32)
    } else {
        None
    }
}

proof fn lemma_digits_value_grows(digits: Seq<char>, n: int)
    requires
        0 <= n <= digits.len(),
        forall|i: int| 0 <= i < digits.len() ==> '0' <= #[trigger] digits[i] && digits[i] <= '9',
    ensures
        digits_value(digits.take(n)) <= digits_value(digits),
    decreases digits.len(),
{
    if n < digits.len() {
        let init = digits.drop_last();
        assert(init.take(n) =~= digits.take(n));
        lemma_digits_value_grows(init, n);
    } else {
        assert(digits.take(n) =~= digits);
    }
}

fn digit_of(c: char) -> (r: Option<u32>)
    ensures
        r == if '0' <= c && c <= '9' {
            Some((c as int - 48) as u32)
        } else {
            None
        },
{
    let n: u32 = c as u32;
    if 48 <= n && n <= 57 {
        Some(n - 48)
    } else {
        None
    }
}

/// The number of 32 bits that a text spells in decimal.
pub fn parse_u32(s: &str) -> (r: Option<u32>)
    ensures
        r == parsed_u32(s@),
{
    let chars: Vec<char> = chars_of(s);
    let from: usize = if chars.len() > 0 && chars[0] == '+' {
        1
    } else {
        0
    };
    let ghost digits = unsigned_part(s@);
    assert(digits =~= s@.skip(from as int));
    if chars.len() == from {
        return None;
    }
    let mut value: u32 = 0;
    let mut i: usize = from;
    while i < chars.len()
        invariant
            from <= i <= chars.len(),
            chars@ == s@,
            digits == unsigned_part(s@),
            digits == s@.skip(from as int),
            value == digits_value(digits.take(i - from)),
            forall|j: int| 0 <= j < i - from ==> '0' <= #[trigger] digits[j] && digits[j] <= '9',
        decreases chars.len() - i,
    {
        let ghost k = i - from;
        proof {
            assert(digits.take(k + 1).drop_last() =~= digits.take(k));
            assert(digits.take(k + 1).last() == digits[k]);
            assert(digits[k] == chars@[i as int]);
        }
        match digit_of(chars[i]) {
            Some(digit) => {
                let wide: u64 = (value as u64) * 10 + digit as u64;
                assert(wide == digits_value(digits.take(k + 1)));
                if wide > 0xFFFF_FFFF {
                    proof {
                        if is_digits(digits) {
                            lemma_digits_value_grows(digits, k + 1);
                        }
                    }
                    return None;
                }
                value = wide as u32;
            },
            None => {
                return None;
            },
        }
        i = i + 1;
    }
    assert(digits.take(i - from) =~= digits);
    Some(value)
}

proof fn lemma_decimal_digits(n: nat)
    ensures
        is_digits(text::decimal(n)),
        digits_value(text::decimal(n)) == n,
    decreases n,
{
    let t = text::decimal(n);
    if n >= 10 {
        lemma_decimal_digits(n / 10);
        assert(t.drop_last() =~= text::decimal(n / 10));
        assert forall|i: int| 0 <= i < t.len() implies '0' <= #[trigger] t[i] && t[i] <= '9' by {
            if i < t.len() - 1 {
                assert(t[i] == text::decimal(n / 10)[i]);
            }
        }
    } else {
        assert(t.drop_last() =~= Seq::empty());
        assert(digits_value(t.drop_last()) == 0);
        assert(t.last() as int == 48 + n);
    }
}

/// A number that is stored in decimal is read back as the same.
pub proof fn law_udp_key_round_trip(key: u32)
    ensures
        parsed_u32(text::trimmed(text::decimal(key as nat))) == Some(key),
{
    let t = text::decimal(key as nat);
    lemma_decimal_digits(key as nat);
    text::lemma_trimmed_solid(t);
    assert(t[0] >= '0');
    assert(unsigned_part(t) == t);
}

/// The node's UDP key, and the text to store where it is new.
#[derive(Debug, PartialEq, Eq)]
pub struct UdpKeyIdentity {
    pub udp_key: u32,
    pub write: Option<String>,
}

/// Reads the node's UDP key, or makes a random one where none is stored. What is stored of a new
/// one is read back as the same.
pub fn load_or_create_udp_key(stored: Option<&str>) -> (r: Result<UdpKeyIdentity, StoredIdentityError>)
    ensures
        match stored {
            Some(contents) => match r {
                Ok(identity) => parsed_u32(text::trimmed(contents@)) == Some(identity.udp_key)
                    && identity.write is None,
                Err(error) => parsed_u32(text::trimmed(contents@)) is None && error is InvalidUdpKey,
            },
            None => {
                &&& r matches Ok(identity)
                &&& identity.write matches Some(contents)
                &&& contents@ == text::decimal(identity.udp_key as nat)
                &&& parsed_u32(text::trimmed(contents@)) == Some(identity.udp_key)
            },
        },
{
    match stored {
        Some(contents) => {
            let trimmed: String = trim_text(contents);
            match parse_u32(trimmed.as_str()) {
                Some(udp_key) => Ok(UdpKeyIdentity { udp_key, write: None }),
                None => Err(StoredIdentityError::InvalidUdpKey),
            }
        },
        None => {
            let udp_key: u32 = draw_udp_key();
            let contents: String = decimal_text(udp_key as u128);
            proof {
                law_udp_key_round_trip(udp_key);
            }
            Ok(UdpKeyIdentity { udp_key, write: Some(contents) })
        },
    }
}

/// A contact as it is stored for the next run.
#[derive(Debug, Clone, Copy, PartialEq, Eq)]
pub struct BootstrapContact {
    pub node_id: NodeId,
    pub ip: Ipv4Addr,
    pub udp_port: u16,
    pub tcp_port: u16,
    pub version: u8,
    pub udp_key: u32,
}

/// The stored form of a contact; a key that the node itself knows of the peer counts for more than
/// the one in the routing table.
pub fn bootstrap_contact(contact: &Contact, known_key: Option<u32>) -> (r: BootstrapContact)
    ensures
        r == (BootstrapContact {
            node_id: contact.id,
            ip: contact.ip,
            udp_port: contact.udp_port,
            tcp_port: contact.tcp_port,
            version: contact.kad_version,
            udp_key: match known_key {
                Some(key) => key,
                None => contact.udp_key,
            },
        }),
{
    BootstrapContact {
        node_id: contact.id,
        ip: contact.ip,
        udp_port: contact.udp_port,
        tcp_port: contact.tcp_port,
        version: contact.kad_version,
        udp_key: match known_key {
            Some(key) => key,
            None => contact.udp_key,
        },
    }
}

/// Where a socket is bound: on that address, or on all.
pub fn resolved_socket_addr(listen_port: u16, bind_ip: Option<IpAddr>) -> (r: SocketAddr)
    ensures
        r == (SocketAddr {
            ip: match bind_ip {
                Some(ip) => ip,
                None => IpAddr::V4(Ipv4Addr { a: 0, b: 0, c: 0, d: 0 }),
            },
            port: listen_port,
        }),
{
    SocketAddr {
        ip: match bind_ip {
            Some(ip) => ip,
            None => IpAddr::V4(Ipv4Addr { a: 0, b: 0, c: 0, d: 0 }),
        },
        port: listen_port,
    }
}

#[derive(Debug, Clone, Copy, PartialEq, Eq, Structural)]
pub enum MappingExposure {
    Required,
    Preferred,
}

/// A port mapping that the NAT is asked for.
#[derive(Debug, PartialEq, Eq)]
pub struct MappingSpec {
    pub name: String,
    pub local_addr: SocketAddr,
    pub protocol: TransportProtocol,
    pub exposure: MappingExposure,
    pub preferred_external_port: Option<u16>,
}

/// Whether a mapping is asked for under that name, for a socket on that port.
pub open spec fn asks_for(
    mapping: MappingSpec,
    name: Seq<char>,
    port: u16,
    bind_ip: Option<IpAddr>,
    protocol: TransportProtocol,
    exposure: MappingExposure,
) -> bool {
    &&& mapping.name@ == name
    &&& mapping.local_addr.port == port
    &&& mapping.local_addr.ip == match bind_ip {
        Some(ip) => ip,
        None => IpAddr::V4(Ipv4Addr { a: 0, b: 0, c: 0, d: 0 }),
    }
    &&& mapping.protocol == protocol
    &&& mapping.exposure == exposure
    &&& mapping.preferred_external_port is None
}

/// The port mappings of the agent: Kad's socket has to be reachable, and eD2k's should be.
pub fn nat_mappings_from_config(kad_listen_port: u16, ed2k_listen_port: u16, bind_ip: Option<IpAddr>) -> (r: Vec<
    MappingSpec,
>)
    ensures
        r@.len() == 2,
        asks_for(
            r@[0],
            "kad"@,
            kad_listen_port,
            bind_ip,
            TransportProtocol::Udp,
            MappingExposure::Required,
        ),
        asks_for(
            r@[1],
            "ed2k"@,
            ed2k_listen_port,
            bind_ip,
            TransportProtocol::Tcp,
            MappingExposure::Preferred,
        ),
{
    let mut mappings: Vec<MappingSpec> = Vec::new();
    mappings.push(
        MappingSpec {
            name: "kad".to_owned(),
            local_addr: resolved_socket_addr(kad_listen_port, bind_ip),
            protocol: TransportProtocol::Udp,
            exposure: MappingExposure::Required,
            preferred_external_port: None,
        },
    );
    mappings.push(
        MappingSpec {
            name: "ed2k".to_owned(),
            local_addr: resolved_socket_addr(ed2k_listen_port, bind_ip),
            protocol: TransportProtocol::Tcp,
            exposure: MappingExposure::Preferred,
            preferred_external_port: None,
        },
    );
    mappings
}

/// The order in which the ways of mapping a port are tried: the configured one, or the default
/// where none is configured.
pub fn nat_backend_order(configured: Vec<String>, default_order: Vec<String>) -> (r: Vec<String>)
    ensures
        r@ == if configured@.len() == 0 {
            default_order@
        } else {
            configured@
        },
{
    if configured.len() == 0 {
        default_order
    } else {
        configured
    }
}

/// The lines of a list, parted by line feeds.
pub open spec fn joined_lines(lines: Seq<Seq<char>>) -> Seq<char>
    decreases lines.len(),
{
    if lines.len() == 0 {
        Seq::empty()
    } else if lines.len() == 1 {
        lines[0]
    } else {
        joined_lines(lines.drop_last()) + "\n"@ + lines.last()
    }
}

/// The configured bootstrap nodes as one text, where there are any.
pub fn bootstrap_nodes_text(nodes: &Vec<String>) -> (r: Option<String>)
    ensures
        types::opt_text(r) == if nodes@.len() == 0 {
            None
        } else {
            Some(joined_lines(types::texts(nodes@)))
        },
{
    if nodes.len() == 0 {
        return None;
    }
    let ghost lines = types::texts(nodes@);
    let mut r: String = nodes[0].clone();
    let mut i: usize = 1;
    assert(lines.take(1)[0] == nodes@[0]@);
    while i < nodes.len()
        invariant
            1 <= i <= nodes.len(),
            lines == types::texts(nodes@),
            r@ == joined_lines(lines.take(i as int)),
        decreases nodes.len() - i,
    {
        proof {
            assert(lines.take(i + 1).drop_last() =~= lines.take(i as int));
            assert(lines.take(i + 1).last() == nodes@[i as int]@);
        }
        r.append("\n");
        r.append(nodes[i].as_str());
        i = i + 1;
    }
    assert(lines.take(i as int) =~= lines);
    Some(r)
}

fn is_blank(value: &Option<String>) -> (r: bool)
    ensures
        r == match *value {
            Some(value) => text::trimmed(value@).len() == 0,
            None => true,
        },
{
    match value {
        Some(value) => {
            let trimmed: String = trim_text(value.as_str());
            trimmed.as_str().unicode_len() == 0
        },
        None => true,
    }
}

/// Whether an optional text is missing or blank.
pub open spec fn blank(value: Option<String>) -> bool {
    match value {
        Some(value) => text::trimmed(value@).len() == 0,
        None => true,
    }
}

/// Whether the address of the chosen interface is looked up again before a request is served: the
/// choice is confirmed, it names an interface and no address, and the network is up.
pub fn watches_interface(selection_confirmed: bool, bind_ip: &Option<String>, bind_iface: &Option<String>, running: bool) -> (r:
    bool)
    ensures
        r == (selection_confirmed && blank(*bind_ip) && !blank(*bind_iface) && running),
{
    selection_confirmed && is_blank(bind_ip) && !is_blank(bind_iface) && running
}

/// What becomes of the network when the interface choice has been resolved.
#[derive(Debug, PartialEq, Eq)]
pub enum ReconcilePlan {
    /// There is no interface to run on.
    Stop,
    /// Run on that address, in place of whatever runs.
    Restart { bind_ip: String },
}

/// Decides what becomes of the network: it runs only on a confirmed choice that has an address.
pub fn plan_reconcile(selection_confirmed: bool, bind_ip: Option<String>) -> (r: ReconcilePlan)
    ensures
        r == match bind_ip {
            Some(bind_ip) => if selection_confirmed {
                ReconcilePlan::Restart { bind_ip }
            } else {
                ReconcilePlan::Stop
            },
            None => ReconcilePlan::Stop,
        },
{
    if !selection_confirmed {
        return ReconcilePlan::Stop;
    }
    match bind_ip {
        Some(bind_ip) => ReconcilePlan::Restart { bind_ip },
        None => ReconcilePlan::Stop,
    }
}

/// What a change of the networking configuration came to.
#[derive(Debug, Clone, Copy, PartialEq, Eq, Structural)]
pub enum NetworkingConfigApplyOutcome {
    Unchanged,
    ReconciledInPlace,
    RestartRequired,
}

/// What the agent does after it has tried to reach the coordinator at startup.
#[derive(Debug, Clone, Copy, PartialEq, Eq, Structural)]
pub enum StartupPlan {
    /// Stop, and ask to be started again.
    RestartNow,
    /// Serve; `reconnect` is whether the coordinator is still to be reached.
    Serve { reconnect: bool },
}

/// Decides how to go on: the coordinator's configuration may change the control endpoint, which
/// takes a restart, and an unreachable coordinator is tried again while the agent serves.
/// `connected` is `None` where the coordinator was not reached.
pub fn plan_startup(connected: Option<NetworkingConfigApplyOutcome>) -> (r: StartupPlan)
    ensures
        r == match connected {
            Some(NetworkingConfigApplyOutcome::RestartRequired) => StartupPlan::RestartNow,
            Some(_) => StartupPlan::Serve { reconnect: false },
            None => StartupPlan::Serve { reconnect: true },
        },
{
    match connected {
        Some(NetworkingConfigApplyOutcome::RestartRequired) => StartupPlan::RestartNow,
        Some(NetworkingConfigApplyOutcome::Unchanged) => StartupPlan::Serve { reconnect: false },
        Some(NetworkingConfigApplyOutcome::ReconciledInPlace) => StartupPlan::Serve { reconnect: false },
        None => StartupPlan::Serve { reconnect: true },
    }
}

/// How the agent exits.
pub fn agent_exit(restart_requested: bool) -> (r: AgentExit)
    ensures
        r == if restart_requested {
            AgentExit::RestartRequested
        } else {
            AgentExit::Stopped
        },
{
    if restart_requested {
        AgentExit::RestartRequested
    } else {
        AgentExit::Stopped
    }
}

/// How many downloads may run at once: one at least.
pub fn download_slots(max_concurrent_downloads: usize) -> (r: usize)
    ensures
        r == if max_concurrent_downloads == 0 {
            1
        } else {
            max_concurrent_downloads
        },
{
    if max_concurrent_downloads == 0 {
        1
    } else {
        max_concurrent_downloads
    }
}

/// The agent's files lie in its state directory, each under a name of its own; only the list of nodes
/// lies elsewhere where the configuration says so.
pub proof fn law_state_paths(configured: &str, r: AgentStatePaths)
    requires
        call_ensures(AgentStatePaths::from_config, (configured,), r),
    ensures
        r.node_id_path is InStateDir && r.udp_key_path is InStateDir && r.ed2k_user_hash_path is InStateDir,
        r.ed2k_secure_ident_path is InStateDir && r.ed2k_transfer_root is InStateDir,
        r.networking_config_path is InStateDir,
        r.nodes_dat_path is Configured <==> text::trimmed(configured@).len() > 0,
        r.nodes_dat_path matches StatePath::Configured(path) ==> path@ == configured@,
        r.nodes_dat_path matches StatePath::InStateDir(name) ==> name@ == "overlord-kad.nodes.dat"@,
        r.node_id_path matches StatePath::InStateDir(name) && name@ == "overlord-kad.node-id"@,
        r.udp_key_path matches StatePath::InStateDir(name) && name@ == "overlord-kad.udp-key"@,
        r.ed2k_user_hash_path matches StatePath::InStateDir(name) && name@ == "overlord-ed2k.user-hash.bin"@,
        r.ed2k_secure_ident_path matches StatePath::InStateDir(name) && name@ == "overlord-ed2k.secident.pkcs8.der"@,
        r.ed2k_transfer_root matches StatePath::InStateDir(name) && name@ == "overlord-ed2k-transfer"@,
        r.networking_config_path matches StatePath::InStateDir(name) && name@ == "overlord-agent.networking.json"@,
{
}

/// What is wrong with a stored identity is said with the file that it is in.
pub proof fn law_identity_messages(error: StoredIdentityError, path: &str, r: String)
    requires
        call_ensures(StoredIdentityError::message, (error, path), r),
    ensures
        error is InvalidUuid ==> r@ == "invalid uuid in "@ + path@,
        error is InvalidNodeId ==> r@ == "invalid node id in "@ + path@,
        error is InvalidUdpKey ==> r@ == "invalid udp key in "@ + path@,
{
}

/// A stored identifier is used as it is and not stored again; a new one is stored as the text that
/// the next run reads it from.
pub proof fn law_indexer_identity(
    made: Result<IndexerIdentity, StoredIdentityError>,
    contents: &str,
    read: Result<IndexerIdentity, StoredIdentityError>,
)
    requires
        call_ensures(load_or_create_indexer_id, (None::<&str>,), made),
        made matches Ok(identity) ==> (identity.write matches Some(written) ==> written@ == contents@),
        call_ensures(load_or_create_indexer_id, (Some(contents),), read),
    ensures
        made matches Ok(new) && new.write is Some,
        read matches Ok(kept) && kept.write is None,
        made matches Ok(new) ==> (read matches Ok(kept) && kept.id == new.id),
{
}

/// A stored node identity is used as it is and not stored again; one made of sixteen bytes is these
/// bytes, and the next run reads it back. What is not 32 hexadecimal digits is refused.
pub proof fn law_node_identity(
    bytes: [u8; 16],
    new: NodeIdentity,
    made: Result<NodeIdentity, StoredIdentityError>,
    contents: &str,
    read: Result<NodeIdentity, StoredIdentityError>,
    other: &str,
    other_read: Result<NodeIdentity, StoredIdentityError>,
)
    requires
        call_ensures(new_node_identity, (bytes,), new),
        new.write matches Some(written) ==> written@ == contents@,
        call_ensures(load_or_create_node_id, (None::<&str>,), made),
        call_ensures(load_or_create_node_id, (Some(contents),), read),
        call_ensures(load_or_create_node_id, (Some(other),), other_read),
    ensures
        new.node_id.0@ == bytes@,
        new.write is Some,
        made matches Ok(fresh) && fresh.write is Some,
        read matches Ok(kept) && kept.write is None && kept.node_id.0@ == bytes@,
        text::trimmed(other@).len() != 32 ==> (other_read matches Err(error) && error is InvalidNodeId),
{
    lemma_hex_solid(bytes@);
    ids::law_hex_round_trip(bytes@);
    assert(ids::is_hash_text(text::trimmed(contents@)));
}

/// A text of decimal digits, with a plus sign before them or without, is the number that they spell
/// where that takes no more than 32 bits; anything else is none.
pub proof fn law_parse_u32(s: &str, r: Option<u32>, digits: Seq<char>)
    requires
        call_ensures(parse_u32, (s,), r),
        digits == if s@.len() > 0 && s@[0] == '+' {
            s@.skip(1)
        } else {
            s@
        },
    ensures
        digits.len() == 0 ==> r is None,
        (exists|i: int| 0 <= i < digits.len() && !('0' <= #[trigger] digits[i] && digits[i] <= '9')) ==> r is None,
        digits.len() > 0 && (forall|i: int|
            0 <= i < digits.len() ==> '0' <= #[trigger] digits[i] && digits[i] <= '9') ==> {
            &&& text::digits_value(digits) <= u32::MAX ==> r == Some(text::digits_value(digits) as u32)
            &&& text::digits_value(digits) > u32::MAX ==> r is None
        },
{
    if forall|i: int| 0 <= i < digits.len() ==> '0' <= #[trigger] digits[i] && digits[i] <= '9' {
        lemma_same_digits_value(digits);
    }
}

proof fn lemma_same_digits_value(digits: Seq<char>)
    requires
        forall|i: int| 0 <= i < digits.len() ==> '0' <= #[trigger] digits[i] && digits[i] <= '9',
    ensures
        digits_value(digits) == text::digits_value(digits),
    decreases digits.len(),
{
    if digits.len() > 0 {
        lemma_same_digits_value(digits.drop_last());
        assert('0' <= digits[digits.len() - 1]);
    }
}

/// A stored key is used as it is and not stored again; a new one is stored in decimal, and the next
/// run reads it back.
pub proof fn law_udp_key(
    made: Result<UdpKeyIdentity, StoredIdentityError>,
    contents: &str,
    read: Result<UdpKeyIdentity, StoredIdentityError>,
)
    requires
        call_ensures(load_or_create_udp_key, (None::<&str>,), made),
        made matches Ok(identity) ==> (identity.write matches Some(written) ==> written@ == contents@),
        call_ensures(load_or_create_udp_key, (Some(contents),), read),
    ensures
        made matches Ok(new) && new.write is Some,
        read matches Ok(kept) && kept.write is None,
        made matches Ok(new) ==> (read matches Ok(kept) && kept.udp_key == new.udp_key),
        made matches Ok(new) ==> text::digits_value(contents@) == new.udp_key,
{
    if let Ok(new) = made {
        text::law_decimal(new.udp_key as nat);
    }
}

/// A contact is stored with its identity, address, ports and version, and with the key that the node
/// knows of it, or else the one of the routing table.
pub proof fn law_stored_contact(contact: &Contact, known: Option<u32>, r: BootstrapContact)
    requires
        call_ensures(bootstrap_contact, (contact, known), r),
    ensures
        r.node_id == contact.id,
        r.ip == contact.ip,
        r.udp_port == contact.udp_port,
        r.tcp_port == contact.tcp_port,
        r.version == contact.kad_version,
        known matches Some(key) ==> r.udp_key == key,
        known is None ==> r.udp_key == contact.udp_key,
{
}

/// A socket is bound on its port, on the chosen address or on all; the NAT is asked for Kad's by UDP,
/// which is required, and for eD2k's by TCP, which is preferred, at no external port in particular.
pub proof fn law_sockets(
    kad_port: u16,
    ed2k_port: u16,
    bind_ip: Option<IpAddr>,
    kad: SocketAddr,
    ed2k: SocketAddr,
    r: Vec<MappingSpec>,
)
    requires
        call_ensures(resolved_socket_addr, (kad_port, bind_ip), kad),
        call_ensures(resolved_socket_addr, (ed2k_port, bind_ip), ed2k),
        call_ensures(nat_mappings_from_config, (kad_port, ed2k_port, bind_ip), r),
    ensures
        kad.port == kad_port && ed2k.port == ed2k_port,
        bind_ip matches Some(ip) ==> kad.ip == ip,
        bind_ip is None ==> (kad.ip matches IpAddr::V4(ip) && ip.a == 0 && ip.b == 0 && ip.c == 0 && ip.d == 0),
        r@.len() == 2,
        r@[0].name@ == "kad"@ && r@[0].protocol is Udp && r@[0].exposure is Required && r@[0].local_addr == kad,
        r@[1].name@ == "ed2k"@ && r@[1].protocol is Tcp && r@[1].exposure is Preferred && r@[1].local_addr == ed2k,
        r@[0].preferred_external_port is None && r@[1].preferred_external_port is None,
{
}

/// The configured order counts, and the default where there is none.
pub proof fn law_backend_order(configured: Vec<String>, default_order: Vec<String>, r: Vec<String>)
    requires
        call_ensures(nat_backend_order, (configured, default_order), r),
    ensures
        configured@.len() > 0 ==> r@ == configured@,
        configured@.len() == 0 ==> r@ == default_order@,
{
}

/// Bootstrap nodes are one text, a node a line: that of one node more is the text of the others, a
/// line feed and the node.
pub proof fn law_bootstrap_nodes(nodes: &Vec<String>, others: &Vec<String>, r: Option<String>, before: Option<String>)
    requires
        call_ensures(bootstrap_nodes_text, (nodes,), r),
        call_ensures(bootstrap_nodes_text, (others,), before),
        nodes@.len() > 0 ==> others@ == nodes@.drop_last(),
    ensures
        r is None <==> nodes@.len() == 0,
        nodes@.len() == 1 ==> (r matches Some(text) && text@ == nodes@[0]@),
        nodes@.len() > 1 ==> (r matches Some(text) && (before matches Some(first) && text@ == first@ + "\n"@
            + nodes@.last()@)),
{
    let lines = types::texts(nodes@);
    assert(lines.len() == nodes@.len());
    if nodes@.len() == 1 {
        assert(lines[0] == nodes@[0]@);
    }
    if nodes@.len() > 1 {
        assert(lines.drop_last() =~= types::texts(others@));
        assert(lines.last() == nodes@.last()@);
    }
}

/// The address of an interface is looked up again only while the network runs on a confirmed choice
/// that names an interface and no address.
pub proof fn law_interface_is_watched(
    confirmed: bool,
    bind_ip: &Option<String>,
    bind_iface: &Option<String>,
    running: bool,
    r: bool,
)
    requires
        call_ensures(watches_interface, (confirmed, bind_ip, bind_iface, running), r),
    ensures
        r ==> confirmed && running && *bind_iface is Some,
        *bind_ip matches Some(ip) ==> (text::trimmed(ip@).len() > 0 ==> !r),
        *bind_iface matches Some(name) ==> {
            &&& text::trimmed(name@).len() == 0 ==> !r
            &&& text::trimmed(name@).len() > 0 && *bind_ip is None && confirmed && running ==> r
        },
{
}

/// The network runs exactly on a confirmed choice that has an address, and on that address.
pub proof fn law_reconcile(confirmed: bool, bind_ip: Option<String>, r: ReconcilePlan)
    requires
        call_ensures(plan_reconcile, (confirmed, bind_ip), r),
    ensures
        r is Restart <==> confirmed && bind_ip is Some,
        r matches ReconcilePlan::Restart { bind_ip: at } ==> bind_ip == Some(at),
{
}

/// The agent serves unless the coordinator's configuration takes a restart, and goes on trying a
/// coordinator that it did not reach; a restart is asked for exactly where one was requested, and
/// there is room for one download at least.
pub proof fn law_startup(
    connected: Option<NetworkingConfigApplyOutcome>,
    restart: bool,
    slots: usize,
    plan: StartupPlan,
    exit: AgentExit,
    r: usize,
)
    requires
        call_ensures(plan_startup, (connected,), plan),
        call_ensures(agent_exit, (restart,), exit),
        call_ensures(download_slots, (slots,), r),
    ensures
        plan is RestartNow <==> connected == Some(NetworkingConfigApplyOutcome::RestartRequired),
        plan matches StartupPlan::Serve { reconnect } ==> (reconnect <==> connected is None),
        exit is RestartRequested <==> restart,
        r >= 1,
        slots >= 1 ==> r == slots,
        slots == 0 ==> r == 1,
{
}

} // verus!
