//! Identifiers, addresses and points in time.

use vstd::prelude::*;
use vstd::string::*;
use crate::text;
use crate::text::{decimal_text, hex_decode, hex_encode};

verus! {

broadcast use vstd::string::group_string_axioms;

/// A point in time: whole seconds since the Unix epoch, and nanoseconds within the second.
#[derive(Debug, Clone, Copy, PartialEq, Eq, Hash, Structural)]
pub struct Timestamp {
    pub secs: i64,
    pub nanos: u32,
}

impl Timestamp {
    /// Whether `self` is strictly later than `other`.
    pub open spec fn after(self, other: Timestamp) -> bool {
        self.secs > other.secs || (self.secs == other.secs && self.nanos > other.nanos)
    }

    /// Whole milliseconds since the Unix epoch.
    pub open spec fn millis(self) -> int {
        self.secs * 1000 + self.nanos as int / 1_000_000
    }

    pub fn is_after(self, other: Timestamp) -> (r: bool)
        ensures
            r == self.after(other),
    {
        self.secs > other.secs || (self.secs == other.secs && self.nanos > other.nanos)
    }

    pub fn timestamp_millis(self) -> (r: i128)
        ensures
            r == self.millis(),
            r > i128::MIN,
    {
        (self.secs as i128) * 1000 + (self.nanos / 1_000_000) as i128
    }
}

/// A 128-bit universally unique identifier, read as one big-endian number.
#[derive(Debug, Clone, Copy, PartialEq, Eq, Hash, Structural)]
pub struct Uuid(pub u128);

/// The sixteen big-endian bytes of `v`.
pub open spec fn be_bytes(v: u128) -> Seq<u8> {
    Seq::new(16, |i: int| (v as int / vstd::arithmetic::power::pow(256, (15 - i) as nat) % 256) as u8)
}

/// Eight, four, four, four and twelve hexadecimal digits, parted by hyphens.
pub open spec fn uuid_text(id: Uuid) -> Seq<char> {
    let digits = text::hex_text(be_bytes(id.0));
    digits.subrange(0, 8) + seq!['-'] + digits.subrange(8, 12) + seq!['-'] + digits.subrange(12, 16)
        + seq!['-'] + digits.subrange(16, 20) + seq!['-'] + digits.subrange(20, 32)
}

/// `uuid::Uuid`'s `Display`: the hyphenated form in lowercase, which `uuid::Uuid::parse_str` reads
/// back.
#[verifier::external_body]
fn uuid_hyphenated(bits: u128) -> (r: String)
    ensures
        r@ == uuid_text(Uuid(bits)),
        parsed_uuid(r@) == Some(bits),
{
    uuid::Uuid::from_u128(bits).to_string()
}

/// Name of the result of `uuid::Uuid::parse_str`: the number read, where the text is accepted.
pub uninterp spec fn parsed_uuid(text: Seq<char>) -> Option<u128>;

/// `uuid::Uuid::parse_str`; in particular it reads back every hyphenated lowercase form.
#[verifier::external_body]
fn uuid_parse(text: &str) -> (r: Option<u128>)
    ensures
        r == parsed_uuid(text@),
        forall|id: Uuid| text@ == #[trigger] uuid_text(id) ==> r == Some(id.0),
{
    match uuid::Uuid::parse_str(text) {
        Ok(id) => Some(id.as_u128()),
        Err(_) => None,
    }
}

impl Uuid {
    pub fn from_u128(bits: u128) -> (r: Uuid)
        ensures
            r == Uuid(bits),
    {
        Uuid(bits)
    }

    /// The hyphenated lowercase form.
    pub fn to_text(self) -> (r: String)
        ensures
            r@ == uuid_text(self),
            parsed_uuid(r@) == Some(self.0),
    {
        uuid_hyphenated(self.0)
    }

    /// The identifier that `text` spells, if it spells one.
    pub fn parse_str(text: &str) -> (r: Option<Uuid>)
        ensures
            r is Some <==> parsed_uuid(text@) is Some,
            r matches Some(id) ==> parsed_uuid(text@) == Some(id.0),
            forall|id: Uuid| text@ == #[trigger] uuid_text(id) ==> r == Some(id),
    {
        match uuid_parse(text) {
            Some(bits) => Some(Uuid(bits)),
            None => None,
        }
    }
}

/// An IPv4 address `a.b.c.d`.
#[derive(Debug, Clone, Copy, PartialEq, Eq, Hash, Structural)]
pub struct Ipv4Addr {
    pub a: u8,
    pub b: u8,
    pub c: u8,
    pub d: u8,
}

impl Ipv4Addr {
    /// The address as one number, `a` being its most significant byte.
    pub open spec fn bits(self) -> int {
        self.a * 0x100_0000 + self.b * 0x1_0000 + self.c * 0x100 + self.d
    }

    pub open spec fn loopback(self) -> bool {
        self.a == 127
    }

    /// Dotted decimal.
    pub open spec fn text(self) -> Seq<char> {
        text::decimal(self.a as nat) + seq!['.'] + text::decimal(self.b as nat) + seq!['.'] + text::decimal(self.c as nat)
            + seq!['.'] + text::decimal(self.d as nat)
    }

    pub fn new(a: u8, b: u8, c: u8, d: u8) -> (r: Ipv4Addr)
        ensures
            r == (Ipv4Addr { a, b, c, d }),
    {
        Ipv4Addr { a, b, c, d }
    }

    pub fn to_bits(self) -> (r: u32)
        ensures
            r == self.bits(),
    {
        (self.a as u32) * 0x100_0000 + (self.b as u32) * 0x1_0000 + (self.c as u32) * 0x100 + self.d as u32
    }

    /// The address that a number stands for, `a` being its most significant byte.
    pub fn from_bits(bits: u32) -> (r: Ipv4Addr)
        ensures
            r.bits() == bits,
    {
        Ipv4Addr {
            a: (bits / 0x100_0000) as u8,
            b: (bits / 0x1_0000 % 0x100) as u8,
            c: (bits / 0x100 % 0x100) as u8,
            d: (bits % 0x100) as u8,
        }
    }

    pub fn is_loopback(self) -> (r: bool)
        ensures
            r == self.loopback(),
    {
        self.a == 127
    }

    pub fn to_text(self) -> (r: String)
        ensures
            r@ == self.text(),
    {
        let mut r: String = decimal_text(self.a as u128);
        proof {
            reveal_strlit(".");
        }
        r.append(".");
        let b: String = decimal_text(self.b as u128);
        r.append(b.as_str());
        r.append(".");
        let c: String = decimal_text(self.c as u128);
        r.append(c.as_str());
        r.append(".");
        let d: String = decimal_text(self.d as u128);
        r.append(d.as_str());
        assert("."@ =~= seq!['.']);
        r
    }
}

/// An IP address of either version.
#[derive(Debug, Clone, Copy, PartialEq, Eq, Hash, Structural)]
pub enum IpAddr {
    V4(Ipv4Addr),
    V6(u128),
}

/// An IP address and a port.
#[derive(Debug, Clone, Copy, PartialEq, Eq, Hash, Structural)]
pub struct SocketAddr {
    pub ip: IpAddr,
    pub port: u16,
}

/// An IPv4 address and a port.
#[derive(Debug, Clone, Copy, PartialEq, Eq, Hash, Structural)]
pub struct Endpoint {
    pub ip: Ipv4Addr,
    pub port: u16,
}

impl Endpoint {
    /// `a.b.c.d:port`.
    pub open spec fn text(self) -> Seq<char> {
        self.ip.text() + seq![':'] + text::decimal(self.port as nat)
    }

    pub fn to_text(self) -> (r: String)
        ensures
            r@ == self.text(),
    {
        let mut r: String = self.ip.to_text();
        proof {
            reveal_strlit(":");
        }
        r.append(":");
        let port: String = decimal_text(self.port as u128);
        r.append(port.as_str());
        assert(":"@ =~= seq![':']);
        r
    }
}

/// Whether two sixteen-byte values are the same.
pub fn same_bytes16(x: &[u8; 16], y: &[u8; 16]) -> (r: bool)
    ensures
        r == (*x == *y),
        r == (x@ == y@),
{
    let mut i: usize = 0;
    while i < 16
        invariant
            i <= 16,
            forall|j: int| 0 <= j < i ==> x@[j] == y@[j],
        decreases 16 - i,
    {
        if x[i] != y[i] {
            assert(x@[i as int] != y@[i as int]);
            return false;
        }
        i = i + 1;
    }
    assert(x@ =~= y@);
    assert(*x =~= *y);
    true
}

/// Whether two optional sixteen-byte values are the same.
pub fn same_optional_bytes16(x: &Option<[u8; 16]>, y: &Option<[u8; 16]>) -> (r: bool)
    ensures
        r == (*x == *y),
{
    match (x, y) {
        (Some(a), Some(b)) => same_bytes16(a, b),
        (None, None) => true,
        (_, _) => false,
    }
}

/// Each run of four bytes reversed.
pub open spec fn chunk_order(bytes: Seq<u8>) -> Seq<u8> {
    Seq::new(16, |i: int| bytes[i / 4 * 4 + 3 - i % 4])
}

/// eMule Kad carries 128-bit search and source entry IDs in 32-bit little-endian chunk order
/// rather than raw MD4 byte order.
pub fn emule_kad_chunk_order(bytes: [u8; 16]) -> (r: [u8; 16])
    ensures
        r@ == chunk_order(bytes@),
{
    let r: [u8; 16] = [
        bytes[3], bytes[2], bytes[1], bytes[0], bytes[7], bytes[6], bytes[5], bytes[4], bytes[11],
        bytes[10], bytes[9], bytes[8], bytes[15], bytes[14], bytes[13], bytes[12],
    ];
    assert(r@ =~= chunk_order(bytes@));
    r
}

/// Chunk order is its own inverse.
pub proof fn law_chunk_order_involution(bytes: Seq<u8>)
    requires
        bytes.len() == 16,
    ensures
        chunk_order(chunk_order(bytes)) == bytes,
{
    assert(chunk_order(chunk_order(bytes)) =~= bytes);
}

/// The MD4 identity of a file on the eD2k network.
#[derive(Debug, Clone, Copy, Eq, Hash)]
pub struct Ed2kHash(pub [u8; 16]);

impl PartialEq for Ed2kHash {
    fn eq(&self, other: &Ed2kHash) -> (r: bool) {
        same_bytes16(&self.0, &other.0)
    }
}

impl vstd::std_specs::cmp::PartialEqSpecImpl for Ed2kHash {
    open spec fn obeys_eq_spec() -> bool {
        true
    }

    open spec fn eq_spec(&self, other: &Ed2kHash) -> bool {
        self.0 == other.0
    }
}

/// The 128-bit identity of a Kad node or of a Kad search target, as carried on the wire.
#[derive(Debug, Clone, Copy, Eq, Hash)]
pub struct NodeId(pub [u8; 16]);

impl PartialEq for NodeId {
    fn eq(&self, other: &NodeId) -> (r: bool) {
        same_bytes16(&self.0, &other.0)
    }
}

impl vstd::std_specs::cmp::PartialEqSpecImpl for NodeId {
    open spec fn obeys_eq_spec() -> bool {
        true
    }

    open spec fn eq_spec(&self, other: &NodeId) -> bool {
        self.0 == other.0
    }
}

/// The sixteen bytes of `v`, if it holds as many.
pub fn vec_to_bytes16(v: &Vec<u8>) -> (r: Option<[u8; 16]>)
    ensures
        r is Some <==> v@.len() == 16,
        r matches Some(bytes) ==> bytes@ == v@,
{
    if v.len() != 16 {
        return None;
    }
    let r: [u8; 16] = [
        v[0], v[1], v[2], v[3], v[4], v[5], v[6], v[7], v[8], v[9], v[10], v[11], v[12], v[13],
        v[14], v[15],
    ];
    assert(r@ =~= v@);
    Some(r)
}

/// Whether `s` is 32 hexadecimal digits.
pub open spec fn is_hash_text(s: Seq<char>) -> bool {
    s.len() == 32 && text::is_hex_text(s)
}

/// The sixteen bytes that `text` spells in hexadecimal, if it spells as many.
pub fn parse_bytes16(text: &str) -> (r: Option<[u8; 16]>)
    ensures
        r is Some <==> is_hash_text(text@),
        r matches Some(bytes) ==> bytes@ == text::hex_bytes(text@),
{
    match hex_decode(text) {
        Ok(bytes) => vec_to_bytes16(&bytes),
        Err(_) => None,
    }
}

impl Ed2kHash {
    pub fn from_bytes(bytes: [u8; 16]) -> (r: Ed2kHash)
        ensures
            r == Ed2kHash(bytes),
    {
        Ed2kHash(bytes)
    }

    /// 32 lowercase hexadecimal digits.
    pub fn to_text(self) -> (r: String)
        ensures
            r@ == text::hex_text(self.0@),
    {
        hex_encode(self.0.as_slice())
    }

    /// The hash that 32 hexadecimal digits spell.
    pub fn from_text(text: &str) -> (r: Option<Ed2kHash>)
        ensures
            r is Some <==> is_hash_text(text@),
            r matches Some(hash) ==> hash.0@ == text::hex_bytes(text@),
    {
        match parse_bytes16(text) {
            Some(bytes) => Some(Ed2kHash(bytes)),
            None => None,
        }
    }
}

impl NodeId {
    pub fn from_bytes(bytes: [u8; 16]) -> (r: NodeId)
        ensures
            r == NodeId(bytes),
    {
        NodeId(bytes)
    }

    /// The identity whose big-endian bytes are `bytes`.
    pub fn from_be_bytes(bytes: [u8; 16]) -> (r: NodeId)
        ensures
            r.0@ == chunk_order(bytes@),
    {
        NodeId(emule_kad_chunk_order(bytes))
    }

    pub fn to_be_bytes(self) -> (r: [u8; 16])
        ensures
            r@ == chunk_order(self.0@),
    {
        emule_kad_chunk_order(self.0)
    }

    /// 32 lowercase hexadecimal digits.
    pub fn to_text(self) -> (r: String)
        ensures
            r@ == text::hex_text(self.0@),
    {
        hex_encode(self.0.as_slice())
    }

    /// The identity that 32 hexadecimal digits spell.
    pub fn from_text(text: &str) -> (r: Option<NodeId>)
        ensures
            r is Some <==> is_hash_text(text@),
            r matches Some(id) ==> id.0@ == text::hex_bytes(text@),
    {
        match parse_bytes16(text) {
            Some(bytes) => Some(NodeId(bytes)),
            None => None,
        }
    }
}

/// The hexadecimal text of any bytes is read back as those bytes.
pub proof fn law_hex_round_trip(bytes: Seq<u8>)
    ensures
        text::is_hex_text(text::hex_text(bytes)),
        text::hex_bytes(text::hex_text(bytes)) == bytes,
{
    let t = text::hex_text(bytes);
    assert forall|i: int| 0 <= i < t.len() implies text::is_hex_char(#[trigger] t[i]) by {}
    assert forall|i: int| 0 <= i < bytes.len() implies #[trigger] text::hex_bytes(t)[i] == bytes[i] by {
        let b = bytes[i] as int;
        assert(t[2 * i] == text::hex_digit(b / 16));
        assert(t[2 * i + 1] == text::hex_digit(b % 16));
        assert(16 * (b / 16) + b % 16 == b);
    }
    assert(text::hex_bytes(t) =~= bytes);
}

/// Of two points in time one is later, unless they are one; and the order carries over to a third.
pub proof fn law_time_order(a: Timestamp, b: Timestamp, c: Timestamp, ab: bool, ba: bool, bc: bool, ac: bool)
    requires
        call_ensures(Timestamp::is_after, (a, b), ab),
        call_ensures(Timestamp::is_after, (b, a), ba),
        call_ensures(Timestamp::is_after, (b, c), bc),
        call_ensures(Timestamp::is_after, (a, c), ac),
    ensures
        !(ab && ba),
        !ab && !ba ==> a == b,
        ab && bc ==> ac,
        a.secs > b.secs ==> ab,
        a.secs == b.secs && a.nanos > b.nanos ==> ab,
{
}

/// Milliseconds are what fits of them into the time since the epoch.
pub proof fn law_millis(t: Timestamp, r: i128)
    requires
        call_ensures(Timestamp::timestamp_millis, (t,), r),
    ensures
        r * 1_000_000 <= t.secs * 1_000_000_000 + t.nanos < (r + 1) * 1_000_000,
{
}

/// An address and its number stand for each other, and of two addresses the one with the greater
/// first byte has the greater number.
pub proof fn law_address_number(ip: Ipv4Addr, bits: u32, back: Ipv4Addr, other: Ipv4Addr, other_bits: u32)
    requires
        call_ensures(Ipv4Addr::to_bits, (ip,), bits),
        call_ensures(Ipv4Addr::from_bits, (bits,), back),
        call_ensures(Ipv4Addr::to_bits, (other,), other_bits),
    ensures
        back == ip,
        bits == other_bits ==> ip == other,
        ip.a > other.a ==> bits > other_bits,
        ip.a == other.a && ip.b > other.b ==> bits > other_bits,
        ip.a == other.a && ip.b == other.b && ip.c > other.c ==> bits > other_bits,
        ip.a == 0 && ip.b == 0 && ip.c == 0 ==> bits == ip.d,
{
}

/// The local host's addresses are those that begin with 127.
pub proof fn law_loopback(a: u8, b: u8, c: u8, d: u8, ip: Ipv4Addr, r: bool)
    requires
        call_ensures(Ipv4Addr::new, (a, b, c, d), ip),
        call_ensures(Ipv4Addr::is_loopback, (ip,), r),
    ensures
        r <==> a == 127,
        ip.a == a && ip.b == b && ip.c == c && ip.d == d,
{
}

/// The text of an endpoint is that of its address, a colon and the port; that of an address its four
/// numbers in order, parted by dots.
pub proof fn law_endpoint_text(endpoint: Endpoint, ip: String, r: String)
    requires
        call_ensures(Ipv4Addr::to_text, (endpoint.ip,), ip),
        call_ensures(Endpoint::to_text, (endpoint,), r),
    ensures
        ip@ == text::decimal(endpoint.ip.a as nat) + seq!['.'] + text::decimal(endpoint.ip.b as nat) + seq!['.']
            + text::decimal(endpoint.ip.c as nat) + seq!['.'] + text::decimal(endpoint.ip.d as nat),
        r@ == ip@ + seq![':'] + text::decimal(endpoint.port as nat),
{
}

proof fn lemma_chunk_place(bytes: Seq<u8>, run: int, place: int)
    requires
        0 <= run < 4,
        0 <= place < 4,
    ensures
        chunk_order(bytes)[4 * run + place] == bytes[4 * run + (3 - place)],
{
    let i = 4 * run + place;
    assert(i / 4 == run && i % 4 == place);
}

/// Chunk order turns each run of four bytes round and leaves the runs in their places.
pub proof fn law_chunks_are_reversed(bytes: [u8; 16], r: [u8; 16], run: int, place: int)
    requires
        call_ensures(emule_kad_chunk_order, (bytes,), r),
        0 <= run < 4,
        0 <= place < 4,
    ensures
        r@[4 * run + place] == bytes@[4 * run + (3 - place)],
{
    lemma_chunk_place(bytes@, run, place);
}

/// A node's identity and its big-endian bytes stand for each other.
pub proof fn law_node_id_bytes(bytes: [u8; 16], id: NodeId, back: [u8; 16])
    requires
        call_ensures(NodeId::from_be_bytes, (bytes,), id),
        call_ensures(NodeId::to_be_bytes, (id,), back),
    ensures
        back@ == bytes@,
{
    law_chunk_order_involution(bytes@);
}

/// The wire carries each run of four of a node's big-endian bytes the other way round.
pub proof fn law_node_id_on_the_wire(bytes: [u8; 16], id: NodeId, run: int, place: int)
    requires
        call_ensures(NodeId::from_be_bytes, (bytes,), id),
        0 <= run < 4,
        0 <= place < 4,
    ensures
        id.0@[4 * run + place] == bytes@[4 * run + (3 - place)],
{
    lemma_chunk_place(bytes@, run, place);
}

/// A hash, and a node's identity, are the ones that their texts are read as; a text is read exactly
/// where it is 32 hexadecimal digits.
pub proof fn law_identity_texts(
    hash: Ed2kHash,
    id: NodeId,
    hash_text: String,
    id_text: String,
    hash_read: &str,
    id_read: &str,
    hash_back: Option<Ed2kHash>,
    id_back: Option<NodeId>,
)
    requires
        call_ensures(Ed2kHash::to_text, (hash,), hash_text),
        call_ensures(NodeId::to_text, (id,), id_text),
        hash_read@ == hash_text@,
        id_read@ == id_text@,
        call_ensures(Ed2kHash::from_text, (hash_read,), hash_back),
        call_ensures(NodeId::from_text, (id_read,), id_back),
    ensures
        hash_text@.len() == 32,
        id_text@.len() == 32,
        hash_back matches Some(back) && back.0@ == hash.0@,
        id_back matches Some(back) && back.0@ == id.0@,
{
    law_hex_round_trip(hash.0@);
    law_hex_round_trip(id.0@);
}

/// Two sixteen-byte values are the same where each byte is.
pub proof fn law_same_bytes(x: &[u8; 16], y: &[u8; 16], r: bool, i: int)
    requires
        call_ensures(same_bytes16, (x, y), r),
        0 <= i < 16,
    ensures
        r ==> x@[i] == y@[i],
        x@[i] != y@[i] ==> !r,
        *x == *y ==> r,
{
}

/// Sixteen bytes are read from as many bytes, or from 32 hexadecimal digits, and from nothing else.
pub proof fn law_sixteen_bytes(v: &Vec<u8>, text: &str, from_vec: Option<[u8; 16]>, from_text: Option<[u8; 16]>)
    requires
        call_ensures(vec_to_bytes16, (v,), from_vec),
        call_ensures(parse_bytes16, (text,), from_text),
    ensures
        from_vec is Some <==> v@.len() == 16,
        from_vec matches Some(bytes) ==> bytes@ == v@,
        text@.len() != 32 ==> from_text is None,
        text@.len() == 32 && (forall|i: int| 0 <= i < 32 ==> text::is_hex_char(#[trigger] text@[i])) ==> from_text is Some,
        from_text matches Some(bytes) ==> forall|i: int|
            0 <= i < 16 ==> #[trigger] bytes@[i] == 16 * text::hex_value(text@[2 * i]) + text::hex_value(
                text@[2 * i + 1],
            ),
{
    if let Some(bytes) = from_text {
        assert forall|i: int| 0 <= i < 16 implies #[trigger] bytes@[i] == 16 * text::hex_value(text@[2 * i])
            + text::hex_value(text@[2 * i + 1]) by {
            assert(text::is_hex_char(text@[2 * i]));
            assert(text::is_hex_char(text@[2 * i + 1]));
            assert(bytes@[i] == text::hex_bytes(text@)[i]);
        }
    }
}

} // verus!
