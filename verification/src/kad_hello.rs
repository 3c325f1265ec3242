//! Kad HELLO packets: the tags that the agent sends, and what it reads from a peer's.

use vstd::prelude::*;
use crate::ed2k::Ed2kServerState;
use crate::ids::{IpAddr, Ipv4Addr, NodeId, SocketAddr};
use crate::kad;
use crate::kad::{Tag, TagName, TagNameView, TagValue, TagValueView, KAD_VERSION, TAG_KADMISCOPTIONS, TAG_SOURCEUPORT};

verus! {

/// What a peer says of itself in a HELLO.
#[derive(Debug, Clone, Copy, PartialEq, Eq, Structural)]
pub struct KadHelloPeerMetadata {
    pub hello_source_udp_port: Option<u16>,
    pub udp_firewalled: bool,
    pub tcp_firewalled: bool,
    pub requests_hello_res_ack: bool,
}

/// A HELLO that says nothing.
pub open spec fn silent_peer() -> KadHelloPeerMetadata {
    KadHelloPeerMetadata {
        hello_source_udp_port: None,
        udp_firewalled: false,
        tcp_firewalled: false,
        requests_hello_res_ack: false,
    }
}

impl Default for KadHelloPeerMetadata {
    fn default() -> (r: KadHelloPeerMetadata)
        ensures
            r == silent_peer(),
    {
        KadHelloPeerMetadata {
            hello_source_udp_port: None,
            udp_firewalled: false,
            tcp_firewalled: false,
            requests_hello_res_ack: false,
        }
    }
}

/// The number that an integer tag carries, where it is one of the widths a peer may use.
pub open spec fn tag_number(value: TagValueView) -> Option<nat> {
    match value {
        TagValueView::U16(n) => Some(n as nat),
        TagValueView::U32(n) => Some(n as nat),
        TagValueView::U8(n) => Some(n as nat),
        TagValueView::UInt(n) => Some(n as nat),
        _ => None,
    }
}

/// The tag's number, where it fits sixteen bits.
pub open spec fn tag_u16(value: TagValueView) -> Option<u16> {
    match tag_number(value) {
        Some(n) => if n <= u16::MAX {
            Some(n as u16)
        } else {
            None
        },
        None => None,
    }
}

/// The tag's number, where it fits eight bits.
pub open spec fn tag_u8(value: TagValueView) -> Option<u8> {
    match tag_number(value) {
        Some(n) => if n <= u8::MAX {
            Some(n as u8)
        } else {
            None
        },
        None => None,
    }
}

pub fn read_u16_tag_value(value: &TagValue) -> (r: Option<u16>)
    ensures
        r == tag_u16(value@),
{
    match value {
        TagValue::U16(port) => Some(*port),
        TagValue::U32(port) => if *port <= 0xFFFF {
            Some(*port as u16)
        } else {
            None
        },
        TagValue::U8(port) => Some(*port as u16),
        TagValue::UInt(port) => if *port <= 0xFFFF {
            Some(*port as u16)
        } else {
            None
        },
        _ => None,
    }
}

pub fn read_u8_tag_value(value: &TagValue) -> (r: Option<u8>)
    ensures
        r == tag_u8(value@),
{
    match value {
        TagValue::U8(bits) => Some(*bits),
        TagValue::U16(bits) => if *bits <= 0xFF {
            Some(*bits as u8)
        } else {
            None
        },
        TagValue::U32(bits) => if *bits <= 0xFF {
            Some(*bits as u8)
        } else {
            None
        },
        TagValue::UInt(bits) => if *bits <= 0xFF {
            Some(*bits as u8)
        } else {
            None
        },
        _ => None,
    }
}

/// The optional port, where it is not zero.
pub open spec fn nonzero_port(port: Option<u16>) -> Option<u16> {
    match port {
        Some(p) => if p != 0 {
            Some(p)
        } else {
            None
        },
        None => None,
    }
}

/// What one more tag adds to what is known of the peer.
pub open spec fn hello_tag_effect(known: KadHelloPeerMetadata, tag: kad::TagView) -> KadHelloPeerMetadata {
    if tag.name == TagNameView::Short(TAG_SOURCEUPORT) {
        KadHelloPeerMetadata { hello_source_udp_port: nonzero_port(tag_u16(tag.value)), ..known }
    } else if tag.name == TagNameView::Short(TAG_KADMISCOPTIONS) {
        match tag_u8(tag.value) {
            Some(bits) => KadHelloPeerMetadata {
                udp_firewalled: bits & 0x01 != 0,
                tcp_firewalled: bits & 0x02 != 0,
                requests_hello_res_ack: bits & 0x04 != 0,
                ..known
            },
            None => known,
        }
    } else {
        known
    }
}

/// What the tags of a HELLO say of the peer; of two tags of one name the later counts.
pub open spec fn hello_metadata(tags: Seq<kad::TagView>) -> KadHelloPeerMetadata
    decreases tags.len(),
{
    if tags.len() == 0 {
        silent_peer()
    } else {
        hello_tag_effect(hello_metadata(tags.drop_last()), tags.last())
    }
}

pub fn parse_kad_hello_metadata(tags: &[Tag]) -> (r: KadHelloPeerMetadata)
    ensures
        r == hello_metadata(kad::tag_views(tags@)),
{
    let mut metadata: KadHelloPeerMetadata = KadHelloPeerMetadata::default();
    let ghost views = kad::tag_views(tags@);
    let mut i: usize = 0;
    while i < tags.len()
        invariant
            i <= tags.len(),
            views == kad::tag_views(tags@),
            metadata == hello_metadata(views.take(i as int)),
        decreases tags.len() - i,
    {
        let tag: &Tag = &tags[i];
        proof {
            assert(views.take(i + 1).drop_last() =~= views.take(i as int));
            assert(views.take(i + 1).last() == tag@);
        }
        match &tag.name {
            TagName::Short(name) => {
                if *name == TAG_SOURCEUPORT {
                    metadata.hello_source_udp_port = match read_u16_tag_value(&tag.value) {
                        Some(port) => if port != 0 {
                            Some(port)
                        } else {
                            None
                        },
                        None => None,
                    };
                } else if *name == TAG_KADMISCOPTIONS {
                    match read_u8_tag_value(&tag.value) {
                        Some(bits) => {
                            metadata.udp_firewalled = bits & 0x01 != 0;
                            metadata.tcp_firewalled = bits & 0x02 != 0;
                            metadata.requests_hello_res_ack = bits & 0x04 != 0;
                        },
                        None => {},
                    }
                }
            },
            TagName::Long(_) => {},
        }
        i = i + 1;
    }
    assert(views.take(i as int) =~= views);
    metadata
}

/// The `KADMISCOPTIONS` bits: 1 for UDP-firewalled, 2 for TCP-firewalled, 4 for an ACK request.
pub open spec fn misc_options(udp_firewalled: bool, tcp_firewalled: bool, request_ack: bool) -> u8 {
    ((if udp_firewalled {
        1int
    } else {
        0
    }) + (if tcp_firewalled {
        2int
    } else {
        0
    }) + (if request_ack {
        4int
    } else {
        0
    })) as u8
}

fn misc_option_bits(udp_firewalled: bool, tcp_firewalled: bool, request_ack: bool) -> (r: u8)
    ensures
        r == misc_options(udp_firewalled, tcp_firewalled, request_ack),
{
    let udp: u8 = if udp_firewalled {
        1
    } else {
        0
    };
    let tcp: u8 = if tcp_firewalled {
        2
    } else {
        0
    };
    let ack: u8 = if request_ack {
        4
    } else {
        0
    };
    udp + tcp + ack
}

/// The tags of a HELLO response.
pub open spec fn hello_response_tags(
    kad_udp_port: u16,
    udp_firewalled: bool,
    tcp_firewalled: bool,
    request_ack: bool,
) -> Seq<kad::TagView> {
    seq![
        kad::short_tag(TAG_SOURCEUPORT, TagValueView::U16(kad_udp_port)),
        kad::short_tag(
            TAG_KADMISCOPTIONS,
            TagValueView::U8(misc_options(udp_firewalled, tcp_firewalled, request_ack)),
        ),
    ]
}

pub fn build_kad_hello_response_tags(
    kad_udp_port: u16,
    udp_firewalled: bool,
    tcp_firewalled: bool,
    request_ack: bool,
) -> (r: Vec<Tag>)
    ensures
        kad::tag_views(r@) == hello_response_tags(kad_udp_port, udp_firewalled, tcp_firewalled, request_ack),
{
    let bits: u8 = misc_option_bits(udp_firewalled, tcp_firewalled, request_ack);
    let mut tags: Vec<Tag> = Vec::new();
    tags.push(Tag::new_short(TAG_SOURCEUPORT, TagValue::U16(kad_udp_port)));
    tags.push(Tag::new_short(TAG_KADMISCOPTIONS, TagValue::U8(bits)));
    assert(kad::tag_views(tags@) =~= hello_response_tags(
        kad_udp_port,
        udp_firewalled,
        tcp_firewalled,
        request_ack,
    ));
    tags
}

/// The tags of a HELLO request: narrower than a response's, it carries either the options or
/// the UDP port, never both.
pub open spec fn hello_request_tags(
    kad_udp_port: u16,
    can_advertise_source_udp_port: bool,
    udp_firewalled: bool,
    tcp_firewalled: bool,
    request_ack: bool,
) -> Seq<kad::TagView> {
    if request_ack || udp_firewalled || tcp_firewalled {
        seq![
            kad::short_tag(
                TAG_KADMISCOPTIONS,
                TagValueView::U8(misc_options(udp_firewalled, tcp_firewalled, request_ack)),
            ),
        ]
    } else if can_advertise_source_udp_port {
        seq![kad::short_tag(TAG_SOURCEUPORT, TagValueView::U16(kad_udp_port))]
    } else {
        Seq::empty()
    }
}

pub fn build_kad_hello_request_tags(
    kad_udp_port: u16,
    can_advertise_source_udp_port: bool,
    udp_firewalled: bool,
    tcp_firewalled: bool,
    request_ack: bool,
) -> (r: Vec<Tag>)
    ensures
        kad::tag_views(r@) == hello_request_tags(
            kad_udp_port,
            can_advertise_source_udp_port,
            udp_firewalled,
            tcp_firewalled,
            request_ack,
        ),
{
    let mut tags: Vec<Tag> = Vec::new();
    if request_ack || udp_firewalled || tcp_firewalled {
        let bits: u8 = misc_option_bits(udp_firewalled, tcp_firewalled, request_ack);
        tags.push(Tag::new_short(TAG_KADMISCOPTIONS, TagValue::U8(bits)));
    } else if can_advertise_source_udp_port {
        tags.push(Tag::new_short(TAG_SOURCEUPORT, TagValue::U16(kad_udp_port)));
    }
    assert(kad::tag_views(tags@) =~= hello_request_tags(
        kad_udp_port,
        can_advertise_source_udp_port,
        udp_firewalled,
        tcp_firewalled,
        request_ack,
    ));
    tags
}

/// An ACK is asked of peers that know it, whose key has not been confirmed and is known.
pub fn should_request_hello_response_ack(
    peer_version: u8,
    receiver_verify_key_valid: bool,
    sender_verify_key: Option<u32>,
) -> (r: bool)
    ensures
        r == (peer_version >= 8 && !receiver_verify_key_valid && sender_verify_key is Some),
{
    peer_version >= 8 && !receiver_verify_key_valid && sender_verify_key.is_some()
}

/// Whether the agent takes itself for TCP-firewalled: the eD2k server's verdict where there is
/// one, and else whether the listener is without a port.
pub fn current_tcp_firewalled(listener_port: Option<u16>, server: &Ed2kServerState) -> (r: bool)
    ensures
        r == match server.verdict() {
            Some(firewalled) => firewalled,
            None => match listener_port {
                Some(port) => port == 0,
                None => true,
            },
        },
{
    match server.tcp_firewalled() {
        Some(firewalled) => firewalled,
        None => match listener_port {
            Some(port) => port == 0,
            None => true,
        },
    }
}

/// What a HELLO is built from.
#[derive(Debug, Clone, Copy, PartialEq, Eq)]
pub struct LocalHello {
    pub node_id: NodeId,
    pub kad_udp_port: u16,
    pub tcp_port: u16,
    pub udp_verified: bool,
    pub udp_open: bool,
    pub tcp_firewalled: bool,
}

/// A HELLO request or response.
#[derive(Debug, PartialEq, Eq)]
pub struct Hello {
    pub node_id: NodeId,
    pub tcp_port: u16,
    pub version: u8,
    pub tags: Vec<Tag>,
}

pub fn build_hello_response(local: &LocalHello, request_ack: bool) -> (r: Hello)
    ensures
        r.node_id == local.node_id,
        r.tcp_port == local.tcp_port,
        r.version == KAD_VERSION,
        kad::tag_views(r.tags@) == hello_response_tags(
            local.kad_udp_port,
            local.udp_verified && !local.udp_open,
            local.tcp_firewalled,
            request_ack,
        ),
{
    Hello {
        node_id: local.node_id,
        tcp_port: local.tcp_port,
        version: KAD_VERSION,
        tags: build_kad_hello_response_tags(
            local.kad_udp_port,
            local.udp_verified && !local.udp_open,
            local.tcp_firewalled,
            request_ack,
        ),
    }
}

pub fn build_hello_request(local: &LocalHello, request_ack: bool) -> (r: Hello)
    ensures
        r.node_id == local.node_id,
        r.tcp_port == local.tcp_port,
        r.version == KAD_VERSION,
        kad::tag_views(r.tags@) == hello_request_tags(
            local.kad_udp_port,
            local.udp_verified && local.udp_open,
            local.udp_verified && !local.udp_open,
            local.tcp_firewalled,
            request_ack,
        ),
{
    Hello {
        node_id: local.node_id,
        tcp_port: local.tcp_port,
        version: KAD_VERSION,
        tags: build_kad_hello_request_tags(
            local.kad_udp_port,
            local.udp_verified && local.udp_open,
            local.udp_verified && !local.udp_open,
            local.tcp_firewalled,
            request_ack,
        ),
    }
}

/// A peer as learned from its HELLO.
#[derive(Debug, Clone, Copy, PartialEq, Eq)]
pub struct HelloContact {
    pub node_id: NodeId,
    pub ip: Ipv4Addr,
    pub udp_port: u16,
    pub tcp_port: u16,
    pub version: u8,
    pub hello_source_udp_port: Option<u16>,
    pub udp_firewalled: bool,
    pub tcp_firewalled: bool,
    pub requests_hello_res_ack: bool,
    pub udp_key: Option<u32>,
}

/// What the HELLO of a peer of that version says; an ACK request counts from version 8 on.
pub open spec fn peer_metadata(version: u8, tags: Seq<kad::TagView>) -> KadHelloPeerMetadata {
    let said = hello_metadata(tags);
    KadHelloPeerMetadata {
        requests_hello_res_ack: said.requests_hello_res_ack && version >= 8,
        ..said
    }
}

/// The contact that a HELLO adds to the routing table: one for every peer on IPv4 that does not
/// say that it is UDP-firewalled.
pub open spec fn hello_contact(
    from: SocketAddr,
    node_id: NodeId,
    tcp_port: u16,
    version: u8,
    udp_key: Option<u32>,
    tags: Seq<kad::TagView>,
) -> Option<HelloContact> {
    let said = peer_metadata(version, tags);
    match from.ip {
        IpAddr::V4(ip) => if said.udp_firewalled {
            None
        } else {
            Some(
                HelloContact {
                    node_id,
                    ip,
                    udp_port: match said.hello_source_udp_port {
                        Some(port) => port,
                        None => from.port,
                    },
                    tcp_port,
                    version,
                    hello_source_udp_port: said.hello_source_udp_port,
                    udp_firewalled: said.udp_firewalled,
                    tcp_firewalled: said.tcp_firewalled,
                    requests_hello_res_ack: said.requests_hello_res_ack,
                    udp_key,
                },
            )
        },
        IpAddr::V6(_) => None,
    }
}

/// What a HELLO says of the peer, and the contact that it adds.
pub fn add_contact_from_hello(
    from: SocketAddr,
    node_id: NodeId,
    tcp_port: u16,
    version: u8,
    udp_key: Option<u32>,
    tags: &[Tag],
) -> (r: (KadHelloPeerMetadata, Option<HelloContact>))
    ensures
        r.0 == peer_metadata(version, kad::tag_views(tags@)),
        r.1 == hello_contact(from, node_id, tcp_port, version, udp_key, kad::tag_views(tags@)),
{
    let mut metadata: KadHelloPeerMetadata = parse_kad_hello_metadata(tags);
    if version < 8 {
        metadata.requests_hello_res_ack = false;
    }
    let contact: Option<HelloContact> = match from.ip {
        IpAddr::V4(ip) => if metadata.udp_firewalled {
            None
        } else {
            Some(
                HelloContact {
                    node_id,
                    ip,
                    udp_port: match metadata.hello_source_udp_port {
                        Some(port) => port,
                        None => from.port,
                    },
                    tcp_port,
                    version,
                    hello_source_udp_port: metadata.hello_source_udp_port,
                    udp_firewalled: metadata.udp_firewalled,
                    tcp_firewalled: metadata.tcp_firewalled,
                    requests_hello_res_ack: metadata.requests_hello_res_ack,
                    udp_key,
                },
            )
        },
        IpAddr::V6(_) => None,
    };
    (metadata, contact)
}

proof fn lemma_misc_option_bits(u: bool, t: bool, a: bool)
    ensures
        (misc_options(u, t, a) & 0x01 != 0) == u,
        (misc_options(u, t, a) & 0x02 != 0) == t,
        (misc_options(u, t, a) & 0x04 != 0) == a,
{
    assert(0u8 & 0x01 == 0 && 0u8 & 0x02 == 0 && 0u8 & 0x04 == 0) by (bit_vector);
    assert(1u8 & 0x01 != 0 && 1u8 & 0x02 == 0 && 1u8 & 0x04 == 0) by (bit_vector);
    assert(2u8 & 0x01 == 0 && 2u8 & 0x02 != 0 && 2u8 & 0x04 == 0) by (bit_vector);
    assert(3u8 & 0x01 != 0 && 3u8 & 0x02 != 0 && 3u8 & 0x04 == 0) by (bit_vector);
    assert(4u8 & 0x01 == 0 && 4u8 & 0x02 == 0 && 4u8 & 0x04 != 0) by (bit_vector);
    assert(5u8 & 0x01 != 0 && 5u8 & 0x02 == 0 && 5u8 & 0x04 != 0) by (bit_vector);
    assert(6u8 & 0x01 == 0 && 6u8 & 0x02 != 0 && 6u8 & 0x04 != 0) by (bit_vector);
    assert(7u8 & 0x01 != 0 && 7u8 & 0x02 != 0 && 7u8 & 0x04 != 0) by (bit_vector);
}

/// A peer reads from a HELLO response exactly what went into it; a zero port is no port.
pub proof fn law_hello_response_round_trip(port: u16, udp: bool, tcp: bool, ack: bool)
    ensures
        hello_metadata(hello_response_tags(port, udp, tcp, ack)) == (KadHelloPeerMetadata {
            hello_source_udp_port: nonzero_port(Some(port)),
            udp_firewalled: udp,
            tcp_firewalled: tcp,
            requests_hello_res_ack: ack,
        }),
{
    let tags = hello_response_tags(port, udp, tcp, ack);
    lemma_misc_option_bits(udp, tcp, ack);
    reveal_with_fuel(hello_metadata, 3);
    assert(tags.drop_last().drop_last() =~= Seq::empty());
    assert(tags.drop_last().last() == tags[0]);
}

/// A HELLO request says of the sender's firewall and of the ACK exactly what went into it, and
/// gives the port only where there is nothing else to say and it may be given.
pub proof fn law_hello_request_round_trip(port: u16, advertise: bool, udp: bool, tcp: bool, ack: bool)
    ensures
        hello_metadata(hello_request_tags(port, advertise, udp, tcp, ack)) == (KadHelloPeerMetadata {
            hello_source_udp_port: if advertise && !udp && !tcp && !ack {
                nonzero_port(Some(port))
            } else {
                None
            },
            udp_firewalled: udp,
            tcp_firewalled: tcp,
            requests_hello_res_ack: ack,
        }),
{
    let tags = hello_request_tags(port, advertise, udp, tcp, ack);
    lemma_misc_option_bits(udp, tcp, ack);
    reveal_with_fuel(hello_metadata, 2);
    if tags.len() == 1 {
        assert(tags.drop_last() =~= Seq::empty());
    }
}

/// A tag's number is read in every width, where it fits.
pub proof fn law_tag_numbers_read(value: &TagValue, wide: Option<u16>, narrow: Option<u8>)
    requires
        call_ensures(read_u16_tag_value, (value,), wide),
        call_ensures(read_u8_tag_value, (value,), narrow),
    ensures
        *value matches TagValue::U8(n) ==> wide == Some(n as u16) && narrow == Some(n),
        *value matches TagValue::U16(n) ==> wide == Some(n) && (narrow is Some <==> n <= 255),
        *value matches TagValue::U32(n) ==> (wide is Some <==> n <= 65_535) && (narrow is Some <==> n <= 255),
        *value matches TagValue::UInt(n) ==> (wide is Some <==> n <= 65_535) && (narrow is Some <==> n <= 255),
        *value matches TagValue::U32(n) ==> (wide matches Some(w) ==> w == n),
        *value matches TagValue::UInt(n) ==> (wide matches Some(w) ==> w == n),
        narrow is Some ==> (wide matches Some(w) && narrow == Some(w as u8) && w <= 255),
        !(*value is U8) && !(*value is U16) && !(*value is U32) && !(*value is UInt) ==> wide is None && narrow is None,
{
}

/// A HELLO says of a peer only what its tags say: without a port tag no port, without options no
/// firewall and no wish for an acknowledgement; of two tags of one name the later counts, a port of
/// zero is none, and the bits of the options are UDP firewall, TCP firewall and acknowledgement, in
/// this order from the lowest.
pub proof fn law_hello_is_read(tags: &[Tag], r: KadHelloPeerMetadata)
    requires
        call_ensures(parse_kad_hello_metadata, (tags,), r),
    ensures
        kad::no_tag(tags@, 0xFC) ==> r.hello_source_udp_port is None,
        kad::no_tag(tags@, 0xF2) ==> !r.udp_firewalled && !r.tcp_firewalled && !r.requests_hello_res_ack,
        tags@.len() > 0 && tags@.last().name == TagName::Short(0xFC) ==> {
            &&& tags@.last().value matches TagValue::U16(port) ==> {
                &&& port > 0 ==> r.hello_source_udp_port == Some(port)
                &&& port == 0 ==> r.hello_source_udp_port is None
            }
            &&& tags@.last().value is String ==> r.hello_source_udp_port is None
            &&& tags@.last().value matches TagValue::U32(port) ==> (port > 65_535
                ==> r.hello_source_udp_port is None)
        },
        tags@.len() > 0 && tags@.last().name == TagName::Short(0xF2) ==> {
            &&& tags@.last().value matches TagValue::U8(bits) ==> {
                &&& r.udp_firewalled <==> bits & 1u8 != 0
                &&& r.tcp_firewalled <==> bits & 2u8 != 0
                &&& r.requests_hello_res_ack <==> bits & 4u8 != 0
            }
        },
{
    let views = kad::tag_views(tags@);
    assert(views.len() == tags@.len());
    assert forall|i: int| 0 <= i < views.len() implies #[trigger] views[i] == tags@[i]@ by {}
    if kad::no_tag(tags@, 0xFC) {
        assert forall|i: int| 0 <= i < views.len() implies (#[trigger] views[i]).name != TagNameView::Short(
            TAG_SOURCEUPORT,
        ) by {
            assert(tags@[i].name != TagName::Short(0xFC));
        }
        lemma_nothing_said(views);
    }
    if kad::no_tag(tags@, 0xF2) {
        assert forall|i: int| 0 <= i < views.len() implies (#[trigger] views[i]).name != TagNameView::Short(
            TAG_KADMISCOPTIONS,
        ) by {
            assert(tags@[i].name != TagName::Short(0xF2));
        }
        lemma_nothing_said(views);
    }
}

proof fn lemma_nothing_said(tags: Seq<kad::TagView>)
    ensures
        (forall|i: int| 0 <= i < tags.len() ==> (#[trigger] tags[i]).name != TagNameView::Short(TAG_SOURCEUPORT))
            ==> hello_metadata(tags).hello_source_udp_port is None,
        (forall|i: int|
            0 <= i < tags.len() ==> (#[trigger] tags[i]).name != TagNameView::Short(TAG_KADMISCOPTIONS)) ==> {
            &&& !hello_metadata(tags).udp_firewalled
            &&& !hello_metadata(tags).tcp_firewalled
            &&& !hello_metadata(tags).requests_hello_res_ack
        },
    decreases tags.len(),
{
    if tags.len() > 0 {
        let init = tags.drop_last();
        lemma_nothing_said(init);
        assert(forall|i: int| 0 <= i < init.len() ==> #[trigger] init[i] == tags[i]);
        assert(tags[tags.len() - 1] == tags.last());
    }
}

/// A HELLO says of each thing what it was given: the port and the options of a response both; of a
/// request the options where there is anything to say by them, and else the port where it may be
/// given. A peer reads the same back.
pub proof fn law_hello_says(
    port: u16,
    advertise: bool,
    udp: bool,
    tcp: bool,
    ack: bool,
    response: Vec<Tag>,
    request: Vec<Tag>,
    response_read: &[Tag],
    request_read: &[Tag],
    from_response: KadHelloPeerMetadata,
    from_request: KadHelloPeerMetadata,
)
    requires
        call_ensures(build_kad_hello_response_tags, (port, udp, tcp, ack), response),
        call_ensures(build_kad_hello_request_tags, (port, advertise, udp, tcp, ack), request),
        response_read@ == response@,
        request_read@ == request@,
        call_ensures(parse_kad_hello_metadata, (response_read,), from_response),
        call_ensures(parse_kad_hello_metadata, (request_read,), from_request),
    ensures
        ({
            let bits = (if udp {
                1int
            } else {
                0
            }) + (if tcp {
                2int
            } else {
                0
            }) + (if ack {
                4int
            } else {
                0
            });
            &&& kad::sole_tag(response@, 0xFC, TagValueView::U16(port))
            &&& kad::sole_tag(response@, 0xF2, TagValueView::U8(bits as u8))
            &&& response@.len() == 2
            &&& udp || tcp || ack ==> kad::sole_tag(request@, 0xF2, TagValueView::U8(bits as u8)) && request@.len()
                == 1
            &&& !udp && !tcp && !ack && advertise ==> kad::sole_tag(request@, 0xFC, TagValueView::U16(port))
                && request@.len() == 1
            &&& !udp && !tcp && !ack && !advertise ==> request@.len() == 0
        }),
        from_response.udp_firewalled == udp && from_response.tcp_firewalled == tcp
            && from_response.requests_hello_res_ack == ack,
        port > 0 ==> from_response.hello_source_udp_port == Some(port),
        port == 0 ==> from_response.hello_source_udp_port is None,
        from_request.udp_firewalled == udp && from_request.tcp_firewalled == tcp
            && from_request.requests_hello_res_ack == ack,
        from_request.hello_source_udp_port is Some <==> port > 0 && advertise && !udp && !tcp && !ack,
        from_request.hello_source_udp_port matches Some(said) ==> said == port,
{
    law_hello_response_round_trip(port, udp, tcp, ack);
    law_hello_request_round_trip(port, advertise, udp, tcp, ack);
    let views = kad::tag_views(response@);
    assert(views.len() == response@.len());
    kad::lemma_sole_tag(response@, 0, 0xFC, TagValueView::U16(port));
    kad::lemma_sole_tag(response@, 1, 0xF2, TagValueView::U8(misc_options(udp, tcp, ack)));
    let asked = kad::tag_views(request@);
    assert(asked.len() == request@.len());
    if udp || tcp || ack {
        kad::lemma_sole_tag(request@, 0, 0xF2, TagValueView::U8(misc_options(udp, tcp, ack)));
    } else if advertise {
        kad::lemma_sole_tag(request@, 0, 0xFC, TagValueView::U16(port));
    }
}

/// An acknowledgement is asked only of peers of the eighth version on whose key is known and not
/// confirmed.
pub proof fn law_ack_is_asked(version: u8, valid: bool, key: Option<u32>, r: bool)
    requires
        call_ensures(should_request_hello_response_ack, (version, valid, key), r),
    ensures
        r ==> version >= 8 && !valid && key is Some,
        version >= 8 && !valid && key is Some ==> r,
{
}

/// A server that has given an ID decides whether the agent is firewalled; without one it is where
/// nothing listens.
pub proof fn law_own_firewall(port: Option<u16>, server: &Ed2kServerState, r: bool)
    requires
        call_ensures(current_tcp_firewalled, (port, server), r),
    ensures
        server.client_id matches Some(id) ==> (r <==> id < 16_777_216),
        server.client_id is None && port is None ==> r,
        server.client_id is None && port == Some(0u16) ==> r,
        server.client_id is None ==> (port matches Some(p) ==> (p > 0 ==> !r)),
{
}

/// A HELLO is the agent's own, at its TCP port and in its version, and says that it is UDP-firewalled
/// only where that was found out. A request gives the UDP port only where it was found open.
pub proof fn law_hello_is_built(
    local: &LocalHello,
    ack: bool,
    response: Hello,
    request: Hello,
    response_read: &[Tag],
    request_read: &[Tag],
    from_response: KadHelloPeerMetadata,
    from_request: KadHelloPeerMetadata,
)
    requires
        call_ensures(build_hello_response, (local, ack), response),
        call_ensures(build_hello_request, (local, ack), request),
        response_read@ == response.tags@,
        request_read@ == request.tags@,
        call_ensures(parse_kad_hello_metadata, (response_read,), from_response),
        call_ensures(parse_kad_hello_metadata, (request_read,), from_request),
    ensures
        response.node_id == local.node_id && request.node_id == local.node_id,
        response.tcp_port == local.tcp_port && request.tcp_port == local.tcp_port,
        response.version == 9 && request.version == 9,
        from_response.udp_firewalled <==> local.udp_verified && !local.udp_open,
        from_request.udp_firewalled <==> local.udp_verified && !local.udp_open,
        from_response.tcp_firewalled == local.tcp_firewalled && from_request.tcp_firewalled == local.tcp_firewalled,
        from_response.requests_hello_res_ack == ack && from_request.requests_hello_res_ack == ack,
        local.kad_udp_port > 0 ==> from_response.hello_source_udp_port == Some(local.kad_udp_port),
        from_request.hello_source_udp_port matches Some(port) ==> {
            &&& port == local.kad_udp_port
            &&& local.udp_verified && local.udp_open
            &&& !local.tcp_firewalled && !ack
        },
        local.kad_udp_port > 0 && local.udp_verified && local.udp_open && !local.tcp_firewalled && !ack
            ==> from_request.hello_source_udp_port is Some,
{
    law_hello_response_round_trip(
        local.kad_udp_port,
        local.udp_verified && !local.udp_open,
        local.tcp_firewalled,
        ack,
    );
    law_hello_request_round_trip(
        local.kad_udp_port,
        local.udp_verified && local.udp_open,
        local.udp_verified && !local.udp_open,
        local.tcp_firewalled,
        ack,
    );
}

/// A HELLO adds a contact exactly where the peer is on IPv4 and does not say that it is UDP-firewalled:
/// at the address that it came from and the port that it gives, or else that it came from. A peer
/// before the eighth version wants no acknowledgement.
pub proof fn law_hello_adds_a_contact(
    from: SocketAddr,
    node_id: NodeId,
    tcp_port: u16,
    version: u8,
    key: Option<u32>,
    tags: &[Tag],
    said: KadHelloPeerMetadata,
    r: (KadHelloPeerMetadata, Option<HelloContact>),
)
    requires
        call_ensures(parse_kad_hello_metadata, (tags,), said),
        call_ensures(add_contact_from_hello, (from, node_id, tcp_port, version, key, tags), r),
    ensures
        r.0.hello_source_udp_port == said.hello_source_udp_port,
        r.0.udp_firewalled == said.udp_firewalled,
        r.0.tcp_firewalled == said.tcp_firewalled,
        r.0.requests_hello_res_ack <==> said.requests_hello_res_ack && version >= 8,
        r.1 is Some <==> from.ip is V4 && !said.udp_firewalled,
        r.1 matches Some(contact) ==> {
            &&& contact.node_id == node_id
            &&& IpAddr::V4(contact.ip) == from.ip
            &&& said.hello_source_udp_port matches Some(port) ==> contact.udp_port == port
            &&& said.hello_source_udp_port is None ==> contact.udp_port == from.port
            &&& contact.tcp_port == tcp_port
            &&& contact.version == version
            &&& contact.hello_source_udp_port == said.hello_source_udp_port
            &&& !contact.udp_firewalled
            &&& contact.tcp_firewalled == said.tcp_firewalled
            &&& contact.requests_hello_res_ack == r.0.requests_hello_res_ack
            &&& contact.udp_key == key
        },
{
}

} // verus!
