//! Answering Kad packets that nobody asked for.

use vstd::prelude::*;
use vstd::string::*;
use crate::ids;
use crate::ids::{Ed2kHash, IpAddr, Ipv4Addr, NodeId, SocketAddr, Timestamp};
use crate::kad;
use crate::kad::{
    Contact, ContactEntry, SearchKeyReq, SearchNotesReq, SearchSourceReq, K, KAD_VERSION,
};
use crate::kad_hello;
use crate::kad_hello::{add_contact_from_hello, should_request_hello_response_ack, Hello, HelloContact};
use crate::snoop;
use crate::snoop::{build_keyword_snoop_entry, build_notes_snoop_entry, build_source_snoop_entry};
use crate::text;
use crate::types;
use crate::types::SnoopEntry;

verus! {

broadcast use vstd::string::group_string_axioms;

/// The number of entries of the local store in one answer.
pub const LOCAL_SEARCH_RESPONSE_LIMIT: usize = 64;

/// A Kad packet, as far as the agent's answer depends on it.
#[allow(inconsistent_fields)]
#[derive(Debug, PartialEq, Eq)]
pub enum KadPacket {
    Ping,
    FirewalledReq { tcp_port: u16 },
    Firewalled2Req { tcp_port: u16, user_hash: Ed2kHash, connect_options: u8 },
    FirewallUdp { error_code: u8, udp_port: u16 },
    FindBuddyReq,
    FindBuddyRes,
    CallbackReq,
    HelloReq { hello: Hello },
    HelloRes { hello: Hello },
    HelloResAck,
    BootstrapReq,
    Req { target: NodeId, count: u8 },
    SearchKeyReq { request: SearchKeyReq },
    SearchSourceReq { request: SearchSourceReq },
    SearchNotesReq { request: SearchNotesReq },
    PublishKeyReq { target: NodeId },
    PublishSourceReq { target: NodeId },
    PublishNotesReq { target: NodeId },
    /// A packet that is not answered here.
    Other,
}

/// The acknowledgement of a publish.
#[derive(Debug, Clone, Copy, PartialEq, Eq)]
pub struct PublishRes {
    pub target: NodeId,
    pub load: u8,
    pub options: Option<u8>,
}

/// One step of an answer. The steps of an answer are taken in order.
#[derive(Debug, PartialEq, Eq)]
pub enum KadAction {
    SendPong { udp_port: u16 },
    /// Tell the peer its address and try a connection to that port.
    AnswerFirewalled { tcp_port: u16 },
    /// The same, with an acknowledgement over an eD2k connection.
    AnswerFirewalled2 { tcp_port: u16, user_hash: Ed2kHash, connect_options: u8 },
    RecordFirewallUdp { reporter: IpAddr, error_code: u8, udp_port: u16 },
    RegisterPeerKey { udp_key: u32 },
    AddContact { contact: HelloContact },
    SendHelloRes { request_ack: bool },
    SendHelloResAck,
    /// Ask the peer whether the agent is firewalled, where that is in question.
    CheckFirewalled { peer_version: u8 },
    /// Send the contacts closest to the agent itself.
    SendBootstrapRes { count: usize },
    /// Send the contacts closest to a target.
    SendClosest { target: NodeId, count: usize },
    RecordSnoop { entry: SnoopEntry },
    /// Answer the search from the local store, where it has anything.
    AnswerFromStore { limit: usize },
    /// Store what the packet publishes.
    StoreKeywords,
    StoreNotes,
    /// Store the source that the packet publishes, and acknowledge it where it is accepted.
    StoreSource { ip: Ipv4Addr, port: u16 },
    SendPublishRes { reply: PublishRes },
}

/// The steps that a HELLO of a peer leads to before it is answered: its key is noted, and it
/// becomes a contact.
pub open spec fn hello_intake(hello: Hello, from: SocketAddr, sender_key: Option<u32>) -> Seq<KadAction> {
    let keyed = match sender_key {
        Some(udp_key) => seq![KadAction::RegisterPeerKey { udp_key }],
        None => Seq::empty(),
    };
    match kad_hello::hello_contact(
        from,
        hello.node_id,
        hello.tcp_port,
        hello.version,
        sender_key,
        kad::tag_views(hello.tags@),
    ) {
        Some(contact) => keyed.push(KadAction::AddContact { contact }),
        None => keyed,
    }
}

/// The steps of the answer to a packet that is not a search.
pub open spec fn answer(packet: KadPacket, from: SocketAddr, sender_key: Option<u32>, receiver_key_valid: bool) -> Seq<
    KadAction,
> {
    match packet {
        KadPacket::Ping => seq![KadAction::SendPong { udp_port: from.port }],
        KadPacket::FirewalledReq { tcp_port } => seq![KadAction::AnswerFirewalled { tcp_port }],
        KadPacket::Firewalled2Req { tcp_port, user_hash, connect_options } => seq![
            KadAction::AnswerFirewalled2 { tcp_port, user_hash, connect_options },
        ],
        KadPacket::FirewallUdp { error_code, udp_port } => seq![
            KadAction::RecordFirewallUdp { reporter: from.ip, error_code, udp_port },
        ],
        KadPacket::HelloReq { hello } => hello_intake(hello, from, sender_key).push(
            KadAction::SendHelloRes {
                request_ack: hello.version >= 8 && !receiver_key_valid && sender_key is Some,
            },
        ).push(KadAction::CheckFirewalled { peer_version: hello.version }),
        KadPacket::HelloRes { hello } => {
            let taken_in = hello_intake(hello, from, sender_key);
            let acked = if kad_hello::peer_metadata(hello.version, kad::tag_views(hello.tags@)).requests_hello_res_ack
                && sender_key is Some {
                taken_in.push(KadAction::SendHelloResAck)
            } else {
                taken_in
            };
            acked.push(KadAction::CheckFirewalled { peer_version: hello.version })
        },
        KadPacket::BootstrapReq => seq![KadAction::SendBootstrapRes { count: K }],
        KadPacket::Req { target, count } => seq![
            KadAction::SendClosest { target, count: count as usize },
        ],
        KadPacket::PublishKeyReq { target } => seq![
            KadAction::StoreKeywords,
            KadAction::SendPublishRes { reply: PublishRes { target, load: 0, options: None } },
        ],
        KadPacket::PublishSourceReq { target } => match from.ip {
            IpAddr::V4(ip) => seq![KadAction::StoreSource { ip, port: from.port }],
            IpAddr::V6(_) => Seq::empty(),
        },
        KadPacket::PublishNotesReq { target } => seq![
            KadAction::StoreNotes,
            KadAction::SendPublishRes { reply: PublishRes { target, load: 0, options: None } },
        ],
        _ => Seq::empty(),
    }
}

/// Whether `actions` record `entry` and answer from the local store.
pub open spec fn records_and_answers(actions: Seq<KadAction>, entry: SnoopEntry) -> bool {
    actions == seq![
        KadAction::RecordSnoop { entry },
        KadAction::AnswerFromStore { limit: LOCAL_SEARCH_RESPONSE_LIMIT },
    ]
}

/// Whether `entry` is what is recorded of a keyword search.
pub open spec fn keyword_entry(request: SearchKeyReq, now: Timestamp, entry: SnoopEntry) -> bool {
    &&& entry is Keyword
    &&& snoop::seen_once(entry, now)
    &&& entry.key_of()@ == snoop::keyword_key(
        request.target,
        request.start_position,
        request.restrictive_payload@,
    )
    &&& entry.target_of()@ == text::hex_text(request.target.0@)
    &&& entry.start_of() == Some(request.start_position)
    &&& types::opt_text(entry.payload_of()) == snoop::payload_text(request.restrictive_payload@)
}

/// Whether `entry` is what is recorded of a source search.
pub open spec fn source_entry(request: SearchSourceReq, now: Timestamp, entry: SnoopEntry) -> bool {
    &&& entry is Source
    &&& snoop::seen_once(entry, now)
    &&& entry.key_of()@ == snoop::source_key(request.target, request.start_position, request.size)
    &&& entry.target_of()@ == text::hex_text(request.target.0@)
    &&& entry.start_of() == Some(request.start_position)
    &&& entry.size_of() == Some(request.size)
}

/// Whether `entry` is what is recorded of a notes search.
pub open spec fn notes_entry(request: SearchNotesReq, now: Timestamp, entry: SnoopEntry) -> bool {
    &&& entry is Notes
    &&& snoop::seen_once(entry, now)
    &&& entry.key_of()@ == snoop::notes_key(request.target, request.size)
    &&& entry.target_of()@ == text::hex_text(request.target.0@)
    &&& entry.size_of() == Some(request.size)
}

fn take_in_hello(hello: &Hello, from: SocketAddr, sender_key: Option<u32>, actions: &mut Vec<KadAction>) -> (r:
    kad_hello::KadHelloPeerMetadata)
    requires
        old(actions)@.len() == 0,
    ensures
        final(actions)@ == hello_intake(*hello, from, sender_key),
        r == kad_hello::peer_metadata(hello.version, kad::tag_views(hello.tags@)),
{
    match sender_key {
        Some(udp_key) => {
            actions.push(KadAction::RegisterPeerKey { udp_key });
        },
        None => {},
    }
    let (metadata, contact) = add_contact_from_hello(
        from,
        hello.node_id,
        hello.tcp_port,
        hello.version,
        sender_key,
        hello.tags.as_slice(),
    );
    match contact {
        Some(contact) => {
            actions.push(KadAction::AddContact { contact });
        },
        None => {},
    }
    assert(actions@ =~= hello_intake(*hello, from, sender_key));
    metadata
}

fn record_and_answer(entry: SnoopEntry) -> (r: Vec<KadAction>)
    ensures
        records_and_answers(r@, entry),
{
    let mut actions: Vec<KadAction> = Vec::new();
    actions.push(KadAction::RecordSnoop { entry });
    actions.push(KadAction::AnswerFromStore { limit: LOCAL_SEARCH_RESPONSE_LIMIT });
    assert(actions@ =~= seq![
        KadAction::RecordSnoop { entry },
        KadAction::AnswerFromStore { limit: LOCAL_SEARCH_RESPONSE_LIMIT },
    ]);
    actions
}

/// The steps of the answer to a packet. Searches are recorded and answered from the local store;
/// buddy and callback packets are not answered.
pub fn handle_unsolicited_packet(
    packet: &KadPacket,
    from: SocketAddr,
    sender_verify_key: Option<u32>,
    receiver_verify_key_valid: bool,
    now: Timestamp,
) -> (r: Vec<KadAction>)
    ensures
        match *packet {
            KadPacket::SearchKeyReq { request } => exists|entry: SnoopEntry| #[trigger]
                records_and_answers(r@, entry) && keyword_entry(request, now, entry),
            KadPacket::SearchSourceReq { request } => exists|entry: SnoopEntry| #[trigger]
                records_and_answers(r@, entry) && source_entry(request, now, entry),
            KadPacket::SearchNotesReq { request } => exists|entry: SnoopEntry| #[trigger]
                records_and_answers(r@, entry) && notes_entry(request, now, entry),
            _ => r@ == answer(*packet, from, sender_verify_key, receiver_verify_key_valid),
        },
{
    let mut actions: Vec<KadAction> = Vec::new();
    match packet {
        KadPacket::Ping => {
            actions.push(KadAction::SendPong { udp_port: from.port });
        },
        KadPacket::FirewalledReq { tcp_port } => {
            actions.push(KadAction::AnswerFirewalled { tcp_port: *tcp_port });
        },
        KadPacket::Firewalled2Req { tcp_port, user_hash, connect_options } => {
            actions.push(
                KadAction::AnswerFirewalled2 {
                    tcp_port: *tcp_port,
                    user_hash: *user_hash,
                    connect_options: *connect_options,
                },
            );
        },
        KadPacket::FirewallUdp { error_code, udp_port } => {
            actions.push(
                KadAction::RecordFirewallUdp {
                    reporter: from.ip,
                    error_code: *error_code,
                    udp_port: *udp_port,
                },
            );
        },
        KadPacket::HelloReq { hello } => {
            let _said = take_in_hello(hello, from, sender_verify_key, &mut actions);
            actions.push(
                KadAction::SendHelloRes {
                    request_ack: should_request_hello_response_ack(
                        hello.version,
                        receiver_verify_key_valid,
                        sender_verify_key,
                    ),
                },
            );
            actions.push(KadAction::CheckFirewalled { peer_version: hello.version });
        },
        KadPacket::HelloRes { hello } => {
            let said = take_in_hello(hello, from, sender_verify_key, &mut actions);
            if said.requests_hello_res_ack && sender_verify_key.is_some() {
                actions.push(KadAction::SendHelloResAck);
            }
            actions.push(KadAction::CheckFirewalled { peer_version: hello.version });
        },
        KadPacket::BootstrapReq => {
            actions.push(KadAction::SendBootstrapRes { count: K });
        },
        KadPacket::Req { target, count } => {
            actions.push(KadAction::SendClosest { target: *target, count: *count as usize });
        },
        KadPacket::SearchKeyReq { request } => {
            let entry: SnoopEntry = build_keyword_snoop_entry(request, now);
            assert(keyword_entry(*request, now, entry));
            return record_and_answer(entry);
        },
        KadPacket::SearchSourceReq { request } => {
            let entry: SnoopEntry = build_source_snoop_entry(request, now);
            assert(source_entry(*request, now, entry));
            return record_and_answer(entry);
        },
        KadPacket::SearchNotesReq { request } => {
            let entry: SnoopEntry = build_notes_snoop_entry(request, now);
            assert(notes_entry(*request, now, entry));
            return record_and_answer(entry);
        },
        KadPacket::PublishKeyReq { target } => {
            actions.push(KadAction::StoreKeywords);
            actions.push(
                KadAction::SendPublishRes {
                    reply: PublishRes { target: *target, load: 0, options: None },
                },
            );
        },
        KadPacket::PublishSourceReq { .. } => match from.ip {
            IpAddr::V4(ip) => {
                actions.push(KadAction::StoreSource { ip, port: from.port });
            },
            IpAddr::V6(_) => {},
        },
        KadPacket::PublishNotesReq { target } => {
            actions.push(KadAction::StoreNotes);
            actions.push(
                KadAction::SendPublishRes {
                    reply: PublishRes { target: *target, load: 0, options: None },
                },
            );
        },
        KadPacket::FindBuddyReq => {},
        KadPacket::FindBuddyRes => {},
        KadPacket::CallbackReq => {},
        KadPacket::HelloResAck => {},
        KadPacket::Other => {},
    }
    assert(actions@ =~= answer(*packet, from, sender_verify_key, receiver_verify_key_valid));
    actions
}

/// The acknowledgement of a source publish, where the store has accepted the source.
pub fn after_source_publish(accepted: bool, target: NodeId) -> (r: Option<PublishRes>)
    ensures
        r == if accepted {
            Some(PublishRes { target, load: 0, options: None })
        } else {
            None
        },
{
    if accepted {
        Some(PublishRes { target, load: 0, options: None })
    } else {
        None
    }
}

/// A contact as it is listed in a reply.
pub open spec fn entry_of(contact: Contact) -> ContactEntry {
    ContactEntry {
        node_id: contact.id,
        ip: contact.ip.bits() as u32,
        udp_port: contact.udp_port,
        tcp_port: contact.tcp_port,
        version: contact.kad_version,
    }
}

pub fn contact_to_entry(contact: Contact) -> (r: ContactEntry)
    ensures
        r == entry_of(contact),
{
    ContactEntry {
        node_id: contact.id,
        ip: contact.ip.to_bits(),
        udp_port: contact.udp_port,
        tcp_port: contact.tcp_port,
        version: contact.kad_version,
    }
}

fn contact_entries(contacts: &Vec<Contact>) -> (r: Vec<ContactEntry>)
    ensures
        r@ == contacts@.map_values(|contact: Contact| entry_of(contact)),
{
    let mut entries: Vec<ContactEntry> = Vec::new();
    let mut i: usize = 0;
    while i < contacts.len()
        invariant
            i <= contacts.len(),
            entries@.len() == i,
            forall|j: int| 0 <= j < i ==> #[trigger] entries@[j] == entry_of(contacts@[j]),
        decreases contacts.len() - i,
    {
        entries.push(contact_to_entry(contacts[i]));
        i = i + 1;
    }
    assert(entries@ =~= contacts@.map_values(|contact: Contact| entry_of(contact)));
    entries
}

/// The reply to a bootstrap request.
#[derive(Debug, PartialEq, Eq)]
pub struct BootstrapRes {
    pub sender_id: NodeId,
    pub sender_tcp_port: u16,
    pub sender_version: u8,
    pub contacts: Vec<ContactEntry>,
}

/// Builds the reply to a bootstrap request from the contacts closest to the agent.
pub fn bootstrap_response(own_id: NodeId, bind_port: u16, closest: &Vec<Contact>) -> (r: BootstrapRes)
    ensures
        r.sender_id == own_id,
        r.sender_tcp_port == bind_port,
        r.sender_version == KAD_VERSION,
        r.contacts@ == closest@.map_values(|contact: Contact| entry_of(contact)),
{
    BootstrapRes {
        sender_id: own_id,
        sender_tcp_port: bind_port,
        sender_version: KAD_VERSION,
        contacts: contact_entries(closest),
    }
}

/// The reply to a lookup.
#[derive(Debug, PartialEq, Eq)]
pub struct LookupRes {
    pub target: NodeId,
    pub contacts: Vec<ContactEntry>,
}

/// Builds the reply to a lookup from the contacts closest to its target.
pub fn lookup_response(target: NodeId, closest: &Vec<Contact>) -> (r: LookupRes)
    ensures
        r.target == target,
        r.contacts@ == closest@.map_values(|contact: Contact| entry_of(contact)),
{
    LookupRes { target, contacts: contact_entries(closest) }
}

/// A HELLO request is always answered, and an acknowledgement is asked for exactly where the peer
/// knows of it, has not proved itself yet, and gave a key to do so.
pub proof fn law_hello_answered(hello: Hello, from: SocketAddr, sender_key: Option<u32>, valid: bool)
    ensures
        ({
            let steps = answer(KadPacket::HelloReq { hello }, from, sender_key, valid);
            &&& exists|i: int| 0 <= i < steps.len() && #[trigger] steps[i] is SendHelloRes
            &&& forall|i: int|
                0 <= i < steps.len() && #[trigger] steps[i] is SendHelloRes ==> steps[i]->request_ack == (
                hello.version >= 8 && !valid && sender_key is Some)
        }),
{
    let steps = answer(KadPacket::HelloReq { hello }, from, sender_key, valid);
    let intake = hello_intake(hello, from, sender_key);
    assert(steps[intake.len() as int] is SendHelloRes);
    assert forall|i: int| 0 <= i < intake.len() implies !(#[trigger] steps[i] is SendHelloRes) by {
        assert(steps[i] == intake[i]);
    }
}

/// Whether a step acknowledges a publish for that target.
pub open spec fn acknowledges(step: KadAction, target: NodeId) -> bool {
    step matches KadAction::SendPublishRes { reply } && reply.target == target
}

/// A publish of keywords or notes is stored before it is acknowledged, and it is acknowledged once,
/// to its own target.
pub proof fn law_publishes_are_stored_then_acknowledged(
    packet: &KadPacket,
    from: SocketAddr,
    key: Option<u32>,
    valid: bool,
    now: Timestamp,
    r: Vec<KadAction>,
)
    requires
        call_ensures(handle_unsolicited_packet, (packet, from, key, valid, now), r),
        packet is PublishKeyReq || packet is PublishNotesReq,
    ensures
        ({
            let target = match *packet {
                KadPacket::PublishKeyReq { target } => target,
                KadPacket::PublishNotesReq { target } => target,
                _ => arbitrary(),
            };
            &&& exists|i: int, j: int|
                0 <= i < j < r@.len() && (packet is PublishKeyReq ==> #[trigger] r@[i] is StoreKeywords) && (
                packet is PublishNotesReq ==> r@[i] is StoreNotes) && acknowledges(#[trigger] r@[j], target)
            &&& forall|i: int, j: int|
                0 <= i < r@.len() && 0 <= j < r@.len() && #[trigger] r@[i] is SendPublishRes
                    && #[trigger] r@[j] is SendPublishRes ==> i == j
            &&& forall|j: int| 0 <= j < r@.len() && #[trigger] r@[j] is SendPublishRes ==> r@[j]->reply.load == 0
        }),
{
    let steps = r@;
    assert(steps.len() == 2);
    let target = match *packet {
        KadPacket::PublishKeyReq { target } => target,
        KadPacket::PublishNotesReq { target } => target,
        _ => arbitrary(),
    };
    assert(acknowledges(steps[1], target));
    assert(packet is PublishKeyReq ==> steps[0] is StoreKeywords);
    assert(packet is PublishNotesReq ==> steps[0] is StoreNotes);
}

/// A published source is stored at the address that the packet came from, and is acknowledged
/// exactly where the store has accepted it.
pub proof fn law_published_source_is_stored(
    packet: &KadPacket,
    from: SocketAddr,
    key: Option<u32>,
    valid: bool,
    now: Timestamp,
    r: Vec<KadAction>,
    accepted: bool,
    target: NodeId,
    reply: Option<PublishRes>,
)
    requires
        call_ensures(handle_unsolicited_packet, (packet, from, key, valid, now), r),
        packet is PublishSourceReq,
        call_ensures(after_source_publish, (accepted, target), reply),
    ensures
        from.ip matches IpAddr::V4(ip) ==> r@ == seq![KadAction::StoreSource { ip, port: from.port }],
        from.ip is V6 ==> r@.len() == 0,
        reply is Some <==> accepted,
        reply matches Some(res) ==> res.target == target && res.load == 0,
{
}

/// Every search of a peer is recorded as what was asked, and is answered from the local store.
pub proof fn law_searches_are_recorded_and_answered(
    packet: &KadPacket,
    from: SocketAddr,
    key: Option<u32>,
    valid: bool,
    now: Timestamp,
    r: Vec<KadAction>,
)
    requires
        call_ensures(handle_unsolicited_packet, (packet, from, key, valid, now), r),
        packet is SearchKeyReq || packet is SearchSourceReq || packet is SearchNotesReq,
    ensures
        r@.len() == 2 && r@[0] is RecordSnoop,
        r@[1] == (KadAction::AnswerFromStore { limit: 64 }),
        packet matches KadPacket::SearchKeyReq { request } ==> (r@[0]->entry matches SnoopEntry::Keyword {
            logical_key,
            target,
            start_position,
            restrictive_payload_hex,
            hit_count,
            last_seen,
            ..
        } && text::hex_bytes(target@) == request.target.0@ && start_position == request.start_position && hit_count
            == 1 && last_seen == now && (restrictive_payload_hex is Some <==> request.restrictive_payload@.len()
            > 0) && (restrictive_payload_hex matches Some(payload) ==> text::hex_bytes(payload@)
            == request.restrictive_payload@) && logical_key@ == snoop::keyword_key(
            request.target,
            request.start_position,
            request.restrictive_payload@,
        )),
        packet matches KadPacket::SearchSourceReq { request } ==> (r@[0]->entry matches SnoopEntry::Source {
            logical_key,
            target,
            start_position,
            size,
            hit_count,
            last_seen,
            ..
        } && text::hex_bytes(target@) == request.target.0@ && start_position == request.start_position && size
            == request.size && hit_count == 1 && last_seen == now && logical_key@ == snoop::source_key(
            request.target,
            request.start_position,
            request.size,
        )),
        packet matches KadPacket::SearchNotesReq { request } ==> (r@[0]->entry matches SnoopEntry::Notes {
            logical_key,
            target,
            size,
            hit_count,
            last_seen,
            ..
        } && text::hex_bytes(target@) == request.target.0@ && size == request.size && hit_count == 1 && last_seen
            == now && logical_key@ == snoop::notes_key(request.target, request.size)),
{
    match *packet {
        KadPacket::SearchKeyReq { request } => {
            ids::law_hex_round_trip(request.target.0@);
            ids::law_hex_round_trip(request.restrictive_payload@);
        },
        KadPacket::SearchSourceReq { request } => {
            ids::law_hex_round_trip(request.target.0@);
        },
        KadPacket::SearchNotesReq { request } => {
            ids::law_hex_round_trip(request.target.0@);
        },
        _ => {},
    }
}

/// A peer that asks is answered, to what it asked: a ping with the port it came from, a lookup with
/// as many contacts of its target as it wants, a bootstrap request with ten contacts, a question
/// whether it is firewalled with an attempt at the port it names. A peer's verdict on the agent's
/// UDP port is recorded with who gave it.
pub proof fn law_questions_are_answered(
    packet: &KadPacket,
    from: SocketAddr,
    key: Option<u32>,
    valid: bool,
    now: Timestamp,
    r: Vec<KadAction>,
)
    requires
        call_ensures(handle_unsolicited_packet, (packet, from, key, valid, now), r),
    ensures
        packet is Ping ==> r@.len() == 1 && r@[0] == (KadAction::SendPong { udp_port: from.port }),
        *packet matches KadPacket::Req { target, count } ==> r@.len() == 1 && r@[0] == (KadAction::SendClosest {
            target,
            count: count as usize,
        }),
        packet is BootstrapReq ==> r@.len() == 1 && r@[0] == (KadAction::SendBootstrapRes { count: 10 }),
        *packet matches KadPacket::FirewalledReq { tcp_port } ==> r@.len() == 1 && r@[0]
            == (KadAction::AnswerFirewalled { tcp_port }),
        *packet matches KadPacket::Firewalled2Req { tcp_port, user_hash, connect_options } ==> r@.len() == 1 && r@[0]
            == (KadAction::AnswerFirewalled2 { tcp_port, user_hash, connect_options }),
        *packet matches KadPacket::FirewallUdp { error_code, udp_port } ==> r@.len() == 1 && r@[0]
            == (KadAction::RecordFirewallUdp { reporter: from.ip, error_code, udp_port }),
        packet is FindBuddyReq || packet is FindBuddyRes || packet is CallbackReq || packet is HelloResAck
            || packet is Other ==> r@.len() == 0,
{
}

/// A peer that greets is taken in before it is answered: its key is noted where it has one, it is
/// added as the contact that it says it is, and it is asked whether the agent is firewalled. Its
/// HELLO is answered once; the answer to the agent's own HELLO is acknowledged exactly where the
/// peer asks for that and has given a key.
pub proof fn law_greetings_are_taken_in(
    packet: &KadPacket,
    from: SocketAddr,
    key: Option<u32>,
    valid: bool,
    now: Timestamp,
    r: Vec<KadAction>,
)
    requires
        call_ensures(handle_unsolicited_packet, (packet, from, key, valid, now), r),
        packet is HelloReq || packet is HelloRes,
    ensures
        ({
            let hello = match *packet {
                KadPacket::HelloReq { hello } => hello,
                KadPacket::HelloRes { hello } => hello,
                _ => arbitrary(),
            };
            let contact = kad_hello::hello_contact(
                from,
                hello.node_id,
                hello.tcp_port,
                hello.version,
                key,
                kad::tag_views(hello.tags@),
            );
            &&& r@.len() > 0 && r@.last() == (KadAction::CheckFirewalled { peer_version: hello.version })
            &&& key matches Some(udp_key) ==> r@[0] == (KadAction::RegisterPeerKey { udp_key })
            &&& contact matches Some(c) ==> r@.contains(KadAction::AddContact { contact: c })
            &&& packet is HelloReq ==> r@.len() > 1 && r@[r@.len() - 2] == (KadAction::SendHelloRes {
                request_ack: hello.version >= 8 && !valid && key is Some,
            })
            &&& packet is HelloReq ==> !r@.contains(KadAction::SendHelloResAck)
            &&& packet is HelloRes ==> (r@.contains(KadAction::SendHelloResAck) <==> (key is Some
                && kad_hello::peer_metadata(hello.version, kad::tag_views(hello.tags@)).requests_hello_res_ack))
        }),
{
    let hello = match *packet {
        KadPacket::HelloReq { hello } => hello,
        KadPacket::HelloRes { hello } => hello,
        _ => arbitrary(),
    };
    let intake = hello_intake(hello, from, key);
    assert forall|i: int| 0 <= i < intake.len() implies #[trigger] r@[i] == intake[i] by {}
    let contact = kad_hello::hello_contact(
        from,
        hello.node_id,
        hello.tcp_port,
        hello.version,
        key,
        kad::tag_views(hello.tags@),
    );
    if contact is Some {
        assert(r@[intake.len() - 1] == intake[intake.len() - 1]);
    }
    if key is Some {
        assert(r@[0] == intake[0]);
    }
    let acked = kad_hello::peer_metadata(hello.version, kad::tag_views(hello.tags@)).requests_hello_res_ack && key is Some;
    if packet is HelloRes && acked {
        assert(r@[intake.len() as int] is SendHelloResAck);
    } else {
        assert forall|i: int| 0 <= i < r@.len() implies !(#[trigger] r@[i] is SendHelloResAck) by {
            if i < intake.len() {
                assert(r@[i] == intake[i]);
            }
        }
    }
}

/// A contact is listed in a reply as what it is, and a reply lists all the contacts that it is made
/// from, in their order.
pub proof fn law_replies_list_contacts(
    own_id: NodeId,
    port: u16,
    closest: &Vec<Contact>,
    target: NodeId,
    b: BootstrapRes,
    l: LookupRes,
)
    requires
        call_ensures(bootstrap_response, (own_id, port, closest), b),
        call_ensures(lookup_response, (target, closest), l),
    ensures
        b.sender_id == own_id && b.sender_tcp_port == port && b.sender_version == KAD_VERSION,
        l.target == target,
        b.contacts@.len() == closest@.len() && l.contacts@ == b.contacts@,
        forall|i: int|
            0 <= i < closest@.len() ==> {
                let entry = #[trigger] b.contacts@[i];
                &&& entry.node_id == closest@[i].id && entry.udp_port == closest@[i].udp_port
                &&& entry.tcp_port == closest@[i].tcp_port && entry.version == closest@[i].kad_version
                &&& entry.ip == closest@[i].ip.a * 0x100_0000 + closest@[i].ip.b * 0x1_0000 + closest@[i].ip.c
                    * 0x100 + closest@[i].ip.d
            },
{
}

/// A contact is listed by its identity, its address as one number, its ports and its version.
pub proof fn law_contact_entry(contact: Contact, r: ContactEntry)
    requires
        call_ensures(contact_to_entry, (contact,), r),
    ensures
        r.node_id == contact.id,
        r.ip == contact.ip.a * 0x100_0000 + contact.ip.b * 0x1_0000 + contact.ip.c * 0x100 + contact.ip.d,
        r.udp_port == contact.udp_port,
        r.tcp_port == contact.tcp_port,
        r.version == contact.kad_version,
{
}

} // verus!
