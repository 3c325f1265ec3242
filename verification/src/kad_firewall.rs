//! Finding out whether the agent is firewalled, and helping peers to find out the same.

use vstd::prelude::*;
use vstd::string::*;
use crate::ed2k::Ed2kHelloIdentity;
use crate::ids::{Ed2kHash, Endpoint, IpAddr, Ipv4Addr, SocketAddr};
use crate::kad::{Contact, ContactType};
use crate::publish::emule_connect_options;
use crate::random::shuffle_contacts;
use crate::text::same_text;

verus! {

broadcast use vstd::string::group_string_axioms;

pub const KAD_EXTERNAL_PORT_DISCOVERY_MAX_ATTEMPTS: usize = 8;

pub const UDP_FIREWALL_HELPER_CANDIDATE_MULTIPLIER: usize = 4;

/// The ports on which a UDP firewall check is expected to come in.
#[derive(Debug, Clone, Copy, PartialEq, Eq, Structural)]
pub struct ActiveUdpFirewallPorts {
    pub internal: u16,
    /// Zero where it is not known.
    pub external: u16,
}

impl ActiveUdpFirewallPorts {
    /// The internal port, and the external one where it is another.
    pub open spec fn expected(self) -> Seq<u16> {
        if self.external != 0 && self.external != self.internal {
            seq![self.internal, self.external]
        } else {
            seq![self.internal]
        }
    }

    pub fn expected_ports(self) -> (r: Vec<u16>)
        ensures
            r@ == self.expected(),
    {
        let mut ports: Vec<u16> = Vec::new();
        ports.push(self.internal);
        if self.external != 0 && self.external != self.internal {
            ports.push(self.external);
        }
        assert(ports@ =~= self.expected());
        ports
    }
}

#[derive(Debug, Clone, Copy, PartialEq, Eq, Structural)]
pub enum TransportProtocol {
    Tcp,
    Udp,
}

/// A port mapping of the NAT.
#[derive(Debug, PartialEq, Eq)]
pub struct NatMapping {
    pub name: String,
    pub protocol: TransportProtocol,
    pub external_port: u16,
}

/// Whether a mapping is the one of the Kad socket.
pub open spec fn is_kad_mapping(mapping: NatMapping) -> bool {
    mapping.name@ == "kad"@ && mapping.protocol == TransportProtocol::Udp
}

/// The external port of the first mapping of the Kad socket.
pub open spec fn mapped_udp_port(mappings: Seq<NatMapping>) -> Option<u16>
    decreases mappings.len(),
{
    if mappings.len() == 0 {
        None
    } else if is_kad_mapping(mappings.first()) {
        Some(mappings.first().external_port)
    } else {
        mapped_udp_port(mappings.drop_first())
    }
}

pub fn nat_external_udp_port(mappings: &Vec<NatMapping>) -> (r: Option<u16>)
    ensures
        r == mapped_udp_port(mappings@),
{
    let mut i: usize = 0;
    assert(mappings@.skip(0) =~= mappings@);
    while i < mappings.len()
        invariant
            i <= mappings.len(),
            mapped_udp_port(mappings@.skip(i as int)) == mapped_udp_port(mappings@),
        decreases mappings.len() - i,
    {
        assert(mappings@.skip(i as int).drop_first() =~= mappings@.skip(i + 1));
        if same_text(mappings[i].name.as_str(), "kad") && mappings[i].protocol == TransportProtocol::Udp {
            return Some(mappings[i].external_port);
        }
        i = i + 1;
    }
    None
}

/// The ports of a check: the external one is the NAT's, and where the NAT has none, the one that
/// peers report (`discovered`, zero where they do not agree on one).
pub fn active_udp_firewall_ports(mappings: &Vec<NatMapping>, internal_udp_port: u16, discovered: u16) -> (r:
    ActiveUdpFirewallPorts)
    ensures
        r == (ActiveUdpFirewallPorts {
            internal: internal_udp_port,
            external: match mapped_udp_port(mappings@) {
                Some(port) => port,
                None => discovered,
            },
        }),
{
    ActiveUdpFirewallPorts {
        internal: internal_udp_port,
        external: match nat_external_udp_port(mappings) {
            Some(port) => port,
            None => discovered,
        },
    }
}

/// Whether a contact can be asked for the port that it sees.
pub open spec fn can_report_port(contact: Contact, bind_ip: Ipv4Addr) -> bool {
    contact.kad_version >= 6 && contact.udp_port != 0 && contact.ip != bind_ip
}

/// The contacts that can be asked for the port that they see, in order.
pub fn port_reporters(contacts: &Vec<Contact>, bind_ip: Ipv4Addr) -> (r: Vec<Contact>)
    ensures
        r@ == contacts@.filter(|contact: Contact| can_report_port(contact, bind_ip)),
{
    let ghost wanted = |contact: Contact| can_report_port(contact, bind_ip);
    let mut r: Vec<Contact> = Vec::new();
    let mut i: usize = 0;
    proof {
        reveal(Seq::filter);
        assert(contacts@.take(0).filter(wanted) =~= Seq::empty());
    }
    while i < contacts.len()
        invariant
            i <= contacts.len(),
            wanted == (|contact: Contact| can_report_port(contact, bind_ip)),
            r@ == contacts@.take(i as int).filter(wanted),
        decreases contacts.len() - i,
    {
        proof {
            reveal(Seq::filter);
            assert(contacts@.take(i + 1).drop_last() =~= contacts@.take(i as int));
            assert(contacts@.take(i + 1).last() == contacts@[i as int]);
        }
        let contact: Contact = contacts[i];
        if contact.kad_version >= 6 && contact.udp_port != 0 && contact.ip != bind_ip {
            r.push(contact);
        }
        i = i + 1;
    }
    assert(contacts@.take(i as int) =~= contacts@);
    r
}

/// The first `count` of a sequence, or all of it.
pub open spec fn at_most(contacts: Seq<Contact>, count: nat) -> Seq<Contact> {
    if contacts.len() <= count {
        contacts
    } else {
        contacts.take(count as int)
    }
}

/// The contacts to ask for the port that they see: some of those that can be asked, in an order
/// that is left to chance.
pub fn external_port_discovery_contacts(contacts: &Vec<Contact>, bind_ip: Ipv4Addr) -> (r: Vec<Contact>)
    ensures
        exists|order: Seq<Contact>| #[trigger]
            order.to_multiset() == contacts@.filter(
                |contact: Contact| can_report_port(contact, bind_ip),
            ).to_multiset() && r@ == at_most(order, KAD_EXTERNAL_PORT_DISCOVERY_MAX_ATTEMPTS as nat),
{
    let mut reporters: Vec<Contact> = port_reporters(contacts, bind_ip);
    shuffle_contacts(&mut reporters);
    let ghost order = reporters@;
    assert(order.to_multiset() == contacts@.filter(
        |contact: Contact| can_report_port(contact, bind_ip),
    ).to_multiset());
    if reporters.len() > KAD_EXTERNAL_PORT_DISCOVERY_MAX_ATTEMPTS {
        reporters.truncate(KAD_EXTERNAL_PORT_DISCOVERY_MAX_ATTEMPTS);
        assert(reporters@ =~= order.take(KAD_EXTERNAL_PORT_DISCOVERY_MAX_ATTEMPTS as int));
    }
    reporters
}

/// Whether a contact can help with a UDP firewall check.
pub open spec fn can_help(contact: Contact, local_ip: IpAddr) -> bool {
    contact.kad_version >= 6 && contact.tcp_port != 0 && contact.udp_port != 0 && contact.contact_type
        != ContactType::Dead && IpAddr::V4(contact.ip) != local_ip
}

/// How much a helper is preferred: an active contact counts for more than a verified one, that
/// for more than one without a TCP firewall, that for more than one without a UDP firewall, that
/// for more than one with a known key, and the version counts last.
pub open spec fn helper_score(contact: Contact) -> int {
    (if contact.contact_type == ContactType::Active {
        4096int
    } else {
        0
    }) + (if contact.verified {
        2048int
    } else {
        0
    }) + (if !contact.tcp_firewalled {
        1024int
    } else {
        0
    }) + (if !contact.udp_firewalled {
        512int
    } else {
        0
    }) + (if contact.udp_key != 0 {
        256int
    } else {
        0
    }) + contact.kad_version
}

fn weighted(flag: bool, weight: u16) -> (r: u16)
    ensures
        r == if flag {
            weight
        } else {
            0
        },
{
    if flag {
        weight
    } else {
        0
    }
}

pub fn score_udp_firewall_helper(contact: &Contact) -> (r: u16)
    ensures
        r == helper_score(*contact),
{
    weighted(contact.contact_type == ContactType::Active, 4096) + weighted(contact.verified, 2048)
        + weighted(!contact.tcp_firewalled, 1024) + weighted(!contact.udp_firewalled, 512) + weighted(
        contact.udp_key != 0,
        256,
    ) + contact.kad_version as u16
}

/// The number of contacts at the front of a list that score at least that much.
pub open spec fn leading(sorted: Seq<Contact>, score: int) -> nat
    decreases sorted.len(),
{
    if sorted.len() == 0 || helper_score(sorted.first()) < score {
        0
    } else {
        1 + leading(sorted.drop_first(), score)
    }
}

/// A sorted list with one more contact, behind those that score at least as much.
pub open spec fn with_helper(sorted: Seq<Contact>, contact: Contact) -> Seq<Contact> {
    sorted.insert(leading(sorted, helper_score(contact)) as int, contact)
}

/// The contacts by descending score; equal ones keep their order.
pub open spec fn by_score(contacts: Seq<Contact>) -> Seq<Contact>
    decreases contacts.len(),
{
    if contacts.len() == 0 {
        Seq::empty()
    } else {
        with_helper(by_score(contacts.drop_last()), contacts.last())
    }
}

/// Whether an earlier contact never scores less than a later one.
pub open spec fn descending(contacts: Seq<Contact>) -> bool {
    forall|i: int, j: int|
        0 <= i <= j < contacts.len() ==> helper_score(#[trigger] contacts[i]) >= helper_score(
            #[trigger] contacts[j],
        )
}

proof fn lemma_leading(sorted: Seq<Contact>, score: int)
    ensures
        leading(sorted, score) <= sorted.len(),
        forall|i: int| 0 <= i < leading(sorted, score) ==> helper_score(#[trigger] sorted[i]) >= score,
        leading(sorted, score) < sorted.len() ==> helper_score(sorted[leading(sorted, score) as int])
            < score,
    decreases sorted.len(),
{
    if sorted.len() > 0 && helper_score(sorted.first()) >= score {
        let rest = sorted.drop_first();
        lemma_leading(rest, score);
        assert forall|i: int| 0 <= i < leading(sorted, score) implies helper_score(#[trigger] sorted[i])
            >= score by {
            if i > 0 {
                assert(rest[i - 1] == sorted[i]);
            }
        }
    }
}

proof fn lemma_leading_unique(sorted: Seq<Contact>, score: int, n: int)
    requires
        0 <= n <= sorted.len(),
        forall|i: int| 0 <= i < n ==> helper_score(#[trigger] sorted[i]) >= score,
        n < sorted.len() ==> helper_score(sorted[n]) < score,
    ensures
        leading(sorted, score) == n,
{
    lemma_leading(sorted, score);
    let k = leading(sorted, score) as int;
    if k < n {
        assert(helper_score(sorted[k]) >= score);
    }
}

proof fn lemma_by_score_descending(contacts: Seq<Contact>)
    ensures
        descending(by_score(contacts)),
        by_score(contacts).len() == contacts.len(),
        by_score(contacts).to_multiset() == contacts.to_multiset(),
    decreases contacts.len(),
{
    broadcast use vstd::seq_lib::group_to_multiset_ensures;

    if contacts.len() > 0 {
        let init = contacts.drop_last();
        let last = contacts.last();
        lemma_by_score_descending(init);
        let sorted = by_score(init);
        let n = leading(sorted, helper_score(last)) as int;
        lemma_leading(sorted, helper_score(last));
        let all = sorted.insert(n, last);
        assert forall|i: int, j: int| 0 <= i <= j < all.len() implies helper_score(#[trigger] all[i])
            >= helper_score(#[trigger] all[j]) by {
            if j < n {
                assert(all[i] == sorted[i] && all[j] == sorted[j]);
            } else if j == n {
                if i < n {
                    assert(all[i] == sorted[i]);
                }
            } else {
                assert(all[j] == sorted[j - 1]);
                if i < n {
                    assert(all[i] == sorted[i]);
                } else if i == n {
                    assert(helper_score(sorted[n]) >= helper_score(sorted[j - 1]));
                } else {
                    assert(all[i] == sorted[i - 1]);
                }
            }
        }
        assert(contacts =~= init.push(last));
        vstd::seq_lib::to_multiset_insert(sorted, n, last);
    } else {
        assert(by_score(contacts) =~= contacts);
    }
}

fn sort_by_score(contacts: &Vec<Contact>) -> (r: Vec<Contact>)
    ensures
        r@ == by_score(contacts@),
{
    let mut sorted: Vec<Contact> = Vec::new();
    let mut i: usize = 0;
    while i < contacts.len()
        invariant
            i <= contacts.len(),
            sorted@ == by_score(contacts@.take(i as int)),
        decreases contacts.len() - i,
    {
        proof {
            assert(contacts@.take(i + 1).drop_last() =~= contacts@.take(i as int));
            assert(contacts@.take(i + 1).last() == contacts@[i as int]);
        }
        let contact: Contact = contacts[i];
        let score: u16 = score_udp_firewall_helper(&contact);
        let mut at: usize = 0;
        while at < sorted.len() && score_udp_firewall_helper(&sorted[at]) >= score
            invariant
                at <= sorted.len(),
                score == helper_score(contact),
                forall|j: int| 0 <= j < at ==> helper_score(#[trigger] sorted@[j]) >= score,
            ensures
                at <= sorted.len(),
                forall|j: int| 0 <= j < at ==> helper_score(#[trigger] sorted@[j]) >= score,
                at < sorted.len() ==> helper_score(sorted@[at as int]) < score,
            decreases sorted.len() - at,
        {
            at = at + 1;
        }
        proof {
            lemma_leading_unique(sorted@, score as int, at as int);
        }
        sorted.insert(at, contact);
        i = i + 1;
    }
    assert(contacts@.take(i as int) =~= contacts@);
    sorted
}

/// Whether a contact with that address is in the list.
pub open spec fn has_ip(contacts: Seq<Contact>, ip: Ipv4Addr) -> bool {
    exists|i: int| 0 <= i < contacts.len() && (#[trigger] contacts[i]).ip == ip
}

/// The first contact of every address, in order.
pub open spec fn one_per_ip(contacts: Seq<Contact>) -> Seq<Contact>
    decreases contacts.len(),
{
    if contacts.len() == 0 {
        Seq::empty()
    } else {
        let before = one_per_ip(contacts.drop_last());
        if has_ip(before, contacts.last().ip) {
            before
        } else {
            before.push(contacts.last())
        }
    }
}

/// The helpers taken from candidates: the best of every address, as many as are wanted, but one
/// where there is one.
pub open spec fn picked_helpers(candidates: Seq<Contact>, helper_count: usize) -> Seq<Contact> {
    at_most(
        one_per_ip(by_score(candidates)),
        if helper_count == 0 {
            1
        } else {
            helper_count as nat
        },
    )
}

fn contains_ip(contacts: &Vec<Contact>, ip: Ipv4Addr) -> (r: bool)
    ensures
        r == has_ip(contacts@, ip),
{
    let mut i: usize = 0;
    while i < contacts.len()
        invariant
            i <= contacts.len(),
            forall|j: int| 0 <= j < i ==> (#[trigger] contacts@[j]).ip != ip,
        decreases contacts.len() - i,
    {
        if contacts[i].ip == ip {
            assert(contacts@[i as int].ip == ip);
            return true;
        }
        i = i + 1;
    }
    false
}

proof fn lemma_one_per_ip_grows(contacts: Seq<Contact>, n: int)
    requires
        0 <= n <= contacts.len(),
    ensures
        one_per_ip(contacts).len() >= one_per_ip(contacts.take(n)).len(),
        one_per_ip(contacts).take(one_per_ip(contacts.take(n)).len() as int) == one_per_ip(
            contacts.take(n),
        ),
    decreases contacts.len(),
{
    let part = one_per_ip(contacts.take(n));
    if n == contacts.len() {
        assert(contacts.take(n) =~= contacts);
        assert(part.take(part.len() as int) =~= part);
    } else {
        let init = contacts.drop_last();
        assert(init.take(n) =~= contacts.take(n));
        lemma_one_per_ip_grows(init, n);
        assert(one_per_ip(contacts).take(part.len() as int) =~= one_per_ip(init).take(part.len() as int));
    }
}

/// Picks helpers from candidates.
pub fn pick_udp_firewall_helpers(candidates: &Vec<Contact>, helper_count: usize) -> (r: Vec<Contact>)
    ensures
        r@ == picked_helpers(candidates@, helper_count),
{
    let sorted: Vec<Contact> = sort_by_score(candidates);
    let mut selected: Vec<Contact> = Vec::new();
    let mut i: usize = 0;
    let cap: usize = if helper_count == 0 {
        1
    } else {
        helper_count
    };
    while i < sorted.len()
        invariant
            i <= sorted.len(),
            cap >= 1,
            cap == if helper_count == 0 {
                1
            } else {
                helper_count
            },
            sorted@ == by_score(candidates@),
            selected@ == one_per_ip(sorted@.take(i as int)),
            selected@.len() < cap,
        decreases sorted.len() - i,
    {
        proof {
            assert(sorted@.take(i + 1).drop_last() =~= sorted@.take(i as int));
            assert(sorted@.take(i + 1).last() == sorted@[i as int]);
        }
        let contact: Contact = sorted[i];
        if !contains_ip(&selected, contact.ip) {
            selected.push(contact);
            if selected.len() >= cap {
                proof {
                    lemma_one_per_ip_grows(sorted@, i + 1);
                    assert(one_per_ip(sorted@).take(one_per_ip(sorted@).len() as int) =~= one_per_ip(
                        sorted@,
                    ));
                }
                return selected;
            }
        }
        i = i + 1;
    }
    assert(sorted@.take(i as int) =~= sorted@);
    selected
}

/// The contacts that can help, in order.
pub fn helper_candidates(contacts: &Vec<Contact>, local_ip: IpAddr) -> (r: Vec<Contact>)
    ensures
        r@ == contacts@.filter(|contact: Contact| can_help(contact, local_ip)),
{
    let ghost wanted = |contact: Contact| can_help(contact, local_ip);
    let mut r: Vec<Contact> = Vec::new();
    let mut i: usize = 0;
    proof {
        reveal(Seq::filter);
        assert(contacts@.take(0).filter(wanted) =~= Seq::empty());
    }
    while i < contacts.len()
        invariant
            i <= contacts.len(),
            wanted == (|contact: Contact| can_help(contact, local_ip)),
            r@ == contacts@.take(i as int).filter(wanted),
        decreases contacts.len() - i,
    {
        proof {
            reveal(Seq::filter);
            assert(contacts@.take(i + 1).drop_last() =~= contacts@.take(i as int));
            assert(contacts@.take(i + 1).last() == contacts@[i as int]);
        }
        let contact: Contact = contacts[i];
        if contact.kad_version >= 6 && contact.tcp_port != 0 && contact.udp_port != 0
            && contact.contact_type != ContactType::Dead && IpAddr::V4(contact.ip) != local_ip {
            r.push(contact);
        }
        i = i + 1;
    }
    assert(contacts@.take(i as int) =~= contacts@);
    r
}

/// The helpers of a check: picked from those that can help, in an order that is left to chance
/// among equally good ones.
pub fn select_udp_firewall_helpers(contacts: &Vec<Contact>, local_ip: IpAddr, helper_count: usize) -> (r: Vec<
    Contact,
>)
    ensures
        exists|order: Seq<Contact>| #[trigger]
            order.to_multiset() == contacts@.filter(
                |contact: Contact| can_help(contact, local_ip),
            ).to_multiset() && r@ == picked_helpers(order, helper_count),
{
    let mut candidates: Vec<Contact> = helper_candidates(contacts, local_ip);
    shuffle_contacts(&mut candidates);
    assert(candidates@.to_multiset() == contacts@.filter(
        |contact: Contact| can_help(contact, local_ip),
    ).to_multiset());
    pick_udp_firewall_helpers(&candidates, helper_count)
}

/// Sorting by score loses no contact and puts none before a better one.
pub proof fn law_by_score(contacts: Seq<Contact>)
    ensures
        by_score(contacts).to_multiset() == contacts.to_multiset(),
        descending(by_score(contacts)),
{
    lemma_by_score_descending(contacts);
}

proof fn lemma_one_per_ip_distinct(contacts: Seq<Contact>)
    ensures
        forall|i: int, j: int|
            0 <= i < j < one_per_ip(contacts).len() ==> (#[trigger] one_per_ip(contacts)[i]).ip != (
            #[trigger] one_per_ip(contacts)[j]).ip,
        forall|i: int| 0 <= i < one_per_ip(contacts).len() ==> contacts.contains(#[trigger] one_per_ip(contacts)[i]),
        forall|k: int| 0 <= k < contacts.len() ==> has_ip(one_per_ip(contacts), (#[trigger] contacts[k]).ip),
    decreases contacts.len(),
{
    if contacts.len() > 0 {
        let init = contacts.drop_last();
        lemma_one_per_ip_distinct(init);
        let before = one_per_ip(init);
        let all = one_per_ip(contacts);
        assert forall|i: int, j: int| 0 <= i < j < all.len() implies (#[trigger] all[i]).ip != (
        #[trigger] all[j]).ip by {
            assert(all[i] == before[i]);
            if j < before.len() {
                assert(all[j] == before[j]);
            }
        }
        assert forall|i: int| 0 <= i < all.len() implies contacts.contains(#[trigger] all[i]) by {
            if i < before.len() {
                assert(all[i] == before[i]);
                let k = choose|k: int| 0 <= k < init.len() && init[k] == before[i];
                assert(contacts[k] == all[i]);
            } else {
                assert(contacts[contacts.len() - 1] == all[i]);
            }
        }
        assert forall|k: int| 0 <= k < contacts.len() implies has_ip(all, (#[trigger] contacts[k]).ip) by {
            if k < init.len() {
                assert(init[k] == contacts[k]);
                let i = choose|i: int| 0 <= i < before.len() && (#[trigger] before[i]).ip == contacts[k].ip;
                assert(all[i] == before[i]);
            } else if has_ip(before, contacts.last().ip) {
                let i = choose|i: int| 0 <= i < before.len() && (#[trigger] before[i]).ip == contacts.last().ip;
                assert(all[i] == before[i]);
            } else {
                assert(all[before.len() as int] == contacts.last());
            }
        }
    }
}

/// The helpers of a check have distinct addresses, are among the candidates, and there is one
/// where there is a candidate.
pub proof fn law_helpers(candidates: Seq<Contact>, helper_count: usize)
    ensures
        forall|i: int, j: int|
            0 <= i < j < picked_helpers(candidates, helper_count).len() ==> (
            #[trigger] picked_helpers(candidates, helper_count)[i]).ip != (#[trigger] picked_helpers(
                candidates,
                helper_count,
            )[j]).ip,
        forall|i: int|
            0 <= i < picked_helpers(candidates, helper_count).len() ==> candidates.contains(
                #[trigger] picked_helpers(candidates, helper_count)[i],
            ),
        candidates.len() > 0 ==> picked_helpers(candidates, helper_count).len() > 0,
{
    let sorted = by_score(candidates);
    lemma_by_score_descending(candidates);
    lemma_one_per_ip_distinct(sorted);
    let picked = picked_helpers(candidates, helper_count);
    assert forall|i: int| 0 <= i < picked.len() implies candidates.contains(#[trigger] picked[i]) by {
        broadcast use vstd::seq_lib::group_to_multiset_ensures;

        assert(picked[i] == one_per_ip(sorted)[i]);
        assert(sorted.contains(picked[i]));
        assert(sorted.to_multiset().contains(picked[i]));
        assert(candidates.to_multiset().contains(picked[i]));
    }
    if candidates.len() > 0 {
        assert(has_ip(one_per_ip(sorted), sorted[0].ip));
    }
}

/// What a peer is answered that asks whether it is firewalled.
#[derive(Debug, Clone, Copy, PartialEq, Eq, Structural)]
pub struct FirewalledReply {
    /// The address that the peer is seen under, as one number.
    pub ip: u32,
    /// Where a TCP connection is tried.
    pub probe: Endpoint,
}

/// The answer to a peer on IPv4; another is not answered.
pub fn firewalled_response(from: SocketAddr, tcp_port: u16) -> (r: Option<FirewalledReply>)
    ensures
        r == match from.ip {
            IpAddr::V4(ip) => Some(
                FirewalledReply { ip: ip.bits() as u32, probe: Endpoint { ip, port: tcp_port } },
            ),
            IpAddr::V6(_) => None,
        },
{
    match from.ip {
        IpAddr::V4(ip) => Some(
            FirewalledReply { ip: ip.to_bits(), probe: Endpoint { ip, port: tcp_port } },
        ),
        IpAddr::V6(_) => None,
    }
}

/// What a HELLO exchange leads to with respect to the agent's own firewall.
#[derive(Debug, Clone, Copy, PartialEq, Eq, Structural)]
pub enum FirewalledCheck {
    /// The agent is reachable: note it.
    NoteOpen,
    /// The peer cannot be asked.
    Skip,
    /// Ask the peer, unless enough are being asked.
    Ask,
}

/// Decides whether a peer is asked after a HELLO exchange.
pub fn firewalled_check(from: SocketAddr, tcp_firewalled: bool) -> (r: FirewalledCheck)
    ensures
        r == if !tcp_firewalled {
            FirewalledCheck::NoteOpen
        } else if from.ip is V4 {
            FirewalledCheck::Ask
        } else {
            FirewalledCheck::Skip
        },
{
    if !tcp_firewalled {
        return FirewalledCheck::NoteOpen;
    }
    match from.ip {
        IpAddr::V4(_) => FirewalledCheck::Ask,
        IpAddr::V6(_) => FirewalledCheck::Skip,
    }
}

/// The question whether the agent is firewalled.
#[derive(Debug, Clone, Copy, PartialEq, Eq)]
pub enum FirewalledRequest {
    Modern { tcp_port: u16, user_hash: Ed2kHash, connect_options: u8 },
    Legacy { tcp_port: u16 },
}

/// The question as a peer of that version understands it.
pub fn firewalled_check_request(
    peer_version: u8,
    tcp_port: u16,
    user_hash: Ed2kHash,
    obfuscation_enabled: bool,
) -> (r: FirewalledRequest)
    ensures
        r == if peer_version > 6 {
            FirewalledRequest::Modern {
                tcp_port,
                user_hash,
                connect_options: if obfuscation_enabled {
                    3
                } else {
                    0
                },
            }
        } else {
            FirewalledRequest::Legacy { tcp_port }
        },
{
    if peer_version > 6 {
        FirewalledRequest::Modern {
            tcp_port,
            user_hash,
            connect_options: emule_connect_options(obfuscation_enabled),
        }
    } else {
        FirewalledRequest::Legacy { tcp_port }
    }
}

/// The identity that the agent shows in a TCP firewall acknowledgement, before what its server
/// says is added.
pub fn firewall_ack_identity(user_hash: Ed2kHash, tcp_port: u16, udp_port: u16, obfuscation_enabled: bool) -> (r:
    Ed2kHelloIdentity)
    ensures
        r == (Ed2kHelloIdentity {
            user_hash: user_hash.0,
            client_id: 0,
            tcp_port,
            udp_port,
            server_ip: 0,
            server_port: 0,
            connect_options: if obfuscation_enabled {
                3
            } else {
                0
            },
            direct_udp_callback: false,
        }),
{
    Ed2kHelloIdentity {
        user_hash: user_hash.0,
        client_id: 0,
        tcp_port,
        udp_port,
        server_ip: 0,
        server_port: 0,
        connect_options: emule_connect_options(obfuscation_enabled),
        direct_udp_callback: false,
    }
}

/// How many helper candidates a check looks for.
pub fn helper_candidate_count(contact_count: usize) -> (r: usize)
    ensures
        r == if contact_count * 4 > usize::MAX {
            usize::MAX as int
        } else {
            contact_count * 4
        },
{
    match contact_count.checked_mul(UDP_FIREWALL_HELPER_CANDIDATE_MULTIPLIER) {
        Some(count) => count,
        None => usize::MAX,
    }
}

/// What a UDP firewall check waits for before it can start.
#[derive(Debug, Clone, Copy, PartialEq, Eq, Structural)]
pub enum UdpCheckGate {
    /// The node has not joined the network: look again later.
    AwaitBootstrap,
    /// The server has not given the agent an identity: look again later.
    AwaitServer,
    Ready,
}

/// Decides whether a UDP firewall check can start. Helpers take a hello that names a client ID and
/// a server.
pub fn udp_check_gate(bootstrapped: bool, identity: &Ed2kHelloIdentity) -> (r: UdpCheckGate)
    ensures
        r == if !bootstrapped {
            UdpCheckGate::AwaitBootstrap
        } else if identity.client_id == 0 || identity.server_ip == 0 || identity.server_port == 0 {
            UdpCheckGate::AwaitServer
        } else {
            UdpCheckGate::Ready
        },
{
    if !bootstrapped {
        UdpCheckGate::AwaitBootstrap
    } else if identity.client_id == 0 || identity.server_ip == 0 || identity.server_port == 0 {
        UdpCheckGate::AwaitServer
    } else {
        UdpCheckGate::Ready
    }
}

/// Whether a check can go on once its helpers have been selected.
#[derive(Debug, Clone, Copy, PartialEq, Eq, Structural)]
pub enum UdpCheckReadiness {
    NoHelpers,
    /// Helpers are reached over IPv4 only.
    UnsupportedBinding,
    Ready { bind_ip: Ipv4Addr },
}

/// Decides whether a check can go on: it takes a helper, and a socket on IPv4.
pub fn udp_check_readiness(helpers: &Vec<Contact>, bind_ip: IpAddr) -> (r: UdpCheckReadiness)
    ensures
        r == if helpers@.len() == 0 {
            UdpCheckReadiness::NoHelpers
        } else {
            match bind_ip {
                IpAddr::V4(bind_ip) => UdpCheckReadiness::Ready { bind_ip },
                IpAddr::V6(_) => UdpCheckReadiness::UnsupportedBinding,
            }
        },
{
    if helpers.len() == 0 {
        return UdpCheckReadiness::NoHelpers;
    }
    match bind_ip {
        IpAddr::V4(bind_ip) => UdpCheckReadiness::Ready { bind_ip },
        IpAddr::V6(_) => UdpCheckReadiness::UnsupportedBinding,
    }
}

/// What a helper is asked: to send a packet to both ports.
#[derive(Debug, Clone, Copy, PartialEq, Eq, Structural)]
pub struct UdpCheckRequest {
    /// Where the helper is asked, over TCP.
    pub helper: Endpoint,
    pub internal_udp_port: u16,
    pub external_udp_port: u16,
}

/// What that helper is asked.
pub open spec fn asked_of(helper: Contact, ports: ActiveUdpFirewallPorts) -> UdpCheckRequest {
    UdpCheckRequest {
        helper: Endpoint { ip: helper.ip, port: helper.tcp_port },
        internal_udp_port: ports.internal,
        external_udp_port: ports.external,
    }
}

/// What the helpers of a check are asked, each in its turn.
pub fn udp_check_requests(helpers: &Vec<Contact>, ports: ActiveUdpFirewallPorts) -> (r: Vec<UdpCheckRequest>)
    ensures
        r@ == helpers@.map_values(|helper: Contact| asked_of(helper, ports)),
{
    let mut requests: Vec<UdpCheckRequest> = Vec::new();
    let mut i: usize = 0;
    while i < helpers.len()
        invariant
            i <= helpers.len(),
            requests@.len() == i,
            forall|j: int| 0 <= j < i ==> #[trigger] requests@[j] == asked_of(helpers@[j], ports),
        decreases helpers.len() - i,
    {
        let helper: Contact = helpers[i];
        requests.push(
            UdpCheckRequest {
                helper: Endpoint { ip: helper.ip, port: helper.tcp_port },
                internal_udp_port: ports.internal,
                external_udp_port: ports.external,
            },
        );
        i = i + 1;
    }
    assert(requests@ =~= helpers@.map_values(|helper: Contact| asked_of(helper, ports)));
    requests
}

/// A check comes in on the internal port, and on the external one too where that is known and is
/// another.
pub proof fn law_expected_ports(ports: ActiveUdpFirewallPorts, r: Vec<u16>, port: u16)
    requires
        call_ensures(ActiveUdpFirewallPorts::expected_ports, (ports,), r),
    ensures
        r@.contains(port) <==> port == ports.internal || (port == ports.external && ports.external != 0),
        r@[0] == ports.internal,
        r@.no_duplicates(),
{
    assert(r@[0] == ports.internal);
    if ports.external != 0 && ports.external != ports.internal {
        assert(r@[1] == ports.external);
    }
}

/// The external port of the Kad socket is that of the first UDP mapping named `kad`; there is none
/// without such a mapping. It goes before what peers report.
pub proof fn law_external_port(
    mappings: &Vec<NatMapping>,
    internal: u16,
    discovered: u16,
    port: Option<u16>,
    ports: ActiveUdpFirewallPorts,
    i: int,
)
    requires
        call_ensures(nat_external_udp_port, (mappings,), port),
        call_ensures(active_udp_firewall_ports, (mappings, internal, discovered), ports),
    ensures
        0 <= i < mappings@.len() && mappings@[i].name@ == "kad"@ && mappings@[i].protocol is Udp ==> port is Some,
        0 <= i < mappings@.len() && mappings@[i].name@ == "kad"@ && mappings@[i].protocol is Udp && (forall|k: int|
            0 <= k < i ==> !((#[trigger] mappings@[k]).name@ == "kad"@ && mappings@[k].protocol is Udp)) ==> port
            == Some(mappings@[i].external_port),
        (forall|k: int|
            0 <= k < mappings@.len() ==> !((#[trigger] mappings@[k]).name@ == "kad"@ && mappings@[k].protocol is Udp))
            ==> port is None,
        ports.internal == internal,
        port matches Some(mapped) ==> ports.external == mapped,
        port is None ==> ports.external == discovered,
{
    lemma_mapped_port(mappings@, i);
}

proof fn lemma_mapped_port(mappings: Seq<NatMapping>, i: int)
    ensures
        0 <= i < mappings.len() && is_kad_mapping(mappings[i]) ==> mapped_udp_port(mappings) is Some,
        0 <= i < mappings.len() && is_kad_mapping(mappings[i]) && (forall|k: int|
            0 <= k < i ==> !is_kad_mapping(#[trigger] mappings[k])) ==> mapped_udp_port(mappings) == Some(
            mappings[i].external_port,
        ),
        (forall|k: int| 0 <= k < mappings.len() ==> !is_kad_mapping(#[trigger] mappings[k])) ==> mapped_udp_port(
            mappings,
        ) is None,
    decreases mappings.len(),
{
    if mappings.len() > 0 {
        let rest = mappings.drop_first();
        lemma_mapped_port(rest, i - 1);
        assert(forall|k: int| 0 <= k < rest.len() ==> #[trigger] rest[k] == mappings[k + 1]);
        if 0 < i < mappings.len() && is_kad_mapping(mappings[i]) {
            assert(rest[i - 1] == mappings[i]);
        }
    }
}

/// The contacts that are asked for the port that they see speak the sixth version at least, can be
/// reached by UDP and are not at the agent's own address; every such contact can be asked, and of
/// these eight at most are.
pub proof fn law_port_reporters(contacts: &Vec<Contact>, bind_ip: Ipv4Addr, all: Vec<Contact>, r: Vec<Contact>, contact: Contact, i: int)
    requires
        call_ensures(port_reporters, (contacts, bind_ip), all),
        call_ensures(external_port_discovery_contacts, (contacts, bind_ip), r),
    ensures
        all@.contains(contact) <==> contacts@.contains(contact) && contact.kad_version >= 6 && contact.udp_port
            != 0 && contact.ip != bind_ip,
        0 <= i < r@.len() ==> all@.contains(r@[i]),
        all@.len() <= 8 ==> r@.len() == all@.len(),
        all@.len() > 8 ==> r@.len() == 8,
{
    let wanted = |contact: Contact| can_report_port(contact, bind_ip);
    lemma_kept_contacts(contacts@, wanted, contact);
    let order = choose|order: Seq<Contact>| #[trigger]
        order.to_multiset() == contacts@.filter(wanted).to_multiset() && r@ == at_most(
            order,
            KAD_EXTERNAL_PORT_DISCOVERY_MAX_ATTEMPTS as nat,
        );
    order.to_multiset_ensures();
    all@.to_multiset_ensures();
    if 0 <= i < r@.len() {
        assert(r@[i] == order[i]);
        assert(order.contains(order[i]));
        assert(all@.to_multiset().count(order[i]) > 0);
    }
}

proof fn lemma_kept_contacts(contacts: Seq<Contact>, wanted: spec_fn(Contact) -> bool, contact: Contact)
    ensures
        contacts.filter(wanted).contains(contact) <==> contacts.contains(contact) && wanted(contact),
{
    broadcast use vstd::seq_lib::group_filter_ensures;

    let kept = contacts.filter(wanted);
    if contacts.contains(contact) && wanted(contact) {
        let i = choose|i: int| 0 <= i < contacts.len() && contacts[i] == contact;
        assert(kept.contains(contacts[i]));
    }
    if kept.contains(contact) {
        let i = choose|i: int| 0 <= i < kept.len() && kept[i] == contact;
        assert(wanted(kept[i]));
        contacts.lemma_filter_contains_rev(wanted, contact);
    }
}

/// Of two helpers the active one is preferred, of two that are alike in that the verified one, then
/// the one that is not TCP-firewalled, then the one that is not UDP-firewalled, then the one whose
/// key is known, and last the one of the later version.
pub proof fn law_helper_score(a: &Contact, b: &Contact, score_a: u16, score_b: u16)
    requires
        call_ensures(score_udp_firewall_helper, (a,), score_a),
        call_ensures(score_udp_firewall_helper, (b,), score_b),
    ensures
        a.contact_type is Active && !(b.contact_type is Active) ==> score_a > score_b,
        a.contact_type is Active == b.contact_type is Active ==> {
            &&& a.verified && !b.verified ==> score_a > score_b
            &&& a.verified == b.verified ==> {
                &&& !a.tcp_firewalled && b.tcp_firewalled ==> score_a > score_b
                &&& a.tcp_firewalled == b.tcp_firewalled ==> {
                    &&& !a.udp_firewalled && b.udp_firewalled ==> score_a > score_b
                    &&& a.udp_firewalled == b.udp_firewalled ==> {
                        &&& a.udp_key != 0 && b.udp_key == 0 ==> score_a > score_b
                        &&& (a.udp_key != 0) == (b.udp_key != 0) ==> score_a - score_b == a.kad_version
                            - b.kad_version
                    }
                }
            }
        },
{
}

/// Helpers are picked best first and one per address, as many as are wanted and one at least. A
/// candidate is left out only for one at its address that is no worse, or where there are as many
/// helpers as are wanted and none is worse.
pub proof fn law_picked_helpers(candidates: &Vec<Contact>, helper_count: usize, r: Vec<Contact>, i: int, j: int, k: int)
    requires
        call_ensures(pick_udp_firewall_helpers, (candidates, helper_count), r),
    ensures
        0 <= i < r@.len() ==> candidates@.contains(r@[i]),
        0 <= i < j < r@.len() ==> r@[i].ip != r@[j].ip && helper_score(r@[i]) >= helper_score(r@[j]),
        helper_count >= 1 ==> r@.len() <= helper_count,
        helper_count == 0 ==> r@.len() <= 1,
        candidates@.len() > 0 ==> r@.len() > 0,
        0 <= k < candidates@.len() && (helper_count >= 1 && r@.len() < helper_count) ==> exists|m: int|
            0 <= m < r@.len() && (#[trigger] r@[m]).ip == candidates@[k].ip && helper_score(r@[m]) >= helper_score(
                candidates@[k],
            ),
        0 <= k < candidates@.len() ==> helper_score(r@[0]) >= helper_score(candidates@[k]),
        0 <= k < candidates@.len() && 0 <= i < r@.len() && helper_score(candidates@[k]) > helper_score(r@[i])
            ==> exists|m: int| 0 <= m < i && (#[trigger] r@[m]).ip == candidates@[k].ip,
{
    let sorted = by_score(candidates@);
    let all = one_per_ip(sorted);
    let cap = if helper_count == 0 {
        1nat
    } else {
        helper_count as nat
    };
    law_helpers(candidates@, helper_count);
    lemma_by_score_descending(candidates@);
    lemma_one_per_ip_distinct(sorted);
    lemma_one_per_ip_descending(sorted);
    assert(r@ == at_most(all, cap));
    if 0 <= i < j < r@.len() {
        assert(r@[i] == all[i] && r@[j] == all[j]);
    }
    if 0 <= k < candidates@.len() {
        broadcast use vstd::seq_lib::group_to_multiset_ensures;

        let c = candidates@[k];
        assert(candidates@.contains(c));
        assert(candidates@.to_multiset().contains(c));
        assert(sorted.to_multiset().contains(c));
        assert(sorted.contains(c));
        let s = choose|s: int| 0 <= s < sorted.len() && sorted[s] == c;
        lemma_one_per_ip_best(sorted, s);
        let m = choose|m: int| 0 <= m < all.len() && (#[trigger] all[m]).ip == c.ip && helper_score(all[m])
            >= helper_score(c);
        assert(helper_score(all[0]) >= helper_score(all[m]));
        assert(r@[0] == all[0]);
        if m < r@.len() {
            assert(r@[m] == all[m]);
        }
        if 0 <= i < r@.len() && helper_score(c) > helper_score(r@[i]) {
            assert(r@[i] == all[i]);
            if m >= i {
                assert(helper_score(all[i]) >= helper_score(all[m]));
            }
            assert(r@[m].ip == c.ip);
        }
    }
}

/// Whether a contact at that address is in the list that scores no less.
spec fn best_of_ip(contacts: Seq<Contact>, contact: Contact) -> bool {
    exists|m: int|
        0 <= m < contacts.len() && (#[trigger] contacts[m]).ip == contact.ip && helper_score(contacts[m])
            >= helper_score(contact)
}

proof fn lemma_one_per_ip_from(contacts: Seq<Contact>, i: int) -> (k: int)
    requires
        0 <= i < one_per_ip(contacts).len(),
    ensures
        0 <= k < contacts.len(),
        contacts[k] == one_per_ip(contacts)[i],
{
    lemma_one_per_ip_distinct(contacts);
    assert(contacts.contains(one_per_ip(contacts)[i]));
    choose|k: int| 0 <= k < contacts.len() && contacts[k] == one_per_ip(contacts)[i]
}

proof fn lemma_one_per_ip_descending(contacts: Seq<Contact>)
    requires
        descending(contacts),
    ensures
        descending(one_per_ip(contacts)),
    decreases contacts.len(),
{
    if contacts.len() > 0 {
        let init = contacts.drop_last();
        let last = contacts.last();
        assert(descending(init)) by {
            assert forall|i: int, j: int| 0 <= i <= j < init.len() implies helper_score(#[trigger] init[i])
                >= helper_score(#[trigger] init[j]) by {
                assert(init[i] == contacts[i] && init[j] == contacts[j]);
            }
        }
        lemma_one_per_ip_descending(init);
        let before = one_per_ip(init);
        let all = one_per_ip(contacts);
        assert forall|i: int, j: int| 0 <= i <= j < all.len() implies helper_score(#[trigger] all[i])
            >= helper_score(#[trigger] all[j]) by {
            if j < before.len() {
                assert(all[i] == before[i] && all[j] == before[j]);
            } else if i < before.len() {
                assert(all[i] == before[i]);
                let k = lemma_one_per_ip_from(init, i);
                assert(contacts[k] == all[i]);
                assert(contacts[contacts.len() - 1] == all[j]);
            }
        }
    }
}

proof fn lemma_one_per_ip_best(contacts: Seq<Contact>, k: int)
    requires
        descending(contacts),
        0 <= k < contacts.len(),
    ensures
        best_of_ip(one_per_ip(contacts), contacts[k]),
    decreases contacts.len(),
{
    let init = contacts.drop_last();
    let last = contacts.last();
    assert(descending(init)) by {
        assert forall|i: int, j: int| 0 <= i <= j < init.len() implies helper_score(#[trigger] init[i])
            >= helper_score(#[trigger] init[j]) by {
            assert(init[i] == contacts[i] && init[j] == contacts[j]);
        }
    }
    let before = one_per_ip(init);
    let all = one_per_ip(contacts);
    if k < init.len() {
        assert(init[k] == contacts[k]);
        lemma_one_per_ip_best(init, k);
        let m = choose|m: int|
            0 <= m < before.len() && (#[trigger] before[m]).ip == contacts[k].ip && helper_score(before[m])
                >= helper_score(contacts[k]);
        assert(all[m] == before[m]);
    } else if has_ip(before, last.ip) {
        let m = choose|m: int| 0 <= m < before.len() && (#[trigger] before[m]).ip == last.ip;
        assert(all[m] == before[m]);
        let from = lemma_one_per_ip_from(init, m);
        assert(contacts[from] == all[m]);
        assert(contacts[contacts.len() - 1] == last);
    } else {
        assert(all[before.len() as int] == last);
    }
}

/// Helpers can be reached by both protocols, speak the sixth version at least, are not dead and not at
/// the agent's own address; every such contact is a candidate, and the helpers of a check are
/// candidates at addresses of their own.
pub proof fn law_selected_helpers(
    contacts: &Vec<Contact>,
    local_ip: IpAddr,
    helper_count: usize,
    all: Vec<Contact>,
    r: Vec<Contact>,
    contact: Contact,
    i: int,
    j: int,
)
    requires
        call_ensures(helper_candidates, (contacts, local_ip), all),
        call_ensures(select_udp_firewall_helpers, (contacts, local_ip, helper_count), r),
    ensures
        all@.contains(contact) <==> contacts@.contains(contact) && contact.kad_version >= 6 && contact.tcp_port
            != 0 && contact.udp_port != 0 && !(contact.contact_type is Dead) && IpAddr::V4(contact.ip) != local_ip,
        0 <= i < r@.len() ==> all@.contains(r@[i]),
        0 <= i < j < r@.len() ==> r@[i].ip != r@[j].ip,
        helper_count >= 1 ==> r@.len() <= helper_count,
        all@.len() > 0 ==> r@.len() > 0,
{
    let wanted = |contact: Contact| can_help(contact, local_ip);
    lemma_kept_contacts(contacts@, wanted, contact);
    let order = choose|order: Seq<Contact>| #[trigger]
        order.to_multiset() == contacts@.filter(wanted).to_multiset() && r@ == picked_helpers(
            order,
            helper_count,
        );
    order.to_multiset_ensures();
    all@.to_multiset_ensures();
    law_helpers(order, helper_count);
    if 0 <= i < r@.len() {
        assert(order.contains(r@[i]));
        assert(order.to_multiset().count(r@[i]) > 0);
        assert(all@.to_multiset().count(r@[i]) > 0);
    }
}

/// A peer on IPv4 is told its own address and is tried there, on the port that it named; another is
/// not answered.
pub proof fn law_firewalled_peers_are_told(from: SocketAddr, tcp_port: u16, r: Option<FirewalledReply>)
    requires
        call_ensures(firewalled_response, (from, tcp_port), r),
    ensures
        from.ip is V6 ==> r is None,
        from.ip matches IpAddr::V4(ip) ==> (r matches Some(reply) && {
            &&& reply.ip == ip.a * 0x100_0000 + ip.b * 0x1_0000 + ip.c * 0x100 + ip.d
            &&& reply.probe.ip == ip
            &&& reply.probe.port == tcp_port
        }),
{
}

/// A peer is asked only by an agent that takes itself for firewalled, and only over IPv4, in the form
/// that it understands: the modern one from the seventh version on.
pub proof fn law_peers_are_asked(
    from: SocketAddr,
    tcp_firewalled: bool,
    version: u8,
    tcp_port: u16,
    user_hash: Ed2kHash,
    obfuscation: bool,
    check: FirewalledCheck,
    r: FirewalledRequest,
)
    requires
        call_ensures(firewalled_check, (from, tcp_firewalled), check),
        call_ensures(firewalled_check_request, (version, tcp_port, user_hash, obfuscation), r),
    ensures
        check is Ask <==> tcp_firewalled && from.ip is V4,
        check is NoteOpen <==> !tcp_firewalled,
        version >= 7 <==> r is Modern,
        r matches FirewalledRequest::Modern { tcp_port: port, user_hash: hash, connect_options } ==> {
            &&& port == tcp_port
            &&& hash == user_hash
            &&& connect_options == (if obfuscation {
                3u8
            } else {
                0u8
            })
        },
        r matches FirewalledRequest::Legacy { tcp_port: port } ==> port == tcp_port,
{
}

/// An acknowledgement shows the agent's hash and ports, and no server.
pub proof fn law_ack_identity(user_hash: Ed2kHash, tcp_port: u16, udp_port: u16, obfuscation: bool, r: Ed2kHelloIdentity)
    requires
        call_ensures(firewall_ack_identity, (user_hash, tcp_port, udp_port, obfuscation), r),
    ensures
        r.user_hash == user_hash.0,
        r.tcp_port == tcp_port,
        r.udp_port == udp_port,
        r.client_id == 0 && r.server_ip == 0 && r.server_port == 0,
        !r.direct_udp_callback,
        obfuscation ==> r.connect_options == 3,
        !obfuscation ==> r.connect_options == 0,
{
}

/// A check looks for four times as many candidates as it wants helpers, as far as that can be
/// counted.
pub proof fn law_candidate_count(count: usize, r: usize)
    requires
        call_ensures(helper_candidate_count, (count,), r),
    ensures
        r >= count,
        4 * count <= usize::MAX ==> r == 4 * count,
        4 * count > usize::MAX ==> r == usize::MAX,
{
}

/// A check starts only on a node that has joined the network and has a client ID and a server, and
/// goes on only with a helper and a socket on IPv4.
pub proof fn law_check_starts(
    bootstrapped: bool,
    identity: &Ed2kHelloIdentity,
    helpers: &Vec<Contact>,
    bind_ip: IpAddr,
    gate: UdpCheckGate,
    ready: UdpCheckReadiness,
)
    requires
        call_ensures(udp_check_gate, (bootstrapped, identity), gate),
        call_ensures(udp_check_readiness, (helpers, bind_ip), ready),
    ensures
        gate is Ready <==> bootstrapped && identity.client_id != 0 && identity.server_ip != 0
            && identity.server_port != 0,
        !bootstrapped <==> gate is AwaitBootstrap,
        helpers@.len() == 0 <==> ready is NoHelpers,
        ready is Ready <==> helpers@.len() > 0 && bind_ip is V4,
        ready matches UdpCheckReadiness::Ready { bind_ip: ip } ==> bind_ip == IpAddr::V4(ip),
{
}

/// Each helper is asked once, at its own address and TCP port, to send to both ports.
pub proof fn law_helpers_are_asked(helpers: &Vec<Contact>, ports: ActiveUdpFirewallPorts, r: Vec<UdpCheckRequest>, i: int)
    requires
        call_ensures(udp_check_requests, (helpers, ports), r),
        0 <= i < helpers@.len(),
    ensures
        r@.len() == helpers@.len(),
        r@[i].helper.ip == helpers@[i].ip,
        r@[i].helper.port == helpers@[i].tcp_port,
        r@[i].internal_udp_port == ports.internal,
        r@[i].external_udp_port == ports.external,
{
}

} // verus!
