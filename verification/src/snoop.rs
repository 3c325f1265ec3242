//! Harvested Kad search requests: their entries, their logical keys and their observations.

use vstd::prelude::*;
use vstd::string::*;
use crate::ids;
use crate::ids::{NodeId, Timestamp};
use crate::kad::{SearchKeyReq, SearchNotesReq, SearchSourceReq};
use crate::text;
use crate::text::{decimal_text, hex_encode, hex_u16_text};
use crate::types;
use crate::types::{HarvestFamily, SnoopEntry, SnoopObservation};

verus! {

broadcast use vstd::string::group_string_axioms;

impl SnoopEntry {
    pub open spec fn spec_family(self) -> HarvestFamily {
        match self {
            SnoopEntry::Keyword { .. } => HarvestFamily::Keyword,
            SnoopEntry::Source { .. } => HarvestFamily::Source,
            SnoopEntry::Notes { .. } => HarvestFamily::Notes,
        }
    }

    pub open spec fn key_of(self) -> String {
        match self {
            SnoopEntry::Keyword { logical_key, .. } => logical_key,
            SnoopEntry::Source { logical_key, .. } => logical_key,
            SnoopEntry::Notes { logical_key, .. } => logical_key,
        }
    }

    pub open spec fn target_of(self) -> String {
        match self {
            SnoopEntry::Keyword { target, .. } => target,
            SnoopEntry::Source { target, .. } => target,
            SnoopEntry::Notes { target, .. } => target,
        }
    }

    pub open spec fn hits(self) -> u32 {
        match self {
            SnoopEntry::Keyword { hit_count, .. } => hit_count,
            SnoopEntry::Source { hit_count, .. } => hit_count,
            SnoopEntry::Notes { hit_count, .. } => hit_count,
        }
    }

    pub open spec fn first(self) -> Timestamp {
        match self {
            SnoopEntry::Keyword { first_seen, .. } => first_seen,
            SnoopEntry::Source { first_seen, .. } => first_seen,
            SnoopEntry::Notes { first_seen, .. } => first_seen,
        }
    }

    pub open spec fn last(self) -> Timestamp {
        match self {
            SnoopEntry::Keyword { last_seen, .. } => last_seen,
            SnoopEntry::Source { last_seen, .. } => last_seen,
            SnoopEntry::Notes { last_seen, .. } => last_seen,
        }
    }

    pub open spec fn drained(self) -> Option<Timestamp> {
        match self {
            SnoopEntry::Keyword { last_drained_at, .. } => last_drained_at,
            SnoopEntry::Source { last_drained_at, .. } => last_drained_at,
            SnoopEntry::Notes { last_drained_at, .. } => last_drained_at,
        }
    }

    /// The start position that the request named, for the families that have one.
    pub open spec fn start_of(self) -> Option<u16> {
        match self {
            SnoopEntry::Keyword { start_position, .. } => Some(start_position),
            SnoopEntry::Source { start_position, .. } => Some(start_position),
            SnoopEntry::Notes { .. } => None,
        }
    }

    /// The file size that the request named, for the families that have one.
    pub open spec fn size_of(self) -> Option<u64> {
        match self {
            SnoopEntry::Keyword { .. } => None,
            SnoopEntry::Source { size, .. } => Some(size),
            SnoopEntry::Notes { size, .. } => Some(size),
        }
    }

    pub open spec fn payload_of(self) -> Option<String> {
        match self {
            SnoopEntry::Keyword { restrictive_payload_hex, .. } => restrictive_payload_hex,
            SnoopEntry::Source { .. } => None,
            SnoopEntry::Notes { .. } => None,
        }
    }

    #[must_use]
    pub fn logical_key(&self) -> (r: &str)
        ensures
            r@ == self.key_of()@,
    {
        match self {
            SnoopEntry::Keyword { logical_key, .. } => logical_key.as_str(),
            SnoopEntry::Source { logical_key, .. } => logical_key.as_str(),
            SnoopEntry::Notes { logical_key, .. } => logical_key.as_str(),
        }
    }

    #[must_use]
    pub fn target(&self) -> (r: &str)
        ensures
            r@ == self.target_of()@,
    {
        match self {
            SnoopEntry::Keyword { target, .. } => target.as_str(),
            SnoopEntry::Source { target, .. } => target.as_str(),
            SnoopEntry::Notes { target, .. } => target.as_str(),
        }
    }

    #[must_use]
    pub fn hit_count(&self) -> (r: u32)
        ensures
            r == self.hits(),
    {
        match self {
            SnoopEntry::Keyword { hit_count, .. } => *hit_count,
            SnoopEntry::Source { hit_count, .. } => *hit_count,
            SnoopEntry::Notes { hit_count, .. } => *hit_count,
        }
    }

    pub fn set_hit_count(&mut self, value: u32)
        ensures
            final(self).hits() == value,
            final(self).same_but_for_counters(*old(self)),
            final(self).first() == old(self).first(),
            final(self).last() == old(self).last(),
            final(self).drained() == old(self).drained(),
    {
        match self {
            SnoopEntry::Keyword { hit_count, .. } => *hit_count = value,
            SnoopEntry::Source { hit_count, .. } => *hit_count = value,
            SnoopEntry::Notes { hit_count, .. } => *hit_count = value,
        }
    }

    #[must_use]
    pub fn first_seen(&self) -> (r: Timestamp)
        ensures
            r == self.first(),
    {
        match self {
            SnoopEntry::Keyword { first_seen, .. } => *first_seen,
            SnoopEntry::Source { first_seen, .. } => *first_seen,
            SnoopEntry::Notes { first_seen, .. } => *first_seen,
        }
    }

    pub fn set_first_seen(&mut self, value: Timestamp)
        ensures
            final(self).first() == value,
            final(self).same_but_for_counters(*old(self)),
            final(self).hits() == old(self).hits(),
            final(self).last() == old(self).last(),
            final(self).drained() == old(self).drained(),
    {
        match self {
            SnoopEntry::Keyword { first_seen, .. } => *first_seen = value,
            SnoopEntry::Source { first_seen, .. } => *first_seen = value,
            SnoopEntry::Notes { first_seen, .. } => *first_seen = value,
        }
    }

    #[must_use]
    pub fn last_seen(&self) -> (r: Timestamp)
        ensures
            r == self.last(),
    {
        match self {
            SnoopEntry::Keyword { last_seen, .. } => *last_seen,
            SnoopEntry::Source { last_seen, .. } => *last_seen,
            SnoopEntry::Notes { last_seen, .. } => *last_seen,
        }
    }

    pub fn set_last_seen(&mut self, value: Timestamp)
        ensures
            final(self).last() == value,
            final(self).same_but_for_counters(*old(self)),
            final(self).hits() == old(self).hits(),
            final(self).first() == old(self).first(),
            final(self).drained() == old(self).drained(),
    {
        match self {
            SnoopEntry::Keyword { last_seen, .. } => *last_seen = value,
            SnoopEntry::Source { last_seen, .. } => *last_seen = value,
            SnoopEntry::Notes { last_seen, .. } => *last_seen = value,
        }
    }

    #[must_use]
    pub fn last_drained_at(&self) -> (r: Option<Timestamp>)
        ensures
            r == self.drained(),
    {
        match self {
            SnoopEntry::Keyword { last_drained_at, .. } => *last_drained_at,
            SnoopEntry::Source { last_drained_at, .. } => *last_drained_at,
            SnoopEntry::Notes { last_drained_at, .. } => *last_drained_at,
        }
    }

    pub fn set_last_drained_at(&mut self, value: Option<Timestamp>)
        ensures
            final(self).drained() == value,
            final(self).same_but_for_counters(*old(self)),
            final(self).hits() == old(self).hits(),
            final(self).first() == old(self).first(),
            final(self).last() == old(self).last(),
    {
        match self {
            SnoopEntry::Keyword { last_drained_at, .. } => *last_drained_at = value,
            SnoopEntry::Source { last_drained_at, .. } => *last_drained_at = value,
            SnoopEntry::Notes { last_drained_at, .. } => *last_drained_at = value,
        }
    }

    #[must_use]
    pub fn restrictive_payload_hex(&self) -> (r: Option<&str>)
        ensures
            r is Some <==> self.payload_of() is Some,
            r matches Some(payload) ==> Some(payload@) == types::opt_text(self.payload_of()),
    {
        match self {
            SnoopEntry::Keyword { restrictive_payload_hex, .. } => match restrictive_payload_hex {
                Some(payload) => Some(payload.as_str()),
                None => None,
            },
            SnoopEntry::Source { .. } => None,
            SnoopEntry::Notes { .. } => None,
        }
    }

    /// Whether two entries are of one family and describe the same request, whatever their
    /// counters and times.
    pub open spec fn same_but_for_counters(self, other: SnoopEntry) -> bool {
        &&& self.spec_family() == other.spec_family()
        &&& self.key_of() == other.key_of()
        &&& self.target_of() == other.target_of()
        &&& self.start_of() == other.start_of()
        &&& self.size_of() == other.size_of()
        &&& self.payload_of() == other.payload_of()
    }
}

/// `keyword:` target `:` start position in four hexadecimal digits `:` payload in hexadecimal.
pub open spec fn keyword_key(target: NodeId, start_position: u16, payload: Seq<u8>) -> Seq<char> {
    "keyword:"@ + text::hex_text(target.0@) + ":"@ + text::hex_u16(start_position) + ":"@
        + text::hex_text(payload)
}

/// `source:` target `:` start position in four hexadecimal digits `:` size in decimal.
pub open spec fn source_key(target: NodeId, start_position: u16, size: u64) -> Seq<char> {
    "source:"@ + text::hex_text(target.0@) + ":"@ + text::hex_u16(start_position) + ":"@
        + text::decimal(size as nat)
}

/// `notes:` target `:` size in decimal.
pub open spec fn notes_key(target: NodeId, size: u64) -> Seq<char> {
    "notes:"@ + text::hex_text(target.0@) + ":"@ + text::decimal(size as nat)
}

pub fn keyword_logical_key(req: &SearchKeyReq) -> (r: String)
    ensures
        r@ == keyword_key(req.target, req.start_position, req.restrictive_payload@),
{
    let mut r: String = "keyword:".to_owned();
    let target: String = req.target.to_text();
    r.append(target.as_str());
    r.append(":");
    let start: String = hex_u16_text(req.start_position);
    r.append(start.as_str());
    r.append(":");
    let payload: String = hex_encode(req.restrictive_payload.as_slice());
    r.append(payload.as_str());
    r
}

pub fn source_logical_key(req: &SearchSourceReq) -> (r: String)
    ensures
        r@ == source_key(req.target, req.start_position, req.size),
{
    let mut r: String = "source:".to_owned();
    let target: String = req.target.to_text();
    r.append(target.as_str());
    r.append(":");
    let start: String = hex_u16_text(req.start_position);
    r.append(start.as_str());
    r.append(":");
    let size: String = decimal_text(req.size as u128);
    r.append(size.as_str());
    r
}

pub fn notes_logical_key(req: &SearchNotesReq) -> (r: String)
    ensures
        r@ == notes_key(req.target, req.size),
{
    let mut r: String = "notes:".to_owned();
    let target: String = req.target.to_text();
    r.append(target.as_str());
    r.append(":");
    let size: String = decimal_text(req.size as u128);
    r.append(size.as_str());
    r
}

/// The payload in hexadecimal, where there is one.
pub open spec fn payload_text(payload: Seq<u8>) -> Option<Seq<char>> {
    if payload.len() == 0 {
        None
    } else {
        Some(text::hex_text(payload))
    }
}

pub fn payload_hex(payload: &Vec<u8>) -> (r: Option<String>)
    ensures
        types::opt_text(r) == payload_text(payload@),
{
    if payload.len() == 0 {
        None
    } else {
        Some(hex_encode(payload.as_slice()))
    }
}

/// An entry seen once, at `now`, and never drained.
pub open spec fn seen_once(entry: SnoopEntry, now: Timestamp) -> bool {
    entry.hits() == 1 && entry.first() == now && entry.last() == now && entry.drained() is None
}

pub fn build_keyword_snoop_entry(req: &SearchKeyReq, now: Timestamp) -> (r: SnoopEntry)
    ensures
        r is Keyword,
        seen_once(r, now),
        r.key_of()@ == keyword_key(req.target, req.start_position, req.restrictive_payload@),
        r.target_of()@ == text::hex_text(req.target.0@),
        r.start_of() == Some(req.start_position),
        types::opt_text(r.payload_of()) == payload_text(req.restrictive_payload@),
{
    SnoopEntry::Keyword {
        logical_key: keyword_logical_key(req),
        target: req.target.to_text(),
        start_position: req.start_position,
        restrictive_payload_hex: payload_hex(&req.restrictive_payload),
        hit_count: 1,
        first_seen: now,
        last_seen: now,
        last_drained_at: None,
    }
}

pub fn build_source_snoop_entry(req: &SearchSourceReq, now: Timestamp) -> (r: SnoopEntry)
    ensures
        r is Source,
        seen_once(r, now),
        r.key_of()@ == source_key(req.target, req.start_position, req.size),
        r.target_of()@ == text::hex_text(req.target.0@),
        r.start_of() == Some(req.start_position),
        r.size_of() == Some(req.size),
{
    SnoopEntry::Source {
        logical_key: source_logical_key(req),
        target: req.target.to_text(),
        start_position: req.start_position,
        size: req.size,
        hit_count: 1,
        first_seen: now,
        last_seen: now,
        last_drained_at: None,
    }
}

pub fn build_notes_snoop_entry(req: &SearchNotesReq, now: Timestamp) -> (r: SnoopEntry)
    ensures
        r is Notes,
        seen_once(r, now),
        r.key_of()@ == notes_key(req.target, req.size),
        r.target_of()@ == text::hex_text(req.target.0@),
        r.size_of() == Some(req.size),
{
    SnoopEntry::Notes {
        logical_key: notes_logical_key(req),
        target: req.target.to_text(),
        size: req.size,
        hit_count: 1,
        first_seen: now,
        last_seen: now,
        last_drained_at: None,
    }
}

/// The observation that an entry is recorded as.
pub open spec fn observation_of(entry: SnoopEntry) -> SnoopObservation {
    SnoopObservation {
        family: entry.spec_family(),
        logical_key: entry.key_of(),
        target: entry.target_of(),
        start_position: entry.start_of(),
        size: entry.size_of(),
        restrictive_payload_hex: entry.payload_of(),
        observed_at: entry.last(),
    }
}

/// Turns an entry into its observation.
pub fn snoop_observation(entry: SnoopEntry) -> (r: SnoopObservation)
    ensures
        r == observation_of(entry),
{
    match entry {
        SnoopEntry::Keyword { logical_key, target, start_position, restrictive_payload_hex, last_seen, .. } => SnoopObservation {
            family: HarvestFamily::Keyword,
            logical_key,
            target,
            start_position: Some(start_position),
            size: None,
            restrictive_payload_hex,
            observed_at: last_seen,
        },
        SnoopEntry::Source { logical_key, target, start_position, size, last_seen, .. } => SnoopObservation {
            family: HarvestFamily::Source,
            logical_key,
            target,
            start_position: Some(start_position),
            size: Some(size),
            restrictive_payload_hex: None,
            observed_at: last_seen,
        },
        SnoopEntry::Notes { logical_key, target, size, last_seen, .. } => SnoopObservation {
            family: HarvestFamily::Notes,
            logical_key,
            target,
            start_position: None,
            size: Some(size),
            restrictive_payload_hex: None,
            observed_at: last_seen,
        },
    }
}

/// Takes every pending observation for one flush to the coordinator.
pub fn take_snoop_observations(observed: &mut Vec<SnoopObservation>) -> (r: Vec<SnoopObservation>)
    ensures
        r@ == old(observed)@,
        final(observed)@ == Seq::<SnoopObservation>::empty(),
{
    let mut taken: Vec<SnoopObservation> = Vec::new();
    core::mem::swap(&mut taken, observed);
    taken
}

/// Puts the observations of a failed flush back, ahead of those that came in since.
pub fn restore_snoop_observations(
    observed: &mut Vec<SnoopObservation>,
    unsent: Vec<SnoopObservation>,
)
    ensures
        final(observed)@ == unsent@ + old(observed)@,
{
    let mut joined: Vec<SnoopObservation> = unsent;
    joined.append(observed);
    core::mem::swap(&mut joined, observed);
}

/// The sequence that a flush leaves pending: what came in meanwhile, after what could not be
/// sent.
pub open spec fn pending_after_flush(
    before: Seq<SnoopObservation>,
    meanwhile: Seq<SnoopObservation>,
    sent: bool,
) -> Seq<SnoopObservation> {
    if sent {
        meanwhile
    } else {
        before + meanwhile
    }
}

/// Whether a harvested request is worth a line in the log: a new one is, and of a repeated one the
/// first three hits and every tenth.
pub fn snoop_record_is_logged(is_new: bool, hit_count: u32) -> (r: bool)
    ensures
        r == (is_new || hit_count <= 3 || hit_count % 10 == 0),
{
    is_new || hit_count <= 3 || hit_count % 10 == 0
}

/// Ends a flush: after a failure the taken observations are pending again, in their old place.
pub fn finish_snoop_flush(
    observed: &mut Vec<SnoopObservation>,
    taken: Vec<SnoopObservation>,
    sent: bool,
)
    ensures
        final(observed)@ == pending_after_flush(taken@, old(observed)@, sent),
{
    if !sent {
        restore_snoop_observations(observed, taken);
    }
}

/// A failed flush loses and reorders nothing: what was pending before it is pending after it,
/// ahead of what came in meanwhile; a flush during which nothing came in changes nothing.
pub proof fn law_failed_flush_keeps_observations(
    before: Seq<SnoopObservation>,
    meanwhile: Seq<SnoopObservation>,
)
    ensures
        pending_after_flush(before, meanwhile, false) == before + meanwhile,
        pending_after_flush(before, Seq::empty(), false) == before,
{
    assert(before + Seq::empty() =~= before);
}

proof fn lemma_decimal_len(n: nat)
    ensures
        text::decimal(n).len() > 0,
    decreases n,
{
    if n >= 10 {
        lemma_decimal_len(n / 10);
    }
}

/// Two numbers with the same decimal text are the same.
pub proof fn lemma_decimal_injective(m: nat, n: nat)
    requires
        text::decimal(m) == text::decimal(n),
    ensures
        m == n,
    decreases m,
{
    let s = text::decimal(m);
    lemma_decimal_len(m / 10);
    lemma_decimal_len(n / 10);
    if m >= 10 && n >= 10 {
        assert(s.drop_last() =~= text::decimal(m / 10));
        assert(s.drop_last() =~= text::decimal(n / 10));
        lemma_decimal_injective(m / 10, n / 10);
        assert(s.last() == text::digit_char((m % 10) as int));
        assert(s.last() == text::digit_char((n % 10) as int));
    } else if m < 10 && n < 10 {
        assert(s[0] == text::digit_char(m as int));
        assert(s[0] == text::digit_char(n as int));
    } else {
        assert(s.len() == 1);
    }
}

proof fn lemma_hex_text_injective(x: Seq<u8>, y: Seq<u8>)
    requires
        text::hex_text(x) == text::hex_text(y),
    ensures
        x == y,
{
    ids::law_hex_round_trip(x);
    ids::law_hex_round_trip(y);
}

proof fn lemma_hex_digit_injective(a: int, b: int)
    requires
        0 <= a < 16,
        0 <= b < 16,
        text::hex_digit(a) == text::hex_digit(b),
    ensures
        a == b,
{
}

proof fn lemma_four_hex_digits(v: int)
    requires
        0 <= v < 0x1_0000,
    ensures
        0 <= v / 4096 < 16,
        v == 4096 * (v / 4096) + 256 * (v / 256 % 16) + 16 * (v / 16 % 16) + v % 16,
{
    let (a, b) = (v / 16, v / 256);
    assert(b == a / 16);
    assert(v / 4096 == b / 16);
    assert(v == 16 * a + v % 16);
    assert(a == 16 * b + a % 16);
    assert(b == 16 * (b / 16) + b % 16);
}

proof fn lemma_hex_u16_injective(x: u16, y: u16)
    requires
        text::hex_u16(x) == text::hex_u16(y),
    ensures
        x == y,
{
    let (m, n) = (x as int, y as int);
    lemma_four_hex_digits(m);
    lemma_four_hex_digits(n);
    assert(text::hex_digit(m / 4096) == text::hex_u16(x)[0] == text::hex_digit(n / 4096));
    assert(text::hex_digit(m / 256 % 16) == text::hex_u16(x)[1] == text::hex_digit(n / 256 % 16));
    assert(text::hex_digit(m / 16 % 16) == text::hex_u16(x)[2] == text::hex_digit(n / 16 % 16));
    assert(text::hex_digit(m % 16) == text::hex_u16(x)[3] == text::hex_digit(n % 16));
    lemma_hex_digit_injective(m / 4096, n / 4096);
    lemma_hex_digit_injective(m / 256 % 16, n / 256 % 16);
    lemma_hex_digit_injective(m / 16 % 16, n / 16 % 16);
    lemma_hex_digit_injective(m % 16, n % 16);
}

/// A keyword key tells keyword requests apart.
pub proof fn law_keyword_key_distinguishes(
    t1: NodeId,
    p1: u16,
    r1: Seq<u8>,
    t2: NodeId,
    p2: u16,
    r2: Seq<u8>,
)
    requires
        keyword_key(t1, p1, r1) == keyword_key(t2, p2, r2),
    ensures
        t1 == t2 && p1 == p2 && r1 == r2,
{
    let k = keyword_key(t1, p1, r1);
    let n = "keyword:"@.len() as int;
    let c = ":"@.len() as int;
    assert(k.subrange(n, n + 32) =~= text::hex_text(t1.0@));
    assert(k.subrange(n, n + 32) =~= text::hex_text(t2.0@));
    lemma_hex_text_injective(t1.0@, t2.0@);
    assert(t1.0 =~= t2.0);
    assert(k.subrange(n + 32 + c, n + 36 + c) =~= text::hex_u16(p1));
    assert(k.subrange(n + 32 + c, n + 36 + c) =~= text::hex_u16(p2));
    lemma_hex_u16_injective(p1, p2);
    assert(k.subrange(n + 36 + 2 * c, k.len() as int) =~= text::hex_text(r1));
    assert(k.subrange(n + 36 + 2 * c, k.len() as int) =~= text::hex_text(r2));
    lemma_hex_text_injective(r1, r2);
}

/// A source key tells source requests apart.
pub proof fn law_source_key_distinguishes(
    t1: NodeId,
    p1: u16,
    s1: u64,
    t2: NodeId,
    p2: u16,
    s2: u64,
)
    requires
        source_key(t1, p1, s1) == source_key(t2, p2, s2),
    ensures
        t1 == t2 && p1 == p2 && s1 == s2,
{
    let k = source_key(t1, p1, s1);
    let n = "source:"@.len() as int;
    let c = ":"@.len() as int;
    assert(k.subrange(n, n + 32) =~= text::hex_text(t1.0@));
    assert(k.subrange(n, n + 32) =~= text::hex_text(t2.0@));
    lemma_hex_text_injective(t1.0@, t2.0@);
    assert(t1.0 =~= t2.0);
    assert(k.subrange(n + 32 + c, n + 36 + c) =~= text::hex_u16(p1));
    assert(k.subrange(n + 32 + c, n + 36 + c) =~= text::hex_u16(p2));
    lemma_hex_u16_injective(p1, p2);
    assert(k.subrange(n + 36 + 2 * c, k.len() as int) =~= text::decimal(s1 as nat));
    assert(k.subrange(n + 36 + 2 * c, k.len() as int) =~= text::decimal(s2 as nat));
    lemma_decimal_injective(s1 as nat, s2 as nat);
}

/// A notes key tells notes requests apart.
pub proof fn law_notes_key_distinguishes(t1: NodeId, s1: u64, t2: NodeId, s2: u64)
    requires
        notes_key(t1, s1) == notes_key(t2, s2),
    ensures
        t1 == t2 && s1 == s2,
{
    let k = notes_key(t1, s1);
    let n = "notes:"@.len() as int;
    let c = ":"@.len() as int;
    assert(k.subrange(n, n + 32) =~= text::hex_text(t1.0@));
    assert(k.subrange(n, n + 32) =~= text::hex_text(t2.0@));
    lemma_hex_text_injective(t1.0@, t2.0@);
    assert(t1.0 =~= t2.0);
    assert(k.subrange(n + 32 + c, k.len() as int) =~= text::decimal(s1 as nat));
    assert(k.subrange(n + 32 + c, k.len() as int) =~= text::decimal(s2 as nat));
    lemma_decimal_injective(s1 as nat, s2 as nat);
}

/// Requests of two families never share a key.
pub proof fn law_keys_of_families_differ(
    t1: NodeId,
    p1: u16,
    r1: Seq<u8>,
    t2: NodeId,
    p2: u16,
    s2: u64,
    t3: NodeId,
    s3: u64,
)
    ensures
        keyword_key(t1, p1, r1) != source_key(t2, p2, s2),
        keyword_key(t1, p1, r1) != notes_key(t3, s3),
        source_key(t2, p2, s2) != notes_key(t3, s3),
{
    reveal_strlit("keyword:");
    reveal_strlit("source:");
    reveal_strlit("notes:");
    assert(keyword_key(t1, p1, r1)[0] == 'k');
    assert(source_key(t2, p2, s2)[0] == 's');
    assert(notes_key(t3, s3)[0] == 'n');
}

/// From the packet to the coordinator nothing of a harvested keyword search is lost: its
/// observation names its target, its start position and its payload, in hexadecimal where there is
/// one, and was made when the packet came in.
pub proof fn law_keyword_observation_is_of_its_request(
    req: &SearchKeyReq,
    now: Timestamp,
    entry: SnoopEntry,
    r: SnoopObservation,
)
    requires
        call_ensures(build_keyword_snoop_entry, (req, now), entry),
        call_ensures(snoop_observation, (entry,), r),
    ensures
        r.family == HarvestFamily::Keyword,
        text::hex_bytes(r.target@) == req.target.0@,
        r.start_position == Some(req.start_position),
        r.size is None,
        req.restrictive_payload@.len() > 0 ==> (r.restrictive_payload_hex matches Some(payload)
            && text::hex_bytes(payload@) == req.restrictive_payload@),
        req.restrictive_payload@.len() == 0 ==> r.restrictive_payload_hex is None,
        r.observed_at == now,
{
    ids::law_hex_round_trip(req.target.0@);
    ids::law_hex_round_trip(req.restrictive_payload@);
}

/// The observation of a harvested source search names its target, its start position and its size.
pub proof fn law_source_observation_is_of_its_request(
    req: &SearchSourceReq,
    now: Timestamp,
    entry: SnoopEntry,
    r: SnoopObservation,
)
    requires
        call_ensures(build_source_snoop_entry, (req, now), entry),
        call_ensures(snoop_observation, (entry,), r),
    ensures
        r.family == HarvestFamily::Source,
        text::hex_bytes(r.target@) == req.target.0@,
        r.start_position == Some(req.start_position),
        r.size == Some(req.size),
        r.restrictive_payload_hex is None,
        r.observed_at == now,
{
    ids::law_hex_round_trip(req.target.0@);
}

/// The observation of a harvested notes search names its target and its size.
pub proof fn law_notes_observation_is_of_its_request(
    req: &SearchNotesReq,
    now: Timestamp,
    entry: SnoopEntry,
    r: SnoopObservation,
)
    requires
        call_ensures(build_notes_snoop_entry, (req, now), entry),
        call_ensures(snoop_observation, (entry,), r),
    ensures
        r.family == HarvestFamily::Notes,
        text::hex_bytes(r.target@) == req.target.0@,
        r.start_position is None,
        r.size == Some(req.size),
        r.restrictive_payload_hex is None,
        r.observed_at == now,
{
    ids::law_hex_round_trip(req.target.0@);
}

/// An observation says of an entry all that tells its request apart, and when it was last seen,
/// whatever its counters are.
pub proof fn law_observation_says_the_entry(entry: SnoopEntry, r: SnoopObservation)
    requires
        call_ensures(snoop_observation, (entry,), r),
    ensures
        match entry {
            SnoopEntry::Keyword { logical_key, target, start_position, restrictive_payload_hex, last_seen, .. } => {
                &&& r.family == HarvestFamily::Keyword && r.logical_key == logical_key && r.target == target
                &&& r.start_position == Some(start_position) && r.size is None
                &&& r.restrictive_payload_hex == restrictive_payload_hex && r.observed_at == last_seen
            },
            SnoopEntry::Source { logical_key, target, start_position, size, last_seen, .. } => {
                &&& r.family == HarvestFamily::Source && r.logical_key == logical_key && r.target == target
                &&& r.start_position == Some(start_position) && r.size == Some(size)
                &&& r.restrictive_payload_hex is None && r.observed_at == last_seen
            },
            SnoopEntry::Notes { logical_key, target, size, last_seen, .. } => {
                &&& r.family == HarvestFamily::Notes && r.logical_key == logical_key && r.target == target
                &&& r.start_position is None && r.size == Some(size)
                &&& r.restrictive_payload_hex is None && r.observed_at == last_seen
            },
        },
{
}

/// A new entry has been seen once, when its packet came in, and has never been drained; the entries
/// of two requests share a key only where the requests are the same.
pub proof fn law_new_entries(
    a: &SearchKeyReq,
    b: &SearchKeyReq,
    now: Timestamp,
    later: Timestamp,
    x: SnoopEntry,
    y: SnoopEntry,
)
    requires
        call_ensures(build_keyword_snoop_entry, (a, now), x),
        call_ensures(build_keyword_snoop_entry, (b, later), y),
    ensures
        x matches SnoopEntry::Keyword { hit_count, first_seen, last_seen, last_drained_at, .. } && hit_count == 1
            && first_seen == now && last_seen == now && last_drained_at is None,
        x->Keyword_logical_key@ == y->Keyword_logical_key@ <==> a.target == b.target && a.start_position
            == b.start_position && a.restrictive_payload@ == b.restrictive_payload@,
{
    if x->Keyword_logical_key@ == y->Keyword_logical_key@ {
        law_keyword_key_distinguishes(
            a.target,
            a.start_position,
            a.restrictive_payload@,
            b.target,
            b.start_position,
            b.restrictive_payload@,
        );
    }
}

/// New source and notes entries have been seen once, when their packets came in, and their keys are
/// the same only for the same request.
pub proof fn law_new_file_entries(
    a: &SearchSourceReq,
    b: &SearchSourceReq,
    c: &SearchNotesReq,
    d: &SearchNotesReq,
    now: Timestamp,
    made: (SnoopEntry, SnoopEntry, SnoopEntry, SnoopEntry),
)
    requires
        call_ensures(build_source_snoop_entry, (a, now), made.0),
        call_ensures(build_source_snoop_entry, (b, now), made.1),
        call_ensures(build_notes_snoop_entry, (c, now), made.2),
        call_ensures(build_notes_snoop_entry, (d, now), made.3),
    ensures
        made.0 matches SnoopEntry::Source { hit_count, first_seen, last_seen, last_drained_at, .. } && hit_count
            == 1 && first_seen == now && last_seen == now && last_drained_at is None,
        made.2 matches SnoopEntry::Notes { hit_count, first_seen, last_seen, last_drained_at, .. } && hit_count == 1
            && first_seen == now && last_seen == now && last_drained_at is None,
        made.0->Source_logical_key@ == made.1->Source_logical_key@ <==> a.target == b.target && a.start_position
            == b.start_position && a.size == b.size,
        made.2->Notes_logical_key@ == made.3->Notes_logical_key@ <==> c.target == d.target && c.size == d.size,
        made.0->Source_logical_key@ != made.2->Notes_logical_key@,
{
    if made.0->Source_logical_key@ == made.1->Source_logical_key@ {
        law_source_key_distinguishes(a.target, a.start_position, a.size, b.target, b.start_position, b.size);
    }
    if made.2->Notes_logical_key@ == made.3->Notes_logical_key@ {
        law_notes_key_distinguishes(c.target, c.size, d.target, d.size);
    }
    law_keys_of_families_differ(a.target, 0, Seq::empty(), a.target, a.start_position, a.size, c.target, c.size);
}

/// A flush takes all that is pending. After a failed one it is pending again, ahead of what came in
/// meanwhile; after one that was sent only the latter is.
pub proof fn law_flush_round_trip(
    observed: &mut Vec<SnoopObservation>,
    taken: Vec<SnoopObservation>,
    later: &mut Vec<SnoopObservation>,
    sent: bool,
)
    requires
        call_ensures(take_snoop_observations, (observed,), taken),
        call_ensures(finish_snoop_flush, (later, taken, sent), ()),
    ensures
        taken@ == old(observed)@ && final(observed)@.len() == 0,
        sent ==> final(later)@ == old(later)@,
        !sent ==> final(later)@ == old(observed)@ + old(later)@,
{
}

/// What an entry is asked for is what it holds, in every family.
pub proof fn law_entry_getters(
    entry: &SnoopEntry,
    key: &str,
    target: &str,
    hits: u32,
    first: Timestamp,
    last: Timestamp,
    drained: Option<Timestamp>,
    payload: Option<&str>,
)
    requires
        call_ensures(SnoopEntry::logical_key, (entry,), key),
        call_ensures(SnoopEntry::target, (entry,), target),
        call_ensures(SnoopEntry::hit_count, (entry,), hits),
        call_ensures(SnoopEntry::first_seen, (entry,), first),
        call_ensures(SnoopEntry::last_seen, (entry,), last),
        call_ensures(SnoopEntry::last_drained_at, (entry,), drained),
        call_ensures(SnoopEntry::restrictive_payload_hex, (entry,), payload),
    ensures
        match *entry {
            SnoopEntry::Keyword {
                logical_key,
                target: t,
                restrictive_payload_hex,
                hit_count,
                first_seen,
                last_seen,
                last_drained_at,
                ..
            } => key@ == logical_key@ && target@ == t@ && hits == hit_count && first == first_seen && last
                == last_seen && drained == last_drained_at && match (payload, restrictive_payload_hex) {
                (Some(p), Some(q)) => p@ == q@,
                (None, None) => true,
                _ => false,
            },
            SnoopEntry::Source { logical_key, target: t, hit_count, first_seen, last_seen, last_drained_at, .. } =>
                key@ == logical_key@ && target@ == t@ && hits == hit_count && first == first_seen && last
                    == last_seen && drained == last_drained_at && payload is None,
            SnoopEntry::Notes { logical_key, target: t, hit_count, first_seen, last_seen, last_drained_at, .. } =>
                key@ == logical_key@ && target@ == t@ && hits == hit_count && first == first_seen && last
                    == last_seen && drained == last_drained_at && payload is None,
        },
{
}

/// Setting one counter or time of an entry changes that one alone.
pub proof fn law_entry_setters(
    a: &mut SnoopEntry,
    hits: u32,
    b: &mut SnoopEntry,
    first: Timestamp,
    c: &mut SnoopEntry,
    last: Timestamp,
    d: &mut SnoopEntry,
    drained: Option<Timestamp>,
)
    requires
        call_ensures(SnoopEntry::set_hit_count, (a, hits), ()),
        call_ensures(SnoopEntry::set_first_seen, (b, first), ()),
        call_ensures(SnoopEntry::set_last_seen, (c, last), ()),
        call_ensures(SnoopEntry::set_last_drained_at, (d, drained), ()),
    ensures
        *final(a) == match *old(a) {
            SnoopEntry::Keyword {
                logical_key,
                target,
                start_position,
                restrictive_payload_hex,
                first_seen,
                last_seen,
                last_drained_at,
                ..
            } => SnoopEntry::Keyword {
                logical_key,
                target,
                start_position,
                restrictive_payload_hex,
                hit_count: hits,
                first_seen,
                last_seen,
                last_drained_at,
            },
            SnoopEntry::Source { logical_key, target, start_position, size, first_seen, last_seen, last_drained_at, .. } =>
                SnoopEntry::Source {
                    logical_key,
                    target,
                    start_position,
                    size,
                    hit_count: hits,
                    first_seen,
                    last_seen,
                    last_drained_at,
                },
            SnoopEntry::Notes { logical_key, target, size, first_seen, last_seen, last_drained_at, .. } =>
                SnoopEntry::Notes {
                    logical_key,
                    target,
                    size,
                    hit_count: hits,
                    first_seen,
                    last_seen,
                    last_drained_at,
                },
        },
        match *final(b) {
            SnoopEntry::Keyword { first_seen, hit_count, last_seen, .. } => (*old(b)) is Keyword && first_seen == first
                && hit_count == (*old(b))->Keyword_hit_count && last_seen == (*old(b))->Keyword_last_seen,
            SnoopEntry::Source { first_seen, hit_count, last_seen, .. } => (*old(b)) is Source && first_seen == first
                && hit_count == (*old(b))->Source_hit_count && last_seen == (*old(b))->Source_last_seen,
            SnoopEntry::Notes { first_seen, hit_count, last_seen, .. } => (*old(b)) is Notes && first_seen == first
                && hit_count == (*old(b))->Notes_hit_count && last_seen == (*old(b))->Notes_last_seen,
        },
        match *final(c) {
            SnoopEntry::Keyword { last_seen, hit_count, first_seen, .. } => (*old(c)) is Keyword && last_seen == last
                && hit_count == (*old(c))->Keyword_hit_count && first_seen == (*old(c))->Keyword_first_seen,
            SnoopEntry::Source { last_seen, hit_count, first_seen, .. } => (*old(c)) is Source && last_seen == last
                && hit_count == (*old(c))->Source_hit_count && first_seen == (*old(c))->Source_first_seen,
            SnoopEntry::Notes { last_seen, hit_count, first_seen, .. } => (*old(c)) is Notes && last_seen == last
                && hit_count == (*old(c))->Notes_hit_count && first_seen == (*old(c))->Notes_first_seen,
        },
        match *final(d) {
            SnoopEntry::Keyword { last_drained_at, hit_count, .. } => (*old(d)) is Keyword && last_drained_at
                == drained && hit_count == (*old(d))->Keyword_hit_count,
            SnoopEntry::Source { last_drained_at, hit_count, .. } => (*old(d)) is Source && last_drained_at == drained
                && hit_count == (*old(d))->Source_hit_count,
            SnoopEntry::Notes { last_drained_at, hit_count, .. } => (*old(d)) is Notes && last_drained_at == drained
                && hit_count == (*old(d))->Notes_hit_count,
        },
{
}

/// A payload is written in hexadecimal where there is one.
pub proof fn law_payload_hex(payload: &Vec<u8>, r: Option<String>)
    requires
        call_ensures(payload_hex, (payload,), r),
    ensures
        r is None <==> payload@.len() == 0,
        r matches Some(written) ==> text::hex_bytes(written@) == payload@,
{
    ids::law_hex_round_trip(payload@);
}

/// New requests are always logged, and of repeated ones every tenth at least.
pub proof fn law_logged_requests(is_new: bool, hit_count: u32, r: bool)
    requires
        call_ensures(snoop_record_is_logged, (is_new, hit_count), r),
    ensures
        is_new ==> r,
        !is_new ==> (r <==> hit_count <= 3 || hit_count % 10 == 0),
{
}

/// The key of a request is made of what the request asks for: its target, where it starts, its size
/// and its payload, as far as a request of its family carries them.
pub proof fn law_logical_keys(
    keyword: &SearchKeyReq,
    source: &SearchSourceReq,
    notes: &SearchNotesReq,
    keyword_target: String,
    source_target: String,
    notes_target: String,
    keyword_start: String,
    source_start: String,
    k: String,
    s: String,
    n: String,
)
    requires
        call_ensures(NodeId::to_text, (keyword.target,), keyword_target),
        call_ensures(NodeId::to_text, (source.target,), source_target),
        call_ensures(NodeId::to_text, (notes.target,), notes_target),
        call_ensures(hex_u16_text, (keyword.start_position,), keyword_start),
        call_ensures(hex_u16_text, (source.start_position,), source_start),
        call_ensures(keyword_logical_key, (keyword,), k),
        call_ensures(source_logical_key, (source,), s),
        call_ensures(notes_logical_key, (notes,), n),
    ensures
        k@ == "keyword:"@ + keyword_target@ + ":"@ + keyword_start@ + ":"@ + text::hex_text(
            keyword.restrictive_payload@,
        ),
        s@ == "source:"@ + source_target@ + ":"@ + source_start@ + ":"@ + text::decimal(source.size as nat),
        n@ == "notes:"@ + notes_target@ + ":"@ + text::decimal(notes.size as nat),
{
}

/// Observations that could not be handed over come before those that were made since, and none is
/// lost.
pub proof fn law_unsent_come_first(observed: &mut Vec<SnoopObservation>, unsent: Vec<SnoopObservation>, i: int)
    requires
        call_ensures(restore_snoop_observations, (observed, unsent), ()),
    ensures
        final(observed)@.len() == unsent@.len() + old(observed)@.len(),
        0 <= i < unsent@.len() ==> final(observed)@[i] == unsent@[i],
        0 <= i < old(observed)@.len() ==> final(observed)@[unsent@.len() + i] == old(observed)@[i],
{
}

} // verus!
