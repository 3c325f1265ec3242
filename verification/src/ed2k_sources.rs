//! Lists of download sources: merging, sorting, and picking whom to dial.

use vstd::prelude::*;
use crate::ed2k::Ed2kFoundSource;
use crate::ids::{same_optional_bytes16, Endpoint, Ipv4Addr};

verus! {

/// The option bit of a source that takes encrypted connections only.
pub const ED2K_SOURCE_OBFUSCATION_REQUIRES_CRYPT: u8 = 0x04;

/// What a source is recognised by.
#[derive(Debug, Clone, Copy)]
pub struct SourceKey {
    pub ip: Ipv4Addr,
    pub tcp_port: u16,
    pub user_hash: Option<[u8; 16]>,
    pub obfuscation_options: Option<u8>,
}

/// The key of a source.
pub open spec fn key_of(source: Ed2kFoundSource) -> SourceKey {
    SourceKey {
        ip: source.ip,
        tcp_port: source.tcp_port,
        user_hash: source.user_hash,
        obfuscation_options: source.obfuscation_options,
    }
}

pub fn ed2k_source_attempt_key(source: &Ed2kFoundSource) -> (r: SourceKey)
    ensures
        r == key_of(*source),
{
    SourceKey {
        ip: source.ip,
        tcp_port: source.tcp_port,
        user_hash: source.user_hash,
        obfuscation_options: source.obfuscation_options,
    }
}

pub fn ed2k_source_endpoint_key(source: &Ed2kFoundSource) -> (r: Endpoint)
    ensures
        r == source.endpoint_of(),
{
    source.endpoint()
}

/// Whether two keys are the same.
pub fn same_source_key(a: &SourceKey, b: &SourceKey) -> (r: bool)
    ensures
        r == (*a == *b),
{
    a.ip == b.ip && a.tcp_port == b.tcp_port && a.obfuscation_options == b.obfuscation_options
        && same_optional_bytes16(&a.user_hash, &b.user_hash)
}

/// Whether a source with that key is in the list.
pub open spec fn has_key(sources: Seq<Ed2kFoundSource>, key: SourceKey) -> bool {
    exists|i: int| 0 <= i < sources.len() && key_of(#[trigger] sources[i]) == key
}

/// The list with more sources, each appended unless one with its key is there.
pub open spec fn united(known: Seq<Ed2kFoundSource>, found: Seq<Ed2kFoundSource>) -> Seq<Ed2kFoundSource>
    decreases found.len(),
{
    if found.len() == 0 {
        known
    } else {
        let before = united(known, found.drop_last());
        if has_key(before, key_of(found.last())) {
            before
        } else {
            before.push(found.last())
        }
    }
}

fn knows(sources: &Vec<Ed2kFoundSource>, key: &SourceKey) -> (r: bool)
    ensures
        r == has_key(sources@, *key),
{
    let mut i: usize = 0;
    while i < sources.len()
        invariant
            i <= sources.len(),
            forall|j: int| 0 <= j < i ==> key_of(#[trigger] sources@[j]) != *key,
        decreases sources.len() - i,
    {
        let candidate: SourceKey = ed2k_source_attempt_key(&sources[i]);
        if same_source_key(&candidate, key) {
            assert(key_of(sources@[i as int]) == *key);
            return true;
        }
        i = i + 1;
    }
    false
}

pub fn merge_download_sources(
    aggregated_sources: &mut Vec<Ed2kFoundSource>,
    new_sources: &Vec<Ed2kFoundSource>,
)
    ensures
        final(aggregated_sources)@ == united(old(aggregated_sources)@, new_sources@),
{
    let ghost known = aggregated_sources@;
    let mut i: usize = 0;
    while i < new_sources.len()
        invariant
            i <= new_sources.len(),
            aggregated_sources@ == united(known, new_sources@.take(i as int)),
        decreases new_sources.len() - i,
    {
        proof {
            assert(new_sources@.take(i + 1).drop_last() =~= new_sources@.take(i as int));
            assert(new_sources@.take(i + 1).last() == new_sources@[i as int]);
        }
        let key: SourceKey = ed2k_source_attempt_key(&new_sources[i]);
        if !knows(aggregated_sources, &key) {
            aggregated_sources.push(new_sources[i]);
        }
        i = i + 1;
    }
    assert(new_sources@.take(i as int) =~= new_sources@);
}

/// Whether no two sources have one key.
pub open spec fn keys_distinct(sources: Seq<Ed2kFoundSource>) -> bool {
    forall|i: int, j: int|
        0 <= i < j < sources.len() ==> key_of(#[trigger] sources[i]) != key_of(#[trigger] sources[j])
}

/// What is known stays a prefix of the list, unchanged, and nothing becomes a duplicate.
pub proof fn law_union_keeps_known(known: Seq<Ed2kFoundSource>, found: Seq<Ed2kFoundSource>)
    ensures
        known.is_prefix_of(united(known, found)),
        keys_distinct(known) ==> keys_distinct(united(known, found)),
    decreases found.len(),
{
    if found.len() > 0 {
        law_union_keeps_known(known, found.drop_last());
        let before = united(known, found.drop_last());
        let after = united(known, found);
        assert(known =~= before.subrange(0, known.len() as int));
        assert(known =~= after.subrange(0, known.len() as int));
        if keys_distinct(known) {
            assert forall|i: int, j: int| 0 <= i < j < after.len() implies key_of(#[trigger] after[i])
                != key_of(#[trigger] after[j]) by {
                assert(after[i] == before[i]);
                if j < before.len() {
                    assert(after[j] == before[j]);
                }
            }
        }
    } else {
        assert(known =~= known.subrange(0, known.len() as int));
    }
}

proof fn lemma_union_knows(known: Seq<Ed2kFoundSource>, found: Seq<Ed2kFoundSource>)
    ensures
        forall|i: int| 0 <= i < found.len() ==> has_key(united(known, found), key_of(#[trigger] found[i])),
    decreases found.len(),
{
    if found.len() > 0 {
        lemma_union_knows(known, found.drop_last());
        let before = united(known, found.drop_last());
        let after = united(known, found);
        assert forall|i: int| 0 <= i < found.len() implies has_key(after, key_of(#[trigger] found[i])) by {
            if i < found.len() - 1 {
                assert(found.drop_last()[i] == found[i]);
                let k = choose|k: int| 0 <= k < before.len() && key_of(#[trigger] before[k]) == key_of(found[i]);
                assert(after[k] == before[k]);
            } else if !has_key(before, key_of(found.last())) {
                assert(after[before.len() as int] == found.last());
            }
        }
    }
}

proof fn lemma_union_of_known(known: Seq<Ed2kFoundSource>, found: Seq<Ed2kFoundSource>)
    requires
        forall|i: int| 0 <= i < found.len() ==> has_key(known, key_of(#[trigger] found[i])),
    ensures
        united(known, found) == known,
    decreases found.len(),
{
    if found.len() > 0 {
        assert forall|i: int| 0 <= i < found.len() - 1 implies has_key(
            known,
            key_of(#[trigger] found.drop_last()[i]),
        ) by {
            assert(found.drop_last()[i] == found[i]);
        }
        lemma_union_of_known(known, found.drop_last());
        assert(has_key(known, key_of(found[found.len() - 1])));
    }
}

/// Merging loses no source, and merging the same sources a second time changes nothing.
pub proof fn law_union_complete(known: Seq<Ed2kFoundSource>, found: Seq<Ed2kFoundSource>)
    ensures
        forall|i: int| 0 <= i < found.len() ==> has_key(united(known, found), key_of(#[trigger] found[i])),
        united(united(known, found), found) == united(known, found),
{
    lemma_union_knows(known, found);
    lemma_union_of_known(united(known, found), found);
}

/// The rank of a source: the first to be tried are those that can be dialed directly, among
/// these those with a user hash, and among these those with obfuscation options.
pub open spec fn source_rank(source: Ed2kFoundSource) -> int {
    (if source.dialable() {
        0int
    } else {
        4
    }) + (if source.user_hash is Some {
        0int
    } else {
        2
    }) + (if source.obfuscation_options is Some {
        0int
    } else {
        1
    })
}

/// The sources of the first `ranks` ranks, rank by rank, and within a rank in their order.
pub open spec fn by_rank(sources: Seq<Ed2kFoundSource>, ranks: nat) -> Seq<Ed2kFoundSource>
    decreases ranks,
{
    if ranks == 0 {
        Seq::empty()
    } else {
        by_rank(sources, (ranks - 1) as nat) + sources.filter(
            |source: Ed2kFoundSource| source_rank(source) == ranks - 1,
        )
    }
}

/// The sources in the order in which they are tried.
pub open spec fn sorted_sources(sources: Seq<Ed2kFoundSource>) -> Seq<Ed2kFoundSource> {
    by_rank(sources, 8)
}

fn rank_of(source: &Ed2kFoundSource) -> (r: u8)
    ensures
        r == source_rank(*source),
        r < 8,
{
    let direct: u8 = if source.is_direct_dialable() {
        0
    } else {
        4
    };
    let hash: u8 = if source.user_hash.is_some() {
        0
    } else {
        2
    };
    let options: u8 = if source.obfuscation_options.is_some() {
        0
    } else {
        1
    };
    direct + hash + options
}

/// Prefers direct, obfuscation-ready sources, matching eMule's bias toward peers that can
/// complete the initial secure handshake. Equal sources keep their order.
pub fn sort_native_ed2k_download_sources(sources: &mut Vec<Ed2kFoundSource>)
    ensures
        final(sources)@ == sorted_sources(old(sources)@),
{
    let ghost all = sources@;
    let mut sorted: Vec<Ed2kFoundSource> = Vec::new();
    let mut rank: u8 = 0;
    while rank < 8
        invariant
            rank <= 8,
            sources@ == all,
            sorted@ == by_rank(all, rank as nat),
        decreases 8 - rank,
    {
        let ghost of_rank = |source: Ed2kFoundSource| source_rank(source) == rank;
        let mut i: usize = 0;
        proof {
            reveal(Seq::filter);
            assert(all.take(0).filter(of_rank) =~= Seq::empty());
            assert(by_rank(all, rank as nat) + Seq::<Ed2kFoundSource>::empty() =~= by_rank(
                all,
                rank as nat,
            ));
        }
        while i < sources.len()
            invariant
                rank < 8,
                i <= sources.len(),
                sources@ == all,
                of_rank == (|source: Ed2kFoundSource| source_rank(source) == rank),
                sorted@ == by_rank(all, rank as nat) + all.take(i as int).filter(of_rank),
            decreases sources.len() - i,
        {
            proof {
                reveal(Seq::filter);
                assert(all.take(i + 1).drop_last() =~= all.take(i as int));
                assert(all.take(i + 1).last() == all[i as int]);
            }
            if rank_of(&sources[i]) == rank {
                sorted.push(sources[i]);
            }
            assert(sorted@ =~= by_rank(all, rank as nat) + all.take(i + 1).filter(of_rank));
            i = i + 1;
        }
        proof {
            assert(all.take(i as int) =~= all);
            let next = |source: Ed2kFoundSource| source_rank(source) == (rank + 1) - 1;
            assert(of_rank =~= next);
            assert(by_rank(all, (rank + 1) as nat) == by_rank(all, rank as nat) + all.filter(next));
        }
        rank = rank + 1;
    }
    *sources = sorted;
}

proof fn lemma_filter_count(
    s: Seq<Ed2kFoundSource>,
    pred: spec_fn(Ed2kFoundSource) -> bool,
    v: Ed2kFoundSource,
)
    ensures
        s.filter(pred).to_multiset().count(v) == if pred(v) {
            s.to_multiset().count(v)
        } else {
            0
        },
    decreases s.len(),
{
    broadcast use vstd::seq_lib::group_to_multiset_ensures;

    reveal(Seq::filter);
    if s.len() > 0 {
        lemma_filter_count(s.drop_last(), pred, v);
        assert(s =~= s.drop_last().push(s.last()));
        if pred(s.last()) {
            assert(s.filter(pred) =~= s.drop_last().filter(pred).push(s.last()));
        } else {
            assert(s.filter(pred) =~= s.drop_last().filter(pred));
        }
    }
}

proof fn lemma_by_rank_count(s: Seq<Ed2kFoundSource>, ranks: nat, v: Ed2kFoundSource)
    ensures
        by_rank(s, ranks).to_multiset().count(v) == if source_rank(v) < ranks {
            s.to_multiset().count(v)
        } else {
            0
        },
    decreases ranks,
{
    broadcast use vstd::seq_lib::group_to_multiset_ensures;

    if ranks > 0 {
        let pred = |source: Ed2kFoundSource| source_rank(source) == ranks - 1;
        lemma_by_rank_count(s, (ranks - 1) as nat, v);
        lemma_filter_count(s, pred, v);
        vstd::seq_lib::lemma_multiset_commutative(by_rank(s, (ranks - 1) as nat), s.filter(pred));
    }
}

proof fn lemma_by_rank_ordered(s: Seq<Ed2kFoundSource>, ranks: nat)
    ensures
        forall|i: int| 0 <= i < by_rank(s, ranks).len() ==> source_rank(#[trigger] by_rank(s, ranks)[i]) < ranks,
        forall|i: int, j: int|
            0 <= i <= j < by_rank(s, ranks).len() ==> source_rank(#[trigger] by_rank(s, ranks)[i])
                <= source_rank(#[trigger] by_rank(s, ranks)[j]),
    decreases ranks,
{
    if ranks > 0 {
        let pred = |source: Ed2kFoundSource| source_rank(source) == ranks - 1;
        let low = by_rank(s, (ranks - 1) as nat);
        let high = s.filter(pred);
        lemma_by_rank_ordered(s, (ranks - 1) as nat);
        assert forall|i: int| 0 <= i < high.len() implies source_rank(#[trigger] high[i]) == ranks - 1 by {
            s.lemma_filter_pred(pred, i);
        }
        let all = by_rank(s, ranks);
        assert(all == low + high);
        assert forall|i: int, j: int| 0 <= i <= j < all.len() implies source_rank(#[trigger] all[i])
            <= source_rank(#[trigger] all[j]) by {
            if j < low.len() {
                assert(all[i] == low[i] && all[j] == low[j]);
            } else {
                assert(all[j] == high[j - low.len()]);
                if i < low.len() {
                    assert(all[i] == low[i]);
                } else {
                    assert(all[i] == high[i - low.len()]);
                }
            }
        }
    }
}

/// Sorting neither loses nor adds a source, and puts them in the order of their ranks.
pub proof fn law_sort_is_ordered_permutation(sources: Seq<Ed2kFoundSource>)
    ensures
        sorted_sources(sources).to_multiset() == sources.to_multiset(),
        forall|i: int, j: int|
            0 <= i <= j < sorted_sources(sources).len() ==> source_rank(#[trigger] sorted_sources(sources)[i])
                <= source_rank(#[trigger] sorted_sources(sources)[j]),
{
    assert forall|v: Ed2kFoundSource| sorted_sources(sources).to_multiset().count(v)
        == #[trigger] sources.to_multiset().count(v) by {
        lemma_by_rank_count(sources, 8, v);
    }
    assert(sorted_sources(sources).to_multiset() =~= sources.to_multiset());
    lemma_by_rank_ordered(sources, 8);
}

/// Whether an endpoint is among those of `sources`.
pub open spec fn lists_endpoint(sources: Seq<Ed2kFoundSource>, endpoint: Endpoint) -> bool {
    exists|i: int| 0 <= i < sources.len() && (#[trigger] sources[i]).endpoint_of() == endpoint
}

/// The sources to dial: of every endpoint that has not been attempted the first that can be
/// dialed directly, in order.
pub open spec fn candidates(sources: Seq<Ed2kFoundSource>, attempted: Seq<Endpoint>) -> Seq<Ed2kFoundSource>
    decreases sources.len(),
{
    if sources.len() == 0 {
        Seq::empty()
    } else {
        let before = candidates(sources.drop_last(), attempted);
        let last = sources.last();
        if last.dialable() && !attempted.contains(last.endpoint_of()) && !lists_endpoint(
            before,
            last.endpoint_of(),
        ) {
            before.push(last)
        } else {
            before
        }
    }
}

fn contains_endpoint(endpoints: &Vec<Endpoint>, endpoint: Endpoint) -> (r: bool)
    ensures
        r == endpoints@.contains(endpoint),
{
    let mut i: usize = 0;
    while i < endpoints.len()
        invariant
            i <= endpoints.len(),
            forall|j: int| 0 <= j < i ==> endpoints@[j] != endpoint,
        decreases endpoints.len() - i,
    {
        if endpoints[i] == endpoint {
            assert(endpoints@[i as int] == endpoint);
            return true;
        }
        i = i + 1;
    }
    false
}

fn has_endpoint(sources: &Vec<Ed2kFoundSource>, endpoint: Endpoint) -> (r: bool)
    ensures
        r == lists_endpoint(sources@, endpoint),
{
    let mut i: usize = 0;
    while i < sources.len()
        invariant
            i <= sources.len(),
            forall|j: int| 0 <= j < i ==> (#[trigger] sources@[j]).endpoint_of() != endpoint,
        decreases sources.len() - i,
    {
        if sources[i].endpoint() == endpoint {
            assert(sources@[i as int].endpoint_of() == endpoint);
            return true;
        }
        i = i + 1;
    }
    false
}

pub fn direct_download_candidate_sources(
    sources: &Vec<Ed2kFoundSource>,
    attempted_direct_endpoints: &Vec<Endpoint>,
) -> (r: Vec<Ed2kFoundSource>)
    ensures
        r@ == candidates(sources@, attempted_direct_endpoints@),
{
    let mut r: Vec<Ed2kFoundSource> = Vec::new();
    let mut i: usize = 0;
    while i < sources.len()
        invariant
            i <= sources.len(),
            r@ == candidates(sources@.take(i as int), attempted_direct_endpoints@),
        decreases sources.len() - i,
    {
        proof {
            assert(sources@.take(i + 1).drop_last() =~= sources@.take(i as int));
            assert(sources@.take(i + 1).last() == sources@[i as int]);
        }
        let endpoint: Endpoint = sources[i].endpoint();
        if sources[i].is_direct_dialable() && !contains_endpoint(attempted_direct_endpoints, endpoint)
            && !has_endpoint(&r, endpoint) {
            r.push(sources[i]);
        }
        i = i + 1;
    }
    assert(sources@.take(i as int) =~= sources@);
    r
}

pub fn new_direct_ed2k_source_count(
    sources: &Vec<Ed2kFoundSource>,
    attempted_direct_endpoints: &Vec<Endpoint>,
) -> (r: usize)
    ensures
        r == candidates(sources@, attempted_direct_endpoints@).len(),
{
    direct_download_candidate_sources(sources, attempted_direct_endpoints).len()
}

/// The endpoints of a list of sources.
pub open spec fn endpoints_of(sources: Seq<Ed2kFoundSource>) -> Seq<Endpoint> {
    Seq::new(sources.len(), |i: int| sources[i].endpoint_of())
}

/// Whom one round dials: every candidate can be dialed, none has been attempted before, no two
/// share an endpoint, and no endpoint that could be dialed is left out.
pub proof fn law_candidates(sources: Seq<Ed2kFoundSource>, attempted: Seq<Endpoint>)
    ensures
        forall|i: int|
            0 <= i < candidates(sources, attempted).len() ==> {
                &&& (#[trigger] candidates(sources, attempted)[i]).dialable()
                &&& !attempted.contains(candidates(sources, attempted)[i].endpoint_of())
                &&& sources.contains(candidates(sources, attempted)[i])
            },
        forall|i: int, j: int|
            0 <= i < j < candidates(sources, attempted).len() ==> (#[trigger] candidates(sources, attempted)[i]).endpoint_of()
                != (#[trigger] candidates(sources, attempted)[j]).endpoint_of(),
        forall|k: int|
            0 <= k < sources.len() && (#[trigger] sources[k]).dialable() && !attempted.contains(
                sources[k].endpoint_of(),
            ) ==> lists_endpoint(candidates(sources, attempted), sources[k].endpoint_of()),
    decreases sources.len(),
{
    if sources.len() > 0 {
        let init = sources.drop_last();
        let last = sources.last();
        law_candidates(init, attempted);
        let before = candidates(init, attempted);
        let all = candidates(sources, attempted);
        assert forall|i: int| 0 <= i < all.len() implies {
            &&& (#[trigger] all[i]).dialable()
            &&& !attempted.contains(all[i].endpoint_of())
            &&& sources.contains(all[i])
        } by {
            if i < before.len() {
                assert(all[i] == before[i]);
                let k = choose|k: int| 0 <= k < init.len() && init[k] == before[i];
                assert(sources[k] == before[i]);
            } else {
                assert(sources[sources.len() - 1] == last);
            }
        }
        assert forall|i: int, j: int| 0 <= i < j < all.len() implies (#[trigger] all[i]).endpoint_of()
            != (#[trigger] all[j]).endpoint_of() by {
            assert(all[i] == before[i]);
            if j < before.len() {
                assert(all[j] == before[j]);
            }
        }
        assert forall|k: int| 0 <= k < sources.len() && (#[trigger] sources[k]).dialable() && !attempted.contains(
            sources[k].endpoint_of(),
        ) implies lists_endpoint(all, sources[k].endpoint_of()) by {
            if k < init.len() {
                assert(init[k] == sources[k]);
                let i = choose|i: int|
                    0 <= i < before.len() && (#[trigger] before[i]).endpoint_of() == sources[k].endpoint_of();
                assert(all[i] == before[i]);
            } else {
                if lists_endpoint(before, last.endpoint_of()) {
                    let i = choose|i: int|
                        0 <= i < before.len() && (#[trigger] before[i]).endpoint_of() == last.endpoint_of();
                    assert(all[i] == before[i]);
                } else {
                    assert(all[all.len() - 1] == last);
                }
            }
        }
    }
}

/// A round exhausts its endpoints: once its candidates have been attempted, the same sources
/// offer nobody new, under whatever identity they list a peer.
pub proof fn law_attempted_endpoints_exhausted(sources: Seq<Ed2kFoundSource>, attempted: Seq<Endpoint>)
    ensures
        candidates(sources, attempted + endpoints_of(candidates(sources, attempted))).len() == 0,
{
    let first = candidates(sources, attempted);
    let after = attempted + endpoints_of(first);
    law_candidates(sources, attempted);
    law_candidates(sources, after);
    let second = candidates(sources, after);
    if second.len() > 0 {
        let c = second[0];
        assert(c.dialable());
        assert(!after.contains(c.endpoint_of()));
        let k = choose|k: int| 0 <= k < sources.len() && sources[k] == c;
        assert(sources[k].dialable());
        if attempted.contains(c.endpoint_of()) {
            let a = choose|a: int| 0 <= a < attempted.len() && attempted[a] == c.endpoint_of();
            assert(after[a] == c.endpoint_of());
        } else {
            let i = choose|i: int|
                0 <= i < first.len() && (#[trigger] first[i]).endpoint_of() == c.endpoint_of();
            assert(after[attempted.len() + i] == c.endpoint_of());
        }
        assert(false);
    }
}

/// Whether the sources are not asked for again: direct ones have been tried, nothing came of
/// them, and no new one is known.
pub fn should_skip_no_progress_source_requery(
    had_direct_sources: bool,
    manifest_has_progress: bool,
    new_direct_source_count: usize,
) -> (r: bool)
    ensures
        r == (had_direct_sources && !manifest_has_progress && new_direct_source_count == 0),
{
    had_direct_sources && !manifest_has_progress && new_direct_source_count == 0
}

/// The plaintext source to try after an obfuscated one has failed.
pub open spec fn plaintext_fallback(source: Ed2kFoundSource) -> Option<Ed2kFoundSource> {
    match source.obfuscation_options {
        Some(options) => if options & ED2K_SOURCE_OBFUSCATION_REQUIRES_CRYPT != 0 {
            None
        } else {
            Some(
                Ed2kFoundSource {
                    obfuscated: false,
                    obfuscation_options: None,
                    user_hash: None,
                    ..source
                },
            )
        },
        None => None,
    }
}

pub fn plaintext_fallback_for_obfuscated_source(source: &Ed2kFoundSource) -> (r: Option<Ed2kFoundSource>)
    ensures
        r == plaintext_fallback(*source),
{
    match source.obfuscation_options {
        Some(options) => {
            if options & ED2K_SOURCE_OBFUSCATION_REQUIRES_CRYPT != 0 {
                return None;
            }
            let mut fallback: Ed2kFoundSource = *source;
            fallback.obfuscated = false;
            fallback.obfuscation_options = None;
            fallback.user_hash = None;
            Some(fallback)
        },
        None => None,
    }
}

/// A source that requires encryption is never tried in plaintext; a fallback is the same peer in
/// plaintext, and has no fallback of its own.
pub proof fn law_plaintext_fallback(source: Ed2kFoundSource)
    ensures
        source.obfuscation_options matches Some(options) ==> (options & ED2K_SOURCE_OBFUSCATION_REQUIRES_CRYPT
            != 0 ==> plaintext_fallback(source) is None),
        plaintext_fallback(source) matches Some(fallback) ==> {
            &&& fallback.endpoint_of() == source.endpoint_of()
            &&& fallback.file_hash == source.file_hash
            &&& !fallback.obfuscated
            &&& plaintext_fallback(fallback) is None
        },
{
}

/// Two sources are recognised as one exactly where they have the same address, port, user hash and
/// obfuscation options, whatever else is said of them.
pub proof fn law_source_keys(a: &Ed2kFoundSource, b: &Ed2kFoundSource, key_a: SourceKey, key_b: SourceKey, at: Endpoint, same: bool)
    requires
        call_ensures(ed2k_source_attempt_key, (a,), key_a),
        call_ensures(ed2k_source_attempt_key, (b,), key_b),
        call_ensures(ed2k_source_endpoint_key, (a,), at),
        call_ensures(same_source_key, (&key_a, &key_b), same),
    ensures
        same <==> a.ip == b.ip && a.tcp_port == b.tcp_port && a.user_hash == b.user_hash
            && a.obfuscation_options == b.obfuscation_options,
        key_a.ip == a.ip && key_a.tcp_port == a.tcp_port && key_a.user_hash == a.user_hash
            && key_a.obfuscation_options == a.obfuscation_options,
        at.ip == a.ip && at.port == a.tcp_port,
{
}

/// Merging keeps what is known first and as it is, and adds of the found ones those, and only those,
/// whose address, port, user hash and options were not there.
pub proof fn law_merged_sources(known: &mut Vec<Ed2kFoundSource>, found: &Vec<Ed2kFoundSource>, i: int)
    requires
        call_ensures(merge_download_sources, (known, found), ()),
    ensures
        final(known)@.len() >= old(known)@.len(),
        final(known)@.len() <= old(known)@.len() + found@.len(),
        0 <= i < old(known)@.len() ==> final(known)@[i] == old(known)@[i],
        old(known)@.len() <= i < final(known)@.len() ==> found@.contains(final(known)@[i]),
        0 <= i < found@.len() ==> exists|k: int|
            0 <= k < final(known)@.len() && {
                let there = #[trigger] final(known)@[k];
                &&& there.ip == found@[i].ip
                &&& there.tcp_port == found@[i].tcp_port
                &&& there.user_hash == found@[i].user_hash
                &&& there.obfuscation_options == found@[i].obfuscation_options
            },
        0 <= i < found@.len() && (exists|k: int|
            0 <= k < old(known)@.len() && {
                let there = #[trigger] old(known)@[k];
                &&& there.ip == found@[i].ip
                &&& there.tcp_port == found@[i].tcp_port
                &&& there.user_hash == found@[i].user_hash
                &&& there.obfuscation_options == found@[i].obfuscation_options
            }) && found@.len() == 1 ==> final(known)@ == old(known)@,
{
    let k0 = old(known)@;
    law_union_keeps_known(k0, found@);
    law_union_complete(k0, found@);
    lemma_union_from(k0, found@);
    let all = united(k0, found@);
    if 0 <= i < k0.len() {
        assert(k0[i] == all.subrange(0, k0.len() as int)[i]);
    }
    if 0 <= i < found@.len() {
        assert(has_key(all, key_of(found@[i])));
        let k = choose|k: int| 0 <= k < all.len() && key_of(#[trigger] all[k]) == key_of(found@[i]);
        assert(key_of(all[k]).ip == found@[i].ip);
        assert(key_of(all[k]).tcp_port == found@[i].tcp_port);
        assert(key_of(all[k]).user_hash == found@[i].user_hash);
        assert(key_of(all[k]).obfuscation_options == found@[i].obfuscation_options);
        if found@.len() == 1 {
            assert(found@.drop_last() =~= Seq::empty());
            assert(found@.last() == found@[i]);
            assert(united(k0, found@.drop_last()) == k0);
            if exists|k: int|
                0 <= k < k0.len() && {
                    let there = #[trigger] k0[k];
                    &&& there.ip == found@[i].ip
                    &&& there.tcp_port == found@[i].tcp_port
                    &&& there.user_hash == found@[i].user_hash
                    &&& there.obfuscation_options == found@[i].obfuscation_options
                } {
                let k = choose|k: int|
                    0 <= k < k0.len() && {
                        let there = #[trigger] k0[k];
                        &&& there.ip == found@[i].ip
                        &&& there.tcp_port == found@[i].tcp_port
                        &&& there.user_hash == found@[i].user_hash
                        &&& there.obfuscation_options == found@[i].obfuscation_options
                    };
                assert(key_of(k0[k]) == key_of(found@[i]));
                assert(has_key(k0, key_of(found@[i])));
            }
        }
    }
}

proof fn lemma_union_from(known: Seq<Ed2kFoundSource>, found: Seq<Ed2kFoundSource>)
    ensures
        known.len() <= united(known, found).len() <= known.len() + found.len(),
        forall|i: int|
            known.len() <= i < united(known, found).len() ==> found.contains(#[trigger] united(known, found)[i]),
    decreases found.len(),
{
    if found.len() > 0 {
        lemma_union_from(known, found.drop_last());
        let before = united(known, found.drop_last());
        let after = united(known, found);
        assert forall|i: int| known.len() <= i < after.len() implies found.contains(#[trigger] after[i]) by {
            if i < before.len() {
                assert(after[i] == before[i]);
                let k = choose|k: int| 0 <= k < found.drop_last().len() && found.drop_last()[k] == before[i];
                assert(found[k] == after[i]);
            } else {
                assert(found[found.len() - 1] == after[i]);
            }
        }
    }
}

/// Sources are tried in this order: those that can be dialed before those that cannot, of two that
/// are alike in that the one with a user hash, and then the one with obfuscation options.
pub proof fn law_sources_in_order(sources: &mut Vec<Ed2kFoundSource>, i: int, j: int)
    requires
        call_ensures(sort_native_ed2k_download_sources, (sources,), ()),
        0 <= i < j < final(sources)@.len(),
    ensures
        final(sources)@.to_multiset() == old(sources)@.to_multiset(),
        final(sources)@[i].low_id || final(sources)@[i].tcp_port == 0 ==> final(sources)@[j].low_id
            || final(sources)@[j].tcp_port == 0,
        (final(sources)@[i].low_id || final(sources)@[i].tcp_port == 0) == (final(sources)@[j].low_id || final(sources)@[j].tcp_port == 0) ==> {
            &&& final(sources)@[i].user_hash is None ==> final(sources)@[j].user_hash is None
            &&& (final(sources)@[i].user_hash is None) == (final(sources)@[j].user_hash is None) ==> (final(sources)@[i].obfuscation_options is None ==> final(sources)@[j].obfuscation_options is None)
        },
{
    law_sort_is_ordered_permutation(old(sources)@);
    assert(source_rank(final(sources)@[i]) <= source_rank(final(sources)@[j]));
}

/// A round dials only sources of the list that can be dialed, at endpoints that were not attempted,
/// each endpoint once; no such endpoint is left out; and the count is that of the sources dialed.
pub proof fn law_round_candidates(
    sources: &Vec<Ed2kFoundSource>,
    attempted: &Vec<Endpoint>,
    r: Vec<Ed2kFoundSource>,
    count: usize,
    i: int,
    j: int,
)
    requires
        call_ensures(direct_download_candidate_sources, (sources, attempted), r),
        call_ensures(new_direct_ed2k_source_count, (sources, attempted), count),
    ensures
        count == r@.len(),
        0 <= i < r@.len() ==> {
            &&& sources@.contains(r@[i])
            &&& !r@[i].low_id
            &&& r@[i].tcp_port != 0
            &&& !attempted@.contains(Endpoint { ip: r@[i].ip, port: r@[i].tcp_port })
        },
        0 <= i < j < r@.len() ==> r@[i].ip != r@[j].ip || r@[i].tcp_port != r@[j].tcp_port,
        0 <= i < sources@.len() && !sources@[i].low_id && sources@[i].tcp_port != 0 && !attempted@.contains(
            Endpoint { ip: sources@[i].ip, port: sources@[i].tcp_port },
        ) ==> exists|k: int|
            0 <= k < r@.len() && (#[trigger] r@[k]).ip == sources@[i].ip && r@[k].tcp_port
                == sources@[i].tcp_port,
{
    law_candidates(sources@, attempted@);
    if 0 <= i < r@.len() {
        assert(r@[i].dialable());
    }
    if 0 <= i < j < r@.len() {
        assert(r@[i].endpoint_of() != r@[j].endpoint_of());
    }
    if 0 <= i < sources@.len() && sources@[i].dialable() && !attempted@.contains(sources@[i].endpoint_of()) {
        assert(lists_endpoint(r@, sources@[i].endpoint_of()));
        let k = choose|k: int| 0 <= k < r@.len() && (#[trigger] r@[k]).endpoint_of() == sources@[i].endpoint_of();
        assert(r@[k].endpoint_of().ip == sources@[i].ip);
        assert(r@[k].endpoint_of().port == sources@[i].tcp_port);
    }
}

/// Sources are asked for again unless direct ones were tried in vain and none is new.
pub proof fn law_requery(had_direct: bool, progress: bool, new_count: usize, r: bool)
    requires
        call_ensures(should_skip_no_progress_source_requery, (had_direct, progress, new_count), r),
    ensures
        r ==> had_direct && !progress && new_count == 0,
        !r ==> !had_direct || progress || new_count > 0,
{
}

/// A fallback exists exactly for a source with options that do not require encryption, and is the
/// same peer and file without options, user hash or obfuscation.
pub proof fn law_fallback_is_plaintext(source: &Ed2kFoundSource, r: Option<Ed2kFoundSource>)
    requires
        call_ensures(plaintext_fallback_for_obfuscated_source, (source,), r),
    ensures
        source.obfuscation_options is None ==> r is None,
        source.obfuscation_options matches Some(options) ==> (r is None <==> options & 4u8 != 0),
        r matches Some(fallback) ==> {
            &&& fallback.file_hash == source.file_hash
            &&& fallback.ip == source.ip
            &&& fallback.tcp_port == source.tcp_port
            &&& fallback.client_id == source.client_id
            &&& fallback.low_id == source.low_id
            &&& fallback.source_server == source.source_server
            &&& !fallback.obfuscated
            &&& fallback.obfuscation_options is None
            &&& fallback.user_hash is None
        },
{
}

} // verus!
