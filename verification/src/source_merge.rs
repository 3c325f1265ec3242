//! Merging of download sources that lets a known source learn its server.

use vstd::prelude::*;
use crate::ed2k::Ed2kFoundSource;
use crate::ed2k_sources;
use crate::ed2k_sources::{ed2k_source_attempt_key, same_source_key, SourceKey};

verus! {

/// The place of the first source with that key.
pub open spec fn first_with_key(sources: Seq<Ed2kFoundSource>, key: SourceKey) -> Option<int>
    decreases sources.len(),
{
    if sources.len() == 0 {
        None
    } else {
        match first_with_key(sources.drop_last(), key) {
            Some(i) => Some(i),
            None => if ed2k_sources::key_of(sources.last()) == key {
                Some(sources.len() - 1)
            } else {
                None
            },
        }
    }
}

proof fn lemma_first_with_key(sources: Seq<Ed2kFoundSource>, key: SourceKey)
    ensures
        match first_with_key(sources, key) {
            Some(i) => 0 <= i < sources.len() && ed2k_sources::key_of(sources[i]) == key && forall|j: int|
                0 <= j < i ==> ed2k_sources::key_of(#[trigger] sources[j]) != key,
            None => forall|j: int| 0 <= j < sources.len() ==> ed2k_sources::key_of(#[trigger] sources[j]) != key,
        },
    decreases sources.len(),
{
    if sources.len() > 0 {
        lemma_first_with_key(sources.drop_last(), key);
        assert(forall|j: int|
            0 <= j < sources.len() - 1 ==> sources.drop_last()[j] == #[trigger] sources[j]);
    }
}

proof fn lemma_first_with_key_at(sources: Seq<Ed2kFoundSource>, key: SourceKey, i: int)
    requires
        0 <= i < sources.len(),
        ed2k_sources::key_of(sources[i]) == key,
        forall|j: int| 0 <= j < i ==> ed2k_sources::key_of(#[trigger] sources[j]) != key,
    ensures
        first_with_key(sources, key) == Some(i),
{
    lemma_first_with_key(sources, key);
    let found = first_with_key(sources, key);
    if let Some(k) = found {
        if k < i {
            assert(ed2k_sources::key_of(sources[k]) != key);
        }
    }
}

fn find_with_key(sources: &Vec<Ed2kFoundSource>, key: &SourceKey) -> (r: Option<usize>)
    ensures
        match r {
            Some(i) => first_with_key(sources@, *key) == Some(i as int) && i < sources@.len(),
            None => first_with_key(sources@, *key) is None,
        },
{
    let mut i: usize = 0;
    while i < sources.len()
        invariant
            i <= sources.len(),
            forall|j: int| 0 <= j < i ==> ed2k_sources::key_of(#[trigger] sources@[j]) != *key,
        decreases sources.len() - i,
    {
        let candidate: SourceKey = ed2k_source_attempt_key(&sources[i]);
        if same_source_key(&candidate, key) {
            proof {
                lemma_first_with_key_at(sources@, *key, i as int);
            }
            return Some(i);
        }
        i = i + 1;
    }
    proof {
        lemma_first_with_key(sources@, *key);
    }
    None
}

/// `known` with the server of `found`, where it has none of its own.
pub open spec fn with_server(known: Ed2kFoundSource, found: Ed2kFoundSource) -> Ed2kFoundSource {
    if known.source_server is None {
        Ed2kFoundSource { source_server: found.source_server, ..known }
    } else {
        known
    }
}

/// The list with one more source: a source that is known already only lends its server to the
/// known one.
pub open spec fn merged_one(known: Seq<Ed2kFoundSource>, found: Ed2kFoundSource) -> Seq<Ed2kFoundSource> {
    match first_with_key(known, ed2k_sources::key_of(found)) {
        Some(i) => known.update(i, with_server(known[i], found)),
        None => known.push(found),
    }
}

/// The list with more sources, taken in order.
pub open spec fn merged(known: Seq<Ed2kFoundSource>, found: Seq<Ed2kFoundSource>) -> Seq<Ed2kFoundSource>
    decreases found.len(),
{
    if found.len() == 0 {
        known
    } else {
        merged_one(merged(known, found.drop_last()), found.last())
    }
}

/// Merges newly found sources into the known ones.
pub fn merge_download_sources(
    aggregated_sources: &mut Vec<Ed2kFoundSource>,
    new_sources: &Vec<Ed2kFoundSource>,
)
    ensures
        final(aggregated_sources)@ == merged(old(aggregated_sources)@, new_sources@),
{
    let ghost known = aggregated_sources@;
    let mut i: usize = 0;
    while i < new_sources.len()
        invariant
            i <= new_sources.len(),
            aggregated_sources@ == merged(known, new_sources@.take(i as int)),
        decreases new_sources.len() - i,
    {
        let source: Ed2kFoundSource = new_sources[i];
        proof {
            assert(new_sources@.take(i + 1).drop_last() =~= new_sources@.take(i as int));
            assert(new_sources@.take(i + 1).last() == source);
        }
        let key: SourceKey = ed2k_source_attempt_key(&source);
        match find_with_key(aggregated_sources, &key) {
            Some(at) => {
                let ghost before = aggregated_sources@;
                let mut existing: Ed2kFoundSource = aggregated_sources[at];
                if existing.source_server.is_none() {
                    existing.source_server = source.source_server;
                }
                aggregated_sources.set(at, existing);
                assert(aggregated_sources@ =~= merged_one(before, source));
            },
            None => {
                aggregated_sources.push(source);
            },
        }
        i = i + 1;
    }
    assert(new_sources@.take(i as int) =~= new_sources@);
}

/// Whether two sources differ in their server at most.
pub open spec fn same_but_for_server(a: Ed2kFoundSource, b: Ed2kFoundSource) -> bool {
    a == (Ed2kFoundSource { source_server: a.source_server, ..b })
}

proof fn lemma_merged_one_keys(known: Seq<Ed2kFoundSource>, found: Ed2kFoundSource)
    ensures
        merged_one(known, found).len() >= known.len(),
        forall|i: int|
            0 <= i < known.len() ==> ed2k_sources::key_of(#[trigger] merged_one(known, found)[i]) == ed2k_sources::key_of(known[i]),
        forall|i: int|
            0 <= i < known.len() ==> same_but_for_server(#[trigger] merged_one(known, found)[i], known[i]),
        ed2k_sources::keys_distinct(known) ==> ed2k_sources::keys_distinct(merged_one(known, found)),
{
    lemma_first_with_key(known, ed2k_sources::key_of(found));
    let m = merged_one(known, found);
    if ed2k_sources::keys_distinct(known) {
        assert forall|i: int, j: int| 0 <= i < j < m.len() implies ed2k_sources::key_of(#[trigger] m[i]) != ed2k_sources::key_of(
            #[trigger] m[j],
        ) by {
            if j < known.len() {
                assert(ed2k_sources::key_of(m[i]) == ed2k_sources::key_of(known[i]));
                assert(ed2k_sources::key_of(m[j]) == ed2k_sources::key_of(known[j]));
            } else {
                assert(m[i] == known[i]);
            }
        }
    }
}

/// Merging keeps what is known, in its place: of a known source nothing changes but that it may
/// learn its server, and nothing becomes a duplicate.
pub proof fn law_merge_keeps_known(known: Seq<Ed2kFoundSource>, found: Seq<Ed2kFoundSource>)
    ensures
        merged(known, found).len() >= known.len(),
        forall|i: int|
            0 <= i < known.len() ==> same_but_for_server(#[trigger] merged(known, found)[i], known[i]),
        ed2k_sources::keys_distinct(known) ==> ed2k_sources::keys_distinct(merged(known, found)),
    decreases found.len(),
{
    if found.len() > 0 {
        let before = merged(known, found.drop_last());
        law_merge_keeps_known(known, found.drop_last());
        lemma_merged_one_keys(before, found.last());
        assert forall|i: int| 0 <= i < known.len() implies same_but_for_server(#[trigger] merged(known, found)[i], known[i]) by {
            assert(same_but_for_server(before[i], known[i]));
            assert(same_but_for_server(merged_one(before, found.last())[i], before[i]));
        }
    }
}

/// Whether a source is in the list already and has nothing to add to it.
pub open spec fn absorbed(known: Seq<Ed2kFoundSource>, source: Ed2kFoundSource) -> bool {
    match first_with_key(known, ed2k_sources::key_of(source)) {
        Some(i) => known[i].source_server is Some || source.source_server is None,
        None => false,
    }
}

proof fn lemma_absorbed_after(known: Seq<Ed2kFoundSource>, source: Ed2kFoundSource)
    ensures
        absorbed(merged_one(known, source), source),
{
    lemma_first_with_key(known, ed2k_sources::key_of(source));
    let m = merged_one(known, source);
    match first_with_key(known, ed2k_sources::key_of(source)) {
        Some(i) => {
            assert forall|j: int| 0 <= j < i implies ed2k_sources::key_of(#[trigger] m[j]) != ed2k_sources::key_of(source) by {
                assert(ed2k_sources::key_of(known[j]) != ed2k_sources::key_of(source));
            }
            lemma_first_with_key_at(m, ed2k_sources::key_of(source), i);
        },
        None => {
            assert forall|j: int| 0 <= j < known.len() implies ed2k_sources::key_of(#[trigger] m[j]) != ed2k_sources::key_of(source) by {
                assert(ed2k_sources::key_of(known[j]) != ed2k_sources::key_of(source));
            }
            lemma_first_with_key_at(m, ed2k_sources::key_of(source), known.len() as int);
        },
    }
}

proof fn lemma_absorbed_stays(known: Seq<Ed2kFoundSource>, source: Ed2kFoundSource, found: Ed2kFoundSource)
    requires
        absorbed(known, source),
    ensures
        absorbed(merged_one(known, found), source),
{
    lemma_first_with_key(known, ed2k_sources::key_of(source));
    lemma_first_with_key(known, ed2k_sources::key_of(found));
    let i = first_with_key(known, ed2k_sources::key_of(source))->0;
    let m = merged_one(known, found);
    lemma_merged_one_keys(known, found);
    assert forall|j: int| 0 <= j < i implies ed2k_sources::key_of(#[trigger] m[j]) != ed2k_sources::key_of(source) by {
        assert(ed2k_sources::key_of(known[j]) != ed2k_sources::key_of(source));
    }
    assert(ed2k_sources::key_of(m[i]) == ed2k_sources::key_of(known[i]));
    lemma_first_with_key_at(m, ed2k_sources::key_of(source), i);
}

proof fn lemma_all_absorbed(known: Seq<Ed2kFoundSource>, found: Seq<Ed2kFoundSource>)
    ensures
        forall|i: int| 0 <= i < found.len() ==> absorbed(merged(known, found), #[trigger] found[i]),
    decreases found.len(),
{
    if found.len() > 0 {
        let before = merged(known, found.drop_last());
        lemma_all_absorbed(known, found.drop_last());
        assert forall|i: int| 0 <= i < found.len() implies absorbed(
            merged(known, found),
            #[trigger] found[i],
        ) by {
            if i < found.len() - 1 {
                assert(found.drop_last()[i] == found[i]);
                lemma_absorbed_stays(before, found[i], found.last());
            } else {
                lemma_absorbed_after(before, found.last());
            }
        }
    }
}

proof fn lemma_absorbed_merge(known: Seq<Ed2kFoundSource>, found: Seq<Ed2kFoundSource>)
    requires
        forall|i: int| 0 <= i < found.len() ==> absorbed(known, #[trigger] found[i]),
    ensures
        merged(known, found) == known,
    decreases found.len(),
{
    if found.len() > 0 {
        assert forall|i: int| 0 <= i < found.len() - 1 implies absorbed(
            known,
            #[trigger] found.drop_last()[i],
        ) by {
            assert(found.drop_last()[i] == found[i]);
        }
        lemma_absorbed_merge(known, found.drop_last());
        assert(absorbed(known, found[found.len() - 1]));
        lemma_first_with_key(known, ed2k_sources::key_of(found.last()));
        let i = first_with_key(known, ed2k_sources::key_of(found.last()))->0;
        assert(with_server(known[i], found.last()) == known[i]);
        assert(known.update(i, known[i]) =~= known);
    }
}

/// Merging the same sources a second time changes nothing.
pub proof fn law_merge_idempotent(known: Seq<Ed2kFoundSource>, found: Seq<Ed2kFoundSource>)
    ensures
        merged(merged(known, found), found) == merged(known, found),
{
    lemma_all_absorbed(known, found);
    lemma_absorbed_merge(merged(known, found), found);
}

/// Merging keeps every known source in its place; it can only learn the server that named it. A
/// found source with another key is added as it is.
pub proof fn law_sources_are_merged(known: &mut Vec<Ed2kFoundSource>, found: &Vec<Ed2kFoundSource>, i: int)
    requires
        call_ensures(merge_download_sources, (known, found), ()),
    ensures
        final(known)@.len() >= old(known)@.len(),
        0 <= i < old(known)@.len() ==> {
            let before = old(known)@[i];
            let after = final(known)@[i];
            &&& after.file_hash == before.file_hash
            &&& after.ip == before.ip
            &&& after.tcp_port == before.tcp_port
            &&& after.client_id == before.client_id
            &&& after.low_id == before.low_id
            &&& after.obfuscated == before.obfuscated
            &&& after.obfuscation_options == before.obfuscation_options
            &&& after.user_hash == before.user_hash
            &&& before.source_server is Some ==> after.source_server == before.source_server
        },
        found@.len() == 0 ==> final(known)@ == old(known)@,
        0 <= i < found@.len() ==> exists|k: int|
            0 <= k < final(known)@.len() && {
                let there = #[trigger] final(known)@[k];
                &&& there.ip == found@[i].ip
                &&& there.tcp_port == found@[i].tcp_port
                &&& there.user_hash == found@[i].user_hash
                &&& there.obfuscation_options == found@[i].obfuscation_options
                &&& found@[i].source_server is Some ==> there.source_server is Some
            },
{
    let k0 = old(known)@;
    law_merge_keeps_known(k0, found@);
    lemma_merge_keeps_servers(k0, found@);
    lemma_all_absorbed(k0, found@);
    if 0 <= i < k0.len() {
        assert(same_but_for_server(merged(k0, found@)[i], k0[i]));
    }
    if 0 <= i < found@.len() {
        let all = merged(k0, found@);
        assert(absorbed(all, found@[i]));
        let key = ed2k_sources::key_of(found@[i]);
        lemma_first_with_key(all, key);
        let k = first_with_key(all, key)->0;
        assert(ed2k_sources::key_of(all[k]) == key);
        assert(ed2k_sources::key_of(all[k]).ip == found@[i].ip);
        assert(ed2k_sources::key_of(all[k]).tcp_port == found@[i].tcp_port);
        assert(ed2k_sources::key_of(all[k]).user_hash == found@[i].user_hash);
        assert(ed2k_sources::key_of(all[k]).obfuscation_options == found@[i].obfuscation_options);
    }
}

proof fn lemma_merge_keeps_servers(known: Seq<Ed2kFoundSource>, found: Seq<Ed2kFoundSource>)
    ensures
        merged(known, found).len() >= known.len(),
        forall|i: int|
            0 <= i < known.len() && known[i].source_server is Some ==> (#[trigger] merged(known, found)[i]).source_server
                == known[i].source_server,
    decreases found.len(),
{
    if found.len() > 0 {
        lemma_merge_keeps_servers(known, found.drop_last());
        let before = merged(known, found.drop_last());
        lemma_first_with_key(before, ed2k_sources::key_of(found.last()));
    }
}

/// Merging one source with the key of a known one adds nothing, and lends its server to a known
/// source that has none; merging one with a new key adds it at the end.
pub proof fn law_one_source_is_merged(known: &mut Vec<Ed2kFoundSource>, found: &Vec<Ed2kFoundSource>, i: int)
    requires
        call_ensures(merge_download_sources, (known, found), ()),
        found@.len() == 1,
        ed2k_sources::keys_distinct(old(known)@),
        0 <= i < old(known)@.len(),
    ensures
        ({
            let before = old(known)@[i];
            let one = found@[0];
            before.ip == one.ip && before.tcp_port == one.tcp_port && before.user_hash == one.user_hash
                && before.obfuscation_options == one.obfuscation_options ==> {
                &&& final(known)@.len() == old(known)@.len()
                &&& before.source_server is None ==> final(known)@[i].source_server == one.source_server
                &&& before.source_server is Some ==> final(known)@[i] == before
            }
        }),
        !ed2k_sources::has_key(old(known)@, ed2k_sources::key_of(found@[0])) ==> final(known)@ == old(known)@.push(found@[0]),
{
    let k0 = old(known)@;
    let one = found@[0];
    let key = ed2k_sources::key_of(one);
    assert(found@.drop_last() =~= Seq::empty());
    assert(found@.last() == one);
    reveal_with_fuel(merged, 2);
    assert(merged(k0, found@) == merged_one(k0, one));
    lemma_first_with_key(k0, key);
    if ed2k_sources::key_of(k0[i]) == key {
        let at = first_with_key(k0, key)->0;
        assert(ed2k_sources::key_of(k0[at]) == key);
        assert(at == i);
    }
}

} // verus!
