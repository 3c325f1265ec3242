//! Keywords of a search, and the Kad target that a search is looked up under.

use vstd::prelude::*;
use vstd::string::*;
use crate::digests;
use crate::digests::md4_of;
use crate::ids;
use crate::ids::{Ed2kHash, NodeId};
use crate::text;
use crate::text::{alphanumeric, ascii_lower_text, chars_of, joined, lowercase_text, text_of, trim_text};
use crate::types;

verus! {

broadcast use vstd::string::group_string_axioms;

pub const ED2K_HASH_ONLY_QUERY_PREFIX: &'static str = "ed2k::";

/// The complete runs of alphanumeric characters of `s`, and the run at its end.
pub open spec fn scan_words(s: Seq<char>) -> (Seq<Seq<char>>, Seq<char>)
    decreases s.len(),
{
    if s.len() == 0 {
        (Seq::empty(), Seq::empty())
    } else {
        let (done, run) = scan_words(s.drop_last());
        if text::char_is_alphanumeric(s.last()) {
            (done, run.push(s.last()))
        } else if run.len() > 0 {
            (done.push(run), Seq::empty())
        } else {
            (done, Seq::empty())
        }
    }
}

/// The maximal runs of alphanumeric characters of `s`, in order.
pub open spec fn word_runs(s: Seq<char>) -> Seq<Seq<char>> {
    let (done, run) = scan_words(s);
    if run.len() > 0 {
        done.push(run)
    } else {
        done
    }
}

/// Whether a word counts: it takes at least three bytes.
pub open spec fn significant(word: Seq<char>) -> bool {
    vstd::utf8::encode_utf8(word).len() >= 3
}

/// The lowercase forms of the runs that count.
pub open spec fn significant_of(runs: Seq<Seq<char>>) -> Seq<Seq<char>> {
    runs.map_values(|run: Seq<char>| text::lowercase(run)).filter(|word: Seq<char>| significant(word))
}

/// The words that a query is indexed under: those that count, and, where none does, the whole
/// query in lowercase.
pub open spec fn keyword_words(query: Seq<char>) -> Seq<Seq<char>> {
    let words = significant_of(word_runs(query));
    if words.len() == 0 {
        seq![text::lowercase(query)]
    } else {
        words
    }
}

proof fn lemma_significant_push(runs: Seq<Seq<char>>, run: Seq<char>)
    ensures
        significant_of(runs.push(run)) == if significant(text::lowercase(run)) {
            significant_of(runs).push(text::lowercase(run))
        } else {
            significant_of(runs)
        },
{
    reveal(Seq::filter);
    let lower = |r: Seq<char>| text::lowercase(r);
    let mapped = runs.push(run).map_values(lower);
    assert(mapped.drop_last() =~= runs.map_values(lower));
    assert(mapped.last() == text::lowercase(run));
}

fn push_significant(words: &mut Vec<String>, run: &Vec<char>, Ghost(runs): Ghost<Seq<Seq<char>>>)
    requires
        types::texts(old(words)@) == significant_of(runs),
    ensures
        types::texts(final(words)@) == significant_of(runs.push(run@)),
{
    let word: String = text_of(run.as_slice());
    let lower: String = lowercase_text(word.as_str());
    proof {
        lemma_significant_push(runs, run@);
    }
    if lower.as_str().as_bytes().len() >= 3 {
        words.push(lower);
        assert(types::texts(words@) =~= significant_of(runs).push(text::lowercase(run@)));
    }
}

pub fn significant_keyword_words(query: &str) -> (r: Vec<String>)
    ensures
        types::texts(r@) == keyword_words(query@),
{
    let mut words: Vec<String> = Vec::new();
    let mut run: Vec<char> = Vec::new();
    let chars: Vec<char> = chars_of(query);
    let mut i: usize = 0;
    proof {
        reveal(Seq::filter);
        assert(significant_of(Seq::empty()) =~= Seq::empty());
        assert(types::texts(words@) =~= Seq::empty());
    }
    while i < chars.len()
        invariant
            i <= chars.len(),
            chars@ == query@,
            run@ == scan_words(query@.take(i as int)).1,
            types::texts(words@) == significant_of(scan_words(query@.take(i as int)).0),
        decreases chars.len() - i,
    {
        let ghost done = scan_words(query@.take(i as int)).0;
        proof {
            assert(query@.take(i + 1).drop_last() =~= query@.take(i as int));
            assert(query@.take(i + 1).last() == chars@[i as int]);
        }
        if alphanumeric(chars[i]) {
            run.push(chars[i]);
        } else if run.len() > 0 {
            push_significant(&mut words, &run, Ghost(done));
            run = Vec::new();
        }
        i = i + 1;
    }
    assert(query@.take(i as int) =~= query@);
    if run.len() > 0 {
        push_significant(&mut words, &run, Ghost(scan_words(query@).0));
    }
    if words.len() == 0 {
        words.push(lowercase_text(query));
        assert(types::texts(words@) =~= seq![text::lowercase(query@)]);
    }
    words
}

/// `s` without the prefix, where it has it.
pub open spec fn without_prefix(s: Seq<char>, prefix: Seq<char>) -> Seq<char> {
    if prefix.is_prefix_of(s) {
        s.skip(prefix.len() as int)
    } else {
        s
    }
}

/// What is left of a query that may name a file by its hash alone.
pub open spec fn hash_query_candidate(query: Seq<char>) -> Seq<char> {
    text::trimmed(without_prefix(text::trimmed(query), ED2K_HASH_ONLY_QUERY_PREFIX@))
}

/// The hash, in lowercase, that a query names and nothing else.
pub open spec fn hash_query_token(query: Seq<char>) -> Option<Seq<char>> {
    let candidate = hash_query_candidate(query);
    if ids::is_hash_text(candidate) {
        Some(text::ascii_lower(candidate))
    } else {
        None
    }
}

fn is_hex_digit(c: char) -> (r: bool)
    ensures
        r == text::is_hex_char(c),
{
    let code: u32 = c as u32;
    (48 <= code && code <= 57) || (97 <= code && code <= 102) || (65 <= code && code <= 70)
}

fn is_hash(s: &str) -> (r: bool)
    ensures
        r == ids::is_hash_text(s@),
{
    let chars: Vec<char> = chars_of(s);
    if chars.len() != 32 {
        return false;
    }
    let mut i: usize = 0;
    while i < chars.len()
        invariant
            i <= chars.len(),
            chars@ == s@,
            forall|j: int| 0 <= j < i ==> text::is_hex_char(chars@[j]),
        decreases chars.len() - i,
    {
        if !is_hex_digit(chars[i]) {
            assert(!text::is_hex_char(s@[i as int]));
            return false;
        }
        i = i + 1;
    }
    true
}

fn strip_prefix(s: &str, prefix: &str) -> (r: String)
    ensures
        r@ == without_prefix(s@, prefix@),
{
    let chars: Vec<char> = chars_of(s);
    let head: Vec<char> = chars_of(prefix);
    if chars.len() < head.len() {
        return s.to_owned();
    }
    let mut i: usize = 0;
    while i < head.len()
        invariant
            i <= head.len() <= chars.len(),
            chars@ == s@,
            head@ == prefix@,
            forall|j: int| 0 <= j < i ==> chars@[j] == head@[j],
        decreases head.len() - i,
    {
        if chars[i] != head[i] {
            proof {
                if prefix@.is_prefix_of(s@) {
                    assert(prefix@[i as int] == s@.subrange(0, prefix@.len() as int)[i as int]);
                }
            }
            return s.to_owned();
        }
        i = i + 1;
    }
    assert(prefix@ =~= s@.subrange(0, prefix@.len() as int));
    let rest: &str = s.substring_char(head.len(), chars.len());
    assert(rest@ =~= s@.skip(prefix@.len() as int));
    rest.to_owned()
}

pub fn exact_ed2k_hash_query_token(query: &str) -> (r: Option<String>)
    ensures
        types::opt_text(r) == hash_query_token(query@),
{
    let trimmed: String = trim_text(query);
    let stripped: String = strip_prefix(trimmed.as_str(), ED2K_HASH_ONLY_QUERY_PREFIX);
    let candidate: String = trim_text(stripped.as_str());
    if is_hash(candidate.as_str()) {
        Some(ascii_lower_text(candidate.as_str()))
    } else {
        None
    }
}

/// The query that names a file by its hash alone.
pub fn hash_only_ed2k_search_query(file_hash: Ed2kHash) -> (r: String)
    ensures
        r@ == ED2K_HASH_ONLY_QUERY_PREFIX@ + text::hex_text(file_hash.0@),
{
    let hash: String = file_hash.to_text();
    joined(ED2K_HASH_ONLY_QUERY_PREFIX, hash.as_str())
}

/// The word whose digest a query is looked up under: the hash that it names, and else its first
/// keyword.
pub open spec fn lookup_word(query: Seq<char>) -> Seq<char> {
    match hash_query_token(query) {
        Some(token) => token,
        None => keyword_words(query)[0],
    }
}

/// The word that a query is looked up under.
pub fn keyword_lookup_word(query: &str) -> (r: String)
    ensures
        r@ == lookup_word(query@),
{
    match exact_ed2k_hash_query_token(query) {
        Some(token) => token,
        None => {
            let words: Vec<String> = significant_keyword_words(query);
            assert(types::texts(words@).len() == words@.len());
            assert(types::texts(words@)[0] == words@[0]@);
            words[0].clone()
        },
    }
}

pub fn keyword_target(query: &str) -> (r: NodeId)
    ensures
        r.0@ == ids::chunk_order(digests::md4_digest(vstd::utf8::encode_utf8(lookup_word(query@)))),
{
    let word: String = keyword_lookup_word(query);
    let digest: [u8; 16] = md4_of(word.as_str().as_bytes());
    NodeId::from_be_bytes(digest)
}

proof fn lemma_trimmed_unchanged(s: Seq<char>)
    requires
        s.len() > 0,
        !text::char_is_whitespace(s.first()),
        !text::char_is_whitespace(s.last()),
    ensures
        text::trimmed(s) == s,
{
}

/// A query that is a hash names that hash, in any case of its letters, and naming it behind the
/// prefix comes to the same.
pub proof fn law_hash_query_token(hash: Seq<char>)
    requires
        ids::is_hash_text(hash),
    ensures
        hash_query_token(hash) == Some(text::ascii_lower(hash)),
        hash_query_token(ED2K_HASH_ONLY_QUERY_PREFIX@ + hash) == Some(text::ascii_lower(hash)),
        lookup_word(ED2K_HASH_ONLY_QUERY_PREFIX@ + hash) == lookup_word(hash),
{
    let prefix = ED2K_HASH_ONLY_QUERY_PREFIX@;
    reveal_strlit("ed2k::");
    assert(text::is_hex_char(hash.first()) && text::is_hex_char(hash.last()));
    lemma_trimmed_unchanged(hash);
    assert(!prefix.is_prefix_of(hash)) by {
        if prefix.is_prefix_of(hash) {
            assert(prefix[3] == hash.subrange(0, 6)[3]);
            assert(text::is_hex_char(hash[3]));
        }
    }
    let named = prefix + hash;
    assert(named.first() == 'e');
    assert(named.last() == hash.last());
    lemma_trimmed_unchanged(named);
    assert(prefix =~= named.subrange(0, 6));
    assert(named.skip(6) =~= hash);
}

/// Two hashes that differ only in the case of their letters are looked up under one word.
pub proof fn law_hash_case_ignored(hash: Seq<char>, other: Seq<char>)
    requires
        ids::is_hash_text(hash),
        ids::is_hash_text(other),
        text::ascii_lower(hash) == text::ascii_lower(other),
    ensures
        lookup_word(hash) == lookup_word(other),
{
    law_hash_query_token(hash);
    law_hash_query_token(other);
}

/// A token is 32 hexadecimal digits without capitals.
pub proof fn law_token_is_lowercase_hash(query: Seq<char>)
    ensures
        hash_query_token(query) matches Some(token) ==> ids::is_hash_text(token) && text::ascii_lower(token)
            == token,
{
    if let Some(token) = hash_query_token(query) {
        let candidate = hash_query_candidate(query);
        assert forall|i: int| 0 <= i < token.len() implies text::is_hex_char(#[trigger] token[i]) by {
            assert(text::is_hex_char(candidate[i]));
        }
        assert(text::ascii_lower(token) =~= token);
    }
}

/// Whether every character of `s` is alphanumeric.
pub open spec fn is_word(s: Seq<char>) -> bool {
    forall|i: int| 0 <= i < s.len() ==> text::char_is_alphanumeric(#[trigger] s[i])
}

proof fn lemma_scan_word(s: Seq<char>)
    requires
        is_word(s),
    ensures
        scan_words(s).0 == Seq::<Seq<char>>::empty(),
        scan_words(s).1 == s,
    decreases s.len(),
{
    if s.len() > 0 {
        lemma_scan_word(s.drop_last());
        assert(text::char_is_alphanumeric(s[s.len() - 1]));
        assert(s.drop_last().push(s.last()) =~= s);
    }
}

proof fn lemma_scan_no_word(s: Seq<char>)
    requires
        forall|i: int| 0 <= i < s.len() ==> !text::char_is_alphanumeric(#[trigger] s[i]),
    ensures
        scan_words(s).0 == Seq::<Seq<char>>::empty(),
        scan_words(s).1 == Seq::<char>::empty(),
    decreases s.len(),
{
    if s.len() > 0 {
        lemma_scan_no_word(s.drop_last());
        assert(!text::char_is_alphanumeric(s[s.len() - 1]));
    }
}

proof fn lemma_scan_split(left: Seq<char>, c: char, right: Seq<char>)
    requires
        !text::char_is_alphanumeric(c),
    ensures
        scan_words(left.push(c) + right).0 == word_runs(left) + scan_words(right).0,
        scan_words(left.push(c) + right).1 == scan_words(right).1,
    decreases right.len(),
{
    let all = left.push(c) + right;
    if right.len() == 0 {
        assert(all =~= left.push(c));
        assert(all.drop_last() =~= left);
        assert(word_runs(left) + scan_words(right).0 =~= word_runs(left));
    } else {
        lemma_scan_split(left, c, right.drop_last());
        assert(all.drop_last() =~= left.push(c) + right.drop_last());
        assert(all.last() == right.last());
        assert(scan_words(all).0 =~= word_runs(left) + scan_words(right).0);
    }
}

proof fn lemma_significant_add(a: Seq<Seq<char>>, b: Seq<Seq<char>>)
    ensures
        significant_of(a + b) == significant_of(a) + significant_of(b),
    decreases b.len(),
{
    if b.len() == 0 {
        reveal(Seq::filter);
        assert(a + b =~= a);
        assert(b.map_values(|run: Seq<char>| text::lowercase(run)) =~= Seq::empty());
        assert(significant_of(b) =~= Seq::empty());
        assert(significant_of(a) + significant_of(b) =~= significant_of(a));
    } else {
        lemma_significant_add(a, b.drop_last());
        assert(b.drop_last().push(b.last()) =~= b);
        assert((a + b.drop_last()).push(b.last()) =~= a + b);
        lemma_significant_push(a + b.drop_last(), b.last());
        lemma_significant_push(b.drop_last(), b.last());
        assert(significant_of(a + b) =~= significant_of(a) + significant_of(b));
    }
}

/// Words are parted by whatever is not alphanumeric: those of a text that is made of two such parts
/// are those of the first and then those of the second.
pub proof fn law_words_of_parts(left: Seq<char>, c: char, right: Seq<char>)
    requires
        !text::char_is_alphanumeric(c),
    ensures
        word_runs(left.push(c) + right) == word_runs(left) + word_runs(right),
        significant_of(word_runs(left.push(c) + right)) == significant_of(word_runs(left)) + significant_of(
            word_runs(right),
        ),
{
    lemma_scan_split(left, c, right);
    assert(word_runs(left.push(c) + right) =~= word_runs(left) + word_runs(right));
    lemma_significant_add(word_runs(left), word_runs(right));
}

proof fn lemma_word_counts(s: Seq<char>)
    requires
        is_word(s),
        s.len() > 0,
    ensures
        word_runs(s) == seq![s],
        significant_of(word_runs(s)) == if vstd::utf8::encode_utf8(text::lowercase(s)).len() >= 3 {
            seq![text::lowercase(s)]
        } else {
            Seq::empty()
        },
{
    lemma_scan_word(s);
    assert(word_runs(s) =~= seq![s]);
    reveal(Seq::filter);
    assert(significant_of(Seq::empty()) =~= Seq::empty());
    lemma_significant_push(Seq::empty(), s);
    assert(Seq::<Seq<char>>::empty().push(s) =~= seq![s]);
    assert(Seq::<Seq<char>>::empty().push(text::lowercase(s)) =~= seq![text::lowercase(s)]);
}

/// A query of one word is indexed under that word in lowercase, and one without any under itself in
/// lowercase.
pub proof fn law_one_keyword(query: &str, r: Vec<String>)
    requires
        call_ensures(significant_keyword_words, (query,), r),
        is_word(query@) || forall|i: int| 0 <= i < query@.len() ==> !text::char_is_alphanumeric(#[trigger] query@[i]),
    ensures
        r@.len() == 1,
        r@[0]@ == text::lowercase(query@),
{
    if query@.len() > 0 && is_word(query@) {
        lemma_word_counts(query@);
    } else {
        lemma_scan_no_word(query@);
        assert(word_runs(query@) =~= Seq::empty());
        reveal(Seq::filter);
        assert(significant_of(Seq::empty()) =~= Seq::empty());
    }
    assert(types::texts(r@).len() == r@.len());
    assert(types::texts(r@)[0] == r@[0]@);
}

/// Of the two words of a query those count that take three bytes at least in lowercase, in their
/// order; where neither does, the whole query is what counts.
pub proof fn law_two_keywords(left: Seq<char>, c: char, right: Seq<char>, query: &str, r: Vec<String>)
    requires
        is_word(left) && left.len() > 0,
        is_word(right) && right.len() > 0,
        !text::char_is_alphanumeric(c),
        query@ == left.push(c) + right,
        call_ensures(significant_keyword_words, (query,), r),
    ensures
        ({
            let first = vstd::utf8::encode_utf8(text::lowercase(left)).len() >= 3;
            let second = vstd::utf8::encode_utf8(text::lowercase(right)).len() >= 3;
            &&& first && second ==> r@.len() == 2 && r@[0]@ == text::lowercase(left) && r@[1]@ == text::lowercase(
                right,
            )
            &&& first && !second ==> r@.len() == 1 && r@[0]@ == text::lowercase(left)
            &&& !first && second ==> r@.len() == 1 && r@[0]@ == text::lowercase(right)
            &&& !first && !second ==> r@.len() == 1 && r@[0]@ == text::lowercase(query@)
        }),
{
    law_words_of_parts(left, c, right);
    lemma_word_counts(left);
    lemma_word_counts(right);
    let words = keyword_words(query@);
    assert(types::texts(r@).len() == r@.len());
    assert(forall|i: int| 0 <= i < r@.len() ==> #[trigger] types::texts(r@)[i] == r@[i]@);
    assert(words[0] == r@[0]@);
    if r@.len() == 2 {
        assert(words[1] == r@[1]@);
    }
}

/// A query is never without a word, and is looked up under the hash that it names or else under its
/// first word.
pub proof fn law_lookup_word(query: &str, token: Option<String>, words: Vec<String>, r: String)
    requires
        call_ensures(exact_ed2k_hash_query_token, (query,), token),
        call_ensures(significant_keyword_words, (query,), words),
        call_ensures(keyword_lookup_word, (query,), r),
    ensures
        words@.len() > 0,
        token matches Some(hash) ==> r@ == hash@,
        token is None ==> r@ == words@[0]@,
{
    assert(types::texts(words@).len() == words@.len());
    assert(types::texts(words@)[0] == words@[0]@);
}

/// A query names a file by its hash exactly where it is the hash, alone or behind the prefix, with
/// whitespace around either; the hash is then read in lowercase.
pub proof fn law_hash_queries(query: &str, r: Option<String>, rest: Seq<char>)
    requires
        call_ensures(exact_ed2k_hash_query_token, (query,), r),
    ensures
        text::trimmed(query@) == "ed2k::"@ + rest ==> {
            &&& r is Some <==> text::trimmed(rest).len() == 32 && forall|i: int|
                0 <= i < 32 ==> text::is_hex_char(#[trigger] text::trimmed(rest)[i])
            &&& r matches Some(token) ==> token@ == text::ascii_lower(text::trimmed(rest))
        },
        ids::is_hash_text(query@) ==> (r matches Some(token) && token@ == text::ascii_lower(query@)),
        r matches Some(token) ==> token@.len() == 32 && text::ascii_lower(token@) == token@,
{
    law_token_is_lowercase_hash(query@);
    if ids::is_hash_text(query@) {
        law_hash_query_token(query@);
    }
    let whole = text::trimmed(query@);
    if whole == "ed2k::"@ + rest {
        assert("ed2k::"@ =~= whole.subrange(0, "ed2k::"@.len() as int));
        assert(whole.skip("ed2k::"@.len() as int) =~= rest);
    }
}

/// The query that stands for a file's hash alone is read back as that hash.
pub proof fn law_hash_query_round_trip(hash: Ed2kHash, query: String, read: &str, r: Option<String>, text: String)
    requires
        call_ensures(hash_only_ed2k_search_query, (hash,), query),
        call_ensures(Ed2kHash::to_text, (hash,), text),
        read@ == query@,
        call_ensures(exact_ed2k_hash_query_token, (read,), r),
    ensures
        query@ == "ed2k::"@ + text@,
        r matches Some(token) && token@ == text@,
{
    ids::law_hex_round_trip(hash.0@);
    law_hash_query_token(text@);
    assert(text::ascii_lower(text@) =~= text@);
}

/// Two queries that are looked up under one word have one target: the word's digest, each run of
/// four bytes the other way round.
pub proof fn law_keyword_target(query: &str, word: String, r: NodeId, other: &str, other_word: String, other_r: NodeId, run: int, place: int)
    requires
        call_ensures(keyword_lookup_word, (query,), word),
        call_ensures(keyword_target, (query,), r),
        call_ensures(keyword_lookup_word, (other,), other_word),
        call_ensures(keyword_target, (other,), other_r),
        0 <= run < 4,
        0 <= place < 4,
    ensures
        r.0@[4 * run + place] == digests::md4_digest(vstd::utf8::encode_utf8(word@))[4 * run + (3 - place)],
        word@ == other_word@ ==> r.0@ == other_r.0@,
{
}

} // verus!
