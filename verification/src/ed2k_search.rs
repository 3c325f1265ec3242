//! Searching eD2k servers, and learning of a file from what they and Kad say.

use vstd::prelude::*;
use vstd::string::*;
use crate::ed2k::{Ed2kConfig, Ed2kFoundSource, Ed2kSearchFile, Ed2kServerState};
use crate::ed2k_enrich;
use crate::ed2k_enrich::nonempty_trimmed_name;
use crate::ed2k_sources;
use crate::ed2k_sources::merge_download_sources;
use crate::ids;
use crate::ids::{Ed2kHash, Endpoint, SocketAddr};
use crate::kad::{SearchResult, SourceResult};
use crate::keywords;
use crate::keywords::exact_ed2k_hash_query_token;
use crate::search;
use crate::search::build_source_record;
use crate::text;
use crate::text::{hex_encode, same_text, trim_text};
use crate::types;
use crate::types::{
    ContentType, FileRecord, FileRecordView, HashType, JsonField, JsonFieldView,
    JsonScalar, JsonScalarView, JsonValue, JsonView, Protocol, Source, SourceView, TagEntry,
    TagEntryView,
};

verus! {

broadcast use vstd::string::group_string_axioms;

pub const ED2K_ACTIVE_SEARCH_MAX_SERVER_ATTEMPTS: usize = 3;

pub const ED2K_DOWNLOAD_KAD_SOURCE_CAP: usize = 64;

pub const ED2K_DOWNLOAD_KAD_SOURCE_RETRY_DELAY_MS: u64 = 500;

/// The kind of content that an eD2k file type stands for.
pub open spec fn content_type_of_term(file_type: Option<Seq<char>>) -> Option<ContentType> {
    match file_type {
        Some(term) => Some(
            if term == "Video"@ {
                ContentType::Video
            } else if term == "Audio"@ {
                ContentType::Audio
            } else if term == "Doc"@ {
                ContentType::Document
            } else if term == "Pro"@ || term == "EmuleCollection"@ {
                ContentType::Software
            } else {
                ContentType::Unknown
            },
        ),
        None => None,
    }
}

pub fn ed2k_content_type(file_type: Option<&str>) -> (r: Option<ContentType>)
    ensures
        r == content_type_of_term(
            match file_type {
                Some(term) => Some(term@),
                None => None,
            },
        ),
{
    match file_type {
        Some(term) => Some(
            if same_text(term, "Video") {
                ContentType::Video
            } else if same_text(term, "Audio") {
                ContentType::Audio
            } else if same_text(term, "Doc") {
                ContentType::Document
            } else if same_text(term, "Pro") || same_text(term, "EmuleCollection") {
                ContentType::Software
            } else {
                ContentType::Unknown
            },
        ),
        None => None,
    }
}

/// The tags of a server result: its file type and its number of sources, as far as they are
/// given.
pub open spec fn keyword_result_tags(result: Ed2kSearchFile) -> Seq<TagEntryView> {
    let by_type = match result.file_type {
        Some(file_type) => seq![
            TagEntryView {
                key: "ed2k_file_type"@,
                value: JsonView::Scalar(JsonScalarView::Text(file_type@)),
            },
        ],
        None => Seq::empty(),
    };
    match result.source_count {
        Some(count) => by_type.push(
            TagEntryView {
                key: "ed2k_source_count"@,
                value: JsonView::Scalar(JsonScalarView::Number(count as nat)),
            },
        ),
        None => by_type,
    }
}

/// The record of a server's keyword result.
pub open spec fn server_keyword_record(result: Ed2kSearchFile) -> FileRecordView {
    FileRecordView {
        hashes: seq![text::hex_text(result.file_hash.0@)],
        names: match result.file_name {
            Some(name) => seq![name@],
            None => Seq::empty(),
        },
        size: result.file_size,
        content_type: content_type_of_term(types::opt_text(result.file_type)),
        tags: keyword_result_tags(result),
        sources: Seq::empty(),
    }
}

pub fn map_ed2k_keyword_result(result: &Ed2kSearchFile) -> (r: FileRecord)
    ensures
        r@ == server_keyword_record(*result),
{
    let mut tags: Vec<TagEntry> = Vec::new();
    let mut term: Option<&str> = None;
    match &result.file_type {
        Some(file_type) => {
            term = Some(file_type.as_str());
            tags.push(
                TagEntry {
                    key: "ed2k_file_type".to_owned(),
                    value: JsonValue::Scalar(JsonScalar::Text(file_type.clone())),
                },
            );
        },
        None => {},
    }
    match result.source_count {
        Some(count) => {
            tags.push(
                TagEntry {
                    key: "ed2k_source_count".to_owned(),
                    value: JsonValue::Scalar(JsonScalar::Number(count as u64)),
                },
            );
        },
        None => {},
    }
    let mut hashes: Vec<HashType> = Vec::new();
    hashes.push(HashType::Ed2k(result.file_hash.to_text()));
    let mut names: Vec<String> = Vec::new();
    match &result.file_name {
        Some(name) => {
            names.push(name.clone());
        },
        None => {},
    }
    let r: FileRecord = FileRecord {
        hashes,
        names,
        size: result.file_size,
        content_type: ed2k_content_type(term),
        tags,
        sources: Vec::new(),
    };
    assert(r@ =~= server_keyword_record(*result));
    r
}

/// What is said of a source that a server named.
pub open spec fn server_source(result: Ed2kFoundSource) -> SourceView {
    SourceView {
        protocol: Protocol::Ed2k,
        address: result.endpoint_of().text(),
        extra: JsonView::Object(
            seq![
                JsonFieldView { name: "search_mode"@, value: JsonScalarView::Text("server_source"@) },
                JsonFieldView { name: "client_id"@, value: JsonScalarView::Number(result.client_id as nat) },
                JsonFieldView { name: "direct_dialable"@, value: JsonScalarView::Bool(result.dialable()) },
                JsonFieldView { name: "low_id"@, value: JsonScalarView::Bool(result.low_id) },
                JsonFieldView { name: "obfuscated"@, value: JsonScalarView::Bool(result.obfuscated) },
                JsonFieldView {
                    name: "obfuscation_options"@,
                    value: match result.obfuscation_options {
                        Some(options) => JsonScalarView::Number(options as nat),
                        None => JsonScalarView::Null,
                    },
                },
                JsonFieldView {
                    name: "user_hash"@,
                    value: match result.user_hash {
                        Some(hash) => JsonScalarView::Text(text::hex_text(hash@)),
                        None => JsonScalarView::Null,
                    },
                },
            ],
        ),
    }
}

pub fn map_ed2k_source_result(result: &Ed2kFoundSource, file_size: u64) -> (r: FileRecord)
    ensures
        r@ == search::source_record(result.file_hash, file_size, server_source(*result)),
{
    let mut extra: Vec<JsonField> = Vec::new();
    extra.push(JsonField::new("search_mode", JsonScalar::Text("server_source".to_owned())));
    extra.push(JsonField::new("client_id", JsonScalar::Number(result.client_id as u64)));
    extra.push(JsonField::new("direct_dialable", JsonScalar::Bool(result.is_direct_dialable())));
    extra.push(JsonField::new("low_id", JsonScalar::Bool(result.low_id)));
    extra.push(JsonField::new("obfuscated", JsonScalar::Bool(result.obfuscated)));
    let options: JsonScalar = match result.obfuscation_options {
        Some(options) => JsonScalar::Number(options as u64),
        None => JsonScalar::Null,
    };
    extra.push(JsonField::new("obfuscation_options", options));
    let user_hash: JsonScalar = match result.user_hash {
        Some(hash) => JsonScalar::Text(hex_encode(hash.as_slice())),
        None => JsonScalar::Null,
    };
    extra.push(JsonField::new("user_hash", user_hash));
    assert(types::fields(extra@) =~= server_source(*result).extra->Object_0);
    let source: Source = Source {
        protocol: Protocol::Ed2k,
        address: result.endpoint().to_text(),
        extra: JsonValue::Object(extra),
    };
    build_source_record(result.file_hash, file_size, source)
}

/// Live source replies often arrive later than the initial login and status handshake, so source
/// discovery needs a wider budget than the generic connect timeout. In seconds.
pub fn ed2k_source_search_timeout(config: &Ed2kConfig) -> (r: u64)
    ensures
        r == if config.connect_timeout_secs < 15 {
            15
        } else {
            config.connect_timeout_secs
        },
{
    if config.connect_timeout_secs < 15 {
        15
    } else {
        config.connect_timeout_secs
    }
}

/// The budget of an active keyword search, in seconds.
pub fn ed2k_keyword_search_timeout(config: &Ed2kConfig) -> (r: u64)
    ensures
        r == if config.connect_timeout_secs < 5 {
            5
        } else {
            config.connect_timeout_secs
        },
{
    if config.connect_timeout_secs < 5 {
        5
    } else {
        config.connect_timeout_secs
    }
}

/// The number of configured servers, and one at least.
pub open spec fn configured_budget(config: Ed2kConfig) -> nat {
    let most = if config.server_entries@.len() >= config.server_endpoints@.len() {
        config.server_entries@.len()
    } else {
        config.server_endpoints@.len()
    };
    if most == 0 {
        1
    } else {
        most
    }
}

/// A wished number of attempts: one at least, and at most one per configured server.
pub open spec fn bounded_budget(wished: usize, config: Ed2kConfig) -> nat {
    if wished == 0 {
        1
    } else if wished > configured_budget(config) {
        configured_budget(config)
    } else {
        wished as nat
    }
}

fn ed2k_configured_server_attempt_budget(config: &Ed2kConfig) -> (r: usize)
    ensures
        r == configured_budget(*config),
        r >= 1,
{
    let entries: usize = config.server_entries.len();
    let endpoints: usize = config.server_endpoints.len();
    let most: usize = if entries >= endpoints {
        entries
    } else {
        endpoints
    };
    if most == 0 {
        1
    } else {
        most
    }
}

fn bounded(wished: usize, config: &Ed2kConfig) -> (r: usize)
    ensures
        r == bounded_budget(wished, *config),
{
    let configured: usize = ed2k_configured_server_attempt_budget(config);
    if wished == 0 {
        1
    } else if wished > configured {
        configured
    } else {
        wished
    }
}

/// How many servers a keyword search asks; a search for one hash has a budget of its own.
pub fn ed2k_keyword_server_attempt_budget(config: &Ed2kConfig, query: &str) -> (r: usize)
    ensures
        r == bounded_budget(
            if keywords::hash_query_token(query@) is Some {
                config.exact_hash_keyword_server_attempt_budget
            } else {
                config.keyword_server_attempt_budget
            },
            *config,
        ),
{
    if exact_ed2k_hash_query_token(query).is_some() {
        bounded(config.exact_hash_keyword_server_attempt_budget, config)
    } else {
        bounded(config.keyword_server_attempt_budget, config)
    }
}

/// How many servers are asked for the sources of a download.
pub fn ed2k_download_source_server_attempt_budget(config: &Ed2kConfig) -> (r: usize)
    ensures
        r == bounded_budget(config.source_server_attempt_budget, *config),
{
    bounded(config.source_server_attempt_budget, config)
}

/// At least one server is asked, and none twice.
pub proof fn law_budget_within_servers(wished: usize, config: Ed2kConfig)
    ensures
        1 <= bounded_budget(wished, config) <= configured_budget(config),
{
}

/// What has been learned of a file that was known by its hash alone.
#[derive(Debug, PartialEq, Eq)]
pub struct LearnedEd2kMetadata {
    pub canonical_name: Option<String>,
    pub file_size: Option<u64>,
}

/// What a [`LearnedEd2kMetadata`] stands for.
pub struct LearnedView {
    pub name: Option<Seq<char>>,
    pub size: Option<u64>,
}

impl LearnedView {
    pub open spec fn complete(self) -> bool {
        self.name is Some && self.size is Some
    }

    pub open spec fn nothing(self) -> bool {
        self.name is None && self.size is None
    }

    /// `self` with what is missing taken from `other`.
    pub open spec fn or_else(self, other: LearnedView) -> LearnedView {
        LearnedView {
            name: if self.name is Some {
                self.name
            } else {
                other.name
            },
            size: if self.size is Some {
                self.size
            } else {
                other.size
            },
        }
    }
}

impl View for LearnedEd2kMetadata {
    type V = LearnedView;

    open spec fn view(&self) -> LearnedView {
        LearnedView { name: types::opt_text(self.canonical_name), size: self.file_size }
    }
}

impl Default for LearnedEd2kMetadata {
    fn default() -> (r: LearnedEd2kMetadata)
        ensures
            r == (LearnedEd2kMetadata { canonical_name: None, file_size: None }),
    {
        LearnedEd2kMetadata { canonical_name: None, file_size: None }
    }
}

impl LearnedEd2kMetadata {
    pub fn merge_missing_from(&mut self, other: LearnedEd2kMetadata)
        ensures
            final(self)@ == old(self)@.or_else(other@),
    {
        if self.canonical_name.is_none() {
            self.canonical_name = other.canonical_name;
        }
        if self.file_size.is_none() {
            self.file_size = other.file_size;
        }
    }

    pub fn is_complete(&self) -> (r: bool)
        ensures
            r == self@.complete(),
    {
        self.canonical_name.is_some() && self.file_size.is_some()
    }

    pub fn is_empty(&self) -> (r: bool)
        ensures
            r == self@.nothing(),
    {
        self.canonical_name.is_none() && self.file_size.is_none()
    }
}

/// What is learned first stays: a name or a size is never replaced, and nothing is lost.
pub proof fn law_first_answer_stays(learned: LearnedView, other: LearnedView)
    ensures
        learned.name is Some ==> learned.or_else(other).name == learned.name,
        learned.size is Some ==> learned.or_else(other).size == learned.size,
        learned.complete() ==> learned.or_else(other) == learned,
        learned.or_else(other).nothing() <==> learned.nothing() && other.nothing(),
{
}

/// A size, where it is known.
pub open spec fn known_size(size: Option<u64>) -> Option<u64> {
    if size == Some(0u64) {
        None
    } else {
        size
    }
}

fn size_if_known(size: Option<u64>) -> (r: Option<u64>)
    ensures
        r == known_size(size),
{
    match size {
        Some(n) => if n != 0 {
            Some(n)
        } else {
            None
        },
        None => None,
    }
}

/// What a server result says of a file.
pub open spec fn said_of(result: Ed2kSearchFile) -> LearnedView {
    LearnedView {
        name: ed2k_enrich::nonempty_trimmed(types::opt_text(result.file_name)),
        size: known_size(result.file_size),
    }
}

/// Whether a result says anything of that file.
pub open spec fn informs(result: Ed2kSearchFile, file_hash: Ed2kHash) -> bool {
    result.file_hash == file_hash && !said_of(result).nothing()
}

/// How many of size and name a result gives, the size counting for more.
pub open spec fn weight(said: LearnedView) -> int {
    (if said.size is Some {
        2int
    } else {
        0
    }) + (if said.name is Some {
        1int
    } else {
        0
    })
}

/// The number of sources that a result claims.
pub open spec fn claimed(result: Ed2kSearchFile) -> u32 {
    match result.source_count {
        Some(count) => count,
        None => 0,
    }
}

/// Whether result `a` says no more than result `b`: it gives less of size and name, or as much,
/// and claims no more sources.
pub open spec fn no_better(a: Ed2kSearchFile, b: Ed2kSearchFile) -> bool {
    weight(said_of(a)) < weight(said_of(b)) || (weight(said_of(a)) == weight(said_of(b)) && claimed(a)
        <= claimed(b))
}

/// The place of the best result on that file; the last of equally good ones.
pub open spec fn best_result(results: Seq<Ed2kSearchFile>, file_hash: Ed2kHash) -> Option<int>
    decreases results.len(),
{
    if results.len() == 0 {
        None
    } else {
        let before = best_result(results.drop_last(), file_hash);
        let last = results.last();
        if informs(last, file_hash) && (before matches Some(i) ==> no_better(results[i], last)) {
            Some(results.len() - 1)
        } else {
            before
        }
    }
}

fn count_or_zero(count: Option<u32>) -> (r: u32)
    ensures
        r == match count {
            Some(n) => n,
            None => 0,
        },
{
    match count {
        Some(n) => n,
        None => 0,
    }
}

fn metadata_weight(metadata: &LearnedEd2kMetadata) -> (r: u8)
    ensures
        r == weight(metadata@),
{
    let size: u8 = if metadata.file_size.is_some() {
        2
    } else {
        0
    };
    let name: u8 = if metadata.canonical_name.is_some() {
        1
    } else {
        0
    };
    size + name
}

/// Picks what a server search says of a file.
pub fn select_ed2k_keyword_metadata(results: &Vec<Ed2kSearchFile>, file_hash: Ed2kHash) -> (r: Option<
    LearnedEd2kMetadata,
>)
    ensures
        match r {
            Some(metadata) => best_result(results@, file_hash) matches Some(i) && metadata@ == said_of(
                results@[i],
            ),
            None => best_result(results@, file_hash) is None,
        },
{
    let mut best: Option<LearnedEd2kMetadata> = None;
    let mut best_weight: u8 = 0;
    let mut best_count: u32 = 0;
    let mut i: usize = 0;
    while i < results.len()
        invariant
            i <= results.len(),
            match best {
                Some(metadata) => best_result(results@.take(i as int), file_hash) matches Some(b)
                    && 0 <= b < i && metadata@ == said_of(results@[b]) && best_weight == weight(metadata@)
                    && best_count == claimed(results@[b]),
                None => best_result(results@.take(i as int), file_hash) is None,
            },
        decreases results.len() - i,
    {
        proof {
            assert(results@.take(i + 1).drop_last() =~= results@.take(i as int));
            assert(results@.take(i + 1).last() == results@[i as int]);
        }
        let result: &Ed2kSearchFile = &results[i];
        if result.file_hash == file_hash {
            let metadata: LearnedEd2kMetadata = LearnedEd2kMetadata {
                canonical_name: nonempty_trimmed_name(&result.file_name),
                file_size: size_if_known(result.file_size),
            };
            assert(metadata@ == said_of(*result));
            if !metadata.is_empty() {
                let weight: u8 = metadata_weight(&metadata);
                let count: u32 = count_or_zero(result.source_count);
                if best.is_none() || best_weight < weight || (best_weight == weight && best_count <= count) {
                    best = Some(metadata);
                    best_weight = weight;
                    best_count = count;
                }
            }
        }
        i = i + 1;
    }
    assert(results@.take(i as int) =~= results@);
    best
}

/// The best result: there is one where any result says anything of the file, and no other says
/// more; of those that say as much, none comes later.
pub proof fn law_best_result(results: Seq<Ed2kSearchFile>, file_hash: Ed2kHash)
    ensures
        match best_result(results, file_hash) {
            Some(b) => {
                &&& 0 <= b < results.len()
                &&& informs(results[b], file_hash)
                &&& forall|i: int|
                    0 <= i < results.len() && informs(#[trigger] results[i], file_hash) ==> no_better(
                        results[i],
                        results[b],
                    )
                &&& forall|i: int|
                    b < i < results.len() && informs(#[trigger] results[i], file_hash) ==> !no_better(
                        results[b],
                        results[i],
                    )
            },
            None => forall|i: int| 0 <= i < results.len() ==> !informs(#[trigger] results[i], file_hash),
        },
    decreases results.len(),
{
    if results.len() > 0 {
        let init = results.drop_last();
        law_best_result(init, file_hash);
        assert forall|i: int| 0 <= i < results.len() - 1 implies init[i] == #[trigger] results[i] by {}
        let last = results.last();
        if best_result(results, file_hash) == Some(results.len() - 1) {
            let b = results.len() - 1;
            assert forall|i: int| 0 <= i < results.len() && informs(#[trigger] results[i], file_hash) implies no_better(
                results[i],
                results[b],
            ) by {
                if i < b {
                    assert(informs(init[i], file_hash));
                }
            }
        } else if best_result(results, file_hash) is Some {
            let b = best_result(results, file_hash)->0;
            assert forall|i: int| 0 <= i < results.len() && informs(#[trigger] results[i], file_hash) implies no_better(
                results[i],
                results[b],
            ) by {
                if i < init.len() {
                    assert(informs(init[i], file_hash));
                }
            }
            assert forall|i: int| b < i < results.len() && informs(#[trigger] results[i], file_hash) implies !no_better(
                results[b],
                results[i],
            ) by {
                if i < init.len() {
                    assert(informs(init[i], file_hash));
                }
            }
        }
    }
}

/// The first name of a list that is not blank, trimmed.
pub open spec fn first_name(names: Seq<String>) -> Option<Seq<char>>
    decreases names.len(),
{
    if names.len() == 0 {
        None
    } else {
        match first_name(names.drop_last()) {
            Some(name) => Some(name),
            None => ed2k_enrich::nonempty_trimmed(Some(names.last()@)),
        }
    }
}

fn first_nonempty_name(names: &Vec<String>) -> (r: Option<String>)
    ensures
        types::opt_text(r) == first_name(names@),
{
    let mut i: usize = 0;
    while i < names.len()
        invariant
            i <= names.len(),
            first_name(names@.take(i as int)) is None,
        decreases names.len() - i,
    {
        proof {
            assert(names@.take(i + 1).drop_last() =~= names@.take(i as int));
            assert(names@.take(i + 1).last() == names@[i as int]);
        }
        let trimmed: String = trim_text(names[i].as_str());
        if trimmed.as_str().unicode_len() > 0 {
            proof {
                lemma_first_name_stays(names@, i + 1);
            }
            return Some(trimmed);
        }
        i = i + 1;
    }
    assert(names@.take(i as int) =~= names@);
    None
}

proof fn lemma_first_name_stays(names: Seq<String>, n: int)
    requires
        0 <= n <= names.len(),
        first_name(names.take(n)) is Some,
    ensures
        first_name(names) == first_name(names.take(n)),
    decreases names.len(),
{
    if n == names.len() {
        assert(names.take(n) =~= names);
    } else {
        assert(names.drop_last().take(n) =~= names.take(n));
        lemma_first_name_stays(names.drop_last(), n);
    }
}

/// What a Kad result says of a file.
pub open spec fn said_by_kad(result: SearchResult, file_hash: Ed2kHash) -> LearnedView {
    if result.hash == file_hash {
        LearnedView { name: first_name(result.names@), size: known_size(result.size) }
    } else {
        LearnedView { name: None, size: None }
    }
}

pub fn select_kad_keyword_metadata(result: &SearchResult, file_hash: Ed2kHash) -> (r: Option<
    LearnedEd2kMetadata,
>)
    ensures
        match r {
            Some(metadata) => metadata@ == said_by_kad(*result, file_hash) && !metadata@.nothing(),
            None => said_by_kad(*result, file_hash).nothing(),
        },
{
    if result.hash != file_hash {
        return None;
    }
    let metadata: LearnedEd2kMetadata = LearnedEd2kMetadata {
        canonical_name: first_nonempty_name(&result.names),
        file_size: size_if_known(result.size),
    };
    if metadata.is_empty() {
        None
    } else {
        Some(metadata)
    }
}

/// Takes in one Kad result, and says whether all has been learned.
pub fn learn_from_kad(learned: &mut LearnedEd2kMetadata, result: &SearchResult, file_hash: Ed2kHash) -> (r: bool)
    requires
        !old(learned)@.complete(),
    ensures
        final(learned)@ == old(learned)@.or_else(said_by_kad(*result, file_hash)),
        r == final(learned)@.complete(),
{
    match select_kad_keyword_metadata(result, file_hash) {
        Some(candidate) => {
            learned.merge_missing_from(candidate);
        },
        None => {},
    }
    learned.is_complete()
}

/// Where metadata is asked for next.
#[derive(Debug, Clone, Copy, PartialEq, Eq, Structural)]
pub enum MetadataStep {
    /// The server that the agent is connected to.
    Background,
    /// Other servers, none of them preferred.
    Servers,
    Kad,
    Done,
}

/// The search for the name and size of a file that is known by its hash alone.
pub struct MetadataSearch {
    pub step: MetadataStep,
    pub learned: LearnedEd2kMetadata,
}

/// The step after `step`, once that much has been learned: a search that knows all ends.
pub open spec fn next_metadata_step(step: MetadataStep, learned: LearnedView) -> MetadataStep {
    if learned.complete() {
        MetadataStep::Done
    } else {
        match step {
            MetadataStep::Background => MetadataStep::Servers,
            MetadataStep::Servers => MetadataStep::Kad,
            MetadataStep::Kad => MetadataStep::Done,
            MetadataStep::Done => MetadataStep::Done,
        }
    }
}

impl MetadataSearch {
    /// Begins at the connected server, where there is one.
    pub fn begin(server: &Ed2kServerState) -> (r: MetadataSearch)
        ensures
            r.learned@.nothing(),
            r.step == if server.connected {
                MetadataStep::Background
            } else {
                MetadataStep::Servers
            },
    {
        MetadataSearch {
            step: if server.connected {
                MetadataStep::Background
            } else {
                MetadataStep::Servers
            },
            learned: LearnedEd2kMetadata { canonical_name: None, file_size: None },
        }
    }

    /// Takes in what a step found, if it found anything, and moves on.
    pub fn advance(&mut self, candidate: Option<LearnedEd2kMetadata>)
        ensures
            final(self).learned@ == match candidate {
                Some(candidate) => old(self).learned@.or_else(candidate@),
                None => old(self).learned@,
            },
            final(self).step == next_metadata_step(old(self).step, final(self).learned@),
    {
        match candidate {
            Some(candidate) => {
                self.learned.merge_missing_from(candidate);
            },
            None => {},
        }
        if self.learned.is_complete() {
            self.step = MetadataStep::Done;
        } else {
            self.step = match self.step {
                MetadataStep::Background => MetadataStep::Servers,
                MetadataStep::Servers => MetadataStep::Kad,
                MetadataStep::Kad => MetadataStep::Done,
                MetadataStep::Done => MetadataStep::Done,
            };
        }
    }

    /// What the search has learned, where it has learned anything.
    pub fn finish(self) -> (r: Option<LearnedEd2kMetadata>)
        ensures
            r == if self.learned@.nothing() {
                None
            } else {
                Some(self.learned)
            },
    {
        if self.learned.is_empty() {
            None
        } else {
            Some(self.learned)
        }
    }
}

/// The source that a Kad source result describes. Kad sources can be dialed, and their client ID
/// is their address.
pub open spec fn kad_found_source(result: SourceResult) -> Ed2kFoundSource {
    Ed2kFoundSource {
        file_hash: result.file_hash,
        ip: result.ip,
        tcp_port: result.tcp_port,
        client_id: result.ip.bits() as u32,
        low_id: false,
        obfuscated: result.obfuscation_options is Some,
        obfuscation_options: result.obfuscation_options,
        user_hash: Some(result.source_id.0),
        source_server: None,
    }
}

/// Kad source search remains a viable fallback when servers accept logins but never answer a
/// request for the sources of a concrete file.
pub fn kad_source_result_to_ed2k_found_source(result: SourceResult) -> (r: Ed2kFoundSource)
    ensures
        r == kad_found_source(result),
{
    Ed2kFoundSource {
        file_hash: result.file_hash,
        ip: result.ip,
        tcp_port: result.tcp_port,
        client_id: result.ip.to_bits(),
        low_id: false,
        obfuscated: result.obfuscation_options.is_some(),
        obfuscation_options: result.obfuscation_options,
        user_hash: Some(result.source_id.0),
        source_server: None,
    }
}

/// The sources of a file that Kad has advertised within a bounded window.
pub struct KadSourceCollection {
    pub sources: Vec<Ed2kFoundSource>,
}

impl KadSourceCollection {
    /// No source twice, and no more than the cap.
    pub open spec fn wf(self) -> bool {
        ed2k_sources::keys_distinct(self.sources@) && self.sources@.len() <= ED2K_DOWNLOAD_KAD_SOURCE_CAP
    }

    pub fn new() -> (r: KadSourceCollection)
        ensures
            r.wf(),
            r.sources@.len() == 0,
    {
        KadSourceCollection { sources: Vec::new() }
    }

    /// Takes in one result, and says whether the cap has been reached.
    pub fn accept(&mut self, result: SourceResult) -> (r: bool)
        requires
            old(self).wf(),
            old(self).sources@.len() < ED2K_DOWNLOAD_KAD_SOURCE_CAP,
        ensures
            final(self).wf(),
            final(self).sources@ == ed2k_sources::united(
                old(self).sources@,
                seq![kad_found_source(result)],
            ),
            r == (final(self).sources@.len() >= ED2K_DOWNLOAD_KAD_SOURCE_CAP),
    {
        let ghost before = self.sources@;
        let mut found: Vec<Ed2kFoundSource> = Vec::new();
        found.push(kad_source_result_to_ed2k_found_source(result));
        assert(found@ =~= seq![kad_found_source(result)]);
        merge_download_sources(&mut self.sources, &found);
        proof {
            ed2k_sources::law_union_keeps_known(before, found@);
            reveal_with_fuel(ed2k_sources::united, 2);
        }
        self.sources.len() >= ED2K_DOWNLOAD_KAD_SOURCE_CAP
    }

    /// Whether to ask again after a lookup has ended: nothing was found, and more time is left
    /// than the pause takes.
    pub fn should_retry(&self, remaining_ms: u64) -> (r: bool)
        ensures
            r == (self.sources@.len() == 0 && remaining_ms > ED2K_DOWNLOAD_KAD_SOURCE_RETRY_DELAY_MS),
    {
        self.sources.len() == 0 && remaining_ms > ED2K_DOWNLOAD_KAD_SOURCE_RETRY_DELAY_MS
    }
}

/// Whom a one-shot search asks.
#[derive(Debug, Clone, Copy, PartialEq, Eq, Structural)]
pub struct ServerSearchOptions {
    pub preferred_endpoint: Option<SocketAddr>,
    pub excluded_endpoint: Option<SocketAddr>,
    pub max_attempts: usize,
}

/// What an active search does next.
#[derive(Debug, PartialEq, Eq)]
pub enum ActiveEd2kSearchStep {
    /// Post these records.
    Post { files: Vec<FileRecord> },
    /// Ask servers in one shot.
    Servers { options: ServerSearchOptions },
}

/// Whom an active keyword search asks in one shot.
pub fn keyword_server_options(config: &Ed2kConfig, query: &str, preferred_endpoint: Option<SocketAddr>) -> (r:
    ServerSearchOptions)
    ensures
        r.preferred_endpoint == preferred_endpoint,
        r.excluded_endpoint is None,
        r.max_attempts == bounded_budget(
            if keywords::hash_query_token(query@) is Some {
                config.exact_hash_keyword_server_attempt_budget
            } else {
                config.keyword_server_attempt_budget
            },
            *config,
        ),
{
    ServerSearchOptions {
        preferred_endpoint,
        excluded_endpoint: None,
        max_attempts: ed2k_keyword_server_attempt_budget(config, query),
    }
}

/// Whom an active source search asks in one shot. The fallback keeps off the server that the
/// background session is connected to: eMule sends its source requests over its one live session
/// and does not open a second login to the same server.
pub fn source_server_options(has_background_search: bool, preferred_endpoint: Option<SocketAddr>) -> (r:
    ServerSearchOptions)
    ensures
        r == (ServerSearchOptions {
            preferred_endpoint,
            excluded_endpoint: if has_background_search {
                preferred_endpoint
            } else {
                None
            },
            max_attempts: ED2K_ACTIVE_SEARCH_MAX_SERVER_ATTEMPTS,
        }),
{
    ServerSearchOptions {
        preferred_endpoint,
        excluded_endpoint: if has_background_search {
            preferred_endpoint
        } else {
            None
        },
        max_attempts: ED2K_ACTIVE_SEARCH_MAX_SERVER_ATTEMPTS,
    }
}

/// The records of a server's keyword results.
pub fn map_ed2k_keyword_results(results: &Vec<Ed2kSearchFile>) -> (r: Vec<FileRecord>)
    ensures
        types::records(r@) == results@.map_values(
            |result: Ed2kSearchFile| server_keyword_record(result),
        ),
{
    let mut files: Vec<FileRecord> = Vec::new();
    let mut i: usize = 0;
    while i < results.len()
        invariant
            i <= results.len(),
            files@.len() == i,
            forall|j: int| 0 <= j < i ==> (#[trigger] files@[j])@ == server_keyword_record(results@[j]),
        decreases results.len() - i,
    {
        files.push(map_ed2k_keyword_result(&results[i]));
        i = i + 1;
    }
    assert(types::records(files@) =~= results@.map_values(
        |result: Ed2kSearchFile| server_keyword_record(result),
    ));
    files
}

/// The records of a server's source results.
pub fn map_ed2k_source_results(results: &Vec<Ed2kFoundSource>, file_size: u64) -> (r: Vec<FileRecord>)
    ensures
        types::records(r@) == results@.map_values(
            |result: Ed2kFoundSource|
                search::source_record(result.file_hash, file_size, server_source(result)),
        ),
{
    let mut files: Vec<FileRecord> = Vec::new();
    let mut i: usize = 0;
    while i < results.len()
        invariant
            i <= results.len(),
            files@.len() == i,
            forall|j: int|
                0 <= j < i ==> (#[trigger] files@[j])@ == search::source_record(
                    results@[j].file_hash,
                    file_size,
                    server_source(results@[j]),
                ),
        decreases results.len() - i,
    {
        files.push(map_ed2k_source_result(&results[i], file_size));
        i = i + 1;
    }
    assert(types::records(files@) =~= results@.map_values(
        |result: Ed2kFoundSource|
            search::source_record(result.file_hash, file_size, server_source(result)),
    ));
    files
}

/// What an active keyword search does after the background session has been asked, where there is
/// one: its results are posted, and where there are none servers are asked in one shot.
/// `background` is `None` where there is no session or its search failed.
pub fn after_background_keyword_search(
    background: Option<Vec<Ed2kSearchFile>>,
    config: &Ed2kConfig,
    query: &str,
    preferred_endpoint: Option<SocketAddr>,
) -> (r: ActiveEd2kSearchStep)
    ensures
        match r {
            ActiveEd2kSearchStep::Post { files } => background matches Some(results) && results@.len() > 0
                && types::records(files@) == results@.map_values(
                |result: Ed2kSearchFile| server_keyword_record(result),
            ),
            ActiveEd2kSearchStep::Servers { options } => {
                &&& (background matches Some(results) ==> results@.len() == 0)
                &&& options.preferred_endpoint == preferred_endpoint
                &&& options.excluded_endpoint is None
                &&& options.max_attempts == bounded_budget(
                    if keywords::hash_query_token(query@) is Some {
                        config.exact_hash_keyword_server_attempt_budget
                    } else {
                        config.keyword_server_attempt_budget
                    },
                    *config,
                )
            },
        },
{
    match background {
        Some(results) => if results.len() > 0 {
            return ActiveEd2kSearchStep::Post { files: map_ed2k_keyword_results(&results) };
        },
        None => {},
    }
    ActiveEd2kSearchStep::Servers {
        options: keyword_server_options(config, query, preferred_endpoint),
    }
}

/// What an active source search does after the background session has been asked, where there is
/// one.
pub fn after_background_source_search(
    has_background_search: bool,
    background: Option<Vec<Ed2kFoundSource>>,
    file_size: u64,
    preferred_endpoint: Option<SocketAddr>,
) -> (r: ActiveEd2kSearchStep)
    ensures
        match r {
            ActiveEd2kSearchStep::Post { files } => background matches Some(results) && results@.len() > 0
                && types::records(files@) == results@.map_values(
                |result: Ed2kFoundSource|
                    search::source_record(result.file_hash, file_size, server_source(result)),
            ),
            ActiveEd2kSearchStep::Servers { options } => {
                &&& (background matches Some(results) ==> results@.len() == 0)
                &&& options == (ServerSearchOptions {
                    preferred_endpoint,
                    excluded_endpoint: if has_background_search {
                        preferred_endpoint
                    } else {
                        None
                    },
                    max_attempts: ED2K_ACTIVE_SEARCH_MAX_SERVER_ATTEMPTS,
                })
            },
        },
{
    match background {
        Some(results) => if results.len() > 0 {
            return ActiveEd2kSearchStep::Post { files: map_ed2k_source_results(&results, file_size) };
        },
        None => {},
    }
    ActiveEd2kSearchStep::Servers {
        options: source_server_options(has_background_search, preferred_endpoint),
    }
}

/// The download source that a Kad source result becomes is the peer of the result: it is dialed
/// directly at the result's address and TCP port wherever there is one, its client ID is its
/// address, it is known by the result's source ID, and it is obfuscated exactly where the result
/// says how.
pub proof fn law_kad_source_can_be_dialed(result: SourceResult, r: Ed2kFoundSource, dialable: bool, endpoint: Endpoint)
    requires
        call_ensures(kad_source_result_to_ed2k_found_source, (result,), r),
        call_ensures(Ed2kFoundSource::is_direct_dialable, (&r,), dialable),
        call_ensures(Ed2kFoundSource::endpoint, (&r,), endpoint),
    ensures
        dialable <==> result.tcp_port != 0,
        !r.low_id,
        endpoint.ip == result.ip && endpoint.port == result.tcp_port,
        r.ip == result.ip && r.tcp_port == result.tcp_port && r.file_hash == result.file_hash,
        r.client_id == result.ip.a * 0x100_0000 + result.ip.b * 0x1_0000 + result.ip.c * 0x100 + result.ip.d,
        r.user_hash == Some(result.source_id.0),
        r.obfuscation_options == result.obfuscation_options,
        r.obfuscated <==> result.obfuscation_options is Some,
        r.source_server is None,
{
}

/// A Kad source that is collected is found among the sources, and none that was there is lost or
/// moved.
pub proof fn law_kad_sources_are_collected(collection: &mut KadSourceCollection, result: SourceResult, r: bool)
    requires
        call_ensures(KadSourceCollection::accept, (collection, result), r),
        old(collection).wf(),
        old(collection).sources@.len() < ED2K_DOWNLOAD_KAD_SOURCE_CAP,
    ensures
        exists|i: int|
            0 <= i < final(collection).sources@.len() && (#[trigger] final(collection).sources@[i]).ip == result.ip
                && final(collection).sources@[i].tcp_port == result.tcp_port,
        old(collection).sources@.len() <= final(collection).sources@.len() <= old(collection).sources@.len() + 1,
        r <==> final(collection).sources@.len() >= 64,
{
    let found = kad_found_source(result);
    let before = old(collection).sources@;
    ed2k_sources::law_union_keeps_known(before, seq![found]);
    ed2k_sources::law_union_complete(before, seq![found]);
    assert(ed2k_sources::has_key(final(collection).sources@, ed2k_sources::key_of(seq![found][0])));
    let i = choose|i: int|
        0 <= i < final(collection).sources@.len() && ed2k_sources::key_of(
            #[trigger] final(collection).sources@[i],
        ) == ed2k_sources::key_of(found);
    assert(final(collection).sources@[i].ip == result.ip);
    reveal_with_fuel(ed2k_sources::united, 2);
}

/// The record of a server's keyword result is about the file of the result: it spells its hash,
/// carries its size and its name, and says its type and its number of sources where the result
/// gives them, and only then.
pub proof fn law_server_record_is_of_its_result(result: &Ed2kSearchFile, r: FileRecord)
    requires
        call_ensures(map_ed2k_keyword_result, (result,), r),
    ensures
        r.hashes@.len() == 1 && text::hex_bytes(r.hashes@[0]@) == result.file_hash.0@,
        r.size == result.file_size,
        result.file_name matches Some(name) ==> r.names@.len() == 1 && r.names@[0]@ == name@,
        result.file_name is None ==> r.names@.len() == 0,
        r.sources@.len() == 0,
        r.content_type is Some <==> result.file_type is Some,
        result.file_type matches Some(term) ==> exists|i: int|
            0 <= i < r.tags@.len() && (#[trigger] r.tags@[i]).key@ == "ed2k_file_type"@ && r.tags@[i].value@
                == JsonView::Scalar(JsonScalarView::Text(term@)),
        result.source_count matches Some(count) ==> exists|i: int|
            0 <= i < r.tags@.len() && (#[trigger] r.tags@[i]).key@ == "ed2k_source_count"@ && r.tags@[i].value@
                == JsonView::Scalar(JsonScalarView::Number(count as nat)),
        r.tags@.len() == (if result.file_type is Some {
            1int
        } else {
            0
        }) + (if result.source_count is Some {
            1int
        } else {
            0
        }),
{
    types::lemma_record_view(r);
    ids::law_hex_round_trip(result.file_hash.0@);
    if result.file_type is Some {
        assert(r.tags@[0]@ == r@.tags[0]);
    }
    if result.source_count is Some {
        let i = r@.tags.len() - 1;
        assert(r.tags@[i]@ == r@.tags[i]);
    }
}

/// A server's file type stands for one kind of content.
pub proof fn law_server_file_types(term: &str, r: Option<ContentType>)
    requires
        call_ensures(ed2k_content_type, (Some(term),), r),
    ensures
        term@ == "Video"@ <==> r == Some(ContentType::Video),
        term@ == "Audio"@ <==> r == Some(ContentType::Audio),
        term@ == "Doc"@ <==> r == Some(ContentType::Document),
        term@ == "Pro"@ || term@ == "EmuleCollection"@ <==> r == Some(ContentType::Software),
        r is Some && r != Some(ContentType::Archive),
{
    reveal_strlit("Video");
    reveal_strlit("Audio");
    reveal_strlit("Doc");
    reveal_strlit("Pro");
    reveal_strlit("EmuleCollection");
    assert("Video"@[0] != "Audio"@[0]);
    assert("Doc"@[0] != "Pro"@[0]);
}

/// The record of a source that a server named is about the file of the source, has the size that
/// was asked for, and names the peer at its endpoint; it says whether the peer can be dialed and how.
pub proof fn law_server_source_record_is_of_its_source(result: &Ed2kFoundSource, file_size: u64, r: FileRecord)
    requires
        call_ensures(map_ed2k_source_result, (result, file_size), r),
    ensures
        r.hashes@.len() == 1 && text::hex_bytes(r.hashes@[0]@) == result.file_hash.0@,
        r.size == Some(file_size),
        r.sources@.len() == 1 && r.sources@[0].protocol == Protocol::Ed2k,
        r.sources@[0].address@ == result.ip.text() + seq![':'] + text::decimal(result.tcp_port as nat),
        types::says(r.sources@[0].extra, "client_id"@, JsonScalarView::Number(result.client_id as nat)),
        types::says(r.sources@[0].extra, "low_id"@, JsonScalarView::Bool(result.low_id)),
        types::says(
            r.sources@[0].extra,
            "direct_dialable"@,
            JsonScalarView::Bool(!result.low_id && result.tcp_port != 0),
        ),
        types::says(r.sources@[0].extra, "obfuscated"@, JsonScalarView::Bool(result.obfuscated)),
        result.obfuscation_options matches Some(options) ==> types::says(
            r.sources@[0].extra,
            "obfuscation_options"@,
            JsonScalarView::Number(options as nat),
        ),
        result.user_hash matches Some(hash) ==> types::says(
            r.sources@[0].extra,
            "user_hash"@,
            JsonScalarView::Text(text::hex_text(hash@)),
        ),
        result.obfuscation_options is None ==> types::says(
            r.sources@[0].extra,
            "obfuscation_options"@,
            JsonScalarView::Null,
        ),
        result.user_hash is None ==> types::says(r.sources@[0].extra, "user_hash"@, JsonScalarView::Null),
{
    reveal_strlit("search_mode");
    reveal_strlit("client_id");
    reveal_strlit("direct_dialable");
    reveal_strlit("low_id");
    reveal_strlit("obfuscated");
    reveal_strlit("obfuscation_options");
    reveal_strlit("user_hash");
    types::lemma_record_view(r);
    ids::law_hex_round_trip(result.file_hash.0@);
    assert(r.sources@[0]@ == r@.sources[0]);
    let said = r.sources@[0].extra@->Object_0;
    assert(said.len() == 7);
    assert("client_id"@[0] != "user_hash"@[0]);
    assert(said[0].name.len() == 11 && said[1].name.len() == 9 && said[2].name.len() == 15);
    assert(said[3].name.len() == 6 && said[4].name.len() == 10 && said[5].name.len() == 19);
    assert(said[6].name.len() == 9 && said[1].name != said[6].name);
    types::lemma_says(r.sources@[0].extra, 1);
    types::lemma_says(r.sources@[0].extra, 2);
    types::lemma_says(r.sources@[0].extra, 3);
    types::lemma_says(r.sources@[0].extra, 4);
    types::lemma_says(r.sources@[0].extra, 5);
    types::lemma_says(r.sources@[0].extra, 6);
}

/// Of every list of results as many records are made, each of its own result.
pub proof fn law_one_record_per_result(
    results: &Vec<Ed2kSearchFile>,
    files: Vec<FileRecord>,
    sources: &Vec<Ed2kFoundSource>,
    file_size: u64,
    source_files: Vec<FileRecord>,
    i: int,
)
    requires
        call_ensures(map_ed2k_keyword_results, (results,), files),
        call_ensures(map_ed2k_source_results, (sources, file_size), source_files),
    ensures
        files@.len() == results@.len() && source_files@.len() == sources@.len(),
        0 <= i < results@.len() ==> files@[i].size == results@[i].file_size && files@[i].hashes@.len() == 1
            && text::hex_bytes(files@[i].hashes@[0]@) == results@[i].file_hash.0@,
        0 <= i < sources@.len() ==> source_files@[i].size == Some(file_size) && source_files@[i].sources@.len()
            == 1 && source_files@[i].sources@[0].address@ == sources@[i].ip.text() + seq![':'] + text::decimal(
            sources@[i].tcp_port as nat,
        ),
{
    assert(types::records(files@).len() == files@.len());
    assert(types::records(source_files@).len() == source_files@.len());
    if 0 <= i < results@.len() {
        assert(types::records(files@)[i] == files@[i]@);
        types::lemma_record_view(files@[i]);
        ids::law_hex_round_trip(results@[i].file_hash.0@);
    }
    if 0 <= i < sources@.len() {
        assert(types::records(source_files@)[i] == source_files@[i]@);
        types::lemma_record_view(source_files@[i]);
        assert(source_files@[i].sources@[0]@ == source_files@[i]@.sources[0]);
    }
}

/// Searches wait as long as a connection may take, and never less than their floor.
pub proof fn law_search_timeouts(config: &Ed2kConfig, source: u64, keyword: u64)
    requires
        call_ensures(ed2k_source_search_timeout, (config,), source),
        call_ensures(ed2k_keyword_search_timeout, (config,), keyword),
    ensures
        source >= 15 && source >= config.connect_timeout_secs && (source == 15 || source
            == config.connect_timeout_secs),
        keyword >= 5 && keyword >= config.connect_timeout_secs && (keyword == 5 || keyword
            == config.connect_timeout_secs),
        keyword <= source,
{
}

/// As many servers are asked as the budget of that kind of search wishes, but one at least and no
/// more than are configured.
pub proof fn law_server_budgets(config: &Ed2kConfig, query: &str, keyword: usize, source: usize)
    requires
        call_ensures(ed2k_keyword_server_attempt_budget, (config, query), keyword),
        call_ensures(ed2k_download_source_server_attempt_budget, (config,), source),
    ensures
        keyword >= 1 && source >= 1,
        ({
            let wished = if keywords::hash_query_token(query@) is Some {
                config.exact_hash_keyword_server_attempt_budget
            } else {
                config.keyword_server_attempt_budget
            };
            let most = vstd::math::max(
                config.server_entries@.len() as int,
                config.server_endpoints@.len() as int,
            );
            &&& 1 <= wished <= most ==> keyword == wished
            &&& wished > most >= 1 ==> keyword == most
            &&& 1 <= config.source_server_attempt_budget <= most ==> source
                == config.source_server_attempt_budget
            &&& config.source_server_attempt_budget > most >= 1 ==> source == most
        }),
{
}

/// What is learned of a file from a Kad result is what the result says of that very file: the
/// first name that is not blank, and a size other than zero; results on other files say nothing.
pub proof fn law_kad_metadata_is_of_the_file(result: &SearchResult, file_hash: Ed2kHash, r: Option<LearnedEd2kMetadata>)
    requires
        call_ensures(select_kad_keyword_metadata, (result, file_hash), r),
    ensures
        r is Some ==> result.hash == file_hash,
        r matches Some(learned) ==> (learned.file_size matches Some(size) ==> result.size == Some(size) && size
            > 0),
        result.hash == file_hash && result.size is Some && result.size->0 > 0 ==> (r matches Some(learned)
            && learned.file_size == result.size),
        r matches Some(learned) ==> (learned.canonical_name matches Some(name) ==> name@.len() > 0 && exists|
            i: int,
        | 0 <= i < result.names@.len() && name@ == text::trimmed((#[trigger] result.names@[i])@)),
{
    lemma_first_name(result.names@);
}

proof fn lemma_first_name(names: Seq<String>)
    ensures
        match first_name(names) {
            Some(name) => name.len() > 0 && exists|i: int|
                0 <= i < names.len() && name == text::trimmed((#[trigger] names[i])@) && forall|j: int|
                    0 <= j < i ==> text::trimmed((#[trigger] names[j])@).len() == 0,
            None => forall|i: int| 0 <= i < names.len() ==> text::trimmed((#[trigger] names[i])@).len() == 0,
        },
    decreases names.len(),
{
    if names.len() > 0 {
        let init = names.drop_last();
        lemma_first_name(init);
        match first_name(init) {
            Some(name) => {
                let i = choose|i: int|
                    0 <= i < init.len() && name == text::trimmed((#[trigger] init[i])@) && forall|j: int|
                        0 <= j < i ==> text::trimmed((#[trigger] init[j])@).len() == 0;
                assert(names[i] == init[i]);
                assert forall|j: int| 0 <= j < i implies text::trimmed((#[trigger] names[j])@).len() == 0 by {
                    assert(names[j] == init[j]);
                }
            },
            None => {
                assert forall|j: int| 0 <= j < names.len() - 1 implies text::trimmed((#[trigger] names[j])@).len()
                    == 0 by {
                    assert(names[j] == init[j]);
                }
            },
        }
    }
}

/// A file is known by the first of its names that is not blank, trimmed.
pub proof fn law_first_name(names: Seq<String>)
    ensures
        match first_name(names) {
            Some(name) => exists|i: int|
                0 <= i < names.len() && name == text::trimmed((#[trigger] names[i])@) && name.len() > 0 && forall|
                    j: int,
                | 0 <= j < i ==> text::trimmed((#[trigger] names[j])@).len() == 0,
            None => forall|i: int| 0 <= i < names.len() ==> text::trimmed((#[trigger] names[i])@).len() == 0,
        },
{
    lemma_first_name(names);
}

/// What a server search says of a file comes from a result on that very file: the name is the
/// trimmed name of the result, and the size is its size. A result that gives a size is never passed
/// over for ones that give none.
pub proof fn law_server_metadata_is_of_the_file(
    results: &Vec<Ed2kSearchFile>,
    file_hash: Ed2kHash,
    r: Option<LearnedEd2kMetadata>,
)
    requires
        call_ensures(select_ed2k_keyword_metadata, (results, file_hash), r),
    ensures
        r matches Some(learned) ==> exists|i: int|
            0 <= i < results@.len() && (#[trigger] results@[i]).file_hash == file_hash && (
            learned.file_size is Some ==> learned.file_size == results@[i].file_size && learned.file_size
                != Some(0u64)) && (learned.canonical_name matches Some(name) ==> (results@[i].file_name matches Some(
                given,
            ) && name@ == text::trimmed(given@) && name@.len() > 0)),
        forall|i: int|
            0 <= i < results@.len() && (#[trigger] results@[i]).file_hash == file_hash && (
            results@[i].file_size matches Some(size) && size > 0) ==> (r matches Some(learned)
                && learned.file_size is Some),
{
    law_best_result(results@, file_hash);
    match best_result(results@, file_hash) {
        Some(b) => {
            assert(results@[b].file_hash == file_hash);
            assert forall|i: int|
                0 <= i < results@.len() && (#[trigger] results@[i]).file_hash == file_hash && (
                results@[i].file_size matches Some(size) && size > 0) implies r->0.file_size is Some by {
                assert(informs(results@[i], file_hash));
                assert(no_better(results@[i], results@[b]));
            }
        },
        None => {
            assert forall|i: int|
                0 <= i < results@.len() && (#[trigger] results@[i]).file_hash == file_hash && (
                results@[i].file_size matches Some(size) && size > 0) implies false by {
                assert(informs(results@[i], file_hash));
            }
        },
    }
}

/// Merging fills in what is missing from the other, and replaces nothing.
pub proof fn law_merge_fills_in(known: &mut LearnedEd2kMetadata, other: LearnedEd2kMetadata)
    requires
        call_ensures(LearnedEd2kMetadata::merge_missing_from, (known, other), ()),
    ensures
        old(known).file_size is Some ==> final(known).file_size == old(known).file_size,
        old(known).file_size is None ==> final(known).file_size == other.file_size,
        old(known).canonical_name matches Some(name) ==> (final(known).canonical_name matches Some(now) && now@
            == name@),
        old(known).canonical_name is None ==> types::opt_text(final(known).canonical_name) == types::opt_text(
            other.canonical_name,
        ),
{
}

/// A search for metadata goes from the connected server to other servers to Kad, and ends there or
/// as soon as name and size are known; what it found is handed out unless it is nothing.
pub proof fn law_metadata_search_order(
    server: &Ed2kServerState,
    begun: MetadataSearch,
    search: &mut MetadataSearch,
    candidate: Option<LearnedEd2kMetadata>,
)
    requires
        call_ensures(MetadataSearch::begin, (server,), begun),
        call_ensures(MetadataSearch::advance, (search, candidate), ()),
    ensures
        begun.step == MetadataStep::Background <==> server.connected,
        begun.step == MetadataStep::Servers <==> !server.connected,
        begun.learned.file_size is None && begun.learned.canonical_name is None,
        final(search).learned.file_size is Some && final(search).learned.canonical_name is Some ==> final(search).step
            == MetadataStep::Done,
        !(final(search).learned.file_size is Some && final(search).learned.canonical_name is Some) ==> {
            &&& old(search).step == MetadataStep::Background ==> final(search).step == MetadataStep::Servers
            &&& old(search).step == MetadataStep::Servers ==> final(search).step == MetadataStep::Kad
            &&& old(search).step == MetadataStep::Kad ==> final(search).step == MetadataStep::Done
            &&& old(search).step == MetadataStep::Done ==> final(search).step == MetadataStep::Done
        },
        candidate is None ==> final(search).learned.file_size == old(search).learned.file_size,
        candidate matches Some(c) ==> (old(search).learned.file_size is None ==> final(search).learned.file_size
            == c.file_size),
{
}

/// A search for sources keeps off the server of a session that was already asked.
pub proof fn law_source_search_options(has_session: bool, preferred: Option<SocketAddr>, r: ServerSearchOptions)
    requires
        call_ensures(source_server_options, (has_session, preferred), r),
    ensures
        r.preferred_endpoint == preferred,
        has_session ==> r.excluded_endpoint == preferred,
        !has_session ==> r.excluded_endpoint is None,
        r.max_attempts == 3,
{
}

/// Servers are asked in one shot exactly where the session gave no results; the results of a
/// session are posted, one record each.
pub proof fn law_session_results_are_posted(
    background: Option<Vec<Ed2kSearchFile>>,
    config: &Ed2kConfig,
    query: &str,
    preferred: Option<SocketAddr>,
    r: ActiveEd2kSearchStep,
    found: Option<Vec<Ed2kFoundSource>>,
    has_session: bool,
    file_size: u64,
    s: ActiveEd2kSearchStep,
)
    requires
        call_ensures(after_background_keyword_search, (background, config, query, preferred), r),
        call_ensures(after_background_source_search, (has_session, found, file_size, preferred), s),
    ensures
        r is Post <==> (background matches Some(results) && results@.len() > 0),
        r matches ActiveEd2kSearchStep::Post { files } ==> files@.len() == background->0@.len(),
        s is Post <==> (found matches Some(results) && results@.len() > 0),
        s matches ActiveEd2kSearchStep::Post { files } ==> files@.len() == found->0@.len(),
        r matches ActiveEd2kSearchStep::Servers { options } ==> options.preferred_endpoint == preferred
            && options.excluded_endpoint is None,
        s matches ActiveEd2kSearchStep::Servers { options } ==> options.preferred_endpoint == preferred && (
        has_session ==> options.excluded_endpoint == preferred),
{
    if let ActiveEd2kSearchStep::Post { files } = r {
        assert(types::records(files@).len() == files@.len());
    }
    if let ActiveEd2kSearchStep::Post { files } = s {
        assert(types::records(files@).len() == files@.len());
    }
}

/// Kad is asked again only where it has found nothing and there is time for the pause.
pub proof fn law_kad_retry(collection: &KadSourceCollection, remaining_ms: u64, r: bool)
    requires
        call_ensures(KadSourceCollection::should_retry, (collection, remaining_ms), r),
    ensures
        r ==> collection.sources@.len() == 0 && remaining_ms > 500,
        collection.sources@.len() == 0 && remaining_ms > 500 ==> r,
{
}

/// What has been learned of a file is complete with a name and a size, and nothing without either;
/// nothing is what a search that learned neither ends with.
pub proof fn law_learned(learned: &LearnedEd2kMetadata, complete: bool, empty: bool, search: MetadataSearch, r: Option<LearnedEd2kMetadata>)
    requires
        call_ensures(LearnedEd2kMetadata::is_complete, (learned,), complete),
        call_ensures(LearnedEd2kMetadata::is_empty, (learned,), empty),
        call_ensures(MetadataSearch::finish, (search,), r),
    ensures
        complete <==> learned.canonical_name is Some && learned.file_size is Some,
        empty <==> learned.canonical_name is None && learned.file_size is None,
        r is None <==> search.learned.canonical_name is None && search.learned.file_size is None,
        r matches Some(found) ==> found == search.learned,
{
}

/// A Kad result fills in what is missing of a file and changes nothing that is known; a result of
/// another file changes nothing.
pub proof fn law_learned_from_kad(learned: &mut LearnedEd2kMetadata, result: &SearchResult, file_hash: Ed2kHash, r: bool)
    requires
        !(old(learned).canonical_name is Some && old(learned).file_size is Some),
        call_ensures(learn_from_kad, (learned, result, file_hash), r),
    ensures
        old(learned).canonical_name matches Some(name) ==> (final(learned).canonical_name matches Some(kept) && kept@
            == name@),
        old(learned).file_size matches Some(size) ==> final(learned).file_size == Some(size),
        result.hash.0 != file_hash.0 ==> {
            &&& final(learned).canonical_name is Some <==> old(learned).canonical_name is Some
            &&& final(learned).file_size == old(learned).file_size
            &&& !r
        },
        r <==> final(learned).canonical_name is Some && final(learned).file_size is Some,
        result.hash.0 == file_hash.0 && old(learned).file_size is None ==> {
            &&& result.size matches Some(size) ==> (size > 0 ==> final(learned).file_size == Some(size))
            &&& result.size is None || result.size == Some(0u64) ==> final(learned).file_size is None
        },
{
}

/// A keyword search prefers the connected server and leaves none out; it asks as many as its budget
/// admits.
pub proof fn law_keyword_options(config: &Ed2kConfig, query: &str, preferred: Option<SocketAddr>, budget: usize, r: ServerSearchOptions)
    requires
        call_ensures(keyword_server_options, (config, query, preferred), r),
        call_ensures(ed2k_keyword_server_attempt_budget, (config, query), budget),
    ensures
        r.preferred_endpoint == preferred,
        r.excluded_endpoint is None,
        r.max_attempts == budget,
{
}

/// Of two results on a file one that gives the size goes before one that gives only a name, of two
/// that give the same the one that claims more sources, and of equal ones the later.
pub proof fn law_results_are_ranked(results: &Vec<Ed2kSearchFile>, file_hash: Ed2kHash, r: Option<LearnedEd2kMetadata>)
    requires
        call_ensures(select_ed2k_keyword_metadata, (results, file_hash), r),
        results@.len() == 2,
        results@[0].file_hash == file_hash && results@[1].file_hash == file_hash,
    ensures
        ({
            let a = results@[0];
            let b = results@[1];
            let sized = |f: Ed2kSearchFile| f.file_size matches Some(size) && size > 0;
            let count = |f: Ed2kSearchFile|
                match f.source_count {
                    Some(count) => count as int,
                    None => 0,
                };
            &&& sized(a) && !sized(b) && b.file_name is None ==> (r matches Some(learned) && learned.file_size
                == a.file_size)
            &&& sized(a) && !sized(b) && a.file_name is None ==> (r matches Some(learned) && learned.file_size
                == a.file_size && learned.canonical_name is None)
            &&& sized(a) && sized(b) && a.file_name is None && b.file_name is None ==> (r matches Some(learned)
                && learned.file_size == (if count(a) > count(b) {
                a.file_size
            } else {
                b.file_size
            }))
        }),
{
    reveal_with_fuel(best_result, 3);
    assert(results@.drop_last().drop_last() =~= Seq::empty());
    assert(results@.drop_last().last() == results@[0]);
    assert(results@.last() == results@[1]);
}

} // verus!
