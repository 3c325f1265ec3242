//! Active searches: what a job asks for, how results become records, and how records are batched.

use vstd::prelude::*;
use vstd::string::*;
use crate::ids;
use crate::ids::{Ed2kHash, Endpoint, Uuid};
use crate::kad::{NoteResult, SearchResult, SourceResult, Tag, TagName, TagNameView, TagValue, TagValueView, TagView};
use crate::keywords;
use crate::keywords::keyword_target;
use crate::digests;
use crate::text;
use crate::text::{ends_with, hex_encode, joined, lowercase_text, replace_char, trim_text};
use crate::types;
use crate::types::{
    clone_text, clone_texts, ContentType, FileRecord, FileRecordView, HashType, JsonField,
    JsonFieldView, JsonScalar, JsonScalarView, JsonValue, JsonView, Protocol, ResultBatch,
    SearchEvent, SearchEventStatus, SearchJob, Source, SourceView, TagEntry, TagEntryView,
};

verus! {

broadcast use vstd::string::group_string_axioms;

/// The number of records in a full batch of an active search.
pub const ACTIVE_BATCH_SIZE: usize = 25;

/// Why a search job cannot be run.
#[derive(Debug, PartialEq, Eq)]
pub enum SearchJobError {
    MissingQuery,
    MissingHash,
    InvalidHash { value: String },
    MissingSize,
}

impl SearchJobError {
    /// The text of the error.
    pub open spec fn text(self) -> Seq<char> {
        match self {
            SearchJobError::MissingQuery => "search job is missing query text"@,
            SearchJobError::MissingHash => "search job is missing ed2k file hash"@,
            SearchJobError::InvalidHash { value } => "invalid Ed2k hash "@ + value@,
            SearchJobError::MissingSize => "search job is missing file size"@,
        }
    }

    pub fn message(&self) -> (r: String)
        ensures
            r@ == self.text(),
    {
        match self {
            SearchJobError::MissingQuery => "search job is missing query text".to_owned(),
            SearchJobError::MissingHash => "search job is missing ed2k file hash".to_owned(),
            SearchJobError::InvalidHash { value } => joined("invalid Ed2k hash ", value.as_str()),
            SearchJobError::MissingSize => "search job is missing file size".to_owned(),
        }
    }
}

/// The query that a job searches for: its text as it stands, unless it is blank.
pub open spec fn query_of(job: SearchJob) -> Option<Seq<char>> {
    match job.query {
        Some(query) => if text::trimmed(query@).len() > 0 {
            Some(query@)
        } else {
            None
        },
        None => None,
    }
}

pub fn search_query(job: &SearchJob) -> (r: Result<&str, SearchJobError>)
    ensures
        match r {
            Ok(query) => query_of(*job) == Some(query@),
            Err(error) => error is MissingQuery && query_of(*job) is None,
        },
{
    match &job.query {
        Some(query) => {
            let trimmed: String = trim_text(query.as_str());
            if trimmed.as_str().unicode_len() > 0 {
                Ok(query.as_str())
            } else {
                Err(SearchJobError::MissingQuery)
            }
        },
        None => Err(SearchJobError::MissingQuery),
    }
}

pub fn search_file_hash(job: &SearchJob) -> (r: Result<Ed2kHash, SearchJobError>)
    ensures
        match r {
            Ok(hash) => job.file_hash matches Some(text) && ids::is_hash_text(text@) && hash.0@
                == text::hex_bytes(text@),
            Err(SearchJobError::MissingHash) => job.file_hash is None,
            Err(SearchJobError::InvalidHash { value }) => job.file_hash matches Some(text) && text@
                == value@ && !ids::is_hash_text(text@),
            Err(_) => false,
        },
{
    match &job.file_hash {
        Some(HashType::Ed2k(value)) => match Ed2kHash::from_text(value.as_str()) {
            Some(hash) => Ok(hash),
            None => Err(SearchJobError::InvalidHash { value: value.clone() }),
        },
        None => Err(SearchJobError::MissingHash),
    }
}

/// The size that a job gives, which is not zero.
pub open spec fn size_of_job(job: SearchJob) -> Option<u64> {
    if job.file_size == Some(0u64) {
        None
    } else {
        job.file_size
    }
}

pub fn search_file_size(job: &SearchJob) -> (r: Result<u64, SearchJobError>)
    ensures
        match r {
            Ok(size) => size_of_job(*job) == Some(size),
            Err(error) => error is MissingSize && size_of_job(*job) is None,
        },
{
    match job.file_size {
        Some(size) => if size > 0 {
            Ok(size)
        } else {
            Err(SearchJobError::MissingSize)
        },
        None => Err(SearchJobError::MissingSize),
    }
}

/// What a search has produced so far.
#[derive(Debug, Clone, Copy, PartialEq, Eq, Structural)]
pub struct SearchRunStats {
    pub result_count: u32,
    pub batch_count: u32,
}

impl Default for SearchRunStats {
    fn default() -> (r: SearchRunStats)
        ensures
            r == (SearchRunStats { result_count: 0, batch_count: 0 }),
    {
        SearchRunStats { result_count: 0, batch_count: 0 }
    }
}

/// The event that reports where a search stands.
pub fn search_event(
    job_id: Uuid,
    indexer_id: Uuid,
    status: SearchEventStatus,
    stats: &SearchRunStats,
    error: Option<String>,
) -> (r: SearchEvent)
    ensures
        r == (SearchEvent {
            job_id,
            indexer_id,
            status,
            result_count: Some(stats.result_count),
            batch_count: Some(stats.batch_count),
            error,
        }),
{
    SearchEvent {
        job_id,
        indexer_id,
        status,
        result_count: Some(stats.result_count),
        batch_count: Some(stats.batch_count),
        error,
    }
}

/// A batch to post, and the event to post after it.
#[derive(Debug, PartialEq, Eq)]
pub struct SearchPost {
    pub batch: ResultBatch,
    pub event: SearchEvent,
}

/// The counts after a batch of `added` records.
pub open spec fn counted(stats: SearchRunStats, added: nat) -> SearchRunStats {
    SearchRunStats {
        result_count: (stats.result_count + added) as u32,
        batch_count: (stats.batch_count + 1) as u32,
    }
}

/// Turns records into a batch, counts them, and says what to post. An empty list is not posted.
pub fn post_search_batch(
    job_id: Uuid,
    indexer_id: Uuid,
    protocol: Protocol,
    files: Vec<FileRecord>,
    stats: &mut SearchRunStats,
) -> (r: Option<SearchPost>)
    requires
        old(stats).result_count + files@.len() <= u32::MAX,
        files@.len() > 0 ==> old(stats).batch_count < u32::MAX,
    ensures
        r is None <==> files@.len() == 0,
        match r {
            Some(post) => {
                &&& *final(stats) == counted(*old(stats), files@.len())
                &&& post.batch == (ResultBatch {
                    job_id: Some(job_id),
                    indexer_id,
                    protocol,
                    harvest_context: None,
                    files,
                })
                &&& post.event == (SearchEvent {
                    job_id,
                    indexer_id,
                    status: SearchEventStatus::BatchReceived,
                    result_count: Some(final(stats).result_count),
                    batch_count: Some(final(stats).batch_count),
                    error: None,
                })
            },
            None => *final(stats) == *old(stats),
        },
{
    if files.len() == 0 {
        return None;
    }
    stats.result_count = stats.result_count + files.len() as u32;
    stats.batch_count = stats.batch_count + 1;
    Some(
        SearchPost {
            batch: ResultBatch {
                job_id: Some(job_id),
                indexer_id,
                protocol,
                harvest_context: None,
                files,
            },
            event: search_event(job_id, indexer_id, SearchEventStatus::BatchReceived, stats, None),
        },
    )
}

/// The record of a file of which one source is known.
pub open spec fn source_record(hash: Ed2kHash, size: u64, source: SourceView) -> FileRecordView {
    FileRecordView {
        hashes: seq![text::hex_text(hash.0@)],
        names: Seq::empty(),
        size: Some(size),
        content_type: None,
        tags: Seq::empty(),
        sources: seq![source],
    }
}

/// The record of a file of which one source is known.
pub(crate) fn build_source_record(hash: Ed2kHash, size: u64, source: Source) -> (r: FileRecord)
    ensures
        r@ == source_record(hash, size, source@),
{
    let mut hashes: Vec<HashType> = Vec::new();
    hashes.push(HashType::Ed2k(hash.to_text()));
    let mut sources: Vec<Source> = Vec::new();
    sources.push(source);
    let r: FileRecord = FileRecord {
        hashes,
        names: Vec::new(),
        size: Some(size),
        content_type: None,
        tags: Vec::new(),
        sources,
    };
    assert(r@ =~= source_record(hash, size, source@));
    r
}

/// What a Kad source result says of its source.
pub open spec fn kad_source(result: SourceResult) -> SourceView {
    SourceView {
        protocol: Protocol::Kad2,
        address: (Endpoint { ip: result.ip, port: result.tcp_port }).text(),
        extra: JsonView::Object(
            seq![
                JsonFieldView { name: "udp_port"@, value: JsonScalarView::Number(result.udp_port as nat) },
                JsonFieldView { name: "search_mode"@, value: JsonScalarView::Text("source"@) },
            ],
        ),
    }
}

pub fn map_source_result(result: &SourceResult, file_size: u64) -> (r: FileRecord)
    ensures
        r@ == source_record(result.file_hash, file_size, kad_source(*result)),
{
    let mut extra: Vec<JsonField> = Vec::new();
    extra.push(JsonField::new("udp_port", JsonScalar::Number(result.udp_port as u64)));
    extra.push(JsonField::new("search_mode", JsonScalar::Text("source".to_owned())));
    let source: Source = Source {
        protocol: Protocol::Kad2,
        address: Endpoint { ip: result.ip, port: result.tcp_port }.to_text(),
        extra: JsonValue::Object(extra),
    };
    assert(types::fields(extra@) =~= seq![
        JsonFieldView { name: "udp_port"@, value: JsonScalarView::Number(result.udp_port as nat) },
        JsonFieldView { name: "search_mode"@, value: JsonScalarView::Text("source"@) },
    ]);
    build_source_record(result.file_hash, file_size, source)
}

/// The record of a note.
pub open spec fn note_record(result: NoteResult, file_size: u64) -> FileRecordView {
    FileRecordView {
        hashes: seq![text::hex_text(result.file_hash.0@)],
        names: Seq::empty(),
        size: Some(file_size),
        content_type: None,
        tags: seq![
            TagEntryView {
                key: "kad_note"@,
                value: JsonView::Object(
                    seq![
                        JsonFieldView {
                            name: "source_id"@,
                            value: JsonScalarView::Text(text::hex_text(result.source_id.0@)),
                        },
                        JsonFieldView {
                            name: "rating"@,
                            value: match result.rating {
                                Some(rating) => JsonScalarView::Number(rating as nat),
                                None => JsonScalarView::Null,
                            },
                        },
                        JsonFieldView {
                            name: "comment"@,
                            value: types::text_or_null(types::opt_text(result.comment)),
                        },
                    ],
                ),
            },
        ],
        sources: Seq::empty(),
    }
}

pub fn map_note_result(result: &NoteResult, file_size: u64) -> (r: FileRecord)
    ensures
        r@ == note_record(*result, file_size),
{
    let mut hashes: Vec<HashType> = Vec::new();
    hashes.push(HashType::Ed2k(result.file_hash.to_text()));
    let mut note: Vec<JsonField> = Vec::new();
    note.push(JsonField::new("source_id", JsonScalar::Text(result.source_id.to_text())));
    let rating: JsonScalar = match result.rating {
        Some(rating) => JsonScalar::Number(rating as u64),
        None => JsonScalar::Null,
    };
    note.push(JsonField::new("rating", rating));
    note.push(JsonField::new("comment", JsonScalar::text_or_null(clone_text(&result.comment))));
    let ghost expected = note_record(*result, file_size);
    assert(types::fields(note@) =~= expected.tags[0].value->Object_0);
    let mut tags: Vec<TagEntry> = Vec::new();
    tags.push(TagEntry { key: "kad_note".to_owned(), value: JsonValue::Object(note) });
    let r: FileRecord = FileRecord {
        hashes,
        names: Vec::new(),
        size: Some(file_size),
        content_type: None,
        tags,
        sources: Vec::new(),
    };
    assert(r@ =~= expected);
    r
}

/// Whether `name` ends with one of the four.
pub open spec fn ends_with_one(name: Seq<char>, a: Seq<char>, b: Seq<char>, c: Seq<char>, d: Seq<char>) -> bool {
    a.is_suffix_of(name) || b.is_suffix_of(name) || c.is_suffix_of(name) || d.is_suffix_of(name)
}

/// The kind of content that a name in lowercase shows by its extension.
pub open spec fn content_type_of(lower: Seq<char>) -> ContentType {
    if ends_with_one(lower, ".mkv"@, ".mp4"@, ".avi"@, ".mov"@) {
        ContentType::Video
    } else if ends_with_one(lower, ".mp3"@, ".flac"@, ".wav"@, ".ogg"@) {
        ContentType::Audio
    } else if ends_with_one(lower, ".pdf"@, ".epub"@, ".txt"@, ".doc"@) || ".docx"@.is_suffix_of(lower) {
        ContentType::Document
    } else if ends_with_one(lower, ".zip"@, ".rar"@, ".7z"@, ".tar"@) {
        ContentType::Archive
    } else if ends_with_one(lower, ".exe"@, ".msi"@, ".iso"@, ".iso"@) {
        ContentType::Software
    } else {
        ContentType::Unknown
    }
}

fn ends_with_any(name: &str, a: &str, b: &str, c: &str, d: &str) -> (r: bool)
    ensures
        r == ends_with_one(name@, a@, b@, c@, d@),
{
    ends_with(name, a) || ends_with(name, b) || ends_with(name, c) || ends_with(name, d)
}

/// The kind of content that a file's first name shows.
pub fn guess_content_type(name: Option<&String>) -> (r: Option<ContentType>)
    ensures
        r == Some(
            match name {
                Some(name) => content_type_of(text::lowercase(name@)),
                None => ContentType::Unknown,
            },
        ),
{
    let name: &String = match name {
        Some(name) => name,
        None => {
            return Some(ContentType::Unknown);
        },
    };
    let lower: String = lowercase_text(name.as_str());
    let lower: &str = lower.as_str();
    Some(
        if ends_with_any(lower, ".mkv", ".mp4", ".avi", ".mov") {
            ContentType::Video
        } else if ends_with_any(lower, ".mp3", ".flac", ".wav", ".ogg") {
            ContentType::Audio
        } else if ends_with_any(lower, ".pdf", ".epub", ".txt", ".doc") || ends_with(lower, ".docx") {
            ContentType::Document
        } else if ends_with_any(lower, ".zip", ".rar", ".7z", ".tar") {
            ContentType::Archive
        } else if ends_with_any(lower, ".exe", ".msi", ".iso", ".iso") {
            ContentType::Software
        } else {
            ContentType::Unknown
        },
    )
}

/// The entry of a tag: a one-byte name is written in hexadecimal, and a binary value too.
pub open spec fn tag_entry(tag: TagView) -> TagEntryView {
    TagEntryView {
        key: match tag.name {
            TagNameView::Short(name) => "tag_"@ + text::hex_text(seq![name]),
            TagNameView::Long(name) => name,
        },
        value: JsonView::Scalar(
            match tag.value {
                TagValueView::Hash(hash) => JsonScalarView::Text(text::hex_text(hash.0@)),
                TagValueView::String(value) => JsonScalarView::Text(value),
                TagValueView::UInt(value) => JsonScalarView::Number(value as nat),
                TagValueView::U64(value) => JsonScalarView::Number(value as nat),
                TagValueView::U32(value) => JsonScalarView::Number(value as nat),
                TagValueView::U16(value) => JsonScalarView::Number(value as nat),
                TagValueView::U8(value) => JsonScalarView::Number(value as nat),
                TagValueView::FloatBits(bits) => JsonScalarView::FloatBits(bits),
                TagValueView::Bool(value) => JsonScalarView::Bool(value),
                TagValueView::Blob(bytes) => JsonScalarView::Text(text::hex_text(bytes)),
                TagValueView::SmallBlob(bytes) => JsonScalarView::Text(text::hex_text(bytes)),
            },
        ),
    }
}

pub fn tag_to_entry(tag: &Tag) -> (r: TagEntry)
    ensures
        r@ == tag_entry(tag@),
{
    let key: String = match &tag.name {
        TagName::Short(name) => {
            let byte: [u8; 1] = [*name];
            assert(byte@ =~= seq![*name]);
            let digits: String = hex_encode(byte.as_slice());
            joined("tag_", digits.as_str())
        },
        TagName::Long(name) => name.clone(),
    };
    let value: JsonScalar = match &tag.value {
        TagValue::Hash(hash) => JsonScalar::Text(hash.to_text()),
        TagValue::String(value) => JsonScalar::Text(value.clone()),
        TagValue::UInt(value) => JsonScalar::Number(*value),
        TagValue::U64(value) => JsonScalar::Number(*value),
        TagValue::U32(value) => JsonScalar::Number(*value as u64),
        TagValue::U16(value) => JsonScalar::Number(*value as u64),
        TagValue::U8(value) => JsonScalar::Number(*value as u64),
        TagValue::FloatBits(bits) => JsonScalar::FloatBits(*bits),
        TagValue::Bool(value) => JsonScalar::Bool(*value),
        TagValue::Blob(bytes) => JsonScalar::Text(hex_encode(bytes.as_slice())),
        TagValue::SmallBlob(bytes) => JsonScalar::Text(hex_encode(bytes.as_slice())),
    };
    TagEntry { key, value: JsonValue::Scalar(value) }
}

fn tag_entries(tags: &Vec<Tag>) -> (r: Vec<TagEntry>)
    ensures
        r@.len() == tags@.len(),
        forall|i: int| 0 <= i < tags@.len() ==> (#[trigger] r@[i])@ == tag_entry(tags@[i]@),
{
    let mut r: Vec<TagEntry> = Vec::new();
    let mut i: usize = 0;
    while i < tags.len()
        invariant
            i <= tags.len(),
            r@.len() == i,
            forall|j: int| 0 <= j < i ==> (#[trigger] r@[j])@ == tag_entry(tags@[j]@),
        decreases tags.len() - i,
    {
        r.push(tag_to_entry(&tags[i]));
        i = i + 1;
    }
    r
}

/// The record of a keyword result that came in on `bind_addr`.
pub open spec fn keyword_record(bind_addr: Seq<char>, result: SearchResult) -> FileRecordView {
    FileRecordView {
        hashes: seq![text::hex_text(result.hash.0@)],
        names: types::texts(result.names@),
        size: result.size,
        content_type: Some(
            if result.names@.len() > 0 {
                content_type_of(text::lowercase(result.names@[0]@))
            } else {
                ContentType::Unknown
            },
        ),
        tags: Seq::new(result.tags@.len(), |i: int| tag_entry(result.tags@[i]@)),
        sources: seq![
            SourceView {
                protocol: Protocol::Kad2,
                address: bind_addr,
                extra: JsonView::Object(
                    seq![
                        JsonFieldView {
                            name: "search_mode"@,
                            value: JsonScalarView::Text("network"@),
                        },
                        JsonFieldView {
                            name: "source_count"@,
                            value: match result.source_count {
                                Some(count) => JsonScalarView::Number(count as nat),
                                None => JsonScalarView::Null,
                            },
                        },
                    ],
                ),
            },
        ],
    }
}

pub fn map_search_result_for(bind_addr: &str, result: &SearchResult) -> (r: FileRecord)
    ensures
        r@ == keyword_record(bind_addr@, *result),
{
    let mut hashes: Vec<HashType> = Vec::new();
    hashes.push(HashType::Ed2k(result.hash.to_text()));
    let first: Option<&String> = if result.names.len() > 0 {
        Some(&result.names[0])
    } else {
        None
    };
    let mut extra: Vec<JsonField> = Vec::new();
    extra.push(JsonField::new("search_mode", JsonScalar::Text("network".to_owned())));
    let count: JsonScalar = match result.source_count {
        Some(count) => JsonScalar::Number(count as u64),
        None => JsonScalar::Null,
    };
    extra.push(JsonField::new("source_count", count));
    let ghost expected = keyword_record(bind_addr@, *result);
    assert(types::fields(extra@) =~= expected.sources[0].extra->Object_0);
    let mut sources: Vec<Source> = Vec::new();
    sources.push(
        Source {
            protocol: Protocol::Kad2,
            address: bind_addr.to_owned(),
            extra: JsonValue::Object(extra),
        },
    );
    let r: FileRecord = FileRecord {
        hashes,
        names: clone_texts(&result.names),
        size: result.size,
        content_type: guess_content_type(first),
        tags: tag_entries(&result.tags),
        sources,
    };
    assert(r@ =~= expected);
    r
}

/// The record that stands in for the results of a search that found nothing.
pub open spec fn mock_record(query: Seq<char>, bind_addr: Seq<char>) -> FileRecordView {
    FileRecordView {
        hashes: seq![
            text::hex_text(
                ids::chunk_order(
                    ids::chunk_order(
                        digests::md4_digest(vstd::utf8::encode_utf8(keywords::lookup_word(query))),
                    ),
                ),
            ),
        ],
        names: seq![text::lowercase(text::replaced(text::trimmed(query), ' ', '_')) + ".bin"@],
        size: Some(1_048_576u64),
        content_type: Some(ContentType::Unknown),
        tags: seq![
            TagEntryView {
                key: "origin"@,
                value: JsonView::Scalar(JsonScalarView::Text("mock_fallback"@)),
            },
        ],
        sources: seq![
            SourceView {
                protocol: Protocol::Kad2,
                address: bind_addr,
                extra: JsonView::Object(
                    seq![JsonFieldView { name: "search_mode"@, value: JsonScalarView::Text("mock"@) }],
                ),
            },
        ],
    }
}

pub fn mock_file_record(query: &str, bind_addr: String) -> (r: FileRecord)
    ensures
        r@ == mock_record(query@, bind_addr@),
{
    let target: [u8; 16] = keyword_target(query).to_be_bytes();
    let mut hashes: Vec<HashType> = Vec::new();
    hashes.push(HashType::Ed2k(hex_encode(target.as_slice())));
    let trimmed: String = trim_text(query);
    let underscored: String = replace_char(trimmed.as_str(), ' ', '_');
    let mut name: String = lowercase_text(underscored.as_str());
    name.append(".bin");
    let mut names: Vec<String> = Vec::new();
    names.push(name);
    let mut tags: Vec<TagEntry> = Vec::new();
    tags.push(
        TagEntry {
            key: "origin".to_owned(),
            value: JsonValue::Scalar(JsonScalar::Text("mock_fallback".to_owned())),
        },
    );
    let mut extra: Vec<JsonField> = Vec::new();
    extra.push(JsonField::new("search_mode", JsonScalar::Text("mock".to_owned())));
    let ghost expected = mock_record(query@, bind_addr@);
    assert(types::fields(extra@) =~= expected.sources[0].extra->Object_0);
    let mut sources: Vec<Source> = Vec::new();
    sources.push(
        Source { protocol: Protocol::Kad2, address: bind_addr, extra: JsonValue::Object(extra) },
    );
    let r: FileRecord = FileRecord {
        hashes,
        names,
        size: Some(1_048_576),
        content_type: Some(ContentType::Unknown),
        tags,
        sources,
    };
    assert(r@ =~= expected);
    r
}

/// A search whose results come in one by one and are posted in batches.
pub struct ActiveSearchRun {
    pub job_id: Uuid,
    pub indexer_id: Uuid,
    /// Records that are not posted yet.
    pub files: Vec<FileRecord>,
    /// The number of results that have come in.
    pub seen: usize,
    pub stats: SearchRunStats,
}

impl ActiveSearchRun {
    /// Every result that has come in has been posted or waits in a batch that is not full.
    pub open spec fn wf(self) -> bool {
        &&& self.files@.len() < ACTIVE_BATCH_SIZE
        &&& self.stats.result_count + self.files@.len() == self.seen
        &&& self.stats.batch_count <= self.stats.result_count
    }

    pub fn new(job_id: Uuid, indexer_id: Uuid) -> (r: ActiveSearchRun)
        ensures
            r.wf(),
            r.job_id == job_id,
            r.indexer_id == indexer_id,
            r.files@.len() == 0,
            r.seen == 0,
            r.stats == (SearchRunStats { result_count: 0, batch_count: 0 }),
    {
        ActiveSearchRun {
            job_id,
            indexer_id,
            files: Vec::new(),
            seen: 0,
            stats: SearchRunStats { result_count: 0, batch_count: 0 },
        }
    }

    /// Takes in the record of one result, and says what to post when the batch is full.
    pub fn accept(&mut self, record: FileRecord) -> (r: Option<SearchPost>)
        requires
            old(self).wf(),
            old(self).seen < u32::MAX,
        ensures
            final(self).wf(),
            final(self).job_id == old(self).job_id,
            final(self).indexer_id == old(self).indexer_id,
            final(self).seen == old(self).seen + 1,
            r is Some <==> old(self).files@.len() + 1 == ACTIVE_BATCH_SIZE,
            match r {
                Some(post) => {
                    &&& final(self).files@.len() == 0
                    &&& final(self).stats == counted(old(self).stats, ACTIVE_BATCH_SIZE as nat)
                    &&& post.batch.files@ == old(self).files@.push(record)
                    &&& final(self).posts(post)
                },
                None => {
                    &&& final(self).files@ == old(self).files@.push(record)
                    &&& final(self).stats == old(self).stats
                },
            },
    {
        self.seen = self.seen + 1;
        self.files.push(record);
        if self.files.len() >= ACTIVE_BATCH_SIZE {
            let mut files: Vec<FileRecord> = Vec::new();
            core::mem::swap(&mut files, &mut self.files);
            post_search_batch(self.job_id, self.indexer_id, Protocol::Kad2, files, &mut self.stats)
        } else {
            None
        }
    }

    /// Whether a post carries this search's identities and counts.
    pub open spec fn posts(self, post: SearchPost) -> bool {
        &&& post.batch == (ResultBatch {
            job_id: Some(self.job_id),
            indexer_id: self.indexer_id,
            protocol: Protocol::Kad2,
            harvest_context: None,
            files: post.batch.files,
        })
        &&& post.event == (SearchEvent {
            job_id: self.job_id,
            indexer_id: self.indexer_id,
            status: SearchEventStatus::BatchReceived,
            result_count: Some(self.stats.result_count),
            batch_count: Some(self.stats.batch_count),
            error: None,
        })
    }

    /// Says what to post when no more results come.
    pub fn flush(&mut self) -> (r: Option<SearchPost>)
        requires
            old(self).wf(),
            old(self).seen <= u32::MAX,
        ensures
            final(self).wf(),
            final(self).job_id == old(self).job_id,
            final(self).indexer_id == old(self).indexer_id,
            final(self).seen == old(self).seen,
            final(self).files@.len() == 0,
            r is Some <==> old(self).files@.len() > 0,
            match r {
                Some(post) => {
                    &&& final(self).stats == counted(old(self).stats, old(self).files@.len())
                    &&& post.batch.files@ == old(self).files@
                    &&& final(self).posts(post)
                },
                None => final(self).stats == old(self).stats,
            },
    {
        let mut files: Vec<FileRecord> = Vec::new();
        core::mem::swap(&mut files, &mut self.files);
        post_search_batch(self.job_id, self.indexer_id, Protocol::Kad2, files, &mut self.stats)
    }

    /// Whether a record stands in for the results: none came, the search was not cancelled, and
    /// stand-ins are wanted.
    pub fn wants_mock(&self, cancelled: bool, enable_mock_results: bool) -> (r: bool)
        ensures
            r == (self.seen == 0 && !cancelled && enable_mock_results),
    {
        self.seen == 0 && !cancelled && enable_mock_results
    }

    /// Posts the stand-in of a search that found nothing.
    pub fn post_mock(&mut self, query: &str, bind_addr: String) -> (r: Option<SearchPost>)
        requires
            old(self).wf(),
            old(self).seen == 0,
        ensures
            final(self).job_id == old(self).job_id,
            final(self).indexer_id == old(self).indexer_id,
            final(self).seen == 0,
            final(self).files == old(self).files,
            final(self).stats == (SearchRunStats { result_count: 1, batch_count: 1 }),
            r matches Some(post) && final(self).posts(post) && types::records(post.batch.files@) == seq![
                mock_record(query@, bind_addr@),
            ],
    {
        let mut files: Vec<FileRecord> = Vec::new();
        files.push(mock_file_record(query, bind_addr));
        assert(types::records(files@) =~= seq![mock_record(query@, bind_addr@)]);
        post_search_batch(self.job_id, self.indexer_id, Protocol::Kad2, files, &mut self.stats)
    }
}

/// Once a search has been flushed, as many results have been reported as have come in.
pub proof fn law_flushed_search_reports_all(run: ActiveSearchRun)
    requires
        run.wf(),
        run.files@.len() == 0,
    ensures
        run.stats.result_count == run.seen,
{
}

/// The record of a Kad keyword result is about the file of the result: it spells the result's hash
/// and carries its size, its names in their order, one entry for each of its tags, and one source,
/// which is the address that the result came in on and gives the number of sources.
pub proof fn law_keyword_record_is_of_its_result(bind_addr: &str, result: &SearchResult, r: FileRecord)
    requires
        call_ensures(map_search_result_for, (bind_addr, result), r),
    ensures
        r.size == result.size,
        r.hashes@.len() == 1 && text::hex_bytes(r.hashes@[0]@) == result.hash.0@,
        r.names@.len() == result.names@.len(),
        forall|i: int| 0 <= i < result.names@.len() ==> (#[trigger] r.names@[i])@ == result.names@[i]@,
        r.tags@.len() == result.tags@.len(),
        forall|i: int| 0 <= i < result.tags@.len() ==> (#[trigger] r.tags@[i])@ == tag_entry(result.tags@[i]@),
        r.sources@.len() == 1 && r.sources@[0].protocol == Protocol::Kad2,
        r.sources@[0].address@ == bind_addr@,
        result.source_count matches Some(count) ==> types::says(
            r.sources@[0].extra,
            "source_count"@,
            JsonScalarView::Number(count as nat),
        ),
        result.source_count is None ==> types::says(
            r.sources@[0].extra,
            "source_count"@,
            JsonScalarView::Null,
        ),
        types::says(r.sources@[0].extra, "search_mode"@, JsonScalarView::Text("network"@)),
{
    reveal_strlit("search_mode");
    reveal_strlit("source_count");
    types::lemma_record_view(r);
    ids::law_hex_round_trip(result.hash.0@);
    assert forall|i: int| 0 <= i < result.names@.len() implies (#[trigger] r.names@[i])@ == result.names@[i]@ by {
        assert(r@.names[i] == types::texts(result.names@)[i]);
    }
    assert(r.sources@[0]@ == r@.sources[0]);
    assert("search_mode"@.len() != "source_count"@.len());
    assert(r.sources@[0].extra@ == keyword_record(bind_addr@, *result).sources[0].extra);
    assert(r.sources@[0].extra@->Object_0.len() == 2);
    assert(r.sources@[0].extra@->Object_0[0].name != r.sources@[0].extra@->Object_0[1].name);
    types::lemma_says(r.sources@[0].extra, 0);
    types::lemma_says(r.sources@[0].extra, 1);
}

/// A job is searched for exactly the query that it gives, and for none where it gives none or a
/// blank one.
pub proof fn law_search_query(job: &SearchJob, r: Result<&str, SearchJobError>)
    requires
        call_ensures(search_query, (job,), r),
    ensures
        r matches Ok(query) ==> job.query matches Some(given) && query@ == given@,
        r is Ok <==> (job.query matches Some(given) && exists|i: int|
            0 <= i < given@.len() && !text::char_is_whitespace(#[trigger] given@[i])),
        r matches Err(error) ==> error == SearchJobError::MissingQuery,
{
    if let Some(given) = job.query {
        text::law_blank(given@);
    }
}

/// A job that gives the text of a hash is about that hash.
pub proof fn law_search_file_hash(job: &SearchJob, hash: Ed2kHash, r: Result<Ed2kHash, SearchJobError>)
    requires
        call_ensures(search_file_hash, (job,), r),
        job.file_hash matches Some(given) && given@ == text::hex_text(hash.0@),
    ensures
        r == Ok::<Ed2kHash, SearchJobError>(hash),
{
    ids::law_hex_round_trip(hash.0@);
    assert(r is Ok);
    assert(r->Ok_0.0@ =~= hash.0@);
    assert(r->Ok_0.0 =~= hash.0);
}

/// A job is about the size that it gives, where that is not zero.
pub proof fn law_search_file_size(job: &SearchJob, r: Result<u64, SearchJobError>)
    requires
        call_ensures(search_file_size, (job,), r),
    ensures
        r matches Ok(size) ==> size > 0 && job.file_size == Some(size),
        r matches Err(error) ==> error == SearchJobError::MissingSize && (job.file_size is None || job.file_size
            == Some(0u64)),
{
}

/// A job that cannot be run says what it lacks; no two reasons read the same.
pub proof fn law_job_errors_told_apart(error: &SearchJobError, r: String)
    requires
        call_ensures(SearchJobError::message, (error,), r),
    ensures
        error matches SearchJobError::InvalidHash { value } ==> r@ == "invalid Ed2k hash "@ + value@,
        error is MissingQuery ==> r@ == "search job is missing query text"@,
        error is MissingHash ==> r@ == "search job is missing ed2k file hash"@,
        error is MissingSize ==> r@ == "search job is missing file size"@,
{
}

/// An event is about its job and agent, and gives the counts as they stand.
pub proof fn law_event_gives_counts(
    job_id: Uuid,
    indexer_id: Uuid,
    status: SearchEventStatus,
    stats: &SearchRunStats,
    error: Option<String>,
    r: SearchEvent,
)
    requires
        call_ensures(search_event, (job_id, indexer_id, status, stats, error), r),
    ensures
        r.job_id == job_id && r.indexer_id == indexer_id && r.status == status && r.error == error,
        r.result_count == Some(stats.result_count) && r.batch_count == Some(stats.batch_count),
{
}

/// A batch carries all the records that are handed in, in their order, and is announced with the
/// counts that include it: as many more results as there are records, and one more batch. An empty
/// list changes nothing.
pub proof fn law_batch_carries_its_records(
    job_id: Uuid,
    indexer_id: Uuid,
    protocol: Protocol,
    files: Vec<FileRecord>,
    stats: &mut SearchRunStats,
    r: Option<SearchPost>,
)
    requires
        call_ensures(post_search_batch, (job_id, indexer_id, protocol, files, stats), r),
        old(stats).result_count + files@.len() <= u32::MAX,
        old(stats).batch_count < u32::MAX,
    ensures
        files@.len() == 0 ==> r is None && *final(stats) == *old(stats),
        files@.len() > 0 ==> {
            &&& r matches Some(post)
            &&& post.batch.files@ == files@
            &&& post.batch.job_id == Some(job_id) && post.event.job_id == job_id
            &&& post.batch.indexer_id == indexer_id && post.event.indexer_id == indexer_id
            &&& post.batch.protocol == protocol && post.batch.harvest_context is None
            &&& final(stats).result_count == old(stats).result_count + files@.len()
            &&& final(stats).batch_count == old(stats).batch_count + 1
            &&& post.event.result_count == Some(final(stats).result_count)
            &&& post.event.batch_count == Some(final(stats).batch_count)
            &&& post.event.status == SearchEventStatus::BatchReceived && post.event.error is None
        },
{
}

/// The record of a Kad source result is about the file of the result, has the size that was asked
/// for, and names one source: the peer at its address and TCP port, with its UDP port.
pub proof fn law_source_record_is_of_its_result(result: &SourceResult, file_size: u64, r: FileRecord)
    requires
        call_ensures(map_source_result, (result, file_size), r),
    ensures
        r.hashes@.len() == 1 && text::hex_bytes(r.hashes@[0]@) == result.file_hash.0@,
        r.size == Some(file_size),
        r.names@.len() == 0 && r.tags@.len() == 0 && r.content_type is None,
        r.sources@.len() == 1 && r.sources@[0].protocol == Protocol::Kad2,
        r.sources@[0].address@ == result.ip.text() + seq![':'] + text::decimal(result.tcp_port as nat),
        types::says(r.sources@[0].extra, "udp_port"@, JsonScalarView::Number(result.udp_port as nat)),
        types::says(r.sources@[0].extra, "search_mode"@, JsonScalarView::Text("source"@)),
{
    reveal_strlit("udp_port");
    reveal_strlit("search_mode");
    assert("search_mode"@.len() != "udp_port"@.len());
    types::lemma_record_view(r);
    ids::law_hex_round_trip(result.file_hash.0@);
    assert(r.sources@[0]@ == r@.sources[0]);
    let said = r.sources@[0].extra@->Object_0;
    assert(said.len() == 2 && said[0].name != said[1].name);
    types::lemma_says(r.sources@[0].extra, 0);
    types::lemma_says(r.sources@[0].extra, 1);
}

/// The record of a note is about the file of the note, and its one tag says who wrote it, how it is
/// rated and what it says, each as the result gives it.
pub proof fn law_note_record_is_of_its_result(result: &NoteResult, file_size: u64, r: FileRecord)
    requires
        call_ensures(map_note_result, (result, file_size), r),
    ensures
        r.hashes@.len() == 1 && text::hex_bytes(r.hashes@[0]@) == result.file_hash.0@,
        r.size == Some(file_size),
        r.names@.len() == 0 && r.sources@.len() == 0 && r.content_type is None,
        r.tags@.len() == 1 && r.tags@[0].key@ == "kad_note"@,
        types::says(
            r.tags@[0].value,
            "source_id"@,
            JsonScalarView::Text(text::hex_text(result.source_id.0@)),
        ),
        result.rating matches Some(rating) ==> types::says(
            r.tags@[0].value,
            "rating"@,
            JsonScalarView::Number(rating as nat),
        ),
        result.rating is None ==> types::says(r.tags@[0].value, "rating"@, JsonScalarView::Null),
        result.comment matches Some(comment) ==> types::says(
            r.tags@[0].value,
            "comment"@,
            JsonScalarView::Text(comment@),
        ),
        result.comment is None ==> types::says(r.tags@[0].value, "comment"@, JsonScalarView::Null),
{
    reveal_strlit("source_id");
    reveal_strlit("rating");
    reveal_strlit("comment");
    types::lemma_record_view(r);
    ids::law_hex_round_trip(result.file_hash.0@);
    assert(r.tags@[0]@ == r@.tags[0]);
    let said = r.tags@[0].value@->Object_0;
    assert(said.len() == 3);
    assert("source_id"@.len() == 9 && "rating"@.len() == 6 && "comment"@.len() == 7);
    assert(said[0].name.len() == 9 && said[1].name.len() == 6 && said[2].name.len() == 7);
    types::lemma_says(r.tags@[0].value, 0);
    types::lemma_says(r.tags@[0].value, 1);
    types::lemma_says(r.tags@[0].value, 2);
}

/// The kind of a file goes by the end of its name in lowercase, whatever comes before it.
pub proof fn law_content_type_by_extension(name: String, stem: Seq<char>, r: Option<ContentType>)
    requires
        call_ensures(guess_content_type, (Some(&name),), r),
    ensures
        text::lowercase(name@) == stem + ".mkv"@ || text::lowercase(name@) == stem + ".mp4"@
            || text::lowercase(name@) == stem + ".avi"@ || text::lowercase(name@) == stem + ".mov"@ ==> r
            == Some(ContentType::Video),
        text::lowercase(name@) == stem + ".mp3"@ || text::lowercase(name@) == stem + ".flac"@
            || text::lowercase(name@) == stem + ".wav"@ || text::lowercase(name@) == stem + ".ogg"@ ==> r
            == Some(ContentType::Audio),
        text::lowercase(name@) == stem + ".pdf"@ || text::lowercase(name@) == stem + ".epub"@
            || text::lowercase(name@) == stem + ".txt"@ || text::lowercase(name@) == stem + ".doc"@
            || text::lowercase(name@) == stem + ".docx"@ ==> r == Some(ContentType::Document),
        text::lowercase(name@) == stem + ".zip"@ || text::lowercase(name@) == stem + ".rar"@
            || text::lowercase(name@) == stem + ".7z"@ || text::lowercase(name@) == stem + ".tar"@ ==> r
            == Some(ContentType::Archive),
        text::lowercase(name@) == stem + ".exe"@ || text::lowercase(name@) == stem + ".msi"@
            || text::lowercase(name@) == stem + ".iso"@ ==> r == Some(ContentType::Software),
{
    reveal_strlit(".mkv");
    reveal_strlit(".mp4");
    reveal_strlit(".avi");
    reveal_strlit(".mov");
    reveal_strlit(".mp3");
    reveal_strlit(".flac");
    reveal_strlit(".wav");
    reveal_strlit(".ogg");
    reveal_strlit(".pdf");
    reveal_strlit(".epub");
    reveal_strlit(".txt");
    reveal_strlit(".doc");
    reveal_strlit(".docx");
    reveal_strlit(".zip");
    reveal_strlit(".rar");
    reveal_strlit(".7z");
    reveal_strlit(".tar");
    reveal_strlit(".exe");
    reveal_strlit(".msi");
    reveal_strlit(".iso");
    lemma_suffix(stem, ".mkv"@);
    lemma_suffix(stem, ".mp4"@);
    lemma_suffix(stem, ".avi"@);
    lemma_suffix(stem, ".mov"@);
    lemma_suffix(stem, ".mp3"@);
    lemma_suffix(stem, ".flac"@);
    lemma_suffix(stem, ".wav"@);
    lemma_suffix(stem, ".ogg"@);
    lemma_suffix(stem, ".pdf"@);
    lemma_suffix(stem, ".epub"@);
    lemma_suffix(stem, ".txt"@);
    lemma_suffix(stem, ".doc"@);
    lemma_suffix(stem, ".docx"@);
    lemma_suffix(stem, ".zip"@);
    lemma_suffix(stem, ".rar"@);
    lemma_suffix(stem, ".7z"@);
    lemma_suffix(stem, ".tar"@);
    lemma_suffix(stem, ".exe"@);
    lemma_suffix(stem, ".msi"@);
    lemma_suffix(stem, ".iso"@);
}

proof fn lemma_suffix(stem: Seq<char>, suffix: Seq<char>)
    ensures
        suffix.is_suffix_of(stem + suffix),
        forall|other: Seq<char>| #[trigger]
            other.is_suffix_of(stem + suffix) && other.len() > 0 && suffix.len() > 0 ==> other.last() == suffix.last()
                && (other.len() > 1 && suffix.len() > 1 ==> other[other.len() - 2] == suffix[suffix.len() - 2]) && (
            other.len() > 2 && suffix.len() > 2 ==> other[other.len() - 3] == suffix[suffix.len() - 3]),
{
    let s = stem + suffix;
    assert(s.subrange(s.len() - suffix.len(), s.len() as int) =~= suffix);
    assert forall|other: Seq<char>| #[trigger]
        other.is_suffix_of(s) && other.len() > 0 && suffix.len() > 0 implies other.last() == suffix.last() && (
    other.len() > 1 && suffix.len() > 1 ==> other[other.len() - 2] == suffix[suffix.len() - 2]) && (other.len()
        > 2 && suffix.len() > 2 ==> other[other.len() - 3] == suffix[suffix.len() - 3]) by {
        let tail = s.subrange(s.len() - other.len(), s.len() as int);
        assert(tail[other.len() - 1] == s[s.len() - 1]);
        if other.len() > 1 && suffix.len() > 1 {
            assert(tail[other.len() - 2] == s[s.len() - 2]);
        }
        if other.len() > 2 && suffix.len() > 2 {
            assert(tail[other.len() - 3] == s[s.len() - 3]);
        }
    }
}

/// The entry of a tag is named after it and says its value: numbers as numbers, texts as texts, and
/// bytes in hexadecimal digits that spell them.
pub proof fn law_tag_entry_says_the_tag(tag: &Tag, r: TagEntry)
    requires
        call_ensures(tag_to_entry, (tag,), r),
    ensures
        tag.name matches TagName::Long(name) ==> r.key@ == name@,
        tag.name matches TagName::Short(name) ==> r.key@.take(4) == "tag_"@ && text::hex_bytes(r.key@.skip(4)) == seq![
            name,
        ],
        tag.value matches TagValue::UInt(n) ==> r.value == JsonValue::Scalar(JsonScalar::Number(n)),
        tag.value matches TagValue::U64(n) ==> r.value == JsonValue::Scalar(JsonScalar::Number(n)),
        tag.value matches TagValue::U32(n) ==> r.value == JsonValue::Scalar(JsonScalar::Number(n as u64)),
        tag.value matches TagValue::U16(n) ==> r.value == JsonValue::Scalar(JsonScalar::Number(n as u64)),
        tag.value matches TagValue::U8(n) ==> r.value == JsonValue::Scalar(JsonScalar::Number(n as u64)),
        tag.value matches TagValue::Bool(b) ==> r.value == JsonValue::Scalar(JsonScalar::Bool(b)),
        tag.value matches TagValue::FloatBits(n) ==> r.value == JsonValue::Scalar(JsonScalar::FloatBits(n)),
        tag.value matches TagValue::String(t) ==> (r.value matches JsonValue::Scalar(JsonScalar::Text(said))
            && said@ == t@),
        tag.value matches TagValue::Hash(h) ==> (r.value matches JsonValue::Scalar(JsonScalar::Text(said))
            && text::hex_bytes(said@) == h.0@),
        tag.value matches TagValue::Blob(b) ==> (r.value matches JsonValue::Scalar(JsonScalar::Text(said))
            && text::hex_bytes(said@) == b@),
        tag.value matches TagValue::SmallBlob(b) ==> (r.value matches JsonValue::Scalar(JsonScalar::Text(said))
            && text::hex_bytes(said@) == b@),
{
    reveal_strlit("tag_");
    if let TagName::Short(name) = tag.name {
        assert(r.key@.take(4) =~= "tag_"@);
        assert(r.key@.skip(4) =~= text::hex_text(seq![name]));
        ids::law_hex_round_trip(seq![name]);
    }
    match tag.value {
        TagValue::Hash(h) => {
            ids::law_hex_round_trip(h.0@);
        },
        TagValue::Blob(b) => {
            ids::law_hex_round_trip(b@);
        },
        TagValue::SmallBlob(b) => {
            ids::law_hex_round_trip(b@);
        },
        _ => {},
    }
}

/// The stand-in of a search that found nothing is hashed from the query, is named after it, and has
/// the agent as its one source; it says that it is a stand-in.
pub proof fn law_stand_in_is_of_its_query(
    query: &str,
    bind_addr: String,
    r: FileRecord,
    target: ids::NodeId,
)
    requires
        call_ensures(mock_file_record, (query, bind_addr), r),
        call_ensures(keyword_target, (query,), target),
    ensures
        r.hashes@.len() == 1 && text::hex_bytes(r.hashes@[0]@) == ids::chunk_order(target.0@),
        r.names@.len() == 1,
        r.names@[0]@ == text::lowercase(text::replaced(text::trimmed(query@), ' ', '_')) + ".bin"@,
        r.size == Some(1_048_576u64),
        r.content_type == Some(ContentType::Unknown),
        r.sources@.len() == 1 && r.sources@[0].protocol == Protocol::Kad2,
        r.sources@[0].address@ == bind_addr@,
        types::says(r.sources@[0].extra, "search_mode"@, JsonScalarView::Text("mock"@)),
        r.tags@.len() == 1 && r.tags@[0].key@ == "origin"@,
        r.tags@[0].value matches JsonValue::Scalar(JsonScalar::Text(said)) && said@ == "mock_fallback"@,
{
    types::lemma_record_view(r);
    ids::law_hex_round_trip(ids::chunk_order(target.0@));
    assert(r.sources@[0]@ == r@.sources[0]);
    assert(r.tags@[0]@ == r@.tags[0]);
    assert(r.tags@[0].value@ == JsonView::Scalar(JsonScalarView::Text("mock_fallback"@)));
    types::lemma_says(r.sources@[0].extra, 0);
}

/// A result that comes in is neither lost nor repeated nor moved: what is posted, followed by what
/// waits, is what waited before, followed by it. Full batches alone are posted.
pub proof fn law_results_are_posted_in_order(run: &mut ActiveSearchRun, record: FileRecord, r: Option<SearchPost>)
    requires
        call_ensures(ActiveSearchRun::accept, (run, record), r),
        old(run).wf(),
        old(run).seen < u32::MAX,
    ensures
        match r {
            Some(post) => post.batch.files@ + final(run).files@ == old(run).files@.push(record)
                && post.batch.files@.len() == ACTIVE_BATCH_SIZE && post.batch.job_id == Some(old(run).job_id)
                && post.batch.indexer_id == old(run).indexer_id && post.event.job_id == old(run).job_id
                && post.event.result_count == Some((old(run).seen + 1) as u32) && post.batch.protocol
                == Protocol::Kad2 && post.batch.harvest_context is None && post.event.status
                == SearchEventStatus::BatchReceived && post.event.error is None && post.event.indexer_id
                == old(run).indexer_id,
            None => final(run).files@ == old(run).files@.push(record) && final(run).files@.len()
                < ACTIVE_BATCH_SIZE,
        },
        ACTIVE_BATCH_SIZE == 25,
{
    if let Some(post) = r {
        assert(post.batch.files@ + final(run).files@ =~= old(run).files@.push(record));
    }
}

/// At the end of a search everything that still waits is posted, and nothing waits any more.
pub proof fn law_flush_posts_the_rest(run: &mut ActiveSearchRun, r: Option<SearchPost>)
    requires
        call_ensures(ActiveSearchRun::flush, (run,), r),
        old(run).wf(),
        old(run).seen <= u32::MAX,
    ensures
        final(run).files@.len() == 0,
        match r {
            Some(post) => post.batch.files@ == old(run).files@ && post.event.result_count == Some(
                old(run).seen as u32,
            ) && post.batch.job_id == Some(old(run).job_id) && post.batch.indexer_id == old(run).indexer_id
                && post.batch.protocol == Protocol::Kad2 && post.batch.harvest_context is None,
            None => old(run).files@.len() == 0,
        },
{
}

/// A stand-in is posted only for a search that found nothing and was not cancelled, where it is
/// wanted.
pub proof fn law_stand_in_only_for_nothing(run: &ActiveSearchRun, cancelled: bool, enabled: bool, r: bool)
    requires
        call_ensures(ActiveSearchRun::wants_mock, (run, cancelled, enabled), r),
    ensures
        r ==> run.seen == 0 && !cancelled && enabled,
        run.seen == 0 && !cancelled && enabled ==> r,
{
}

/// A search starts with nothing seen, posted or waiting.
pub proof fn law_search_begins(job_id: Uuid, indexer_id: Uuid, r: ActiveSearchRun)
    requires
        call_ensures(ActiveSearchRun::new, (job_id, indexer_id), r),
    ensures
        r.job_id == job_id && r.indexer_id == indexer_id,
        r.files@.len() == 0 && r.seen == 0,
        r.stats.result_count == 0 && r.stats.batch_count == 0,
{
}

/// A stand-in is posted alone, for the search's own job, and is counted as one result in one batch.
pub proof fn law_stand_in_is_posted(run: &mut ActiveSearchRun, query: &str, bind_addr: String, r: Option<SearchPost>, record: FileRecord)
    requires
        old(run).wf(),
        old(run).seen == 0,
        call_ensures(ActiveSearchRun::post_mock, (run, query, bind_addr), r),
        call_ensures(mock_file_record, (query, bind_addr), record),
    ensures
        final(run).stats.result_count == 1 && final(run).stats.batch_count == 1,
        r matches Some(post) && {
            &&& post.batch.job_id == Some(old(run).job_id)
            &&& post.batch.indexer_id == old(run).indexer_id
            &&& post.batch.files@.len() == 1
            &&& post.batch.files@[0]@ == record@
            &&& post.event.job_id == old(run).job_id
            &&& post.event.status is BatchReceived
            &&& post.event.result_count == Some(1u32)
            &&& post.event.batch_count == Some(1u32)
        },
{
    if let Some(post) = r {
        let views = types::records(post.batch.files@);
        assert(views.len() == post.batch.files@.len());
        assert(views[0] == post.batch.files@[0]@);
    }
}

} // verus!
