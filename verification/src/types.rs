//! Records exchanged with the coordinator, and the telemetry that the agent keeps.

use vstd::prelude::*;
use vstd::string::*;
use crate::ids::{Timestamp, Uuid};

verus! {

broadcast use vstd::string::group_string_axioms;

/// The text of an optional string.
pub open spec fn opt_text(value: Option<String>) -> Option<Seq<char>> {
    match value {
        Some(text) => Some(text@),
        None => None,
    }
}

/// The texts of a list of strings.
pub open spec fn texts(values: Seq<String>) -> Seq<Seq<char>> {
    Seq::new(values.len(), |i: int| values[i]@)
}

/// A copy of an optional string.
pub fn clone_text(value: &Option<String>) -> (r: Option<String>)
    ensures
        r == *value,
{
    match value {
        Some(text) => Some(text.clone()),
        None => None,
    }
}

/// A copy of a list of strings.
pub fn clone_texts(values: &Vec<String>) -> (r: Vec<String>)
    ensures
        r@ == values@,
{
    let mut r: Vec<String> = Vec::new();
    let mut i: usize = 0;
    while i < values.len()
        invariant
            i <= values.len(),
            r@ == values@.take(i as int),
        decreases values.len() - i,
    {
        r.push(values[i].clone());
        i = i + 1;
    }
    assert(values@.take(i as int) =~= values@);
    r
}

#[derive(Debug, Clone, Copy, PartialEq, Eq, Structural)]
pub enum Protocol {
    Kad2,
    Ed2k,
}

#[derive(Debug, PartialEq, Eq)]
pub enum HashType {
    Ed2k(String),
}

impl View for HashType {
    type V = Seq<char>;

    open spec fn view(&self) -> Seq<char> {
        match self {
            HashType::Ed2k(text) => text@,
        }
    }
}

impl Clone for HashType {
    fn clone(&self) -> (r: HashType)
        ensures
            r == *self,
    {
        match self {
            HashType::Ed2k(text) => HashType::Ed2k(text.clone()),
        }
    }
}

#[derive(Debug, Clone, Copy, PartialEq, Eq, Structural)]
pub enum ContentType {
    Video,
    Audio,
    Document,
    Archive,
    Software,
    Unknown,
}

/// A JSON value that is neither an array nor an object. A floating-point number is carried as
/// the bits of its single-precision form.
#[derive(Debug, PartialEq, Eq)]
pub enum JsonScalar {
    Null,
    Bool(bool),
    Number(u64),
    FloatBits(u32),
    Text(String),
}

/// What a [`JsonScalar`] stands for.
pub enum JsonScalarView {
    Null,
    Bool(bool),
    Number(nat),
    FloatBits(u32),
    Text(Seq<char>),
}

impl View for JsonScalar {
    type V = JsonScalarView;

    open spec fn view(&self) -> JsonScalarView {
        match self {
            JsonScalar::Null => JsonScalarView::Null,
            JsonScalar::Bool(value) => JsonScalarView::Bool(*value),
            JsonScalar::Number(value) => JsonScalarView::Number(*value as nat),
            JsonScalar::FloatBits(value) => JsonScalarView::FloatBits(*value),
            JsonScalar::Text(value) => JsonScalarView::Text(value@),
        }
    }
}

/// `null`, or the number.
pub open spec fn number_or_null(value: Option<u64>) -> JsonScalarView {
    match value {
        Some(n) => JsonScalarView::Number(n as nat),
        None => JsonScalarView::Null,
    }
}

/// `null`, or the text.
pub open spec fn text_or_null(value: Option<Seq<char>>) -> JsonScalarView {
    match value {
        Some(t) => JsonScalarView::Text(t),
        None => JsonScalarView::Null,
    }
}

impl JsonScalar {
    pub fn number_or_null(value: Option<u64>) -> (r: JsonScalar)
        ensures
            r@ == number_or_null(value),
    {
        match value {
            Some(n) => JsonScalar::Number(n),
            None => JsonScalar::Null,
        }
    }

    pub fn text_or_null(value: Option<String>) -> (r: JsonScalar)
        ensures
            r@ == text_or_null(opt_text(value)),
    {
        match value {
            Some(t) => JsonScalar::Text(t),
            None => JsonScalar::Null,
        }
    }
}

/// One member of a JSON object.
#[derive(Debug, PartialEq, Eq)]
pub struct JsonField {
    pub name: String,
    pub value: JsonScalar,
}

/// What a [`JsonField`] stands for.
pub struct JsonFieldView {
    pub name: Seq<char>,
    pub value: JsonScalarView,
}

impl View for JsonField {
    type V = JsonFieldView;

    open spec fn view(&self) -> JsonFieldView {
        JsonFieldView { name: self.name@, value: self.value@ }
    }
}

impl JsonField {
    pub fn new(name: &str, value: JsonScalar) -> (r: JsonField)
        ensures
            r@ == (JsonFieldView { name: name@, value: value@ }),
    {
        JsonField { name: name.to_owned(), value }
    }
}

/// The members of a JSON object, in the order in which they are written.
pub open spec fn fields(values: Seq<JsonField>) -> Seq<JsonFieldView> {
    Seq::new(values.len(), |i: int| values[i]@)
}

/// A JSON value: a scalar, or an object of scalars.
#[derive(Debug, PartialEq, Eq)]
pub enum JsonValue {
    Scalar(JsonScalar),
    Object(Vec<JsonField>),
}

/// What a [`JsonValue`] stands for.
pub enum JsonView {
    Scalar(JsonScalarView),
    Object(Seq<JsonFieldView>),
}

impl View for JsonValue {
    type V = JsonView;

    open spec fn view(&self) -> JsonView {
        match self {
            JsonValue::Scalar(value) => JsonView::Scalar(value@),
            JsonValue::Object(values) => JsonView::Object(fields(values@)),
        }
    }
}

#[derive(Debug, PartialEq, Eq)]
pub struct TagEntry {
    pub key: String,
    pub value: JsonValue,
}

/// What a [`TagEntry`] stands for.
pub struct TagEntryView {
    pub key: Seq<char>,
    pub value: JsonView,
}

impl View for TagEntry {
    type V = TagEntryView;

    open spec fn view(&self) -> TagEntryView {
        TagEntryView { key: self.key@, value: self.value@ }
    }
}

#[derive(Debug, PartialEq, Eq)]
pub struct Source {
    pub protocol: Protocol,
    pub address: String,
    pub extra: JsonValue,
}

/// What a [`Source`] stands for.
pub struct SourceView {
    pub protocol: Protocol,
    pub address: Seq<char>,
    pub extra: JsonView,
}

impl View for Source {
    type V = SourceView;

    open spec fn view(&self) -> SourceView {
        SourceView { protocol: self.protocol, address: self.address@, extra: self.extra@ }
    }
}

#[derive(Debug, PartialEq, Eq)]
pub struct FileRecord {
    pub hashes: Vec<HashType>,
    pub names: Vec<String>,
    pub size: Option<u64>,
    pub content_type: Option<ContentType>,
    pub tags: Vec<TagEntry>,
    pub sources: Vec<Source>,
}

/// What a [`FileRecord`] stands for.
#[verifier::ext_equal]
pub struct FileRecordView {
    pub hashes: Seq<Seq<char>>,
    pub names: Seq<Seq<char>>,
    pub size: Option<u64>,
    pub content_type: Option<ContentType>,
    pub tags: Seq<TagEntryView>,
    pub sources: Seq<SourceView>,
}

impl View for FileRecord {
    type V = FileRecordView;

    open spec fn view(&self) -> FileRecordView {
        FileRecordView {
            hashes: Seq::new(self.hashes@.len(), |i: int| self.hashes@[i]@),
            names: texts(self.names@),
            size: self.size,
            content_type: self.content_type,
            tags: Seq::new(self.tags@.len(), |i: int| self.tags@[i]@),
            sources: Seq::new(self.sources@.len(), |i: int| self.sources@[i]@),
        }
    }
}

/// What a list of records stands for.
pub open spec fn records(files: Seq<FileRecord>) -> Seq<FileRecordView> {
    Seq::new(files.len(), |i: int| files[i]@)
}

#[derive(Debug, Clone, Copy, PartialEq, Eq, Structural)]
pub enum SearchKind {
    Keyword,
    Source,
    Notes,
}

#[derive(Debug, PartialEq, Eq)]
pub struct SearchJob {
    pub job_id: Uuid,
    pub protocol: Protocol,
    pub kind: SearchKind,
    pub query: Option<String>,
    pub file_hash: Option<HashType>,
    pub file_size: Option<u64>,
    pub callback_url: String,
}

#[derive(Debug, Clone, Copy, PartialEq, Eq, Structural)]
pub enum SearchEventStatus {
    Started,
    BatchReceived,
    Completed,
    Failed,
    Cancelled,
}

#[derive(Debug, PartialEq, Eq)]
pub struct SearchEvent {
    pub job_id: Uuid,
    pub indexer_id: Uuid,
    pub status: SearchEventStatus,
    pub result_count: Option<u32>,
    pub batch_count: Option<u32>,
    pub error: Option<String>,
}

#[derive(Debug, Clone, Copy, PartialEq, Eq, Structural)]
pub struct SearchCancelRequest {
    pub job_id: Uuid,
}

#[derive(Debug, PartialEq, Eq)]
pub struct ResultBatch {
    pub job_id: Option<Uuid>,
    pub indexer_id: Uuid,
    pub protocol: Protocol,
    /// Optional metadata that links a passive replay batch back to the harvested Kad shape that
    /// produced it.
    pub harvest_context: Option<HarvestReplayContext>,
    pub files: Vec<FileRecord>,
}

/// High-level current activity state for the running agent process.
#[derive(Debug, Clone, Copy, PartialEq, Eq, Hash, Structural)]
pub enum AgentActivityState {
    Starting,
    Bootstrapping,
    Idle,
    Downloading,
    ActiveSearch,
    PassiveHarvestReplay,
    Publishing,
    FlushingSnoops,
    Reconfiguring,
    Degraded,
}

/// Snapshot of the single operator-facing activity the agent is currently prioritizing.
#[derive(Debug, PartialEq, Eq)]
pub struct AgentActivitySnapshot {
    pub state: AgentActivityState,
    pub since: Timestamp,
    pub job_id: Option<Uuid>,
    pub protocol: Option<Protocol>,
    pub kind: Option<SearchKind>,
    pub query_or_target: Option<String>,
    pub progress_current: Option<u32>,
    pub progress_total: Option<u32>,
    pub last_update_at: Timestamp,
    pub last_error: Option<String>,
}

impl Clone for AgentActivitySnapshot {
    fn clone(&self) -> (r: AgentActivitySnapshot)
        ensures
            r == *self,
    {
        AgentActivitySnapshot {
            state: self.state,
            since: self.since,
            job_id: self.job_id,
            protocol: self.protocol,
            kind: self.kind,
            query_or_target: clone_text(&self.query_or_target),
            progress_current: self.progress_current,
            progress_total: self.progress_total,
            last_update_at: self.last_update_at,
            last_error: clone_text(&self.last_error),
        }
    }
}

#[derive(Debug, Clone, Copy, PartialEq, Eq, Structural)]
pub enum PublishSeedSource {
    Coordinator,
    SyntheticFallback,
    ManualApi,
}

impl PublishSeedSource {
    /// The label's text.
    pub open spec fn label_text(self) -> Seq<char> {
        match self {
            PublishSeedSource::Coordinator => "coordinator"@,
            PublishSeedSource::SyntheticFallback => "synthetic_fallback"@,
            PublishSeedSource::ManualApi => "manual_api"@,
        }
    }

    #[must_use]
    pub fn label(self) -> (r: &'static str)
        ensures
            r@ == self.label_text(),
    {
        match self {
            PublishSeedSource::Coordinator => "coordinator",
            PublishSeedSource::SyntheticFallback => "synthetic_fallback",
            PublishSeedSource::ManualApi => "manual_api",
        }
    }
}

#[derive(Debug, Clone, Copy, PartialEq, Eq, Structural)]
pub struct PublishBatchSummary {
    pub seed_source: PublishSeedSource,
    pub published_items: u32,
    pub closest_contacts_considered: u32,
    pub attempted_contacts: u32,
    pub acked_contacts: u32,
    pub failed_contacts: u32,
    pub timed_out_contacts: u32,
    pub completed_at: Timestamp,
    pub last_success_at: Option<Timestamp>,
}

#[derive(Debug, Clone, Copy, PartialEq, Eq, Structural)]
pub struct PublishCounters {
    pub batches: u64,
    pub published_items: u64,
    pub closest_contacts_considered: u64,
    pub attempted_contacts: u64,
    pub acked_contacts: u64,
    pub failed_contacts: u64,
    pub timed_out_contacts: u64,
    pub last_batch_at: Option<Timestamp>,
    pub last_success_at: Option<Timestamp>,
}

impl PublishCounters {
    /// Counters before any batch.
    pub open spec fn zero() -> PublishCounters {
        PublishCounters {
            batches: 0,
            published_items: 0,
            closest_contacts_considered: 0,
            attempted_contacts: 0,
            acked_contacts: 0,
            failed_contacts: 0,
            timed_out_contacts: 0,
            last_batch_at: None,
            last_success_at: None,
        }
    }
}

impl Default for PublishCounters {
    fn default() -> (r: PublishCounters)
        ensures
            r == PublishCounters::zero(),
    {
        PublishCounters {
            batches: 0,
            published_items: 0,
            closest_contacts_considered: 0,
            attempted_contacts: 0,
            acked_contacts: 0,
            failed_contacts: 0,
            timed_out_contacts: 0,
            last_batch_at: None,
            last_success_at: None,
        }
    }
}

#[derive(Debug, PartialEq, Eq)]
pub struct AgentLogFileStatus {
    pub path: String,
    pub rotation: String,
    pub max_files: usize,
    pub last_write_at: Option<Timestamp>,
}

#[derive(Debug, PartialEq, Eq)]
pub struct KadPublishObservability {
    pub last_seed_source: Option<PublishSeedSource>,
    pub last_seed_at: Option<Timestamp>,
    pub latest_keyword_batch: Option<PublishBatchSummary>,
    pub latest_source_batch: Option<PublishBatchSummary>,
    pub latest_notes_batch: Option<PublishBatchSummary>,
    pub keyword_counters: PublishCounters,
    pub source_counters: PublishCounters,
    pub notes_counters: PublishCounters,
    pub synthetic_drip_interval_secs: Option<u64>,
    pub synthetic_drip_batch_items: Option<u32>,
    pub synthetic_drip_queue_depth: Option<u32>,
    pub log_file: Option<AgentLogFileStatus>,
}

impl Default for KadPublishObservability {
    fn default() -> (r: KadPublishObservability)
        ensures
            r == (KadPublishObservability {
                last_seed_source: None,
                last_seed_at: None,
                latest_keyword_batch: None,
                latest_source_batch: None,
                latest_notes_batch: None,
                keyword_counters: PublishCounters::zero(),
                source_counters: PublishCounters::zero(),
                notes_counters: PublishCounters::zero(),
                synthetic_drip_interval_secs: None,
                synthetic_drip_batch_items: None,
                synthetic_drip_queue_depth: None,
                log_file: None,
            }),
    {
        KadPublishObservability {
            last_seed_source: None,
            last_seed_at: None,
            latest_keyword_batch: None,
            latest_source_batch: None,
            latest_notes_batch: None,
            keyword_counters: PublishCounters::default(),
            source_counters: PublishCounters::default(),
            notes_counters: PublishCounters::default(),
            synthetic_drip_interval_secs: None,
            synthetic_drip_batch_items: None,
            synthetic_drip_queue_depth: None,
            log_file: None,
        }
    }
}

/// Per-family harvested Kad search-request telemetry for the current agent process.
#[derive(Debug, PartialEq, Eq)]
pub struct KadHarvestFamilyObservability {
    pub observed_requests: u64,
    pub unique_shapes_observed: u64,
    pub queued_entries: u32,
    pub last_seen_at: Option<Timestamp>,
    pub last_from: Option<String>,
    pub last_target: Option<String>,
    pub last_start_position: Option<u16>,
    pub last_size: Option<u64>,
    pub last_restrictive_bytes: Option<u32>,
}

impl KadHarvestFamilyObservability {
    /// Telemetry before any request.
    pub open spec fn zero() -> KadHarvestFamilyObservability {
        KadHarvestFamilyObservability {
            observed_requests: 0,
            unique_shapes_observed: 0,
            queued_entries: 0,
            last_seen_at: None,
            last_from: None,
            last_target: None,
            last_start_position: None,
            last_size: None,
            last_restrictive_bytes: None,
        }
    }
}

impl Default for KadHarvestFamilyObservability {
    fn default() -> (r: KadHarvestFamilyObservability)
        ensures
            r == KadHarvestFamilyObservability::zero(),
    {
        KadHarvestFamilyObservability {
            observed_requests: 0,
            unique_shapes_observed: 0,
            queued_entries: 0,
            last_seen_at: None,
            last_from: None,
            last_target: None,
            last_start_position: None,
            last_size: None,
            last_restrictive_bytes: None,
        }
    }
}

impl Clone for KadHarvestFamilyObservability {
    fn clone(&self) -> (r: KadHarvestFamilyObservability)
        ensures
            r == *self,
    {
        KadHarvestFamilyObservability {
            observed_requests: self.observed_requests,
            unique_shapes_observed: self.unique_shapes_observed,
            queued_entries: self.queued_entries,
            last_seen_at: self.last_seen_at,
            last_from: clone_text(&self.last_from),
            last_target: clone_text(&self.last_target),
            last_start_position: self.last_start_position,
            last_size: self.last_size,
            last_restrictive_bytes: self.last_restrictive_bytes,
        }
    }
}

/// One tier of a passive replay.
#[derive(Debug, Clone, Copy, PartialEq, Eq, Structural)]
pub struct KadPassiveReplayTierSummary {
    /// Phase-2 responder ceiling used for this tier.
    pub responder_ceiling: u32,
    /// Unique results added by this tier.
    pub result_count: u32,
}

/// Passive replay telemetry for harvested Kad searches.
#[derive(Debug, PartialEq, Eq)]
pub struct KadPassiveReplayObservability {
    pub started_cycles: u64,
    pub completed_cycles: u64,
    pub idle_cycles: u64,
    pub emitted_results: u64,
    pub widened_cycles: u64,
    pub posted_batches: u64,
    pub post_failures: u64,
    pub enqueue_backpressure_events: u64,
    pub post_callbacks: u64,
    pub enqueue_wait_millis: u64,
    pub post_latency_millis: u64,
    pub last_started_at: Option<Timestamp>,
    pub last_completed_at: Option<Timestamp>,
    pub last_idle_at: Option<Timestamp>,
    pub last_error_at: Option<Timestamp>,
    pub last_target: Option<String>,
    pub last_start_position: Option<u16>,
    pub last_restrictive_bytes: Option<u32>,
    pub last_result_count: u32,
    pub last_batches_posted: u32,
    pub last_enqueue_wait_millis: u32,
    pub last_post_latency_millis: u32,
    pub last_tiers_attempted: u32,
    pub last_widest_responder_ceiling: Option<u32>,
    pub last_widened: bool,
    pub last_tiers: Vec<KadPassiveReplayTierSummary>,
    pub last_error: Option<String>,
}

impl KadPassiveReplayObservability {
    /// Telemetry before any cycle.
    pub open spec fn is_zero(self) -> bool {
        &&& self.last_tiers@ == Seq::<KadPassiveReplayTierSummary>::empty()
        &&& self == (KadPassiveReplayObservability {
            started_cycles: 0,
            completed_cycles: 0,
            idle_cycles: 0,
            emitted_results: 0,
            widened_cycles: 0,
            posted_batches: 0,
            post_failures: 0,
            enqueue_backpressure_events: 0,
            post_callbacks: 0,
            enqueue_wait_millis: 0,
            post_latency_millis: 0,
            last_started_at: None,
            last_completed_at: None,
            last_idle_at: None,
            last_error_at: None,
            last_target: None,
            last_start_position: None,
            last_restrictive_bytes: None,
            last_result_count: 0,
            last_batches_posted: 0,
            last_enqueue_wait_millis: 0,
            last_post_latency_millis: 0,
            last_tiers_attempted: 0,
            last_widest_responder_ceiling: None,
            last_widened: false,
            last_tiers: self.last_tiers,
            last_error: None,
        })
    }
}

impl KadPassiveReplayObservability {
    /// Whether `other` says the same.
    pub open spec fn same(self, other: KadPassiveReplayObservability) -> bool {
        &&& other.last_tiers@ == self.last_tiers@
        &&& other == (KadPassiveReplayObservability { last_tiers: other.last_tiers, ..self })
    }
}

impl Clone for KadPassiveReplayObservability {
    fn clone(&self) -> (r: KadPassiveReplayObservability)
        ensures
            self.same(r),
    {
        let r: KadPassiveReplayObservability = KadPassiveReplayObservability {
            started_cycles: self.started_cycles,
            completed_cycles: self.completed_cycles,
            idle_cycles: self.idle_cycles,
            emitted_results: self.emitted_results,
            widened_cycles: self.widened_cycles,
            posted_batches: self.posted_batches,
            post_failures: self.post_failures,
            enqueue_backpressure_events: self.enqueue_backpressure_events,
            post_callbacks: self.post_callbacks,
            enqueue_wait_millis: self.enqueue_wait_millis,
            post_latency_millis: self.post_latency_millis,
            last_started_at: self.last_started_at,
            last_completed_at: self.last_completed_at,
            last_idle_at: self.last_idle_at,
            last_error_at: self.last_error_at,
            last_target: clone_text(&self.last_target),
            last_start_position: self.last_start_position,
            last_restrictive_bytes: self.last_restrictive_bytes,
            last_result_count: self.last_result_count,
            last_batches_posted: self.last_batches_posted,
            last_enqueue_wait_millis: self.last_enqueue_wait_millis,
            last_post_latency_millis: self.last_post_latency_millis,
            last_tiers_attempted: self.last_tiers_attempted,
            last_widest_responder_ceiling: self.last_widest_responder_ceiling,
            last_widened: self.last_widened,
            last_tiers: self.last_tiers.clone(),
            last_error: clone_text(&self.last_error),
        };
        assert(r.last_tiers@ =~= self.last_tiers@);
        r
    }
}

impl Default for KadPassiveReplayObservability {
    fn default() -> (r: KadPassiveReplayObservability)
        ensures
            r.is_zero(),
    {
        KadPassiveReplayObservability {
            started_cycles: 0,
            completed_cycles: 0,
            idle_cycles: 0,
            emitted_results: 0,
            widened_cycles: 0,
            posted_batches: 0,
            post_failures: 0,
            enqueue_backpressure_events: 0,
            post_callbacks: 0,
            enqueue_wait_millis: 0,
            post_latency_millis: 0,
            last_started_at: None,
            last_completed_at: None,
            last_idle_at: None,
            last_error_at: None,
            last_target: None,
            last_start_position: None,
            last_restrictive_bytes: None,
            last_result_count: 0,
            last_batches_posted: 0,
            last_enqueue_wait_millis: 0,
            last_post_latency_millis: 0,
            last_tiers_attempted: 0,
            last_widest_responder_ceiling: None,
            last_widened: false,
            last_tiers: Vec::new(),
            last_error: None,
        }
    }
}

/// Kad harvest telemetry that complements publish observability during live runs.
#[derive(Debug, PartialEq, Eq)]
pub struct KadHarvestObservability {
    pub keyword_requests: KadHarvestFamilyObservability,
    pub source_requests: KadHarvestFamilyObservability,
    pub notes_requests: KadHarvestFamilyObservability,
    pub passive_keyword_replay: KadPassiveReplayObservability,
    pub passive_source_replay: KadPassiveReplayObservability,
    pub passive_notes_replay: KadPassiveReplayObservability,
}

impl Clone for KadHarvestObservability {
    fn clone(&self) -> (r: KadHarvestObservability)
        ensures
            r.keyword_requests == self.keyword_requests,
            r.source_requests == self.source_requests,
            r.notes_requests == self.notes_requests,
            self.passive_keyword_replay.same(r.passive_keyword_replay),
            self.passive_source_replay.same(r.passive_source_replay),
            self.passive_notes_replay.same(r.passive_notes_replay),
    {
        KadHarvestObservability {
            keyword_requests: self.keyword_requests.clone(),
            source_requests: self.source_requests.clone(),
            notes_requests: self.notes_requests.clone(),
            passive_keyword_replay: self.passive_keyword_replay.clone(),
            passive_source_replay: self.passive_source_replay.clone(),
            passive_notes_replay: self.passive_notes_replay.clone(),
        }
    }
}

impl Default for KadHarvestObservability {
    fn default() -> (r: KadHarvestObservability)
        ensures
            r.keyword_requests == KadHarvestFamilyObservability::zero(),
            r.source_requests == KadHarvestFamilyObservability::zero(),
            r.notes_requests == KadHarvestFamilyObservability::zero(),
            r.passive_keyword_replay.is_zero(),
            r.passive_source_replay.is_zero(),
            r.passive_notes_replay.is_zero(),
    {
        KadHarvestObservability {
            keyword_requests: KadHarvestFamilyObservability::default(),
            source_requests: KadHarvestFamilyObservability::default(),
            notes_requests: KadHarvestFamilyObservability::default(),
            passive_keyword_replay: KadPassiveReplayObservability::default(),
            passive_source_replay: KadPassiveReplayObservability::default(),
            passive_notes_replay: KadPassiveReplayObservability::default(),
        }
    }
}

/// Aggregate Kad RPC tracker counters for one request bucket.
#[derive(Debug, PartialEq, Eq)]
pub struct KadRpcTrackerBucketObservability {
    pub bucket: String,
    pub accepted_requests: u64,
    pub tracker_drops: u64,
    pub tracker_massive_drops: u64,
}

/// Aggregate Kad RPC response counters for one opcode.
#[derive(Debug, PartialEq, Eq)]
pub struct KadRpcResponseOpcodeObservability {
    pub opcode: String,
    pub matched_pending: u64,
    pub matched_tracked: u64,
    pub dropped_unrequested: u64,
    pub accepted_unsolicited: u64,
}

/// Outbound pacing counters for one class of Kad RPC work.
#[derive(Debug, PartialEq, Eq)]
pub struct KadRpcWorkClassObservability {
    pub class: String,
    pub max_outbound_pps: u32,
    pub sent_packets: u64,
    pub delayed_packets: u64,
    pub total_wait_millis: u64,
    pub last_sent_at: Option<Timestamp>,
}

/// Machine-readable Kad RPC tracker and response-handling counters.
#[derive(Debug, PartialEq, Eq)]
pub struct KadRpcObservability {
    pub decode_failures: u64,
    pub global_max_outbound_pps: u32,
    pub tracker_buckets: Vec<KadRpcTrackerBucketObservability>,
    pub response_opcodes: Vec<KadRpcResponseOpcodeObservability>,
    pub work_classes: Vec<KadRpcWorkClassObservability>,
}

/// Kad search-request family observed on the wire.
#[derive(Debug, Clone, Copy, PartialEq, Eq, Structural)]
pub enum HarvestFamily {
    Keyword,
    Source,
    Notes,
}

/// Stable context that ties passive replay result batches back to one harvested request shape.
#[derive(Debug, PartialEq, Eq)]
pub struct HarvestReplayContext {
    pub replay_id: Uuid,
    pub family: HarvestFamily,
    pub logical_key: String,
    pub target: String,
    pub start_position: Option<u16>,
    pub size: Option<u64>,
    pub restrictive_payload_hex: Option<String>,
}

impl Clone for HarvestReplayContext {
    fn clone(&self) -> (r: HarvestReplayContext)
        ensures
            r == *self,
    {
        HarvestReplayContext {
            replay_id: self.replay_id,
            family: self.family,
            logical_key: self.logical_key.clone(),
            target: self.target.clone(),
            start_position: self.start_position,
            size: self.size,
            restrictive_payload_hex: clone_text(&self.restrictive_payload_hex),
        }
    }
}

/// Summary record for one passive replay cycle, including zero-result replays.
#[derive(Debug, PartialEq, Eq)]
pub struct HarvestReplayRecord {
    pub replay_id: Uuid,
    pub indexer_id: Uuid,
    pub family: HarvestFamily,
    pub logical_key: String,
    pub target: String,
    pub start_position: Option<u16>,
    pub size: Option<u64>,
    pub restrictive_payload_hex: Option<String>,
    pub started_at: Timestamp,
    pub completed_at: Timestamp,
    pub result_count: u32,
    pub batch_count: u32,
    pub error: Option<String>,
}

/// Append-only harvested Kad observation captured from unsolicited inbound search traffic.
#[derive(Debug, PartialEq, Eq)]
pub struct SnoopObservation {
    pub family: HarvestFamily,
    pub logical_key: String,
    pub target: String,
    pub start_position: Option<u16>,
    pub size: Option<u64>,
    pub restrictive_payload_hex: Option<String>,
    pub observed_at: Timestamp,
}

#[derive(Debug, PartialEq, Eq)]
pub enum SnoopEntry {
    Keyword {
        logical_key: String,
        target: String,
        start_position: u16,
        restrictive_payload_hex: Option<String>,
        hit_count: u32,
        first_seen: Timestamp,
        last_seen: Timestamp,
        last_drained_at: Option<Timestamp>,
    },
    Source {
        logical_key: String,
        target: String,
        start_position: u16,
        size: u64,
        hit_count: u32,
        first_seen: Timestamp,
        last_seen: Timestamp,
        last_drained_at: Option<Timestamp>,
    },
    Notes {
        logical_key: String,
        target: String,
        size: u64,
        hit_count: u32,
        first_seen: Timestamp,
        last_seen: Timestamp,
        last_drained_at: Option<Timestamp>,
    },
}

#[derive(Debug, PartialEq, Eq)]
pub struct PopularHash {
    pub hash: HashType,
    pub canonical_name: String,
    pub size: u64,
    pub source_count: u32,
}

/// What a [`PopularHash`] stands for.
pub struct PopularHashView {
    pub hash: Seq<char>,
    pub canonical_name: Seq<char>,
    pub size: u64,
    pub source_count: u32,
}

impl View for PopularHash {
    type V = PopularHashView;

    open spec fn view(&self) -> PopularHashView {
        PopularHashView {
            hash: self.hash@,
            canonical_name: self.canonical_name@,
            size: self.size,
            source_count: self.source_count,
        }
    }
}

impl Clone for PopularHash {
    fn clone(&self) -> (r: PopularHash)
        ensures
            r == *self,
    {
        PopularHash {
            hash: self.hash.clone(),
            canonical_name: self.canonical_name.clone(),
            size: self.size,
            source_count: self.source_count,
        }
    }
}

#[derive(Debug, PartialEq, Eq)]
pub struct RegisterRequest {
    pub indexer_id: Uuid,
    pub protocol: Protocol,
    pub url: String,
    pub hostname: String,
    pub version: String,
}

#[derive(Debug, PartialEq, Eq)]
pub struct IndexerRegistration {
    pub indexer_id: Uuid,
    pub protocol: Protocol,
    pub url: String,
    pub hostname: String,
    pub version: String,
    pub registered_at: Timestamp,
}

#[derive(Debug, PartialEq, Eq)]
pub struct RegistrationResponse {
    pub registered: IndexerRegistration,
}

/// How a run of the agent ended.
#[derive(Debug, Clone, Copy, PartialEq, Eq, Structural)]
pub enum AgentExit {
    Stopped,
    RestartRequested,
}

/// Whether a JSON object has exactly one member of that name, with that value.
pub open spec fn says(object: JsonValue, name: Seq<char>, value: JsonScalarView) -> bool {
    object matches JsonValue::Object(members) && exists|i: int|
        0 <= i < members@.len() && (#[trigger] members@[i]).name@ == name && members@[i].value@ == value && forall|
            j: int,
        | 0 <= j < members@.len() && (#[trigger] members@[j]).name@ == name ==> j == i
}

pub(crate) proof fn lemma_says(object: JsonValue, i: int)
    requires
        object@ matches JsonView::Object(members) && 0 <= i < members.len() && forall|j: int|
            0 <= j < members.len() && (#[trigger] members[j]).name == members[i].name ==> j == i,
    ensures
        says(object, object@->Object_0[i].name, object@->Object_0[i].value),
{
    match object {
        JsonValue::Object(members) => {
            let views = fields(members@);
            let name = views[i].name;
            assert(members@[i]@ == views[i]);
            assert forall|j: int| 0 <= j < members@.len() && (#[trigger] members@[j]).name@ == name implies j == i by {
                assert(members@[j]@ == views[j]);
            }
        },
        JsonValue::Scalar(_) => {},
    }
}

/// A record stands for what its parts stand for, one for one.
pub(crate) proof fn lemma_record_view(r: FileRecord)
    ensures
        r@.size == r.size && r@.content_type == r.content_type,
        r@.hashes.len() == r.hashes@.len() && r@.names.len() == r.names@.len(),
        r@.tags.len() == r.tags@.len() && r@.sources.len() == r.sources@.len(),
        forall|i: int| 0 <= i < r.hashes@.len() ==> (#[trigger] r.hashes@[i])@ == r@.hashes[i],
        forall|i: int| 0 <= i < r.names@.len() ==> (#[trigger] r.names@[i])@ == r@.names[i],
        forall|i: int| 0 <= i < r.tags@.len() ==> (#[trigger] r.tags@[i])@ == r@.tags[i],
        forall|i: int| 0 <= i < r.sources@.len() ==> (#[trigger] r.sources@[i])@ == r@.sources[i],
{
}

/// A copy of texts is the same texts, in their order.
pub proof fn law_copied_texts(value: &Option<String>, values: &Vec<String>, one: Option<String>, all: Vec<String>, i: int)
    requires
        call_ensures(clone_text, (value,), one),
        call_ensures(clone_texts, (values,), all),
    ensures
        one is Some <==> *value is Some,
        *value matches Some(text) ==> (one matches Some(copy) && copy@ == text@),
        all@.len() == values@.len(),
        0 <= i < values@.len() ==> all@[i]@ == values@[i]@,
{
}

/// Each source of what is published has a label of its own.
pub proof fn law_seed_labels(source: PublishSeedSource, label: &'static str)
    requires
        call_ensures(PublishSeedSource::label, (source,), label),
    ensures
        source is Coordinator ==> label@ == "coordinator"@,
        source is SyntheticFallback ==> label@ == "synthetic_fallback"@,
        source is ManualApi ==> label@ == "manual_api"@,
{
}

/// Telemetry starts at nothing.
pub proof fn law_telemetry_starts_at_zero(
    counters: PublishCounters,
    publish: KadPublishObservability,
    requests: KadHarvestFamilyObservability,
    replay: KadPassiveReplayObservability,
)
    requires
        call_ensures(PublishCounters::default, (), counters),
        call_ensures(KadPublishObservability::default, (), publish),
        call_ensures(KadHarvestFamilyObservability::default, (), requests),
        call_ensures(KadPassiveReplayObservability::default, (), replay),
    ensures
        counters.batches == 0 && counters.published_items == 0 && counters.closest_contacts_considered == 0,
        counters.attempted_contacts == 0 && counters.acked_contacts == 0 && counters.failed_contacts == 0,
        counters.timed_out_contacts == 0 && counters.last_batch_at is None && counters.last_success_at is None,
        publish.latest_keyword_batch is None && publish.latest_source_batch is None,
        publish.latest_notes_batch is None && publish.keyword_counters.batches == 0,
        publish.last_seed_source is None && publish.last_seed_at is None,
        requests.observed_requests == 0 && requests.unique_shapes_observed == 0 && requests.queued_entries == 0,
        requests.last_seen_at is None && requests.last_from is None && requests.last_target is None,
        replay.started_cycles == 0 && replay.completed_cycles == 0 && replay.idle_cycles == 0,
        replay.emitted_results == 0 && replay.posted_batches == 0 && replay.post_failures == 0,
        replay.last_tiers@.len() == 0 && replay.last_error is None && !replay.last_widened,
{
}

/// A value that is missing is `null`, and any other is itself.
pub proof fn law_json_values(number: Option<u64>, text: Option<String>, n: JsonScalar, t: JsonScalar)
    requires
        call_ensures(JsonScalar::number_or_null, (number,), n),
        call_ensures(JsonScalar::text_or_null, (text,), t),
    ensures
        number is None ==> n is Null,
        number matches Some(value) ==> (n matches JsonScalar::Number(said) && said == value),
        text is None ==> t is Null,
        text matches Some(value) ==> (t matches JsonScalar::Text(said) && said@ == value@),
{
}

} // verus!
