//! What the control interface asks of the agent: searches, their cancellation, and changes of
//! configuration.

use vstd::prelude::*;
use vstd::string::*;
use crate::activity;
use crate::activity::{
    active_search_key, degraded_snapshot, finish_activity_with, new_activity_snapshot,
    search_activity_context, AgentActivityTracker, ACTIVITY_KEY_RECONFIGURING,
};
use crate::api;
use crate::api::coordinator_base;
use crate::ids;
use crate::ids::{Timestamp, Uuid};
use crate::lifecycle::NetworkingConfigApplyOutcome;
use crate::publish;
use crate::publish::effective_publish_counters;
use crate::search::SearchRunStats;
use crate::text::joined;
use crate::types;
use crate::types::{
    AgentActivitySnapshot, AgentActivityState, AgentLogFileStatus, KadPublishObservability,
    KadRpcObservability, KadRpcResponseOpcodeObservability, KadRpcTrackerBucketObservability,
    KadRpcWorkClassObservability, Protocol, SearchEventStatus, SearchJob, SearchKind,
};

verus! {

broadcast use vstd::string::group_string_axioms;

/// Why a search is not started, or not cancelled.
#[derive(Debug, Clone, Copy, PartialEq, Eq, Structural)]
pub enum SearchRefusal {
    WaitingForInterface,
    InvalidCallback { job_id: Uuid },
    AlreadyActive { job_id: Uuid },
    NotActive { job_id: Uuid },
}

impl SearchRefusal {
    /// The text of the refusal.
    pub open spec fn text(self) -> Seq<char> {
        match self {
            SearchRefusal::WaitingForInterface => "agent networking is waiting for interface selection"@,
            SearchRefusal::InvalidCallback { job_id } => "invalid search callback url for job "@
                + ids::uuid_text(job_id),
            SearchRefusal::AlreadyActive { job_id } => "search "@ + ids::uuid_text(job_id)
                + " is already active"@,
            SearchRefusal::NotActive { job_id } => "search "@ + ids::uuid_text(job_id)
                + " is not active"@,
        }
    }

    pub fn message(self) -> (r: String)
        ensures
            r@ == self.text(),
    {
        match self {
            SearchRefusal::WaitingForInterface => "agent networking is waiting for interface selection".to_owned(),
            SearchRefusal::InvalidCallback { job_id } => {
                let id: String = job_id.to_text();
                joined("invalid search callback url for job ", id.as_str())
            },
            SearchRefusal::AlreadyActive { job_id } => {
                let id: String = job_id.to_text();
                let mut r: String = joined("search ", id.as_str());
                r.append(" is already active");
                r
            },
            SearchRefusal::NotActive { job_id } => {
                let id: String = job_id.to_text();
                let mut r: String = joined("search ", id.as_str());
                r.append(" is not active");
                r
            },
        }
    }
}

/// The searches under way.
pub struct ActiveSearches {
    pub jobs: Vec<Uuid>,
}

impl View for ActiveSearches {
    type V = Set<Uuid>;

    open spec fn view(&self) -> Set<Uuid> {
        self.jobs@.to_set()
    }
}

impl ActiveSearches {
    /// No job is listed twice.
    pub open spec fn wf(self) -> bool {
        self.jobs@.no_duplicates()
    }

    pub fn new() -> (r: ActiveSearches)
        ensures
            r.wf(),
            r@ == Set::<Uuid>::empty(),
    {
        let r: ActiveSearches = ActiveSearches { jobs: Vec::new() };
        assert(r@ =~= Set::<Uuid>::empty());
        r
    }

    fn find(&self, job_id: Uuid) -> (r: Option<usize>)
        ensures
            r is Some <==> self@.contains(job_id),
            r matches Some(i) ==> i < self.jobs@.len() && self.jobs@[i as int] == job_id,
    {
        let mut i: usize = 0;
        while i < self.jobs.len()
            invariant
                i <= self.jobs.len(),
                forall|j: int| 0 <= j < i ==> self.jobs@[j] != job_id,
            decreases self.jobs.len() - i,
        {
            if self.jobs[i] == job_id {
                assert(self.jobs@.contains(job_id)) by {
                    assert(self.jobs@[i as int] == job_id);
                }
                return Some(i);
            }
            i = i + 1;
        }
        None
    }

    /// Takes up a search. It takes an interface, a callback that can be called, and a job that is
    /// not under way; what is missing first is said.
    pub fn begin(&mut self, job_id: Uuid, networked: bool, callback_valid: bool) -> (r: Result<
        (),
        SearchRefusal,
    >)
        requires
            old(self).wf(),
        ensures
            final(self).wf(),
            match r {
                Ok(()) => networked && callback_valid && !old(self)@.contains(job_id) && final(self)@
                    == old(self)@.insert(job_id),
                Err(refusal) => final(self)@ == old(self)@ && refusal == if !networked {
                    SearchRefusal::WaitingForInterface
                } else if !callback_valid {
                    SearchRefusal::InvalidCallback { job_id }
                } else {
                    SearchRefusal::AlreadyActive { job_id }
                } && (networked && callback_valid ==> old(self)@.contains(job_id)),
            },
    {
        if !networked {
            return Err(SearchRefusal::WaitingForInterface);
        }
        if !callback_valid {
            return Err(SearchRefusal::InvalidCallback { job_id });
        }
        if self.find(job_id).is_some() {
            return Err(SearchRefusal::AlreadyActive { job_id });
        }
        let ghost before = self.jobs@;
        self.jobs.push(job_id);
        proof {
            assert forall|id: Uuid| self.jobs@.contains(id) <==> before.contains(id) || id == job_id by {
                if before.contains(id) {
                    let i = choose|i: int| 0 <= i < before.len() && before[i] == id;
                    assert(self.jobs@[i] == id);
                }
                if id == job_id {
                    assert(self.jobs@[before.len() as int] == id);
                }
                if self.jobs@.contains(id) && id != job_id {
                    let i = choose|i: int| 0 <= i < self.jobs@.len() && self.jobs@[i] == id;
                    assert(before[i] == id);
                }
            }
            assert(self@ =~= old(self)@.insert(job_id));
        }
        Ok(())
    }

    /// Whether a search can be cancelled: it has to be under way, and it stays so until it ends.
    pub fn cancel(&self, job_id: Uuid) -> (r: Result<(), SearchRefusal>)
        ensures
            match r {
                Ok(()) => self@.contains(job_id),
                Err(refusal) => !self@.contains(job_id) && refusal == (SearchRefusal::NotActive { job_id }),
            },
    {
        if self.find(job_id).is_some() {
            Ok(())
        } else {
            Err(SearchRefusal::NotActive { job_id })
        }
    }

    /// Takes a search off the list.
    pub fn finish(&mut self, job_id: Uuid)
        requires
            old(self).wf(),
        ensures
            final(self).wf(),
            final(self)@ == old(self)@.remove(job_id),
    {
        let ghost before = self.jobs@;
        match self.find(job_id) {
            Some(at) => {
                let _removed: Uuid = self.jobs.remove(at);
                proof {
                    let n = at as int;
                    assert forall|id: Uuid| self.jobs@.contains(id) <==> before.contains(id) && id != job_id by {
                        if self.jobs@.contains(id) {
                            let i = choose|i: int| 0 <= i < self.jobs@.len() && self.jobs@[i] == id;
                            let x = if i < n {
                                i
                            } else {
                                i + 1
                            };
                            assert(before[x] == id);
                            assert(before[x] != before[n]);
                        }
                        if before.contains(id) && id != job_id {
                            let i = choose|i: int| 0 <= i < before.len() && before[i] == id;
                            let x = if i < n {
                                i
                            } else {
                                i - 1
                            };
                            assert(self.jobs@[x] == id);
                        }
                    }
                    assert(self@ =~= old(self)@.remove(job_id));
                }
            },
            None => {
                assert(self@ =~= old(self)@.remove(job_id));
            },
        }
    }

    /// Takes all searches off the list, and returns them to be cancelled.
    pub fn drain(&mut self) -> (r: Vec<Uuid>)
        requires
            old(self).wf(),
        ensures
            final(self).wf(),
            final(self)@ == Set::<Uuid>::empty(),
            r@ == old(self).jobs@,
    {
        let mut jobs: Vec<Uuid> = Vec::new();
        core::mem::swap(&mut jobs, &mut self.jobs);
        assert(self@ =~= Set::<Uuid>::empty());
        jobs
    }
}

/// Takes up a search whose results go to `callback_url`. It takes an interface, a callback that is a
/// URL, and a job that is not under way; what is missing first is said.
pub fn begin_search(
    active: &mut ActiveSearches,
    job_id: Uuid,
    networked: bool,
    callback_url: &str,
) -> (r: Result<(), SearchRefusal>)
    requires
        old(active).wf(),
    ensures
        final(active).wf(),
        match r {
            Ok(()) => {
                &&& networked
                &&& api::parsed_url(callback_url@) is Ok
                &&& !old(active)@.contains(job_id)
                &&& final(active)@ == old(active)@.insert(job_id)
            },
            Err(refusal) => {
                &&& final(active)@ == old(active)@
                &&& refusal == if !networked {
                    SearchRefusal::WaitingForInterface
                } else if api::parsed_url(callback_url@) is Err {
                    SearchRefusal::InvalidCallback { job_id }
                } else {
                    SearchRefusal::AlreadyActive { job_id }
                }
                &&& networked && api::parsed_url(callback_url@) is Ok ==> old(active)@.contains(job_id)
            },
        },
{
    let callback_valid: bool = coordinator_base(callback_url).is_ok();
    active.begin(job_id, networked, callback_valid)
}

/// Where a search is run.
#[derive(Debug, Clone, Copy, PartialEq, Eq, Structural)]
pub enum SearchRoute {
    KadKeyword,
    KadSource,
    KadNotes,
    Ed2kKeyword,
    Ed2kSource,
    /// Servers keep no notes: the search fails.
    Ed2kNotes,
}

/// The error of a search that cannot be run.
pub const ED2K_NOTES_UNSUPPORTED: &'static str = "ED2K notes search is not wired yet";

/// Picks where a search is run.
pub fn search_route(protocol: Protocol, kind: SearchKind) -> (r: SearchRoute)
    ensures
        r == match (protocol, kind) {
            (Protocol::Kad2, SearchKind::Keyword) => SearchRoute::KadKeyword,
            (Protocol::Kad2, SearchKind::Source) => SearchRoute::KadSource,
            (Protocol::Kad2, SearchKind::Notes) => SearchRoute::KadNotes,
            (Protocol::Ed2k, SearchKind::Keyword) => SearchRoute::Ed2kKeyword,
            (Protocol::Ed2k, SearchKind::Source) => SearchRoute::Ed2kSource,
            (Protocol::Ed2k, SearchKind::Notes) => SearchRoute::Ed2kNotes,
        },
{
    match protocol {
        Protocol::Kad2 => match kind {
            SearchKind::Keyword => SearchRoute::KadKeyword,
            SearchKind::Source => SearchRoute::KadSource,
            SearchKind::Notes => SearchRoute::KadNotes,
        },
        Protocol::Ed2k => match kind {
            SearchKind::Keyword => SearchRoute::Ed2kKeyword,
            SearchKind::Source => SearchRoute::Ed2kSource,
            SearchKind::Notes => SearchRoute::Ed2kNotes,
        },
    }
}

/// How the end of a search is reported.
#[derive(Debug, PartialEq, Eq)]
pub struct SearchEnding {
    pub status: SearchEventStatus,
    pub stats: SearchRunStats,
    pub error: Option<String>,
}

/// Decides how the end of a search is reported. A search that ends in an error is reported without
/// results, and a cancelled one without an error.
pub fn search_ending(outcome: Result<SearchRunStats, String>, cancelled: bool) -> (r: SearchEnding)
    ensures
        r == match outcome {
            Ok(stats) => SearchEnding {
                status: if cancelled {
                    SearchEventStatus::Cancelled
                } else {
                    SearchEventStatus::Completed
                },
                stats,
                error: None,
            },
            Err(error) => SearchEnding {
                status: if cancelled {
                    SearchEventStatus::Cancelled
                } else {
                    SearchEventStatus::Failed
                },
                stats: SearchRunStats { result_count: 0, batch_count: 0 },
                error: if cancelled {
                    None
                } else {
                    Some(error)
                },
            },
        },
{
    match outcome {
        Ok(stats) => SearchEnding {
            status: if cancelled {
                SearchEventStatus::Cancelled
            } else {
                SearchEventStatus::Completed
            },
            stats,
            error: None,
        },
        Err(error) => SearchEnding {
            status: if cancelled {
                SearchEventStatus::Cancelled
            } else {
                SearchEventStatus::Failed
            },
            stats: SearchRunStats { result_count: 0, batch_count: 0 },
            error: if cancelled {
                None
            } else {
                Some(error)
            },
        },
    }
}

/// Whether `snapshot` is what is shown of a search.
pub open spec fn shows_search(snapshot: AgentActivitySnapshot, job: SearchJob, now: Timestamp) -> bool {
    &&& types::opt_text(snapshot.query_or_target) == activity::search_context(job)
    &&& snapshot == (AgentActivitySnapshot {
        job_id: Some(job.job_id),
        protocol: Some(job.protocol),
        kind: Some(job.kind),
        query_or_target: snapshot.query_or_target,
        ..activity::bare_snapshot(AgentActivityState::ActiveSearch, now)
    })
}

/// Shows that a search has begun; returns the key of the activity and what is shown.
pub fn begin_search_activity(tracker: &mut AgentActivityTracker, job: &SearchJob, now: Timestamp) -> (r: (
    String,
    AgentActivitySnapshot,
))
    requires
        old(tracker).wf(),
    ensures
        final(tracker).wf(),
        r.0@ == "active_search:"@ + ids::uuid_text(job.job_id),
        shows_search(r.1, *job, now),
        final(tracker)@ == old(tracker)@.insert(r.0@, r.1),
        final(tracker).degraded == old(tracker).degraded,
        final(tracker).idle_since == old(tracker).idle_since,
{
    let key: String = active_search_key(job.job_id);
    let mut snapshot: AgentActivitySnapshot = new_activity_snapshot(
        AgentActivityState::ActiveSearch,
        now,
    );
    snapshot.job_id = Some(job.job_id);
    snapshot.protocol = Some(job.protocol);
    snapshot.kind = Some(job.kind);
    snapshot.query_or_target = search_activity_context(job);
    tracker.enter(key.clone(), snapshot.clone());
    (key, snapshot)
}

/// Shows that a search has ended; its failure degrades the agent.
pub fn finish_search_activity(
    tracker: &mut AgentActivityTracker,
    key: &str,
    snapshot: AgentActivitySnapshot,
    error: Option<String>,
    now: Timestamp,
)
    requires
        old(tracker).wf(),
    ensures
        final(tracker).wf(),
        final(tracker)@ == old(tracker)@.remove(key@),
        final(tracker).idle_since == activity::idle_after(*old(tracker), *final(tracker), key@, now),
        final(tracker).degraded == match error {
            Some(_) => Some(
                AgentActivitySnapshot {
                    state: AgentActivityState::Degraded,
                    last_error: error,
                    last_update_at: now,
                    ..snapshot
                },
            ),
            None => None,
        },
{
    finish_activity_with(tracker, key, snapshot, error, now);
}

/// Shows that the configuration is being changed.
pub fn begin_reconfigure(tracker: &mut AgentActivityTracker, protocol: Protocol, now: Timestamp)
    requires
        old(tracker).wf(),
    ensures
        final(tracker).wf(),
        final(tracker)@ == old(tracker)@.insert(
            ACTIVITY_KEY_RECONFIGURING@,
            AgentActivitySnapshot {
                protocol: Some(protocol),
                ..activity::bare_snapshot(AgentActivityState::Reconfiguring, now)
            },
        ),
        final(tracker).degraded == old(tracker).degraded,
        final(tracker).idle_since == old(tracker).idle_since,
{
    let mut snapshot: AgentActivitySnapshot = new_activity_snapshot(
        AgentActivityState::Reconfiguring,
        now,
    );
    snapshot.protocol = Some(protocol);
    tracker.enter(ACTIVITY_KEY_RECONFIGURING.to_owned(), snapshot);
}

/// Shows that a change of configuration has ended, and says whether the agent has to restart: it
/// does only where the change reaches the control endpoint. A change that fails, or that cannot be
/// read, degrades the agent.
pub fn finish_reconfigure(
    tracker: &mut AgentActivityTracker,
    outcome: Result<NetworkingConfigApplyOutcome, String>,
    now: Timestamp,
) -> (r: bool)
    requires
        old(tracker).wf(),
    ensures
        final(tracker).wf(),
        final(tracker)@ == old(tracker)@.remove(ACTIVITY_KEY_RECONFIGURING@),
        final(tracker).idle_since == activity::idle_after(
            *old(tracker),
            *final(tracker),
            ACTIVITY_KEY_RECONFIGURING@,
            now,
        ),
        match outcome {
            Ok(applied) => final(tracker).degraded is None && r == (applied
                == NetworkingConfigApplyOutcome::RestartRequired),
            Err(error) => {
                &&& !r
                &&& final(tracker).degraded matches Some(snapshot)
                &&& activity::says_failed(snapshot, "config update"@, error, now)
            },
        },
{
    tracker.leave(ACTIVITY_KEY_RECONFIGURING, now);
    match outcome {
        Ok(applied) => {
            tracker.clear_degraded();
            applied == NetworkingConfigApplyOutcome::RestartRequired
        },
        Err(error) => {
            tracker.record_degraded(degraded_snapshot("config update", error, now));
            false
        },
    }
}

/// What operators are shown of publishing: the counters with the batch in flight, and the settings
/// of the synthetic drip.
pub fn reported_publish_observability(
    stored: KadPublishObservability,
    synthetic_publish_interval_secs: u64,
    synthetic_publish_batch_items: usize,
    log_file: AgentLogFileStatus,
) -> (r: KadPublishObservability)
    requires
        stored.latest_keyword_batch matches Some(batch) ==> (publish::counts_on_top(
            stored.keyword_counters,
            batch,
            stored.last_seed_at,
        ) ==> publish::counters_fit(stored.keyword_counters, batch)),
        stored.latest_source_batch matches Some(batch) ==> (publish::counts_on_top(
            stored.source_counters,
            batch,
            stored.last_seed_at,
        ) ==> publish::counters_fit(stored.source_counters, batch)),
        stored.latest_notes_batch matches Some(batch) ==> (publish::counts_on_top(
            stored.notes_counters,
            batch,
            stored.last_seed_at,
        ) ==> publish::counters_fit(stored.notes_counters, batch)),
    ensures
        r == (KadPublishObservability {
            keyword_counters: publish::effective_counters(
                stored.keyword_counters,
                stored.latest_keyword_batch,
                stored.last_seed_at,
            ),
            source_counters: publish::effective_counters(
                stored.source_counters,
                stored.latest_source_batch,
                stored.last_seed_at,
            ),
            notes_counters: publish::effective_counters(
                stored.notes_counters,
                stored.latest_notes_batch,
                stored.last_seed_at,
            ),
            synthetic_drip_interval_secs: Some(synthetic_publish_interval_secs),
            synthetic_drip_batch_items: Some(synthetic_publish_batch_items as u32),
            log_file: Some(log_file),
            ..stored
        }),
{
    let mut reported: KadPublishObservability = stored;
    reported.keyword_counters = effective_publish_counters(
        &reported.keyword_counters,
        reported.latest_keyword_batch.as_ref(),
        reported.last_seed_at,
    );
    reported.source_counters = effective_publish_counters(
        &reported.source_counters,
        reported.latest_source_batch.as_ref(),
        reported.last_seed_at,
    );
    reported.notes_counters = effective_publish_counters(
        &reported.notes_counters,
        reported.latest_notes_batch.as_ref(),
        reported.last_seed_at,
    );
    reported.synthetic_drip_interval_secs = Some(synthetic_publish_interval_secs);
    reported.synthetic_drip_batch_items = Some(
        #[verifier::truncate] (synthetic_publish_batch_items as u32),
    );
    reported.log_file = Some(log_file);
    reported
}

/// The Kad node's own counters, as the node hands them out.
pub struct RpcObservabilitySnapshot {
    pub decode_failures: u64,
    pub global_max_outbound_pps: u32,
    pub tracker_buckets: Vec<KadRpcTrackerBucketObservability>,
    pub response_opcodes: Vec<KadRpcResponseOpcodeObservability>,
    pub work_classes: Vec<KadRpcWorkClassObservability>,
}

/// What operators are shown of the Kad node's counters.
pub fn map_rpc_observability(snapshot: RpcObservabilitySnapshot) -> (r: KadRpcObservability)
    ensures
        r == (KadRpcObservability {
            decode_failures: snapshot.decode_failures,
            global_max_outbound_pps: snapshot.global_max_outbound_pps,
            tracker_buckets: snapshot.tracker_buckets,
            response_opcodes: snapshot.response_opcodes,
            work_classes: snapshot.work_classes,
        }),
{
    KadRpcObservability {
        decode_failures: snapshot.decode_failures,
        global_max_outbound_pps: snapshot.global_max_outbound_pps,
        tracker_buckets: snapshot.tracker_buckets,
        response_opcodes: snapshot.response_opcodes,
        work_classes: snapshot.work_classes,
    }
}

/// A refusal says which search it is about, and what is missing.
pub proof fn law_refusal_messages(refusal: SearchRefusal, r: String)
    requires
        call_ensures(SearchRefusal::message, (refusal,), r),
    ensures
        refusal is WaitingForInterface ==> r@ == "agent networking is waiting for interface selection"@,
        refusal matches SearchRefusal::InvalidCallback { job_id } ==> r@ == "invalid search callback url for job "@
            + ids::uuid_text(job_id),
        refusal matches SearchRefusal::AlreadyActive { job_id } ==> r@ == "search "@ + ids::uuid_text(job_id)
            + " is already active"@,
        refusal matches SearchRefusal::NotActive { job_id } ==> r@ == "search "@ + ids::uuid_text(job_id)
            + " is not active"@,
{
}

/// A search is taken up exactly where there is an interface, its callback can be called and it is not
/// under way; it is then under way, and no other comes or goes. Of what is missing the first is said.
pub proof fn law_searches_begin(
    active: &mut ActiveSearches,
    job_id: Uuid,
    networked: bool,
    callback_valid: bool,
    r: Result<(), SearchRefusal>,
    other: Uuid,
)
    requires
        old(active).wf(),
        call_ensures(ActiveSearches::begin, (active, job_id, networked, callback_valid), r),
    ensures
        r is Ok <==> networked && callback_valid && !old(active).jobs@.contains(job_id),
        r is Ok ==> final(active).jobs@.contains(job_id),
        other != job_id || r is Err ==> (final(active).jobs@.contains(other) <==> old(active).jobs@.contains(other)),
        !networked ==> r == Err::<(), SearchRefusal>(SearchRefusal::WaitingForInterface),
        networked && !callback_valid ==> r == Err::<(), SearchRefusal>(SearchRefusal::InvalidCallback { job_id }),
        networked && callback_valid && old(active).jobs@.contains(job_id) ==> r == Err::<(), SearchRefusal>(
            SearchRefusal::AlreadyActive { job_id },
        ),
{
    assert(old(active)@.contains(job_id) == old(active).jobs@.contains(job_id));
    assert(final(active)@.contains(job_id) == final(active).jobs@.contains(job_id));
    assert(old(active)@.contains(other) == old(active).jobs@.contains(other));
    assert(final(active)@.contains(other) == final(active).jobs@.contains(other));
}

/// A search can be cancelled while it is under way, and is not once it has ended; ending one leaves
/// the others, and draining the list hands out all of them and leaves none.
pub proof fn law_searches_end(
    active: &mut ActiveSearches,
    drained: &mut ActiveSearches,
    job_id: Uuid,
    before: Result<(), SearchRefusal>,
    after: Result<(), SearchRefusal>,
    all: Vec<Uuid>,
    other: Uuid,
    fresh: ActiveSearches,
)
    requires
        old(active).wf(),
        old(drained).wf(),
        call_ensures(ActiveSearches::cancel, (&*old(active), job_id), before),
        call_ensures(ActiveSearches::finish, (active, job_id), ()),
        call_ensures(ActiveSearches::cancel, (final(active), job_id), after),
        call_ensures(ActiveSearches::drain, (drained,), all),
        call_ensures(ActiveSearches::new, (), fresh),
    ensures
        before is Ok <==> old(active).jobs@.contains(job_id),
        before matches Err(refusal) ==> refusal == (SearchRefusal::NotActive { job_id }),
        after is Err,
        !final(active).jobs@.contains(job_id),
        other != job_id ==> (final(active).jobs@.contains(other) <==> old(active).jobs@.contains(other)),
        all@ == old(drained).jobs@,
        !final(drained).jobs@.contains(other),
        !fresh.jobs@.contains(other),
{
    assert(old(active)@.contains(job_id) == old(active).jobs@.contains(job_id));
    assert(final(active)@.contains(job_id) == final(active).jobs@.contains(job_id));
    assert(old(active)@.contains(other) == old(active).jobs@.contains(other));
    assert(final(active)@.contains(other) == final(active).jobs@.contains(other));
    assert(final(drained)@.contains(other) == final(drained).jobs@.contains(other));
    assert(fresh@.contains(other) == fresh.jobs@.contains(other));
}

/// A search with a callback is taken up exactly where there is an interface, the callback is a URL and
/// the search is not under way.
pub proof fn law_search_with_callback(
    active: &mut ActiveSearches,
    job_id: Uuid,
    networked: bool,
    callback_url: &str,
    url: Result<String, api::InvalidBaseUrl>,
    r: Result<(), SearchRefusal>,
)
    requires
        old(active).wf(),
        call_ensures(coordinator_base, (callback_url,), url),
        call_ensures(begin_search, (active, job_id, networked, callback_url), r),
    ensures
        r is Ok <==> networked && url is Ok && !old(active).jobs@.contains(job_id),
        r is Ok ==> final(active).jobs@.contains(job_id),
        !networked ==> r == Err::<(), SearchRefusal>(SearchRefusal::WaitingForInterface),
        networked && url is Err ==> r == Err::<(), SearchRefusal>(SearchRefusal::InvalidCallback { job_id }),
        networked && url is Ok && old(active).jobs@.contains(job_id) ==> r == Err::<(), SearchRefusal>(
            SearchRefusal::AlreadyActive { job_id },
        ),
{
    assert(old(active)@.contains(job_id) == old(active).jobs@.contains(job_id));
    assert(final(active)@.contains(job_id) == final(active).jobs@.contains(job_id));
}

/// A search is run over its own network and for what it asks.
pub proof fn law_search_route(protocol: Protocol, kind: SearchKind, r: SearchRoute)
    requires
        call_ensures(search_route, (protocol, kind), r),
    ensures
        protocol is Kad2 <==> r is KadKeyword || r is KadSource || r is KadNotes,
        kind is Keyword <==> r is KadKeyword || r is Ed2kKeyword,
        kind is Source <==> r is KadSource || r is Ed2kSource,
        kind is Notes <==> r is KadNotes || r is Ed2kNotes,
{
}

/// A cancelled search is reported as cancelled and without an error; any other as completed with its
/// results, or as failed with its error and without results.
pub proof fn law_search_ending(outcome: Result<SearchRunStats, String>, cancelled: bool, r: SearchEnding)
    requires
        call_ensures(search_ending, (outcome, cancelled), r),
    ensures
        cancelled <==> r.status is Cancelled,
        !cancelled && outcome is Ok <==> r.status is Completed,
        !cancelled && outcome is Err <==> r.status is Failed,
        outcome matches Ok(stats) ==> r.stats == stats && r.error is None,
        outcome matches Err(error) ==> {
            &&& r.stats.result_count == 0 && r.stats.batch_count == 0
            &&& cancelled ==> r.error is None
            &&& !cancelled ==> r.error == Some(error)
        },
{
}

/// A search is shown under a key of its own with its job, network and kind, beside what was shown
/// before; at its end it is shown no longer, and its error degrades the agent.
pub proof fn law_search_is_shown(
    begun: &mut AgentActivityTracker,
    ended: &mut AgentActivityTracker,
    job: &SearchJob,
    key: &str,
    snapshot: AgentActivitySnapshot,
    error: Option<String>,
    now: Timestamp,
    r: (String, AgentActivitySnapshot),
)
    requires
        old(begun).wf(),
        old(ended).wf(),
        call_ensures(begin_search_activity, (begun, job, now), r),
        call_ensures(finish_search_activity, (ended, key, snapshot, error, now), ()),
    ensures
        r.0@ == "active_search:"@ + ids::uuid_text(job.job_id),
        r.1.state is ActiveSearch,
        r.1.job_id == Some(job.job_id),
        r.1.protocol == Some(job.protocol),
        r.1.kind == Some(job.kind),
        r.1.since == now && r.1.last_update_at == now,
        r.1.last_error is None,
        final(begun)@ == old(begun)@.insert(r.0@, r.1),
        !final(ended)@.contains_key(key@),
        final(ended)@ == old(ended)@.remove(key@),
        final(ended).degraded is Some <==> error is Some,
        final(ended).degraded matches Some(shown) ==> {
            &&& shown.state is Degraded
            &&& shown.last_error == error
            &&& shown.job_id == snapshot.job_id
            &&& shown.query_or_target == snapshot.query_or_target
        },
{
}

/// A change of configuration is shown while it lasts, with the network that it is about. The agent
/// restarts only where the change takes that, and is degraded exactly where the change fails.
pub proof fn law_reconfigure_is_shown(
    begun: &mut AgentActivityTracker,
    ended: &mut AgentActivityTracker,
    protocol: Protocol,
    outcome: Result<NetworkingConfigApplyOutcome, String>,
    now: Timestamp,
    r: bool,
)
    requires
        old(begun).wf(),
        old(ended).wf(),
        call_ensures(begin_reconfigure, (begun, protocol, now), ()),
        call_ensures(finish_reconfigure, (ended, outcome, now), r),
    ensures
        final(begun)@.contains_key("reconfiguring"@),
        final(begun)@["reconfiguring"@].state is Reconfiguring,
        final(begun)@["reconfiguring"@].protocol == Some(protocol),
        final(begun)@["reconfiguring"@].since == now,
        final(begun)@.remove("reconfiguring"@) =~= old(begun)@.remove("reconfiguring"@),
        final(ended)@ == old(ended)@.remove("reconfiguring"@),
        r <==> (outcome matches Ok(applied) && applied is RestartRequired),
        outcome is Ok ==> final(ended).degraded is None,
        outcome matches Err(error) ==> (final(ended).degraded matches Some(shown) && shown.state is Degraded
            && shown.last_error == Some(error) && (shown.query_or_target matches Some(what) && what@
            == "config update"@)),
{
}

/// What operators are shown of publishing is what is stored, with the settings of the drip and the log
/// file; without a batch in flight the counters are the stored ones.
pub proof fn law_publishing_is_reported(
    stored: KadPublishObservability,
    interval_secs: u64,
    batch_items: usize,
    log_file: AgentLogFileStatus,
    r: KadPublishObservability,
)
    requires
        batch_items <= u32::MAX,
        call_requires(reported_publish_observability, (stored, interval_secs, batch_items, log_file)),
        call_ensures(reported_publish_observability, (stored, interval_secs, batch_items, log_file), r),
    ensures
        r.synthetic_drip_interval_secs == Some(interval_secs),
        r.synthetic_drip_batch_items == Some(batch_items as u32),
        r.log_file == Some(log_file),
        r.last_seed_source == stored.last_seed_source && r.last_seed_at == stored.last_seed_at,
        r.latest_keyword_batch == stored.latest_keyword_batch,
        r.latest_source_batch == stored.latest_source_batch,
        r.latest_notes_batch == stored.latest_notes_batch,
        r.synthetic_drip_queue_depth == stored.synthetic_drip_queue_depth,
        stored.latest_keyword_batch is None ==> r.keyword_counters == stored.keyword_counters,
        stored.latest_source_batch is None ==> r.source_counters == stored.source_counters,
        stored.latest_notes_batch is None ==> r.notes_counters == stored.notes_counters,
{
}

/// What operators are shown of the Kad node is what the node hands out.
pub proof fn law_rpc_is_reported(snapshot: RpcObservabilitySnapshot, r: KadRpcObservability)
    requires
        call_ensures(map_rpc_observability, (snapshot,), r),
    ensures
        r.decode_failures == snapshot.decode_failures,
        r.global_max_outbound_pps == snapshot.global_max_outbound_pps,
        r.tracker_buckets == snapshot.tracker_buckets,
        r.response_opcodes == snapshot.response_opcodes,
        r.work_classes == snapshot.work_classes,
{
}

} // verus!
