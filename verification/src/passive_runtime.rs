//! One run of a passive replay: its tiers, its batches and its outcome.
//!
//! The run is advanced by what the network and the coordinator answer; it decides what is kept,
//! what is sent, when the search is widened and when it ends.

use vstd::prelude::*;
use vstd::string::*;
use crate::ids::{same_bytes16, Ed2kHash, Ipv4Addr, Timestamp, Uuid};
use crate::kad::{
    NoteResult, SearchKeyReq, SearchNotesReq, SearchResult, SearchSourceReq, SourceResult,
};
use crate::passive_replay;
use crate::passive_replay::{passive_replay_thin_result_threshold, passive_replay_tier_contact_limits};
use crate::snoop;
use crate::snoop::payload_hex;
use crate::text;
use crate::types;
use crate::types::{
    clone_text, FileRecord, HarvestFamily, HarvestReplayContext, HarvestReplayRecord,
    KadPassiveReplayTierSummary, Protocol, ResultBatch,
};

verus! {

broadcast use vstd::string::group_string_axioms;

/// Large passive harvest floods are posted in bigger coordinator batches than user-facing
/// active searches.
pub const PASSIVE_BATCH_SIZE: usize = 200;

/// Large keyword floods do not wait for a completely full batch before the coordinator sees
/// progress.
pub const PASSIVE_BATCH_FLUSH_INTERVAL_MS: u64 = 300;

/// How many batches may wait for the coordinator.
pub const PASSIVE_POST_QUEUE_DEPTH: usize = 16;

/// What makes two results of one replay the same: the file of a keyword result, the peer of a
/// source result, the author of a note.
#[derive(Debug, Clone, Copy)]
pub enum ReplayKey {
    File(Ed2kHash),
    Peer(Ipv4Addr, u16, u16),
    Author(Ed2kHash),
}

impl ReplayKey {
    /// Keyword results are the same where they are of one file.
    pub fn of_keyword(result: &SearchResult) -> (r: ReplayKey)
        ensures
            r == ReplayKey::File(result.hash),
    {
        ReplayKey::File(result.hash)
    }

    /// Source results are the same where they are of one peer.
    pub fn of_source(result: &SourceResult) -> (r: ReplayKey)
        ensures
            r == ReplayKey::Peer(result.ip, result.tcp_port, result.udp_port),
    {
        ReplayKey::Peer(result.ip, result.tcp_port, result.udp_port)
    }

    /// Notes are the same where they are of one author.
    pub fn of_notes(result: &NoteResult) -> (r: ReplayKey)
        ensures
            r == ReplayKey::Author(result.source_id),
    {
        ReplayKey::Author(result.source_id)
    }
}

fn same_key(a: &ReplayKey, b: &ReplayKey) -> (r: bool)
    ensures
        r == (*a == *b),
{
    match (a, b) {
        (ReplayKey::File(x), ReplayKey::File(y)) => same_bytes16(&x.0, &y.0),
        (ReplayKey::Peer(i, t, u), ReplayKey::Peer(j, v, w)) => *i == *j && *t == *v && *u == *w,
        (ReplayKey::Author(x), ReplayKey::Author(y)) => same_bytes16(&x.0, &y.0),
        (_, _) => false,
    }
}

fn seen_key(seen: &Vec<ReplayKey>, key: &ReplayKey) -> (r: bool)
    ensures
        r == seen@.contains(*key),
{
    let mut i: usize = 0;
    while i < seen.len()
        invariant
            i <= seen.len(),
            forall|j: int| 0 <= j < i ==> seen@[j] != *key,
        decreases seen.len() - i,
    {
        if same_key(&seen[i], key) {
            assert(seen@[i as int] == *key);
            return true;
        }
        i = i + 1;
    }
    false
}

/// What a replay came to.
#[derive(Debug, PartialEq, Eq)]
pub struct PassiveReplayRunOutcome {
    pub result_count: usize,
    pub batch_count: usize,
    pub tier_summaries: Vec<KadPassiveReplayTierSummary>,
    pub last_post_error: Option<String>,
}

/// A replay under way.
pub struct PassiveReplayRun {
    pub family: HarvestFamily,
    /// The number of results that ends the widening.
    pub enough: usize,
    /// Responder ceilings, narrowest first.
    pub tiers: Vec<usize>,
    /// Results before the current tier.
    pub tier_start: usize,
    pub seen: Vec<ReplayKey>,
    pub pending: Vec<FileRecord>,
    /// When the oldest pending result came in, in milliseconds of a monotonic clock.
    pub pending_since: Option<u64>,
    pub result_count: usize,
    pub tier_summaries: Vec<KadPassiveReplayTierSummary>,
    pub last_post_error: Option<String>,
}

/// What becomes of the stream of results after one of them.
#[derive(Debug, Clone, Copy, PartialEq, Eq, Structural)]
pub enum StreamDecision {
    /// Read on.
    Continue,
    /// Read no further: a batch could not be handed over.
    Stop,
    /// Cancel the search: there are enough results.
    Cancel,
}

/// The number of results at which a replay of that family is not widened any more.
pub open spec fn enough_results(family: HarvestFamily, source_stop_after_results: usize) -> usize {
    match family {
        HarvestFamily::Source => if source_stop_after_results >= 1 {
            source_stop_after_results
        } else {
            1
        },
        HarvestFamily::Keyword => passive_replay::thin_threshold(HarvestFamily::Keyword),
        HarvestFamily::Notes => passive_replay::thin_threshold(HarvestFamily::Notes),
    }
}

/// Whether a batch of `len` results, the oldest of which is `age` milliseconds old, is due: full,
/// or, of keyword results, old.
pub open spec fn batch_due(family: HarvestFamily, len: nat, age: nat) -> bool {
    len >= PASSIVE_BATCH_SIZE || (family == HarvestFamily::Keyword && age
        >= PASSIVE_BATCH_FLUSH_INTERVAL_MS)
}

/// How long ago `since` was at `now`.
pub open spec fn age_at(since: Option<u64>, now: u64) -> nat {
    match since {
        Some(at) => if now >= at {
            (now - at) as nat
        } else {
            0
        },
        None => 0,
    }
}

/// Sum of the results of all tiers.
pub open spec fn tier_total(tiers: Seq<KadPassiveReplayTierSummary>) -> nat
    decreases tiers.len(),
{
    if tiers.len() == 0 {
        0
    } else {
        tier_total(tiers.drop_last()) + tiers.last().result_count as nat
    }
}

impl PassiveReplayRun {
    /// No result is counted twice, a batch is never left full, and results are only counted for
    /// tiers that were begun.
    pub open spec fn wf(self) -> bool {
        &&& self.seen@.no_duplicates()
        &&& self.pending@.len() < PASSIVE_BATCH_SIZE
        &&& self.tier_start <= self.result_count
        &&& self.result_count <= self.seen@.len()
        &&& self.pending@.len() <= self.result_count
        &&& self.tier_summaries@.len() <= self.tiers@.len()
        &&& self.pending@.len() > 0 ==> self.pending_since is Some
    }

    pub fn new(family: HarvestFamily, max_phase2_fanout: usize, source_stop_after_results: usize) -> (r: PassiveReplayRun)
        ensures
            r.wf(),
            r.family == family,
            r.enough == enough_results(family, source_stop_after_results),
            r.tiers@ == passive_replay::tier_limits(max_phase2_fanout),
            r.tier_start == 0,
            r.seen@ == Seq::<ReplayKey>::empty(),
            r.pending@ == Seq::<FileRecord>::empty(),
            r.pending_since is None,
            r.result_count == 0,
            r.tier_summaries@ == Seq::<KadPassiveReplayTierSummary>::empty(),
            r.last_post_error is None,
    {
        let enough: usize = match family {
            HarvestFamily::Source => if source_stop_after_results >= 1 {
                source_stop_after_results
            } else {
                1
            },
            HarvestFamily::Keyword => passive_replay_thin_result_threshold(HarvestFamily::Keyword),
            HarvestFamily::Notes => passive_replay_thin_result_threshold(HarvestFamily::Notes),
        };
        PassiveReplayRun {
            family,
            enough,
            tiers: passive_replay_tier_contact_limits(max_phase2_fanout),
            tier_start: 0,
            seen: Vec::new(),
            pending: Vec::new(),
            pending_since: None,
            result_count: 0,
            tier_summaries: Vec::new(),
            last_post_error: None,
        }
    }

    /// Whether every tier has been searched.
    pub open spec fn exhausted(self) -> bool {
        self.tier_summaries@.len() >= self.tiers@.len()
    }

    /// Whether the replay searches on: a first tier always, and further ones as long as there
    /// are tiers left and too few results.
    pub open spec fn searching(self) -> bool {
        !self.exhausted() && (self.tier_summaries@.len() == 0 || self.result_count < self.enough)
    }

    /// The ceiling of the tier that is searched next.
    pub fn next_tier(&self) -> (r: Option<usize>)
        ensures
            r == if self.searching() {
                Some(self.tiers@[self.tier_summaries@.len() as int])
            } else {
                None
            },
    {
        let tier: usize = self.tier_summaries.len();
        if tier < self.tiers.len() && (tier == 0 || self.result_count < self.enough) {
            Some(self.tiers[tier])
        } else {
            None
        }
    }

    /// Takes in one result. `record` is the file record that it is reported as, where it can be
    /// reported. Returns the batch that is now to be sent, if one is.
    pub fn accept(&mut self, key: ReplayKey, record: Option<FileRecord>, now: u64) -> (r: Option<Vec<FileRecord>>)
        requires
            old(self).wf(),
            old(self).seen@.len() < usize::MAX,
        ensures
            final(self).wf(),
            final(self).seen@ == if old(self).seen@.contains(key) {
                old(self).seen@
            } else {
                old(self).seen@.push(key)
            },
            final(self).family == old(self).family,
            final(self).enough == old(self).enough,
            final(self).tiers == old(self).tiers,
            final(self).tier_start == old(self).tier_start,
            final(self).tier_summaries == old(self).tier_summaries,
            final(self).last_post_error == old(self).last_post_error,
            match record {
                Some(file) => if old(self).seen@.contains(key) {
                    &&& r is None
                    &&& final(self).result_count == old(self).result_count
                    &&& final(self).pending@ == old(self).pending@
                    &&& final(self).pending_since == old(self).pending_since
                } else {
                    let since = if old(self).pending@.len() == 0 {
                        Some(now)
                    } else {
                        old(self).pending_since
                    };
                    let filled = old(self).pending@.push(file);
                    &&& final(self).result_count == old(self).result_count + 1
                    &&& if batch_due(old(self).family, filled.len(), age_at(since, now)) {
                        &&& r is Some
                        &&& r->0@ == filled
                        &&& final(self).pending@ == Seq::<FileRecord>::empty()
                        &&& final(self).pending_since is None
                    } else {
                        &&& r is None
                        &&& final(self).pending@ == filled
                        &&& final(self).pending_since == since
                    }
                },
                None => {
                    &&& r is None
                    &&& final(self).result_count == old(self).result_count
                    &&& final(self).pending@ == old(self).pending@
                    &&& final(self).pending_since == old(self).pending_since
                },
            },
    {
        if seen_key(&self.seen, &key) {
            return None;
        }
        self.seen.push(key);
        match record {
            Some(file) => {
                self.result_count = self.result_count + 1;
                if self.pending.len() == 0 {
                    self.pending_since = Some(now);
                }
                self.pending.push(file);
                let age: u64 = match self.pending_since {
                    Some(at) => if now >= at {
                        now - at
                    } else {
                        0
                    },
                    None => 0,
                };
                let old_batch: bool = match self.family {
                    HarvestFamily::Keyword => age >= PASSIVE_BATCH_FLUSH_INTERVAL_MS,
                    HarvestFamily::Source => false,
                    HarvestFamily::Notes => false,
                };
                if self.pending.len() >= PASSIVE_BATCH_SIZE || old_batch {
                    let mut batch: Vec<FileRecord> = Vec::new();
                    core::mem::swap(&mut batch, &mut self.pending);
                    self.pending_since = None;
                    Some(batch)
                } else {
                    None
                }
            },
            None => None,
        }
    }

    /// Decides about the stream after a result. `send_error` is why a batch that was due could
    /// not be handed over.
    pub fn after_result(&mut self, send_error: Option<String>) -> (r: StreamDecision)
        requires
            old(self).wf(),
        ensures
            final(self).wf(),
            *final(self) == (PassiveReplayRun {
                last_post_error: if send_error is Some {
                    send_error
                } else {
                    old(self).last_post_error
                },
                ..*old(self)
            }),
            r == if send_error is Some {
                StreamDecision::Stop
            } else if old(self).family == HarvestFamily::Source && old(self).result_count
                >= old(self).enough {
                StreamDecision::Cancel
            } else {
                StreamDecision::Continue
            },
    {
        match send_error {
            Some(error) => {
                self.last_post_error = Some(error);
                StreamDecision::Stop
            },
            None => match self.family {
                HarvestFamily::Source => if self.result_count >= self.enough {
                    StreamDecision::Cancel
                } else {
                    StreamDecision::Continue
                },
                HarvestFamily::Keyword => StreamDecision::Continue,
                HarvestFamily::Notes => StreamDecision::Continue,
            },
        }
    }

    /// Ends the current tier and notes what it brought.
    pub fn end_tier(&mut self)
        requires
            old(self).wf(),
            !old(self).exhausted(),
        ensures
            final(self).wf(),
            final(self).tier_summaries@ == old(self).tier_summaries@.push(
                KadPassiveReplayTierSummary {
                    responder_ceiling: old(self).tiers@[old(self).tier_summaries@.len() as int] as u32,
                    result_count: (old(self).result_count - old(self).tier_start) as u32,
                },
            ),
            *final(self) == (PassiveReplayRun {
                tier_start: old(self).result_count,
                tier_summaries: final(self).tier_summaries,
                ..*old(self)
            }),
    {
        let ceiling: usize = self.tiers[self.tier_summaries.len()];
        let results: usize = self.result_count - self.tier_start;
        self.tier_summaries.push(
            KadPassiveReplayTierSummary {
                responder_ceiling: #[verifier::truncate] (ceiling as u32),
                result_count: #[verifier::truncate] (results as u32),
            },
        );
        self.tier_start = self.result_count;
    }

    /// The results that no batch has carried yet, after the last tier.
    pub fn take_rest(&mut self) -> (r: Option<Vec<FileRecord>>)
        requires
            old(self).wf(),
        ensures
            final(self).wf(),
            r is Some <==> old(self).pending@.len() > 0,
            r matches Some(batch) ==> batch@ == old(self).pending@,
            final(self).pending@ == Seq::<FileRecord>::empty(),
            *final(self) == (PassiveReplayRun {
                pending: final(self).pending,
                pending_since: if r is Some {
                    None
                } else {
                    old(self).pending_since
                },
                ..*old(self)
            }),
    {
        if self.pending.len() == 0 {
            return None;
        }
        let mut batch: Vec<FileRecord> = Vec::new();
        core::mem::swap(&mut batch, &mut self.pending);
        self.pending_since = None;
        Some(batch)
    }

    /// What the run came to. The poster's own error, which comes last, wins.
    pub fn finish(self, rest_error: Option<String>, posted: PassiveBatchPosterOutcome) -> (r: PassiveReplayRunOutcome)
        ensures
            r.result_count == self.result_count,
            r.batch_count == posted.batch_count,
            r.tier_summaries == self.tier_summaries,
            r.last_post_error == if posted.last_post_error is Some {
                posted.last_post_error
            } else if rest_error is Some {
                rest_error
            } else {
                self.last_post_error
            },
    {
        let own_error: Option<String> = match rest_error {
            Some(error) => Some(error),
            None => self.last_post_error,
        };
        PassiveReplayRunOutcome {
            result_count: self.result_count,
            batch_count: posted.batch_count,
            tier_summaries: self.tier_summaries,
            last_post_error: match posted.last_post_error {
                Some(error) => Some(error),
                None => own_error,
            },
        }
    }
}

/// What the task that posts batches came to.
#[derive(Debug, PartialEq, Eq)]
pub struct PassiveBatchPosterOutcome {
    pub batch_count: usize,
    pub last_post_error: Option<String>,
}

impl PassiveBatchPosterOutcome {
    pub fn new() -> (r: PassiveBatchPosterOutcome)
        ensures
            r.batch_count == 0,
            r.last_post_error is None,
    {
        PassiveBatchPosterOutcome { batch_count: 0, last_post_error: None }
    }

    /// Notes how posting one batch ended.
    pub fn record(&mut self, error: Option<String>)
        requires
            error is None ==> old(self).batch_count < usize::MAX,
        ensures
            *final(self) == match error {
                Some(_) => PassiveBatchPosterOutcome { last_post_error: error, ..*old(self) },
                None => PassiveBatchPosterOutcome {
                    batch_count: (old(self).batch_count + 1) as usize,
                    ..*old(self)
                },
            },
    {
        match error {
            Some(error) => {
                self.last_post_error = Some(error);
            },
            None => {
                self.batch_count = self.batch_count + 1;
            },
        }
    }
}

/// The batch in which passive results are posted.
pub fn passive_result_batch(
    indexer_id: Uuid,
    replay_context: &HarvestReplayContext,
    files: Vec<FileRecord>,
) -> (r: ResultBatch)
    ensures
        r == (ResultBatch {
            job_id: None,
            indexer_id,
            protocol: Protocol::Kad2,
            harvest_context: Some(*replay_context),
            files,
        }),
{
    ResultBatch {
        job_id: None,
        indexer_id,
        protocol: Protocol::Kad2,
        harvest_context: Some(replay_context.clone()),
        files,
    }
}

/// A harvested request that is due for replay.
#[allow(inconsistent_fields)]
pub enum PassiveReplaySelection {
    Keyword { logical_key: String, request: SearchKeyReq },
    Source { logical_key: String, request: SearchSourceReq },
    Notes { logical_key: String, request: SearchNotesReq },
}

impl PassiveReplaySelection {
    pub open spec fn spec_family(self) -> HarvestFamily {
        match self {
            PassiveReplaySelection::Keyword { .. } => HarvestFamily::Keyword,
            PassiveReplaySelection::Source { .. } => HarvestFamily::Source,
            PassiveReplaySelection::Notes { .. } => HarvestFamily::Notes,
        }
    }

    /// The context that ties the results of a replay to its request.
    pub open spec fn context_for(self, replay_id: Uuid, context: HarvestReplayContext) -> bool {
        &&& context.replay_id == replay_id
        &&& context.family == self.spec_family()
        &&& match self {
            PassiveReplaySelection::Keyword { logical_key, request } => {
                &&& context.logical_key == logical_key
                &&& context.target@ == text::hex_text(request.target.0@)
                &&& context.start_position == Some(request.start_position)
                &&& context.size is None
                &&& types::opt_text(context.restrictive_payload_hex) == snoop::payload_text(
                    request.restrictive_payload@,
                )
            },
            PassiveReplaySelection::Source { logical_key, request } => {
                &&& context.logical_key == logical_key
                &&& context.target@ == text::hex_text(request.target.0@)
                &&& context.start_position == Some(request.start_position)
                &&& context.size == Some(request.size)
                &&& context.restrictive_payload_hex is None
            },
            PassiveReplaySelection::Notes { logical_key, request } => {
                &&& context.logical_key == logical_key
                &&& context.target@ == text::hex_text(request.target.0@)
                &&& context.start_position is None
                &&& context.size == Some(request.size)
                &&& context.restrictive_payload_hex is None
            },
        }
    }

    pub fn replay_context(&self, replay_id: Uuid) -> (r: HarvestReplayContext)
        ensures
            self.context_for(replay_id, r),
    {
        match self {
            PassiveReplaySelection::Keyword { logical_key, request } => HarvestReplayContext {
                replay_id,
                family: HarvestFamily::Keyword,
                logical_key: logical_key.clone(),
                target: request.target.to_text(),
                start_position: Some(request.start_position),
                size: None,
                restrictive_payload_hex: payload_hex(&request.restrictive_payload),
            },
            PassiveReplaySelection::Source { logical_key, request } => HarvestReplayContext {
                replay_id,
                family: HarvestFamily::Source,
                logical_key: logical_key.clone(),
                target: request.target.to_text(),
                start_position: Some(request.start_position),
                size: Some(request.size),
                restrictive_payload_hex: None,
            },
            PassiveReplaySelection::Notes { logical_key, request } => HarvestReplayContext {
                replay_id,
                family: HarvestFamily::Notes,
                logical_key: logical_key.clone(),
                target: request.target.to_text(),
                start_position: None,
                size: Some(request.size),
                restrictive_payload_hex: None,
            },
        }
    }

    /// The payload size that the start of the replay is recorded with.
    pub open spec fn payload_bytes(self) -> Option<u32> {
        match self {
            PassiveReplaySelection::Keyword { request, .. } => Some(request.restrictive_payload@.len() as u32),
            _ => None,
        }
    }

    pub fn restrictive_payload_bytes(&self) -> (r: Option<u32>)
        ensures
            r == self.payload_bytes(),
    {
        match self {
            PassiveReplaySelection::Keyword { request, .. } => {
                let len: usize = request.restrictive_payload.len();
                Some(#[verifier::truncate] (len as u32))
            },
            PassiveReplaySelection::Source { .. } => None,
            PassiveReplaySelection::Notes { .. } => None,
        }
    }
}

/// The record of a replay that is posted once it is over, whether or not it found anything.
pub fn harvest_replay_record(
    context: &HarvestReplayContext,
    indexer_id: Uuid,
    started_at: Timestamp,
    completed_at: Timestamp,
    outcome: &PassiveReplayRunOutcome,
) -> (r: HarvestReplayRecord)
    ensures
        r == (HarvestReplayRecord {
            replay_id: context.replay_id,
            indexer_id,
            family: context.family,
            logical_key: context.logical_key,
            target: context.target,
            start_position: context.start_position,
            size: context.size,
            restrictive_payload_hex: context.restrictive_payload_hex,
            started_at,
            completed_at,
            result_count: outcome.result_count as u32,
            batch_count: outcome.batch_count as u32,
            error: outcome.last_post_error,
        }),
{
    HarvestReplayRecord {
        replay_id: context.replay_id,
        indexer_id,
        family: context.family,
        logical_key: context.logical_key.clone(),
        target: context.target.clone(),
        start_position: context.start_position,
        size: context.size,
        restrictive_payload_hex: clone_text(&context.restrictive_payload_hex),
        started_at,
        completed_at,
        result_count: #[verifier::truncate] (outcome.result_count as u32),
        batch_count: #[verifier::truncate] (outcome.batch_count as u32),
        error: clone_text(&outcome.last_post_error),
    }
}

/// Whether the tiers account for every result counted so far outside the current tier.
pub open spec fn tiers_account(run: PassiveReplayRun) -> bool {
    tier_total(run.tier_summaries@) == run.tier_start
}

/// The tiers of a run account for all its results: ending a tier adds exactly its own, as long
/// as the results of one tier fit a `u32`.
pub proof fn law_tiers_account_for_results(before: PassiveReplayRun, after: PassiveReplayRun)
    requires
        before.wf(),
        !before.exhausted(),
        tiers_account(before),
        before.result_count - before.tier_start <= u32::MAX,
        after.tier_start == before.result_count,
        after.tier_summaries@ == before.tier_summaries@.push(
            KadPassiveReplayTierSummary {
                responder_ceiling: before.tiers@[before.tier_summaries@.len() as int] as u32,
                result_count: (before.result_count - before.tier_start) as u32,
            },
        ),
    ensures
        tiers_account(after),
{
    assert(after.tier_summaries@.drop_last() =~= before.tier_summaries@);
}

/// A run searches at least one tier, at most all of them, and never one after it has enough.
pub proof fn law_run_searches_some_tier(run: PassiveReplayRun, max_phase2_fanout: usize)
    requires
        run.wf(),
        run.tiers@ == passive_replay::tier_limits(max_phase2_fanout),
    ensures
        run.tier_summaries@.len() == 0 ==> run.searching(),
        run.searching() && run.tier_summaries@.len() > 0 ==> run.result_count < run.enough,
        run.tier_summaries@.len() == run.tiers@.len() ==> !run.searching(),
{
}

/// Two results of one replay are the same exactly where they are of one file, of one peer, or of one
/// author; results of different kinds never are.
pub proof fn law_replay_keys(
    a: &SearchResult,
    b: &SearchResult,
    s: &SourceResult,
    t: &SourceResult,
    n: &NoteResult,
    m: &NoteResult,
    key_a: ReplayKey,
    key_b: ReplayKey,
    key_s: ReplayKey,
    key_t: ReplayKey,
    key_n: ReplayKey,
    key_m: ReplayKey,
)
    requires
        call_ensures(ReplayKey::of_keyword, (a,), key_a),
        call_ensures(ReplayKey::of_keyword, (b,), key_b),
        call_ensures(ReplayKey::of_source, (s,), key_s),
        call_ensures(ReplayKey::of_source, (t,), key_t),
        call_ensures(ReplayKey::of_notes, (n,), key_n),
        call_ensures(ReplayKey::of_notes, (m,), key_m),
    ensures
        key_a == key_b <==> a.hash == b.hash,
        key_s == key_t <==> s.ip == t.ip && s.tcp_port == t.tcp_port && s.udp_port == t.udp_port,
        key_n == key_m <==> n.source_id == m.source_id,
        key_a != key_s && key_a != key_n && key_s != key_n,
{
}

/// A run starts with nothing counted. Keywords and notes have enough where they are not thin, sources
/// at the configured number, and at one at least.
pub proof fn law_replay_run_begins(family: HarvestFamily, fanout: usize, stop_after: usize, r: PassiveReplayRun, tier: Option<usize>)
    requires
        call_ensures(PassiveReplayRun::new, (family, fanout, stop_after), r),
        call_ensures(PassiveReplayRun::next_tier, (&r,), tier),
    ensures
        r.family == family,
        r.result_count == 0 && r.seen@.len() == 0 && r.pending@.len() == 0 && r.tier_summaries@.len() == 0,
        r.last_post_error is None,
        family is Keyword ==> r.enough == 10,
        family is Notes ==> r.enough == 3,
        family is Source && stop_after >= 1 ==> r.enough == stop_after,
        family is Source && stop_after == 0 ==> r.enough == 1,
        r.tiers@.contains(10) && r.tiers@.contains(20),
        tier is Some,
        fanout == 0 || fanout >= 10 ==> tier == Some(10usize),
        0 < fanout < 10 ==> tier == Some(fanout),
{
    passive_replay::law_tiers_widen(fanout);
    assert(r.tiers@.contains(10));
    assert(r.tiers@.contains(20));
}

/// The tiers are searched in their order: the first in any case, and each further one only while
/// there are too few results.
pub proof fn law_next_tier(run: &PassiveReplayRun, r: Option<usize>)
    requires
        call_ensures(PassiveReplayRun::next_tier, (run,), r),
    ensures
        r matches Some(ceiling) ==> {
            &&& run.tier_summaries@.len() < run.tiers@.len()
            &&& ceiling == run.tiers@[run.tier_summaries@.len() as int]
            &&& run.tier_summaries@.len() > 0 ==> run.result_count < run.enough
        },
        run.tier_summaries@.len() == 0 && run.tiers@.len() > 0 ==> r is Some,
        run.tier_summaries@.len() < run.tiers@.len() && run.result_count < run.enough ==> r is Some,
{
}

/// A result counts once, and only where it can be reported. It is reported with those that wait as
/// soon as they are two hundred, or, of keywords, as the oldest has waited 300 milliseconds; until
/// then it waits, and none is lost.
pub proof fn law_results_are_batched(
    run: &mut PassiveReplayRun,
    key: ReplayKey,
    record: Option<FileRecord>,
    now: u64,
    r: Option<Vec<FileRecord>>,
)
    requires
        old(run).wf(),
        old(run).seen@.len() < usize::MAX,
        call_ensures(PassiveReplayRun::accept, (run, key, record, now), r),
    ensures
        final(run).seen@.contains(key),
        old(run).seen@.contains(key) || record is None ==> {
            &&& r is None
            &&& final(run).pending@ == old(run).pending@
            &&& final(run).result_count == old(run).result_count
        },
        !old(run).seen@.contains(key) ==> (record matches Some(file) ==> {
            &&& final(run).result_count == old(run).result_count + 1
            &&& r matches Some(batch) ==> {
                &&& batch@ == old(run).pending@.push(file)
                &&& final(run).pending@.len() == 0
                &&& batch@.len() >= 200 || old(run).family is Keyword
            }
            &&& r is None ==> final(run).pending@ == old(run).pending@.push(file)
            &&& old(run).pending@.len() >= 199 ==> r is Some
            &&& old(run).pending@.len() == 0 && r is None ==> final(run).pending_since == Some(now)
            &&& old(run).pending@.len() == 0 ==> r is None
            &&& old(run).pending@.len() > 0 ==> (old(run).pending_since matches Some(since) ==> {
                &&& old(run).family is Keyword && now >= since + 300 ==> r is Some
                &&& old(run).pending@.len() < 199 && now < since + 300 ==> r is None
                &&& old(run).pending@.len() < 199 && !(old(run).family is Keyword) ==> r is None
                &&& r is None ==> final(run).pending_since == Some(since)
            })
        }),
        final(run).pending@.len() < 200,
        final(run).enough == old(run).enough,
        final(run).tier_summaries == old(run).tier_summaries,
{
    let before = old(run).seen@;
    if !before.contains(key) {
        assert(before.push(key)[before.len() as int] == key);
    }
}

/// A batch that cannot be handed over stops the stream and is remembered; enough sources cancel the
/// search; otherwise it is read on.
pub proof fn law_stream_decisions(run: &mut PassiveReplayRun, send_error: Option<String>, r: StreamDecision)
    requires
        old(run).wf(),
        call_ensures(PassiveReplayRun::after_result, (run, send_error), r),
    ensures
        r is Stop <==> send_error is Some,
        send_error is Some ==> final(run).last_post_error == send_error,
        send_error is None ==> final(run).last_post_error == old(run).last_post_error,
        r is Cancel <==> send_error is None && old(run).family is Source && old(run).result_count >= old(run).enough,
        final(run).result_count == old(run).result_count,
        final(run).pending == old(run).pending,
{
}

/// A tier is noted with its ceiling and with the results that came in since the tier before it; and
/// the next tier starts at what has been counted.
pub proof fn law_tiers_are_noted(run: &mut PassiveReplayRun)
    requires
        old(run).wf(),
        old(run).tier_summaries@.len() < old(run).tiers@.len(),
        old(run).result_count - old(run).tier_start <= u32::MAX,
        old(run).tiers@[old(run).tier_summaries@.len() as int] <= u32::MAX,
        call_ensures(PassiveReplayRun::end_tier, (run,), ()),
    ensures
        final(run).tier_summaries@.len() == old(run).tier_summaries@.len() + 1,
        final(run).tier_summaries@.drop_last() == old(run).tier_summaries@,
        final(run).tier_summaries@.last().responder_ceiling == old(run).tiers@[old(run).tier_summaries@.len() as int],
        final(run).tier_summaries@.last().result_count == old(run).result_count - old(run).tier_start,
        final(run).tier_start == old(run).result_count,
        final(run).result_count == old(run).result_count,
{
    assert(final(run).tier_summaries@.drop_last() =~= old(run).tier_summaries@);
}

/// After the last tier what waits is reported, all of it and nothing else.
pub proof fn law_rest_is_taken(run: &mut PassiveReplayRun, r: Option<Vec<FileRecord>>)
    requires
        old(run).wf(),
        call_ensures(PassiveReplayRun::take_rest, (run,), r),
    ensures
        old(run).pending@.len() == 0 <==> r is None,
        r matches Some(batch) ==> batch@ == old(run).pending@,
        final(run).pending@.len() == 0,
        final(run).result_count == old(run).result_count,
{
}

/// A run comes to the results that it counted, the posts that succeeded and the tiers that it noted;
/// of its errors the poster's comes first, then that of the rest, then its own.
pub proof fn law_replay_run_ends(
    run: PassiveReplayRun,
    rest_error: Option<String>,
    posted: PassiveBatchPosterOutcome,
    r: PassiveReplayRunOutcome,
)
    requires
        call_ensures(PassiveReplayRun::finish, (run, rest_error, posted), r),
    ensures
        r.result_count == run.result_count,
        r.batch_count == posted.batch_count,
        r.tier_summaries == run.tier_summaries,
        posted.last_post_error is Some ==> r.last_post_error == posted.last_post_error,
        posted.last_post_error is None && rest_error is Some ==> r.last_post_error == rest_error,
        posted.last_post_error is None && rest_error is None ==> r.last_post_error == run.last_post_error,
{
}

/// Only a post that succeeds is counted; one that fails is remembered.
pub proof fn law_posts_are_counted(fresh: PassiveBatchPosterOutcome, outcome: &mut PassiveBatchPosterOutcome, error: Option<String>)
    requires
        old(outcome).batch_count < usize::MAX,
        call_ensures(PassiveBatchPosterOutcome::new, (), fresh),
        call_ensures(PassiveBatchPosterOutcome::record, (outcome, error), ()),
    ensures
        fresh.batch_count == 0 && fresh.last_post_error is None,
        error is None ==> final(outcome).batch_count == old(outcome).batch_count + 1,
        error is None ==> final(outcome).last_post_error == old(outcome).last_post_error,
        error is Some ==> final(outcome).batch_count == old(outcome).batch_count,
        error is Some ==> final(outcome).last_post_error == error,
{
}

/// A passive batch belongs to no job, and says which agent posts it, over which network, and what was
/// replayed.
pub proof fn law_passive_batch(indexer_id: Uuid, context: &HarvestReplayContext, files: Vec<FileRecord>, r: ResultBatch)
    requires
        call_ensures(passive_result_batch, (indexer_id, context, files), r),
    ensures
        r.job_id is None,
        r.indexer_id == indexer_id,
        r.protocol is Kad2,
        r.harvest_context == Some(*context),
        r.files == files,
{
}

/// A replay is about the request that was harvested: its key, its target, and what else a request of
/// its family carries.
pub proof fn law_replay_context(
    selection: &PassiveReplaySelection,
    replay_id: Uuid,
    context: HarvestReplayContext,
    bytes: Option<u32>,
)
    requires
        call_ensures(PassiveReplaySelection::replay_context, (selection, replay_id), context),
        call_ensures(PassiveReplaySelection::restrictive_payload_bytes, (selection,), bytes),
    ensures
        context.replay_id == replay_id,
        *selection matches PassiveReplaySelection::Keyword { logical_key, request } ==> {
            &&& context.family is Keyword
            &&& context.logical_key == logical_key
            &&& context.target@.len() == 32 && text::hex_bytes(context.target@) == request.target.0@
            &&& context.start_position == Some(request.start_position)
            &&& context.size is None
            &&& context.restrictive_payload_hex is Some <==> request.restrictive_payload@.len() > 0
            &&& context.restrictive_payload_hex matches Some(hex) ==> text::hex_bytes(hex@)
                == request.restrictive_payload@
            &&& request.restrictive_payload@.len() <= u32::MAX ==> (bytes matches Some(n) && n
                == request.restrictive_payload@.len())
        },
        *selection matches PassiveReplaySelection::Source { logical_key, request } ==> {
            &&& context.family is Source
            &&& context.logical_key == logical_key
            &&& context.target@.len() == 32 && text::hex_bytes(context.target@) == request.target.0@
            &&& context.start_position == Some(request.start_position)
            &&& context.size == Some(request.size)
            &&& context.restrictive_payload_hex is None
            &&& bytes is None
        },
        *selection matches PassiveReplaySelection::Notes { logical_key, request } ==> {
            &&& context.family is Notes
            &&& context.logical_key == logical_key
            &&& context.target@.len() == 32 && text::hex_bytes(context.target@) == request.target.0@
            &&& context.start_position is None
            &&& context.size == Some(request.size)
            &&& context.restrictive_payload_hex is None
            &&& bytes is None
        },
{
    match *selection {
        PassiveReplaySelection::Keyword { request, .. } => {
            crate::ids::law_hex_round_trip(request.target.0@);
            crate::ids::law_hex_round_trip(request.restrictive_payload@);
        },
        PassiveReplaySelection::Source { request, .. } => {
            crate::ids::law_hex_round_trip(request.target.0@);
        },
        PassiveReplaySelection::Notes { request, .. } => {
            crate::ids::law_hex_round_trip(request.target.0@);
        },
    }
}

/// The record that is posted of a replay is about what was replayed, by whom and when, and says what
/// it came to.
pub proof fn law_posted_record(
    context: &HarvestReplayContext,
    indexer_id: Uuid,
    started_at: Timestamp,
    completed_at: Timestamp,
    outcome: &PassiveReplayRunOutcome,
    r: HarvestReplayRecord,
)
    requires
        outcome.result_count <= u32::MAX,
        outcome.batch_count <= u32::MAX,
        call_ensures(harvest_replay_record, (context, indexer_id, started_at, completed_at, outcome), r),
    ensures
        r.replay_id == context.replay_id && r.indexer_id == indexer_id && r.family == context.family,
        r.logical_key == context.logical_key && r.target == context.target,
        r.start_position == context.start_position && r.size == context.size,
        r.restrictive_payload_hex == context.restrictive_payload_hex,
        r.started_at == started_at && r.completed_at == completed_at,
        r.result_count == outcome.result_count && r.batch_count == outcome.batch_count,
        r.error == outcome.last_post_error,
{
}

} // verus!
