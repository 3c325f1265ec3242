//! Passive replay of harvested requests: telemetry, tiers, and the order of families.

use vstd::prelude::*;
use vstd::string::*;
use crate::ids::Timestamp;
use crate::kad::K;
use crate::types;
use crate::types::{
    HarvestFamily, KadHarvestFamilyObservability, KadHarvestObservability,
    KadPassiveReplayObservability, KadPassiveReplayTierSummary, SnoopEntry,
};

verus! {

broadcast use vstd::string::group_string_axioms;

pub const PASSIVE_REPLAY_CONCURRENCY: usize = 2;

pub const PASSIVE_KEYWORD_THIN_RESULT_THRESHOLD: usize = 10;

pub const PASSIVE_SOURCE_THIN_RESULT_THRESHOLD: usize = 3;

pub const PASSIVE_NOTES_THIN_RESULT_THRESHOLD: usize = 3;

/// How many harvested requests of each family wait to be replayed.
#[derive(Debug, Clone, Copy, PartialEq, Eq, Structural)]
pub struct SnoopQueueFamilyCounts {
    pub keyword: usize,
    pub source: usize,
    pub notes: usize,
}

impl KadHarvestObservability {
    /// The request telemetry of one family.
    pub open spec fn requests(self, family: HarvestFamily) -> KadHarvestFamilyObservability {
        match family {
            HarvestFamily::Keyword => self.keyword_requests,
            HarvestFamily::Source => self.source_requests,
            HarvestFamily::Notes => self.notes_requests,
        }
    }

    /// The replay telemetry of one family.
    pub open spec fn replay(self, family: HarvestFamily) -> KadPassiveReplayObservability {
        match family {
            HarvestFamily::Keyword => self.passive_keyword_replay,
            HarvestFamily::Source => self.passive_source_replay,
            HarvestFamily::Notes => self.passive_notes_replay,
        }
    }

    /// `self` with other request telemetry for one family.
    pub open spec fn with_requests(
        self,
        family: HarvestFamily,
        value: KadHarvestFamilyObservability,
    ) -> KadHarvestObservability {
        match family {
            HarvestFamily::Keyword => KadHarvestObservability { keyword_requests: value, ..self },
            HarvestFamily::Source => KadHarvestObservability { source_requests: value, ..self },
            HarvestFamily::Notes => KadHarvestObservability { notes_requests: value, ..self },
        }
    }

    /// `self` with other replay telemetry for one family.
    pub open spec fn with_replay(
        self,
        family: HarvestFamily,
        value: KadPassiveReplayObservability,
    ) -> KadHarvestObservability {
        match family {
            HarvestFamily::Keyword => KadHarvestObservability { passive_keyword_replay: value, ..self },
            HarvestFamily::Source => KadHarvestObservability { passive_source_replay: value, ..self },
            HarvestFamily::Notes => KadHarvestObservability { passive_notes_replay: value, ..self },
        }
    }
}

fn harvest_family_mut<'a>(
    observability: &'a mut KadHarvestObservability,
    entry: &SnoopEntry,
) -> (r: &'a mut KadHarvestFamilyObservability)
    ensures
        *r == old(observability).requests(entry.spec_family()),
        *final(observability) == old(observability).with_requests(entry.spec_family(), *final(r)),
{
    match entry {
        SnoopEntry::Keyword { .. } => &mut observability.keyword_requests,
        SnoopEntry::Source { .. } => &mut observability.source_requests,
        SnoopEntry::Notes { .. } => &mut observability.notes_requests,
    }
}

fn passive_replay_observability_mut<'a>(
    observability: &'a mut KadHarvestObservability,
    family: HarvestFamily,
) -> (r: &'a mut KadPassiveReplayObservability)
    ensures
        *r == old(observability).replay(family),
        *final(observability) == old(observability).with_replay(family, *final(r)),
{
    match family {
        HarvestFamily::Keyword => &mut observability.passive_keyword_replay,
        HarvestFamily::Source => &mut observability.passive_source_replay,
        HarvestFamily::Notes => &mut observability.passive_notes_replay,
    }
}

/// The number of payload bytes that a hexadecimal payload stands for.
pub open spec fn restrictive_bytes(payload: Option<String>) -> u32 {
    match payload {
        Some(p) => (vstd::utf8::encode_utf8(p@).len() / 2) as u32,
        None => 0,
    }
}

fn restrictive_byte_count(payload: &Option<String>) -> (r: u32)
    ensures
        r == restrictive_bytes(*payload),
{
    match payload {
        Some(p) => {
            let bytes: &[u8] = p.as_str().as_bytes();
            #[verifier::truncate]
            ((bytes.len() / 2) as u32)
        },
        None => 0,
    }
}

/// The telemetry of a family after one more request, whatever its texts.
pub open spec fn harvest_record_applied(
    before: KadHarvestFamilyObservability,
    after: KadHarvestFamilyObservability,
    from: Seq<char>,
    entry: SnoopEntry,
    is_new: bool,
) -> bool {
    &&& after.observed_requests == before.observed_requests + 1
    &&& after.unique_shapes_observed == before.unique_shapes_observed + (if is_new {
        1int
    } else {
        0
    })
    &&& after.queued_entries == before.queued_entries
    &&& after.last_seen_at == Some(entry.last())
    &&& types::opt_text(after.last_from) == Some(from)
    &&& types::opt_text(after.last_target) == Some(entry.target_of()@)
    &&& after.last_start_position == entry.start_of()
    &&& after.last_size == entry.size_of()
    &&& after.last_restrictive_bytes == if entry is Keyword {
        Some(restrictive_bytes(entry.payload_of()))
    } else {
        None
    }
}

/// Counts one observed request, received from the address that `from` spells.
pub fn apply_harvest_record(
    observability: &mut KadHarvestObservability,
    from: &str,
    entry: &SnoopEntry,
    is_new: bool,
)
    requires
        old(observability).requests(entry.spec_family()).observed_requests < u64::MAX,
        is_new ==> old(observability).requests(entry.spec_family()).unique_shapes_observed < u64::MAX,
    ensures
        harvest_record_applied(
            old(observability).requests(entry.spec_family()),
            final(observability).requests(entry.spec_family()),
            from@,
            *entry,
            is_new,
        ),
        *final(observability) == old(observability).with_requests(
            entry.spec_family(),
            final(observability).requests(entry.spec_family()),
        ),
{
    let family = harvest_family_mut(observability, entry);
    family.observed_requests = family.observed_requests + 1;
    if is_new {
        family.unique_shapes_observed = family.unique_shapes_observed + 1;
    }
    family.last_seen_at = Some(entry.last_seen());
    family.last_from = Some(from.to_owned());
    family.last_target = Some(entry.target().to_owned());
    match entry {
        SnoopEntry::Keyword { start_position, restrictive_payload_hex, .. } => {
            family.last_start_position = Some(*start_position);
            family.last_size = None;
            family.last_restrictive_bytes = Some(restrictive_byte_count(restrictive_payload_hex));
        },
        SnoopEntry::Source { start_position, size, .. } => {
            family.last_start_position = Some(*start_position);
            family.last_size = Some(*size);
            family.last_restrictive_bytes = None;
        },
        SnoopEntry::Notes { size, .. } => {
            family.last_start_position = None;
            family.last_size = Some(*size);
            family.last_restrictive_bytes = None;
        },
    }
}

/// Refreshes the queue depths of all families.
pub fn apply_queue_family_counts(
    observability: &mut KadHarvestObservability,
    counts: SnoopQueueFamilyCounts,
)
    ensures
        *final(observability) == (KadHarvestObservability {
            keyword_requests: KadHarvestFamilyObservability {
                queued_entries: counts.keyword as u32,
                ..old(observability).keyword_requests
            },
            source_requests: KadHarvestFamilyObservability {
                queued_entries: counts.source as u32,
                ..old(observability).source_requests
            },
            notes_requests: KadHarvestFamilyObservability {
                queued_entries: counts.notes as u32,
                ..old(observability).notes_requests
            },
            ..*old(observability)
        }),
{
    observability.keyword_requests.queued_entries = #[verifier::truncate] (counts.keyword as u32);
    observability.source_requests.queued_entries = #[verifier::truncate] (counts.source as u32);
    observability.notes_requests.queued_entries = #[verifier::truncate] (counts.notes as u32);
}

/// What operators are shown of harvesting: what is stored, with the queue as deep as it is now.
/// The stored telemetry stays as it is.
pub fn reported_harvest_observability(
    stored: &KadHarvestObservability,
    counts: SnoopQueueFamilyCounts,
) -> (r: KadHarvestObservability)
    ensures
        r.keyword_requests == (KadHarvestFamilyObservability {
            queued_entries: counts.keyword as u32,
            ..stored.keyword_requests
        }),
        r.source_requests == (KadHarvestFamilyObservability {
            queued_entries: counts.source as u32,
            ..stored.source_requests
        }),
        r.notes_requests == (KadHarvestFamilyObservability {
            queued_entries: counts.notes as u32,
            ..stored.notes_requests
        }),
        stored.passive_keyword_replay.same(r.passive_keyword_replay),
        stored.passive_source_replay.same(r.passive_source_replay),
        stored.passive_notes_replay.same(r.passive_notes_replay),
{
    let mut reported: KadHarvestObservability = stored.clone();
    apply_queue_family_counts(&mut reported, counts);
    reported
}

/// The responder ceilings that a replay widens through: the positive ones among `K`, `2 K` and
/// the configured fan-out, in increasing order and each once.
pub open spec fn tier_limits(max_phase2_fanout: usize) -> Seq<usize> {
    if max_phase2_fanout == 0 || max_phase2_fanout == K || max_phase2_fanout == 2 * K {
        seq![K, (2 * K) as usize]
    } else if max_phase2_fanout < K {
        seq![max_phase2_fanout, K, (2 * K) as usize]
    } else if max_phase2_fanout < 2 * K {
        seq![K, max_phase2_fanout, (2 * K) as usize]
    } else {
        seq![K, (2 * K) as usize, max_phase2_fanout]
    }
}

pub fn passive_replay_tier_contact_limits(max_phase2_fanout: usize) -> (r: Vec<usize>)
    ensures
        r@ == tier_limits(max_phase2_fanout),
{
    let double: usize = K * 2;
    let mut tiers: Vec<usize> = Vec::new();
    if 0 < max_phase2_fanout && max_phase2_fanout < K {
        tiers.push(max_phase2_fanout);
    }
    tiers.push(K);
    if K < max_phase2_fanout && max_phase2_fanout < double {
        tiers.push(max_phase2_fanout);
    }
    tiers.push(double);
    if double < max_phase2_fanout {
        tiers.push(max_phase2_fanout);
    }
    assert(tiers@ =~= tier_limits(max_phase2_fanout));
    tiers
}

/// Tiers only ever widen, start above zero, and hold exactly the positive candidates.
pub proof fn law_tiers_widen(max_phase2_fanout: usize)
    ensures
        forall|i: int, j: int|
            0 <= i < j < tier_limits(max_phase2_fanout).len() ==> tier_limits(max_phase2_fanout)[i]
                < tier_limits(max_phase2_fanout)[j],
        forall|limit: usize|
            tier_limits(max_phase2_fanout).contains(limit) <==> limit > 0 && (limit == K || limit == 2 * K
                || limit == max_phase2_fanout),
{
    let tiers = tier_limits(max_phase2_fanout);
    assert forall|limit: usize|
        limit > 0 && (limit == K || limit == 2 * K || limit == max_phase2_fanout) implies tiers.contains(limit) by {
        assert(tiers[0] == limit || tiers[1] == limit || (tiers.len() > 2 && tiers[2] == limit));
    }
}

/// A replay with fewer results than this is thin, and is widened.
pub open spec fn thin_threshold(family: HarvestFamily) -> usize {
    match family {
        HarvestFamily::Keyword => PASSIVE_KEYWORD_THIN_RESULT_THRESHOLD,
        HarvestFamily::Source => PASSIVE_SOURCE_THIN_RESULT_THRESHOLD,
        HarvestFamily::Notes => PASSIVE_NOTES_THIN_RESULT_THRESHOLD,
    }
}

pub fn passive_replay_thin_result_threshold(family: HarvestFamily) -> (r: usize)
    ensures
        r == thin_threshold(family),
{
    match family {
        HarvestFamily::Keyword => PASSIVE_KEYWORD_THIN_RESULT_THRESHOLD,
        HarvestFamily::Source => PASSIVE_SOURCE_THIN_RESULT_THRESHOLD,
        HarvestFamily::Notes => PASSIVE_NOTES_THIN_RESULT_THRESHOLD,
    }
}

/// A family's telemetry after an idle cycle.
pub open spec fn idled(before: KadPassiveReplayObservability, at: Timestamp) -> KadPassiveReplayObservability {
    KadPassiveReplayObservability {
        idle_cycles: (before.idle_cycles + 1) as u64,
        last_idle_at: Some(at),
        ..before
    }
}

pub fn record_passive_replay_idle(
    observability: &mut KadHarvestObservability,
    family: HarvestFamily,
    observed_at: Timestamp,
)
    requires
        old(observability).replay(family).idle_cycles < u64::MAX,
    ensures
        *final(observability) == old(observability).with_replay(
            family,
            idled(old(observability).replay(family), observed_at),
        ),
{
    let replay = passive_replay_observability_mut(observability, family);
    replay.idle_cycles = replay.idle_cycles + 1;
    replay.last_idle_at = Some(observed_at);
}

/// An idle worker counts for its own family, or for all three where it serves all.
pub fn record_passive_replay_idle_for_worker(
    observability: &mut KadHarvestObservability,
    preferred_family: Option<HarvestFamily>,
    now: Timestamp,
)
    requires
        forall|family: HarvestFamily|
            (preferred_family is None || preferred_family == Some(family)) ==> #[trigger] old(observability).replay(family).idle_cycles
                < u64::MAX,
    ensures
        *final(observability) == match preferred_family {
            Some(family) => old(observability).with_replay(
                family,
                idled(old(observability).replay(family), now),
            ),
            None => KadHarvestObservability {
                passive_keyword_replay: idled(old(observability).passive_keyword_replay, now),
                passive_source_replay: idled(old(observability).passive_source_replay, now),
                passive_notes_replay: idled(old(observability).passive_notes_replay, now),
                ..*old(observability)
            },
        },
{
    match preferred_family {
        Some(family) => {
            assert(old(observability).replay(family).idle_cycles < u64::MAX);
            record_passive_replay_idle(observability, family, now)
        },
        None => {
            assert(old(observability).replay(HarvestFamily::Keyword).idle_cycles < u64::MAX);
            assert(old(observability).replay(HarvestFamily::Source).idle_cycles < u64::MAX);
            assert(old(observability).replay(HarvestFamily::Notes).idle_cycles < u64::MAX);
            record_passive_replay_idle(observability, HarvestFamily::Keyword, now);
            record_passive_replay_idle(observability, HarvestFamily::Source, now);
            record_passive_replay_idle(observability, HarvestFamily::Notes, now);
        },
    }
}

/// A family's telemetry when a replay starts: the traces of the previous replay are gone.
pub open spec fn replay_started(
    before: KadPassiveReplayObservability,
    after: KadPassiveReplayObservability,
    target: String,
    start_position: Option<u16>,
    restrictive_bytes: Option<u32>,
    started_at: Timestamp,
) -> bool {
    &&& after.last_tiers@ == Seq::<KadPassiveReplayTierSummary>::empty()
    &&& after == (KadPassiveReplayObservability {
        started_cycles: (before.started_cycles + 1) as u64,
        last_started_at: Some(started_at),
        last_target: Some(target),
        last_start_position: start_position,
        last_restrictive_bytes: restrictive_bytes,
        last_tiers: after.last_tiers,
        last_tiers_attempted: 0,
        last_widest_responder_ceiling: None,
        last_widened: false,
        last_error: None,
        last_error_at: None,
        ..before
    })
}

pub fn record_passive_replay_start(
    observability: &mut KadHarvestObservability,
    family: HarvestFamily,
    target: String,
    start_position: Option<u16>,
    restrictive_bytes: Option<u32>,
    started_at: Timestamp,
)
    requires
        old(observability).replay(family).started_cycles < u64::MAX,
    ensures
        replay_started(
            old(observability).replay(family),
            final(observability).replay(family),
            target,
            start_position,
            restrictive_bytes,
            started_at,
        ),
        *final(observability) == old(observability).with_replay(
            family,
            final(observability).replay(family),
        ),
{
    let replay = passive_replay_observability_mut(observability, family);
    replay.started_cycles = replay.started_cycles + 1;
    replay.last_started_at = Some(started_at);
    replay.last_target = Some(target);
    replay.last_start_position = start_position;
    replay.last_restrictive_bytes = restrictive_bytes;
    replay.last_tiers.clear();
    replay.last_tiers_attempted = 0;
    replay.last_widest_responder_ceiling = None;
    replay.last_widened = false;
    replay.last_error = None;
    replay.last_error_at = None;
}

/// A family's telemetry when a replay ends.
pub open spec fn replay_completed(
    before: KadPassiveReplayObservability,
    completed_at: Timestamp,
    replayed_results: usize,
    batches_posted: usize,
    tiers: Vec<KadPassiveReplayTierSummary>,
) -> KadPassiveReplayObservability {
    KadPassiveReplayObservability {
        completed_cycles: (before.completed_cycles + 1) as u64,
        emitted_results: (before.emitted_results + replayed_results) as u64,
        posted_batches: (before.posted_batches + batches_posted) as u64,
        last_completed_at: Some(completed_at),
        last_result_count: replayed_results as u32,
        last_batches_posted: batches_posted as u32,
        last_tiers_attempted: tiers@.len() as u32,
        last_widest_responder_ceiling: if tiers@.len() == 0 {
            None
        } else {
            Some(tiers@.last().responder_ceiling)
        },
        last_widened: tiers@.len() > 1,
        widened_cycles: (before.widened_cycles + (if tiers@.len() > 1 {
            1int
        } else {
            0
        })) as u64,
        last_tiers: tiers,
        ..before
    }
}

pub fn record_passive_replay_complete(
    observability: &mut KadHarvestObservability,
    family: HarvestFamily,
    completed_at: Timestamp,
    replayed_results: usize,
    batches_posted: usize,
    tier_summaries: Vec<KadPassiveReplayTierSummary>,
)
    requires
        old(observability).replay(family).completed_cycles < u64::MAX,
        old(observability).replay(family).emitted_results + replayed_results <= u64::MAX,
        old(observability).replay(family).posted_batches + batches_posted <= u64::MAX,
        tier_summaries@.len() > 1 ==> old(observability).replay(family).widened_cycles < u64::MAX,
    ensures
        *final(observability) == old(observability).with_replay(
            family,
            replay_completed(
                old(observability).replay(family),
                completed_at,
                replayed_results,
                batches_posted,
                tier_summaries,
            ),
        ),
{
    let replay = passive_replay_observability_mut(observability, family);
    let tier_count: usize = tier_summaries.len();
    replay.completed_cycles = replay.completed_cycles + 1;
    replay.emitted_results = replay.emitted_results + replayed_results as u64;
    replay.posted_batches = replay.posted_batches + batches_posted as u64;
    replay.last_completed_at = Some(completed_at);
    replay.last_result_count = #[verifier::truncate] (replayed_results as u32);
    replay.last_batches_posted = #[verifier::truncate] (batches_posted as u32);
    replay.last_tiers_attempted = #[verifier::truncate] (tier_count as u32);
    replay.last_widest_responder_ceiling = if tier_count == 0 {
        None
    } else {
        Some(tier_summaries[tier_count - 1].responder_ceiling)
    };
    replay.last_widened = tier_count > 1;
    if tier_count > 1 {
        replay.widened_cycles = replay.widened_cycles + 1;
    }
    replay.last_tiers = tier_summaries;
}

/// Milliseconds, capped at what a `u32` holds.
pub open spec fn capped_millis(millis: u128) -> u32 {
    if millis <= u32::MAX {
        millis as u32
    } else {
        u32::MAX
    }
}

fn cap_millis(millis: u128) -> (r: u32)
    ensures
        r == capped_millis(millis),
{
    if millis <= 0xFFFF_FFFF {
        millis as u32
    } else {
        0xFFFF_FFFF
    }
}

pub fn record_passive_replay_enqueue_wait(
    observability: &mut KadHarvestObservability,
    family: HarvestFamily,
    wait_millis: u128,
    backpressured: bool,
)
    requires
        backpressured ==> old(observability).replay(family).enqueue_backpressure_events < u64::MAX,
        old(observability).replay(family).enqueue_wait_millis + capped_millis(wait_millis) <= u64::MAX,
    ensures
        *final(observability) == old(observability).with_replay(
            family,
            KadPassiveReplayObservability {
                enqueue_backpressure_events: (old(observability).replay(family).enqueue_backpressure_events
                    + (if backpressured {
                    1int
                } else {
                    0
                })) as u64,
                enqueue_wait_millis: (old(observability).replay(family).enqueue_wait_millis
                    + capped_millis(wait_millis)) as u64,
                last_enqueue_wait_millis: capped_millis(wait_millis),
                ..old(observability).replay(family)
            },
        ),
{
    let replay = passive_replay_observability_mut(observability, family);
    if backpressured {
        replay.enqueue_backpressure_events = replay.enqueue_backpressure_events + 1;
    }
    let waited_millis: u32 = cap_millis(wait_millis);
    replay.enqueue_wait_millis = replay.enqueue_wait_millis + waited_millis as u64;
    replay.last_enqueue_wait_millis = waited_millis;
}

pub fn record_passive_replay_post_latency(
    observability: &mut KadHarvestObservability,
    family: HarvestFamily,
    latency_millis: u128,
)
    requires
        old(observability).replay(family).post_callbacks < u64::MAX,
        old(observability).replay(family).post_latency_millis + capped_millis(latency_millis) <= u64::MAX,
    ensures
        *final(observability) == old(observability).with_replay(
            family,
            KadPassiveReplayObservability {
                post_callbacks: (old(observability).replay(family).post_callbacks + 1) as u64,
                post_latency_millis: (old(observability).replay(family).post_latency_millis
                    + capped_millis(latency_millis)) as u64,
                last_post_latency_millis: capped_millis(latency_millis),
                ..old(observability).replay(family)
            },
        ),
{
    let replay = passive_replay_observability_mut(observability, family);
    let latency: u32 = cap_millis(latency_millis);
    replay.post_callbacks = replay.post_callbacks + 1;
    replay.post_latency_millis = replay.post_latency_millis + latency as u64;
    replay.last_post_latency_millis = latency;
}

pub fn record_passive_replay_post_failure(
    observability: &mut KadHarvestObservability,
    family: HarvestFamily,
    observed_at: Timestamp,
    error: &str,
)
    requires
        old(observability).replay(family).post_failures < u64::MAX,
    ensures
        types::opt_text(final(observability).replay(family).last_error) == Some(error@),
        *final(observability) == old(observability).with_replay(
            family,
            KadPassiveReplayObservability {
                post_failures: (old(observability).replay(family).post_failures + 1) as u64,
                last_error_at: Some(observed_at),
                last_error: final(observability).replay(family).last_error,
                ..old(observability).replay(family)
            },
        ),
{
    let replay = passive_replay_observability_mut(observability, family);
    replay.post_failures = replay.post_failures + 1;
    replay.last_error_at = Some(observed_at);
    replay.last_error = Some(error.to_owned());
}

/// The backlog of one family.
pub open spec fn backlog(counts: SnoopQueueFamilyCounts, family: HarvestFamily) -> usize {
    match family {
        HarvestFamily::Keyword => counts.keyword,
        HarvestFamily::Source => counts.source,
        HarvestFamily::Notes => counts.notes,
    }
}

/// The place of a family among families of equal backlog.
pub open spec fn family_rank(family: HarvestFamily) -> int {
    match family {
        HarvestFamily::Keyword => 0,
        HarvestFamily::Source => 1,
        HarvestFamily::Notes => 2,
    }
}

/// Whether `first` is replayed before `second`: the longer backlog first, and of equal ones
/// keyword before source before notes.
pub open spec fn replayed_before(
    counts: SnoopQueueFamilyCounts,
    first: HarvestFamily,
    second: HarvestFamily,
) -> bool {
    backlog(counts, first) > backlog(counts, second) || (backlog(counts, first) == backlog(
        counts,
        second,
    ) && family_rank(first) < family_rank(second))
}

/// All three families, in the order in which they are replayed.
pub open spec fn replay_order(counts: SnoopQueueFamilyCounts) -> Seq<HarvestFamily> {
    if counts.keyword >= counts.source && counts.keyword >= counts.notes {
        if counts.source >= counts.notes {
            seq![HarvestFamily::Keyword, HarvestFamily::Source, HarvestFamily::Notes]
        } else {
            seq![HarvestFamily::Keyword, HarvestFamily::Notes, HarvestFamily::Source]
        }
    } else if counts.source >= counts.notes {
        if counts.keyword >= counts.notes {
            seq![HarvestFamily::Source, HarvestFamily::Keyword, HarvestFamily::Notes]
        } else {
            seq![HarvestFamily::Source, HarvestFamily::Notes, HarvestFamily::Keyword]
        }
    } else {
        if counts.keyword >= counts.source {
            seq![HarvestFamily::Notes, HarvestFamily::Keyword, HarvestFamily::Source]
        } else {
            seq![HarvestFamily::Notes, HarvestFamily::Source, HarvestFamily::Keyword]
        }
    }
}

pub fn preferred_passive_replay_families(counts: SnoopQueueFamilyCounts) -> (r: [HarvestFamily; 3])
    ensures
        r@ == replay_order(counts),
{
    let r: [HarvestFamily; 3] = if counts.keyword >= counts.source && counts.keyword >= counts.notes {
        if counts.source >= counts.notes {
            [HarvestFamily::Keyword, HarvestFamily::Source, HarvestFamily::Notes]
        } else {
            [HarvestFamily::Keyword, HarvestFamily::Notes, HarvestFamily::Source]
        }
    } else if counts.source >= counts.notes {
        if counts.keyword >= counts.notes {
            [HarvestFamily::Source, HarvestFamily::Keyword, HarvestFamily::Notes]
        } else {
            [HarvestFamily::Source, HarvestFamily::Notes, HarvestFamily::Keyword]
        }
    } else {
        if counts.keyword >= counts.source {
            [HarvestFamily::Notes, HarvestFamily::Keyword, HarvestFamily::Source]
        } else {
            [HarvestFamily::Notes, HarvestFamily::Source, HarvestFamily::Keyword]
        }
    };
    assert(r@ =~= replay_order(counts));
    r
}

/// Every family has its turn, once, and never after one that it is replayed before.
pub proof fn law_replay_order(counts: SnoopQueueFamilyCounts)
    ensures
        replay_order(counts).len() == 3,
        forall|family: HarvestFamily| replay_order(counts).contains(family),
        forall|i: int, j: int|
            0 <= i < j < 3 ==> replayed_before(counts, replay_order(counts)[i], replay_order(counts)[j]),
{
    let order = replay_order(counts);
    assert forall|family: HarvestFamily| order.contains(family) by {
        assert(order[0] == family || order[1] == family || order[2] == family);
    }
}

/// The families that a worker tries, in order: the one it prefers, and then the others.
pub open spec fn worker_order(
    preferred_family: Option<HarvestFamily>,
    counts: SnoopQueueFamilyCounts,
) -> Seq<HarvestFamily> {
    match preferred_family {
        Some(preferred) => seq![preferred] + replay_order(counts).filter(
            |family: HarvestFamily| family != preferred,
        ),
        None => replay_order(counts),
    }
}

pub fn passive_replay_family_order(
    preferred_family: Option<HarvestFamily>,
    counts: SnoopQueueFamilyCounts,
) -> (r: Vec<HarvestFamily>)
    ensures
        r@ == worker_order(preferred_family, counts),
{
    let order: [HarvestFamily; 3] = preferred_passive_replay_families(counts);
    let mut families: Vec<HarvestFamily> = Vec::new();
    match preferred_family {
        Some(preferred) => {
            families.push(preferred);
            let ghost others = |family: HarvestFamily| family != preferred;
            let mut i: usize = 0;
            assert(order@.take(0).filter(others) =~= Seq::empty()) by {
                assert(order@.take(0) =~= Seq::empty());
                reveal(Seq::filter);
            }
            while i < 3
                invariant
                    i <= 3,
                    others == (|family: HarvestFamily| family != preferred),
                    families@ == seq![preferred] + order@.take(i as int).filter(others),
                decreases 3 - i,
            {
                proof {
                    assert(order@.take(i + 1).drop_last() =~= order@.take(i as int));
                    reveal(Seq::filter);
                }
                if order[i] != preferred {
                    families.push(order[i]);
                }
                assert(families@ =~= seq![preferred] + order@.take(i + 1).filter(others));
                i = i + 1;
            }
            assert(order@.take(3) =~= order@);
        },
        None => {
            families.push(order[0]);
            families.push(order[1]);
            families.push(order[2]);
            assert(families@ =~= order@);
        },
    }
    families
}

/// A request is counted in the family of its entry and nowhere else, as a new shape exactly where
/// it is new, and is remembered with where it came from and what it asked for.
pub proof fn law_requests_are_counted(
    observability: &mut KadHarvestObservability,
    from: &str,
    entry: &SnoopEntry,
    is_new: bool,
)
    requires
        old(observability).keyword_requests.observed_requests < u64::MAX,
        old(observability).source_requests.observed_requests < u64::MAX,
        old(observability).notes_requests.observed_requests < u64::MAX,
        old(observability).keyword_requests.unique_shapes_observed < u64::MAX,
        old(observability).source_requests.unique_shapes_observed < u64::MAX,
        old(observability).notes_requests.unique_shapes_observed < u64::MAX,
        call_ensures(apply_harvest_record, (observability, from, entry, is_new), ()),
    ensures
        *entry matches SnoopEntry::Keyword {
            target,
            start_position,
            restrictive_payload_hex,
            last_seen,
            ..
        } ==> {
            let before = old(observability).keyword_requests;
            let after = final(observability).keyword_requests;
            &&& after.observed_requests == before.observed_requests + 1
            &&& is_new ==> after.unique_shapes_observed == before.unique_shapes_observed + 1
            &&& !is_new ==> after.unique_shapes_observed == before.unique_shapes_observed
            &&& after.queued_entries == before.queued_entries
            &&& after.last_seen_at == Some(last_seen)
            &&& (after.last_from matches Some(text) && text@ == from@)
            &&& (after.last_target matches Some(text) && text@ == target@)
            &&& after.last_start_position == Some(start_position)
            &&& after.last_size is None
            &&& restrictive_payload_hex is None ==> after.last_restrictive_bytes == Some(0u32)
            &&& restrictive_payload_hex matches Some(hex) ==> (hex.is_ascii() && hex@.len() <= u32::MAX
                ==> after.last_restrictive_bytes == Some((hex@.len() / 2) as u32))
            &&& final(observability).source_requests == old(observability).source_requests
            &&& final(observability).notes_requests == old(observability).notes_requests
        },
        *entry matches SnoopEntry::Source { target, start_position, size, last_seen, .. } ==> {
            let before = old(observability).source_requests;
            let after = final(observability).source_requests;
            &&& after.observed_requests == before.observed_requests + 1
            &&& is_new ==> after.unique_shapes_observed == before.unique_shapes_observed + 1
            &&& !is_new ==> after.unique_shapes_observed == before.unique_shapes_observed
            &&& after.last_seen_at == Some(last_seen)
            &&& (after.last_from matches Some(text) && text@ == from@)
            &&& (after.last_target matches Some(text) && text@ == target@)
            &&& after.last_start_position == Some(start_position)
            &&& after.last_size == Some(size)
            &&& after.last_restrictive_bytes is None
            &&& final(observability).keyword_requests == old(observability).keyword_requests
            &&& final(observability).notes_requests == old(observability).notes_requests
        },
        *entry matches SnoopEntry::Notes { target, size, last_seen, .. } ==> {
            let before = old(observability).notes_requests;
            let after = final(observability).notes_requests;
            &&& after.observed_requests == before.observed_requests + 1
            &&& is_new ==> after.unique_shapes_observed == before.unique_shapes_observed + 1
            &&& !is_new ==> after.unique_shapes_observed == before.unique_shapes_observed
            &&& after.last_seen_at == Some(last_seen)
            &&& (after.last_from matches Some(text) && text@ == from@)
            &&& (after.last_target matches Some(text) && text@ == target@)
            &&& after.last_start_position is None
            &&& after.last_size == Some(size)
            &&& after.last_restrictive_bytes is None
            &&& final(observability).keyword_requests == old(observability).keyword_requests
            &&& final(observability).source_requests == old(observability).source_requests
        },
        final(observability).passive_keyword_replay == old(observability).passive_keyword_replay,
        final(observability).passive_source_replay == old(observability).passive_source_replay,
        final(observability).passive_notes_replay == old(observability).passive_notes_replay,
{
    if let SnoopEntry::Keyword { restrictive_payload_hex, .. } = *entry {
        if let Some(hex) = restrictive_payload_hex {
            if hex.is_ascii() {
                vstd::utf8::is_ascii_chars_encode_utf8(hex@);
                assert(vstd::utf8::encode_utf8(hex@).len() == hex@.len());
            }
        }
    }
}

/// A replay widens through the bucket size and its double, and through the configured fan-out where
/// there is one, each once and in increasing order.
pub proof fn law_tiers(max_phase2_fanout: usize, r: Vec<usize>, i: int, j: int)
    requires
        call_ensures(passive_replay_tier_contact_limits, (max_phase2_fanout,), r),
    ensures
        r@.contains(10),
        r@.contains(20),
        max_phase2_fanout > 0 ==> r@.contains(max_phase2_fanout),
        0 <= i < r@.len() ==> r@[i] == 10 || r@[i] == 20 || r@[i] == max_phase2_fanout,
        0 <= i < r@.len() ==> r@[i] > 0,
        0 <= i < j < r@.len() ==> r@[i] < r@[j],
{
    law_tiers_widen(max_phase2_fanout);
    assert(r@.contains(10));
    assert(r@.contains(20));
    if 0 <= i < r@.len() {
        assert(r@.contains(r@[i]));
    }
}

/// A replay of keywords is thin under ten results, any other under three.
pub proof fn law_thin(family: HarvestFamily, r: usize)
    requires
        call_ensures(passive_replay_thin_result_threshold, (family,), r),
    ensures
        family is Keyword ==> r == 10,
        family is Source ==> r == 3,
        family is Notes ==> r == 3,
{
}

/// An idle worker counts a cycle for its own family alone, or for each where it serves them all, and
/// notes when.
pub proof fn law_idle_workers(observability: &mut KadHarvestObservability, preferred: Option<HarvestFamily>, now: Timestamp)
    requires
        old(observability).passive_keyword_replay.idle_cycles < u64::MAX,
        old(observability).passive_source_replay.idle_cycles < u64::MAX,
        old(observability).passive_notes_replay.idle_cycles < u64::MAX,
        call_ensures(record_passive_replay_idle_for_worker, (observability, preferred, now), ()),
    ensures
        preferred is None || preferred == Some(HarvestFamily::Keyword) ==> {
            &&& final(observability).passive_keyword_replay.idle_cycles == old(observability).passive_keyword_replay.idle_cycles + 1
            &&& final(observability).passive_keyword_replay.last_idle_at == Some(now)
        },
        preferred is None || preferred == Some(HarvestFamily::Source) ==> {
            &&& final(observability).passive_source_replay.idle_cycles == old(observability).passive_source_replay.idle_cycles + 1
            &&& final(observability).passive_source_replay.last_idle_at == Some(now)
        },
        preferred is None || preferred == Some(HarvestFamily::Notes) ==> {
            &&& final(observability).passive_notes_replay.idle_cycles == old(observability).passive_notes_replay.idle_cycles + 1
            &&& final(observability).passive_notes_replay.last_idle_at == Some(now)
        },
        preferred is Some && preferred != Some(HarvestFamily::Keyword) ==> final(observability).passive_keyword_replay == old(observability).passive_keyword_replay,
        preferred is Some && preferred != Some(HarvestFamily::Source) ==> final(observability).passive_source_replay == old(observability).passive_source_replay,
        preferred is Some && preferred != Some(HarvestFamily::Notes) ==> final(observability).passive_notes_replay == old(observability).passive_notes_replay,
        final(observability).passive_keyword_replay.started_cycles == old(observability).passive_keyword_replay.started_cycles,
        final(observability).keyword_requests == old(observability).keyword_requests,
        final(observability).source_requests == old(observability).source_requests,
        final(observability).notes_requests == old(observability).notes_requests,
{
}

/// A replay that starts is counted, and is the one that the telemetry of its family speaks of: what
/// was said of the one before is gone, and its totals stay.
pub proof fn law_replay_starts(
    observability: &mut KadHarvestObservability,
    family: HarvestFamily,
    target: String,
    start_position: Option<u16>,
    payload_bytes: Option<u32>,
    started_at: Timestamp,
)
    requires
        old(observability).replay(family).started_cycles < u64::MAX,
        call_ensures(
            record_passive_replay_start,
            (observability, family, target, start_position, payload_bytes, started_at),
            (),
        ),
    ensures
        ({
            let before = old(observability).replay(family);
            let after = final(observability).replay(family);
            &&& after.started_cycles == before.started_cycles + 1
            &&& after.last_started_at == Some(started_at)
            &&& after.last_target == Some(target)
            &&& after.last_start_position == start_position
            &&& after.last_restrictive_bytes == payload_bytes
            &&& after.last_tiers@.len() == 0
            &&& after.last_tiers_attempted == 0
            &&& after.last_widest_responder_ceiling is None
            &&& !after.last_widened
            &&& after.last_error is None
            &&& after.last_error_at is None
            &&& after.completed_cycles == before.completed_cycles
            &&& after.idle_cycles == before.idle_cycles
            &&& after.emitted_results == before.emitted_results
            &&& after.posted_batches == before.posted_batches
            &&& after.post_failures == before.post_failures
            &&& after.widened_cycles == before.widened_cycles
            &&& after.last_completed_at == before.last_completed_at
            &&& after.last_idle_at == before.last_idle_at
        }),
{
}

/// A replay that ends adds its results and posts to the totals of its family, and is said to have
/// widened exactly where it searched more than one tier; its widest tier is its last.
pub proof fn law_replay_completes(
    observability: &mut KadHarvestObservability,
    family: HarvestFamily,
    completed_at: Timestamp,
    results: usize,
    posts: usize,
    tiers: Vec<KadPassiveReplayTierSummary>,
)
    requires
        old(observability).replay(family).completed_cycles < u64::MAX,
        old(observability).replay(family).emitted_results + results <= u64::MAX,
        old(observability).replay(family).posted_batches + posts <= u64::MAX,
        old(observability).replay(family).widened_cycles < u64::MAX,
        tiers@.len() <= u32::MAX,
        results <= u32::MAX,
        posts <= u32::MAX,
        call_ensures(
            record_passive_replay_complete,
            (observability, family, completed_at, results, posts, tiers),
            (),
        ),
    ensures
        ({
            let before = old(observability).replay(family);
            let after = final(observability).replay(family);
            &&& after.completed_cycles == before.completed_cycles + 1
            &&& after.last_completed_at == Some(completed_at)
            &&& after.emitted_results == before.emitted_results + results
            &&& after.posted_batches == before.posted_batches + posts
            &&& after.last_result_count == results
            &&& after.last_batches_posted == posts
            &&& after.last_tiers == tiers
            &&& after.last_tiers_attempted == tiers@.len()
            &&& tiers@.len() > 1 ==> after.last_widened && after.widened_cycles == before.widened_cycles + 1
            &&& tiers@.len() <= 1 ==> !after.last_widened && after.widened_cycles == before.widened_cycles
            &&& tiers@.len() > 0 ==> after.last_widest_responder_ceiling == Some(
                tiers@[tiers@.len() - 1].responder_ceiling,
            )
            &&& tiers@.len() == 0 ==> after.last_widest_responder_ceiling is None
            &&& after.started_cycles == before.started_cycles
            &&& after.idle_cycles == before.idle_cycles
            &&& after.post_failures == before.post_failures
            &&& after.last_target == before.last_target
            &&& after.last_error == before.last_error
        }),
{
}

/// A wait, and the time that a post takes, are added in milliseconds, as much as a `u32` holds of
/// each; only a wait under pressure counts as such, and a post counts once.
pub proof fn law_waits_and_posts(
    waited: &mut KadHarvestObservability,
    posted: &mut KadHarvestObservability,
    failed: &mut KadHarvestObservability,
    family: HarvestFamily,
    millis: u128,
    backpressured: bool,
    at: Timestamp,
    error: &str,
)
    requires
        old(waited).replay(family).enqueue_backpressure_events < u64::MAX,
        old(waited).replay(family).enqueue_wait_millis + u32::MAX <= u64::MAX,
        old(posted).replay(family).post_callbacks < u64::MAX,
        old(posted).replay(family).post_latency_millis + u32::MAX <= u64::MAX,
        old(failed).replay(family).post_failures < u64::MAX,
        call_ensures(record_passive_replay_enqueue_wait, (waited, family, millis, backpressured), ()),
        call_ensures(record_passive_replay_post_latency, (posted, family, millis), ()),
        call_ensures(record_passive_replay_post_failure, (failed, family, at, error), ()),
    ensures
        millis <= u32::MAX ==> {
            &&& final(waited).replay(family).enqueue_wait_millis == old(waited).replay(
                family,
            ).enqueue_wait_millis + millis
            &&& final(waited).replay(family).last_enqueue_wait_millis == millis
            &&& final(posted).replay(family).post_latency_millis == old(posted).replay(
                family,
            ).post_latency_millis + millis
            &&& final(posted).replay(family).last_post_latency_millis == millis
        },
        millis > u32::MAX ==> {
            &&& final(waited).replay(family).last_enqueue_wait_millis == u32::MAX
            &&& final(posted).replay(family).last_post_latency_millis == u32::MAX
        },
        backpressured ==> final(waited).replay(family).enqueue_backpressure_events == old(waited).replay(
            family,
        ).enqueue_backpressure_events + 1,
        !backpressured ==> final(waited).replay(family).enqueue_backpressure_events == old(waited).replay(family).enqueue_backpressure_events,
        final(posted).replay(family).post_callbacks == old(posted).replay(family).post_callbacks + 1,
        final(posted).replay(family).post_failures == old(posted).replay(family).post_failures,
        final(failed).replay(family).post_failures == old(failed).replay(family).post_failures + 1,
        final(failed).replay(family).last_error_at == Some(at),
        final(failed).replay(family).last_error matches Some(text) && text@ == error@,
        final(failed).replay(family).post_callbacks == old(failed).replay(family).post_callbacks,
{
}

/// What is noted of one family leaves the others and the requests as they were, and what is read
/// under a family's name is its own telemetry.
pub proof fn law_families_are_apart(observability: KadHarvestObservability, family: HarvestFamily, value: KadPassiveReplayObservability)
    ensures
        observability.replay(HarvestFamily::Keyword) == observability.passive_keyword_replay,
        observability.replay(HarvestFamily::Source) == observability.passive_source_replay,
        observability.replay(HarvestFamily::Notes) == observability.passive_notes_replay,
        observability.with_replay(family, value).replay(family) == value,
        observability.with_replay(family, value).keyword_requests == observability.keyword_requests,
        observability.with_replay(family, value).source_requests == observability.source_requests,
        observability.with_replay(family, value).notes_requests == observability.notes_requests,
        !(family is Keyword) ==> observability.with_replay(family, value).passive_keyword_replay
            == observability.passive_keyword_replay,
        !(family is Source) ==> observability.with_replay(family, value).passive_source_replay
            == observability.passive_source_replay,
        !(family is Notes) ==> observability.with_replay(family, value).passive_notes_replay
            == observability.passive_notes_replay,
{
}

/// A worker tries every family, each once: first the one that it prefers, where it prefers one, and
/// the others by their backlogs, the longest first and of equal ones keyword before source before
/// notes.
pub proof fn law_workers_try_every_family(
    preferred: Option<HarvestFamily>,
    counts: SnoopQueueFamilyCounts,
    r: Vec<HarvestFamily>,
)
    requires
        call_ensures(passive_replay_family_order, (preferred, counts), r),
    ensures
        r@.len() == 3,
        r@[0] != r@[1] && r@[0] != r@[2] && r@[1] != r@[2],
        preferred matches Some(family) ==> r@[0] == family,
        ({
            let n = |family: HarvestFamily|
                match family {
                    HarvestFamily::Keyword => (counts.keyword as int, 2int),
                    HarvestFamily::Source => (counts.source as int, 1int),
                    HarvestFamily::Notes => (counts.notes as int, 0int),
                };
            let before = |a: HarvestFamily, b: HarvestFamily|
                n(a).0 > n(b).0 || (n(a).0 == n(b).0 && n(a).1 > n(b).1);
            &&& before(r@[1], r@[2])
            &&& preferred is None ==> before(r@[0], r@[1])
        }),
{
    law_replay_order(counts);
    let order = replay_order(counts);
    if let Some(preferred) = preferred {
        let others = |family: HarvestFamily| family != preferred;
        reveal_with_fuel(Seq::filter, 4);
        assert(order =~= seq![order[0], order[1], order[2]]);
        assert(order.drop_last() =~= seq![order[0], order[1]]);
        assert(order.drop_last().drop_last() =~= seq![order[0]]);
        assert(order.drop_last().drop_last().drop_last() =~= Seq::empty());
        let rest = order.filter(others);
        assert(order[0] == preferred || order[1] == preferred || order[2] == preferred);
        assert(rest.len() == 2);
        assert(r@ == seq![preferred] + rest);
        assert(r@[0] == preferred && r@[1] == rest[0] && r@[2] == rest[1]);
    }
}

/// What operators are shown of harvesting is what is stored, with the entries that wait in the queue
/// of each family.
pub proof fn law_harvest_is_reported(
    stored: &KadHarvestObservability,
    counts: SnoopQueueFamilyCounts,
    applied: &mut KadHarvestObservability,
    r: KadHarvestObservability,
)
    requires
        counts.keyword <= u32::MAX,
        counts.source <= u32::MAX,
        counts.notes <= u32::MAX,
        call_ensures(apply_queue_family_counts, (applied, counts), ()),
        call_ensures(reported_harvest_observability, (stored, counts), r),
    ensures
        r.keyword_requests.queued_entries == counts.keyword,
        r.source_requests.queued_entries == counts.source,
        r.notes_requests.queued_entries == counts.notes,
        r.keyword_requests.observed_requests == stored.keyword_requests.observed_requests,
        r.source_requests.observed_requests == stored.source_requests.observed_requests,
        r.notes_requests.observed_requests == stored.notes_requests.observed_requests,
        r.keyword_requests.last_target == stored.keyword_requests.last_target,
        r.source_requests.last_target == stored.source_requests.last_target,
        r.notes_requests.last_target == stored.notes_requests.last_target,
        r.passive_keyword_replay.started_cycles == stored.passive_keyword_replay.started_cycles,
        r.passive_source_replay.started_cycles == stored.passive_source_replay.started_cycles,
        r.passive_notes_replay.started_cycles == stored.passive_notes_replay.started_cycles,
        r.passive_keyword_replay.last_tiers@ == stored.passive_keyword_replay.last_tiers@,
        r.passive_source_replay.emitted_results == stored.passive_source_replay.emitted_results,
        final(applied).keyword_requests.queued_entries == counts.keyword,
        final(applied).source_requests.queued_entries == counts.source,
        final(applied).notes_requests.queued_entries == counts.notes,
        final(applied).keyword_requests.observed_requests == old(applied).keyword_requests.observed_requests,
        final(applied).passive_keyword_replay == old(applied).passive_keyword_replay,
        final(applied).passive_source_replay == old(applied).passive_source_replay,
        final(applied).passive_notes_replay == old(applied).passive_notes_replay,
{
}

/// A family that is idle counts a cycle, and no other does.
pub proof fn law_idle_family(observability: &mut KadHarvestObservability, family: HarvestFamily, at: Timestamp)
    requires
        old(observability).replay(family).idle_cycles < u64::MAX,
        call_ensures(record_passive_replay_idle, (observability, family, at), ()),
    ensures
        family is Keyword ==> final(observability).passive_keyword_replay.idle_cycles == old(observability).passive_keyword_replay.idle_cycles + 1,
        family is Source ==> final(observability).passive_source_replay.idle_cycles == old(observability).passive_source_replay.idle_cycles + 1,
        family is Notes ==> final(observability).passive_notes_replay.idle_cycles == old(observability).passive_notes_replay.idle_cycles + 1,
        !(family is Keyword) ==> final(observability).passive_keyword_replay == old(observability).passive_keyword_replay,
        !(family is Source) ==> final(observability).passive_source_replay == old(observability).passive_source_replay,
        !(family is Notes) ==> final(observability).passive_notes_replay == old(observability).passive_notes_replay,
        final(observability).replay(family).last_idle_at == Some(at),
{
}

} // verus!
