//! Publishing on Kad: counters, tags, identities and the synthetic data set.

use vstd::prelude::*;
use vstd::string::*;
use crate::digests;
use crate::digests::{md4_of, sha1_of};
use crate::ids;
use crate::ids::{emule_kad_chunk_order, Ed2kHash, IpAddr, NodeId, SocketAddr, Timestamp};
use crate::kad;
use crate::kad::{
    Tag, TagValue, TagValueView, TAG_DESCRIPTION, TAG_ENCRYPTION, TAG_FILENAME, TAG_FILERATING,
    TAG_FILESIZE, TAG_SOURCEIP, TAG_SOURCEPORT, TAG_SOURCETYPE, TAG_SOURCEUPORT,
};
use crate::random::{draw_bytes16, random_in_range};
use crate::seeds;
use crate::seeds::{synthetic_popular_seeds, SyntheticPopularSeed, SYNTHETIC_SEED_COUNT};
use crate::snoop;
use crate::text;
use crate::text::{ascii_lower_text, chars_of, decimal_text, hex_encode, joined, same_text};
use crate::types::{
    HashType, KadPublishObservability, PopularHash, PopularHashView, PublishBatchSummary,
    PublishCounters, PublishSeedSource,
};

verus! {

broadcast use vstd::string::group_string_axioms;

/// Files above this size are large files to eMule.
pub const EMULE_LARGE_FILE_SIZE_THRESHOLD: u64 = 0xFFFF_FFFF;

/// What one publish attempt, or all of one batch, came to.
#[derive(Debug, Clone, Copy, PartialEq, Eq, Structural)]
pub struct PublishAttemptStats {
    pub closest_contacts_considered: u32,
    pub attempted_contacts: u32,
    pub acked_contacts: u32,
    pub timed_out_contacts: u32,
}

impl PublishAttemptStats {
    /// Nothing attempted.
    pub open spec fn zero() -> PublishAttemptStats {
        PublishAttemptStats {
            closest_contacts_considered: 0,
            attempted_contacts: 0,
            acked_contacts: 0,
            timed_out_contacts: 0,
        }
    }

    /// Contacts that were attempted and did not acknowledge.
    pub open spec fn failed(self) -> u32 {
        if self.attempted_contacts >= self.acked_contacts {
            (self.attempted_contacts - self.acked_contacts) as u32
        } else {
            0
        }
    }

    pub fn failed_contacts(&self) -> (r: u32)
        ensures
            r == self.failed(),
    {
        if self.attempted_contacts >= self.acked_contacts {
            self.attempted_contacts - self.acked_contacts
        } else {
            0
        }
    }

    /// Whether the sums of `self` and `other` fit.
    pub open spec fn fits(self, other: PublishAttemptStats) -> bool {
        &&& self.closest_contacts_considered + other.closest_contacts_considered <= u32::MAX
        &&& self.attempted_contacts + other.attempted_contacts <= u32::MAX
        &&& self.acked_contacts + other.acked_contacts <= u32::MAX
        &&& self.timed_out_contacts + other.timed_out_contacts <= u32::MAX
    }

    /// The sums of `self` and `other`.
    pub open spec fn plus(self, other: PublishAttemptStats) -> PublishAttemptStats {
        PublishAttemptStats {
            closest_contacts_considered: (self.closest_contacts_considered + other.closest_contacts_considered) as u32,
            attempted_contacts: (self.attempted_contacts + other.attempted_contacts) as u32,
            acked_contacts: (self.acked_contacts + other.acked_contacts) as u32,
            timed_out_contacts: (self.timed_out_contacts + other.timed_out_contacts) as u32,
        }
    }

    /// Adds the outcome of one attempt.
    pub fn accumulate(&mut self, other: PublishAttemptStats)
        requires
            old(self).fits(other),
        ensures
            *final(self) == old(self).plus(other),
    {
        self.closest_contacts_considered = self.closest_contacts_considered + other.closest_contacts_considered;
        self.attempted_contacts = self.attempted_contacts + other.attempted_contacts;
        self.acked_contacts = self.acked_contacts + other.acked_contacts;
        self.timed_out_contacts = self.timed_out_contacts + other.timed_out_contacts;
    }
}

impl Default for PublishAttemptStats {
    fn default() -> (r: PublishAttemptStats)
        ensures
            r == PublishAttemptStats::zero(),
    {
        PublishAttemptStats {
            closest_contacts_considered: 0,
            attempted_contacts: 0,
            acked_contacts: 0,
            timed_out_contacts: 0,
        }
    }
}

/// The summary of a batch of `published_items` items.
pub open spec fn batch_summary(
    seed_source: PublishSeedSource,
    published_items: usize,
    stats: PublishAttemptStats,
    completed_at: Timestamp,
) -> PublishBatchSummary {
    PublishBatchSummary {
        seed_source,
        published_items: published_items as u32,
        closest_contacts_considered: stats.closest_contacts_considered,
        attempted_contacts: stats.attempted_contacts,
        acked_contacts: stats.acked_contacts,
        failed_contacts: stats.failed(),
        timed_out_contacts: stats.timed_out_contacts,
        completed_at,
        last_success_at: if stats.acked_contacts > 0 {
            Some(completed_at)
        } else {
            None
        },
    }
}

pub fn build_publish_batch_summary(
    seed_source: PublishSeedSource,
    published_items: usize,
    stats: PublishAttemptStats,
    completed_at: Timestamp,
) -> (r: PublishBatchSummary)
    ensures
        r == batch_summary(seed_source, published_items, stats, completed_at),
{
    PublishBatchSummary {
        seed_source,
        published_items: #[verifier::truncate] (published_items as u32),
        closest_contacts_considered: stats.closest_contacts_considered,
        attempted_contacts: stats.attempted_contacts,
        acked_contacts: stats.acked_contacts,
        failed_contacts: stats.failed_contacts(),
        timed_out_contacts: stats.timed_out_contacts,
        completed_at,
        last_success_at: if stats.acked_contacts > 0 {
            Some(completed_at)
        } else {
            None
        },
    }
}

/// Whether one more batch can be counted.
pub open spec fn counters_fit(counters: PublishCounters, summary: PublishBatchSummary) -> bool {
    &&& counters.batches < u64::MAX
    &&& counters.published_items + summary.published_items <= u64::MAX
    &&& counters.closest_contacts_considered + summary.closest_contacts_considered <= u64::MAX
    &&& counters.attempted_contacts + summary.attempted_contacts <= u64::MAX
    &&& counters.acked_contacts + summary.acked_contacts <= u64::MAX
    &&& counters.failed_contacts + summary.failed_contacts <= u64::MAX
    &&& counters.timed_out_contacts + summary.timed_out_contacts <= u64::MAX
}

/// The counters with one more batch.
pub open spec fn counted(counters: PublishCounters, summary: PublishBatchSummary) -> PublishCounters {
    PublishCounters {
        batches: (counters.batches + 1) as u64,
        published_items: (counters.published_items + summary.published_items) as u64,
        closest_contacts_considered: (counters.closest_contacts_considered
            + summary.closest_contacts_considered) as u64,
        attempted_contacts: (counters.attempted_contacts + summary.attempted_contacts) as u64,
        acked_contacts: (counters.acked_contacts + summary.acked_contacts) as u64,
        failed_contacts: (counters.failed_contacts + summary.failed_contacts) as u64,
        timed_out_contacts: (counters.timed_out_contacts + summary.timed_out_contacts) as u64,
        last_batch_at: Some(summary.completed_at),
        last_success_at: if summary.last_success_at is Some {
            summary.last_success_at
        } else {
            counters.last_success_at
        },
    }
}

pub fn apply_publish_summary(counters: &mut PublishCounters, summary: &PublishBatchSummary)
    requires
        counters_fit(*old(counters), *summary),
    ensures
        *final(counters) == counted(*old(counters), *summary),
{
    counters.batches = counters.batches + 1;
    counters.published_items = counters.published_items + summary.published_items as u64;
    counters.closest_contacts_considered = counters.closest_contacts_considered
        + summary.closest_contacts_considered as u64;
    counters.attempted_contacts = counters.attempted_contacts + summary.attempted_contacts as u64;
    counters.acked_contacts = counters.acked_contacts + summary.acked_contacts as u64;
    counters.failed_contacts = counters.failed_contacts + summary.failed_contacts as u64;
    counters.timed_out_contacts = counters.timed_out_contacts + summary.timed_out_contacts as u64;
    counters.last_batch_at = Some(summary.completed_at);
    if summary.last_success_at.is_some() {
        counters.last_success_at = summary.last_success_at;
    }
}

/// Whether a batch snapshot reflects any observable seeding progress yet.
pub open spec fn has_progress(summary: PublishBatchSummary) -> bool {
    summary.published_items > 0 || summary.closest_contacts_considered > 0
        || summary.attempted_contacts > 0 || summary.acked_contacts > 0 || summary.failed_contacts > 0
        || summary.timed_out_contacts > 0
}

fn publish_summary_has_progress(summary: &PublishBatchSummary) -> (r: bool)
    ensures
        r == has_progress(*summary),
{
    summary.published_items > 0 || summary.closest_contacts_considered > 0
        || summary.attempted_contacts > 0 || summary.acked_contacts > 0 || summary.failed_contacts > 0
        || summary.timed_out_contacts > 0
}

/// Whether the latest batch is to be shown on top of the stored counters: it has begun after the
/// last one that was counted, is not that one, and has got somewhere.
pub open spec fn counts_on_top(
    counters: PublishCounters,
    summary: PublishBatchSummary,
    last_seed_at: Option<Timestamp>,
) -> bool {
    &&& match last_seed_at {
        Some(observed_at) => match counters.last_batch_at {
            Some(committed_at) => observed_at.after(committed_at),
            None => true,
        },
        None => false,
    }
    &&& counters.last_batch_at != Some(summary.completed_at)
    &&& has_progress(summary)
}

/// The counters that operators see: the stored ones, and the batch in flight on top.
pub open spec fn effective_counters(
    counters: PublishCounters,
    latest_batch: Option<PublishBatchSummary>,
    last_seed_at: Option<Timestamp>,
) -> PublishCounters {
    match latest_batch {
        Some(summary) => if counts_on_top(counters, summary, last_seed_at) {
            counted(counters, summary)
        } else {
            counters
        },
        None => counters,
    }
}

/// Whether the latest batch is to be shown on top of the stored counters.
pub fn publish_batch_is_live(
    counters: &PublishCounters,
    summary: &PublishBatchSummary,
    last_seed_at: Option<Timestamp>,
) -> (r: bool)
    ensures
        r == counts_on_top(*counters, *summary, last_seed_at),
{
    let batch_committed: bool = counters.last_batch_at == Some(summary.completed_at);
    let batch_in_flight: bool = match last_seed_at {
        Some(observed_at) => match counters.last_batch_at {
            Some(committed_at) => observed_at.is_after(committed_at),
            None => true,
        },
        None => false,
    };
    batch_in_flight && !batch_committed && publish_summary_has_progress(summary)
}

/// Projects the counters that operators should see right now.
///
/// The stored counters only advance once a batch has fully finished. During long live runs the
/// statistics still reflect the batch in flight, so that the totals stay aligned with the latest
/// per-batch snapshot.
pub fn effective_publish_counters(
    counters: &PublishCounters,
    latest_batch: Option<&PublishBatchSummary>,
    last_seed_at: Option<Timestamp>,
) -> (r: PublishCounters)
    requires
        latest_batch matches Some(summary) ==> (counts_on_top(*counters, *summary, last_seed_at)
            ==> counters_fit(*counters, *summary)),
    ensures
        r == effective_counters(
            *counters,
            match latest_batch {
                Some(summary) => Some(*summary),
                None => None,
            },
            last_seed_at,
        ),
{
    let mut effective: PublishCounters = *counters;
    match latest_batch {
        Some(summary) => {
            if publish_batch_is_live(counters, summary, last_seed_at) {
                apply_publish_summary(&mut effective, summary);
            }
        },
        None => {},
    }
    effective
}

/// The telemetry after a finished batch.
pub open spec fn summaries_recorded(
    before: KadPublishObservability,
    seed_source: PublishSeedSource,
    published_items: usize,
    keyword_stats: PublishAttemptStats,
    source_stats: PublishAttemptStats,
    notes_stats: Option<PublishAttemptStats>,
    completed_at: Timestamp,
) -> KadPublishObservability {
    let keyword = batch_summary(seed_source, published_items, keyword_stats, completed_at);
    let source = batch_summary(seed_source, published_items, source_stats, completed_at);
    KadPublishObservability {
        last_seed_source: Some(seed_source),
        last_seed_at: Some(completed_at),
        latest_keyword_batch: Some(keyword),
        latest_source_batch: Some(source),
        latest_notes_batch: match notes_stats {
            Some(stats) => Some(batch_summary(seed_source, published_items, stats, completed_at)),
            None => None,
        },
        keyword_counters: counted(before.keyword_counters, keyword),
        source_counters: counted(before.source_counters, source),
        notes_counters: match notes_stats {
            Some(stats) => counted(
                before.notes_counters,
                batch_summary(seed_source, published_items, stats, completed_at),
            ),
            None => before.notes_counters,
        },
        ..before
    }
}

/// Counts a finished batch.
pub fn record_publish_summaries(
    observability: &mut KadPublishObservability,
    seed_source: PublishSeedSource,
    published_items: usize,
    keyword_stats: PublishAttemptStats,
    source_stats: PublishAttemptStats,
    notes_stats: Option<PublishAttemptStats>,
    completed_at: Timestamp,
)
    requires
        counters_fit(
            old(observability).keyword_counters,
            batch_summary(seed_source, published_items, keyword_stats, completed_at),
        ),
        counters_fit(
            old(observability).source_counters,
            batch_summary(seed_source, published_items, source_stats, completed_at),
        ),
        notes_stats matches Some(stats) ==> counters_fit(
            old(observability).notes_counters,
            batch_summary(seed_source, published_items, stats, completed_at),
        ),
    ensures
        *final(observability) == summaries_recorded(
            *old(observability),
            seed_source,
            published_items,
            keyword_stats,
            source_stats,
            notes_stats,
            completed_at,
        ),
{
    let keyword_summary: PublishBatchSummary = build_publish_batch_summary(
        seed_source,
        published_items,
        keyword_stats,
        completed_at,
    );
    let source_summary: PublishBatchSummary = build_publish_batch_summary(
        seed_source,
        published_items,
        source_stats,
        completed_at,
    );
    observability.last_seed_source = Some(seed_source);
    observability.last_seed_at = Some(completed_at);
    observability.latest_keyword_batch = Some(keyword_summary);
    observability.latest_source_batch = Some(source_summary);
    apply_publish_summary(&mut observability.keyword_counters, &keyword_summary);
    apply_publish_summary(&mut observability.source_counters, &source_summary);
    match notes_stats {
        Some(stats) => {
            let notes_summary: PublishBatchSummary = build_publish_batch_summary(
                seed_source,
                published_items,
                stats,
                completed_at,
            );
            observability.latest_notes_batch = Some(notes_summary);
            apply_publish_summary(&mut observability.notes_counters, &notes_summary);
        },
        None => {
            observability.latest_notes_batch = None;
        },
    }
}

/// The telemetry while a batch is running: its snapshots move, the counters do not.
pub open spec fn progress_recorded(
    before: KadPublishObservability,
    seed_source: PublishSeedSource,
    processed_items: usize,
    keyword_stats: PublishAttemptStats,
    source_stats: PublishAttemptStats,
    notes_stats: Option<PublishAttemptStats>,
    observed_at: Timestamp,
) -> KadPublishObservability {
    KadPublishObservability {
        last_seed_source: Some(seed_source),
        last_seed_at: Some(observed_at),
        latest_keyword_batch: Some(
            batch_summary(seed_source, processed_items, keyword_stats, observed_at),
        ),
        latest_source_batch: Some(
            batch_summary(seed_source, processed_items, source_stats, observed_at),
        ),
        latest_notes_batch: match notes_stats {
            Some(stats) => Some(batch_summary(seed_source, processed_items, stats, observed_at)),
            None => before.latest_notes_batch,
        },
        ..before
    }
}

/// Refreshes the live publish snapshot while a long seed batch is still running.
pub fn update_publish_progress(
    observability: &mut KadPublishObservability,
    seed_source: PublishSeedSource,
    processed_items: usize,
    keyword_stats: PublishAttemptStats,
    source_stats: PublishAttemptStats,
    notes_stats: Option<PublishAttemptStats>,
    observed_at: Timestamp,
)
    ensures
        *final(observability) == progress_recorded(
            *old(observability),
            seed_source,
            processed_items,
            keyword_stats,
            source_stats,
            notes_stats,
            observed_at,
        ),
{
    observability.last_seed_source = Some(seed_source);
    observability.last_seed_at = Some(observed_at);
    observability.latest_keyword_batch = Some(
        build_publish_batch_summary(seed_source, processed_items, keyword_stats, observed_at),
    );
    observability.latest_source_batch = Some(
        build_publish_batch_summary(seed_source, processed_items, source_stats, observed_at),
    );
    match notes_stats {
        Some(stats) => {
            observability.latest_notes_batch = Some(
                build_publish_batch_summary(seed_source, processed_items, stats, observed_at),
            );
        },
        None => {},
    }
}

pub fn set_synthetic_publish_queue_depth(
    observability: &mut KadPublishObservability,
    remaining_items: usize,
)
    ensures
        *final(observability) == (KadPublishObservability {
            synthetic_drip_queue_depth: Some(remaining_items as u32),
            ..*old(observability)
        }),
{
    observability.synthetic_drip_queue_depth = Some(#[verifier::truncate] (remaining_items as u32));
}

/// What operators see is the stored counters with the latest batch on top, where that batch is
/// live: it was observed after the last batch that was counted, is not that one, and has got
/// somewhere. Otherwise it is the stored counters. So a batch that has just been counted is not
/// counted again, and one that has got nowhere never counts.
pub proof fn law_effective_counters(
    counters: PublishCounters,
    batch: PublishBatchSummary,
    last_seed_at: Option<Timestamp>,
)
    ensures
        effective_counters(counters, None, last_seed_at) == counters,
        ({
            let live = {
                &&& last_seed_at matches Some(observed_at) && (counters.last_batch_at matches Some(
                    counted_at,
                ) ==> observed_at.after(counted_at))
                &&& counters.last_batch_at != Some(batch.completed_at)
                &&& batch.published_items > 0 || batch.closest_contacts_considered > 0
                    || batch.attempted_contacts > 0 || batch.acked_contacts > 0
                    || batch.failed_contacts > 0 || batch.timed_out_contacts > 0
            };
            effective_counters(counters, Some(batch), last_seed_at) == if live {
                counted(counters, batch)
            } else {
                counters
            }
        }),
        effective_counters(counted(counters, batch), Some(batch), Some(batch.completed_at)) == counted(
            counters,
            batch,
        ),
        batch.published_items == 0 && batch.closest_contacts_considered == 0
            && batch.attempted_contacts == 0 && batch.acked_contacts == 0 && batch.failed_contacts == 0
            && batch.timed_out_contacts == 0 ==> effective_counters(
            counters,
            Some(batch),
            last_seed_at,
        ) == counters,
{
}

/// A batch that has been counted is not counted again: right after it is recorded, what
/// operators see of every family is what is stored.
pub proof fn law_committed_batch_counted_once(
    before: KadPublishObservability,
    seed_source: PublishSeedSource,
    published_items: usize,
    keyword_stats: PublishAttemptStats,
    source_stats: PublishAttemptStats,
    notes_stats: Option<PublishAttemptStats>,
    completed_at: Timestamp,
)
    ensures
        ({
            let after = summaries_recorded(
                before,
                seed_source,
                published_items,
                keyword_stats,
                source_stats,
                notes_stats,
                completed_at,
            );
            &&& effective_counters(
                after.keyword_counters,
                after.latest_keyword_batch,
                after.last_seed_at,
            ) == after.keyword_counters
            &&& effective_counters(
                after.source_counters,
                after.latest_source_batch,
                after.last_seed_at,
            ) == after.source_counters
            &&& effective_counters(
                after.notes_counters,
                after.latest_notes_batch,
                after.last_seed_at,
            ) == after.notes_counters
        }),
{
}

/// Whether a batch of that family that is observed now has got somewhere, and no other batch has
/// been counted at that time or later.
pub open spec fn ahead(
    counters: PublishCounters,
    seed_source: PublishSeedSource,
    items: usize,
    stats: PublishAttemptStats,
    observed_at: Timestamp,
) -> bool {
    &&& counters.last_batch_at matches Some(at) ==> observed_at.after(at)
    &&& has_progress(batch_summary(seed_source, items, stats, observed_at))
}

/// The totals that operators see while a batch runs are those that are stored once it ends with
/// the same outcome: a batch in flight that has got somewhere counts as it will count.
pub proof fn law_in_flight_totals_match_final(
    before: KadPublishObservability,
    seed_source: PublishSeedSource,
    items: usize,
    keyword_stats: PublishAttemptStats,
    source_stats: PublishAttemptStats,
    notes_stats: Option<PublishAttemptStats>,
    observed_at: Timestamp,
)
    ensures
        ({
            let live = progress_recorded(
                before,
                seed_source,
                items,
                keyword_stats,
                source_stats,
                notes_stats,
                observed_at,
            );
            let done = summaries_recorded(
                before,
                seed_source,
                items,
                keyword_stats,
                source_stats,
                notes_stats,
                observed_at,
            );
            &&& ahead(before.keyword_counters, seed_source, items, keyword_stats, observed_at)
                ==> effective_counters(
                live.keyword_counters,
                live.latest_keyword_batch,
                live.last_seed_at,
            ) == done.keyword_counters
            &&& ahead(before.source_counters, seed_source, items, source_stats, observed_at)
                ==> effective_counters(
                live.source_counters,
                live.latest_source_batch,
                live.last_seed_at,
            ) == done.source_counters
            &&& notes_stats matches Some(stats) ==> (ahead(
                before.notes_counters,
                seed_source,
                items,
                stats,
                observed_at,
            ) ==> effective_counters(
                live.notes_counters,
                live.latest_notes_batch,
                live.last_seed_at,
            ) == done.notes_counters)
        }),
{
}

/// Counters never go back: counting a batch lowers none of the totals.
pub proof fn law_counters_grow(counters: PublishCounters, summary: PublishBatchSummary)
    requires
        counters_fit(counters, summary),
    ensures
        counted(counters, summary).batches == counters.batches + 1,
        counted(counters, summary).published_items >= counters.published_items,
        counted(counters, summary).closest_contacts_considered >= counters.closest_contacts_considered,
        counted(counters, summary).attempted_contacts >= counters.attempted_contacts,
        counted(counters, summary).acked_contacts >= counters.acked_contacts,
        counted(counters, summary).failed_contacts >= counters.failed_contacts,
        counted(counters, summary).timed_out_contacts >= counters.timed_out_contacts,
{
}

/// The eMule high-ID source type used for source publishes in the non-firewalled case.
pub fn emule_high_id_source_type(file_size: u64) -> (r: u32)
    ensures
        r == if file_size > EMULE_LARGE_FILE_SIZE_THRESHOLD {
            4u32
        } else {
            1u32
        },
{
    if file_size > EMULE_LARGE_FILE_SIZE_THRESHOLD {
        4
    } else {
        1
    }
}

/// The persisted eD2k user hash, as the Kad source-publish identity.
pub fn source_publish_client_hash(ed2k_user_hash: [u8; 16]) -> (r: NodeId)
    ensures
        r.0@ == ids::chunk_order(ed2k_user_hash@),
{
    NodeId::from_bytes(emule_kad_chunk_order(ed2k_user_hash))
}

/// `hash` with the classic eMule client marker bytes.
pub open spec fn with_markers(hash: Seq<u8>) -> Seq<u8> {
    hash.update(5, 0x0E).update(14, 0x6F)
}

/// Applies the classic eMule client marker bytes to an eD2k user hash.
pub fn normalize_ed2k_user_hash_markers(user_hash: [u8; 16]) -> (r: [u8; 16])
    ensures
        r@ == with_markers(user_hash@),
{
    let mut marked: [u8; 16] = user_hash;
    marked[5] = 0x0E;
    marked[14] = 0x6F;
    assert(marked@ =~= with_markers(user_hash@));
    marked
}

/// Marking a marked hash changes nothing.
pub proof fn law_markers_idempotent(hash: Seq<u8>)
    requires
        hash.len() == 16,
    ensures
        with_markers(with_markers(hash)) == with_markers(hash),
        with_markers(hash)[5] == 0x0E,
        with_markers(hash)[14] == 0x6F,
{
    assert(with_markers(with_markers(hash)) =~= with_markers(hash));
}

/// Whether a user hash carries nothing but its markers.
pub open spec fn is_bad_hash(hash: Seq<u8>) -> bool {
    forall|i: int| 0 <= i < 16 && i != 5 && i != 14 ==> #[trigger] hash[i] == 0
}

pub fn ed2k_user_hash_is_bad(user_hash: &[u8; 16]) -> (r: bool)
    ensures
        r == is_bad_hash(user_hash@),
{
    let mut i: usize = 0;
    while i < 16
        invariant
            i <= 16,
            forall|j: int| 0 <= j < i && j != 5 && j != 14 ==> user_hash@[j] == 0,
        decreases 16 - i,
    {
        if i != 5 && i != 14 && user_hash[i] != 0 {
            assert(user_hash@[i as int] != 0);
            return false;
        }
        i = i + 1;
    }
    true
}

/// The user hash made of random bytes, if they make one.
pub fn user_hash_from_random(random: [u8; 16]) -> (r: Option<[u8; 16]>)
    ensures
        r is Some <==> !is_bad_hash(with_markers(random@)),
        r matches Some(hash) ==> hash@ == with_markers(random@),
{
    let user_hash: [u8; 16] = normalize_ed2k_user_hash_markers(random);
    if ed2k_user_hash_is_bad(&user_hash) {
        None
    } else {
        Some(user_hash)
    }
}

/// The largest number that the bytes of a user hash beside its markers can spell.
pub const LARGEST_UNMARKED_NUMBER: u128 = 0xFFFF_FFFF_FFFF_FFFF_FFFF_FFFF_FFFF;

/// The bytes of a user hash from place `i` on: the markers at their places, and around them the
/// digits of `number` to base 256, the lowest first.
pub open spec fn marked_digits(number: nat, i: nat) -> Seq<u8>
    decreases 16 - i,
{
    if i >= 16 {
        Seq::empty()
    } else if i == 5 {
        seq![0x0Eu8] + marked_digits(number, i + 1)
    } else if i == 14 {
        seq![0x6Fu8] + marked_digits(number, i + 1)
    } else {
        seq![(number % 256) as u8] + marked_digits(number / 256, i + 1)
    }
}

/// How many numbers the bytes beside the markers can spell from place `i` on.
spec fn unmarked_numbers(i: nat) -> nat
    decreases 16 - i,
{
    if i >= 16 {
        1
    } else if i == 5 || i == 14 {
        unmarked_numbers(i + 1)
    } else {
        256 * unmarked_numbers(i + 1)
    }
}

proof fn lemma_marked_digits(number: nat, i: nat)
    requires
        i <= 16,
    ensures
        marked_digits(number, i).len() == 16 - i,
        i <= 5 ==> marked_digits(number, i)[5 - i] == 0x0E,
        i <= 14 ==> marked_digits(number, i)[14 - i] == 0x6F,
        0 < number < unmarked_numbers(i) ==> exists|j: int|
            i <= j < 16 && j != 5 && j != 14 && #[trigger] marked_digits(number, i)[j - i] != 0,
    decreases 16 - i,
{
    if i < 16 {
        let all = marked_digits(number, i);
        let rest_number = if i == 5 || i == 14 {
            number
        } else {
            number / 256
        };
        let rest = marked_digits(rest_number, i + 1);
        lemma_marked_digits(rest_number, i + 1);
        assert(forall|k: int| 1 <= k < all.len() ==> all[k] == rest[k - 1]);
        if 0 < number < unmarked_numbers(i) {
            if i != 5 && i != 14 && number % 256 != 0 {
                assert(all[i - i] != 0);
            } else {
                assert(0 < rest_number < unmarked_numbers(i + 1));
                let j = choose|j: int|
                    i + 1 <= j < 16 && j != 5 && j != 14 && #[trigger] rest[j - (i + 1)] != 0;
                assert(all[j - i] == rest[j - i - 1]);
            }
        }
    }
}

/// The user hash whose bytes beside the markers spell `number`. It is no bad one unless they are
/// all zero.
pub fn user_hash_of_number(number: u128) -> (r: [u8; 16])
    ensures
        r@ == marked_digits(number as nat, 0),
        with_markers(r@) == r@,
        0 < number <= LARGEST_UNMARKED_NUMBER ==> !is_bad_hash(r@),
{
    let mut user_hash: [u8; 16] = [0; 16];
    let mut rest: u128 = number;
    let mut i: usize = 0;
    while i < 16
        invariant
            i <= 16,
            user_hash@.take(i as int) + marked_digits(rest as nat, i as nat) == marked_digits(
                number as nat,
                0,
            ),
        decreases 16 - i,
    {
        let ghost before = user_hash@;
        let ghost left = marked_digits(rest as nat, i as nat);
        if i == 5 {
            user_hash[i] = 0x0E;
        } else if i == 14 {
            user_hash[i] = 0x6F;
        } else {
            user_hash[i] = (rest % 256) as u8;
            rest = rest / 256;
        }
        assert(left =~= seq![user_hash@[i as int]] + marked_digits(rest as nat, (i + 1) as nat));
        assert(user_hash@.take(i + 1) =~= before.take(i as int).push(user_hash@[i as int]));
        i = i + 1;
        assert(user_hash@.take(i as int) + marked_digits(rest as nat, i as nat) =~= before.take(i - 1)
            + left);
    }
    proof {
        assert(user_hash@ =~= user_hash@.take(16) + marked_digits(rest as nat, 16));
        lemma_marked_digits(number as nat, 0);
        assert(with_markers(user_hash@) =~= user_hash@);
        reveal_with_fuel(unmarked_numbers, 17);
        if 0 < number <= LARGEST_UNMARKED_NUMBER {
            let j = choose|j: int|
                0 <= j < 16 && j != 5 && j != 14 && #[trigger] marked_digits(number as nat, 0)[j - 0]
                    != 0;
            assert(user_hash@[j] != 0);
        }
    }
    user_hash
}

/// A user hash drawn among those that carry the markers and are not bad.
pub fn draw_usable_user_hash() -> (r: [u8; 16])
    ensures
        !is_bad_hash(r@),
        with_markers(r@) == r@,
{
    user_hash_of_number(random_in_range(1, LARGEST_UNMARKED_NUMBER))
}

/// A fresh eMule-style user hash. Where the bytes that are drawn make a bad one, it is drawn again,
/// among those that are not bad.
pub fn create_ed2k_user_hash() -> (r: [u8; 16])
    ensures
        !is_bad_hash(r@),
        with_markers(r@) == r@,
{
    let random: [u8; 16] = draw_bytes16();
    proof {
        law_markers_idempotent(random@);
    }
    match user_hash_from_random(random) {
        Some(user_hash) => user_hash,
        None => draw_usable_user_hash(),
    }
}

/// What the persisted user hash is good for.
pub enum StoredUserHash {
    /// It is used as it is.
    Use([u8; 16]),
    /// It is used, and stored again, with its markers.
    Normalize([u8; 16]),
    /// A fresh one is made and stored.
    Create,
}

/// Decides what becomes of the persisted user hash. `stored` is what its file holds, where it
/// exists.
pub fn load_or_create_ed2k_user_hash(stored: Option<Vec<u8>>) -> (r: StoredUserHash)
    ensures
        match stored {
            Some(bytes) => if bytes@.len() == 16 && !is_bad_hash(with_markers(bytes@)) {
                if with_markers(bytes@) == bytes@ {
                    r is Use && r->Use_0@ == bytes@
                } else {
                    r is Normalize && r->Normalize_0@ == with_markers(bytes@)
                }
            } else {
                r is Create
            },
            None => r is Create,
        },
{
    match stored {
        Some(bytes) => {
            if bytes.len() != 16 {
                return StoredUserHash::Create;
            }
            let user_hash: [u8; 16] = [
                bytes[0], bytes[1], bytes[2], bytes[3], bytes[4], bytes[5], bytes[6], bytes[7],
                bytes[8], bytes[9], bytes[10], bytes[11], bytes[12], bytes[13], bytes[14], bytes[15],
            ];
            assert(user_hash@ =~= bytes@);
            let normalized: [u8; 16] = normalize_ed2k_user_hash_markers(user_hash);
            if ed2k_user_hash_is_bad(&normalized) {
                return StoredUserHash::Create;
            }
            if ids::same_bytes16(&normalized, &user_hash) {
                StoredUserHash::Use(user_hash)
            } else {
                StoredUserHash::Normalize(normalized)
            }
        },
        None => StoredUserHash::Create,
    }
}

/// The connection options that a client announces: support for and request of obfuscation.
pub fn emule_connect_options(obfuscation_enabled: bool) -> (r: u8)
    ensures
        r == if obfuscation_enabled {
            3u8
        } else {
            0u8
        },
{
    if obfuscation_enabled {
        3
    } else {
        0
    }
}

/// The `ENCRYPTION` bits of a source publish.
pub fn emule_source_encryption_options(obfuscation_enabled: bool) -> (r: u8)
    ensures
        r == if obfuscation_enabled {
            3u8
        } else {
            0u8
        },
{
    emule_connect_options(obfuscation_enabled)
}

/// Static settings that make source publishes look like a stable eMule-style high-ID client on
/// the wire.
#[derive(Debug, Clone, Copy, PartialEq, Eq, Structural)]
pub struct SourcePublishSettings {
    pub tcp_port: u16,
    pub obfuscation_enabled: bool,
}

/// The tags of a source publish.
pub open spec fn source_publish_tags(
    bind_addr: SocketAddr,
    settings: SourcePublishSettings,
    file_size: u64,
) -> Seq<kad::TagView> {
    let head = seq![
        kad::short_tag(
            TAG_SOURCETYPE,
            TagValueView::UInt(if file_size > EMULE_LARGE_FILE_SIZE_THRESHOLD {
                4
            } else {
                1
            }),
        ),
        kad::short_tag(TAG_SOURCEPORT, TagValueView::UInt(settings.tcp_port as u64)),
    ];
    let ip = match bind_addr.ip {
        IpAddr::V4(ip) => seq![kad::short_tag(TAG_SOURCEIP, TagValueView::U32(ip.bits() as u32))],
        IpAddr::V6(_) => Seq::empty(),
    };
    head + ip + seq![
        kad::short_tag(TAG_SOURCEUPORT, TagValueView::U16(bind_addr.port)),
        kad::short_tag(TAG_FILESIZE, TagValueView::UInt(file_size)),
        kad::short_tag(
            TAG_ENCRYPTION,
            TagValueView::U8(if settings.obfuscation_enabled {
                3
            } else {
                0
            }),
        ),
    ]
}

/// Builds the source publish tag set for one file announcement. `SOURCEPORT` carries the eD2k
/// TCP listener while `SOURCEUPORT` carries the Kad UDP listener.
pub fn build_source_publish_tags(
    bind_addr: SocketAddr,
    source_publish_settings: SourcePublishSettings,
    file_size: u64,
) -> (r: Vec<Tag>)
    ensures
        kad::tag_views(r@) == source_publish_tags(bind_addr, source_publish_settings, file_size),
{
    let mut tags: Vec<Tag> = Vec::new();
    tags.push(
        Tag::new_short(TAG_SOURCETYPE, TagValue::UInt(emule_high_id_source_type(file_size) as u64)),
    );
    tags.push(
        Tag::new_short(TAG_SOURCEPORT, TagValue::UInt(source_publish_settings.tcp_port as u64)),
    );
    match bind_addr.ip {
        IpAddr::V4(ip) => {
            tags.push(Tag::new_short(TAG_SOURCEIP, TagValue::U32(ip.to_bits())));
        },
        IpAddr::V6(_) => {},
    }
    tags.push(Tag::new_short(TAG_SOURCEUPORT, TagValue::U16(bind_addr.port)));
    tags.push(Tag::filesize(file_size));
    tags.push(
        Tag::new_short(
            TAG_ENCRYPTION,
            TagValue::U8(emule_source_encryption_options(source_publish_settings.obfuscation_enabled)),
        ),
    );
    assert(kad::tag_views(tags@) =~= source_publish_tags(
        bind_addr,
        source_publish_settings,
        file_size,
    ));
    tags
}

/// The tags of a notes publish.
pub open spec fn notes_publish_tags(canonical_name: Seq<char>, file_size: u64) -> Seq<kad::TagView> {
    seq![
        kad::short_tag(TAG_FILENAME, TagValueView::String(canonical_name)),
        kad::short_tag(TAG_FILESIZE, TagValueView::UInt(file_size)),
        kad::short_tag(TAG_FILERATING, TagValueView::U8(4)),
        kad::short_tag(
            TAG_DESCRIPTION,
            TagValueView::String("overlord validation note for "@ + canonical_name),
        ),
    ]
}

/// Builds a deterministic notes-publish payload for controlled live validation.
pub fn build_notes_publish_tags(canonical_name: &str, file_size: u64) -> (r: Vec<Tag>)
    ensures
        kad::tag_views(r@) == notes_publish_tags(canonical_name@, file_size),
{
    let mut tags: Vec<Tag> = Vec::new();
    tags.push(Tag::filename(canonical_name));
    tags.push(Tag::filesize(file_size));
    tags.push(Tag::new_short(TAG_FILERATING, TagValue::U8(4)));
    tags.push(
        Tag::new_short(
            TAG_DESCRIPTION,
            TagValue::String(joined("overlord validation note for ", canonical_name)),
        ),
    );
    assert(kad::tag_views(tags@) =~= notes_publish_tags(canonical_name@, file_size));
    tags
}

/// What follows the last dot of `name`, where there is one.
pub open spec fn extension(name: Seq<char>) -> Option<Seq<char>>
    decreases name.len(),
{
    if name.len() == 0 {
        None
    } else if name.last() == '.' {
        Some(Seq::empty())
    } else {
        match extension(name.drop_last()) {
            Some(ext) => Some(ext.push(name.last())),
            None => None,
        }
    }
}

fn file_extension(name: &str) -> (r: Option<String>)
    ensures
        match extension(name@) {
            Some(ext) => r is Some && r->0@ == ext,
            None => r is None,
        },
{
    let chars: Vec<char> = chars_of(name);
    let mut dot: Option<usize> = None;
    let mut i: usize = 0;
    while i < chars.len()
        invariant
            i <= chars.len(),
            chars@ == name@,
            match dot {
                Some(d) => d < i && extension(name@.take(i as int)) == Some(
                    name@.subrange(d + 1, i as int),
                ),
                None => extension(name@.take(i as int)) is None,
            },
        decreases chars.len() - i,
    {
        proof {
            assert(name@.take(i + 1).drop_last() =~= name@.take(i as int));
            assert(name@.take(i + 1).last() == chars@[i as int]);
        }
        if chars[i] == '.' {
            dot = Some(i);
            assert(name@.subrange(i + 1, i + 1) =~= Seq::empty());
        } else {
            proof {
                if let Some(d) = dot {
                    assert(name@.subrange(d + 1, i + 1) =~= name@.subrange(d + 1, i as int).push(
                        chars@[i as int],
                    ));
                }
            }
        }
        i = i + 1;
    }
    assert(name@.take(i as int) =~= name@);
    match dot {
        Some(d) => Some(name.substring_char(d + 1, chars.len()).to_owned()),
        None => None,
    }
}

/// Whether `ext` is the extension of an audio file.
pub open spec fn is_audio_extension(ext: Seq<char>) -> bool {
    ext == "mp3"@ || ext == "aac"@ || ext == "ac3"@ || ext == "flac"@ || ext == "m4a"@ || ext
        == "ogg"@ || ext == "wav"@ || ext == "wma"@
}

/// Whether `ext` is the extension of a video file.
pub open spec fn is_video_extension(ext: Seq<char>) -> bool {
    ext == "avi"@ || ext == "mkv"@ || ext == "mov"@ || ext == "mp4"@ || ext == "mpeg"@ || ext
        == "mpg"@ || ext == "wmv"@
}

/// Whether `ext` is the extension of an image.
pub open spec fn is_image_extension(ext: Seq<char>) -> bool {
    ext == "bmp"@ || ext == "gif"@ || ext == "jpeg"@ || ext == "jpg"@ || ext == "png"@ || ext
        == "tif"@ || ext == "tiff"@ || ext == "webp"@
}

/// Whether `ext` is the extension of a document.
pub open spec fn is_document_extension(ext: Seq<char>) -> bool {
    ext == "chm"@ || ext == "csv"@ || ext == "doc"@ || ext == "docx"@ || ext == "epub"@ || ext
        == "htm"@ || ext == "html"@ || ext == "odt"@ || ext == "pdf"@ || ext == "pps"@ || ext
        == "ppt"@ || ext == "pptx"@ || ext == "rtf"@ || ext == "txt"@ || ext == "xls"@ || ext
        == "xlsx"@
}

/// Whether `ext` is the extension of a program, an archive or a disc image.
pub open spec fn is_program_extension(ext: Seq<char>) -> bool {
    ext == "7z"@ || ext == "ace"@ || ext == "apk"@ || ext == "bat"@ || ext == "bin"@ || ext
        == "bz2"@ || ext == "cab"@ || ext == "cmd"@ || ext == "com"@ || ext == "dll"@ || ext
        == "dmg"@ || ext == "exe"@ || ext == "gz"@ || ext == "img"@ || ext == "iso"@ || ext
        == "jar"@ || ext == "msi"@ || ext == "pkg"@ || ext == "rar"@ || ext == "sh"@ || ext
        == "tar"@ || ext == "tgz"@ || ext == "xz"@ || ext == "zip"@
}

/// The eD2k search term of files with that extension, in lowercase.
pub open spec fn extension_search_term(ext: Seq<char>) -> Option<Seq<char>> {
    if is_audio_extension(ext) {
        Some("Audio"@)
    } else if is_video_extension(ext) {
        Some("Video"@)
    } else if is_image_extension(ext) {
        Some("Image"@)
    } else if is_document_extension(ext) {
        Some("Doc"@)
    } else if is_program_extension(ext) {
        Some("Pro"@)
    } else if ext == "emulecollection"@ {
        Some("EmuleCollection"@)
    } else {
        None
    }
}

/// The eD2k search term of a file with that name.
pub open spec fn file_type_term(name: Seq<char>) -> Option<Seq<char>> {
    match extension(name) {
        Some(ext) => extension_search_term(text::ascii_lower(ext)),
        None => None,
    }
}

fn audio_extension(ext: &str) -> (r: bool)
    ensures
        r == is_audio_extension(ext@),
{
    same_text(ext, "mp3") || same_text(ext, "aac") || same_text(ext, "ac3") || same_text(ext, "flac")
        || same_text(ext, "m4a") || same_text(ext, "ogg") || same_text(ext, "wav") || same_text(
        ext,
        "wma",
    )
}

fn video_extension(ext: &str) -> (r: bool)
    ensures
        r == is_video_extension(ext@),
{
    same_text(ext, "avi") || same_text(ext, "mkv") || same_text(ext, "mov") || same_text(ext, "mp4")
        || same_text(ext, "mpeg") || same_text(ext, "mpg") || same_text(ext, "wmv")
}

fn image_extension(ext: &str) -> (r: bool)
    ensures
        r == is_image_extension(ext@),
{
    same_text(ext, "bmp") || same_text(ext, "gif") || same_text(ext, "jpeg") || same_text(ext, "jpg")
        || same_text(ext, "png") || same_text(ext, "tif") || same_text(ext, "tiff") || same_text(
        ext,
        "webp",
    )
}

fn document_extension(ext: &str) -> (r: bool)
    ensures
        r == is_document_extension(ext@),
{
    same_text(ext, "chm") || same_text(ext, "csv") || same_text(ext, "doc") || same_text(ext, "docx")
        || same_text(ext, "epub") || same_text(ext, "htm") || same_text(ext, "html") || same_text(
        ext,
        "odt",
    ) || same_text(ext, "pdf") || same_text(ext, "pps") || same_text(ext, "ppt") || same_text(
        ext,
        "pptx",
    ) || same_text(ext, "rtf") || same_text(ext, "txt") || same_text(ext, "xls") || same_text(
        ext,
        "xlsx",
    )
}

fn program_extension(ext: &str) -> (r: bool)
    ensures
        r == is_program_extension(ext@),
{
    same_text(ext, "7z") || same_text(ext, "ace") || same_text(ext, "apk") || same_text(ext, "bat")
        || same_text(ext, "bin") || same_text(ext, "bz2") || same_text(ext, "cab") || same_text(
        ext,
        "cmd",
    ) || same_text(ext, "com") || same_text(ext, "dll") || same_text(ext, "dmg") || same_text(
        ext,
        "exe",
    ) || same_text(ext, "gz") || same_text(ext, "img") || same_text(ext, "iso") || same_text(
        ext,
        "jar",
    ) || same_text(ext, "msi") || same_text(ext, "pkg") || same_text(ext, "rar") || same_text(
        ext,
        "sh",
    ) || same_text(ext, "tar") || same_text(ext, "tgz") || same_text(ext, "xz") || same_text(
        ext,
        "zip",
    )
}

/// The eD2k search term for a filename's published file type.
///
/// eMule publishes keyword `FILETYPE` tags using a compact search vocabulary: `Audio`, `Video`,
/// `Image`, `Doc`, `Pro`, or `EmuleCollection`. Archives, programs and CD images all collapse to
/// `Pro`.
#[must_use]
pub fn ed2k_file_type_search_term(file_name: &str) -> (r: Option<&'static str>)
    ensures
        match file_type_term(file_name@) {
            Some(term) => r is Some && r->0@ == term,
            None => r is None,
        },
{
    let ext: String = match file_extension(file_name) {
        Some(ext) => ascii_lower_text(ext.as_str()),
        None => {
            return None;
        },
    };
    let ext: &str = ext.as_str();
    if audio_extension(ext) {
        Some("Audio")
    } else if video_extension(ext) {
        Some("Video")
    } else if image_extension(ext) {
        Some("Image")
    } else if document_extension(ext) {
        Some("Doc")
    } else if program_extension(ext) {
        Some("Pro")
    } else if same_text(ext, "emulecollection") {
        Some("EmuleCollection")
    } else {
        None
    }
}

/// The bytes whose SHA-1 digest stands for a file's AICH root.
pub open spec fn aich_input(file_hash: Ed2kHash, file_name: Seq<char>, file_size: u64) -> Seq<u8> {
    file_hash.0@ + vstd::bytes::spec_u64_to_le_bytes(file_size) + vstd::utf8::encode_utf8(file_name)
}

fn push_bytes(into: &mut Vec<u8>, bytes: &[u8])
    ensures
        final(into)@ == old(into)@ + bytes@,
{
    let mut i: usize = 0;
    while i < bytes.len()
        invariant
            i <= bytes.len(),
            into@ == old(into)@ + bytes@.take(i as int),
        decreases bytes.len() - i,
    {
        into.push(bytes[i]);
        assert(bytes@.take(i + 1) =~= bytes@.take(i as int).push(bytes@[i as int]));
        i = i + 1;
    }
    assert(bytes@.take(i as int) =~= bytes@);
}

/// Derives a stable synthetic AICH root for seeded publishes.
///
/// Seeded hashes do not have a real AICH tree behind them. A deterministic SHA-1 over the
/// advertised file identity keeps the wire shape stable across runs.
#[must_use]
pub fn synthetic_publish_aich_hash(file_hash: &Ed2kHash, file_name: &str, file_size: u64) -> (r: [u8; 20])
    ensures
        r@ == digests::sha1_digest(aich_input(*file_hash, file_name@, file_size)),
{
    let mut input: Vec<u8> = Vec::new();
    push_bytes(&mut input, file_hash.0.as_slice());
    let size_bytes: Vec<u8> = vstd::bytes::u64_to_le_bytes(file_size);
    push_bytes(&mut input, size_bytes.as_slice());
    push_bytes(&mut input, file_name.as_bytes());
    assert(input@ =~= aich_input(*file_hash, file_name@, file_size));
    sha1_of(input.as_slice())
}

proof fn lemma_utf8_injective(a: Seq<char>, b: Seq<char>)
    requires
        vstd::utf8::encode_utf8(a) == vstd::utf8::encode_utf8(b),
    ensures
        a == b,
{
    vstd::utf8::encode_utf8_decode_utf8(a);
    vstd::utf8::encode_utf8_decode_utf8(b);
}

/// The bytes behind the AICH root of a seeded publish are the same only for the same hash, name and
/// size, so files that differ in any of them are handed to SHA-1 as different bytes; the same file
/// has the same root whenever it is asked for. That SHA-1 takes two different inputs to two digests
/// is not said.
pub proof fn law_aich_input_tells_files_apart(
    hash: Ed2kHash,
    name: Seq<char>,
    size: u64,
    other_hash: Ed2kHash,
    other_name: Seq<char>,
    other_size: u64,
)
    ensures
        aich_input(hash, name, size) == aich_input(other_hash, other_name, other_size) <==> hash
            == other_hash && name == other_name && size == other_size,
        hash == other_hash && name == other_name && size == other_size ==> digests::sha1_digest(
            aich_input(hash, name, size),
        ) == digests::sha1_digest(aich_input(other_hash, other_name, other_size)),
{
    let a = aich_input(hash, name, size);
    let b = aich_input(other_hash, other_name, other_size);
    if a == b {
        vstd::bytes::lemma_auto_spec_u64_to_from_le_bytes();
        assert(a.take(16) =~= hash.0@);
        assert(b.take(16) =~= other_hash.0@);
        assert(hash.0 =~= other_hash.0);
        assert(a.subrange(16, 24) =~= vstd::bytes::spec_u64_to_le_bytes(size));
        assert(b.subrange(16, 24) =~= vstd::bytes::spec_u64_to_le_bytes(other_size));
        assert(vstd::bytes::spec_u64_from_le_bytes(vstd::bytes::spec_u64_to_le_bytes(size)) == size);
        assert(a.skip(24) =~= vstd::utf8::encode_utf8(name));
        assert(b.skip(24) =~= vstd::utf8::encode_utf8(other_name));
        lemma_utf8_injective(name, other_name);
    }
}

/// The text whose MD4 digest is the hash of a synthetic file.
pub open spec fn seed_identity(index: usize, seed: SyntheticPopularSeed) -> Seq<char> {
    "overlord-synthetic-kad-seed|"@ + text::decimal(index as nat) + "|"@ + seed.title@ + "|"@
        + text::decimal(seed.size as nat) + "|"@ + text::decimal(seed.source_count as nat)
}

/// The bytes whose MD4 digest is the hash of a synthetic file.
pub open spec fn seed_input(index: usize, seed: SyntheticPopularSeed) -> Seq<u8> {
    vstd::utf8::encode_utf8(seed_identity(index, seed))
}

/// The hash of a synthetic file.
pub open spec fn seed_hash(index: usize, seed: SyntheticPopularSeed) -> Seq<u8> {
    digests::md4_digest(seed_input(index, seed))
}

/// A deterministic fake eD2k hash, so that the synthetic seed set is stable across restarts.
pub fn synthetic_file_hash(index: usize, seed: &SyntheticPopularSeed) -> (r: Ed2kHash)
    ensures
        r.0@ == seed_hash(index, *seed),
{
    let mut identity: String = "overlord-synthetic-kad-seed|".to_owned();
    let index_text: String = decimal_text(index as u128);
    identity.append(index_text.as_str());
    identity.append("|");
    identity.append(seed.title);
    identity.append("|");
    let size: String = decimal_text(seed.size as u128);
    identity.append(size.as_str());
    identity.append("|");
    let count: String = decimal_text(seed.source_count as u128);
    identity.append(count.as_str());
    Ed2kHash::from_bytes(md4_of(identity.as_str().as_bytes()))
}

/// The popular file that a synthetic file with that hash is published as.
pub open spec fn popular_file(hash: Seq<u8>, seed: SyntheticPopularSeed) -> PopularHashView {
    PopularHashView {
        hash: text::hex_text(hash),
        canonical_name: seed.title@,
        size: seed.size,
        source_count: seed.source_count,
    }
}

/// The popular file that a synthetic file with that hash is published as.
pub fn popular_hash_of(hash: Ed2kHash, seed: &SyntheticPopularSeed) -> (r: PopularHash)
    ensures
        r@ == popular_file(hash.0@, *seed),
{
    PopularHash {
        hash: HashType::Ed2k(hex_encode(hash.0.as_slice())),
        canonical_name: seed.title.to_owned(),
        size: seed.size,
        source_count: seed.source_count,
    }
}

pub fn synthetic_popular_hash(index: usize, seed: &SyntheticPopularSeed) -> (r: PopularHash)
    ensures
        r@ == popular_file(seed_hash(index, *seed), *seed),
{
    popular_hash_of(synthetic_file_hash(index, seed), seed)
}

/// The synthetic file at a place of the data set.
pub open spec fn synthetic_file(index: int) -> PopularHashView {
    popular_file(seed_hash(index as usize, seeds::seed_data()[index]), seeds::seed_data()[index])
}

/// What a list of popular files stands for.
pub open spec fn popular_views(hashes: Seq<PopularHash>) -> Seq<PopularHashView> {
    Seq::new(hashes.len(), |i: int| hashes[i]@)
}

/// The files from place `start` on, going round.
pub open spec fn rotation(start: int, len: nat) -> Seq<PopularHashView> {
    Seq::new(len, |k: int| synthetic_file((start + k) % SYNTHETIC_SEED_COUNT as int))
}

/// The fixed synthetic seed list used when the coordinator has no popular hashes yet.
pub fn synthetic_popular_hashes() -> (r: Vec<PopularHash>)
    ensures
        popular_views(r@) == rotation(0, SYNTHETIC_SEED_COUNT as nat),
{
    let mut cursor: usize = 0;
    next_synthetic_publish_batch(&mut cursor, SYNTHETIC_SEED_COUNT)
}

/// How many files are left before the rotation starts over.
pub open spec fn queue_depth(cursor: int) -> int {
    SYNTHETIC_SEED_COUNT - cursor % SYNTHETIC_SEED_COUNT as int
}

/// How many files are left before the rotation starts over.
pub fn synthetic_publish_queue_depth(cursor: usize) -> (r: usize)
    ensures
        r == queue_depth(cursor as int),
{
    SYNTHETIC_SEED_COUNT - cursor % SYNTHETIC_SEED_COUNT
}

/// The size of a batch: what was asked for, but at least one file and at most all.
pub open spec fn drip_len(batch_items: usize) -> nat {
    if batch_items == 0 {
        1
    } else if batch_items > SYNTHETIC_SEED_COUNT {
        SYNTHETIC_SEED_COUNT as nat
    } else {
        batch_items as nat
    }
}

/// The next files of the rotation; the cursor moves on behind them.
pub fn next_synthetic_publish_batch(cursor: &mut usize, batch_items: usize) -> (r: Vec<PopularHash>)
    ensures
        popular_views(r@) == rotation(
            (*old(cursor) % SYNTHETIC_SEED_COUNT) as int,
            drip_len(batch_items),
        ),
        *final(cursor) == (*old(cursor) % SYNTHETIC_SEED_COUNT + drip_len(batch_items))
            % SYNTHETIC_SEED_COUNT as int,
{
    let all: [SyntheticPopularSeed; 40] = synthetic_popular_seeds();
    let start: usize = *cursor % SYNTHETIC_SEED_COUNT;
    let len: usize = if batch_items == 0 {
        1
    } else if batch_items > SYNTHETIC_SEED_COUNT {
        SYNTHETIC_SEED_COUNT
    } else {
        batch_items
    };
    let mut batch: Vec<PopularHash> = Vec::new();
    let mut offset: usize = 0;
    while offset < len
        invariant
            offset <= len <= SYNTHETIC_SEED_COUNT,
            start < SYNTHETIC_SEED_COUNT,
            all@ == seeds::seed_data(),
            popular_views(batch@) == rotation(start as int, offset as nat),
        decreases len - offset,
    {
        let ghost before = popular_views(batch@);
        let index: usize = (start + offset) % SYNTHETIC_SEED_COUNT;
        batch.push(synthetic_popular_hash(index, &all[index]));
        offset = offset + 1;
        proof {
            assert(popular_views(batch@) =~= before.push(synthetic_file(index as int)));
            assert(rotation(start as int, offset as nat) =~= rotation(
                start as int,
                (offset - 1) as nat,
            ).push(synthetic_file(index as int)));
        }
    }
    *cursor = (start + len) % SYNTHETIC_SEED_COUNT;
    batch
}

/// The hash of a synthetic file depends on the file alone.
pub proof fn law_synthetic_hashes_deterministic(index: usize, a: SyntheticPopularSeed, b: SyntheticPopularSeed)
    requires
        a.title@ == b.title@,
        a.size == b.size,
        a.source_count == b.source_count,
    ensures
        seed_hash(index, a) == seed_hash(index, b),
{
}

proof fn lemma_decimal_has_no_bar(n: nat)
    ensures
        forall|k: int| 0 <= k < text::decimal(n).len() ==> #[trigger] text::decimal(n)[k] != '|',
    decreases n,
{
    if n >= 10 {
        lemma_decimal_has_no_bar(n / 10);
        assert forall|k: int| 0 <= k < text::decimal(n).len() implies #[trigger] text::decimal(n)[k]
            != '|' by {
            if k < text::decimal(n / 10).len() {
                assert(text::decimal(n)[k] == text::decimal(n / 10)[k]);
            }
        }
    }
}

/// Where the place of a synthetic file ends in its identity.
proof fn lemma_identity_parts(index: usize, seed: SyntheticPopularSeed)
    ensures
        ({
            let p = "overlord-synthetic-kad-seed|"@.len() as int;
            let place = text::decimal(index as nat);
            let identity = seed_identity(index, seed);
            &&& identity.len() > p + place.len()
            &&& identity.subrange(p, p + place.len()) == place
            &&& identity[p + place.len()] == '|'
        }),
{
    reveal_strlit("|");
    let p = "overlord-synthetic-kad-seed|"@.len() as int;
    let place = text::decimal(index as nat);
    let identity = seed_identity(index, seed);
    assert(identity.subrange(p, p + place.len()) =~= place);
}

/// Synthetic files at two places are never handed to MD4 as the same bytes, whatever they are.
pub proof fn law_synthetic_places_told_apart(
    i: usize,
    a: SyntheticPopularSeed,
    j: usize,
    b: SyntheticPopularSeed,
)
    requires
        i != j,
    ensures
        seed_input(i, a) != seed_input(j, b),
{
    if seed_input(i, a) == seed_input(j, b) {
        let identity = seed_identity(i, a);
        lemma_utf8_injective(identity, seed_identity(j, b));
        lemma_identity_parts(i, a);
        lemma_identity_parts(j, b);
        let p = "overlord-synthetic-kad-seed|"@.len() as int;
        let m = text::decimal(i as nat);
        let n = text::decimal(j as nat);
        lemma_decimal_has_no_bar(i as nat);
        lemma_decimal_has_no_bar(j as nat);
        if m.len() < n.len() {
            assert(identity.subrange(p, p + n.len())[m.len() as int] == '|');
        } else if n.len() < m.len() {
            assert(identity.subrange(p, p + m.len())[n.len() as int] == '|');
        } else {
            snoop::lemma_decimal_injective(i as nat, j as nat);
        }
    }
}

/// What the synthetic file at a place of the data set is hashed from.
pub open spec fn synthetic_input(index: int) -> Seq<u8> {
    seed_input(index as usize, seeds::seed_data()[index])
}

/// The synthetic list holds the file of each place, in order. No two of its files are hashed from
/// the same bytes, and two of them have the same hash text only if MD4 takes their two different
/// inputs to one digest. That it does not is a fact about MD4 that is not said.
pub proof fn law_synthetic_files_are_distinct()
    ensures
        rotation(0, SYNTHETIC_SEED_COUNT as nat).len() == SYNTHETIC_SEED_COUNT,
        forall|i: int|
            0 <= i < SYNTHETIC_SEED_COUNT ==> #[trigger] rotation(0, SYNTHETIC_SEED_COUNT as nat)[i]
                == synthetic_file(i),
        forall|i: int, j: int|
            0 <= i < j < SYNTHETIC_SEED_COUNT ==> #[trigger] synthetic_input(i)
                != #[trigger] synthetic_input(j),
        forall|i: int, j: int|
            0 <= i < j < SYNTHETIC_SEED_COUNT ==> (#[trigger] synthetic_file(i).hash
                == #[trigger] synthetic_file(j).hash <==> digests::md4_digest(synthetic_input(i))
                == digests::md4_digest(synthetic_input(j))),
{
    assert forall|i: int, j: int| 0 <= i < j < SYNTHETIC_SEED_COUNT implies #[trigger] synthetic_input(
        i,
    ) != #[trigger] synthetic_input(j) by {
        law_synthetic_places_told_apart(
            i as usize,
            seeds::seed_data()[i],
            j as usize,
            seeds::seed_data()[j],
        );
    }
    assert forall|i: int, j: int| 0 <= i < j < SYNTHETIC_SEED_COUNT implies (
    #[trigger] synthetic_file(i).hash == #[trigger] synthetic_file(j).hash <==> digests::md4_digest(
        synthetic_input(i),
    ) == digests::md4_digest(synthetic_input(j))) by {
        if synthetic_file(i).hash == synthetic_file(j).hash {
            ids::law_hex_round_trip(digests::md4_digest(synthetic_input(i)));
            ids::law_hex_round_trip(digests::md4_digest(synthetic_input(j)));
        }
    }
}

/// The rotation leaves nothing out: wherever it stands, every file comes within one round.
pub proof fn law_rotation_covers_all(start: int, index: int)
    requires
        0 <= start < SYNTHETIC_SEED_COUNT,
        0 <= index < SYNTHETIC_SEED_COUNT,
    ensures
        exists|k: int|
            0 <= k < SYNTHETIC_SEED_COUNT && #[trigger] rotation(start, SYNTHETIC_SEED_COUNT as nat)[k]
                == synthetic_file(index),
{
    let n = SYNTHETIC_SEED_COUNT as int;
    let k = if index >= start {
        index - start
    } else {
        index - start + n
    };
    assert((start + k) % n == index);
    assert(rotation(start, n as nat)[k] == synthetic_file(index));
}

/// Two batches in a row are one longer stretch of the rotation.
pub proof fn law_batches_continue(start: int, first: nat, second: nat)
    requires
        0 <= start < SYNTHETIC_SEED_COUNT,
    ensures
        rotation(start, first) + rotation((start + first) % SYNTHETIC_SEED_COUNT as int, second)
            == rotation(start, first + second),
{
    let n = SYNTHETIC_SEED_COUNT as int;
    let next = (start + first) % n;
    let both = rotation(start, first) + rotation(next, second);
    assert forall|k: int| 0 <= k < first + second implies #[trigger] both[k] == rotation(
        start,
        first + second,
    )[k] by {
        if k >= first {
            let j = k - first;
            assert((next + j) % n == (start + first + j) % n) by {
                vstd::arithmetic::div_mod::lemma_add_mod_noop(start + first, j, n);
                vstd::arithmetic::div_mod::lemma_add_mod_noop(next, j, n);
                vstd::arithmetic::div_mod::lemma_mod_twice(start + first, n);
            }
        }
    }
    assert(both =~= rotation(start, first + second));
}

/// A drip lowers the queue depth by what it published, or starts the next round.
pub proof fn law_drip_depth(cursor: int, len: int)
    requires
        0 <= cursor < SYNTHETIC_SEED_COUNT,
        1 <= len <= SYNTHETIC_SEED_COUNT,
    ensures
        queue_depth((cursor + len) % SYNTHETIC_SEED_COUNT as int) == if len < queue_depth(cursor) {
            queue_depth(cursor) - len
        } else {
            queue_depth(cursor) - len + SYNTHETIC_SEED_COUNT
        },
{
}

/// A source publish tells where the file is to be had: at the eD2k TCP port and the Kad UDP port of
/// the agent, at its address where that is IPv4, with the file's size, the source type of files that
/// large, and whether connections may be obfuscated. It says each once, and nothing else.
pub proof fn law_source_publish_says_where(
    bind_addr: SocketAddr,
    settings: SourcePublishSettings,
    file_size: u64,
    r: Vec<Tag>,
)
    requires
        call_ensures(build_source_publish_tags, (bind_addr, settings, file_size), r),
    ensures
        kad::sole_tag(r@, TAG_SOURCEPORT, TagValueView::UInt(settings.tcp_port as u64)),
        kad::sole_tag(r@, TAG_SOURCEUPORT, TagValueView::U16(bind_addr.port)),
        kad::sole_tag(r@, TAG_FILESIZE, TagValueView::UInt(file_size)),
        file_size > 0xFFFF_FFFF ==> kad::sole_tag(r@, TAG_SOURCETYPE, TagValueView::UInt(4)),
        file_size <= 0xFFFF_FFFF ==> kad::sole_tag(r@, TAG_SOURCETYPE, TagValueView::UInt(1)),
        settings.obfuscation_enabled ==> kad::sole_tag(r@, TAG_ENCRYPTION, TagValueView::U8(3)),
        !settings.obfuscation_enabled ==> kad::sole_tag(r@, TAG_ENCRYPTION, TagValueView::U8(0)),
        bind_addr.ip matches IpAddr::V4(ip) ==> r@.len() == 6 && kad::sole_tag(
            r@,
            TAG_SOURCEIP,
            TagValueView::U32((ip.a * 0x100_0000 + ip.b * 0x1_0000 + ip.c * 0x100 + ip.d) as u32),
        ),
        bind_addr.ip is V6 ==> r@.len() == 5 && kad::no_tag(r@, TAG_SOURCEIP),
{
    let views = kad::tag_views(r@);
    let n = r@.len() as int;
    assert(views.len() == n);
    kad::lemma_sole_tag(r@, 0, TAG_SOURCETYPE, views[0].value);
    kad::lemma_sole_tag(r@, 1, TAG_SOURCEPORT, views[1].value);
    kad::lemma_sole_tag(r@, n - 3, TAG_SOURCEUPORT, views[n - 3].value);
    kad::lemma_sole_tag(r@, n - 2, TAG_FILESIZE, views[n - 2].value);
    kad::lemma_sole_tag(r@, n - 1, TAG_ENCRYPTION, views[n - 1].value);
    match bind_addr.ip {
        IpAddr::V4(_) => {
            kad::lemma_sole_tag(r@, 2, TAG_SOURCEIP, views[2].value);
        },
        IpAddr::V6(_) => {
            kad::lemma_no_tag(r@, TAG_SOURCEIP);
        },
    }
}

/// A notes publish names the file, gives its size and a rating, and describes it by its name; it
/// says each once, and nothing else.
pub proof fn law_notes_publish_says_the_file(canonical_name: &str, file_size: u64, r: Vec<Tag>)
    requires
        call_ensures(build_notes_publish_tags, (canonical_name, file_size), r),
    ensures
        r@.len() == 4,
        kad::sole_tag(r@, TAG_FILENAME, TagValueView::String(canonical_name@)),
        kad::sole_tag(r@, TAG_FILESIZE, TagValueView::UInt(file_size)),
        kad::sole_tag(r@, TAG_FILERATING, TagValueView::U8(4)),
        kad::sole_tag(
            r@,
            TAG_DESCRIPTION,
            TagValueView::String("overlord validation note for "@ + canonical_name@),
        ),
{
    let views = kad::tag_views(r@);
    assert(views.len() == r@.len());
    kad::lemma_sole_tag(r@, 0, TAG_FILENAME, views[0].value);
    kad::lemma_sole_tag(r@, 1, TAG_FILESIZE, views[1].value);
    kad::lemma_sole_tag(r@, 2, TAG_FILERATING, views[2].value);
    kad::lemma_sole_tag(r@, 3, TAG_DESCRIPTION, views[3].value);
}

/// The summary of a batch gives its counts as they are; the contacts that were attempted are those
/// that acknowledged and those that failed, and a batch has succeeded where anybody acknowledged.
pub proof fn law_summary_of_a_batch(
    seed_source: PublishSeedSource,
    items: usize,
    stats: PublishAttemptStats,
    at: Timestamp,
    r: PublishBatchSummary,
)
    requires
        call_ensures(build_publish_batch_summary, (seed_source, items, stats, at), r),
    ensures
        r.seed_source == seed_source && r.completed_at == at,
        items <= u32::MAX ==> r.published_items == items,
        r.closest_contacts_considered == stats.closest_contacts_considered,
        r.attempted_contacts == stats.attempted_contacts && r.acked_contacts == stats.acked_contacts,
        r.timed_out_contacts == stats.timed_out_contacts,
        stats.acked_contacts <= stats.attempted_contacts ==> r.acked_contacts + r.failed_contacts
            == r.attempted_contacts,
        stats.acked_contacts > stats.attempted_contacts ==> r.failed_contacts == 0,
        r.last_success_at == Some(at) <==> stats.acked_contacts > 0,
        stats.acked_contacts == 0 ==> r.last_success_at is None,
{
}

/// Counting a batch adds each of its counts to the total of that count, and one batch; the time of
/// the last batch is its own, and that of the last success only where it had one.
pub proof fn law_counting_a_batch(counters: &mut PublishCounters, summary: &PublishBatchSummary)
    requires
        call_ensures(apply_publish_summary, (counters, summary), ()),
        counters_fit(*old(counters), *summary),
    ensures
        final(counters).batches - old(counters).batches == 1,
        final(counters).published_items - old(counters).published_items == summary.published_items,
        final(counters).closest_contacts_considered - old(counters).closest_contacts_considered
            == summary.closest_contacts_considered,
        final(counters).attempted_contacts - old(counters).attempted_contacts == summary.attempted_contacts,
        final(counters).acked_contacts - old(counters).acked_contacts == summary.acked_contacts,
        final(counters).failed_contacts - old(counters).failed_contacts == summary.failed_contacts,
        final(counters).timed_out_contacts - old(counters).timed_out_contacts == summary.timed_out_contacts,
        final(counters).last_batch_at == Some(summary.completed_at),
        summary.last_success_at is Some ==> final(counters).last_success_at == summary.last_success_at,
        summary.last_success_at is None ==> final(counters).last_success_at == old(counters).last_success_at,
{
}

/// Adding one attempt to another adds up each count.
pub proof fn law_attempts_add_up(a: &mut PublishAttemptStats, b: PublishAttemptStats)
    requires
        call_ensures(PublishAttemptStats::accumulate, (a, b), ()),
        old(a).fits(b),
    ensures
        final(a).closest_contacts_considered == old(a).closest_contacts_considered + b.closest_contacts_considered,
        final(a).attempted_contacts == old(a).attempted_contacts + b.attempted_contacts,
        final(a).acked_contacts == old(a).acked_contacts + b.acked_contacts,
        final(a).timed_out_contacts == old(a).timed_out_contacts + b.timed_out_contacts,
{
}

/// A finished batch is counted in each family by that family's own outcome, and shown as its latest;
/// notes that were not published are not counted.
pub proof fn law_batch_counts_in_its_families(
    o: &mut KadPublishObservability,
    source: PublishSeedSource,
    items: usize,
    keyword: PublishAttemptStats,
    sources: PublishAttemptStats,
    notes: Option<PublishAttemptStats>,
    at: Timestamp,
)
    requires
        call_ensures(record_publish_summaries, (o, source, items, keyword, sources, notes, at), ()),
        items <= u32::MAX,
        counters_fit(old(o).keyword_counters, batch_summary(source, items, keyword, at)),
        counters_fit(old(o).source_counters, batch_summary(source, items, sources, at)),
        notes matches Some(stats) ==> counters_fit(
            old(o).notes_counters,
            batch_summary(source, items, stats, at),
        ),
    ensures
        final(o).last_seed_source == Some(source) && final(o).last_seed_at == Some(at),
        final(o).keyword_counters.batches == old(o).keyword_counters.batches + 1,
        final(o).source_counters.batches == old(o).source_counters.batches + 1,
        final(o).keyword_counters.acked_contacts == old(o).keyword_counters.acked_contacts
            + keyword.acked_contacts,
        final(o).source_counters.acked_contacts == old(o).source_counters.acked_contacts
            + sources.acked_contacts,
        final(o).keyword_counters.attempted_contacts == old(o).keyword_counters.attempted_contacts
            + keyword.attempted_contacts,
        final(o).source_counters.attempted_contacts == old(o).source_counters.attempted_contacts
            + sources.attempted_contacts,
        final(o).keyword_counters.published_items == old(o).keyword_counters.published_items + items,
        final(o).source_counters.published_items == old(o).source_counters.published_items + items,
        final(o).latest_keyword_batch matches Some(batch) && batch.acked_contacts == keyword.acked_contacts
            && batch.attempted_contacts == keyword.attempted_contacts && batch.published_items == items
            && batch.completed_at == at,
        final(o).latest_source_batch matches Some(batch) && batch.acked_contacts == sources.acked_contacts
            && batch.attempted_contacts == sources.attempted_contacts && batch.published_items == items
            && batch.completed_at == at,
        notes is None ==> final(o).notes_counters == old(o).notes_counters && final(o).latest_notes_batch is None,
        notes matches Some(stats) ==> {
            &&& final(o).notes_counters.batches == old(o).notes_counters.batches + 1
            &&& final(o).notes_counters.acked_contacts == old(o).notes_counters.acked_contacts
                + stats.acked_contacts
            &&& final(o).latest_notes_batch matches Some(batch)
            &&& batch.acked_contacts == stats.acked_contacts && batch.published_items == items
        },
        final(o).synthetic_drip_queue_depth == old(o).synthetic_drip_queue_depth,
{
}

/// While a batch runs its progress is shown and nothing is counted.
pub proof fn law_progress_is_not_counted(
    o: &mut KadPublishObservability,
    source: PublishSeedSource,
    items: usize,
    keyword: PublishAttemptStats,
    sources: PublishAttemptStats,
    notes: Option<PublishAttemptStats>,
    at: Timestamp,
)
    requires
        call_ensures(update_publish_progress, (o, source, items, keyword, sources, notes, at), ()),
        items <= u32::MAX,
    ensures
        final(o).keyword_counters == old(o).keyword_counters,
        final(o).source_counters == old(o).source_counters,
        final(o).notes_counters == old(o).notes_counters,
        final(o).last_seed_source == Some(source) && final(o).last_seed_at == Some(at),
        final(o).latest_keyword_batch matches Some(batch) && batch.acked_contacts == keyword.acked_contacts
            && batch.attempted_contacts == keyword.attempted_contacts && batch.published_items == items,
        final(o).latest_source_batch matches Some(batch) && batch.acked_contacts == sources.acked_contacts
            && batch.attempted_contacts == sources.attempted_contacts && batch.published_items == items,
        notes matches Some(stats) ==> (final(o).latest_notes_batch matches Some(batch) && batch.acked_contacts
            == stats.acked_contacts && batch.published_items == items),
        notes is None ==> final(o).latest_notes_batch == old(o).latest_notes_batch,
{
}

/// The depth of the drip queue is shown as it is, and nothing else changes.
pub proof fn law_queue_depth_is_shown(o: &mut KadPublishObservability, remaining: usize)
    requires
        call_ensures(set_synthetic_publish_queue_depth, (o, remaining), ()),
        remaining <= u32::MAX,
    ensures
        final(o).synthetic_drip_queue_depth matches Some(depth) && depth == remaining,
        final(o).keyword_counters == old(o).keyword_counters && final(o).source_counters
            == old(o).source_counters && final(o).notes_counters == old(o).notes_counters,
        final(o).latest_keyword_batch == old(o).latest_keyword_batch && final(o).last_seed_at == old(o).last_seed_at,
{
}

/// The markers of a user hash stand at two places; every other byte stays as it was.
pub proof fn law_markers_touch_two_bytes(user_hash: [u8; 16], r: [u8; 16], i: int)
    requires
        call_ensures(normalize_ed2k_user_hash_markers, (user_hash,), r),
        0 <= i < 16,
    ensures
        r@[5] == 0x0E && r@[14] == 0x6F,
        i != 5 && i != 14 ==> r@[i] == user_hash@[i],
{
}

/// A user hash is of no use exactly where there is nothing in it beside its markers.
pub proof fn law_bad_user_hash(user_hash: &[u8; 16], r: bool)
    requires
        call_ensures(ed2k_user_hash_is_bad, (user_hash,), r),
    ensures
        !r <==> exists|i: int| 0 <= i < 16 && i != 5 && i != 14 && #[trigger] user_hash@[i] != 0,
{
}

/// A stored user hash that carries anything beside its markers is kept, with its markers put right
/// where they are wrong; anything else is replaced.
pub proof fn law_stored_user_hash(stored: Option<Vec<u8>>, r: StoredUserHash)
    requires
        call_ensures(load_or_create_ed2k_user_hash, (stored,), r),
    ensures
        stored is None ==> r is Create,
        stored matches Some(bytes) ==> {
            let usable = bytes@.len() == 16 && exists|i: int|
                0 <= i < 16 && i != 5 && i != 14 && #[trigger] bytes@[i] != 0;
            &&& r is Create <==> !usable
            &&& r is Use ==> r->Use_0@ == bytes@ && bytes@[5] == 0x0E && bytes@[14] == 0x6F
            &&& r is Normalize ==> r->Normalize_0@[5] == 0x0E && r->Normalize_0@[14] == 0x6F && (bytes@[5] != 0x0E
                || bytes@[14] != 0x6F) && forall|i: int|
                0 <= i < 16 && i != 5 && i != 14 ==> #[trigger] r->Normalize_0@[i] == bytes@[i]
        },
{
    if let Some(bytes) = stored {
        if bytes@.len() == 16 {
            let marked = with_markers(bytes@);
            if exists|i: int| 0 <= i < 16 && i != 5 && i != 14 && #[trigger] bytes@[i] != 0 {
                let i = choose|i: int| 0 <= i < 16 && i != 5 && i != 14 && #[trigger] bytes@[i] != 0;
                assert(marked[i] == bytes@[i]);
            } else {
                assert forall|i: int| 0 <= i < 16 && i != 5 && i != 14 implies #[trigger] marked[i] == 0 by {
                    assert(bytes@[i] == 0);
                }
            }
            if bytes@[5] == 0x0E && bytes@[14] == 0x6F {
                assert(marked =~= bytes@);
            }
            if marked == bytes@ {
                assert(bytes@[5] == marked[5] && bytes@[14] == marked[14]);
            }
        }
    }
}

/// A user hash that is made carries the markers and something beside them.
pub proof fn law_new_user_hash(r: [u8; 16])
    requires
        call_ensures(create_ed2k_user_hash, (), r),
    ensures
        r@[5] == 0x0E && r@[14] == 0x6F,
        exists|i: int| 0 <= i < 16 && i != 5 && i != 14 && #[trigger] r@[i] != 0,
{
    assert(with_markers(r@)[5] == 0x0E && with_markers(r@)[14] == 0x6F);
}

/// The identity of the agent's sources is its user hash, in the order of bytes that Kad uses: read
/// back in that order it is the user hash again.
pub proof fn law_publish_identity(user_hash: [u8; 16], r: NodeId, back: [u8; 16])
    requires
        call_ensures(source_publish_client_hash, (user_hash,), r),
        call_ensures(NodeId::to_be_bytes, (r,), back),
    ensures
        back@ == user_hash@,
{
    ids::law_chunk_order_involution(user_hash@);
}

/// Large files are those that need more than 32 bits for their size; obfuscation is announced as
/// supported and requested, or not at all.
pub proof fn law_emule_numbers(size: u64, enabled: bool, kind: u32, options: u8, encryption: u8)
    requires
        call_ensures(emule_high_id_source_type, (size,), kind),
        call_ensures(emule_connect_options, (enabled,), options),
        call_ensures(emule_source_encryption_options, (enabled,), encryption),
    ensures
        kind == 4 <==> size > 0xFFFF_FFFF,
        kind == 1 <==> size <= 0xFFFF_FFFF,
        options == 3 <==> enabled,
        options == 0 <==> !enabled,
        encryption == options,
{
}

proof fn lemma_extension(stem: Seq<char>, ext: Seq<char>)
    requires
        forall|i: int| 0 <= i < ext.len() ==> #[trigger] ext[i] != '.',
    ensures
        extension(stem + seq!['.'] + ext) == Some(ext),
    decreases ext.len(),
{
    let name = stem + seq!['.'] + ext;
    if ext.len() == 0 {
        assert(name.last() == '.');
        assert(ext =~= Seq::empty());
    } else {
        let rest = ext.drop_last();
        assert forall|i: int| 0 <= i < rest.len() implies #[trigger] rest[i] != '.' by {
            assert(rest[i] == ext[i]);
        }
        lemma_extension(stem, rest);
        assert(name.drop_last() =~= stem + seq!['.'] + rest);
        assert(name.last() == ext.last());
        assert(ext[ext.len() - 1] != '.');
        assert(rest.push(ext.last()) =~= ext);
    }
}

proof fn lemma_no_extension(name: Seq<char>)
    requires
        forall|i: int| 0 <= i < name.len() ==> #[trigger] name[i] != '.',
    ensures
        extension(name) is None,
    decreases name.len(),
{
    if name.len() > 0 {
        assert(name[name.len() - 1] != '.');
        assert forall|i: int| 0 <= i < name.len() - 1 implies #[trigger] name.drop_last()[i] != '.' by {
            assert(name.drop_last()[i] == name[i]);
        }
        lemma_no_extension(name.drop_last());
    }
}

/// The type under which a file is published goes by what follows the last dot of its name, in any
/// case of its letters, and a name without a dot has none.
pub proof fn law_file_type_by_extension(
    file_name: &str,
    stem: Seq<char>,
    ext: Seq<char>,
    r: Option<&'static str>,
)
    requires
        call_ensures(ed2k_file_type_search_term, (file_name,), r),
        forall|i: int| 0 <= i < ext.len() ==> #[trigger] ext[i] != '.',
    ensures
        file_name@ == stem + seq!['.'] + ext ==> ({
            let e = text::ascii_lower(ext);
            &&& e == "mp3"@ || e == "aac"@ || e == "ac3"@ || e == "flac"@ || e == "m4a"@ || e == "ogg"@ || e == "wav"@ || e == "wma"@ ==> (r matches Some(term) && term@ == "Audio"@)
            &&& e == "avi"@ || e == "mkv"@ || e == "mov"@ || e == "mp4"@ || e == "mpeg"@ || e == "mpg"@ || e == "wmv"@ ==> (r matches Some(term) && term@ == "Video"@)
            &&& e == "bmp"@ || e == "gif"@ || e == "jpeg"@ || e == "jpg"@ || e == "png"@ || e == "tif"@ || e == "tiff"@ || e == "webp"@ ==> (r matches Some(term) && term@ == "Image"@)
            &&& e == "chm"@ || e == "csv"@ || e == "doc"@ || e == "docx"@ || e == "epub"@ || e == "htm"@ || e == "html"@ || e == "odt"@ || e == "pdf"@ || e == "pps"@ || e == "ppt"@ || e == "pptx"@ || e == "rtf"@ || e == "txt"@ || e == "xls"@ || e == "xlsx"@ ==> (r matches Some(term) && term@ == "Doc"@)
            &&& e == "7z"@ || e == "ace"@ || e == "apk"@ || e == "bat"@ || e == "bin"@ || e == "bz2"@ || e == "cab"@ || e == "cmd"@ || e == "com"@ || e == "dll"@ || e == "dmg"@ || e == "exe"@ || e == "gz"@ || e == "img"@ || e == "iso"@ || e == "jar"@ || e == "msi"@ || e == "pkg"@ || e == "rar"@ || e == "sh"@ || e == "tar"@ || e == "tgz"@ || e == "xz"@ || e == "zip"@ ==> (r matches Some(term) && term@ == "Pro"@)
            &&& e == "emulecollection"@ ==> (r matches Some(term) && term@ == "EmuleCollection"@)
        }),
        file_name@ == ext ==> r is None,
{
    if file_name@ == stem + seq!['.'] + ext {
        lemma_extension(stem, ext);
        lemma_extension_groups(text::ascii_lower(ext));
    }
    if file_name@ == ext {
        lemma_no_extension(ext);
    }
}

#[verifier::spinoff_prover]
#[verifier::rlimit(50)]
proof fn lemma_extension_groups(e: Seq<char>)
    ensures
        e == "mp3"@ || e == "aac"@ || e == "ac3"@ || e == "flac"@ || e == "m4a"@ || e == "ogg"@ || e == "wav"@ || e == "wma"@ ==> extension_search_term(e) == Some("Audio"@),
        e == "avi"@ || e == "mkv"@ || e == "mov"@ || e == "mp4"@ || e == "mpeg"@ || e == "mpg"@ || e == "wmv"@ ==> extension_search_term(e) == Some("Video"@),
        e == "bmp"@ || e == "gif"@ || e == "jpeg"@ || e == "jpg"@ || e == "png"@ || e == "tif"@ || e == "tiff"@ || e == "webp"@ ==> extension_search_term(e) == Some("Image"@),
        e == "chm"@ || e == "csv"@ || e == "doc"@ || e == "docx"@ || e == "epub"@ || e == "htm"@ || e == "html"@ || e == "odt"@ || e == "pdf"@ || e == "pps"@ || e == "ppt"@ || e == "pptx"@ || e == "rtf"@ || e == "txt"@ || e == "xls"@ || e == "xlsx"@ ==> extension_search_term(e) == Some("Doc"@),
        e == "7z"@ || e == "ace"@ || e == "apk"@ || e == "bat"@ || e == "bin"@ || e == "bz2"@ || e == "cab"@ || e == "cmd"@ || e == "com"@ || e == "dll"@ || e == "dmg"@ || e == "exe"@ || e == "gz"@ || e == "img"@ || e == "iso"@ || e == "jar"@ || e == "msi"@ || e == "pkg"@ || e == "rar"@ || e == "sh"@ || e == "tar"@ || e == "tgz"@ || e == "xz"@ || e == "zip"@ ==> extension_search_term(e) == Some("Pro"@),
        e == "emulecollection"@ ==> extension_search_term(e) == Some("EmuleCollection"@),
{
    reveal_strlit("mp3");
    assert("mp3"@[0] == 'm' && "mp3"@[1] == 'p' && "mp3"@[2] == '3');
    reveal_strlit("aac");
    assert("aac"@[0] == 'a' && "aac"@[1] == 'a' && "aac"@[2] == 'c');
    reveal_strlit("ac3");
    assert("ac3"@[0] == 'a' && "ac3"@[1] == 'c' && "ac3"@[2] == '3');
    reveal_strlit("flac");
    assert("flac"@[0] == 'f' && "flac"@[1] == 'l' && "flac"@[2] == 'a' && "flac"@[3] == 'c');
    reveal_strlit("m4a");
    assert("m4a"@[0] == 'm' && "m4a"@[1] == '4' && "m4a"@[2] == 'a');
    reveal_strlit("ogg");
    assert("ogg"@[0] == 'o' && "ogg"@[1] == 'g' && "ogg"@[2] == 'g');
    reveal_strlit("wav");
    assert("wav"@[0] == 'w' && "wav"@[1] == 'a' && "wav"@[2] == 'v');
    reveal_strlit("wma");
    assert("wma"@[0] == 'w' && "wma"@[1] == 'm' && "wma"@[2] == 'a');
    reveal_strlit("avi");
    assert("avi"@[0] == 'a' && "avi"@[1] == 'v' && "avi"@[2] == 'i');
    reveal_strlit("mkv");
    assert("mkv"@[0] == 'm' && "mkv"@[1] == 'k' && "mkv"@[2] == 'v');
    reveal_strlit("mov");
    assert("mov"@[0] == 'm' && "mov"@[1] == 'o' && "mov"@[2] == 'v');
    reveal_strlit("mp4");
    assert("mp4"@[0] == 'm' && "mp4"@[1] == 'p' && "mp4"@[2] == '4');
    reveal_strlit("mpeg");
    assert("mpeg"@[0] == 'm' && "mpeg"@[1] == 'p' && "mpeg"@[2] == 'e' && "mpeg"@[3] == 'g');
    reveal_strlit("mpg");
    assert("mpg"@[0] == 'm' && "mpg"@[1] == 'p' && "mpg"@[2] == 'g');
    reveal_strlit("wmv");
    assert("wmv"@[0] == 'w' && "wmv"@[1] == 'm' && "wmv"@[2] == 'v');
    reveal_strlit("bmp");
    assert("bmp"@[0] == 'b' && "bmp"@[1] == 'm' && "bmp"@[2] == 'p');
    reveal_strlit("gif");
    assert("gif"@[0] == 'g' && "gif"@[1] == 'i' && "gif"@[2] == 'f');
    reveal_strlit("jpeg");
    assert("jpeg"@[0] == 'j' && "jpeg"@[1] == 'p' && "jpeg"@[2] == 'e' && "jpeg"@[3] == 'g');
    reveal_strlit("jpg");
    assert("jpg"@[0] == 'j' && "jpg"@[1] == 'p' && "jpg"@[2] == 'g');
    reveal_strlit("png");
    assert("png"@[0] == 'p' && "png"@[1] == 'n' && "png"@[2] == 'g');
    reveal_strlit("tif");
    assert("tif"@[0] == 't' && "tif"@[1] == 'i' && "tif"@[2] == 'f');
    reveal_strlit("tiff");
    assert("tiff"@[0] == 't' && "tiff"@[1] == 'i' && "tiff"@[2] == 'f' && "tiff"@[3] == 'f');
    reveal_strlit("webp");
    assert("webp"@[0] == 'w' && "webp"@[1] == 'e' && "webp"@[2] == 'b' && "webp"@[3] == 'p');
    reveal_strlit("chm");
    assert("chm"@[0] == 'c' && "chm"@[1] == 'h' && "chm"@[2] == 'm');
    reveal_strlit("csv");
    assert("csv"@[0] == 'c' && "csv"@[1] == 's' && "csv"@[2] == 'v');
    reveal_strlit("doc");
    assert("doc"@[0] == 'd' && "doc"@[1] == 'o' && "doc"@[2] == 'c');
    reveal_strlit("docx");
    assert("docx"@[0] == 'd' && "docx"@[1] == 'o' && "docx"@[2] == 'c' && "docx"@[3] == 'x');
    reveal_strlit("epub");
    assert("epub"@[0] == 'e' && "epub"@[1] == 'p' && "epub"@[2] == 'u' && "epub"@[3] == 'b');
    reveal_strlit("htm");
    assert("htm"@[0] == 'h' && "htm"@[1] == 't' && "htm"@[2] == 'm');
    reveal_strlit("html");
    assert("html"@[0] == 'h' && "html"@[1] == 't' && "html"@[2] == 'm' && "html"@[3] == 'l');
    reveal_strlit("odt");
    assert("odt"@[0] == 'o' && "odt"@[1] == 'd' && "odt"@[2] == 't');
    reveal_strlit("pdf");
    assert("pdf"@[0] == 'p' && "pdf"@[1] == 'd' && "pdf"@[2] == 'f');
    reveal_strlit("pps");
    assert("pps"@[0] == 'p' && "pps"@[1] == 'p' && "pps"@[2] == 's');
    reveal_strlit("ppt");
    assert("ppt"@[0] == 'p' && "ppt"@[1] == 'p' && "ppt"@[2] == 't');
    reveal_strlit("pptx");
    assert("pptx"@[0] == 'p' && "pptx"@[1] == 'p' && "pptx"@[2] == 't' && "pptx"@[3] == 'x');
    reveal_strlit("rtf");
    assert("rtf"@[0] == 'r' && "rtf"@[1] == 't' && "rtf"@[2] == 'f');
    reveal_strlit("txt");
    assert("txt"@[0] == 't' && "txt"@[1] == 'x' && "txt"@[2] == 't');
    reveal_strlit("xls");
    assert("xls"@[0] == 'x' && "xls"@[1] == 'l' && "xls"@[2] == 's');
    reveal_strlit("xlsx");
    assert("xlsx"@[0] == 'x' && "xlsx"@[1] == 'l' && "xlsx"@[2] == 's' && "xlsx"@[3] == 'x');
    reveal_strlit("7z");
    assert("7z"@[0] == '7' && "7z"@[1] == 'z');
    reveal_strlit("ace");
    assert("ace"@[0] == 'a' && "ace"@[1] == 'c' && "ace"@[2] == 'e');
    reveal_strlit("apk");
    assert("apk"@[0] == 'a' && "apk"@[1] == 'p' && "apk"@[2] == 'k');
    reveal_strlit("bat");
    assert("bat"@[0] == 'b' && "bat"@[1] == 'a' && "bat"@[2] == 't');
    reveal_strlit("bin");
    assert("bin"@[0] == 'b' && "bin"@[1] == 'i' && "bin"@[2] == 'n');
    reveal_strlit("bz2");
    assert("bz2"@[0] == 'b' && "bz2"@[1] == 'z' && "bz2"@[2] == '2');
    reveal_strlit("cab");
    assert("cab"@[0] == 'c' && "cab"@[1] == 'a' && "cab"@[2] == 'b');
    reveal_strlit("cmd");
    assert("cmd"@[0] == 'c' && "cmd"@[1] == 'm' && "cmd"@[2] == 'd');
    reveal_strlit("com");
    assert("com"@[0] == 'c' && "com"@[1] == 'o' && "com"@[2] == 'm');
    reveal_strlit("dll");
    assert("dll"@[0] == 'd' && "dll"@[1] == 'l' && "dll"@[2] == 'l');
    reveal_strlit("dmg");
    assert("dmg"@[0] == 'd' && "dmg"@[1] == 'm' && "dmg"@[2] == 'g');
    reveal_strlit("exe");
    assert("exe"@[0] == 'e' && "exe"@[1] == 'x' && "exe"@[2] == 'e');
    reveal_strlit("gz");
    assert("gz"@[0] == 'g' && "gz"@[1] == 'z');
    reveal_strlit("img");
    assert("img"@[0] == 'i' && "img"@[1] == 'm' && "img"@[2] == 'g');
    reveal_strlit("iso");
    assert("iso"@[0] == 'i' && "iso"@[1] == 's' && "iso"@[2] == 'o');
    reveal_strlit("jar");
    assert("jar"@[0] == 'j' && "jar"@[1] == 'a' && "jar"@[2] == 'r');
    reveal_strlit("msi");
    assert("msi"@[0] == 'm' && "msi"@[1] == 's' && "msi"@[2] == 'i');
    reveal_strlit("pkg");
    assert("pkg"@[0] == 'p' && "pkg"@[1] == 'k' && "pkg"@[2] == 'g');
    reveal_strlit("rar");
    assert("rar"@[0] == 'r' && "rar"@[1] == 'a' && "rar"@[2] == 'r');
    reveal_strlit("sh");
    assert("sh"@[0] == 's' && "sh"@[1] == 'h');
    reveal_strlit("tar");
    assert("tar"@[0] == 't' && "tar"@[1] == 'a' && "tar"@[2] == 'r');
    reveal_strlit("tgz");
    assert("tgz"@[0] == 't' && "tgz"@[1] == 'g' && "tgz"@[2] == 'z');
    reveal_strlit("xz");
    assert("xz"@[0] == 'x' && "xz"@[1] == 'z');
    reveal_strlit("zip");
    assert("zip"@[0] == 'z' && "zip"@[1] == 'i' && "zip"@[2] == 'p');
    reveal_strlit("emulecollection");
    assert("emulecollection"@[0] == 'e' && "emulecollection"@[1] == 'm' && "emulecollection"@[2] == 'u' && "emulecollection"@[3] == 'l');
}

/// The contacts that failed are those that were attempted and did not acknowledge.
pub proof fn law_failed_contacts(stats: &PublishAttemptStats, r: u32)
    requires
        call_ensures(PublishAttemptStats::failed_contacts, (stats,), r),
    ensures
        stats.attempted_contacts >= stats.acked_contacts ==> r + stats.acked_contacts == stats.attempted_contacts,
        stats.attempted_contacts < stats.acked_contacts ==> r == 0,
{
}

/// A batch is live exactly where it got somewhere, was observed after the last one that was counted,
/// and is not that one; then it is counted on top of what is stored, and otherwise nothing is.
pub proof fn law_live_batches(
    counters: &PublishCounters,
    batch: &PublishBatchSummary,
    last_seed_at: Option<Timestamp>,
    live: bool,
    r: PublishCounters,
    without: PublishCounters,
)
    requires
        counters.batches < u64::MAX,
        counters.published_items + batch.published_items <= u64::MAX,
        counters.closest_contacts_considered + batch.closest_contacts_considered <= u64::MAX,
        counters.attempted_contacts + batch.attempted_contacts <= u64::MAX,
        counters.acked_contacts + batch.acked_contacts <= u64::MAX,
        counters.failed_contacts + batch.failed_contacts <= u64::MAX,
        counters.timed_out_contacts + batch.timed_out_contacts <= u64::MAX,
        call_ensures(publish_batch_is_live, (counters, batch, last_seed_at), live),
        call_ensures(effective_publish_counters, (counters, Some(batch), last_seed_at), r),
        call_ensures(effective_publish_counters, (counters, None::<&PublishBatchSummary>, last_seed_at), without),
    ensures
        without == *counters,
        last_seed_at is None ==> !live,
        counters.last_batch_at == Some(batch.completed_at) ==> !live,
        batch.published_items == 0 && batch.closest_contacts_considered == 0 && batch.attempted_contacts == 0
            && batch.acked_contacts == 0 && batch.failed_contacts == 0 && batch.timed_out_contacts == 0 ==> !live,
        last_seed_at matches Some(seen) ==> {
            &&& counters.last_batch_at matches Some(at) ==> (seen.secs < at.secs ==> !live)
            &&& counters.last_batch_at matches Some(at) ==> (seen == at ==> !live)
            &&& counters.last_batch_at matches Some(at) ==> (seen.secs > at.secs && at != batch.completed_at
                && batch.attempted_contacts > 0 ==> live)
            &&& counters.last_batch_at is None && (batch.published_items > 0 || batch.closest_contacts_considered > 0
                || batch.attempted_contacts > 0 || batch.acked_contacts > 0 || batch.failed_contacts > 0
                || batch.timed_out_contacts > 0) ==> live
        },
        !live ==> r == *counters,
        live ==> {
            &&& r.batches == counters.batches + 1
            &&& r.published_items == counters.published_items + batch.published_items
            &&& r.attempted_contacts == counters.attempted_contacts + batch.attempted_contacts
            &&& r.acked_contacts == counters.acked_contacts + batch.acked_contacts
            &&& r.failed_contacts == counters.failed_contacts + batch.failed_contacts
            &&& r.timed_out_contacts == counters.timed_out_contacts + batch.timed_out_contacts
            &&& r.last_batch_at == Some(batch.completed_at)
        },
{
}

/// A user hash that is made of random bytes is these bytes with the two markers in their places; none
/// is made where nothing but the markers would be in it.
pub proof fn law_user_hash_from_random(random: [u8; 16], r: Option<[u8; 16]>, i: int)
    requires
        call_ensures(user_hash_from_random, (random,), r),
        0 <= i < 16,
    ensures
        r matches Some(hash) ==> {
            &&& hash@[5] == 0x0E && hash@[14] == 0x6F
            &&& i != 5 && i != 14 ==> hash@[i] == random@[i]
        },
        i != 5 && i != 14 && random@[i] != 0 ==> r is Some,
        (forall|k: int| 0 <= k < 16 && k != 5 && k != 14 ==> #[trigger] random@[k] == 0) ==> r is None,
{
    let marked = with_markers(random@);
    assert(forall|k: int| 0 <= k < 16 && k != 5 && k != 14 ==> #[trigger] marked[k] == random@[k]);
    if i != 5 && i != 14 && random@[i] != 0 {
        assert(marked[i] != 0);
    }
}

/// The user hash of a number has the two markers in their places and, in the others, the number's
/// bytes, the least significant first.
pub proof fn law_user_hash_of_number(number: u128, r: [u8; 16])
    requires
        call_ensures(user_hash_of_number, (number,), r),
    ensures
        r@[5] == 0x0E && r@[14] == 0x6F,
        ({
            let n0 = number as nat;
            let n1 = n0 / 256;
            let n2 = n1 / 256;
            let n3 = n2 / 256;
            let n4 = n3 / 256;
            let n5 = n4 / 256;
            let n6 = n5 / 256;
            let n7 = n6 / 256;
            let n8 = n7 / 256;
            let n9 = n8 / 256;
            let n10 = n9 / 256;
            let n11 = n10 / 256;
            let n12 = n11 / 256;
            let n13 = n12 / 256;
            &&& r@[0] == n0 % 256 && r@[1] == n1 % 256 && r@[2] == n2 % 256 && r@[3] == n3 % 256
            &&& r@[4] == n4 % 256 && r@[6] == n5 % 256 && r@[7] == n6 % 256 && r@[8] == n7 % 256
            &&& r@[9] == n8 % 256 && r@[10] == n9 % 256 && r@[11] == n10 % 256 && r@[12] == n11 % 256
            &&& r@[13] == n12 % 256 && r@[15] == n13 % 256
        }),
{
    reveal_with_fuel(marked_digits, 17);
}

/// A user hash that is drawn can be used: its markers are in their places, and it holds something
/// beside them.
pub proof fn law_drawn_user_hash(r: [u8; 16])
    requires
        call_ensures(draw_usable_user_hash, (), r),
    ensures
        r@[5] == 0x0E && r@[14] == 0x6F,
        exists|i: int| 0 <= i < 16 && i != 5 && i != 14 && #[trigger] r@[i] != 0,
{
    assert(with_markers(r@)[5] == r@[5]);
    assert(with_markers(r@)[14] == r@[14]);
}

/// The AICH root of a seeded file is the digest of its hash, its size in eight bytes and its name, in
/// this order.
pub proof fn law_aich_root(file_hash: &Ed2kHash, file_name: &str, file_size: u64, r: [u8; 20])
    requires
        call_ensures(synthetic_publish_aich_hash, (file_hash, file_name, file_size), r),
    ensures
        r@ == digests::sha1_digest(
            file_hash.0@ + vstd::bytes::spec_u64_to_le_bytes(file_size) + vstd::utf8::encode_utf8(file_name@),
        ),
{
}

/// A synthetic file is published under its own title, size and source count, and under a hash that is
/// the digest of its place and of these.
pub proof fn law_synthetic_file(index: usize, seed: &SyntheticPopularSeed, hash: Ed2kHash, of: PopularHash, r: PopularHash)
    requires
        call_ensures(synthetic_file_hash, (index, seed), hash),
        call_ensures(popular_hash_of, (hash, seed), of),
        call_ensures(synthetic_popular_hash, (index, seed), r),
    ensures
        hash.0@ == digests::md4_digest(
            vstd::utf8::encode_utf8(
                "overlord-synthetic-kad-seed|"@ + text::decimal(index as nat) + "|"@ + seed.title@ + "|"@
                    + text::decimal(seed.size as nat) + "|"@ + text::decimal(seed.source_count as nat),
            ),
        ),
        of.canonical_name@ == seed.title@ && r.canonical_name@ == seed.title@,
        of.size == seed.size && r.size == seed.size,
        of.source_count == seed.source_count && r.source_count == seed.source_count,
        of.hash matches HashType::Ed2k(text) && text@.len() == 32 && text::hex_bytes(text@) == hash.0@,
        r.hash matches HashType::Ed2k(text) && text@.len() == 32 && text::hex_bytes(text@) == hash.0@,
{
    ids::law_hex_round_trip(hash.0@);
}

/// The synthetic list holds the forty files of the data set, each in its place.
pub proof fn law_synthetic_list(seeds: [SyntheticPopularSeed; 40], r: Vec<PopularHash>, i: int)
    requires
        call_ensures(synthetic_popular_seeds, (), seeds),
        call_ensures(synthetic_popular_hashes, (), r),
        0 <= i < 40,
    ensures
        r@.len() == 40,
        r@[i].canonical_name@ == seeds@[i].title@,
        r@[i].size == seeds@[i].size,
        r@[i].source_count == seeds@[i].source_count,
{
    let views = popular_views(r@);
    assert(views.len() == r@.len());
    assert(views[i] == r@[i]@);
    assert(views[i] == rotation(0, 40)[i]);
}

/// A batch is the next files of the synthetic list, going round: as many as were asked for, one at
/// least and each once at most.
#[verifier::spinoff_prover]
pub proof fn law_synthetic_batch(cursor: &mut usize, batch_items: usize, all: Vec<PopularHash>, r: Vec<PopularHash>, k: int)
    requires
        call_ensures(synthetic_popular_hashes, (), all),
        call_ensures(next_synthetic_publish_batch, (cursor, batch_items), r),
    ensures
        1 <= batch_items <= 40 ==> r@.len() == batch_items,
        batch_items == 0 ==> r@.len() == 1,
        batch_items > 40 ==> r@.len() == 40,
        0 <= k < r@.len() ==> {
            let at = (*old(cursor) % 40 + k) % 40;
            &&& r@[k].canonical_name@ == all@[at].canonical_name@
            &&& r@[k].size == all@[at].size
            &&& r@[k].source_count == all@[at].source_count
            &&& r@[k].hash@ == all@[at].hash@
        },
{
    let start = (*old(cursor) % 40) as int;
    let views = popular_views(r@);
    let whole = popular_views(all@);
    assert(views.len() == r@.len());
    assert(whole.len() == all@.len());
    if 0 <= k < r@.len() {
        let at = (start + k) % 40;
        assert(0 <= at < 40);
        assert(views[k] == r@[k]@);
        assert(views[k] == synthetic_file(at));
        assert(whole[at] == all@[at]@);
        assert((0 + at) % 40 == at);
        assert(whole[at] == synthetic_file(at));
    }
}

/// The next batch goes on behind the last file of this one; the depth of the queue is what is left of
/// the round.
pub proof fn law_synthetic_cursor(cursor: &mut usize, batch_items: usize, r: Vec<PopularHash>, depth: usize)
    requires
        call_ensures(synthetic_publish_queue_depth, (*old(cursor),), depth),
        call_ensures(next_synthetic_publish_batch, (cursor, batch_items), r),
    ensures
        *final(cursor) < 40,
        *final(cursor) == (*old(cursor) % 40 + r@.len()) % 40,
        1 <= depth <= 40,
        depth + *old(cursor) % 40 == 40,
{
    assert(popular_views(r@).len() == r@.len());
}

} // verus!
