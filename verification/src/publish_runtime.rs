//! One seeding pass: what is published for every file, and how the pass is accounted for.

use vstd::prelude::*;
use vstd::string::*;
use crate::activity;
use crate::activity::{
    degraded_snapshot, new_activity_snapshot, publish_activity_key, AgentActivityTracker,
};
use crate::digests;
use crate::ids;
use crate::ids::{Ed2kHash, NodeId, SocketAddr, Timestamp};
use crate::kad;
use crate::kad::{Tag, TagValueView, TAG_FILENAME, TAG_FILESIZE, TAG_FILETYPE, TAG_SOURCES};
use crate::keywords;
use crate::keywords::keyword_target;
use crate::publish;
use crate::publish::{
    build_notes_publish_tags, build_source_publish_tags, ed2k_file_type_search_term,
    record_publish_summaries, synthetic_popular_hashes, synthetic_publish_aich_hash,
    update_publish_progress, PublishAttemptStats, SourcePublishSettings,
};
use crate::seeds::SYNTHETIC_SEED_COUNT;
use crate::text;
use crate::text::joined;
use crate::types;
use crate::types::{
    AgentActivitySnapshot, AgentActivityState, HashType, KadPublishObservability, PopularHash,
    PopularHashView, PublishSeedSource,
};

verus! {

broadcast use vstd::string::group_string_axioms;

/// Why a seeding pass ends early.
#[derive(Debug, PartialEq, Eq)]
pub enum SeedError {
    NotBootstrapped,
    InvalidHash { raw: String },
}

impl SeedError {
    /// The text of the error.
    pub open spec fn text(self) -> Seq<char> {
        match self {
            SeedError::NotBootstrapped => "kad node is not bootstrapped yet"@,
            SeedError::InvalidHash { raw } => "invalid Ed2k hash "@ + raw@,
        }
    }

    pub fn message(&self) -> (r: String)
        ensures
            r@ == self.text(),
    {
        match self {
            SeedError::NotBootstrapped => "kad node is not bootstrapped yet".to_owned(),
            SeedError::InvalidHash { raw } => joined("invalid Ed2k hash ", raw.as_str()),
        }
    }
}

/// The tags of a keyword publish: what a normal content publish carries, and the file type where
/// the name shows one.
pub open spec fn keyword_publish_tags(file: PopularHashView) -> Seq<kad::TagView> {
    let head = seq![
        kad::short_tag(TAG_FILENAME, TagValueView::String(file.canonical_name)),
        kad::short_tag(TAG_FILESIZE, TagValueView::UInt(file.size)),
        kad::short_tag(TAG_SOURCES, TagValueView::UInt(file.source_count as u64)),
    ];
    match publish::file_type_term(file.canonical_name) {
        Some(term) => head.push(kad::short_tag(TAG_FILETYPE, TagValueView::String(term))),
        None => head,
    }
}

/// Builds the tags of a keyword publish.
pub fn build_keyword_publish_tags(file: &PopularHash) -> (r: Vec<Tag>)
    ensures
        kad::tag_views(r@) == keyword_publish_tags(file@),
{
    let mut tags: Vec<Tag> = Vec::new();
    tags.push(Tag::filename(file.canonical_name.as_str()));
    tags.push(Tag::filesize(file.size));
    tags.push(Tag::sources(file.source_count));
    match ed2k_file_type_search_term(file.canonical_name.as_str()) {
        Some(term) => {
            tags.push(Tag::filetype(term));
        },
        None => {},
    }
    assert(kad::tag_views(tags@) =~= keyword_publish_tags(file@));
    tags
}

/// Everything that is published for one file.
#[derive(Debug, PartialEq, Eq)]
pub struct SeedItemPlan {
    /// The place of the file in the pass, counted from one.
    pub item_no: usize,
    pub file_hash: Ed2kHash,
    pub keyword_target: NodeId,
    pub keyword_tags: Vec<Tag>,
    pub keyword_aich_hash: [u8; 20],
    /// The Kad target of the file's sources and notes.
    pub file_target: NodeId,
    pub source_tags: Vec<Tag>,
    /// The tags of the notes publish, where notes are published.
    pub notes_tags: Option<Vec<Tag>>,
}

/// Whether `plan` is what publishing `file` takes, given the file's hash.
pub open spec fn plan_of(
    plan: SeedItemPlan,
    file: PopularHashView,
    bind_addr: SocketAddr,
    settings: SourcePublishSettings,
    notes_publish_enabled: bool,
) -> bool {
    &&& plan.file_hash.0@ == text::hex_bytes(file.hash)
    &&& plan.keyword_target.0@ == ids::chunk_order(
        digests::md4_digest(vstd::utf8::encode_utf8(keywords::lookup_word(file.canonical_name))),
    )
    &&& kad::tag_views(plan.keyword_tags@) == keyword_publish_tags(file)
    &&& plan.keyword_aich_hash@ == digests::sha1_digest(
        publish::aich_input(plan.file_hash, file.canonical_name, file.size),
    )
    &&& plan.file_target.0@ == ids::chunk_order(plan.file_hash.0@)
    &&& kad::tag_views(plan.source_tags@) == publish::source_publish_tags(bind_addr, settings, file.size)
    &&& plan.notes_tags is Some <==> notes_publish_enabled
    &&& plan.notes_tags matches Some(tags) ==> kad::tag_views(tags@) == publish::notes_publish_tags(
        file.canonical_name,
        file.size,
    )
}

/// A seeding pass under way.
pub struct SeedRun {
    pub seed_source: PublishSeedSource,
    pub notes_publish_enabled: bool,
    pub items: Vec<PopularHash>,
    /// How many items have been published.
    pub done: usize,
    pub keyword_totals: PublishAttemptStats,
    pub source_totals: PublishAttemptStats,
    pub notes_totals: PublishAttemptStats,
}

/// The totals with one more attempt, where it came to anything.
pub open spec fn totals_after(
    totals: PublishAttemptStats,
    attempt: Option<PublishAttemptStats>,
) -> PublishAttemptStats {
    match attempt {
        Some(stats) => totals.plus(stats),
        None => totals,
    }
}

/// Whether one more attempt can be added to the totals.
pub open spec fn attempt_fits(
    totals: PublishAttemptStats,
    attempt: Option<PublishAttemptStats>,
) -> bool {
    attempt matches Some(stats) ==> totals.fits(stats)
}

fn add_attempt(totals: &mut PublishAttemptStats, attempt: Option<PublishAttemptStats>)
    requires
        attempt_fits(*old(totals), attempt),
    ensures
        *final(totals) == totals_after(*old(totals), attempt),
{
    match attempt {
        Some(stats) => {
            totals.accumulate(stats);
        },
        None => {},
    }
}

impl SeedRun {
    pub open spec fn wf(self) -> bool {
        self.done <= self.items@.len()
    }

    /// The notes totals, where notes are published.
    pub open spec fn reported_notes(self) -> Option<PublishAttemptStats> {
        if self.notes_publish_enabled {
            Some(self.notes_totals)
        } else {
            None
        }
    }

    /// Begins a pass. It takes a node that is bootstrapped.
    pub fn begin(
        bootstrapped: bool,
        seed_source: PublishSeedSource,
        hashes: Vec<PopularHash>,
        notes_publish_enabled: bool,
    ) -> (r: Result<SeedRun, SeedError>)
        ensures
            r is Ok <==> bootstrapped,
            r matches Err(error) ==> error is NotBootstrapped,
            r matches Ok(run) ==> run.wf() && run == (SeedRun {
                seed_source,
                notes_publish_enabled,
                items: hashes,
                done: 0,
                keyword_totals: PublishAttemptStats::zero(),
                source_totals: PublishAttemptStats::zero(),
                notes_totals: PublishAttemptStats::zero(),
            }),
    {
        if !bootstrapped {
            return Err(SeedError::NotBootstrapped);
        }
        Ok(
            SeedRun {
                seed_source,
                notes_publish_enabled,
                items: hashes,
                done: 0,
                keyword_totals: PublishAttemptStats::default(),
                source_totals: PublishAttemptStats::default(),
                notes_totals: PublishAttemptStats::default(),
            },
        )
    }

    /// What is to be published next: nothing once all items are done, and an error where the
    /// item's hash is no hash.
    pub fn next_item(&self, bind_addr: SocketAddr, settings: SourcePublishSettings) -> (r: Option<
        Result<SeedItemPlan, SeedError>,
    >)
        requires
            self.wf(),
        ensures
            r is None <==> self.done == self.items@.len(),
            r matches Some(Ok(plan)) ==> ids::is_hash_text(self.items@[self.done as int]@.hash)
                && plan.item_no == self.done + 1 && plan_of(
                plan,
                self.items@[self.done as int]@,
                bind_addr,
                settings,
                self.notes_publish_enabled,
            ),
            r matches Some(Err(error)) ==> !ids::is_hash_text(self.items@[self.done as int]@.hash)
                && error is InvalidHash && error->raw@ == self.items@[self.done as int]@.hash,
    {
        if self.done >= self.items.len() {
            return None;
        }
        let file: &PopularHash = &self.items[self.done];
        let raw: &String = match &file.hash {
            HashType::Ed2k(raw) => raw,
        };
        let file_hash: Ed2kHash = match Ed2kHash::from_text(raw.as_str()) {
            Some(hash) => hash,
            None => {
                return Some(Err(SeedError::InvalidHash { raw: raw.clone() }));
            },
        };
        let notes_tags: Option<Vec<Tag>> = if self.notes_publish_enabled {
            Some(build_notes_publish_tags(file.canonical_name.as_str(), file.size))
        } else {
            None
        };
        Some(
            Ok(
                SeedItemPlan {
                    item_no: self.done + 1,
                    file_hash,
                    keyword_target: keyword_target(file.canonical_name.as_str()),
                    keyword_tags: build_keyword_publish_tags(file),
                    keyword_aich_hash: synthetic_publish_aich_hash(
                        &file_hash,
                        file.canonical_name.as_str(),
                        file.size,
                    ),
                    file_target: NodeId::from_be_bytes(file_hash.0),
                    source_tags: build_source_publish_tags(bind_addr, settings, file.size),
                    notes_tags,
                },
            ),
        )
    }

    /// Notes that an item has been published. A publish that failed adds nothing to the totals;
    /// a notes outcome counts only where notes are published.
    pub fn complete_item(
        &mut self,
        keyword: Option<PublishAttemptStats>,
        source: Option<PublishAttemptStats>,
        notes: Option<PublishAttemptStats>,
    )
        requires
            old(self).wf(),
            old(self).done < old(self).items@.len(),
            attempt_fits(old(self).keyword_totals, keyword),
            attempt_fits(old(self).source_totals, source),
            old(self).notes_publish_enabled ==> attempt_fits(old(self).notes_totals, notes),
        ensures
            final(self).wf(),
            *final(self) == (SeedRun {
                done: (old(self).done + 1) as usize,
                keyword_totals: totals_after(old(self).keyword_totals, keyword),
                source_totals: totals_after(old(self).source_totals, source),
                notes_totals: if old(self).notes_publish_enabled {
                    totals_after(old(self).notes_totals, notes)
                } else {
                    old(self).notes_totals
                },
                ..*old(self)
            }),
    {
        add_attempt(&mut self.keyword_totals, keyword);
        add_attempt(&mut self.source_totals, source);
        if self.notes_publish_enabled {
            add_attempt(&mut self.notes_totals, notes);
        }
        assert(self.done < self.items.len());
        self.done = self.done + 1;
    }

    fn notes_stats(&self) -> (r: Option<PublishAttemptStats>)
        ensures
            r == self.reported_notes(),
    {
        if self.notes_publish_enabled {
            Some(self.notes_totals)
        } else {
            None
        }
    }

    /// Shows how far the pass has got.
    pub fn report_progress(&self, observability: &mut KadPublishObservability, observed_at: Timestamp)
        ensures
            *final(observability) == publish::progress_recorded(
                *old(observability),
                self.seed_source,
                self.done,
                self.keyword_totals,
                self.source_totals,
                self.reported_notes(),
                observed_at,
            ),
    {
        update_publish_progress(
            observability,
            self.seed_source,
            self.done,
            self.keyword_totals,
            self.source_totals,
            self.notes_stats(),
            observed_at,
        );
    }

    /// Shows how far the pass has got as the progress of its activity.
    pub fn report_activity(&self, tracker: &mut AgentActivityTracker, key: &str, observed_at: Timestamp)
        requires
            old(tracker).wf(),
        ensures
            final(tracker).wf(),
            final(tracker)@ == if old(tracker)@.contains_key(key@) {
                old(tracker)@.insert(
                    key@,
                    AgentActivitySnapshot {
                        progress_current: Some(self.done as u32),
                        progress_total: Some(self.items@.len() as u32),
                        last_update_at: observed_at,
                        ..old(tracker)@[key@]
                    },
                )
            } else {
                old(tracker)@
            },
            final(tracker).degraded == old(tracker).degraded,
            final(tracker).idle_since == old(tracker).idle_since,
    {
        let total: usize = self.items.len();
        tracker.update_progress(
            key,
            Some(#[verifier::truncate] (self.done as u32)),
            Some(#[verifier::truncate] (total as u32)),
            observed_at,
        );
    }

    /// Counts the pass once all its items are done.
    pub fn finish(&self, observability: &mut KadPublishObservability, completed_at: Timestamp)
        requires
            publish::counters_fit(
                old(observability).keyword_counters,
                publish::batch_summary(
                    self.seed_source,
                    self.items@.len() as usize,
                    self.keyword_totals,
                    completed_at,
                ),
            ),
            publish::counters_fit(
                old(observability).source_counters,
                publish::batch_summary(
                    self.seed_source,
                    self.items@.len() as usize,
                    self.source_totals,
                    completed_at,
                ),
            ),
            self.notes_publish_enabled ==> publish::counters_fit(
                old(observability).notes_counters,
                publish::batch_summary(
                    self.seed_source,
                    self.items@.len() as usize,
                    self.notes_totals,
                    completed_at,
                ),
            ),
        ensures
            *final(observability) == publish::summaries_recorded(
                *old(observability),
                self.seed_source,
                self.items@.len() as usize,
                self.keyword_totals,
                self.source_totals,
                self.reported_notes(),
                completed_at,
            ),
    {
        record_publish_summaries(
            observability,
            self.seed_source,
            self.items.len(),
            self.keyword_totals,
            self.source_totals,
            self.notes_stats(),
            completed_at,
        );
    }
}

/// The sum of all attempts that came to anything.
pub open spec fn attempt_sum(attempts: Seq<Option<PublishAttemptStats>>) -> PublishAttemptStats
    decreases attempts.len(),
{
    if attempts.len() == 0 {
        PublishAttemptStats::zero()
    } else {
        totals_after(attempt_sum(attempts.drop_last()), attempts.last())
    }
}

/// The totals of a pass are the sums over its items: one more item adds its own attempt.
pub proof fn law_totals_are_sums(
    attempts: Seq<Option<PublishAttemptStats>>,
    next: Option<PublishAttemptStats>,
)
    ensures
        attempt_sum(attempts.push(next)) == totals_after(attempt_sum(attempts), next),
        attempt_sum(Seq::empty()) == PublishAttemptStats::zero(),
{
    assert(attempts.push(next).drop_last() =~= attempts);
}

/// The coordinator's popular files, where there are any.
pub fn fetch_coordinator_popular_hashes(hashes: Vec<PopularHash>) -> (r: Option<Vec<PopularHash>>)
    ensures
        r is Some <==> hashes@.len() > 0,
        r matches Some(found) ==> found == hashes,
{
    if hashes.len() == 0 {
        None
    } else {
        Some(hashes)
    }
}

/// The activity of a publish pass at its start.
pub open spec fn publishing_snapshot(
    snapshot: AgentActivitySnapshot,
    seed_source: PublishSeedSource,
    items: nat,
    started_at: Timestamp,
) -> bool {
    &&& types::opt_text(snapshot.query_or_target) == Some(seed_source.label_text())
    &&& snapshot == (AgentActivitySnapshot {
        query_or_target: snapshot.query_or_target,
        progress_current: Some(0),
        progress_total: Some(items as u32),
        ..activity::bare_snapshot(AgentActivityState::Publishing, started_at)
    })
}

/// Begins the activity of a publish pass and returns its key.
pub fn begin_publish_activity(
    tracker: &mut AgentActivityTracker,
    seed_source: PublishSeedSource,
    items: usize,
    started_at: Timestamp,
) -> (r: String)
    requires
        old(tracker).wf(),
    ensures
        final(tracker).wf(),
        r@ == "publishing:"@ + seed_source.label_text() + ":"@ + text::signed_decimal(
            started_at.millis(),
        ),
        final(tracker)@.contains_key(r@),
        publishing_snapshot(final(tracker)@[r@], seed_source, items as nat, started_at),
        final(tracker)@ == old(tracker)@.insert(r@, final(tracker)@[r@]),
        final(tracker).degraded == old(tracker).degraded,
        final(tracker).idle_since == old(tracker).idle_since,
{
    let key: String = publish_activity_key(seed_source, started_at);
    let mut snapshot: AgentActivitySnapshot = new_activity_snapshot(
        AgentActivityState::Publishing,
        started_at,
    );
    snapshot.query_or_target = Some(seed_source.label().to_owned());
    snapshot.progress_current = Some(0);
    snapshot.progress_total = Some(#[verifier::truncate] (items as u32));
    tracker.enter(key.clone(), snapshot);
    key
}

/// Ends the activity of a publish pass: a failure degrades the agent, a success clears that.
pub fn finish_publish_activity(
    tracker: &mut AgentActivityTracker,
    key: &str,
    seed_source: PublishSeedSource,
    error: Option<String>,
    observed_at: Timestamp,
)
    requires
        old(tracker).wf(),
    ensures
        final(tracker).wf(),
        final(tracker)@ == old(tracker)@.remove(key@),
        final(tracker).idle_since == activity::idle_after(*old(tracker), *final(tracker), key@, observed_at),
        match error {
            Some(error) => final(tracker).degraded matches Some(degraded) && activity::says_failed(
                degraded,
                seed_source.label_text(),
                error,
                observed_at,
            ),
            None => final(tracker).degraded is None,
        },
{
    tracker.leave(key, observed_at);
    match error {
        Some(error) => {
            let snapshot: AgentActivitySnapshot = degraded_snapshot(
                seed_source.label(),
                error,
                observed_at,
            );
            tracker.record_degraded(snapshot);
        },
        None => {
            tracker.clear_degraded();
        },
    }
}

/// One shared file.
pub struct SharedEntry {
    pub file_hash: Ed2kHash,
    pub file_name: String,
    pub file_size: u64,
    /// Whether the file is only listed to look compatible.
    pub compatibility_hint: bool,
}

/// The popular files that the shared catalog lists: those given, and, where none are, the
/// synthetic ones.
pub fn catalog_replacements(hashes: &Vec<PopularHash>) -> (r: Vec<PopularHash>)
    ensures
        publish::popular_views(r@) == if hashes@.len() == 0 {
            publish::rotation(0, SYNTHETIC_SEED_COUNT as nat)
        } else {
            publish::popular_views(hashes@)
        },
{
    if hashes.len() == 0 {
        return synthetic_popular_hashes();
    }
    let mut r: Vec<PopularHash> = Vec::new();
    let mut i: usize = 0;
    while i < hashes.len()
        invariant
            i <= hashes.len(),
            r@ == hashes@.take(i as int),
        decreases hashes.len() - i,
    {
        r.push(hashes[i].clone());
        i = i + 1;
    }
    assert(hashes@.take(i as int) =~= hashes@);
    r
}

/// Replaces the compatibility hints of the catalog and keeps everything else.
pub fn refresh_ed2k_shared_catalog(catalog: Vec<SharedEntry>, hints: Vec<SharedEntry>) -> (r: Vec<
    SharedEntry,
>)
    ensures
        r@ == catalog@.filter(|entry: SharedEntry| !entry.compatibility_hint) + hints@,
{
    let ghost all = catalog@;
    let ghost own = |entry: SharedEntry| !entry.compatibility_hint;
    let mut rest: Vec<SharedEntry> = catalog;
    let mut tail: Vec<SharedEntry> = hints;
    proof {
        assert(all.skip(all.len() as int) =~= Seq::empty());
        assert(all.skip(all.len() as int).filter(own) =~= Seq::empty()) by {
            reveal(Seq::filter);
        }
        assert(all.take(all.len() as int) =~= all);
        assert(Seq::<SharedEntry>::empty() + hints@ =~= hints@);
    }
    while rest.len() > 0
        invariant
            own == (|entry: SharedEntry| !entry.compatibility_hint),
            rest@.len() <= all.len(),
            rest@ == all.take(rest@.len() as int),
            tail@ == all.skip(rest@.len() as int).filter(own) + hints@,
        decreases rest.len(),
    {
        let ghost k = rest@.len() as int;
        let last: Option<SharedEntry> = rest.pop();
        match last {
            Some(entry) => {
                proof {
                    assert(entry == all[k - 1]);
                    assert(all.skip(k - 1) =~= seq![entry] + all.skip(k));
                    Seq::filter_distributes_over_add(seq![entry], all.skip(k), own);
                    reveal_with_fuel(Seq::filter, 2);
                    assert(seq![entry].drop_last() =~= Seq::empty());
                    assert(seq![entry].filter(own) =~= if own(entry) {
                        seq![entry]
                    } else {
                        Seq::empty()
                    });
                    assert(all.take(k).drop_last() =~= all.take(k - 1));
                }
                let ghost before = tail@;
                if !entry.compatibility_hint {
                    tail.insert(0, entry);
                    assert(tail@ =~= seq![entry] + before);
                }
                assert(tail@ =~= all.skip(k - 1).filter(own) + hints@);
            },
            None => {},
        }
    }
    assert(all.skip(0) =~= all);
    tail
}

/// A keyword publish says of a file exactly what is known of it: one name, which is the file's, one
/// size, which is the file's, one number of sources, which is the file's, and its type where the
/// name shows one.
pub proof fn law_keyword_publish_says_the_file(file: &PopularHash, r: Vec<Tag>)
    requires
        call_ensures(build_keyword_publish_tags, (file,), r),
    ensures
        kad::sole_tag(r@, TAG_FILENAME, TagValueView::String(file.canonical_name@)),
        kad::sole_tag(r@, TAG_FILESIZE, TagValueView::UInt(file.size)),
        kad::sole_tag(r@, TAG_SOURCES, TagValueView::UInt(file.source_count as u64)),
        publish::file_type_term(file.canonical_name@) matches Some(term) ==> kad::sole_tag(
            r@,
            TAG_FILETYPE,
            TagValueView::String(term),
        ) && r@.len() == 4,
        publish::file_type_term(file.canonical_name@) is None ==> r@.len() == 3,
{
    let views = kad::tag_views(r@);
    assert(views.len() == r@.len());
    kad::lemma_sole_tag(r@, 0, TAG_FILENAME, TagValueView::String(file.canonical_name@));
    kad::lemma_sole_tag(r@, 1, TAG_FILESIZE, TagValueView::UInt(file.size));
    kad::lemma_sole_tag(r@, 2, TAG_SOURCES, TagValueView::UInt(file.source_count as u64));
    if let Some(term) = publish::file_type_term(file.canonical_name@) {
        kad::lemma_sole_tag(r@, 3, TAG_FILETYPE, TagValueView::String(term));
    }
}

/// What is planned for an item is about that item: its hash is the item's, its tags give the item's
/// name, size and number of sources, its sources are published under its own hash, and notes are
/// planned exactly where they are published. An item whose hash is none is named in the error.
pub proof fn law_plan_is_of_its_item(
    run: &SeedRun,
    bind_addr: SocketAddr,
    settings: SourcePublishSettings,
    r: Option<Result<SeedItemPlan, SeedError>>,
)
    requires
        call_ensures(SeedRun::next_item, (run, bind_addr, settings), r),
        run.wf(),
    ensures
        r is None <==> run.done == run.items@.len(),
        r matches Some(Err(error)) ==> (error matches SeedError::InvalidHash { raw } && raw@
            == run.items@[run.done as int].hash@),
        r matches Some(Ok(plan)) ==> {
            let item = run.items@[run.done as int];
            &&& plan.item_no == run.done + 1
            &&& item.hash@.len() == 32 && plan.file_hash.0@ == text::hex_bytes(item.hash@)
            &&& kad::sole_tag(plan.keyword_tags@, TAG_FILENAME, TagValueView::String(item.canonical_name@))
            &&& kad::sole_tag(plan.keyword_tags@, TAG_FILESIZE, TagValueView::UInt(item.size))
            &&& kad::sole_tag(plan.keyword_tags@, TAG_SOURCES, TagValueView::UInt(item.source_count as u64))
            &&& kad::sole_tag(plan.source_tags@, TAG_FILESIZE, TagValueView::UInt(item.size))
            &&& kad::sole_tag(
                plan.source_tags@,
                kad::TAG_SOURCEPORT,
                TagValueView::UInt(settings.tcp_port as u64),
            )
            &&& kad::sole_tag(plan.source_tags@, kad::TAG_SOURCEUPORT, TagValueView::U16(bind_addr.port))
            &&& plan.keyword_target.0@ == ids::chunk_order(
                digests::md4_digest(vstd::utf8::encode_utf8(keywords::lookup_word(item.canonical_name@))),
            )
            &&& ids::chunk_order(plan.file_target.0@) == plan.file_hash.0@
            &&& plan.keyword_aich_hash@ == digests::sha1_digest(
                plan.file_hash.0@ + vstd::bytes::spec_u64_to_le_bytes(item.size) + vstd::utf8::encode_utf8(
                    item.canonical_name@,
                ),
            )
            &&& plan.notes_tags is Some <==> run.notes_publish_enabled
            &&& plan.notes_tags matches Some(tags) ==> kad::sole_tag(
                tags@,
                TAG_FILENAME,
                TagValueView::String(item.canonical_name@),
            ) && kad::sole_tag(tags@, TAG_FILESIZE, TagValueView::UInt(item.size))
        },
{
    if let Some(Ok(plan)) = r {
        let item = run.items@[run.done as int];
        let k = kad::tag_views(plan.keyword_tags@);
        assert(k.len() == plan.keyword_tags@.len());
        kad::lemma_sole_tag(plan.keyword_tags@, 0, TAG_FILENAME, k[0].value);
        kad::lemma_sole_tag(plan.keyword_tags@, 1, TAG_FILESIZE, k[1].value);
        kad::lemma_sole_tag(plan.keyword_tags@, 2, TAG_SOURCES, k[2].value);
        let s = kad::tag_views(plan.source_tags@);
        let n = s.len() as int;
        assert(n == plan.source_tags@.len());
        kad::lemma_sole_tag(plan.source_tags@, 1, kad::TAG_SOURCEPORT, s[1].value);
        kad::lemma_sole_tag(plan.source_tags@, n - 3, kad::TAG_SOURCEUPORT, s[n - 3].value);
        kad::lemma_sole_tag(plan.source_tags@, n - 2, TAG_FILESIZE, s[n - 2].value);
        ids::law_chunk_order_involution(plan.file_hash.0@);
        if let Some(tags) = plan.notes_tags {
            let t = kad::tag_views(tags@);
            assert(t.len() == tags@.len());
            kad::lemma_sole_tag(tags@, 0, TAG_FILENAME, t[0].value);
            kad::lemma_sole_tag(tags@, 1, TAG_FILESIZE, t[1].value);
        }
    }
}

/// A pass begins with all of its files before it and nothing counted, and only on a node that is
/// bootstrapped.
pub proof fn law_pass_begins(
    bootstrapped: bool,
    source: PublishSeedSource,
    hashes: Vec<PopularHash>,
    notes: bool,
    r: Result<SeedRun, SeedError>,
)
    requires
        call_ensures(SeedRun::begin, (bootstrapped, source, hashes, notes), r),
    ensures
        r is Ok <==> bootstrapped,
        r matches Ok(run) ==> run.items == hashes && run.done == 0 && run.seed_source == source
            && run.notes_publish_enabled == notes && run.keyword_totals.attempted_contacts == 0
            && run.source_totals.attempted_contacts == 0 && run.notes_totals.attempted_contacts == 0
            && run.keyword_totals.acked_contacts == 0,
        r matches Err(error) ==> error == SeedError::NotBootstrapped,
{
}

/// Each item is counted once, in each family by the outcome of that family; a publish that came to
/// nothing adds nothing, and notes add nothing where they are not published.
pub proof fn law_item_is_counted(
    run: &mut SeedRun,
    keyword: Option<PublishAttemptStats>,
    source: Option<PublishAttemptStats>,
    notes: Option<PublishAttemptStats>,
)
    requires
        call_ensures(SeedRun::complete_item, (run, keyword, source, notes), ()),
        old(run).wf(),
        old(run).done < old(run).items@.len(),
        attempt_fits(old(run).keyword_totals, keyword),
        attempt_fits(old(run).source_totals, source),
        attempt_fits(old(run).notes_totals, notes),
    ensures
        final(run).done == old(run).done + 1,
        final(run).items == old(run).items && final(run).seed_source == old(run).seed_source,
        keyword matches Some(s) ==> final(run).keyword_totals.acked_contacts
            == old(run).keyword_totals.acked_contacts + s.acked_contacts
            && final(run).keyword_totals.attempted_contacts == old(run).keyword_totals.attempted_contacts
            + s.attempted_contacts && final(run).keyword_totals.timed_out_contacts
            == old(run).keyword_totals.timed_out_contacts + s.timed_out_contacts
            && final(run).keyword_totals.closest_contacts_considered
            == old(run).keyword_totals.closest_contacts_considered + s.closest_contacts_considered,
        keyword is None ==> final(run).keyword_totals == old(run).keyword_totals,
        source matches Some(s) ==> final(run).source_totals.acked_contacts == old(run).source_totals.acked_contacts
            + s.acked_contacts && final(run).source_totals.attempted_contacts
            == old(run).source_totals.attempted_contacts + s.attempted_contacts,
        source is None ==> final(run).source_totals == old(run).source_totals,
        old(run).notes_publish_enabled && notes is Some ==> final(run).notes_totals.acked_contacts
            == old(run).notes_totals.acked_contacts + notes->0.acked_contacts,
        !old(run).notes_publish_enabled || notes is None ==> final(run).notes_totals == old(run).notes_totals,
{
    assert(old(run).done < old(run).items.len());
}

/// Progress is shown as what has been done so far, out of all; a finished pass is counted with all
/// its files.
pub proof fn law_pass_is_reported(
    run: &SeedRun,
    shown: &mut KadPublishObservability,
    counted: &mut KadPublishObservability,
    at: Timestamp,
)
    requires
        call_ensures(SeedRun::report_progress, (run, shown, at), ()),
        call_ensures(SeedRun::finish, (run, counted, at), ()),
        run.items@.len() <= u32::MAX && run.done <= run.items@.len(),
        publish::counters_fit(
            old(counted).keyword_counters,
            publish::batch_summary(run.seed_source, run.items@.len() as usize, run.keyword_totals, at),
        ),
        publish::counters_fit(
            old(counted).source_counters,
            publish::batch_summary(run.seed_source, run.items@.len() as usize, run.source_totals, at),
        ),
    ensures
        final(shown).keyword_counters == old(shown).keyword_counters,
        final(shown).latest_keyword_batch matches Some(batch) && batch.published_items == run.done
            && batch.acked_contacts == run.keyword_totals.acked_contacts,
        final(shown).latest_source_batch matches Some(batch) && batch.published_items == run.done
            && batch.acked_contacts == run.source_totals.acked_contacts,
        final(counted).keyword_counters.batches == old(counted).keyword_counters.batches + 1,
        final(counted).keyword_counters.published_items == old(counted).keyword_counters.published_items
            + run.items@.len(),
        final(counted).keyword_counters.acked_contacts == old(counted).keyword_counters.acked_contacts
            + run.keyword_totals.acked_contacts,
        final(counted).source_counters.acked_contacts == old(counted).source_counters.acked_contacts
            + run.source_totals.acked_contacts,
        !run.notes_publish_enabled ==> final(counted).notes_counters == old(counted).notes_counters,
{
}

/// The coordinator's files are seeded as they come, and there is nothing to seed where it has none.
pub proof fn law_coordinator_files(hashes: Vec<PopularHash>, r: Option<Vec<PopularHash>>)
    requires
        call_ensures(fetch_coordinator_popular_hashes, (hashes,), r),
    ensures
        hashes@.len() == 0 ==> r is None,
        hashes@.len() > 0 ==> (r matches Some(found) && found@ == hashes@),
{
}

/// A pass is shown as publishing, from none of its files on; its end is shown as degraded by its
/// error, or not at all.
pub proof fn law_pass_is_shown(
    begun: &mut AgentActivityTracker,
    source: PublishSeedSource,
    items: usize,
    at: Timestamp,
    key: String,
    ended: &mut AgentActivityTracker,
    ended_key: &str,
    error: Option<String>,
)
    requires
        call_ensures(begin_publish_activity, (begun, source, items, at), key),
        old(begun).wf(),
        items <= u32::MAX,
        call_ensures(finish_publish_activity, (ended, ended_key, source, error, at), ()),
        old(ended).wf(),
    ensures
        final(begun)@.contains_key(key@),
        ({
            let shown = final(begun)@[key@];
            &&& shown.state == AgentActivityState::Publishing && shown.since == at
            &&& shown.progress_current == Some(0u32) && (shown.progress_total matches Some(total) && total == items)
        }),
        !final(ended)@.contains_key(ended_key@),
        error is None ==> final(ended).degraded is None,
        error is Some ==> (final(ended).degraded matches Some(d) && d.last_error == error && d.state
            == AgentActivityState::Degraded),
{
}

/// The catalog lists the files that are given, or the synthetic ones where none are; refreshing it
/// keeps every file that is no hint, drops the old hints, and adds the new ones.
pub proof fn law_catalog(
    hashes: &Vec<PopularHash>,
    listed: Vec<PopularHash>,
    catalog: Vec<SharedEntry>,
    hints: Vec<SharedEntry>,
    r: Vec<SharedEntry>,
    entry: SharedEntry,
)
    requires
        call_ensures(catalog_replacements, (hashes,), listed),
        call_ensures(refresh_ed2k_shared_catalog, (catalog, hints), r),
    ensures
        hashes@.len() > 0 ==> listed@.len() == hashes@.len() && forall|i: int|
            0 <= i < hashes@.len() ==> (#[trigger] listed@[i])@ == hashes@[i]@,
        hashes@.len() == 0 ==> listed@.len() == 40,
        r@.contains(entry) <==> (catalog@.contains(entry) && !entry.compatibility_hint) || hints@.contains(entry),
{
    assert(publish::popular_views(listed@).len() == listed@.len());
    if hashes@.len() > 0 {
        assert forall|i: int| 0 <= i < hashes@.len() implies (#[trigger] listed@[i])@ == hashes@[i]@ by {
            assert(publish::popular_views(listed@)[i] == publish::popular_views(hashes@)[i]);
        }
    }
    let own = |e: SharedEntry| !e.compatibility_hint;
    let kept = catalog@.filter(own);
    lemma_kept(catalog@, entry);
    assert(r@ == kept + hints@);
    if kept.contains(entry) {
        let i = choose|i: int| 0 <= i < kept.len() && kept[i] == entry;
        assert(r@[i] == entry);
    }
    if hints@.contains(entry) {
        let i = choose|i: int| 0 <= i < hints@.len() && hints@[i] == entry;
        assert(r@[kept.len() + i] == entry);
    }
    if r@.contains(entry) {
        let i = choose|i: int| 0 <= i < r@.len() && r@[i] == entry;
        if i < kept.len() {
            assert(kept[i] == entry);
        } else {
            assert(hints@[i - kept.len()] == entry);
        }
    }
}

proof fn lemma_kept(catalog: Seq<SharedEntry>, entry: SharedEntry)
    ensures
        catalog.filter(|e: SharedEntry| !e.compatibility_hint).contains(entry) <==> catalog.contains(entry)
            && !entry.compatibility_hint,
    decreases catalog.len(),
{
    let own = |e: SharedEntry| !e.compatibility_hint;
    reveal(Seq::filter);
    if catalog.len() > 0 {
        let init = catalog.drop_last();
        lemma_kept(init, entry);
        let all = catalog.filter(own);
        let before = init.filter(own);
        assert(catalog.contains(entry) <==> init.contains(entry) || entry == catalog.last()) by {
            if catalog.contains(entry) {
                let i = choose|i: int| 0 <= i < catalog.len() && catalog[i] == entry;
                if i < init.len() {
                    assert(init[i] == entry);
                }
            }
            if init.contains(entry) {
                let i = choose|i: int| 0 <= i < init.len() && init[i] == entry;
                assert(catalog[i] == entry);
            }
            if entry == catalog.last() {
                assert(catalog[catalog.len() - 1] == entry);
            }
        }
        if own(catalog.last()) {
            assert(all == before.push(catalog.last()));
            if before.contains(entry) {
                let i = choose|i: int| 0 <= i < before.len() && before[i] == entry;
                assert(all[i] == entry);
            }
            if entry == catalog.last() {
                assert(all[all.len() - 1] == entry);
            }
            if all.contains(entry) && entry != catalog.last() {
                let i = choose|i: int| 0 <= i < all.len() && all[i] == entry;
                assert(before[i] == entry);
            }
        } else {
            assert(all == before);
        }
    }
}

/// Why a pass ends is said in words, with the hash that cannot be read.
pub proof fn law_seed_messages(error: &SeedError, r: String)
    requires
        call_ensures(SeedError::message, (error,), r),
    ensures
        *error is NotBootstrapped ==> r@ == "kad node is not bootstrapped yet"@,
        *error matches SeedError::InvalidHash { raw } ==> r@ == "invalid Ed2k hash "@ + raw@,
{
}

/// While a pass lasts it is shown how many of its files have been published, of how many; nothing else
/// that is shown changes.
pub proof fn law_progress_is_shown(run: &SeedRun, tracker: &mut AgentActivityTracker, key: &str, at: Timestamp, other: Seq<char>)
    requires
        old(tracker).wf(),
        run.done <= u32::MAX,
        run.items@.len() <= u32::MAX,
        call_ensures(SeedRun::report_activity, (run, tracker, key, at), ()),
    ensures
        final(tracker)@.contains_key(other) <==> old(tracker)@.contains_key(other),
        other != key@ ==> final(tracker)@[other] == old(tracker)@[other],
        old(tracker)@.contains_key(key@) ==> {
            let shown = final(tracker)@[key@];
            &&& shown.progress_current == Some(run.done as u32)
            &&& shown.progress_total == Some(run.items@.len() as u32)
            &&& shown.last_update_at == at
            &&& shown.state == old(tracker)@[key@].state
            &&& shown.since == old(tracker)@[key@].since
            &&& shown.query_or_target == old(tracker)@[key@].query_or_target
            &&& shown.last_error == old(tracker)@[key@].last_error
        },
        final(tracker).degraded == old(tracker).degraded,
{
}

} // verus!
