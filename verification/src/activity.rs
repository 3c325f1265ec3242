//! The operator-facing activity of the agent.

use vstd::prelude::*;
use vstd::string::*;
use crate::ids;
use crate::ids::{Timestamp, Uuid};
use crate::text;
use crate::text::{decimal_text, joined, quoted_text, same_text, signed_decimal_text};
use crate::types;
use crate::types::{
    clone_text, AgentActivitySnapshot, AgentActivityState, HarvestFamily, HashType,
    PublishSeedSource, SearchJob, SearchKind,
};

verus! {

broadcast use vstd::string::group_string_axioms;

pub const ACTIVITY_KEY_STARTING: &'static str = "starting";

pub const ACTIVITY_KEY_BOOTSTRAPPING: &'static str = "bootstrapping";

pub const ACTIVITY_KEY_FLUSHING_SNOOPS: &'static str = "flushing_snoops";

pub const ACTIVITY_KEY_RECONFIGURING: &'static str = "reconfiguring";

/// One activity under way.
pub struct ActivityEntry {
    pub key: String,
    pub snapshot: AgentActivitySnapshot,
}

/// Whether no two entries have one key.
pub open spec fn keys_unique(entries: Seq<ActivityEntry>) -> bool {
    forall|i: int, j: int|
        0 <= i < j < entries.len() ==> #[trigger] entries[i].key@ != #[trigger] entries[j].key@
}

/// Whether entry `i` is that of `key`.
pub open spec fn entry_at(entries: Seq<ActivityEntry>, key: Seq<char>, i: int) -> bool {
    0 <= i < entries.len() && entries[i].key@ == key
}

/// The activities by key.
pub open spec fn activity_map(entries: Seq<ActivityEntry>) -> Map<Seq<char>, AgentActivitySnapshot> {
    Map::new(
        |key: Seq<char>| exists|i: int| entry_at(entries, key, i),
        |key: Seq<char>| entries[choose|i: int| entry_at(entries, key, i)].snapshot,
    )
}

proof fn lemma_activity_at(entries: Seq<ActivityEntry>, i: int)
    requires
        keys_unique(entries),
        0 <= i < entries.len(),
    ensures
        activity_map(entries).contains_key(entries[i].key@),
        activity_map(entries)[entries[i].key@] == entries[i].snapshot,
{
    let key = entries[i].key@;
    assert(entry_at(entries, key, i));
    let j = choose|j: int| entry_at(entries, key, j);
    assert(entry_at(entries, key, j));
    assert(i == j);
}

proof fn lemma_activity_key(entries: Seq<ActivityEntry>, key: Seq<char>) -> (i: int)
    requires
        keys_unique(entries),
        activity_map(entries).contains_key(key),
    ensures
        entry_at(entries, key, i),
        activity_map(entries)[key] == entries[i].snapshot,
{
    let i = choose|i: int| entry_at(entries, key, i);
    lemma_activity_at(entries, i);
    i
}

/// Small in-memory tracker that resolves overlapping runtime work into one operator-facing
/// activity snapshot using a fixed precedence order.
pub struct AgentActivityTracker {
    pub active: Vec<ActivityEntry>,
    pub degraded: Option<AgentActivitySnapshot>,
    pub idle_since: Timestamp,
}

impl View for AgentActivityTracker {
    type V = Map<Seq<char>, AgentActivitySnapshot>;

    open spec fn view(&self) -> Map<Seq<char>, AgentActivitySnapshot> {
        activity_map(self.active@)
    }
}

/// The rank of a state when several activities are under way: the higher is shown.
pub open spec fn precedence(state: AgentActivityState) -> u8 {
    match state {
        AgentActivityState::Degraded => 9,
        AgentActivityState::Reconfiguring => 8,
        AgentActivityState::Downloading => 7,
        AgentActivityState::ActiveSearch => 6,
        AgentActivityState::PassiveHarvestReplay => 5,
        AgentActivityState::Publishing => 4,
        AgentActivityState::FlushingSnoops => 3,
        AgentActivityState::Bootstrapping => 2,
        AgentActivityState::Starting => 1,
        AgentActivityState::Idle => 0,
    }
}

/// Whether `a` is shown rather than `b`: the higher precedence, and of equal ones the later
/// update.
pub open spec fn outranks(a: AgentActivitySnapshot, b: AgentActivitySnapshot) -> bool {
    precedence(a.state) > precedence(b.state) || (precedence(a.state) == precedence(b.state)
        && a.last_update_at.after(b.last_update_at))
}

pub fn activity_precedence(state: AgentActivityState) -> (r: u8)
    ensures
        r == precedence(state),
{
    match state {
        AgentActivityState::Degraded => 9,
        AgentActivityState::Reconfiguring => 8,
        AgentActivityState::Downloading => 7,
        AgentActivityState::ActiveSearch => 6,
        AgentActivityState::PassiveHarvestReplay => 5,
        AgentActivityState::Publishing => 4,
        AgentActivityState::FlushingSnoops => 3,
        AgentActivityState::Bootstrapping => 2,
        AgentActivityState::Starting => 1,
        AgentActivityState::Idle => 0,
    }
}

/// A snapshot that says only since when a state holds.
pub open spec fn bare_snapshot(state: AgentActivityState, at: Timestamp) -> AgentActivitySnapshot {
    AgentActivitySnapshot {
        state,
        since: at,
        job_id: None,
        protocol: None,
        kind: None,
        query_or_target: None,
        progress_current: None,
        progress_total: None,
        last_update_at: at,
        last_error: None,
    }
}

pub fn new_activity_snapshot(state: AgentActivityState, observed_at: Timestamp) -> (r: AgentActivitySnapshot)
    ensures
        r == bare_snapshot(state, observed_at),
{
    AgentActivitySnapshot {
        state,
        since: observed_at,
        job_id: None,
        protocol: None,
        kind: None,
        query_or_target: None,
        progress_current: None,
        progress_total: None,
        last_update_at: observed_at,
        last_error: None,
    }
}

/// A degraded snapshot that names what failed and why.
pub fn degraded_snapshot(what: &str, error: String, observed_at: Timestamp) -> (r: AgentActivitySnapshot)
    ensures
        types::opt_text(r.query_or_target) == Some(what@),
        r == (AgentActivitySnapshot {
            query_or_target: r.query_or_target,
            last_error: Some(error),
            ..bare_snapshot(AgentActivityState::Degraded, observed_at)
        }),
{
    let mut snapshot: AgentActivitySnapshot = new_activity_snapshot(
        AgentActivityState::Degraded,
        observed_at,
    );
    snapshot.query_or_target = Some(what.to_owned());
    snapshot.last_error = Some(error);
    snapshot
}

/// Since when the agent counts as idle, once the activity `key` has ended at `at`: since then,
/// where it was under way and was the last.
pub open spec fn idle_after(before: AgentActivityTracker, after: AgentActivityTracker, key: Seq<char>, at: Timestamp) -> Timestamp {
    if before@.contains_key(key) && after.active@.len() == 0 {
        at
    } else {
        before.idle_since
    }
}

impl AgentActivityTracker {
    /// Activities have distinct keys.
    pub open spec fn wf(self) -> bool {
        keys_unique(self.active@)
    }

    /// A tracker of an agent that is starting.
    pub fn new(now: Timestamp) -> (r: AgentActivityTracker)
        ensures
            r.wf(),
            r@ == Map::<Seq<char>, AgentActivitySnapshot>::empty().insert(
                ACTIVITY_KEY_STARTING@,
                bare_snapshot(AgentActivityState::Starting, now),
            ),
            r.degraded is None,
            r.idle_since == now,
    {
        let mut tracker: AgentActivityTracker = AgentActivityTracker {
            active: Vec::new(),
            degraded: None,
            idle_since: now,
        };
        assert(tracker@ =~= Map::<Seq<char>, AgentActivitySnapshot>::empty());
        tracker.enter(
            ACTIVITY_KEY_STARTING.to_owned(),
            new_activity_snapshot(AgentActivityState::Starting, now),
        );
        tracker
    }

    fn find(&self, key: &str) -> (r: Option<usize>)
        requires
            self.wf(),
        ensures
            r is Some <==> self@.contains_key(key@),
            r matches Some(i) ==> entry_at(self.active@, key@, i as int) && self@[key@]
                == self.active@[i as int].snapshot,
    {
        let mut i: usize = 0;
        while i < self.active.len()
            invariant
                self.wf(),
                i <= self.active.len(),
                forall|j: int| 0 <= j < i ==> self.active@[j].key@ != key@,
            decreases self.active.len() - i,
        {
            if same_text(self.active[i].key.as_str(), key) {
                proof {
                    lemma_activity_at(self.active@, i as int);
                }
                return Some(i);
            }
            i = i + 1;
        }
        None
    }

    /// Begins an activity, in place of one of the same key.
    pub fn enter(&mut self, key: String, snapshot: AgentActivitySnapshot)
        requires
            old(self).wf(),
        ensures
            final(self).wf(),
            final(self)@ == old(self)@.insert(key@, snapshot),
            final(self).degraded == old(self).degraded,
            final(self).idle_since == old(self).idle_since,
    {
        let ghost before = self.active@;
        match self.find(key.as_str()) {
            Some(i) => {
                self.active[i].snapshot = snapshot;
                proof {
                    lemma_activity_updated(before, self.active@, i as int);
                }
            },
            None => {
                self.active.push(ActivityEntry { key, snapshot });
                proof {
                    lemma_activity_pushed(before, self.active@.last());
                    assert(self.active@ =~= before.push(self.active@.last()));
                }
            },
        }
    }

    /// Ends an activity. When the last one ends, the agent has been idle since then.
    pub fn leave(&mut self, key: &str, observed_at: Timestamp)
        requires
            old(self).wf(),
        ensures
            final(self).wf(),
            final(self)@ == old(self)@.remove(key@),
            final(self).degraded == old(self).degraded,
            final(self).idle_since == idle_after(*old(self), *final(self), key@, observed_at),
    {
        let ghost before = self.active@;
        match self.find(key) {
            Some(i) => {
                let _removed: ActivityEntry = self.active.remove(i);
                proof {
                    lemma_activity_removed(before, i as int);
                }
                if self.active.len() == 0 {
                    self.idle_since = observed_at;
                }
            },
            None => {
                assert(self@.remove(key@) =~= self@);
            },
        }
    }

    pub fn update_progress(
        &mut self,
        key: &str,
        progress_current: Option<u32>,
        progress_total: Option<u32>,
        observed_at: Timestamp,
    )
        requires
            old(self).wf(),
        ensures
            final(self).wf(),
            final(self)@ == if old(self)@.contains_key(key@) {
                old(self)@.insert(
                    key@,
                    AgentActivitySnapshot {
                        progress_current,
                        progress_total,
                        last_update_at: observed_at,
                        ..old(self)@[key@]
                    },
                )
            } else {
                old(self)@
            },
            final(self).degraded == old(self).degraded,
            final(self).idle_since == old(self).idle_since,
    {
        let ghost before = self.active@;
        match self.find(key) {
            Some(i) => {
                let entry: &mut ActivityEntry = &mut self.active[i];
                entry.snapshot.progress_current = progress_current;
                entry.snapshot.progress_total = progress_total;
                entry.snapshot.last_update_at = observed_at;
                proof {
                    lemma_activity_updated(before, self.active@, i as int);
                }
            },
            None => {},
        }
    }

    pub fn update_error(&mut self, key: &str, error: String, observed_at: Timestamp)
        requires
            old(self).wf(),
        ensures
            final(self).wf(),
            final(self)@ == if old(self)@.contains_key(key@) {
                old(self)@.insert(
                    key@,
                    AgentActivitySnapshot {
                        last_error: Some(error),
                        last_update_at: observed_at,
                        ..old(self)@[key@]
                    },
                )
            } else {
                old(self)@
            },
            final(self).degraded == old(self).degraded,
            final(self).idle_since == old(self).idle_since,
    {
        let ghost before = self.active@;
        match self.find(key) {
            Some(i) => {
                let entry: &mut ActivityEntry = &mut self.active[i];
                entry.snapshot.last_error = Some(error);
                entry.snapshot.last_update_at = observed_at;
                proof {
                    lemma_activity_updated(before, self.active@, i as int);
                }
            },
            None => {},
        }
    }

    pub fn clear_degraded(&mut self)
        ensures
            *final(self) == (AgentActivityTracker { degraded: None, ..*old(self) }),
    {
        self.degraded = None;
    }

    /// Notes what degrades the agent while nothing else is under way.
    pub fn record_degraded(&mut self, snapshot: AgentActivitySnapshot)
        ensures
            *final(self) == (AgentActivityTracker {
                degraded: Some(
                    AgentActivitySnapshot { state: AgentActivityState::Degraded, ..snapshot },
                ),
                ..*old(self)
            }),
    {
        let mut degraded: AgentActivitySnapshot = snapshot;
        degraded.state = AgentActivityState::Degraded;
        self.degraded = Some(degraded);
    }

    /// Whether `shown` is one of the activities under way, and none of them outranks it. Which
    /// of several equally ranked ones it is, is left open.
    pub open spec fn top_activity(self, shown: AgentActivitySnapshot) -> bool {
        &&& exists|key: Seq<char>| #[trigger] self@.contains_key(key) && self@[key] == shown
        &&& forall|key: Seq<char>| #[trigger] self@.contains_key(key) ==> !outranks(self@[key], shown)
    }

    /// The activity to show: the one that ranks highest among those under way, and, where none
    /// is, what degrades the agent, then an error from outside, and else that it is idle.
    pub fn current_snapshot(&self, external_error: Option<String>, observed_at: Timestamp) -> (r: AgentActivitySnapshot)
        requires
            self.wf(),
        ensures
            self.active@.len() > 0 ==> self.top_activity(r),
            self.active@.len() == 0 ==> match self.degraded {
                Some(degraded) => r == degraded,
                None => match external_error {
                    Some(_) => r == (AgentActivitySnapshot {
                        last_update_at: observed_at,
                        last_error: external_error,
                        ..bare_snapshot(AgentActivityState::Degraded, self.idle_since)
                    }),
                    None => r == (AgentActivitySnapshot {
                        last_update_at: observed_at,
                        ..bare_snapshot(AgentActivityState::Idle, self.idle_since)
                    }),
                },
            },
    {
        if self.active.len() > 0 {
            let mut best: usize = 0;
            let mut i: usize = 1;
            while i < self.active.len()
                invariant
                    1 <= i <= self.active.len(),
                    best < i,
                    forall|j: int|
                        0 <= j < i ==> !outranks(
                            (#[trigger] self.active@[j]).snapshot,
                            self.active@[best as int].snapshot,
                        ),
                decreases self.active.len() - i,
            {
                let challenger: &AgentActivitySnapshot = &self.active[i].snapshot;
                let champion: &AgentActivitySnapshot = &self.active[best].snapshot;
                let a: u8 = activity_precedence(challenger.state);
                let b: u8 = activity_precedence(champion.state);
                if a > b || (a == b && !champion.last_update_at.is_after(challenger.last_update_at)) {
                    best = i;
                }
                i = i + 1;
            }
            let r: AgentActivitySnapshot = self.active[best].snapshot.clone();
            proof {
                lemma_activity_at(self.active@, best as int);
                assert forall|key: Seq<char>| #[trigger] self@.contains_key(key) implies !outranks(
                    self@[key],
                    r,
                ) by {
                    let j = lemma_activity_key(self.active@, key);
                    assert(self.active@[j].snapshot == self@[key]);
                }
            }
            return r;
        }
        match &self.degraded {
            Some(snapshot) => snapshot.clone(),
            None => match external_error {
                Some(error) => {
                    let mut snapshot: AgentActivitySnapshot = new_activity_snapshot(
                        AgentActivityState::Degraded,
                        self.idle_since,
                    );
                    snapshot.last_update_at = observed_at;
                    snapshot.last_error = Some(error);
                    snapshot
                },
                None => {
                    let mut snapshot: AgentActivitySnapshot = new_activity_snapshot(
                        AgentActivityState::Idle,
                        self.idle_since,
                    );
                    snapshot.last_update_at = observed_at;
                    snapshot
                },
            },
        }
    }
}

proof fn lemma_activity_updated(before: Seq<ActivityEntry>, after: Seq<ActivityEntry>, i: int)
    requires
        keys_unique(before),
        0 <= i < before.len(),
        after.len() == before.len(),
        after[i].key == before[i].key,
        forall|j: int| 0 <= j < before.len() && j != i ==> after[j] == before[j],
    ensures
        keys_unique(after),
        activity_map(after) == activity_map(before).insert(before[i].key@, after[i].snapshot),
{
    assert forall|j: int| 0 <= j < before.len() implies #[trigger] after[j].key == before[j].key by {}
    assert(keys_unique(after)) by {
        assert forall|j: int, k: int| 0 <= j < k < after.len() implies #[trigger] after[j].key@
            != #[trigger] after[k].key@ by {
            assert(before[j].key@ != before[k].key@);
        }
    }
    let m = activity_map(before).insert(before[i].key@, after[i].snapshot);
    assert forall|key: Seq<char>| #[trigger] activity_map(after).contains_key(key) <==> m.contains_key(key) by {
        if activity_map(after).contains_key(key) {
            let j = lemma_activity_key(after, key);
            assert(before[j].key@ == key);
            lemma_activity_at(before, j);
        }
        if m.contains_key(key) {
            if key == before[i].key@ {
                assert(after[i].key@ == key);
                lemma_activity_at(after, i);
            } else {
                let j = lemma_activity_key(before, key);
                assert(after[j].key@ == key);
                lemma_activity_at(after, j);
            }
        }
    }
    assert forall|key: Seq<char>| activity_map(after).contains_key(key) implies #[trigger] activity_map(after)[key] == m[key] by {
        let j = lemma_activity_key(after, key);
        if j != i {
            assert(before[j].key@ != before[i].key@) by {
                if j < i {
                    assert(before[j].key@ != before[i].key@);
                } else {
                    assert(before[i].key@ != before[j].key@);
                }
            }
            lemma_activity_at(before, j);
        }
    }
    assert(activity_map(after) =~= m);
}

proof fn lemma_activity_pushed(before: Seq<ActivityEntry>, entry: ActivityEntry)
    requires
        keys_unique(before),
        !activity_map(before).contains_key(entry.key@),
    ensures
        keys_unique(before.push(entry)),
        activity_map(before.push(entry)) == activity_map(before).insert(entry.key@, entry.snapshot),
{
    let after = before.push(entry);
    assert(keys_unique(after)) by {
        assert forall|j: int, k: int| 0 <= j < k < after.len() implies #[trigger] after[j].key@
            != #[trigger] after[k].key@ by {
            if k == before.len() {
                lemma_activity_at(before, j);
            } else {
                assert(before[j].key@ != before[k].key@);
            }
        }
    }
    let m = activity_map(before).insert(entry.key@, entry.snapshot);
    assert forall|key: Seq<char>| #[trigger] activity_map(after).contains_key(key) <==> m.contains_key(key) by {
        if activity_map(after).contains_key(key) {
            let j = lemma_activity_key(after, key);
            if j < before.len() {
                lemma_activity_at(before, j);
            }
        }
        if m.contains_key(key) {
            if key == entry.key@ {
                lemma_activity_at(after, before.len() as int);
            } else {
                let j = lemma_activity_key(before, key);
                assert(after[j] == before[j]);
                lemma_activity_at(after, j);
            }
        }
    }
    assert forall|key: Seq<char>| activity_map(after).contains_key(key) implies #[trigger] activity_map(after)[key] == m[key] by {
        let j = lemma_activity_key(after, key);
        if j < before.len() {
            lemma_activity_at(before, j);
        }
    }
    assert(activity_map(after) =~= m);
}

proof fn lemma_activity_removed(before: Seq<ActivityEntry>, i: int)
    requires
        keys_unique(before),
        0 <= i < before.len(),
    ensures
        keys_unique(before.remove(i)),
        activity_map(before.remove(i)) == activity_map(before).remove(before[i].key@),
{
    let after = before.remove(i);
    assert(keys_unique(after)) by {
        assert forall|j: int, k: int| 0 <= j < k < after.len() implies #[trigger] after[j].key@
            != #[trigger] after[k].key@ by {
            let x = if j < i {
                j
            } else {
                j + 1
            };
            let y = if k < i {
                k
            } else {
                k + 1
            };
            assert(before[x].key@ != before[y].key@);
        }
    }
    let m = activity_map(before).remove(before[i].key@);
    assert forall|key: Seq<char>| #[trigger] activity_map(after).contains_key(key) <==> m.contains_key(key) by {
        if activity_map(after).contains_key(key) {
            let j = lemma_activity_key(after, key);
            let x = if j < i {
                j
            } else {
                j + 1
            };
            assert(before[x] == after[j]);
            lemma_activity_at(before, x);
            if x < i {
                assert(before[x].key@ != before[i].key@);
            } else {
                assert(before[i].key@ != before[x].key@);
            }
        }
        if m.contains_key(key) {
            let j = lemma_activity_key(before, key);
            let x = if j < i {
                j
            } else {
                j - 1
            };
            assert(after[x] == before[j]);
            lemma_activity_at(after, x);
        }
    }
    assert forall|key: Seq<char>| activity_map(after).contains_key(key) implies #[trigger] activity_map(after)[key] == m[key] by {
        let j = lemma_activity_key(after, key);
        let x = if j < i {
            j
        } else {
            j + 1
        };
        assert(before[x] == after[j]);
        lemma_activity_at(before, x);
    }
    assert(activity_map(after) =~= m);
}

/// Ends an activity. A failure degrades the agent, and is shown with the snapshot that the activity
/// was begun with; a success clears what degraded it.
pub fn finish_activity_with(
    tracker: &mut AgentActivityTracker,
    key: &str,
    snapshot: AgentActivitySnapshot,
    error: Option<String>,
    now: Timestamp,
)
    requires
        old(tracker).wf(),
    ensures
        final(tracker).wf(),
        final(tracker)@ == old(tracker)@.remove(key@),
        final(tracker).idle_since == idle_after(*old(tracker), *final(tracker), key@, now),
        final(tracker).degraded == match error {
            Some(_) => Some(
                AgentActivitySnapshot {
                    state: AgentActivityState::Degraded,
                    last_error: error,
                    last_update_at: now,
                    ..snapshot
                },
            ),
            None => None,
        },
{
    tracker.leave(key, now);
    match error {
        Some(_) => {
            let mut degraded: AgentActivitySnapshot = snapshot;
            degraded.last_error = error;
            degraded.last_update_at = now;
            tracker.record_degraded(degraded);
        },
        None => {
            tracker.clear_degraded();
        },
    }
}

/// Whether `snapshot` says what failed, and why.
pub open spec fn says_failed(snapshot: AgentActivitySnapshot, what: Seq<char>, error: String, now: Timestamp) -> bool {
    &&& types::opt_text(snapshot.query_or_target) == Some(what)
    &&& snapshot == (AgentActivitySnapshot {
        query_or_target: snapshot.query_or_target,
        last_error: Some(error),
        ..bare_snapshot(AgentActivityState::Degraded, now)
    })
}

pub fn active_search_key(job_id: Uuid) -> (r: String)
    ensures
        r@ == "active_search:"@ + ids::uuid_text(job_id),
{
    let id: String = job_id.to_text();
    joined("active_search:", id.as_str())
}

pub fn active_ed2k_download_key(file_hash: &str) -> (r: String)
    ensures
        r@ == "ed2k_download:"@ + file_hash@,
{
    joined("ed2k_download:", file_hash)
}

pub fn passive_replay_key(replay_id: Uuid) -> (r: String)
    ensures
        r@ == "passive_replay:"@ + ids::uuid_text(replay_id),
{
    let id: String = replay_id.to_text();
    joined("passive_replay:", id.as_str())
}

pub fn publish_activity_key(seed_source: PublishSeedSource, observed_at: Timestamp) -> (r: String)
    ensures
        r@ == "publishing:"@ + seed_source.label_text() + ":"@ + text::signed_decimal(
            observed_at.millis(),
        ),
{
    let mut r: String = joined("publishing:", seed_source.label());
    r.append(":");
    let millis: String = signed_decimal_text(observed_at.timestamp_millis());
    r.append(millis.as_str());
    r
}

/// What a search is about: the query of a keyword search, and of the others the file's hash in
/// its debug form, or else its size.
pub open spec fn search_context(job: SearchJob) -> Option<Seq<char>> {
    match job.kind {
        SearchKind::Keyword => types::opt_text(job.query),
        _ => match job.file_hash {
            Some(hash) => Some("Ed2k("@ + text::quoted(hash@) + ")"@),
            None => match job.file_size {
                Some(size) => Some("size="@ + text::decimal(size as nat)),
                None => None,
            },
        },
    }
}

pub fn search_activity_context(job: &SearchJob) -> (r: Option<String>)
    ensures
        types::opt_text(r) == search_context(*job),
{
    let by_query: bool = match job.kind {
        SearchKind::Keyword => true,
        SearchKind::Source => false,
        SearchKind::Notes => false,
    };
    if by_query {
        return clone_text(&job.query);
    }
    match &job.file_hash {
        Some(HashType::Ed2k(hash)) => {
            let quoted: String = quoted_text(hash.as_str());
            let mut r: String = joined("Ed2k(", quoted.as_str());
            r.append(")");
            Some(r)
        },
        None => match job.file_size {
            Some(size) => {
                let digits: String = decimal_text(size as u128);
                Some(joined("size=", digits.as_str()))
            },
            None => None,
        },
    }
}

/// The name of a family.
pub open spec fn family_name(family: HarvestFamily) -> Seq<char> {
    match family {
        HarvestFamily::Keyword => "Keyword"@,
        HarvestFamily::Source => "Source"@,
        HarvestFamily::Notes => "Notes"@,
    }
}

pub fn passive_replay_activity_context(family: HarvestFamily, target: &str) -> (r: String)
    ensures
        r@ == family_name(family) + " "@ + target@,
{
    let name: &str = match family {
        HarvestFamily::Keyword => "Keyword",
        HarvestFamily::Source => "Source",
        HarvestFamily::Notes => "Notes",
    };
    let mut r: String = joined(name, " ");
    r.append(target);
    r
}

/// The error from outside that an idle agent shows: that of the control interface, then that of
/// the peer-to-peer interface, then that of the NAT.
pub fn runtime_activity_error(
    control_error: &Option<String>,
    p2p_error: &Option<String>,
    nat_error: &Option<String>,
) -> (r: Option<String>)
    ensures
        r == if control_error is Some {
            *control_error
        } else if p2p_error is Some {
            *p2p_error
        } else {
            *nat_error
        },
{
    match control_error {
        Some(_) => clone_text(control_error),
        None => match p2p_error {
            Some(_) => clone_text(p2p_error),
            None => clone_text(nat_error),
        },
    }
}

/// An activity that is begun under a fresh key and ended again leaves no trace among the
/// activities.
pub proof fn law_enter_then_leave(
    before: Map<Seq<char>, AgentActivitySnapshot>,
    key: Seq<char>,
    snapshot: AgentActivitySnapshot,
)
    requires
        !before.contains_key(key),
    ensures
        before.insert(key, snapshot).remove(key) == before,
{
    assert(before.insert(key, snapshot).remove(key) =~= before);
}

/// States rank strictly: no two of them have one precedence, so that of two activities of
/// different states one always outranks the other.
pub proof fn law_states_rank_strictly(a: AgentActivitySnapshot, b: AgentActivitySnapshot)
    requires
        a.state != b.state,
    ensures
        outranks(a, b) || outranks(b, a),
        !(outranks(a, b) && outranks(b, a)),
{
}

/// The activity shown is unique up to state and time of the last update.
pub proof fn law_shown_activity_unique(
    tracker: AgentActivityTracker,
    a: AgentActivitySnapshot,
    b: AgentActivitySnapshot,
)
    requires
        tracker.wf(),
        tracker.top_activity(a),
        tracker.top_activity(b),
    ensures
        a.state == b.state,
        a.last_update_at == b.last_update_at,
{
    let i = choose|key: Seq<char>| #[trigger] tracker@.contains_key(key) && tracker@[key] == a;
    let j = choose|key: Seq<char>| #[trigger] tracker@.contains_key(key) && tracker@[key] == b;
    assert(!outranks(tracker@[i], b));
    assert(!outranks(tracker@[j], a));
}

/// The order in which activities are shown: what degrades the agent, a change of configuration, a
/// download, a search, a replay, a publish, a flush, the bootstrap, the start, and that it is idle.
pub proof fn law_precedence_order(
    ranks: (u8, u8, u8, u8, u8, u8, u8, u8, u8, u8),
)
    requires
        call_ensures(activity_precedence, (AgentActivityState::Degraded,), ranks.0),
        call_ensures(activity_precedence, (AgentActivityState::Reconfiguring,), ranks.1),
        call_ensures(activity_precedence, (AgentActivityState::Downloading,), ranks.2),
        call_ensures(activity_precedence, (AgentActivityState::ActiveSearch,), ranks.3),
        call_ensures(activity_precedence, (AgentActivityState::PassiveHarvestReplay,), ranks.4),
        call_ensures(activity_precedence, (AgentActivityState::Publishing,), ranks.5),
        call_ensures(activity_precedence, (AgentActivityState::FlushingSnoops,), ranks.6),
        call_ensures(activity_precedence, (AgentActivityState::Bootstrapping,), ranks.7),
        call_ensures(activity_precedence, (AgentActivityState::Starting,), ranks.8),
        call_ensures(activity_precedence, (AgentActivityState::Idle,), ranks.9),
    ensures
        ranks.0 > ranks.1 && ranks.1 > ranks.2 && ranks.2 > ranks.3 && ranks.3 > ranks.4 && ranks.4 > ranks.5,
        ranks.5 > ranks.6 && ranks.6 > ranks.7 && ranks.7 > ranks.8 && ranks.8 > ranks.9,
{
}

/// What is shown while anything is under way is one of the activities, and none of them ranks
/// higher, nor as high with a later update.
pub proof fn law_highest_activity_is_shown(
    tracker: &AgentActivityTracker,
    external: Option<String>,
    now: Timestamp,
    r: AgentActivitySnapshot,
    i: int,
    rank: u8,
    shown: u8,
)
    requires
        call_ensures(AgentActivityTracker::current_snapshot, (tracker, external, now), r),
        tracker.wf(),
        0 <= i < tracker.active@.len(),
        call_ensures(activity_precedence, (tracker.active@[i].snapshot.state,), rank),
        call_ensures(activity_precedence, (r.state,), shown),
    ensures
        exists|j: int| 0 <= j < tracker.active@.len() && (#[trigger] tracker.active@[j]).snapshot == r,
        rank <= shown,
        rank == shown ==> !(tracker.active@[i].snapshot.last_update_at.secs > r.last_update_at.secs),
{
    assert(tracker.top_activity(r));
    let key = choose|key: Seq<char>| #[trigger] tracker@.contains_key(key) && tracker@[key] == r;
    let j = lemma_activity_key(tracker.active@, key);
    assert(tracker.active@[j].snapshot == r);
    lemma_activity_at(tracker.active@, i);
    assert(tracker@.contains_key(tracker.active@[i].key@));
}

/// With nothing under way the agent shows what degrades it; without that it shows an error from
/// outside, as degraded since it became idle; and else that it has been idle since then.
pub proof fn law_idle_agent_is_shown(
    tracker: &AgentActivityTracker,
    external: Option<String>,
    now: Timestamp,
    r: AgentActivitySnapshot,
)
    requires
        call_ensures(AgentActivityTracker::current_snapshot, (tracker, external, now), r),
        tracker.wf(),
        tracker.active@.len() == 0,
    ensures
        tracker.degraded matches Some(degraded) ==> r == degraded,
        tracker.degraded is None ==> r.since == tracker.idle_since && r.last_update_at == now && r.last_error
            == external && r.job_id is None && r.query_or_target is None,
        tracker.degraded is None && external is Some ==> r.state == AgentActivityState::Degraded,
        tracker.degraded is None && external is None ==> r.state == AgentActivityState::Idle,
{
}

/// A new snapshot says what state holds since when; a degraded one what failed and why as well.
pub proof fn law_snapshots(
    state: AgentActivityState,
    at: Timestamp,
    r: AgentActivitySnapshot,
    what: &str,
    error: String,
    d: AgentActivitySnapshot,
)
    requires
        call_ensures(new_activity_snapshot, (state, at), r),
        call_ensures(degraded_snapshot, (what, error, at), d),
    ensures
        r.state == state && r.since == at && r.last_update_at == at && r.last_error is None && r.job_id is None
            && r.query_or_target is None && r.progress_current is None && r.progress_total is None
            && r.protocol is None && r.kind is None,
        d.state == AgentActivityState::Degraded && d.since == at && d.last_update_at == at && d.last_error
            == Some(error),
        d.query_or_target matches Some(shown) && shown@ == what@,
{
}

/// An activity that has been entered is under way as it was entered; the others stay. Once it is
/// left it is not under way, and the others stay.
pub proof fn law_enter_and_leave(
    entered: &mut AgentActivityTracker,
    key: String,
    snapshot: AgentActivitySnapshot,
    left: &mut AgentActivityTracker,
    key_text: &str,
    at: Timestamp,
    other: Seq<char>,
)
    requires
        call_ensures(AgentActivityTracker::enter, (entered, key, snapshot), ()),
        old(entered).wf(),
        call_ensures(AgentActivityTracker::leave, (left, key_text, at), ()),
        old(left).wf(),
        other != key@ && other != key_text@,
    ensures
        final(entered)@.contains_key(key@) && final(entered)@[key@] == snapshot,
        final(entered)@.contains_key(other) == old(entered)@.contains_key(other),
        old(entered)@.contains_key(other) ==> final(entered)@[other] == old(entered)@[other],
        !final(left)@.contains_key(key_text@),
        final(left)@.contains_key(other) == old(left)@.contains_key(other),
        old(left)@.contains_key(other) ==> final(left)@[other] == old(left)@[other],
        old(left)@.contains_key(key_text@) && final(left).active@.len() == 0 ==> final(left).idle_since == at,
        !old(left)@.contains_key(key_text@) || final(left).active@.len() > 0 ==> final(left).idle_since
            == old(left).idle_since,
        final(entered).degraded == old(entered).degraded && final(left).degraded == old(left).degraded,
{
}

/// An update of an activity under way changes what it says, when it says it, and nothing else of
/// it; no other activity changes.
pub proof fn law_updates(
    p: &mut AgentActivityTracker,
    key: &str,
    current: Option<u32>,
    total: Option<u32>,
    at: Timestamp,
    e: &mut AgentActivityTracker,
    error: String,
)
    requires
        call_ensures(AgentActivityTracker::update_progress, (p, key, current, total, at), ()),
        old(p).wf(),
        call_ensures(AgentActivityTracker::update_error, (e, key, error, at), ()),
        old(e).wf(),
    ensures
        old(p)@.contains_key(key@) ==> {
            let (was, is) = (old(p)@[key@], final(p)@[key@]);
            &&& is.progress_current == current && is.progress_total == total && is.last_update_at == at
            &&& is.state == was.state && is.since == was.since && is.last_error == was.last_error
        },
        old(e)@.contains_key(key@) ==> {
            let (was, is) = (old(e)@[key@], final(e)@[key@]);
            &&& is.last_error == Some(error) && is.last_update_at == at
            &&& is.state == was.state && is.since == was.since && is.progress_current == was.progress_current
        },
        final(p)@.dom() == old(p)@.dom() && final(e)@.dom() == old(e)@.dom(),
        forall|other: Seq<char>| other != key@ && old(p)@.contains_key(other) ==> #[trigger] final(p)@[other]
            == old(p)@[other],
        forall|other: Seq<char>| other != key@ && old(e)@.contains_key(other) ==> #[trigger] final(e)@[other]
            == old(e)@[other],
{
    assert(final(p)@.dom() =~= old(p)@.dom());
    assert(final(e)@.dom() =~= old(e)@.dom());
}

/// What degrades the agent is recorded as such, and is gone once it is cleared.
pub proof fn law_degraded(
    recorded: &mut AgentActivityTracker,
    snapshot: AgentActivitySnapshot,
    cleared: &mut AgentActivityTracker,
)
    requires
        call_ensures(AgentActivityTracker::record_degraded, (recorded, snapshot), ()),
        call_ensures(AgentActivityTracker::clear_degraded, (cleared,), ()),
    ensures
        final(recorded).degraded matches Some(d) && d.state == AgentActivityState::Degraded && d.last_error
            == snapshot.last_error && d.query_or_target == snapshot.query_or_target && d.since == snapshot.since,
        final(cleared).degraded is None,
        final(recorded).active == old(recorded).active && final(cleared).active == old(cleared).active,
{
}

/// An activity that ends is no longer under way. Where it failed the agent is degraded for that
/// reason, and where it succeeded nothing degrades it any more.
pub proof fn law_finished_activity(
    tracker: &mut AgentActivityTracker,
    key: &str,
    snapshot: AgentActivitySnapshot,
    error: Option<String>,
    now: Timestamp,
)
    requires
        call_ensures(finish_activity_with, (tracker, key, snapshot, error, now), ()),
        old(tracker).wf(),
    ensures
        !final(tracker)@.contains_key(key@),
        error is None ==> final(tracker).degraded is None,
        error is Some ==> (final(tracker).degraded matches Some(d) && d.state == AgentActivityState::Degraded
            && d.last_error == error && d.last_update_at == now && d.since == snapshot.since && d.query_or_target
            == snapshot.query_or_target && d.job_id == snapshot.job_id),
{
}

/// The activity keys of two kinds of work never meet, and within a kind they tell the work apart.
pub proof fn law_activity_keys(
    job: Uuid,
    replay: Uuid,
    hash: &str,
    other_hash: &str,
    search: String,
    passive: String,
    download: String,
    other_download: String,
)
    requires
        call_ensures(active_search_key, (job,), search),
        call_ensures(passive_replay_key, (replay,), passive),
        call_ensures(active_ed2k_download_key, (hash,), download),
        call_ensures(active_ed2k_download_key, (other_hash,), other_download),
    ensures
        search@ != passive@ && search@ != download@ && passive@ != download@,
        download@ == other_download@ <==> hash@ == other_hash@,
        search@.skip(14) == ids::uuid_text(job) && passive@.skip(15) == ids::uuid_text(replay),
{
    reveal_strlit("active_search:");
    reveal_strlit("passive_replay:");
    reveal_strlit("ed2k_download:");
    assert(search@[0] == 'a' && passive@[0] == 'p' && download@[0] == 'e');
    assert(download@.skip(14) =~= hash@);
    assert(other_download@.skip(14) =~= other_hash@);
    assert(search@.skip(14) =~= ids::uuid_text(job));
    assert(passive@.skip(15) =~= ids::uuid_text(replay));
}

/// A search is shown as what it is about: its query, its file or the size of its file.
pub proof fn law_search_is_shown(job: &SearchJob, r: Option<String>)
    requires
        call_ensures(search_activity_context, (job,), r),
    ensures
        job.kind == SearchKind::Keyword ==> types::opt_text(r) == types::opt_text(job.query),
        job.kind != SearchKind::Keyword && job.file_hash is Some ==> (r matches Some(shown) && shown@ == "Ed2k("@
            + text::quoted(job.file_hash->0@) + ")"@),
        job.kind != SearchKind::Keyword && job.file_hash is None && job.file_size is Some ==> (r matches Some(shown)
            && shown@ == "size="@ + text::decimal(job.file_size->0 as nat)),
        job.kind != SearchKind::Keyword && job.file_hash is None && job.file_size is None ==> r is None,
{
}

/// A replay is shown by its family and its target.
pub proof fn law_replay_is_shown(family: HarvestFamily, target: &str, r: String)
    requires
        call_ensures(passive_replay_activity_context, (family, target), r),
    ensures
        family == HarvestFamily::Keyword ==> r@ == "Keyword"@ + " "@ + target@,
        family == HarvestFamily::Source ==> r@ == "Source"@ + " "@ + target@,
        family == HarvestFamily::Notes ==> r@ == "Notes"@ + " "@ + target@,
{
}

/// An error of the control interface comes before one of the peer-to-peer interface, and that
/// before one of the NAT; there is none where none of them has one.
pub proof fn law_runtime_error(
    control: &Option<String>,
    p2p: &Option<String>,
    mapping: &Option<String>,
    r: Option<String>,
)
    requires
        call_ensures(runtime_activity_error, (control, p2p, mapping), r),
    ensures
        control is Some ==> r == *control,
        control is None && p2p is Some ==> r == *p2p,
        control is None && p2p is None ==> r == *mapping,
{
}

/// A new tracker shows that the agent is starting, and nothing else.
pub proof fn law_new_tracker(now: Timestamp, r: AgentActivityTracker, key: Seq<char>)
    requires
        call_ensures(AgentActivityTracker::new, (now,), r),
    ensures
        r@.contains_key(key) <==> key == "starting"@,
        r@["starting"@].state is Starting,
        r@["starting"@].since == now,
        r@["starting"@].last_error is None,
        r.degraded is None,
        r.idle_since == now,
{
}

/// A publish pass is shown under a key of its source and of the milliseconds at which it began.
pub proof fn law_publish_key(source: PublishSeedSource, at: Timestamp, label: &'static str, millis: i128, r: String)
    requires
        call_ensures(PublishSeedSource::label, (source,), label),
        call_ensures(Timestamp::timestamp_millis, (at,), millis),
        call_ensures(publish_activity_key, (source, at), r),
    ensures
        r@ == "publishing:"@ + label@ + ":"@ + text::signed_decimal(millis as int),
{
}

} // verus!
