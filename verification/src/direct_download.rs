//! Downloading from peers that can be dialed directly.
//!
//! Several peers are kept in flight at once, so that a single dead or non-serving source does not
//! hold up a download that another peer can complete.

use std::collections::VecDeque;
use vstd::prelude::*;
use vstd::string::*;
use crate::ed2k::Ed2kFoundSource;
use crate::ed2k_sources;
use crate::ed2k_sources::plaintext_fallback_for_obfuscated_source;
use crate::ids::same_optional_bytes16;
use crate::types::clone_text;

verus! {

/// How long sources on the local host are tried again.
pub const LOOPBACK_RETRY_WINDOW_SECS: u64 = 360;

/// How long to wait before sources on the local host are tried again.
pub const LOOPBACK_RETRY_DELAY_SECS: u64 = 3;

/// One cause in the chain of an error.
#[derive(Debug, Clone, Copy, PartialEq, Eq, Structural)]
pub enum ErrorCause {
    ConnectionRefused,
    OtherIo,
    Other,
}

/// Why a peer failed.
#[derive(Debug, PartialEq, Eq)]
pub struct PeerError {
    pub message: String,
    /// The chain of causes, the outermost first.
    pub causes: Vec<ErrorCause>,
}

/// A download that was refused a connection may succeed once the peer listens.
pub open spec fn retryable(error: PeerError) -> bool {
    error.causes@.contains(ErrorCause::ConnectionRefused)
}

pub fn is_retryable_direct_download_error(error: &PeerError) -> (r: bool)
    ensures
        r == retryable(*error),
{
    let mut i: usize = 0;
    while i < error.causes.len()
        invariant
            i <= error.causes.len(),
            forall|j: int| 0 <= j < i ==> error.causes@[j] != ErrorCause::ConnectionRefused,
        decreases error.causes.len() - i,
    {
        if error.causes[i] == ErrorCause::ConnectionRefused {
            assert(error.causes@[i as int] == ErrorCause::ConnectionRefused);
            return true;
        }
        i = i + 1;
    }
    false
}

/// How a session with a peer ended.
#[derive(Debug, PartialEq, Eq)]
pub enum PeerOutcome {
    /// The peer served what it was asked for; the flag says whether the file is whole.
    Completed { manifest_completed: bool },
    /// The peer accepted the session and did not complete the file.
    AcceptedButIncomplete,
    Failed { error: PeerError },
}

/// How the direct downloads ended.
#[derive(Debug, PartialEq, Eq)]
pub struct NativeDirectDownloadOutcome {
    pub completed: bool,
    pub accepted_incomplete_peers: u32,
    pub last_error: Option<String>,
}

/// The number of sessions that a source can lead to: a second one where there is a plaintext
/// fallback.
pub open spec fn sessions(source: Ed2kFoundSource) -> nat {
    if ed2k_sources::plaintext_fallback(source) is Some {
        2
    } else {
        1
    }
}

/// The number of sessions that a list of sources can lead to.
pub open spec fn all_sessions(sources: Seq<Ed2kFoundSource>) -> nat
    decreases sources.len(),
{
    if sources.len() == 0 {
        0
    } else {
        all_sessions(sources.drop_last()) + sessions(sources.last())
    }
}

proof fn lemma_sessions_insert(s: Seq<Ed2kFoundSource>, i: int, x: Ed2kFoundSource)
    requires
        0 <= i <= s.len(),
    ensures
        all_sessions(s.insert(i, x)) == all_sessions(s) + sessions(x),
    decreases s.len(),
{
    let t = s.insert(i, x);
    if i == s.len() {
        assert(t.drop_last() =~= s);
    } else {
        lemma_sessions_insert(s.drop_last(), i, x);
        assert(t.drop_last() =~= s.drop_last().insert(i, x));
        assert(t.last() == s.last());
    }
}

proof fn lemma_sessions_remove(s: Seq<Ed2kFoundSource>, i: int)
    requires
        0 <= i < s.len(),
    ensures
        all_sessions(s) == all_sessions(s.remove(i)) + sessions(s[i]),
        all_sessions(s) >= s.len(),
{
    lemma_sessions_insert(s.remove(i), i, s[i]);
    assert(s.remove(i).insert(i, s[i]) =~= s);
    lemma_sessions_bounds(s);
}

proof fn lemma_sessions_bounds(s: Seq<Ed2kFoundSource>)
    ensures
        s.len() <= all_sessions(s) <= 2 * s.len(),
    decreases s.len(),
{
    if s.len() > 0 {
        lemma_sessions_bounds(s.drop_last());
    }
}

/// The plaintext fallbacks of sources that have failed, one for each that has one.
pub open spec fn fallbacks(failed: Seq<Ed2kFoundSource>) -> Seq<Ed2kFoundSource>
    decreases failed.len(),
{
    if failed.len() == 0 {
        Seq::empty()
    } else {
        match ed2k_sources::plaintext_fallback(failed.last()) {
            Some(fallback) => fallbacks(failed.drop_last()).push(fallback),
            None => fallbacks(failed.drop_last()),
        }
    }
}

/// Whether two sources are the same.
pub fn same_source(a: &Ed2kFoundSource, b: &Ed2kFoundSource) -> (r: bool)
    ensures
        r == (*a == *b),
{
    a.file_hash == b.file_hash && a.ip == b.ip && a.tcp_port == b.tcp_port && a.client_id == b.client_id
        && a.low_id == b.low_id && a.obfuscated == b.obfuscated && a.obfuscation_options
        == b.obfuscation_options && a.source_server == b.source_server && same_optional_bytes16(
        &a.user_hash,
        &b.user_hash,
    )
}

/// The direct downloads of one file. Sources are tried in rounds; a round starts every source,
/// at most `max_parallel` at a time.
pub struct DirectDownloadRun {
    pub sources: Vec<Ed2kFoundSource>,
    pub max_parallel: usize,
    /// The sources of this round that are still to be started, the next one first.
    pub pending: VecDeque<Ed2kFoundSource>,
    /// The sources with a session under way.
    pub active: Vec<Ed2kFoundSource>,
    pub accepted_incomplete_peers: u32,
    pub retryable_error_seen: bool,
    pub last_error: Option<String>,
    /// The sources that have been started in this round.
    pub started: Ghost<Seq<Ed2kFoundSource>>,
    /// The sources whose session has failed in this round.
    pub failed: Ghost<Seq<Ed2kFoundSource>>,
}

/// Whether all sources are on the local host, and there is one.
pub open spec fn loopback_only(sources: Seq<Ed2kFoundSource>) -> bool {
    sources.len() > 0 && forall|i: int| 0 <= i < sources.len() ==> (#[trigger] sources[i]).ip.loopback()
}

fn all_loopback(sources: &Vec<Ed2kFoundSource>) -> (r: bool)
    ensures
        r == loopback_only(sources@),
{
    let mut i: usize = 0;
    while i < sources.len()
        invariant
            i <= sources.len(),
            forall|j: int| 0 <= j < i ==> (#[trigger] sources@[j]).ip.loopback(),
        decreases sources.len() - i,
    {
        if !sources[i].ip.is_loopback() {
            return false;
        }
        i = i + 1;
    }
    sources.len() > 0
}

fn queue_of(sources: &Vec<Ed2kFoundSource>) -> (r: VecDeque<Ed2kFoundSource>)
    ensures
        r@ == sources@,
{
    let mut queue: VecDeque<Ed2kFoundSource> = VecDeque::new();
    let mut i: usize = 0;
    while i < sources.len()
        invariant
            i <= sources.len(),
            queue@ == sources@.take(i as int),
        decreases sources.len() - i,
    {
        queue.push_back(sources[i]);
        assert(queue@ =~= sources@.take(i + 1));
        i = i + 1;
    }
    assert(sources@.take(i as int) =~= sources@);
    queue
}

impl DirectDownloadRun {
    /// What holds between sessions: no more are under way than may be. What has been started and
    /// what is still to be started are the listed sources, each as often as it is listed, and one
    /// plaintext fallback for each failure of a source that has one. Nothing is under way or has
    /// failed that was not started. The sessions of the round stay within what its sources can lead
    /// to.
    pub open spec fn wf(self) -> bool {
        &&& self.max_parallel >= 1
        &&& self.active@.len() <= self.max_parallel
        &&& self.started@.to_multiset().add(self.pending@.to_multiset())
            == self.sources@.to_multiset().add(fallbacks(self.failed@).to_multiset())
        &&& self.active@.to_multiset().add(self.failed@.to_multiset()).subset_of(
            self.started@.to_multiset(),
        )
        &&& self.started@.len() + all_sessions(self.pending@) + all_sessions(self.active@) - self.active@.len()
            <= all_sessions(self.sources@)
    }

    /// What the direct downloads have come to.
    pub open spec fn outcome(self, completed: bool) -> NativeDirectDownloadOutcome {
        NativeDirectDownloadOutcome {
            completed,
            accepted_incomplete_peers: self.accepted_incomplete_peers,
            last_error: self.last_error,
        }
    }

    /// Whether `self` is at the beginning of a round.
    pub open spec fn fresh_round(self) -> bool {
        &&& self.pending@ == self.sources@
        &&& self.active@.len() == 0
        &&& self.accepted_incomplete_peers == 0
        &&& !self.retryable_error_seen
        &&& self.started@.len() == 0
        &&& self.failed@.len() == 0
    }

    pub fn new(sources: Vec<Ed2kFoundSource>, max_parallel_download_peers: usize) -> (r: DirectDownloadRun)
        ensures
            r.wf(),
            r.fresh_round(),
            r.sources == sources,
            r.max_parallel == if max_parallel_download_peers == 0 {
                1
            } else {
                max_parallel_download_peers
            },
            r.last_error is None,
    {
        let pending: VecDeque<Ed2kFoundSource> = queue_of(&sources);
        let r: DirectDownloadRun = DirectDownloadRun {
            sources,
            max_parallel: if max_parallel_download_peers == 0 {
                1
            } else {
                max_parallel_download_peers
            },
            pending,
            active: Vec::new(),
            accepted_incomplete_peers: 0,
            retryable_error_seen: false,
            last_error: None,
            started: Ghost(Seq::empty()),
            failed: Ghost(Seq::empty()),
        };
        proof {
            lemma_fresh_round(r);
        }
        r
    }

    /// The next source to start a session with, where one is left and a place is free.
    pub fn start_next(&mut self) -> (r: Option<Ed2kFoundSource>)
        requires
            old(self).wf(),
        ensures
            final(self).wf(),
            final(self).sources == old(self).sources,
            final(self).max_parallel == old(self).max_parallel,
            final(self).accepted_incomplete_peers == old(self).accepted_incomplete_peers,
            final(self).retryable_error_seen == old(self).retryable_error_seen,
            final(self).last_error == old(self).last_error,
            final(self).failed == old(self).failed,
            r is Some <==> old(self).pending@.len() > 0 && old(self).active@.len() < old(self).max_parallel,
            match r {
                Some(source) => {
                    &&& source == old(self).pending@.first()
                    &&& final(self).pending@ == old(self).pending@.drop_first()
                    &&& final(self).active@ == old(self).active@.push(source)
                    &&& final(self).started@ == old(self).started@.push(source)
                },
                None => *final(self) == *old(self),
            },
    {
        if self.active.len() >= self.max_parallel || self.pending.len() == 0 {
            return None;
        }
        let ghost before = *self;
        match self.pending.pop_front() {
            Some(source) => {
                self.active.push(source);
                self.started = Ghost(self.started@.push(source));
                proof {
                    assert(self.pending@ =~= before.pending@.drop_first());
                    assert(before.pending@.remove(0) =~= self.pending@);
                    lemma_sessions_remove(before.pending@, 0);
                    lemma_sessions_insert(before.active@, before.active@.len() as int, source);
                    assert(before.active@.insert(before.active@.len() as int, source) =~= self.active@);
                    lemma_source_started(before, *self, source);
                }
                Some(source)
            },
            None => None,
        }
    }

    fn find_active(&self, source: &Ed2kFoundSource) -> (r: Option<usize>)
        ensures
            r is Some <==> self.active@.contains(*source),
            r matches Some(i) ==> i < self.active@.len() && self.active@[i as int] == *source,
    {
        let mut i: usize = 0;
        while i < self.active.len()
            invariant
                i <= self.active.len(),
                forall|j: int| 0 <= j < i ==> self.active@[j] != *source,
            decreases self.active.len() - i,
        {
            if same_source(&self.active[i], source) {
                return Some(i);
            }
            i = i + 1;
        }
        None
    }

    /// Takes in how the session with a source ended. A session that completes the file ends the
    /// downloads; after a failure the plaintext fallback of the source is the next to be started.
    pub fn report(&mut self, source: &Ed2kFoundSource, outcome: PeerOutcome) -> (r: Option<NativeDirectDownloadOutcome>)
        requires
            old(self).wf(),
            old(self).active@.contains(*source),
            outcome is AcceptedButIncomplete ==> old(self).accepted_incomplete_peers < u32::MAX,
        ensures
            final(self).wf(),
            final(self).sources == old(self).sources,
            final(self).max_parallel == old(self).max_parallel,
            final(self).started == old(self).started,
            final(self).failed@ == match outcome {
                PeerOutcome::Failed { .. } => old(self).failed@.push(*source),
                _ => old(self).failed@,
            },
            final(self).active@.len() == old(self).active@.len() - 1,
            final(self).active@.to_multiset().insert(*source) == old(self).active@.to_multiset(),
            r is Some <==> outcome == (PeerOutcome::Completed { manifest_completed: true }),
            r matches Some(done) ==> done == old(self).outcome(true),
            match outcome {
                PeerOutcome::Completed { .. } => {
                    &&& final(self).pending@ == old(self).pending@
                    &&& final(self).accepted_incomplete_peers == old(self).accepted_incomplete_peers
                    &&& final(self).retryable_error_seen == old(self).retryable_error_seen
                    &&& final(self).last_error == old(self).last_error
                },
                PeerOutcome::AcceptedButIncomplete => {
                    &&& final(self).pending@ == old(self).pending@
                    &&& final(self).accepted_incomplete_peers == old(self).accepted_incomplete_peers + 1
                    &&& final(self).retryable_error_seen == old(self).retryable_error_seen
                    &&& final(self).last_error == old(self).last_error
                },
                PeerOutcome::Failed { error } => {
                    &&& final(self).pending@ == match ed2k_sources::plaintext_fallback(*source) {
                        Some(fallback) => seq![fallback] + old(self).pending@,
                        None => old(self).pending@,
                    }
                    &&& final(self).accepted_incomplete_peers == old(self).accepted_incomplete_peers
                    &&& final(self).retryable_error_seen == (old(self).retryable_error_seen || retryable(error))
                    &&& final(self).last_error == Some(error.message)
                },
            },
    {
        let ghost before = *self;
        match self.find_active(source) {
            Some(i) => {
                let _removed: Ed2kFoundSource = self.active.remove(i);
                proof {
                    broadcast use vstd::seq_lib::group_to_multiset_ensures;

                    lemma_sessions_remove(before.active@, i as int);
                    assert(self.active@ == before.active@.remove(i as int));
                    assert(before.active@.to_multiset().contains(*source));
                    assert(before.active@.to_multiset().remove(*source) == self.active@.to_multiset());
                    assert(self.active@.to_multiset().insert(*source) =~= before.active@.to_multiset());
                }
            },
            None => {},
        }
        match outcome {
            PeerOutcome::Completed { manifest_completed } => {
                if manifest_completed {
                    Some(
                        NativeDirectDownloadOutcome {
                            completed: true,
                            accepted_incomplete_peers: self.accepted_incomplete_peers,
                            last_error: clone_text(&self.last_error),
                        },
                    )
                } else {
                    None
                }
            },
            PeerOutcome::AcceptedButIncomplete => {
                self.accepted_incomplete_peers = self.accepted_incomplete_peers + 1;
                None
            },
            PeerOutcome::Failed { error } => {
                if is_retryable_direct_download_error(&error) {
                    self.retryable_error_seen = true;
                }
                self.last_error = Some(error.message);
                match plaintext_fallback_for_obfuscated_source(source) {
                    Some(fallback) => {
                        self.pending.push_front(fallback);
                        proof {
                            lemma_sessions_insert(before.pending@, 0, fallback);
                            assert(before.pending@.insert(0, fallback) =~= self.pending@);
                        }
                    },
                    None => {},
                }
                self.failed = Ghost(self.failed@.push(*source));
                proof {
                    lemma_source_failed(before, *self, *source);
                }
                None
            },
        }
    }

    /// Ends a round in which every session has ended. The downloads go on to another round only
    /// where nobody served anything, all sources are on the local host, one of them refused a
    /// connection, and the window for that is not over.
    pub fn end_round(&mut self, completed: bool, elapsed_secs: u64) -> (r: Option<NativeDirectDownloadOutcome>)
        requires
            old(self).wf(),
            old(self).pending@.len() == 0,
            old(self).active@.len() == 0,
        ensures
            final(self).wf(),
            final(self).sources == old(self).sources,
            final(self).max_parallel == old(self).max_parallel,
            final(self).last_error == old(self).last_error,
            r is None <==> !completed && old(self).accepted_incomplete_peers == 0 && loopback_only(
                old(self).sources@,
            ) && old(self).retryable_error_seen && elapsed_secs < LOOPBACK_RETRY_WINDOW_SECS,
            match r {
                Some(outcome) => outcome == old(self).outcome(completed) && *final(self) == *old(self),
                None => final(self).fresh_round(),
            },
    {
        if completed || self.accepted_incomplete_peers != 0 || !all_loopback(&self.sources)
            || !self.retryable_error_seen || elapsed_secs >= LOOPBACK_RETRY_WINDOW_SECS {
            return Some(
                NativeDirectDownloadOutcome {
                    completed,
                    accepted_incomplete_peers: self.accepted_incomplete_peers,
                    last_error: clone_text(&self.last_error),
                },
            );
        }
        self.pending = queue_of(&self.sources);
        self.retryable_error_seen = false;
        self.started = Ghost(Seq::empty());
        self.failed = Ghost(Seq::empty());
        proof {
            lemma_fresh_round(*self);
        }
        None
    }
}

proof fn lemma_fresh_round(run: DirectDownloadRun)
    requires
        run.max_parallel >= 1,
        run.fresh_round(),
    ensures
        run.wf(),
{
    broadcast use vstd::seq_lib::group_to_multiset_ensures;

    assert(run.started@ =~= Seq::empty());
    assert(run.failed@ =~= Seq::empty());
    assert(run.active@ =~= Seq::empty());
    assert(fallbacks(run.failed@) =~= Seq::empty());
    assert(run.started@.to_multiset().add(run.pending@.to_multiset()) =~= run.sources@.to_multiset().add(
        fallbacks(run.failed@).to_multiset(),
    ));
}

/// A source that moves from the queue to the sessions changes nothing in what the round consists
/// of.
proof fn lemma_source_started(before: DirectDownloadRun, after: DirectDownloadRun, source: Ed2kFoundSource)
    requires
        before.wf(),
        before.pending@.len() > 0,
        source == before.pending@.first(),
        after.sources == before.sources,
        after.failed == before.failed,
        after.pending@ == before.pending@.drop_first(),
        after.active@ == before.active@.push(source),
        after.started@ == before.started@.push(source),
    ensures
        after.started@.to_multiset().add(after.pending@.to_multiset())
            == after.sources@.to_multiset().add(fallbacks(after.failed@).to_multiset()),
        after.active@.to_multiset().add(after.failed@.to_multiset()).subset_of(
            after.started@.to_multiset(),
        ),
{
    broadcast use vstd::seq_lib::group_to_multiset_ensures;

    assert(before.pending@.remove(0) =~= after.pending@);
    assert(before.pending@.contains(source));
    assert(after.started@.to_multiset().add(after.pending@.to_multiset())
        =~= before.started@.to_multiset().add(before.pending@.to_multiset()));
}

/// A source that fails leaves the sessions, and its fallback joins the queue.
proof fn lemma_source_failed(before: DirectDownloadRun, after: DirectDownloadRun, source: Ed2kFoundSource)
    requires
        before.wf(),
        after.sources == before.sources,
        after.started == before.started,
        after.active@.to_multiset().insert(source) == before.active@.to_multiset(),
        after.failed@ == before.failed@.push(source),
        after.pending@ == match ed2k_sources::plaintext_fallback(source) {
            Some(fallback) => seq![fallback] + before.pending@,
            None => before.pending@,
        },
    ensures
        after.started@.to_multiset().add(after.pending@.to_multiset())
            == after.sources@.to_multiset().add(fallbacks(after.failed@).to_multiset()),
        after.active@.to_multiset().add(after.failed@.to_multiset()).subset_of(
            after.started@.to_multiset(),
        ),
{
    broadcast use vstd::seq_lib::group_to_multiset_ensures;

    assert(after.failed@.drop_last() =~= before.failed@);
    assert(after.failed@.last() == source);
    match ed2k_sources::plaintext_fallback(source) {
        Some(fallback) => {
            assert(before.pending@.insert(0, fallback) =~= after.pending@);
            assert(after.started@.to_multiset().add(after.pending@.to_multiset())
                =~= before.started@.to_multiset().add(before.pending@.to_multiset()).insert(fallback));
            assert(after.sources@.to_multiset().add(fallbacks(after.failed@).to_multiset())
                =~= before.sources@.to_multiset().add(fallbacks(before.failed@).to_multiset()).insert(
                fallback,
            ));
        },
        None => {},
    }
    assert(after.active@.to_multiset().add(after.failed@.to_multiset())
        =~= before.active@.to_multiset().add(before.failed@.to_multiset()));
}

/// A round that has ended has started each of its sources exactly as often as it is listed, and
/// beyond them one plaintext fallback for each failure of a source that has one.
pub proof fn law_round_starts_each_source_once(run: DirectDownloadRun)
    requires
        run.wf(),
        run.pending@.len() == 0,
    ensures
        run.started@.to_multiset() == run.sources@.to_multiset().add(
            fallbacks(run.failed@).to_multiset(),
        ),
{
    broadcast use vstd::seq_lib::group_to_multiset_ensures;

    assert(run.pending@ =~= Seq::empty());
    assert(run.started@.to_multiset().add(run.pending@.to_multiset()) =~= run.started@.to_multiset());
}

/// A round that has ended has started every one of its sources.
pub proof fn law_round_starts_every_source(run: DirectDownloadRun, i: int)
    requires
        run.wf(),
        run.pending@.len() == 0,
        0 <= i < run.sources@.len(),
    ensures
        run.started@.contains(run.sources@[i]),
{
    broadcast use vstd::seq_lib::group_to_multiset_ensures;

    law_round_starts_each_source_once(run);
    assert(run.sources@.contains(run.sources@[i]));
    assert(run.sources@.to_multiset().count(run.sources@[i]) > 0);
    assert(run.started@.to_multiset().count(run.sources@[i]) > 0);
}

/// A round starts at most two sessions per source, whatever comes of them.
pub proof fn law_round_is_bounded(run: DirectDownloadRun)
    requires
        run.wf(),
    ensures
        run.started@.len() <= 2 * run.sources@.len(),
{
    lemma_sessions_bounds(run.sources@);
    lemma_sessions_bounds(run.active@);
}

/// A failure is worth another round exactly where a refused connection is among its causes.
pub proof fn law_retryable(error: &PeerError, r: bool, i: int)
    requires
        call_ensures(is_retryable_direct_download_error, (error,), r),
    ensures
        0 <= i < error.causes@.len() && error.causes@[i] is ConnectionRefused ==> r,
        r ==> exists|k: int| 0 <= k < error.causes@.len() && (#[trigger] error.causes@[k]) is ConnectionRefused,
{
}

/// A run starts with all its sources to be started, in their order, and with one place at least.
pub proof fn law_run_begins(sources: Vec<Ed2kFoundSource>, places: usize, r: DirectDownloadRun)
    requires
        call_ensures(DirectDownloadRun::new, (sources, places), r),
    ensures
        r.sources@ == sources@,
        r.pending@ == sources@,
        r.active@.len() == 0,
        r.accepted_incomplete_peers == 0,
        r.last_error is None,
        !r.retryable_error_seen,
        places >= 1 ==> r.max_parallel == places,
        places == 0 ==> r.max_parallel == 1,
{
}

/// The next session is with the first source that waits, while a place is free; the source then
/// waits no longer and is under way.
pub proof fn law_sessions_start(run: &mut DirectDownloadRun, r: Option<Ed2kFoundSource>)
    requires
        old(run).wf(),
        call_ensures(DirectDownloadRun::start_next, (run,), r),
    ensures
        r is None <==> old(run).pending@.len() == 0 || old(run).active@.len() >= old(run).max_parallel,
        r matches Some(source) ==> {
            &&& source == old(run).pending@[0]
            &&& final(run).pending@.len() == old(run).pending@.len() - 1
            &&& final(run).active@.len() == old(run).active@.len() + 1
            &&& final(run).active@.last() == source
            &&& final(run).active@.len() <= final(run).max_parallel
        },
        r is None ==> final(run).pending@ == old(run).pending@ && final(run).active@ == old(run).active@,
{
}

/// The downloads are over only with a session that completed the file. A peer that accepted and did
/// not complete is counted; a failure is remembered, and where the peer can be tried in plaintext it
/// is the next to be, and waits at most once.
pub proof fn law_sessions_end(
    run: &mut DirectDownloadRun,
    source: &Ed2kFoundSource,
    outcome: PeerOutcome,
    r: Option<NativeDirectDownloadOutcome>,
)
    requires
        old(run).wf(),
        old(run).active@.contains(*source),
        old(run).accepted_incomplete_peers < u32::MAX,
        call_ensures(DirectDownloadRun::report, (run, source, outcome), r),
    ensures
        r is Some <==> (outcome matches PeerOutcome::Completed { manifest_completed } && manifest_completed),
        r matches Some(done) ==> {
            &&& done.completed
            &&& done.accepted_incomplete_peers == old(run).accepted_incomplete_peers
            &&& done.last_error == old(run).last_error
        },
        final(run).active@.len() + 1 == old(run).active@.len(),
        outcome is AcceptedButIncomplete ==> final(run).accepted_incomplete_peers == old(run).accepted_incomplete_peers + 1,
        !(outcome is AcceptedButIncomplete) ==> final(run).accepted_incomplete_peers == old(run).accepted_incomplete_peers,
        !(outcome is Failed) ==> final(run).pending@ == old(run).pending@ && final(run).last_error == old(run).last_error,
        outcome matches PeerOutcome::Failed { error } ==> {
            &&& final(run).last_error == Some(error.message)
            &&& old(run).retryable_error_seen ==> final(run).retryable_error_seen
            &&& error.causes@.contains(ErrorCause::ConnectionRefused) ==> final(run).retryable_error_seen
            &&& !error.causes@.contains(ErrorCause::ConnectionRefused) ==> final(run).retryable_error_seen
                == old(run).retryable_error_seen
            &&& source.obfuscation_options is None ==> final(run).pending@ == old(run).pending@
            &&& source.obfuscation_options matches Some(options) ==> {
                &&& options & 4u8 != 0 ==> final(run).pending@ == old(run).pending@
                &&& options & 4u8 == 0 ==> {
                    &&& final(run).pending@.len() == old(run).pending@.len() + 1
                    &&& final(run).pending@[0].ip == source.ip
                    &&& final(run).pending@[0].tcp_port == source.tcp_port
                    &&& final(run).pending@[0].obfuscation_options is None
                    &&& final(run).pending@[0].user_hash is None
                    &&& final(run).pending@.skip(1) == old(run).pending@
                }
            }
        },
{
    if outcome is Failed {
        if let Some(fallback) = ed2k_sources::plaintext_fallback(*source) {
            assert(final(run).pending@.skip(1) =~= old(run).pending@);
        }
    }
}

/// There is another round only where all sources are on the local host, one refused a connection,
/// nobody accepted, the file is not whole, and six minutes are not over; it starts with every source
/// again. Otherwise the run ends with what it came to.
pub proof fn law_rounds_end(
    run: &mut DirectDownloadRun,
    completed: bool,
    elapsed_secs: u64,
    r: Option<NativeDirectDownloadOutcome>,
    i: int,
)
    requires
        old(run).wf(),
        old(run).pending@.len() == 0,
        old(run).active@.len() == 0,
        call_ensures(DirectDownloadRun::end_round, (run, completed, elapsed_secs), r),
    ensures
        completed ==> r is Some,
        old(run).accepted_incomplete_peers > 0 ==> r is Some,
        !old(run).retryable_error_seen ==> r is Some,
        elapsed_secs >= 360 ==> r is Some,
        old(run).sources@.len() == 0 ==> r is Some,
        0 <= i < old(run).sources@.len() && old(run).sources@[i].ip.a != 127 ==> r is Some,
        !completed && old(run).accepted_incomplete_peers == 0 && old(run).retryable_error_seen
            && elapsed_secs < 360 && old(run).sources@.len() > 0 && (forall|k: int|
            0 <= k < old(run).sources@.len() ==> (#[trigger] old(run).sources@[k]).ip.a == 127) ==> r is None,
        r matches Some(outcome) ==> {
            &&& outcome.completed == completed
            &&& outcome.accepted_incomplete_peers == old(run).accepted_incomplete_peers
            &&& outcome.last_error == old(run).last_error
        },
        r is None ==> {
            &&& final(run).pending@ == old(run).sources@
            &&& !final(run).retryable_error_seen
            &&& final(run).accepted_incomplete_peers == 0
            &&& final(run).last_error == old(run).last_error
        },
{
}

/// Two sources are the same exactly where all that is said of them is.
pub proof fn law_same_source(a: &Ed2kFoundSource, b: &Ed2kFoundSource, r: bool)
    requires
        call_ensures(same_source, (a, b), r),
    ensures
        r <==> a.file_hash == b.file_hash && a.ip == b.ip && a.tcp_port == b.tcp_port && a.client_id == b.client_id
            && a.low_id == b.low_id && a.obfuscated == b.obfuscated && a.obfuscation_options
            == b.obfuscation_options && a.user_hash == b.user_hash && a.source_server == b.source_server,
{
}

} // verus!
