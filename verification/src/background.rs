//! What the agent does in the background: joining the network, publishing, keeping its routing
//! table alive, and replaying harvested searches.

use vstd::prelude::*;
use vstd::string::*;
use crate::activity;
use crate::activity::{
    degraded_snapshot, finish_activity_with, new_activity_snapshot, passive_replay_activity_context,
    passive_replay_key, AgentActivityTracker, ACTIVITY_KEY_BOOTSTRAPPING,
    ACTIVITY_KEY_FLUSHING_SNOOPS,
};
use crate::ids;
use crate::ids::{IpAddr, SocketAddr, Timestamp, Uuid};
use crate::kad::Contact;
use crate::kad_firewall;
use crate::passive_replay;
use crate::passive_replay::{record_passive_replay_complete, record_passive_replay_start};
use crate::passive_runtime::{harvest_replay_record, PassiveReplayRunOutcome};
use crate::publish;
use crate::publish::{
    next_synthetic_publish_batch, set_synthetic_publish_queue_depth, synthetic_publish_queue_depth,
};
use crate::random::shuffle_contacts;
use crate::seeds::SYNTHETIC_SEED_COUNT;
use crate::text::joined;
use crate::types;
use crate::types::{
    AgentActivitySnapshot, AgentActivityState, HarvestReplayContext, HarvestReplayRecord,
    KadHarvestObservability, KadPublishObservability, PopularHash,
};

verus! {

broadcast use vstd::string::group_string_axioms;

pub const BOOTSTRAP_RETRY_SECS: u64 = 30;

pub const SNOOP_FLUSH_SECS: u64 = 30;

pub const PASSIVE_GENERAL_CRAWL_SECS: u64 = 45;

pub const PASSIVE_SOURCE_CRAWL_SECS: u64 = 15;

/// The number of ticks of the synthetic drip that downloads can hold up.
pub const DRIP_DEFERRAL_TICKS: u8 = 8;

/// A configured interval, of one second at least.
pub fn interval_secs(configured: u64) -> (r: u64)
    ensures
        r == if configured == 0 {
            1
        } else {
            configured
        },
{
    if configured == 0 {
        1
    } else {
        configured
    }
}

/// Whether background work is done at a tick: the node has joined the network and is not leaving
/// it.
pub fn works_now(shutting_down: bool, bootstrapped: bool) -> (r: bool)
    ensures
        r == (!shutting_down && bootstrapped),
{
    !shutting_down && bootstrapped
}

/// Whether `snapshot` is that state with that target.
pub open spec fn shows(snapshot: AgentActivitySnapshot, state: AgentActivityState, target: Seq<char>, now: Timestamp) -> bool {
    &&& types::opt_text(snapshot.query_or_target) == Some(target)
    &&& snapshot == (AgentActivitySnapshot {
        query_or_target: snapshot.query_or_target,
        ..activity::bare_snapshot(state, now)
    })
}

/// Shows that the node is joining the network.
pub fn begin_bootstrap(tracker: &mut AgentActivityTracker, now: Timestamp)
    requires
        old(tracker).wf(),
    ensures
        final(tracker).wf(),
        exists|snapshot: AgentActivitySnapshot| #[trigger]
            shows(snapshot, AgentActivityState::Bootstrapping, "kad dht"@, now) && final(tracker)@
                == old(tracker)@.insert(ACTIVITY_KEY_BOOTSTRAPPING@, snapshot),
        final(tracker).degraded == old(tracker).degraded,
        final(tracker).idle_since == old(tracker).idle_since,
{
    let mut snapshot: AgentActivitySnapshot = new_activity_snapshot(
        AgentActivityState::Bootstrapping,
        now,
    );
    snapshot.query_or_target = Some("kad dht".to_owned());
    assert(shows(snapshot, AgentActivityState::Bootstrapping, "kad dht"@, now));
    tracker.enter(ACTIVITY_KEY_BOOTSTRAPPING.to_owned(), snapshot);
}

/// Shows why joining the network failed; it is tried again.
pub fn record_bootstrap_failure(tracker: &mut AgentActivityTracker, error: String, now: Timestamp)
    requires
        old(tracker).wf(),
    ensures
        final(tracker).wf(),
        final(tracker)@ == if old(tracker)@.contains_key(ACTIVITY_KEY_BOOTSTRAPPING@) {
            old(tracker)@.insert(
                ACTIVITY_KEY_BOOTSTRAPPING@,
                AgentActivitySnapshot {
                    last_error: Some(error),
                    last_update_at: now,
                    ..old(tracker)@[ACTIVITY_KEY_BOOTSTRAPPING@]
                },
            )
        } else {
            old(tracker)@
        },
        final(tracker).degraded == old(tracker).degraded,
        final(tracker).idle_since == old(tracker).idle_since,
{
    tracker.update_error(ACTIVITY_KEY_BOOTSTRAPPING, error, now);
}

/// Shows that the node has joined the network; the whole synthetic rotation is ahead.
pub fn finish_bootstrap(tracker: &mut AgentActivityTracker, publish: &mut KadPublishObservability, now: Timestamp)
    requires
        old(tracker).wf(),
    ensures
        final(tracker).wf(),
        final(tracker)@ == old(tracker)@.remove(ACTIVITY_KEY_BOOTSTRAPPING@),
        final(tracker).degraded is None,
        final(tracker).idle_since == activity::idle_after(
            *old(tracker),
            *final(tracker),
            ACTIVITY_KEY_BOOTSTRAPPING@,
            now,
        ),
        *final(publish) == (KadPublishObservability {
            synthetic_drip_queue_depth: Some(SYNTHETIC_SEED_COUNT as u32),
            ..*old(publish)
        }),
{
    set_synthetic_publish_queue_depth(publish, SYNTHETIC_SEED_COUNT);
    tracker.leave(ACTIVITY_KEY_BOOTSTRAPPING, now);
    tracker.clear_degraded();
}

/// The state of the synthetic drip.
#[derive(Debug, Clone, Copy, PartialEq, Eq, Structural)]
pub struct SyntheticDrip {
    pub cursor: usize,
    /// Ticks in a row at which downloads were running.
    pub deferred_ticks: u8,
}

/// The count of ticks in a row at which downloads were running, after one more tick.
pub open spec fn deferred_after(deferred_ticks: u8, downloads_active: bool) -> u8 {
    if !downloads_active {
        0
    } else if deferred_ticks == u8::MAX {
        u8::MAX
    } else {
        (deferred_ticks + 1) as u8
    }
}

impl SyntheticDrip {
    pub fn new() -> (r: SyntheticDrip)
        ensures
            r == (SyntheticDrip { cursor: 0, deferred_ticks: 0 }),
    {
        SyntheticDrip { cursor: 0, deferred_ticks: 0 }
    }

    /// Takes a tick, and says whether to publish. A node that is leaving or has not joined does
    /// not; running downloads hold the drip up, but not for ever.
    pub fn tick(&mut self, shutting_down: bool, bootstrapped: bool, downloads_active: bool) -> (r: bool)
        ensures
            final(self).cursor == old(self).cursor,
            if shutting_down || !bootstrapped {
                !r && final(self).deferred_ticks == old(self).deferred_ticks
            } else {
                &&& final(self).deferred_ticks == deferred_after(
                    old(self).deferred_ticks,
                    downloads_active,
                )
                &&& r == (!downloads_active || final(self).deferred_ticks >= DRIP_DEFERRAL_TICKS)
            },
    {
        if !works_now(shutting_down, bootstrapped) {
            return false;
        }
        if downloads_active {
            self.deferred_ticks = self.deferred_ticks.saturating_add(1);
            self.deferred_ticks >= DRIP_DEFERRAL_TICKS
        } else {
            self.deferred_ticks = 0;
            true
        }
    }

    /// The files to publish now. Where the coordinator has popular files, the synthetic ones wait,
    /// and the whole rotation is ahead.
    pub fn next_batch(
        &mut self,
        coordinator_has_popular: bool,
        batch_items: usize,
        observability: &mut KadPublishObservability,
    ) -> (r: Option<Vec<PopularHash>>)
        ensures
            final(self).deferred_ticks == old(self).deferred_ticks,
            r is None <==> coordinator_has_popular,
            match r {
                None => final(self).cursor == old(self).cursor && *final(observability) == (
                KadPublishObservability {
                    synthetic_drip_queue_depth: Some(SYNTHETIC_SEED_COUNT as u32),
                    ..*old(observability)
                }),
                Some(batch) => {
                    &&& publish::popular_views(batch@) == publish::rotation(
                        (old(self).cursor % SYNTHETIC_SEED_COUNT) as int,
                        publish::drip_len(batch_items),
                    )
                    &&& final(self).cursor == (old(self).cursor % SYNTHETIC_SEED_COUNT
                        + publish::drip_len(batch_items)) % SYNTHETIC_SEED_COUNT as int
                    &&& *final(observability) == (KadPublishObservability {
                        synthetic_drip_queue_depth: Some(
                            publish::queue_depth(final(self).cursor as int) as u32,
                        ),
                        ..*old(observability)
                    })
                },
            },
    {
        if coordinator_has_popular {
            set_synthetic_publish_queue_depth(observability, SYNTHETIC_SEED_COUNT);
            return None;
        }
        let batch: Vec<PopularHash> = next_synthetic_publish_batch(&mut self.cursor, batch_items);
        let remaining: usize = synthetic_publish_queue_depth(self.cursor);
        set_synthetic_publish_queue_depth(observability, remaining);
        Some(batch)
    }
}

/// The count after that many ticks in a row at which downloads were running.
pub open spec fn deferred_after_ticks(deferred_ticks: u8, ticks: nat) -> u8
    decreases ticks,
{
    if ticks == 0 {
        deferred_ticks
    } else {
        deferred_after(deferred_after_ticks(deferred_ticks, (ticks - 1) as nat), true)
    }
}

/// Downloads hold the drip up for a bounded time: after enough ticks in a row at which they were
/// running, every further tick publishes.
pub proof fn law_downloads_defer_boundedly(deferred_ticks: u8, ticks: nat)
    ensures
        ticks >= DRIP_DEFERRAL_TICKS ==> deferred_after_ticks(deferred_ticks, ticks) >= DRIP_DEFERRAL_TICKS,
        deferred_after_ticks(deferred_ticks, ticks) >= if ticks > u8::MAX {
            u8::MAX as int
        } else {
            ticks as int
        },
    decreases ticks,
{
    if ticks > 0 {
        law_downloads_defer_boundedly(deferred_ticks, (ticks - 1) as nat);
    }
}

/// What was last stored of the routing table.
#[derive(Debug, Clone, Copy, PartialEq, Eq, Structural)]
pub struct NodesSnapshot {
    pub contact_count: usize,
}

impl NodesSnapshot {
    /// Whether the routing table is stored after a refresh: its size has changed, or it is due.
    pub fn should_persist(&self, contacts_after: usize, secs_since_stored: u64, configured_interval_secs: u64) -> (r: bool)
        ensures
            r == (contacts_after != self.contact_count || secs_since_stored >= (
            if configured_interval_secs == 0 {
                1
            } else {
                configured_interval_secs
            })),
    {
        contacts_after != self.contact_count || secs_since_stored >= interval_secs(configured_interval_secs)
    }

    /// Notes that the routing table has been stored.
    pub fn stored(&mut self, contacts_after: usize)
        ensures
            *final(self) == (NodesSnapshot { contact_count: contacts_after }),
    {
        self.contact_count = contacts_after;
    }
}

/// The address of a contact.
pub open spec fn contact_addr(contact: Contact) -> SocketAddr {
    SocketAddr { ip: IpAddr::V4(contact.ip), port: contact.udp_port }
}

/// Whether the agent introduces itself to a contact.
pub open spec fn wants_intro(contact: Contact, local_ip: IpAddr, introduced: Seq<SocketAddr>) -> bool {
    contact.udp_port != 0 && contact.kad_version >= 6 && IpAddr::V4(contact.ip) != local_ip
        && !introduced.contains(contact_addr(contact))
}

fn contains_addr(addrs: &Vec<SocketAddr>, addr: SocketAddr) -> (r: bool)
    ensures
        r == addrs@.contains(addr),
{
    let mut i: usize = 0;
    while i < addrs.len()
        invariant
            i <= addrs.len(),
            forall|j: int| 0 <= j < i ==> addrs@[j] != addr,
        decreases addrs.len() - i,
    {
        if addrs[i] == addr {
            assert(addrs@[i as int] == addr);
            return true;
        }
        i = i + 1;
    }
    false
}

/// The contacts that the agent could introduce itself to, in order.
pub fn intro_candidates(contacts: &Vec<Contact>, local_ip: IpAddr, introduced: &Vec<SocketAddr>) -> (r: Vec<Contact>)
    ensures
        r@ == contacts@.filter(|contact: Contact| wants_intro(contact, local_ip, introduced@)),
{
    let ghost wanted = |contact: Contact| wants_intro(contact, local_ip, introduced@);
    let mut r: Vec<Contact> = Vec::new();
    let mut i: usize = 0;
    proof {
        reveal(Seq::filter);
        assert(contacts@.take(0).filter(wanted) =~= Seq::empty());
    }
    while i < contacts.len()
        invariant
            i <= contacts.len(),
            wanted == (|contact: Contact| wants_intro(contact, local_ip, introduced@)),
            r@ == contacts@.take(i as int).filter(wanted),
        decreases contacts.len() - i,
    {
        proof {
            reveal(Seq::filter);
            assert(contacts@.take(i + 1).drop_last() =~= contacts@.take(i as int));
            assert(contacts@.take(i + 1).last() == contacts@[i as int]);
        }
        let contact: Contact = contacts[i];
        let addr: SocketAddr = SocketAddr { ip: IpAddr::V4(contact.ip), port: contact.udp_port };
        if contact.udp_port != 0 && contact.kad_version >= 6 && IpAddr::V4(contact.ip) != local_ip
            && !contains_addr(introduced, addr) {
            r.push(contact);
        }
        i = i + 1;
    }
    assert(contacts@.take(i as int) =~= contacts@);
    r
}

/// The contacts that the agent introduces itself to now: some of those that it could, one at least
/// where there is one, in an order that is left to chance.
pub fn hello_intro_contacts(
    contacts: &Vec<Contact>,
    local_ip: IpAddr,
    introduced: &Vec<SocketAddr>,
    fanout: usize,
) -> (r: Vec<Contact>)
    ensures
        exists|order: Seq<Contact>| #[trigger]
            order.to_multiset() == contacts@.filter(
                |contact: Contact| wants_intro(contact, local_ip, introduced@),
            ).to_multiset() && r@ == kad_firewall::at_most(
                order,
                if fanout == 0 {
                    1
                } else {
                    fanout as nat
                },
            ),
{
    let mut candidates: Vec<Contact> = intro_candidates(contacts, local_ip, introduced);
    shuffle_contacts(&mut candidates);
    let ghost order = candidates@;
    assert(order.to_multiset() == contacts@.filter(
        |contact: Contact| wants_intro(contact, local_ip, introduced@),
    ).to_multiset());
    let most: usize = if fanout == 0 {
        1
    } else {
        fanout
    };
    if candidates.len() > most {
        candidates.truncate(most);
        assert(candidates@ =~= order.take(most as int));
    }
    candidates
}

/// Notes that a contact has been introduced to: it is not introduced to again.
pub fn mark_introduced(introduced: &mut Vec<SocketAddr>, contact: &Contact)
    ensures
        final(introduced)@ == if old(introduced)@.contains(contact_addr(*contact)) {
            old(introduced)@
        } else {
            old(introduced)@.push(contact_addr(*contact))
        },
{
    let addr: SocketAddr = SocketAddr { ip: IpAddr::V4(contact.ip), port: contact.udp_port };
    if !contains_addr(introduced, addr) {
        introduced.push(addr);
    }
}

/// Shows that a replay has begun, and counts it; returns the key of the activity and what is
/// shown.
pub fn begin_passive_replay(
    tracker: &mut AgentActivityTracker,
    observability: &mut KadHarvestObservability,
    context: &HarvestReplayContext,
    restrictive_payload_bytes: Option<u32>,
    now: Timestamp,
) -> (r: (String, AgentActivitySnapshot))
    requires
        old(tracker).wf(),
        old(observability).replay(context.family).started_cycles < u64::MAX,
    ensures
        final(tracker).wf(),
        r.0@ == "passive_replay:"@ + ids::uuid_text(context.replay_id),
        shows(
            r.1,
            AgentActivityState::PassiveHarvestReplay,
            activity::family_name(context.family) + " "@ + context.target@,
            now,
        ),
        final(tracker)@ == old(tracker)@.insert(r.0@, r.1),
        final(tracker).degraded == old(tracker).degraded,
        final(tracker).idle_since == old(tracker).idle_since,
        passive_replay::replay_started(
            old(observability).replay(context.family),
            final(observability).replay(context.family),
            context.target,
            context.start_position,
            restrictive_payload_bytes,
            now,
        ),
        *final(observability) == old(observability).with_replay(
            context.family,
            final(observability).replay(context.family),
        ),
{
    let key: String = passive_replay_key(context.replay_id);
    let mut snapshot: AgentActivitySnapshot = new_activity_snapshot(
        AgentActivityState::PassiveHarvestReplay,
        now,
    );
    snapshot.query_or_target = Some(
        passive_replay_activity_context(context.family, context.target.as_str()),
    );
    tracker.enter(key.clone(), snapshot.clone());
    record_passive_replay_start(
        observability,
        context.family,
        context.target.clone(),
        context.start_position,
        restrictive_payload_bytes,
        now,
    );
    (key, snapshot)
}

/// Counts a replay that has ended, and returns the record to post of it.
pub fn complete_passive_replay(
    observability: &mut KadHarvestObservability,
    context: &HarvestReplayContext,
    indexer_id: Uuid,
    started_at: Timestamp,
    completed_at: Timestamp,
    outcome: PassiveReplayRunOutcome,
) -> (r: HarvestReplayRecord)
    requires
        old(observability).replay(context.family).completed_cycles < u64::MAX,
        old(observability).replay(context.family).emitted_results + outcome.result_count <= u64::MAX,
        old(observability).replay(context.family).posted_batches + outcome.batch_count <= u64::MAX,
        outcome.tier_summaries@.len() > 1 ==> old(observability).replay(context.family).widened_cycles
            < u64::MAX,
    ensures
        *final(observability) == old(observability).with_replay(
            context.family,
            passive_replay::replay_completed(
                old(observability).replay(context.family),
                completed_at,
                outcome.result_count,
                outcome.batch_count,
                outcome.tier_summaries,
            ),
        ),
        r == (HarvestReplayRecord {
            replay_id: context.replay_id,
            indexer_id,
            family: context.family,
            logical_key: context.logical_key,
            target: context.target,
            start_position: context.start_position,
            size: context.size,
            restrictive_payload_hex: context.restrictive_payload_hex,
            started_at,
            completed_at,
            result_count: outcome.result_count as u32,
            batch_count: outcome.batch_count as u32,
            error: outcome.last_post_error,
        }),
{
    let record: HarvestReplayRecord = harvest_replay_record(
        context,
        indexer_id,
        started_at,
        completed_at,
        &outcome,
    );
    record_passive_replay_complete(
        observability,
        context.family,
        completed_at,
        outcome.result_count,
        outcome.batch_count,
        outcome.tier_summaries,
    );
    record
}

/// Shows that a replay has ended; results that could not be posted degrade the agent.
pub fn finish_passive_replay(
    tracker: &mut AgentActivityTracker,
    key: &str,
    snapshot: AgentActivitySnapshot,
    last_post_error: Option<String>,
    now: Timestamp,
)
    requires
        old(tracker).wf(),
    ensures
        final(tracker).wf(),
        final(tracker)@ == old(tracker)@.remove(key@),
        final(tracker).idle_since == activity::idle_after(*old(tracker), *final(tracker), key@, now),
        final(tracker).degraded == match last_post_error {
            Some(_) => Some(
                AgentActivitySnapshot {
                    state: AgentActivityState::Degraded,
                    last_error: last_post_error,
                    last_update_at: now,
                    ..snapshot
                },
            ),
            None => None,
        },
{
    finish_activity_with(tracker, key, snapshot, last_post_error, now);
}

/// Shows that harvested searches are being handed to the coordinator.
pub fn begin_snoop_flush(tracker: &mut AgentActivityTracker, indexer_id: Uuid, now: Timestamp)
    requires
        old(tracker).wf(),
    ensures
        final(tracker).wf(),
        exists|snapshot: AgentActivitySnapshot| #[trigger]
            shows(
                snapshot,
                AgentActivityState::FlushingSnoops,
                "indexer="@ + ids::uuid_text(indexer_id),
                now,
            ) && final(tracker)@ == old(tracker)@.insert(ACTIVITY_KEY_FLUSHING_SNOOPS@, snapshot),
        final(tracker).degraded == old(tracker).degraded,
        final(tracker).idle_since == old(tracker).idle_since,
{
    let mut snapshot: AgentActivitySnapshot = new_activity_snapshot(
        AgentActivityState::FlushingSnoops,
        now,
    );
    let id: String = indexer_id.to_text();
    snapshot.query_or_target = Some(joined("indexer=", id.as_str()));
    assert(shows(
        snapshot,
        AgentActivityState::FlushingSnoops,
        "indexer="@ + ids::uuid_text(indexer_id),
        now,
    ));
    tracker.enter(ACTIVITY_KEY_FLUSHING_SNOOPS.to_owned(), snapshot);
}

/// Shows that harvested searches have been handed over; a failure degrades the agent.
pub fn end_snoop_flush(tracker: &mut AgentActivityTracker, error: Option<String>, now: Timestamp)
    requires
        old(tracker).wf(),
    ensures
        final(tracker).wf(),
        final(tracker)@ == old(tracker)@.remove(ACTIVITY_KEY_FLUSHING_SNOOPS@),
        match error {
            Some(error) => final(tracker).degraded matches Some(snapshot) && activity::says_failed(
                snapshot,
                "snoop flush"@,
                error,
                now,
            ),
            None => final(tracker).degraded is None,
        },
        final(tracker).idle_since == activity::idle_after(
            *old(tracker),
            *final(tracker),
            ACTIVITY_KEY_FLUSHING_SNOOPS@,
            now,
        ),
{
    match error {
        Some(error) => {
            tracker.record_degraded(degraded_snapshot("snoop flush", error, now));
        },
        None => {
            tracker.clear_degraded();
        },
    }
    tracker.leave(ACTIVITY_KEY_FLUSHING_SNOOPS, now);
}

/// An interval is what was configured, and never zero.
pub proof fn law_interval(configured: u64, r: u64)
    requires
        call_ensures(interval_secs, (configured,), r),
    ensures
        r >= 1,
        configured >= 1 ==> r == configured,
        configured == 0 ==> r == 1,
{
}

/// A node that is leaving the network, or has not joined it, does no background work; any other
/// does.
pub proof fn law_works_now(shutting_down: bool, bootstrapped: bool, r: bool)
    requires
        call_ensures(works_now, (shutting_down, bootstrapped), r),
    ensures
        shutting_down ==> !r,
        !bootstrapped ==> !r,
        !shutting_down && bootstrapped ==> r,
{
}

/// While the network is being joined the tracker shows so, beside what it showed before. A failure
/// is shown with it and takes nothing away; success takes it away, and what degraded the agent too.
pub proof fn law_bootstrap_is_shown(
    begun: &mut AgentActivityTracker,
    failed: &mut AgentActivityTracker,
    finished: &mut AgentActivityTracker,
    publish: &mut KadPublishObservability,
    error: String,
    now: Timestamp,
    key: Seq<char>,
)
    requires
        old(begun).wf(),
        old(failed).wf(),
        old(finished).wf(),
        call_ensures(begin_bootstrap, (begun, now), ()),
        call_ensures(record_bootstrap_failure, (failed, error, now), ()),
        call_ensures(finish_bootstrap, (finished, publish, now), ()),
    ensures
        final(begun)@.contains_key("bootstrapping"@),
        final(begun)@["bootstrapping"@].state is Bootstrapping,
        final(begun)@["bootstrapping"@].query_or_target matches Some(t) && t@ == "kad dht"@,
        final(begun)@["bootstrapping"@].since == now,
        final(begun)@["bootstrapping"@].last_update_at == now,
        final(begun)@["bootstrapping"@].last_error is None,
        final(failed)@.dom() == old(failed)@.dom(),
        old(failed)@.contains_key("bootstrapping"@) ==> {
            &&& final(failed)@["bootstrapping"@].last_error == Some(error)
            &&& final(failed)@["bootstrapping"@].last_update_at == now
            &&& final(failed)@["bootstrapping"@].state == old(failed)@["bootstrapping"@].state
            &&& final(failed)@["bootstrapping"@].since == old(failed)@["bootstrapping"@].since
        },
        !final(finished)@.contains_key("bootstrapping"@),
        final(finished).degraded is None,
        final(publish).synthetic_drip_queue_depth == Some(40u32),
        key != "bootstrapping"@ ==> {
            &&& final(begun)@.contains_key(key) == old(begun)@.contains_key(key)
            &&& final(begun)@[key] == old(begun)@[key]
            &&& final(failed)@[key] == old(failed)@[key]
            &&& final(finished)@.contains_key(key) == old(finished)@.contains_key(key)
            &&& final(finished)@[key] == old(finished)@[key]
        },
{
    assert(final(failed)@.dom() =~= old(failed)@.dom());
}

/// A drip that is held up by downloads counts the ticks in a row and publishes from the eighth on;
/// without downloads it publishes at each tick and forgets the count. A node that is leaving, or has
/// not joined, neither publishes nor counts.
pub proof fn law_drip_ticks(drip: &mut SyntheticDrip, shutting_down: bool, bootstrapped: bool, downloads_active: bool, r: bool)
    requires
        call_ensures(SyntheticDrip::tick, (drip, shutting_down, bootstrapped, downloads_active), r),
    ensures
        final(drip).cursor == old(drip).cursor,
        shutting_down || !bootstrapped ==> !r && *final(drip) == *old(drip),
        !shutting_down && bootstrapped && !downloads_active ==> r && final(drip).deferred_ticks == 0,
        !shutting_down && bootstrapped && downloads_active && old(drip).deferred_ticks < 255
            ==> final(drip).deferred_ticks == old(drip).deferred_ticks + 1,
        !shutting_down && bootstrapped && downloads_active && old(drip).deferred_ticks == 255
            ==> final(drip).deferred_ticks == 255,
        !shutting_down && bootstrapped && downloads_active ==> (r <==> old(drip).deferred_ticks >= 7),
{
}

/// A new drip starts at the first file, with no tick held up.
pub proof fn law_new_drip(r: SyntheticDrip)
    requires
        call_ensures(SyntheticDrip::new, (), r),
    ensures
        r.cursor == 0,
        r.deferred_ticks == 0,
{
}

/// A batch of the drip holds a file at least, and the drip then stands behind its last; where the
/// coordinator has files of its own there is none, and the drip stands where it stood.
pub proof fn law_drip_batches(
    drip: &mut SyntheticDrip,
    coordinator_has_popular: bool,
    batch_items: usize,
    observability: &mut KadPublishObservability,
    r: Option<Vec<PopularHash>>,
)
    requires
        call_ensures(
            SyntheticDrip::next_batch,
            (drip, coordinator_has_popular, batch_items, observability),
            r,
        ),
    ensures
        r is None <==> coordinator_has_popular,
        final(drip).deferred_ticks == old(drip).deferred_ticks,
        r is None ==> final(drip).cursor == old(drip).cursor,
        r is None ==> final(observability).synthetic_drip_queue_depth == Some(40u32),
        r matches Some(batch) ==> {
            &&& batch@.len() >= 1
            &&& batch_items >= 1 && batch_items <= 40 ==> batch@.len() == batch_items
            &&& batch_items > 40 ==> batch@.len() == 40
            &&& final(drip).cursor < 40
            &&& final(drip).cursor == (old(drip).cursor % 40 + batch@.len()) % 40
            &&& final(drip).cursor > 0 ==> final(observability).synthetic_drip_queue_depth == Some(
                (40 - final(drip).cursor) as u32,
            )
            &&& final(drip).cursor == 0 ==> final(observability).synthetic_drip_queue_depth == Some(40u32)
        },
        final(observability).keyword_counters == old(observability).keyword_counters,
        final(observability).source_counters == old(observability).source_counters,
        final(observability).notes_counters == old(observability).notes_counters,
{
    if let Some(batch) = r {
        assert(publish::popular_views(batch@).len() == batch@.len());
    }
}

/// The routing table is stored where its size is not the one that was stored last, and where it is
/// due; storing it takes the first reason away.
pub proof fn law_routing_table_is_stored(
    snapshot: &mut NodesSnapshot,
    contacts: usize,
    secs: u64,
    interval: u64,
    r: bool,
    again: bool,
)
    requires
        call_ensures(NodesSnapshot::should_persist, (&*old(snapshot), contacts, secs, interval), r),
        call_ensures(NodesSnapshot::stored, (snapshot, contacts), ()),
        call_ensures(NodesSnapshot::should_persist, (final(snapshot), contacts, secs, interval), again),
    ensures
        contacts != old(snapshot).contact_count ==> r,
        interval >= 1 && secs >= interval ==> r && again,
        secs >= 1 && interval == 0 ==> r && again,
        contacts == old(snapshot).contact_count && secs < interval ==> !r,
        secs < interval ==> !again,
        secs == 0 && interval == 0 ==> !again,
{
}

/// The agent introduces itself only to contacts that it knows, that can be reached by UDP, that
/// speak the protocol's sixth version at least, that are not its own, and whose address it has not
/// introduced itself to; and to each of these.
pub proof fn law_intro_candidates(
    contacts: &Vec<Contact>,
    local_ip: IpAddr,
    introduced: &Vec<SocketAddr>,
    r: Vec<Contact>,
    contact: Contact,
)
    requires
        call_ensures(intro_candidates, (contacts, local_ip, introduced), r),
    ensures
        r@.contains(contact) <==> contacts@.contains(contact) && contact.udp_port != 0 && contact.kad_version >= 6
            && IpAddr::V4(contact.ip) != local_ip && !introduced@.contains(
            SocketAddr { ip: IpAddr::V4(contact.ip), port: contact.udp_port },
        ),
        r@.len() <= contacts@.len(),
{
    let wanted = |contact: Contact| wants_intro(contact, local_ip, introduced@);
    broadcast use vstd::seq_lib::group_filter_ensures;

    assert(r@ == contacts@.filter(wanted));
    if contacts@.contains(contact) && wanted(contact) {
        let i = choose|i: int| 0 <= i < contacts@.len() && contacts@[i] == contact;
        assert(contacts@.filter(wanted).contains(contacts@[i]));
    }
    if r@.contains(contact) {
        let i = choose|i: int| 0 <= i < r@.len() && r@[i] == contact;
        assert(wanted(contacts@.filter(wanted)[i]));
        contacts@.lemma_filter_contains_rev(wanted, contact);
    }
}

/// A contact that was introduced to is no candidate any more; every other stays one.
pub proof fn law_introduced_once(
    introduced: &mut Vec<SocketAddr>,
    contact: &Contact,
    contacts: &Vec<Contact>,
    local_ip: IpAddr,
    r: Vec<Contact>,
    addr: SocketAddr,
)
    requires
        call_ensures(mark_introduced, (introduced, contact), ()),
        call_ensures(intro_candidates, (contacts, local_ip, final(introduced)), r),
    ensures
        !r@.contains(*contact),
        final(introduced)@.contains(addr) <==> old(introduced)@.contains(addr) || addr == (SocketAddr {
            ip: IpAddr::V4(contact.ip),
            port: contact.udp_port,
        }),
        final(introduced)@.len() <= old(introduced)@.len() + 1,
{
    let new = SocketAddr { ip: IpAddr::V4(contact.ip), port: contact.udp_port };
    let before = old(introduced)@;
    let pushed = before.push(new);
    assert(pushed[before.len() as int] == new);
    if before.contains(addr) {
        let i = choose|i: int| 0 <= i < before.len() && before[i] == addr;
        assert(pushed[i] == addr);
    }
    if pushed.contains(addr) && addr != new {
        let i = choose|i: int| 0 <= i < pushed.len() && pushed[i] == addr;
        assert(before[i] == addr);
    }
    law_intro_candidates(contacts, local_ip, final(introduced), r, *contact);
}

/// The contacts that are introduced to now are candidates, as many as the fan-out admits, and one
/// at least where there is one.
pub proof fn law_hello_intro_contacts(
    contacts: &Vec<Contact>,
    local_ip: IpAddr,
    introduced: &Vec<SocketAddr>,
    fanout: usize,
    all: Vec<Contact>,
    r: Vec<Contact>,
    i: int,
)
    requires
        call_ensures(intro_candidates, (contacts, local_ip, introduced), all),
        call_ensures(hello_intro_contacts, (contacts, local_ip, introduced, fanout), r),
    ensures
        0 <= i < r@.len() ==> all@.contains(r@[i]),
        fanout >= 1 && all@.len() >= fanout ==> r@.len() == fanout,
        fanout >= 1 && all@.len() < fanout ==> r@.len() == all@.len(),
        fanout == 0 && all@.len() > 0 ==> r@.len() == 1,
        all@.len() == 0 ==> r@.len() == 0,
{
    let most = if fanout == 0 {
        1nat
    } else {
        fanout as nat
    };
    let order = choose|order: Seq<Contact>| #[trigger]
        order.to_multiset() == contacts@.filter(
            |contact: Contact| wants_intro(contact, local_ip, introduced@),
        ).to_multiset() && r@ == kad_firewall::at_most(order, most);
    assert(order.to_multiset() == all@.to_multiset());
    order.to_multiset_ensures();
    all@.to_multiset_ensures();
    assert(order.len() == all@.len());
    if 0 <= i < r@.len() {
        assert(r@[i] == order[i]);
        assert(order.contains(order[i]));
        assert(order.to_multiset().count(order[i]) > 0);
        assert(all@.to_multiset().count(order[i]) > 0);
    }
}

/// A replay that begins is shown under a key of its own, with its family and its target, and is
/// counted in its family alone.
pub proof fn law_replay_begins(
    tracker: &mut AgentActivityTracker,
    observability: &mut KadHarvestObservability,
    context: &HarvestReplayContext,
    payload_bytes: Option<u32>,
    now: Timestamp,
    r: (String, AgentActivitySnapshot),
)
    requires
        old(tracker).wf(),
        old(observability).passive_keyword_replay.started_cycles < u64::MAX,
        old(observability).passive_source_replay.started_cycles < u64::MAX,
        old(observability).passive_notes_replay.started_cycles < u64::MAX,
        call_ensures(begin_passive_replay, (tracker, observability, context, payload_bytes, now), r),
    ensures
        final(tracker)@ == old(tracker)@.insert(r.0@, r.1),
        r.0@ == "passive_replay:"@ + ids::uuid_text(context.replay_id),
        r.1.state is PassiveHarvestReplay,
        r.1.since == now,
        r.1.last_error is None,
        r.1.query_or_target matches Some(t) && t@ == (match context.family {
            crate::types::HarvestFamily::Keyword => "Keyword"@,
            crate::types::HarvestFamily::Source => "Source"@,
            crate::types::HarvestFamily::Notes => "Notes"@,
        }) + " "@ + context.target@,
        final(observability).keyword_requests == old(observability).keyword_requests,
        final(observability).source_requests == old(observability).source_requests,
        final(observability).notes_requests == old(observability).notes_requests,
        context.family is Keyword ==> {
            &&& final(observability).passive_keyword_replay.started_cycles == old(observability).passive_keyword_replay.started_cycles + 1
            &&& final(observability).passive_keyword_replay.last_target == Some(context.target)
            &&& final(observability).passive_keyword_replay.last_started_at == Some(now)
        },
        context.family is Source ==> {
            &&& final(observability).passive_source_replay.started_cycles == old(observability).passive_source_replay.started_cycles + 1
            &&& final(observability).passive_source_replay.last_target == Some(context.target)
        },
        context.family is Notes ==> {
            &&& final(observability).passive_notes_replay.started_cycles == old(observability).passive_notes_replay.started_cycles + 1
            &&& final(observability).passive_notes_replay.last_target == Some(context.target)
        },
        !(context.family is Keyword) ==> final(observability).passive_keyword_replay == old(observability).passive_keyword_replay,
        !(context.family is Source) ==> final(observability).passive_source_replay == old(observability).passive_source_replay,
        !(context.family is Notes) ==> final(observability).passive_notes_replay == old(observability).passive_notes_replay,
{
}

/// The record of a replay is about what was replayed, and says when, with how many results in how
/// many posts, and the last error of a post.
pub proof fn law_replay_record(
    observability: &mut KadHarvestObservability,
    context: &HarvestReplayContext,
    indexer_id: Uuid,
    started_at: Timestamp,
    completed_at: Timestamp,
    outcome: PassiveReplayRunOutcome,
    r: HarvestReplayRecord,
)
    requires
        old(observability).replay(context.family).completed_cycles < u64::MAX,
        old(observability).replay(context.family).emitted_results + outcome.result_count <= u64::MAX,
        old(observability).replay(context.family).posted_batches + outcome.batch_count <= u64::MAX,
        old(observability).replay(context.family).widened_cycles < u64::MAX,
        outcome.result_count <= u32::MAX,
        outcome.batch_count <= u32::MAX,
        call_ensures(
            complete_passive_replay,
            (observability, context, indexer_id, started_at, completed_at, outcome),
            r,
        ),
    ensures
        r.replay_id == context.replay_id,
        r.indexer_id == indexer_id,
        r.family == context.family,
        r.logical_key == context.logical_key,
        r.target == context.target,
        r.start_position == context.start_position,
        r.size == context.size,
        r.restrictive_payload_hex == context.restrictive_payload_hex,
        r.started_at == started_at,
        r.completed_at == completed_at,
        r.result_count == outcome.result_count,
        r.batch_count == outcome.batch_count,
        r.error == outcome.last_post_error,
        context.family is Keyword ==> {
            &&& final(observability).passive_keyword_replay.emitted_results == old(observability).passive_keyword_replay.emitted_results + outcome.result_count
            &&& final(observability).passive_keyword_replay.completed_cycles == old(observability).passive_keyword_replay.completed_cycles + 1
            &&& final(observability).passive_source_replay == old(observability).passive_source_replay
            &&& final(observability).passive_notes_replay == old(observability).passive_notes_replay
        },
{
}

/// A replay that has ended is shown no longer; the agent is degraded exactly where a post failed,
/// and then shows what was replayed and the error.
pub proof fn law_replay_finishes(
    tracker: &mut AgentActivityTracker,
    key: &str,
    snapshot: AgentActivitySnapshot,
    last_post_error: Option<String>,
    now: Timestamp,
    other: Seq<char>,
)
    requires
        old(tracker).wf(),
        call_ensures(finish_passive_replay, (tracker, key, snapshot, last_post_error, now), ()),
    ensures
        !final(tracker)@.contains_key(key@),
        other != key@ ==> final(tracker)@.contains_key(other) == old(tracker)@.contains_key(other),
        other != key@ ==> final(tracker)@[other] == old(tracker)@[other],
        final(tracker).degraded is Some <==> last_post_error is Some,
        final(tracker).degraded matches Some(shown) ==> {
            &&& shown.state is Degraded
            &&& shown.last_error == last_post_error
            &&& shown.last_update_at == now
            &&& shown.query_or_target == snapshot.query_or_target
            &&& shown.since == snapshot.since
        },
{
}

/// While harvested searches are handed over, the tracker shows so with the indexer's identity; at
/// the end it is shown no longer, and the agent is degraded exactly where that failed.
pub proof fn law_flush_is_shown(
    begun: &mut AgentActivityTracker,
    ended: &mut AgentActivityTracker,
    indexer_id: Uuid,
    error: Option<String>,
    now: Timestamp,
)
    requires
        old(begun).wf(),
        old(ended).wf(),
        call_ensures(begin_snoop_flush, (begun, indexer_id, now), ()),
        call_ensures(end_snoop_flush, (ended, error, now), ()),
    ensures
        final(begun)@.contains_key("flushing_snoops"@),
        final(begun)@["flushing_snoops"@].state is FlushingSnoops,
        final(begun)@["flushing_snoops"@].query_or_target matches Some(t) && t@ == "indexer="@
            + ids::uuid_text(indexer_id),
        final(begun)@["flushing_snoops"@].since == now,
        final(begun)@.remove("flushing_snoops"@) =~= old(begun)@.remove("flushing_snoops"@),
        final(ended)@ == old(ended)@.remove("flushing_snoops"@),
        error is None ==> final(ended).degraded is None,
        error matches Some(text) ==> (final(ended).degraded matches Some(shown) && shown.state is Degraded
            && shown.last_error == Some(text) && shown.last_update_at == now && (shown.query_or_target matches Some(
            what,
        ) && what@ == "snoop flush"@)),
{
}

} // verus!
