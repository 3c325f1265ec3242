use overlord_agent::activity::{
    active_ed2k_download_key, active_search_key, activity_precedence, new_activity_snapshot,
    passive_replay_activity_context, passive_replay_key, publish_activity_key,
    runtime_activity_error, search_activity_context, AgentActivityTracker,
};
use overlord_agent::background::{
    begin_bootstrap, begin_passive_replay, begin_snoop_flush, complete_passive_replay,
    end_snoop_flush, finish_bootstrap, finish_passive_replay, hello_intro_contacts, interval_secs,
    intro_candidates, mark_introduced, record_bootstrap_failure, works_now, NodesSnapshot,
    SyntheticDrip,
};
use overlord_agent::ed2k::{Ed2kHelloIdentity, Ed2kServerState};
use overlord_agent::ids::{Ed2kHash, Endpoint, IpAddr, Ipv4Addr, NodeId, SocketAddr, Timestamp, Uuid};
use overlord_agent::kad::{
    Contact, ContactType, SearchKeyReq, SearchNotesReq, SearchSourceReq, Tag, TagValue, KAD_VERSION,
    TAG_FILETYPE, TAG_KADMISCOPTIONS, TAG_SOURCEUPORT,
};
use overlord_agent::kad_firewall::{
    active_udp_firewall_ports, external_port_discovery_contacts, firewall_ack_identity,
    firewalled_check, firewalled_check_request, firewalled_response, helper_candidate_count,
    nat_external_udp_port, pick_udp_firewall_helpers, score_udp_firewall_helper,
    select_udp_firewall_helpers, udp_check_gate, udp_check_readiness, udp_check_requests,
    ActiveUdpFirewallPorts, FirewalledCheck, FirewalledRequest, NatMapping, TransportProtocol,
    UdpCheckGate, UdpCheckReadiness, UdpCheckRequest,
};
use overlord_agent::kad_hello::{
    add_contact_from_hello, build_kad_hello_request_tags, build_kad_hello_response_tags,
    parse_kad_hello_metadata, Hello, KadHelloPeerMetadata,
};
use overlord_agent::kad_unsolicited::{
    after_source_publish, bootstrap_response, handle_unsolicited_packet, lookup_response, KadAction,
    KadPacket, PublishRes,
};
use overlord_agent::passive_replay::{
    passive_replay_thin_result_threshold, passive_replay_tier_contact_limits,
    record_passive_replay_idle_for_worker,
};
use overlord_agent::passive_runtime::{
    passive_result_batch, PassiveBatchPosterOutcome, PassiveReplayRun, PassiveReplayRunOutcome,
    PassiveReplaySelection, ReplayKey, StreamDecision,
};
use overlord_agent::publish::{
    next_synthetic_publish_batch, synthetic_popular_hashes, PublishAttemptStats,
    SourcePublishSettings,
};
use overlord_agent::publish_runtime::{
    begin_publish_activity, build_keyword_publish_tags, catalog_replacements,
    fetch_coordinator_popular_hashes, finish_publish_activity, refresh_ed2k_shared_catalog, SeedError,
    SeedRun, SharedEntry,
};
use overlord_agent::search::{mock_file_record, post_search_batch, ActiveSearchRun, SearchRunStats};
use overlord_agent::service::{
    begin_reconfigure, begin_search_activity, finish_reconfigure, finish_search_activity,
    map_rpc_observability, reported_publish_observability, RpcObservabilitySnapshot, search_ending, search_route, ActiveSearches, SearchEnding,
    SearchRefusal, SearchRoute,
};
use overlord_agent::lifecycle::NetworkingConfigApplyOutcome;
use overlord_agent::types::{
    AgentActivityState, AgentLogFileStatus, HarvestFamily, HashType, KadHarvestObservability,
    KadPassiveReplayTierSummary, KadPublishObservability, KadRpcTrackerBucketObservability,
    KadRpcWorkClassObservability, PopularHash, Protocol, PublishSeedSource,
    SearchEventStatus, SearchJob, SearchKind,
};

fn time(secs: i64) -> Timestamp {
    Timestamp { secs, nanos: 0 }
}

fn peer(last: u8, port: u16) -> SocketAddr {
    SocketAddr { ip: IpAddr::V4(Ipv4Addr::new(10, 0, 0, last)), port }
}

fn contact(last: u8) -> Contact {
    Contact {
        id: NodeId::from_bytes([last; 16]),
        ip: Ipv4Addr::new(10, 0, 0, last),
        udp_port: 4672,
        tcp_port: 4662,
        kad_version: 9,
        contact_type: ContactType::Fresh,
        verified: false,
        tcp_firewalled: true,
        udp_firewalled: true,
        udp_key: 0,
    }
}

fn idle_tracker() -> AgentActivityTracker {
    let mut tracker = AgentActivityTracker::new(time(0));
    tracker.leave("starting", time(1));
    tracker
}

#[test]
fn the_highest_activity_is_shown() {
    let mut tracker = AgentActivityTracker::new(time(0));
    assert_eq!(tracker.current_snapshot(None, time(1)).state, AgentActivityState::Starting);
    tracker.enter("a".to_string(), new_activity_snapshot(AgentActivityState::Publishing, time(5)));
    tracker.enter("b".to_string(), new_activity_snapshot(AgentActivityState::Downloading, time(2)));
    tracker.enter("c".to_string(), new_activity_snapshot(AgentActivityState::Downloading, time(3)));
    let shown = tracker.current_snapshot(Some("x".to_string()), time(9));
    assert_eq!(shown.state, AgentActivityState::Downloading);
    assert_eq!(shown.since, time(3));
    tracker.leave("c", time(10));
    tracker.leave("b", time(10));
    assert_eq!(tracker.current_snapshot(None, time(9)).state, AgentActivityState::Publishing);
    tracker.leave("a", time(11));
    tracker.leave("starting", time(12));
    assert_eq!(tracker.idle_since, time(12));
    let idle = tracker.current_snapshot(None, time(20));
    assert_eq!(idle.state, AgentActivityState::Idle);
    assert_eq!(idle.since, time(12));
    assert_eq!(idle.last_update_at, time(20));
    let degraded = tracker.current_snapshot(Some("no route".to_string()), time(20));
    assert_eq!(degraded.state, AgentActivityState::Degraded);
    assert_eq!(degraded.last_error.as_deref(), Some("no route"));
}

#[test]
fn states_have_distinct_ranks() {
    let states = [
        AgentActivityState::Idle,
        AgentActivityState::Starting,
        AgentActivityState::Bootstrapping,
        AgentActivityState::FlushingSnoops,
        AgentActivityState::Publishing,
        AgentActivityState::PassiveHarvestReplay,
        AgentActivityState::ActiveSearch,
        AgentActivityState::Downloading,
        AgentActivityState::Reconfiguring,
        AgentActivityState::Degraded,
    ];
    let ranks: Vec<u8> = states.iter().map(|state| activity_precedence(*state)).collect();
    assert_eq!(ranks, (0..10u8).collect::<Vec<u8>>());
}

#[test]
fn progress_and_errors_reach_only_what_is_under_way() {
    let mut tracker = idle_tracker();
    tracker.update_progress("gone", Some(1), Some(2), time(3));
    tracker.update_error("gone", "x".to_string(), time(3));
    assert!(tracker.active.is_empty());
    tracker.enter("a".to_string(), new_activity_snapshot(AgentActivityState::Publishing, time(2)));
    tracker.update_progress("a", Some(1), Some(2), time(3));
    tracker.update_error("a", "x".to_string(), time(4));
    let shown = tracker.current_snapshot(None, time(9));
    assert_eq!(shown.progress_current, Some(1));
    assert_eq!(shown.progress_total, Some(2));
    assert_eq!(shown.last_error.as_deref(), Some("x"));
    assert_eq!(shown.last_update_at, time(4));
}

fn job(kind: SearchKind) -> SearchJob {
    SearchJob {
        job_id: Uuid::from_u128(1),
        protocol: Protocol::Kad2,
        kind,
        query: Some("torino".to_string()),
        file_hash: Some(HashType::Ed2k("a\"b".to_string())),
        file_size: Some(5),
        callback_url: String::new(),
    }
}

#[test]
fn activities_are_named() {
    let id = Uuid::from_u128(1);
    assert_eq!(active_search_key(id), "active_search:00000000-0000-0000-0000-000000000001");
    assert_eq!(passive_replay_key(id), "passive_replay:00000000-0000-0000-0000-000000000001");
    assert_eq!(active_ed2k_download_key("ff"), "ed2k_download:ff");
    let at = Timestamp { secs: 2, nanos: 34_000_000 };
    assert!(publish_activity_key(PublishSeedSource::ManualApi, at).ends_with(":2034"));
    assert_eq!(passive_replay_activity_context(HarvestFamily::Notes, "t"), "Notes t");
    assert_eq!(search_activity_context(&job(SearchKind::Keyword)).as_deref(), Some("torino"));
    let mut source = job(SearchKind::Source);
    assert_eq!(search_activity_context(&source), Some(format!("Ed2k({:?})", "a\"b")));
    source.file_hash = Some(HashType::Ed2k("ff".to_string()));
    assert_eq!(search_activity_context(&source).as_deref(), Some("Ed2k(\"ff\")"));
    source.file_hash = None;
    assert_eq!(search_activity_context(&source).as_deref(), Some("size=5"));
    source.file_size = None;
    assert_eq!(search_activity_context(&source), None);
}

#[test]
fn interface_errors_come_before_nat_errors() {
    let control = Some("control".to_string());
    let p2p = Some("p2p".to_string());
    let nat = Some("nat".to_string());
    assert_eq!(runtime_activity_error(&control, &p2p, &nat), control);
    assert_eq!(runtime_activity_error(&None, &p2p, &nat), p2p);
    assert_eq!(runtime_activity_error(&None, &None, &nat), nat);
    assert_eq!(runtime_activity_error(&None, &None, &None), None);
}

#[test]
fn bootstrapping_is_shown_until_it_succeeds() {
    let mut tracker = idle_tracker();
    let mut publish = KadPublishObservability::default();
    begin_bootstrap(&mut tracker, time(2));
    record_bootstrap_failure(&mut tracker, "no peers".to_string(), time(3));
    let shown = tracker.current_snapshot(None, time(4));
    assert_eq!(shown.state, AgentActivityState::Bootstrapping);
    assert_eq!(shown.query_or_target.as_deref(), Some("kad dht"));
    assert_eq!(shown.last_error.as_deref(), Some("no peers"));
    finish_bootstrap(&mut tracker, &mut publish, time(5));
    assert_eq!(publish.synthetic_drip_queue_depth, Some(40));
    assert_eq!(tracker.current_snapshot(None, time(6)).state, AgentActivityState::Idle);
}

#[test]
fn downloads_hold_the_drip_up_for_a_while() {
    let mut drip = SyntheticDrip::new();
    assert!(!drip.tick(true, true, false));
    assert!(!drip.tick(false, false, false));
    assert!(drip.tick(false, true, false));
    for _ in 0..7 {
        assert!(!drip.tick(false, true, true));
    }
    assert!(drip.tick(false, true, true));
    assert!(drip.tick(false, true, true));
    assert!(drip.tick(false, true, false));
    assert!(!drip.tick(false, true, true));
    assert!(works_now(false, true));
    assert!(!works_now(true, true));
    assert_eq!(interval_secs(0), 1);
    assert_eq!(interval_secs(7), 7);
}

#[test]
fn the_drip_waits_for_the_coordinator() {
    let mut drip = SyntheticDrip::new();
    let mut publish = KadPublishObservability::default();
    let batch = drip.next_batch(false, 3, &mut publish).unwrap();
    assert_eq!(batch.len(), 3);
    assert_eq!(publish.synthetic_drip_queue_depth, Some(37));
    assert!(drip.next_batch(true, 3, &mut publish).is_none());
    assert_eq!(publish.synthetic_drip_queue_depth, Some(40));
    let next = drip.next_batch(false, 1, &mut publish).unwrap();
    assert_eq!(next[0], synthetic_popular_hashes()[3]);
}

#[test]
fn the_rotation_covers_every_file_once() {
    let mut cursor = 0;
    let mut seen = Vec::new();
    for _ in 0..8 {
        seen.extend(next_synthetic_publish_batch(&mut cursor, 5));
    }
    assert_eq!(seen, synthetic_popular_hashes());
    assert_eq!(cursor, 0);
    assert_eq!(next_synthetic_publish_batch(&mut cursor, 99).len(), 40);
}

#[test]
fn the_routing_table_is_stored_when_it_changes_or_is_due() {
    let mut snapshot = NodesSnapshot { contact_count: 5 };
    assert!(snapshot.should_persist(6, 0, 60));
    assert!(!snapshot.should_persist(5, 59, 60));
    assert!(snapshot.should_persist(5, 60, 60));
    assert!(snapshot.should_persist(5, 1, 0));
    snapshot.stored(6);
    assert!(!snapshot.should_persist(6, 0, 60));
}

#[test]
fn contacts_are_introduced_once() {
    let contacts = vec![
        contact(1),
        contact(2),
        Contact { udp_port: 0, ..contact(3) },
        Contact { kad_version: 5, ..contact(4) },
        contact(5),
    ];
    let local = IpAddr::V4(Ipv4Addr::new(10, 0, 0, 5));
    let mut introduced = Vec::new();
    assert_eq!(intro_candidates(&contacts, local, &introduced), vec![contact(1), contact(2)]);
    mark_introduced(&mut introduced, &contact(1));
    mark_introduced(&mut introduced, &contact(1));
    assert_eq!(introduced, vec![peer(1, 4672)]);
    assert_eq!(hello_intro_contacts(&contacts, local, &introduced, 0), vec![contact(2)]);
    assert_eq!(hello_intro_contacts(&contacts, local, &introduced, 9), vec![contact(2)]);
}

#[test]
fn introductions_are_left_to_chance() {
    let contacts: Vec<Contact> = (1..=60).map(contact).collect();
    let local = IpAddr::V4(Ipv4Addr::new(10, 0, 1, 1));
    let drawn = hello_intro_contacts(&contacts, local, &Vec::new(), 60);
    assert_ne!(drawn, contacts);
    let mut ips: Vec<u8> = drawn.iter().map(|contact| contact.ip.d).collect();
    ips.sort();
    assert_eq!(ips, (1..=60).collect::<Vec<u8>>());
    assert_eq!(hello_intro_contacts(&contacts, local, &Vec::new(), 3).len(), 3);
}

fn selection() -> PassiveReplaySelection {
    PassiveReplaySelection::Keyword {
        logical_key: "key".to_string(),
        request: SearchKeyReq {
            target: NodeId::from_bytes([0x11; 16]),
            start_position: 2,
            restrictive_payload: vec![0xAB],
        },
    }
}

#[test]
fn replays_are_shown_counted_and_recorded() {
    let mut tracker = idle_tracker();
    let mut harvest = KadHarvestObservability::default();
    let context = selection().replay_context(Uuid::from_u128(7));
    assert_eq!(context.target, "11".repeat(16));
    assert_eq!(context.restrictive_payload_hex.as_deref(), Some("ab"));
    let bytes = selection().restrictive_payload_bytes();
    assert_eq!(bytes, Some(1));
    let (key, snapshot) = begin_passive_replay(&mut tracker, &mut harvest, &context, bytes, time(2));
    assert_eq!(harvest.passive_keyword_replay.started_cycles, 1);
    assert_eq!(snapshot.query_or_target, Some(format!("Keyword {}", "11".repeat(16))));
    let record = complete_passive_replay(
        &mut harvest,
        &context,
        Uuid::from_u128(8),
        time(2),
        time(3),
        PassiveReplayRunOutcome {
            result_count: 4,
            batch_count: 1,
            tier_summaries: vec![KadPassiveReplayTierSummary { responder_ceiling: 10, result_count: 4 }],
            last_post_error: Some("refused".to_string()),
        },
    );
    assert_eq!(record.result_count, 4);
    assert_eq!(record.error.as_deref(), Some("refused"));
    assert_eq!(harvest.passive_keyword_replay.emitted_results, 4);
    finish_passive_replay(&mut tracker, &key, snapshot, record.error, time(4));
    let shown = tracker.current_snapshot(None, time(5));
    assert_eq!(shown.state, AgentActivityState::Degraded);
    assert_eq!(shown.last_error.as_deref(), Some("refused"));
    assert_eq!(shown.last_update_at, time(4));
}

#[test]
fn other_replays_carry_their_size() {
    let source = PassiveReplaySelection::Source {
        logical_key: "s".to_string(),
        request: SearchSourceReq { target: NodeId::from_bytes([2; 16]), start_position: 0, size: 9 },
    };
    let context = source.replay_context(Uuid::from_u128(1));
    assert_eq!(context.family, HarvestFamily::Source);
    assert_eq!(context.start_position, Some(0));
    assert_eq!(context.size, Some(9));
    assert_eq!(source.restrictive_payload_bytes(), None);
    let notes = PassiveReplaySelection::Notes {
        logical_key: "n".to_string(),
        request: SearchNotesReq { target: NodeId::from_bytes([2; 16]), size: 9 },
    };
    let context = notes.replay_context(Uuid::from_u128(1));
    assert_eq!(context.family, HarvestFamily::Notes);
    assert_eq!(context.start_position, None);
    let batch = passive_result_batch(Uuid::from_u128(3), &context, Vec::new());
    assert_eq!(batch.job_id, None);
    assert_eq!(batch.harvest_context, Some(context));
}

fn record() -> overlord_agent::types::FileRecord {
    mock_file_record("torino", "1.2.3.4:5".to_string())
}

#[test]
fn keyword_replays_widen_until_they_have_enough() {
    let mut run = PassiveReplayRun::new(HarvestFamily::Keyword, 30, 0);
    let tiers = passive_replay_tier_contact_limits(30);
    assert_eq!(run.tiers, tiers);
    assert_eq!(run.next_tier(), Some(tiers[0]));
    let file = ReplayKey::File(Ed2kHash::from_bytes([1; 16]));
    assert!(run.accept(file, Some(record()), 0).is_none());
    assert!(run.accept(file, Some(record()), 0).is_none());
    assert_eq!(run.result_count, 1);
    assert_eq!(run.after_result(None), StreamDecision::Continue);
    run.end_tier();
    assert_eq!(run.next_tier(), tiers.get(1).copied());
    let other = ReplayKey::File(Ed2kHash::from_bytes([2; 16]));
    let batch = run.accept(other, Some(record()), 300).unwrap();
    assert_eq!(batch.len(), 2);
    for byte in 3..=10u8 {
        let file = ReplayKey::File(Ed2kHash::from_bytes([byte; 16]));
        assert!(run.accept(file, Some(record()), 300).is_none());
    }
    run.end_tier();
    assert_eq!(run.result_count, passive_replay_thin_result_threshold(HarvestFamily::Keyword));
    assert_eq!(run.next_tier(), None);
    assert_eq!(run.take_rest().unwrap().len(), 8);
    assert!(run.take_rest().is_none());
    let mut posted = PassiveBatchPosterOutcome::new();
    posted.record(None);
    posted.record(Some("late".to_string()));
    let outcome = run.finish(Some("rest".to_string()), posted);
    assert_eq!(outcome.result_count, 10);
    assert_eq!(outcome.batch_count, 1);
    assert_eq!(outcome.last_post_error.as_deref(), Some("late"));
    let results: Vec<u32> = outcome.tier_summaries.iter().map(|tier| tier.result_count).collect();
    assert_eq!(results, vec![1, 9]);
}

#[test]
fn source_replays_are_cancelled_when_they_have_enough() {
    let mut run = PassiveReplayRun::new(HarvestFamily::Source, 10, 2);
    for port in 1..=2 {
        let key = ReplayKey::Peer(Ipv4Addr::new(1, 2, 3, 4), port, 0);
        assert!(run.accept(key, Some(record()), 10_000).is_none());
    }
    assert_eq!(run.after_result(None), StreamDecision::Cancel);
    let mut run = PassiveReplayRun::new(HarvestFamily::Notes, 10, 0);
    assert!(run.accept(ReplayKey::Author(Ed2kHash::from_bytes([1; 16])), None, 0).is_none());
    assert_eq!(run.result_count, 0);
    assert_eq!(run.after_result(Some("closed".to_string())), StreamDecision::Stop);
    assert_eq!(
        run.finish(None, PassiveBatchPosterOutcome::new()).last_post_error.as_deref(),
        Some("closed")
    );
}

#[test]
fn full_batches_are_handed_over() {
    let mut run = PassiveReplayRun::new(HarvestFamily::Source, 10, 1_000);
    for port in 1..200u16 {
        let key = ReplayKey::Peer(Ipv4Addr::new(1, 2, 3, 4), port, 0);
        assert!(run.accept(key, Some(record()), 0).is_none());
    }
    let key = ReplayKey::Peer(Ipv4Addr::new(1, 2, 3, 4), 200, 0);
    assert_eq!(run.accept(key, Some(record()), 0).unwrap().len(), 200);
}

#[test]
fn idle_workers_are_counted() {
    let mut harvest = KadHarvestObservability::default();
    record_passive_replay_idle_for_worker(&mut harvest, Some(HarvestFamily::Source), time(1));
    record_passive_replay_idle_for_worker(&mut harvest, None, time(2));
    assert_eq!(harvest.passive_source_replay.idle_cycles, 2);
    assert_eq!(harvest.passive_keyword_replay.idle_cycles, 1);
    assert_eq!(harvest.passive_notes_replay.last_idle_at, Some(time(2)));
}

#[test]
fn flushes_are_shown() {
    let mut tracker = idle_tracker();
    begin_snoop_flush(&mut tracker, Uuid::from_u128(1), time(2));
    let shown = tracker.current_snapshot(None, time(3));
    assert_eq!(shown.state, AgentActivityState::FlushingSnoops);
    assert_eq!(
        shown.query_or_target.as_deref(),
        Some("indexer=00000000-0000-0000-0000-000000000001")
    );
    end_snoop_flush(&mut tracker, Some("down".to_string()), time(4));
    let shown = tracker.current_snapshot(None, time(5));
    assert_eq!(shown.state, AgentActivityState::Degraded);
    assert_eq!(shown.query_or_target.as_deref(), Some("snoop flush"));
    begin_snoop_flush(&mut tracker, Uuid::from_u128(1), time(6));
    end_snoop_flush(&mut tracker, None, time(7));
    assert_eq!(tracker.current_snapshot(None, time(8)).state, AgentActivityState::Idle);
}

#[test]
fn a_search_runs_once_at_a_time() {
    let mut active = ActiveSearches::new();
    let job_id = Uuid::from_u128(1);
    let refusal = active.begin(job_id, false, false).unwrap_err();
    assert_eq!(refusal.message(), "agent networking is waiting for interface selection");
    let refusal = active.begin(job_id, true, false).unwrap_err();
    assert_eq!(
        refusal.message(),
        "invalid search callback url for job 00000000-0000-0000-0000-000000000001"
    );
    assert_eq!(active.cancel(job_id), Err(SearchRefusal::NotActive { job_id }));
    assert!(active.begin(job_id, true, true).is_ok());
    let refusal = active.begin(job_id, true, true).unwrap_err();
    assert_eq!(
        refusal.message(),
        "search 00000000-0000-0000-0000-000000000001 is already active"
    );
    assert!(active.cancel(job_id).is_ok());
    active.finish(job_id);
    let refusal = active.cancel(job_id).unwrap_err();
    assert_eq!(refusal.message(), "search 00000000-0000-0000-0000-000000000001 is not active");
    assert!(active.begin(job_id, true, true).is_ok());
    assert_eq!(active.drain(), vec![job_id]);
    assert!(active.drain().is_empty());
}

#[test]
fn searches_are_routed() {
    assert_eq!(search_route(Protocol::Kad2, SearchKind::Notes), SearchRoute::KadNotes);
    assert_eq!(search_route(Protocol::Ed2k, SearchKind::Keyword), SearchRoute::Ed2kKeyword);
    assert_eq!(search_route(Protocol::Ed2k, SearchKind::Notes), SearchRoute::Ed2kNotes);
}

#[test]
fn endings_say_how_a_search_ended() {
    let stats = SearchRunStats { result_count: 3, batch_count: 1 };
    assert_eq!(
        search_ending(Ok(stats), false),
        SearchEnding { status: SearchEventStatus::Completed, stats, error: None }
    );
    assert_eq!(
        search_ending(Ok(stats), true),
        SearchEnding { status: SearchEventStatus::Cancelled, stats, error: None }
    );
    let none = SearchRunStats::default();
    assert_eq!(
        search_ending(Err("x".to_string()), false),
        SearchEnding { status: SearchEventStatus::Failed, stats: none, error: Some("x".to_string()) }
    );
    assert_eq!(
        search_ending(Err("x".to_string()), true),
        SearchEnding { status: SearchEventStatus::Cancelled, stats: none, error: None }
    );
}

#[test]
fn searches_are_shown() {
    let mut tracker = idle_tracker();
    let (key, snapshot) = begin_search_activity(&mut tracker, &job(SearchKind::Keyword), time(2));
    let shown = tracker.current_snapshot(None, time(3));
    assert_eq!(shown.state, AgentActivityState::ActiveSearch);
    assert_eq!(shown.kind, Some(SearchKind::Keyword));
    finish_search_activity(&mut tracker, &key, snapshot, Some("x".to_string()), time(4));
    let shown = tracker.current_snapshot(None, time(5));
    assert_eq!(shown.state, AgentActivityState::Degraded);
    assert_eq!(shown.query_or_target.as_deref(), Some("torino"));
}

#[test]
fn results_are_posted_in_batches() {
    let mut run = ActiveSearchRun::new(Uuid::from_u128(1), Uuid::from_u128(2));
    for _ in 0..24 {
        assert!(run.accept(record()).is_none());
    }
    let post = run.accept(record()).unwrap();
    assert_eq!(post.batch.files.len(), 25);
    assert_eq!(post.event.result_count, Some(25));
    assert_eq!(post.event.batch_count, Some(1));
    assert!(run.accept(record()).is_none());
    assert_eq!(run.flush().unwrap().event.result_count, Some(26));
    assert!(run.flush().is_none());
    assert_eq!(run.stats, SearchRunStats { result_count: 26, batch_count: 2 });
    assert_eq!(run.stats.result_count as usize, run.seen);
    assert!(!run.wants_mock(false, true));
}

#[test]
fn empty_searches_may_post_a_stand_in() {
    let mut run = ActiveSearchRun::new(Uuid::from_u128(1), Uuid::from_u128(2));
    assert!(run.flush().is_none());
    assert!(run.wants_mock(false, true));
    assert!(!run.wants_mock(true, true));
    assert!(!run.wants_mock(false, false));
    let post = run.post_mock("torino", "1.2.3.4:5".to_string()).unwrap();
    assert_eq!(post.batch.files, vec![record()]);
    assert_eq!(post.event.status, SearchEventStatus::BatchReceived);
    let mut stats = SearchRunStats::default();
    let post = post_search_batch(
        Uuid::from_u128(1),
        Uuid::from_u128(2),
        Protocol::Ed2k,
        vec![record(), record()],
        &mut stats,
    )
    .unwrap();
    assert_eq!(post.batch.protocol, Protocol::Ed2k);
    assert_eq!(stats, SearchRunStats { result_count: 2, batch_count: 1 });
}

#[test]
fn only_control_changes_take_a_restart() {
    let mut tracker = idle_tracker();
    begin_reconfigure(&mut tracker, Protocol::Kad2, time(2));
    assert_eq!(tracker.current_snapshot(None, time(3)).state, AgentActivityState::Reconfiguring);
    assert!(finish_reconfigure(
        &mut tracker,
        Ok(NetworkingConfigApplyOutcome::RestartRequired),
        time(4)
    ));
    assert!(!finish_reconfigure(
        &mut tracker,
        Ok(NetworkingConfigApplyOutcome::ReconciledInPlace),
        time(4)
    ));
    assert!(!finish_reconfigure(&mut tracker, Err("bad".to_string()), time(5)));
    let shown = tracker.current_snapshot(None, time(6));
    assert_eq!(shown.query_or_target.as_deref(), Some("config update"));
    assert_eq!(shown.last_error.as_deref(), Some("bad"));
}

fn popular(hash: &str) -> PopularHash {
    PopularHash {
        hash: HashType::Ed2k(hash.to_string()),
        canonical_name: "ubuntu linux.iso".to_string(),
        size: 5,
        source_count: 2,
    }
}

fn stats(acked: u32) -> PublishAttemptStats {
    PublishAttemptStats {
        closest_contacts_considered: 9,
        attempted_contacts: 5,
        acked_contacts: acked,
        timed_out_contacts: 1,
    }
}

#[test]
fn a_seeding_pass_adds_up_its_items() {
    let good = "ab".repeat(16);
    let mut run = SeedRun::begin(
        true,
        PublishSeedSource::Coordinator,
        vec![popular(&good), popular("nonsense")],
        false,
    )
    .unwrap_or_else(|_| panic!("the node is bootstrapped"));
    let settings = SourcePublishSettings { tcp_port: 41001, obfuscation_enabled: false };
    let plan = run.next_item(peer(1, 41000), settings).unwrap().unwrap();
    assert_eq!(plan.item_no, 1);
    assert_eq!(plan.file_hash, Ed2kHash::from_bytes([0xAB; 16]));
    assert_eq!(plan.file_target, NodeId::from_bytes([0xAB; 16]));
    assert_eq!(plan.keyword_tags, build_keyword_publish_tags(&popular(&good)));
    assert_eq!(
        plan.keyword_tags[3],
        Tag::new_short(TAG_FILETYPE, TagValue::String("Pro".to_string()))
    );
    assert!(plan.notes_tags.is_none());
    run.complete_item(Some(stats(2)), None, Some(stats(5)));
    let mut publish = KadPublishObservability::default();
    run.report_progress(&mut publish, time(3));
    assert_eq!(publish.latest_keyword_batch.as_ref().unwrap().acked_contacts, 2);
    assert_eq!(publish.keyword_counters.batches, 0);
    assert!(publish.latest_notes_batch.is_none());
    let error = run.next_item(peer(1, 41000), settings).unwrap().unwrap_err();
    assert_eq!(error.message(), "invalid Ed2k hash nonsense");
    run.complete_item(Some(stats(3)), Some(stats(1)), None);
    assert!(run.next_item(peer(1, 41000), settings).is_none());
    run.finish(&mut publish, time(4));
    assert_eq!(publish.keyword_counters.acked_contacts, 5);
    assert_eq!(publish.keyword_counters.published_items, 2);
    assert_eq!(publish.source_counters.attempted_contacts, 5);
    assert_eq!(publish.notes_counters.batches, 0);
    let log_file = AgentLogFileStatus {
        path: "p".to_string(),
        rotation: "daily".to_string(),
        max_files: 3,
        last_write_at: None,
    };
    let reported = reported_publish_observability(publish, 30, 2, log_file);
    assert_eq!(reported.keyword_counters.batches, 1);
    assert_eq!(reported.synthetic_drip_interval_secs, Some(30));
}

#[test]
fn seeding_takes_a_bootstrapped_node() {
    let error = match SeedRun::begin(false, PublishSeedSource::ManualApi, Vec::new(), true) {
        Ok(_) => panic!("the node is not bootstrapped"),
        Err(error) => error,
    };
    assert_eq!(error, SeedError::NotBootstrapped);
    assert_eq!(error.message(), "kad node is not bootstrapped yet");
}

#[test]
fn publishing_is_shown() {
    let mut tracker = idle_tracker();
    let key =
        begin_publish_activity(&mut tracker, PublishSeedSource::SyntheticFallback, 4, time(2));
    let shown = tracker.current_snapshot(None, time(3));
    assert_eq!(shown.state, AgentActivityState::Publishing);
    assert_eq!(shown.progress_total, Some(4));
    finish_publish_activity(
        &mut tracker,
        &key,
        PublishSeedSource::SyntheticFallback,
        Some("x".to_string()),
        time(4),
    );
    let shown = tracker.current_snapshot(None, time(5));
    assert_eq!(shown.state, AgentActivityState::Degraded);
    assert_eq!(shown.last_error.as_deref(), Some("x"));
}

#[test]
fn the_activity_of_a_pass_follows_its_items() {
    let mut tracker = AgentActivityTracker::new(time(1));
    tracker.leave("starting", time(1));
    let source = PublishSeedSource::ManualApi;
    let key = begin_publish_activity(&mut tracker, source, 2, time(2));
    let hash = "ab".repeat(16);
    let mut run = SeedRun::begin(true, source, vec![popular(&hash), popular(&hash)], false)
        .unwrap_or_else(|_| panic!("the node is bootstrapped"));
    run.complete_item(Some(stats(1)), None, None);
    run.report_activity(&mut tracker, &key, time(3));
    let shown = tracker.current_snapshot(None, time(4));
    assert_eq!(shown.progress_current, Some(1));
    assert_eq!(shown.progress_total, Some(2));
    assert_eq!(shown.last_update_at, time(3));
    run.report_activity(&mut tracker, "another", time(5));
    assert_eq!(tracker.current_snapshot(None, time(6)).last_update_at, time(3));
}

#[test]
fn the_counters_of_the_kad_node_are_shown() {
    let bucket = || KadRpcTrackerBucketObservability {
        bucket: "search".to_string(),
        accepted_requests: 7,
        tracker_drops: 2,
        tracker_massive_drops: 1,
    };
    let class = || KadRpcWorkClassObservability {
        class: "harvest".to_string(),
        max_outbound_pps: 12,
        sent_packets: 30,
        delayed_packets: 4,
        total_wait_millis: 90,
        last_sent_at: Some(time(5)),
    };
    let shown = map_rpc_observability(RpcObservabilitySnapshot {
        decode_failures: 3,
        global_max_outbound_pps: 50,
        tracker_buckets: vec![bucket()],
        response_opcodes: Vec::new(),
        work_classes: vec![class()],
    });
    assert_eq!(shown.decode_failures, 3);
    assert_eq!(shown.global_max_outbound_pps, 50);
    assert_eq!(shown.tracker_buckets, vec![bucket()]);
    assert!(shown.response_opcodes.is_empty());
    assert_eq!(shown.work_classes, vec![class()]);
}

#[test]
fn the_catalog_falls_back_to_synthetic_files() {
    assert!(fetch_coordinator_popular_hashes(Vec::new()).is_none());
    assert_eq!(fetch_coordinator_popular_hashes(vec![popular("a")]).unwrap().len(), 1);
    assert_eq!(catalog_replacements(&Vec::new()), synthetic_popular_hashes());
    assert_eq!(catalog_replacements(&vec![popular("a")]), vec![popular("a")]);
    let entry = |name: &str, hint: bool| SharedEntry {
        file_hash: Ed2kHash::from_bytes([1; 16]),
        file_name: name.to_string(),
        file_size: 1,
        compatibility_hint: hint,
    };
    let refreshed = refresh_ed2k_shared_catalog(
        vec![entry("kept", false), entry("old hint", true)],
        vec![entry("new hint", true)],
    );
    let names: Vec<&str> = refreshed.iter().map(|entry| entry.file_name.as_str()).collect();
    assert_eq!(names, vec!["kept", "new hint"]);
}

#[test]
fn external_ports_come_from_the_nat_first() {
    let mapping = |name: &str, protocol: TransportProtocol, external_port: u16| NatMapping {
        name: name.to_string(),
        protocol,
        external_port,
    };
    let mappings = vec![
        mapping("ed2k", TransportProtocol::Udp, 1),
        mapping("kad", TransportProtocol::Tcp, 2),
        mapping("kad", TransportProtocol::Udp, 3),
        mapping("kad", TransportProtocol::Udp, 4),
    ];
    assert_eq!(nat_external_udp_port(&mappings), Some(3));
    let ports = active_udp_firewall_ports(&mappings, 41000, 9);
    assert_eq!(ports.expected_ports(), vec![41000, 3]);
    let ports = active_udp_firewall_ports(&Vec::new(), 41000, 0);
    assert_eq!(ports.expected_ports(), vec![41000]);
    assert_eq!(
        active_udp_firewall_ports(&Vec::new(), 41000, 41000).expected_ports(),
        vec![41000]
    );
}

#[test]
fn helpers_are_the_best_of_every_address() {
    let active = Contact { contact_type: ContactType::Active, ..contact(1) };
    let verified = Contact { verified: true, ..contact(2) };
    let twin = Contact { udp_key: 7, ..contact(1) };
    assert_eq!(score_udp_firewall_helper(&active), 4096 + 9);
    assert_eq!(score_udp_firewall_helper(&verified), 2048 + 9);
    assert_eq!(score_udp_firewall_helper(&twin), 256 + 9);
    let candidates = vec![contact(3), twin, verified, active, contact(4)];
    assert_eq!(
        pick_udp_firewall_helpers(&candidates, 3),
        vec![active, verified, contact(3)]
    );
    assert_eq!(pick_udp_firewall_helpers(&candidates, 0), vec![active]);
    let local = IpAddr::V4(Ipv4Addr::new(10, 0, 0, 2));
    let dead = Contact { contact_type: ContactType::Dead, ..contact(7) };
    let selected = select_udp_firewall_helpers(&vec![dead, verified, active, twin], local, 9);
    assert_eq!(selected, vec![active]);
    assert_eq!(helper_candidate_count(3), 12);
    assert_eq!(helper_candidate_count(usize::MAX), usize::MAX);
}

#[test]
fn ports_are_asked_for_from_a_few_contacts() {
    let contacts: Vec<Contact> = (1..=20).map(contact).collect();
    let asked = external_port_discovery_contacts(&contacts, Ipv4Addr::new(10, 0, 0, 1));
    assert_eq!(asked.len(), 8);
    assert!(asked.iter().all(|contact| contact.ip.d != 1));
}

#[test]
fn firewall_checks_are_asked_and_answered() {
    let reply = firewalled_response(peer(7, 4672), 4662).unwrap();
    assert_eq!(reply.ip, 0x0A00_0007);
    assert_eq!(reply.probe, Endpoint { ip: Ipv4Addr::new(10, 0, 0, 7), port: 4662 });
    let v6 = SocketAddr { ip: IpAddr::V6(1), port: 1 };
    assert!(firewalled_response(v6, 4662).is_none());
    assert_eq!(firewalled_check(peer(7, 1), false), FirewalledCheck::NoteOpen);
    assert_eq!(firewalled_check(peer(7, 1), true), FirewalledCheck::Ask);
    assert_eq!(firewalled_check(v6, true), FirewalledCheck::Skip);
    let hash = Ed2kHash::from_bytes([3; 16]);
    assert_eq!(
        firewalled_check_request(7, 4662, hash, true),
        FirewalledRequest::Modern { tcp_port: 4662, user_hash: hash, connect_options: 3 }
    );
    assert_eq!(
        firewalled_check_request(6, 4662, hash, true),
        FirewalledRequest::Legacy { tcp_port: 4662 }
    );
    assert_eq!(firewall_ack_identity(hash, 1, 2, false).connect_options, 0);
}

#[test]
fn udp_checks_wait_until_they_can_succeed() {
    let bare = Ed2kHelloIdentity {
        user_hash: [0; 16],
        client_id: 0,
        tcp_port: 1,
        udp_port: 2,
        server_ip: 0,
        server_port: 0,
        connect_options: 0,
        direct_udp_callback: false,
    };
    let ready = Ed2kHelloIdentity { client_id: 1, server_ip: 2, server_port: 3, ..bare };
    assert_eq!(udp_check_gate(false, &ready), UdpCheckGate::AwaitBootstrap);
    assert_eq!(udp_check_gate(true, &bare), UdpCheckGate::AwaitServer);
    assert_eq!(udp_check_gate(true, &ready), UdpCheckGate::Ready);
    let bind_ip = Ipv4Addr::new(10, 0, 0, 9);
    assert_eq!(udp_check_readiness(&Vec::new(), IpAddr::V4(bind_ip)), UdpCheckReadiness::NoHelpers);
    assert_eq!(
        udp_check_readiness(&vec![contact(1)], IpAddr::V6(1)),
        UdpCheckReadiness::UnsupportedBinding
    );
    assert_eq!(
        udp_check_readiness(&vec![contact(1)], IpAddr::V4(bind_ip)),
        UdpCheckReadiness::Ready { bind_ip }
    );
    let ports = ActiveUdpFirewallPorts { internal: 41000, external: 50000 };
    assert_eq!(
        udp_check_requests(&vec![contact(1)], ports),
        vec![UdpCheckRequest {
            helper: Endpoint { ip: Ipv4Addr::new(10, 0, 0, 1), port: 4662 },
            internal_udp_port: 41000,
            external_udp_port: 50000,
        }]
    );
}

#[test]
fn server_sessions_have_an_endpoint() {
    let endpoint = Some(peer(1, 4661));
    let connected = Ed2kServerState { connected: true, endpoint, client_id: Some(0x0100_0000) };
    assert_eq!(connected.session_endpoint(), endpoint);
    assert_eq!(connected.tcp_firewalled(), Some(false));
    let gone = Ed2kServerState { connected: false, ..connected };
    assert_eq!(gone.session_endpoint(), None);
}

#[test]
fn hello_tags_are_read_back() {
    for bits in 0..8u8 {
        let (udp, tcp, ack) = (bits & 1 != 0, bits & 2 != 0, bits & 4 != 0);
        let response = parse_kad_hello_metadata(&build_kad_hello_response_tags(41000, udp, tcp, ack));
        assert_eq!(
            response,
            KadHelloPeerMetadata {
                hello_source_udp_port: Some(41000),
                udp_firewalled: udp,
                tcp_firewalled: tcp,
                requests_hello_res_ack: ack,
            }
        );
        let request =
            parse_kad_hello_metadata(&build_kad_hello_request_tags(41000, true, udp, tcp, ack));
        assert_eq!(request.hello_source_udp_port, if bits == 0 { Some(41000) } else { None });
        assert_eq!(request.requests_hello_res_ack, ack);
    }
    let odd = parse_kad_hello_metadata(&[
        Tag::new_short(TAG_SOURCEUPORT, TagValue::U16(0)),
        Tag::new_short(TAG_KADMISCOPTIONS, TagValue::UInt(256)),
    ]);
    assert_eq!(odd, KadHelloPeerMetadata::default());
}

fn hello(version: u8, bits: u8) -> Hello {
    Hello {
        node_id: NodeId::from_bytes([6; 16]),
        tcp_port: 4662,
        version,
        tags: vec![Tag::new_short(TAG_KADMISCOPTIONS, TagValue::U8(bits))],
    }
}

#[test]
fn greetings_add_contacts() {
    let greeting = hello(8, 0x04);
    let (said, added) =
        add_contact_from_hello(peer(2, 4672), greeting.node_id, 4662, 8, Some(5), &greeting.tags);
    assert!(said.requests_hello_res_ack);
    let added = added.unwrap();
    assert_eq!(added.udp_port, 4672);
    assert_eq!(added.udp_key, Some(5));
    let (said, _) =
        add_contact_from_hello(peer(2, 4672), greeting.node_id, 4662, 7, None, &greeting.tags);
    assert!(!said.requests_hello_res_ack);
    let walled = hello(8, 0x01);
    let (_, added) =
        add_contact_from_hello(peer(2, 4672), walled.node_id, 4662, 8, None, &walled.tags);
    assert!(added.is_none());
}

fn answer(packet: KadPacket, key: Option<u32>) -> Vec<KadAction> {
    handle_unsolicited_packet(&packet, peer(2, 4672), key, false, time(3))
}

#[test]
fn packets_are_answered() {
    assert_eq!(answer(KadPacket::Ping, None), vec![KadAction::SendPong { udp_port: 4672 }]);
    assert!(answer(KadPacket::FindBuddyReq, None).is_empty());
    assert!(answer(KadPacket::HelloResAck, None).is_empty());
    assert_eq!(
        answer(KadPacket::BootstrapReq, None),
        vec![KadAction::SendBootstrapRes { count: 10 }]
    );
    let target = NodeId::from_bytes([4; 16]);
    assert_eq!(
        answer(KadPacket::Req { target, count: 2 }, None),
        vec![KadAction::SendClosest { target, count: 2 }]
    );
    assert_eq!(
        answer(KadPacket::PublishNotesReq { target }, None),
        vec![
            KadAction::StoreNotes,
            KadAction::SendPublishRes { reply: PublishRes { target, load: 0, options: None } },
        ]
    );
    assert_eq!(
        answer(KadPacket::PublishSourceReq { target }, None),
        vec![KadAction::StoreSource { ip: Ipv4Addr::new(10, 0, 0, 2), port: 4672 }]
    );
    let v6 = SocketAddr { ip: IpAddr::V6(1), port: 1 };
    let packet = KadPacket::PublishSourceReq { target };
    assert!(handle_unsolicited_packet(&packet, v6, None, false, time(3)).is_empty());
    assert!(after_source_publish(false, target).is_none());
    assert_eq!(after_source_publish(true, target).unwrap().target, target);
}

#[test]
fn greetings_are_answered_in_order() {
    let actions = answer(KadPacket::HelloReq { hello: hello(8, 0x01) }, Some(5));
    assert_eq!(
        actions,
        vec![
            KadAction::RegisterPeerKey { udp_key: 5 },
            KadAction::SendHelloRes { request_ack: true },
            KadAction::CheckFirewalled { peer_version: 8 },
        ]
    );
    let actions = answer(KadPacket::HelloReq { hello: hello(8, 0) }, None);
    assert!(matches!(actions[0], KadAction::AddContact { .. }));
    assert_eq!(actions[1], KadAction::SendHelloRes { request_ack: false });
    let actions = answer(KadPacket::HelloRes { hello: hello(8, 0x04) }, Some(5));
    assert_eq!(actions[2], KadAction::SendHelloResAck);
    let actions = answer(KadPacket::HelloRes { hello: hello(8, 0x04) }, None);
    assert_eq!(actions[1], KadAction::CheckFirewalled { peer_version: 8 });
}

#[test]
fn searches_of_peers_are_recorded_and_answered() {
    let target = NodeId::from_bytes([4; 16]);
    let actions = answer(KadPacket::SearchNotesReq { request: SearchNotesReq { target, size: 9 } }, None);
    assert_eq!(actions.len(), 2);
    match &actions[0] {
        KadAction::RecordSnoop { entry } => {
            assert_eq!(entry.logical_key(), format!("notes:{}:9", "04".repeat(16)));
        }
        other => panic!("unexpected {other:?}"),
    }
    assert_eq!(actions[1], KadAction::AnswerFromStore { limit: 64 });
}

#[test]
fn replies_list_contacts() {
    let own = NodeId::from_bytes([1; 16]);
    let reply = bootstrap_response(own, 41000, &vec![contact(2)]);
    assert_eq!(reply.sender_version, KAD_VERSION);
    assert_eq!(reply.sender_tcp_port, 41000);
    assert_eq!(reply.contacts[0].ip, 0x0A00_0002);
    let reply = lookup_response(own, &vec![contact(3), contact(4)]);
    assert_eq!(reply.contacts.len(), 2);
    assert_eq!(reply.contacts[1].node_id, NodeId::from_bytes([4; 16]));
}
