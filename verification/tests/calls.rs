use overlord_agent::api::{
    agent_interfaces_path, call_url, coordinator_base, snoop_restore_path, ControlRoute,
    InvalidBaseUrl, PATH_REGISTER, PATH_RESULTS,
};
use overlord_agent::ids::{Ed2kHash, Ipv4Addr, NodeId, Timestamp, Uuid};
use overlord_agent::kad::{NoteResult, SearchNotesReq, SearchResult, SourceResult};
use overlord_agent::lifecycle::nat_backend_order;
use overlord_agent::passive_replay::{
    record_passive_replay_complete, reported_harvest_observability, SnoopQueueFamilyCounts,
};
use overlord_agent::passive_runtime::{PassiveReplayRun, ReplayKey};
use overlord_agent::publish::{
    apply_publish_summary, build_publish_batch_summary, effective_publish_counters,
    publish_batch_is_live, synthetic_file_hash, synthetic_popular_hashes,
    synthetic_publish_aich_hash, PublishAttemptStats,
};
use overlord_agent::publish_runtime::SeedRun;
use overlord_agent::seeds::SyntheticPopularSeed;
use overlord_agent::service::{begin_search, ActiveSearches, SearchRefusal};
use overlord_agent::snoop::snoop_record_is_logged;
use overlord_agent::types::{
    HarvestFamily, HashType, KadHarvestObservability, KadPassiveReplayTierSummary, PopularHash,
    PublishCounters, PublishSeedSource,
};

fn time(secs: i64) -> Timestamp {
    Timestamp { secs, nanos: 0 }
}

#[test]
fn a_base_is_a_url() {
    assert_eq!(
        coordinator_base("http://127.0.0.1:8080"),
        Ok("http://127.0.0.1:8080/".to_string())
    );
    assert_eq!(
        coordinator_base(" HTTP://Coordinator.Example:80/a/../b "),
        Ok("http://coordinator.example/b".to_string())
    );
}

#[test]
fn what_is_no_url_is_no_base() {
    assert_eq!(
        coordinator_base("not a url"),
        Err(InvalidBaseUrl {
            message: "invalid coordinator base url: not a url".to_string(),
            cause: "relative URL without a base".to_string(),
        })
    );
    let error = coordinator_base("").unwrap_err();
    assert_eq!(error.message, "invalid coordinator base url: ");
    let error = coordinator_base("http://host:99999/").unwrap_err();
    assert_eq!(error.message, "invalid coordinator base url: http://host:99999/");
    assert_eq!(error.cause, "invalid port number");
}

#[test]
fn a_path_replaces_the_path_of_the_base() {
    let base = "http://127.0.0.1:8080";
    assert_eq!(
        call_url(base, PATH_REGISTER),
        Ok("http://127.0.0.1:8080/api/internal/register".to_string())
    );
    assert_eq!(
        call_url("https://host/left/out?q=1#f", PATH_RESULTS),
        Ok("https://host/api/internal/results".to_string())
    );
    assert_eq!(
        call_url(base, &snoop_restore_path(Uuid::from_u128(1))),
        Ok("http://127.0.0.1:8080/api/internal/snoop-restore/00000000-0000-0000-0000-000000000001"
            .to_string())
    );
    assert_eq!(
        call_url(base, &agent_interfaces_path(Uuid::from_u128(2))),
        Ok("http://127.0.0.1:8080/api/agents/00000000-0000-0000-0000-000000000002/interfaces"
            .to_string())
    );
    assert_eq!(
        call_url(base, ControlRoute::CancelSearch.path()),
        Ok("http://127.0.0.1:8080/api/internal/search/cancel".to_string())
    );
}

#[test]
fn there_is_no_call_without_a_url() {
    assert_eq!(
        call_url("not a url", PATH_REGISTER),
        Err("relative URL without a base".to_string())
    );
    assert_eq!(
        call_url("mailto:someone@example.com", PATH_REGISTER),
        Err("relative URL with a cannot-be-a-base base".to_string())
    );
}

#[test]
fn a_search_takes_a_callback_that_is_a_url() {
    let mut active = ActiveSearches::new();
    let job_id = Uuid::from_u128(7);
    assert_eq!(
        begin_search(&mut active, job_id, false, "nowhere"),
        Err(SearchRefusal::WaitingForInterface)
    );
    assert_eq!(
        begin_search(&mut active, job_id, true, "nowhere"),
        Err(SearchRefusal::InvalidCallback { job_id })
    );
    assert!(active.jobs.is_empty());
    assert_eq!(begin_search(&mut active, job_id, true, "http://host:1/"), Ok(()));
    assert_eq!(active.jobs, vec![job_id]);
    assert_eq!(
        begin_search(&mut active, job_id, true, "http://host:1/"),
        Err(SearchRefusal::AlreadyActive { job_id })
    );
    assert_eq!(
        begin_search(&mut active, job_id, true, "nowhere"),
        Err(SearchRefusal::InvalidCallback { job_id })
    );
}

#[test]
fn results_are_told_apart_by_file_peer_and_author() {
    let keyword = |byte: u8, name: &str| SearchResult {
        hash: Ed2kHash::from_bytes([byte; 16]),
        names: vec![name.to_string()],
        size: None,
        source_count: None,
        tags: Vec::new(),
    };
    let mut run = PassiveReplayRun::new(HarvestFamily::Keyword, 1, 30);
    run.accept(ReplayKey::of_keyword(&keyword(1, "a")), None, 0);
    run.accept(ReplayKey::of_keyword(&keyword(1, "b")), None, 0);
    run.accept(ReplayKey::of_keyword(&keyword(2, "a")), None, 0);
    assert_eq!(run.seen.len(), 2);

    let source = |file: u8, udp_port: u16| SourceResult {
        file_hash: Ed2kHash::from_bytes([file; 16]),
        source_id: Ed2kHash::from_bytes([9; 16]),
        ip: Ipv4Addr::new(10, 0, 0, 1),
        tcp_port: 4662,
        udp_port,
        obfuscation_options: None,
    };
    let mut run = PassiveReplayRun::new(HarvestFamily::Source, 1, 30);
    run.accept(ReplayKey::of_source(&source(1, 5)), None, 0);
    run.accept(ReplayKey::of_source(&source(2, 5)), None, 0);
    run.accept(ReplayKey::of_source(&source(1, 6)), None, 0);
    assert_eq!(run.seen.len(), 2);

    let note = |author: u8, rating: u8| NoteResult {
        file_hash: Ed2kHash::from_bytes([1; 16]),
        source_id: Ed2kHash::from_bytes([author; 16]),
        rating: Some(rating),
        comment: None,
    };
    let mut run = PassiveReplayRun::new(HarvestFamily::Notes, 1, 30);
    run.accept(ReplayKey::of_notes(&note(1, 3)), None, 0);
    run.accept(ReplayKey::of_notes(&note(1, 4)), None, 0);
    run.accept(ReplayKey::of_notes(&note(2, 3)), None, 0);
    assert_eq!(run.seen.len(), 2);
}

#[test]
fn notes_are_asked_for_by_the_file_of_their_target() {
    let request = SearchNotesReq {
        target: NodeId::from_bytes([0, 1, 2, 3, 4, 5, 6, 7, 8, 9, 10, 11, 12, 13, 14, 15]),
        size: 1,
    };
    assert_eq!(
        request.file_hash(),
        Ed2kHash::from_bytes([3, 2, 1, 0, 7, 6, 5, 4, 11, 10, 9, 8, 15, 14, 13, 12])
    );
}

#[test]
fn a_batch_shows_on_top_only_while_it_is_live() {
    let stats = PublishAttemptStats {
        closest_contacts_considered: 4,
        attempted_contacts: 3,
        acked_contacts: 2,
        timed_out_contacts: 1,
    };
    let summary = build_publish_batch_summary(PublishSeedSource::Coordinator, 5, stats, time(10));
    let mut stored = PublishCounters::default();
    assert_eq!(effective_publish_counters(&stored, None, Some(time(10))), stored);
    assert_eq!(effective_publish_counters(&stored, Some(&summary), None), stored);
    let shown = effective_publish_counters(&stored, Some(&summary), Some(time(10)));
    apply_publish_summary(&mut stored, &summary);
    assert_eq!(shown, stored);
    assert_eq!(effective_publish_counters(&stored, Some(&summary), Some(time(10))), stored);
    assert_eq!(effective_publish_counters(&stored, Some(&summary), Some(time(11))), stored);
    let later = build_publish_batch_summary(PublishSeedSource::Coordinator, 1, stats, time(12));
    assert_eq!(effective_publish_counters(&stored, Some(&later), Some(time(10))), stored);
    let shown = effective_publish_counters(&stored, Some(&later), Some(time(12)));
    assert_eq!(shown.batches, 2);
    assert_eq!(shown.published_items, 6);
    let none = PublishAttemptStats::default();
    let empty = build_publish_batch_summary(PublishSeedSource::Coordinator, 0, none, time(13));
    assert_eq!(effective_publish_counters(&stored, Some(&empty), Some(time(13))), stored);
}

#[test]
fn a_replay_of_one_tier_leaves_a_full_count_of_widened_ones() {
    let mut harvest = KadHarvestObservability::default();
    harvest.passive_keyword_replay.widened_cycles = u64::MAX;
    record_passive_replay_complete(
        &mut harvest,
        HarvestFamily::Keyword,
        time(1),
        2,
        1,
        vec![KadPassiveReplayTierSummary { responder_ceiling: 10, result_count: 2 }],
    );
    assert_eq!(harvest.passive_keyword_replay.widened_cycles, u64::MAX);
    assert_eq!(harvest.passive_keyword_replay.completed_cycles, 1);
    assert!(!harvest.passive_keyword_replay.last_widened);
}

#[test]
fn notes_that_are_not_published_leave_full_totals() {
    let file = PopularHash {
        hash: HashType::Ed2k("ab".repeat(16)),
        canonical_name: "name".to_string(),
        size: 1,
        source_count: 1,
    };
    let mut run = SeedRun::begin(true, PublishSeedSource::Coordinator, vec![file], false)
        .unwrap_or_else(|_| panic!("the node is bootstrapped"));
    let full = PublishAttemptStats {
        closest_contacts_considered: u32::MAX,
        attempted_contacts: u32::MAX,
        acked_contacts: u32::MAX,
        timed_out_contacts: u32::MAX,
    };
    run.notes_totals = full;
    run.complete_item(None, None, Some(full));
    assert_eq!(run.notes_totals, full);
    assert_eq!(run.done, 1);
}

#[test]
fn only_a_live_batch_counts_on_top() {
    let stats = PublishAttemptStats {
        closest_contacts_considered: 0,
        attempted_contacts: 1,
        acked_contacts: 0,
        timed_out_contacts: 0,
    };
    let stored = PublishCounters { last_batch_at: Some(time(5)), ..PublishCounters::default() };
    let batch = build_publish_batch_summary(PublishSeedSource::Coordinator, 0, stats, time(6));
    assert!(publish_batch_is_live(&stored, &batch, Some(time(6))));
    assert!(!publish_batch_is_live(&stored, &batch, Some(time(5))));
    assert!(!publish_batch_is_live(&stored, &batch, None));
    let counted = build_publish_batch_summary(PublishSeedSource::Coordinator, 0, stats, time(5));
    assert!(!publish_batch_is_live(&stored, &counted, Some(time(6))));
}

#[test]
fn a_place_is_part_of_what_a_synthetic_file_is_hashed_from() {
    let seed = SyntheticPopularSeed { title: "1|x", size: 2, source_count: 3 };
    let other = SyntheticPopularSeed { title: "x", size: 2, source_count: 3 };
    assert_ne!(synthetic_file_hash(1, &other), synthetic_file_hash(11, &other));
    assert_ne!(synthetic_file_hash(0, &seed), synthetic_file_hash(1, &seed));
    assert_eq!(synthetic_file_hash(1, &seed), synthetic_file_hash(1, &seed));
    assert_ne!(synthetic_file_hash(1, &seed), synthetic_file_hash(1, &other));
}

#[test]
fn the_synthetic_list_is_the_same_every_time() {
    let list = synthetic_popular_hashes();
    assert_eq!(list.len(), 40);
    assert_eq!(list, synthetic_popular_hashes());
}

#[test]
fn an_aich_root_depends_on_hash_size_and_name() {
    let hash = Ed2kHash::from_bytes([0xAB; 16]);
    let root = synthetic_publish_aich_hash(&hash, "ubuntu.iso", 734_003_200);
    assert_eq!(root, synthetic_publish_aich_hash(&hash, "ubuntu.iso", 734_003_200));
    assert_ne!(root, synthetic_publish_aich_hash(&hash, "ubuntu.iso", 734_003_201));
    assert_ne!(root, synthetic_publish_aich_hash(&hash, "ubuntu.is", 734_003_200));
    let other = Ed2kHash::from_bytes([0xAC; 16]);
    assert_ne!(root, synthetic_publish_aich_hash(&other, "ubuntu.iso", 734_003_200));
}

#[test]
fn the_default_order_stands_in_for_a_missing_one() {
    let own = || vec!["b".to_string()];
    let default = || vec!["a".to_string(), "b".to_string()];
    assert_eq!(nat_backend_order(Vec::new(), default()), default());
    assert_eq!(nat_backend_order(own(), default()), own());
    assert!(nat_backend_order(Vec::new(), Vec::new()).is_empty());
}

#[test]
fn repeated_requests_are_logged_now_and_then() {
    assert!(snoop_record_is_logged(true, 4));
    assert!(snoop_record_is_logged(false, 3));
    assert!(!snoop_record_is_logged(false, 4));
    assert!(snoop_record_is_logged(false, 20));
}

#[test]
fn the_queue_depth_is_shown_and_not_stored() {
    let mut stored = KadHarvestObservability::default();
    stored.keyword_requests.last_target = Some("t".to_string());
    stored.passive_source_replay.last_tiers =
        vec![KadPassiveReplayTierSummary { responder_ceiling: 1, result_count: 2 }];
    let counts = SnoopQueueFamilyCounts { keyword: 3, source: 2, notes: 1 };
    let shown = reported_harvest_observability(&stored, counts);
    assert_eq!(shown.keyword_requests.queued_entries, 3);
    assert_eq!(shown.source_requests.queued_entries, 2);
    assert_eq!(shown.notes_requests.queued_entries, 1);
    assert_eq!(shown.keyword_requests.last_target.as_deref(), Some("t"));
    assert_eq!(shown.passive_source_replay, stored.passive_source_replay);
    assert_eq!(stored.keyword_requests.queued_entries, 0);
}
