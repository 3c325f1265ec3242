use chrono::{TimeZone, Utc};
use overlord_agent::ed2k::Ed2kServerState;
use overlord_agent::ids::{Ed2kHash, IpAddr, Ipv4Addr, NodeId, SocketAddr, Timestamp};
use overlord_agent::kad::{
    SearchKeyReq, SearchNotesReq, SearchSourceReq, Tag, TagName, TagValue, TAG_DESCRIPTION,
    TAG_ENCRYPTION, TAG_FILERATING, TAG_KADMISCOPTIONS, TAG_SOURCEIP, TAG_SOURCEPORT,
    TAG_SOURCETYPE, TAG_SOURCEUPORT,
};
use overlord_agent::kad_hello::{
    build_hello_request, build_hello_response, build_kad_hello_request_tags,
    build_kad_hello_response_tags, current_tcp_firewalled, parse_kad_hello_metadata,
    should_request_hello_response_ack, LocalHello,
};
use overlord_agent::keywords::{
    exact_ed2k_hash_query_token, keyword_target, significant_keyword_words,
};
use overlord_agent::passive_replay::{
    apply_harvest_record, apply_queue_family_counts, passive_replay_family_order,
    record_passive_replay_complete, record_passive_replay_enqueue_wait, record_passive_replay_idle,
    record_passive_replay_post_failure, record_passive_replay_post_latency,
    record_passive_replay_start, SnoopQueueFamilyCounts,
};
use overlord_agent::publish::{
    apply_publish_summary, build_notes_publish_tags, build_publish_batch_summary,
    build_source_publish_tags, ed2k_file_type_search_term, effective_publish_counters,
    emule_high_id_source_type, next_synthetic_publish_batch, normalize_ed2k_user_hash_markers,
    record_publish_summaries, source_publish_client_hash, synthetic_file_hash,
    synthetic_popular_hash, synthetic_popular_hashes, synthetic_publish_aich_hash,
    synthetic_publish_queue_depth, PublishAttemptStats, SourcePublishSettings,
    EMULE_LARGE_FILE_SIZE_THRESHOLD,
};
use overlord_agent::seeds::synthetic_popular_seeds;
use overlord_agent::snoop::{
    build_keyword_snoop_entry, build_notes_snoop_entry, build_source_snoop_entry,
};
use overlord_agent::types::{
    HarvestFamily, HashType, KadHarvestObservability, KadPassiveReplayTierSummary,
    KadPublishObservability, PublishCounters, PublishSeedSource, SnoopEntry,
};
use std::collections::HashSet;

fn at(year: i32, month: u32, day: u32, hour: u32, minute: u32) -> Timestamp {
    let time = Utc.with_ymd_and_hms(year, month, day, hour, minute, 0).unwrap();
    Timestamp { secs: time.timestamp(), nanos: 0 }
}

#[test]
fn significant_words_ignore_short_tokens() {
    assert_eq!(
        significant_keyword_words("A torino x train"),
        vec!["torino".to_string(), "train".to_string()]
    );
}

#[test]
fn keyword_target_is_stable() {
    assert_eq!(
        hex::encode(keyword_target("Torino Train").0),
        "b2bc3aa39f375069e7c27eb83ce6baf3"
    );
}

#[test]
fn exact_ed2k_hash_query_token_extracts_hash_only_queries() {
    let exact_hash = Ed2kHash::from_bytes([0x44; 16]).to_text();

    assert_eq!(
        exact_ed2k_hash_query_token(&format!("ed2k::{exact_hash}")),
        Some(exact_hash.clone())
    );
    assert_eq!(
        exact_ed2k_hash_query_token(&exact_hash.to_ascii_uppercase()),
        Some(exact_hash)
    );
    assert_eq!(exact_ed2k_hash_query_token("ed2k::torino train"), None);
}

#[test]
fn keyword_target_uses_hash_token_for_exact_ed2k_hash_queries() {
    let exact_hash = Ed2kHash::from_bytes([0x44; 16]).to_text();

    assert_eq!(
        keyword_target(&format!("ed2k::{exact_hash}")),
        keyword_target(&exact_hash.to_ascii_uppercase())
    );
}

#[test]
fn ed2k_user_hash_uses_oracle_emule_markers() {
    let user_hash = normalize_ed2k_user_hash_markers([0xAA; 16]);

    assert_eq!(user_hash[5], 0x0E);
    assert_eq!(user_hash[14], 0x6F);
}

#[test]
fn synthetic_dataset_contains_expected_entry_count() {
    assert_eq!(synthetic_popular_seeds().len(), 40);
}

#[test]
fn synthetic_hashes_are_deterministic() {
    let seed = &synthetic_popular_seeds()[0];
    assert_eq!(synthetic_file_hash(0, seed), synthetic_file_hash(0, seed));
}

#[test]
fn synthetic_hashes_are_unique() {
    let hashes = synthetic_popular_hashes();
    let unique = hashes
        .iter()
        .map(|entry| match &entry.hash {
            HashType::Ed2k(hash) => hash.clone(),
        })
        .collect::<HashSet<_>>();
    assert_eq!(unique.len(), hashes.len());
}

#[test]
fn synthetic_publish_queue_depth_tracks_remaining_rotation_window() {
    let total = synthetic_popular_seeds().len();
    assert_eq!(synthetic_publish_queue_depth(0), total);
    assert_eq!(synthetic_publish_queue_depth(1), total - 1);
    assert_eq!(synthetic_publish_queue_depth(total), total);
}

#[test]
fn synthetic_publish_batch_wraps_and_advances_cursor() {
    let seeds = synthetic_popular_seeds();
    let total = seeds.len();
    let mut cursor = total - 1;

    let batch = next_synthetic_publish_batch(&mut cursor, 3);

    assert_eq!(batch.len(), 3);
    assert_eq!(batch[0], synthetic_popular_hash(total - 1, &seeds[total - 1]));
    assert_eq!(batch[1], synthetic_popular_hash(0, &seeds[0]));
    assert_eq!(batch[2], synthetic_popular_hash(1, &seeds[1]));
    assert_eq!(cursor, 2);
}

#[test]
fn synthetic_publish_batch_treats_zero_request_as_single_item_drip() {
    let mut cursor = 0;

    let batch = next_synthetic_publish_batch(&mut cursor, 0);

    assert_eq!(batch.len(), 1);
    assert_eq!(batch[0], synthetic_popular_hash(0, &synthetic_popular_seeds()[0]));
    assert_eq!(cursor, 1);
}

#[test]
fn emule_source_type_matches_large_file_convention() {
    assert_eq!(emule_high_id_source_type(123), 1);
    assert_eq!(emule_high_id_source_type(EMULE_LARGE_FILE_SIZE_THRESHOLD + 1), 4);
}

#[test]
fn build_publish_batch_summary_marks_success_timestamp_when_acked() {
    let completed_at = at(2026, 3, 21, 11, 0);
    let summary = build_publish_batch_summary(
        PublishSeedSource::Coordinator,
        40,
        PublishAttemptStats {
            closest_contacts_considered: 10,
            attempted_contacts: 10,
            acked_contacts: 6,
            timed_out_contacts: 3,
        },
        completed_at,
    );

    assert_eq!(summary.failed_contacts, 4);
    assert_eq!(summary.last_success_at, Some(completed_at));
}

#[test]
fn apply_publish_summary_accumulates_counters() {
    let completed_at = at(2026, 3, 21, 11, 5);
    let summary = build_publish_batch_summary(
        PublishSeedSource::SyntheticFallback,
        40,
        PublishAttemptStats {
            closest_contacts_considered: 8,
            attempted_contacts: 8,
            acked_contacts: 5,
            timed_out_contacts: 2,
        },
        completed_at,
    );
    let mut counters = PublishCounters::default();

    apply_publish_summary(&mut counters, &summary);

    assert_eq!(counters.batches, 1);
    assert_eq!(counters.published_items, 40);
    assert_eq!(counters.attempted_contacts, 8);
    assert_eq!(counters.acked_contacts, 5);
    assert_eq!(counters.failed_contacts, 3);
    assert_eq!(counters.timed_out_contacts, 2);
    assert_eq!(counters.last_batch_at, Some(completed_at));
    assert_eq!(counters.last_success_at, Some(completed_at));
}

#[test]
fn effective_publish_counters_include_in_flight_batch_progress() {
    let previous_completed_at = at(2026, 3, 21, 11, 5);
    let live_observed_at = at(2026, 3, 21, 11, 10);
    let committed_summary = build_publish_batch_summary(
        PublishSeedSource::Coordinator,
        10,
        PublishAttemptStats {
            closest_contacts_considered: 6,
            attempted_contacts: 6,
            acked_contacts: 4,
            timed_out_contacts: 1,
        },
        previous_completed_at,
    );
    let live_summary = build_publish_batch_summary(
        PublishSeedSource::SyntheticFallback,
        7,
        PublishAttemptStats {
            closest_contacts_considered: 5,
            attempted_contacts: 5,
            acked_contacts: 2,
            timed_out_contacts: 2,
        },
        live_observed_at,
    );
    let mut committed_counters = PublishCounters::default();
    apply_publish_summary(&mut committed_counters, &committed_summary);

    let effective = effective_publish_counters(
        &committed_counters,
        Some(&live_summary),
        Some(live_observed_at),
    );

    assert_eq!(effective.batches, 2);
    assert_eq!(effective.published_items, 17);
    assert_eq!(effective.closest_contacts_considered, 11);
    assert_eq!(effective.attempted_contacts, 11);
    assert_eq!(effective.acked_contacts, 6);
    assert_eq!(effective.failed_contacts, 5);
    assert_eq!(effective.timed_out_contacts, 3);
    assert_eq!(effective.last_batch_at, Some(live_observed_at));
    assert_eq!(effective.last_success_at, Some(live_observed_at));
}

#[test]
fn effective_publish_counters_do_not_double_count_committed_batch() {
    let completed_at = at(2026, 3, 21, 11, 5);
    let summary = build_publish_batch_summary(
        PublishSeedSource::SyntheticFallback,
        40,
        PublishAttemptStats {
            closest_contacts_considered: 8,
            attempted_contacts: 8,
            acked_contacts: 5,
            timed_out_contacts: 2,
        },
        completed_at,
    );
    let mut counters = PublishCounters::default();
    apply_publish_summary(&mut counters, &summary);

    let effective = effective_publish_counters(&counters, Some(&summary), Some(completed_at));

    assert_eq!(effective, counters);
}

#[test]
fn record_publish_summaries_tracks_notes_family_when_enabled() {
    let completed_at = at(2026, 4, 25, 10, 0);
    let mut snapshot = KadPublishObservability::default();

    record_publish_summaries(
        &mut snapshot,
        PublishSeedSource::ManualApi,
        2,
        PublishAttemptStats {
            closest_contacts_considered: 3,
            attempted_contacts: 3,
            acked_contacts: 2,
            timed_out_contacts: 0,
        },
        PublishAttemptStats {
            closest_contacts_considered: 4,
            attempted_contacts: 4,
            acked_contacts: 3,
            timed_out_contacts: 1,
        },
        Some(PublishAttemptStats {
            closest_contacts_considered: 5,
            attempted_contacts: 5,
            acked_contacts: 4,
            timed_out_contacts: 1,
        }),
        completed_at,
    );

    let latest_notes = snapshot.latest_notes_batch.as_ref().expect("notes publish batch summary");
    assert_eq!(latest_notes.seed_source, PublishSeedSource::ManualApi);
    assert_eq!(latest_notes.published_items, 2);
    assert_eq!(latest_notes.attempted_contacts, 5);
    assert_eq!(latest_notes.acked_contacts, 4);
    assert_eq!(snapshot.notes_counters.batches, 1);
    assert_eq!(snapshot.notes_counters.published_items, 2);
    assert_eq!(snapshot.notes_counters.attempted_contacts, 5);
    assert_eq!(snapshot.notes_counters.last_success_at, Some(completed_at));
}

#[test]
fn effective_publish_counters_ignore_empty_initial_snapshot() {
    let observed_at = at(2026, 3, 21, 11, 0);
    let empty_summary = build_publish_batch_summary(
        PublishSeedSource::Coordinator,
        0,
        PublishAttemptStats::default(),
        observed_at,
    );

    let effective = effective_publish_counters(
        &PublishCounters::default(),
        Some(&empty_summary),
        Some(observed_at),
    );

    assert_eq!(effective, PublishCounters::default());
}

#[test]
fn apply_harvest_record_tracks_keyword_request_shape() {
    let mut observability = KadHarvestObservability::default();
    let entry = SnoopEntry::Keyword {
        logical_key: "keyword:00112233445566778899aabbccddeeff:8000:aabb".to_string(),
        target: "00112233445566778899aabbccddeeff".to_string(),
        start_position: 0x8000,
        restrictive_payload_hex: Some("aabb".to_string()),
        hit_count: 1,
        first_seen: at(2026, 3, 22, 19, 58),
        last_seen: at(2026, 3, 22, 19, 58),
        last_drained_at: None,
    };

    apply_harvest_record(&mut observability, "127.0.0.1:41000", &entry, true);

    assert_eq!(observability.keyword_requests.observed_requests, 1);
    assert_eq!(observability.keyword_requests.unique_shapes_observed, 1);
    assert_eq!(
        observability.keyword_requests.last_target.as_deref(),
        Some("00112233445566778899aabbccddeeff")
    );
    assert_eq!(observability.keyword_requests.last_start_position, Some(0x8000));
    assert_eq!(observability.keyword_requests.last_restrictive_bytes, Some(2));
    assert_eq!(
        observability.keyword_requests.last_from.as_deref(),
        Some("127.0.0.1:41000")
    );
}

#[test]
fn apply_queue_family_counts_updates_live_depths() {
    let mut observability = KadHarvestObservability::default();

    apply_queue_family_counts(
        &mut observability,
        SnoopQueueFamilyCounts { keyword: 2, source: 3, notes: 1 },
    );

    assert_eq!(observability.keyword_requests.queued_entries, 2);
    assert_eq!(observability.source_requests.queued_entries, 3);
    assert_eq!(observability.notes_requests.queued_entries, 1);
}

#[test]
fn passive_keyword_replay_observability_tracks_cycle_lifecycle() {
    let mut observability = KadHarvestObservability::default();
    let request = SearchKeyReq {
        target: NodeId::from_text("00112233445566778899aabbccddeeff").unwrap(),
        start_position: 0x8000,
        restrictive_payload: vec![0xAA, 0xBB, 0xCC],
    };
    let started_at = at(2026, 3, 22, 20, 0);
    let idle_at = at(2026, 3, 22, 20, 1);
    let completed_at = at(2026, 3, 22, 20, 2);
    let failed_at = at(2026, 3, 22, 20, 3);
    let tier_summaries = vec![
        KadPassiveReplayTierSummary { responder_ceiling: 10, result_count: 2 },
        KadPassiveReplayTierSummary { responder_ceiling: 20, result_count: 5 },
    ];

    record_passive_replay_idle(&mut observability, HarvestFamily::Keyword, idle_at);
    record_passive_replay_start(
        &mut observability,
        HarvestFamily::Keyword,
        request.target.to_text(),
        Some(request.start_position),
        Some(request.restrictive_payload.len() as u32),
        started_at,
    );
    record_passive_replay_complete(
        &mut observability,
        HarvestFamily::Keyword,
        completed_at,
        7,
        2,
        tier_summaries.clone(),
    );
    record_passive_replay_post_failure(
        &mut observability,
        HarvestFamily::Keyword,
        failed_at,
        "post failed",
    );
    record_passive_replay_enqueue_wait(&mut observability, HarvestFamily::Keyword, 12, true);
    record_passive_replay_post_latency(&mut observability, HarvestFamily::Keyword, 34);

    let replay = &observability.passive_keyword_replay;
    assert_eq!(replay.idle_cycles, 1);
    assert_eq!(replay.started_cycles, 1);
    assert_eq!(replay.completed_cycles, 1);
    assert_eq!(replay.emitted_results, 7);
    assert_eq!(replay.widened_cycles, 1);
    assert_eq!(replay.posted_batches, 2);
    assert_eq!(replay.post_failures, 1);
    assert_eq!(replay.enqueue_backpressure_events, 1);
    assert_eq!(replay.post_callbacks, 1);
    assert_eq!(replay.enqueue_wait_millis, 12);
    assert_eq!(replay.post_latency_millis, 34);
    assert_eq!(replay.last_target.as_deref(), Some("00112233445566778899aabbccddeeff"));
    assert_eq!(replay.last_start_position, Some(0x8000));
    assert_eq!(replay.last_restrictive_bytes, Some(3));
    assert_eq!(replay.last_result_count, 7);
    assert_eq!(replay.last_batches_posted, 2);
    assert_eq!(replay.last_enqueue_wait_millis, 12);
    assert_eq!(replay.last_post_latency_millis, 34);
    assert_eq!(replay.last_tiers_attempted, 2);
    assert_eq!(replay.last_widest_responder_ceiling, Some(20));
    assert!(replay.last_widened);
    assert_eq!(replay.last_tiers, tier_summaries);
    assert_eq!(replay.last_error.as_deref(), Some("post failed"));
    assert_eq!(replay.last_completed_at, Some(completed_at));
    assert_eq!(replay.last_error_at, Some(failed_at));
}

#[test]
fn passive_source_replay_observability_tracks_tiered_cycle_lifecycle() {
    let mut observability = KadHarvestObservability::default();
    let started_at = at(2026, 3, 22, 21, 0);
    let idle_at = at(2026, 3, 22, 21, 1);
    let completed_at = at(2026, 3, 22, 21, 2);
    let tier_summaries =
        vec![KadPassiveReplayTierSummary { responder_ceiling: 10, result_count: 4 }];

    record_passive_replay_idle(&mut observability, HarvestFamily::Source, idle_at);
    record_passive_replay_start(
        &mut observability,
        HarvestFamily::Source,
        "ffeeddccbbaa99887766554433221100".to_string(),
        Some(0),
        None,
        started_at,
    );
    record_passive_replay_complete(
        &mut observability,
        HarvestFamily::Source,
        completed_at,
        4,
        1,
        tier_summaries.clone(),
    );

    let replay = &observability.passive_source_replay;
    assert_eq!(replay.idle_cycles, 1);
    assert_eq!(replay.started_cycles, 1);
    assert_eq!(replay.completed_cycles, 1);
    assert_eq!(replay.emitted_results, 4);
    assert_eq!(replay.posted_batches, 1);
    assert_eq!(replay.last_target.as_deref(), Some("ffeeddccbbaa99887766554433221100"));
    assert_eq!(replay.last_start_position, Some(0));
    assert_eq!(replay.last_restrictive_bytes, None);
    assert_eq!(replay.last_tiers_attempted, 1);
    assert_eq!(replay.last_widest_responder_ceiling, Some(10));
    assert!(!replay.last_widened);
    assert_eq!(replay.last_tiers, tier_summaries);
    assert_eq!(replay.last_completed_at, Some(completed_at));
}

#[test]
fn passive_notes_replay_observability_uses_dedicated_bucket() {
    let mut observability = KadHarvestObservability::default();
    let started_at = at(2026, 3, 22, 22, 0);
    let idle_at = at(2026, 3, 22, 22, 1);
    let completed_at = at(2026, 3, 22, 22, 2);
    let tier_summaries =
        vec![KadPassiveReplayTierSummary { responder_ceiling: 10, result_count: 2 }];

    record_passive_replay_idle(&mut observability, HarvestFamily::Notes, idle_at);
    record_passive_replay_start(
        &mut observability,
        HarvestFamily::Notes,
        "1234567890abcdef1234567890abcdef".to_string(),
        None,
        None,
        started_at,
    );
    record_passive_replay_complete(
        &mut observability,
        HarvestFamily::Notes,
        completed_at,
        2,
        1,
        tier_summaries.clone(),
    );

    let replay = &observability.passive_notes_replay;
    assert_eq!(replay.idle_cycles, 1);
    assert_eq!(replay.started_cycles, 1);
    assert_eq!(replay.completed_cycles, 1);
    assert_eq!(replay.emitted_results, 2);
    assert_eq!(replay.posted_batches, 1);
    assert_eq!(replay.last_target.as_deref(), Some("1234567890abcdef1234567890abcdef"));
    assert_eq!(replay.last_start_position, None);
    assert_eq!(replay.last_restrictive_bytes, None);
    assert_eq!(replay.last_tiers, tier_summaries);
    assert_eq!(replay.last_completed_at, Some(completed_at));
    assert_eq!(observability.passive_keyword_replay.started_cycles, 0);
}

/// The backlog that entries make up once those of one shape are counted once.
fn backlog(entries: &[SnoopEntry]) -> SnoopQueueFamilyCounts {
    let mut keys = HashSet::new();
    let mut counts = SnoopQueueFamilyCounts { keyword: 0, source: 0, notes: 0 };
    for entry in entries {
        if keys.insert(entry.logical_key().to_string()) {
            match entry {
                SnoopEntry::Keyword { .. } => counts.keyword += 1,
                SnoopEntry::Source { .. } => counts.source += 1,
                SnoopEntry::Notes { .. } => counts.notes += 1,
            }
        }
    }
    counts
}

#[test]
fn heavier_source_backlog_is_replayed_first() {
    let now = at(2026, 3, 24, 15, 12);
    let source = |byte: u8, size: u64| {
        build_source_snoop_entry(
            &SearchSourceReq { target: NodeId::from_bytes([byte; 16]), start_position: 0, size },
            now,
        )
    };
    let counts = backlog(&[
        build_keyword_snoop_entry(
            &SearchKeyReq {
                target: NodeId::from_bytes([0x11; 16]),
                start_position: 0,
                restrictive_payload: Vec::new(),
            },
            now,
        ),
        source(0x22, 1_024),
        source(0x33, 2_048),
        source(0x33, 2_048),
    ]);
    assert_eq!(counts, SnoopQueueFamilyCounts { keyword: 1, source: 2, notes: 0 });
    assert_eq!(passive_replay_family_order(None, counts)[0], HarvestFamily::Source);
}

#[test]
fn lone_notes_backlog_is_replayed_first() {
    let now = at(2026, 3, 24, 15, 14);
    let counts = backlog(&[build_notes_snoop_entry(
        &SearchNotesReq { target: NodeId::from_bytes([0x44; 16]), size: 4_096 },
        now,
    )]);
    assert_eq!(passive_replay_family_order(None, counts)[0], HarvestFamily::Notes);
}

#[test]
fn a_worker_tries_the_family_it_prefers_first() {
    let counts = SnoopQueueFamilyCounts { keyword: 4, source: 0, notes: 9 };
    assert_eq!(
        passive_replay_family_order(Some(HarvestFamily::Source), counts),
        vec![HarvestFamily::Source, HarvestFamily::Notes, HarvestFamily::Keyword]
    );
    let even = SnoopQueueFamilyCounts { keyword: 2, source: 2, notes: 2 };
    assert_eq!(
        passive_replay_family_order(None, even),
        vec![HarvestFamily::Keyword, HarvestFamily::Source, HarvestFamily::Notes]
    );
}

#[test]
fn kad_hello_metadata_parses_misc_bits_and_source_uport() {
    let metadata = parse_kad_hello_metadata(&[
        Tag::new_short(TAG_SOURCEUPORT, TagValue::U16(41000)),
        Tag::new_short(TAG_KADMISCOPTIONS, TagValue::U8(0x07)),
    ]);

    assert_eq!(metadata.hello_source_udp_port, Some(41000));
    assert!(metadata.udp_firewalled);
    assert!(metadata.tcp_firewalled);
    assert!(metadata.requests_hello_res_ack);
}

#[test]
fn kad_hello_response_tags_encode_expected_misc_bits() {
    let tags = build_kad_hello_response_tags(41000, true, false, true);

    assert_eq!(
        tags,
        vec![
            Tag::new_short(TAG_SOURCEUPORT, TagValue::U16(41000)),
            Tag::new_short(TAG_KADMISCOPTIONS, TagValue::U8(0x05)),
        ]
    );
}

#[test]
fn kad_hello_request_tags_prefer_misc_options_when_ack_is_requested() {
    let tags = build_kad_hello_request_tags(41000, true, false, false, true);

    assert_eq!(tags, vec![Tag::new_short(TAG_KADMISCOPTIONS, TagValue::U8(0x04))]);
}

#[test]
fn kad_hello_request_tags_advertise_source_uport_for_verified_open_udp() {
    let tags = build_kad_hello_request_tags(41000, true, false, false, false);

    assert_eq!(tags, vec![Tag::new_short(TAG_SOURCEUPORT, TagValue::U16(41000))]);
}

#[test]
fn kad_hello_request_tags_can_be_empty_before_udp_state_is_verified() {
    let tags = build_kad_hello_request_tags(41000, false, false, false, false);

    assert!(tags.is_empty());
}

#[test]
fn hello_response_ack_requires_sender_verify_key() {
    assert!(!should_request_hello_response_ack(8, false, None));
    assert!(should_request_hello_response_ack(8, false, Some(0x1122_3344)));
    assert!(!should_request_hello_response_ack(8, true, Some(0x1122_3344)));
    assert!(!should_request_hello_response_ack(7, false, Some(0x1122_3344)));
}

fn publisher() -> SocketAddr {
    SocketAddr { ip: IpAddr::V4(Ipv4Addr::new(10, 54, 206, 206)), port: 41000 }
}

#[test]
fn source_publish_tags_match_oracle_plaintext_shape() {
    let tags = build_source_publish_tags(
        publisher(),
        SourcePublishSettings { tcp_port: 41001, obfuscation_enabled: false },
        2_097_152,
    );

    assert_eq!(
        tags,
        vec![
            Tag::new_short(TAG_SOURCETYPE, TagValue::UInt(1)),
            Tag::new_short(TAG_SOURCEPORT, TagValue::UInt(41001)),
            Tag::new_short(TAG_SOURCEIP, TagValue::U32(0x0A36_CECE)),
            Tag::new_short(TAG_SOURCEUPORT, TagValue::U16(41000)),
            Tag::filesize(2_097_152),
            Tag::new_short(TAG_ENCRYPTION, TagValue::U8(0)),
        ]
    );
}

#[test]
fn source_publish_tags_set_obfuscated_encryption_bits() {
    let tags = build_source_publish_tags(
        publisher(),
        SourcePublishSettings { tcp_port: 41001, obfuscation_enabled: true },
        2_097_152,
    );

    assert_eq!(tags.last(), Some(&Tag::new_short(TAG_ENCRYPTION, TagValue::U8(3))));
}

#[test]
fn source_publish_identity_uses_emule_kad_chunk_order() {
    let user_hash = [
        0xB4, 0x22, 0xCF, 0x1A, 0x44, 0x0E, 0x71, 0x6B, 0xD2, 0xE1, 0xDD, 0x6E, 0x77, 0x21, 0x6F,
        0xE4,
    ];

    let publisher_id = source_publish_client_hash(user_hash);

    assert_eq!(
        publisher_id.0,
        [
            0x1A, 0xCF, 0x22, 0xB4, 0x6B, 0x71, 0x0E, 0x44, 0x6E, 0xDD, 0xE1, 0xD2, 0xE4, 0x6F,
            0x21, 0x77,
        ]
    );
    assert_eq!(publisher_id.to_be_bytes(), user_hash);
}

#[test]
fn notes_publish_tags_are_deterministic_and_note_shaped() {
    let tags = build_notes_publish_tags("ubuntu linux.iso", 2_097_152);

    assert_eq!(
        tags,
        vec![
            Tag::filename("ubuntu linux.iso"),
            Tag::filesize(2_097_152),
            Tag::new_short(TAG_FILERATING, TagValue::U8(4)),
            Tag::new_short(
                TAG_DESCRIPTION,
                TagValue::String("overlord validation note for ubuntu linux.iso".to_string()),
            ),
        ]
    );
}

#[test]
fn ed2k_file_type_search_term_matches_oracle_program_family() {
    assert_eq!(ed2k_file_type_search_term("ubuntu-linux-oracle-sample.iso"), Some("Pro"));
    assert_eq!(ed2k_file_type_search_term("archive.7z"), Some("Pro"));
}

#[test]
fn ed2k_file_type_search_term_matches_common_media_families() {
    assert_eq!(ed2k_file_type_search_term("album.flac"), Some("Audio"));
    assert_eq!(ed2k_file_type_search_term("movie.mkv"), Some("Video"));
    assert_eq!(ed2k_file_type_search_term("scan.png"), Some("Image"));
    assert_eq!(ed2k_file_type_search_term("manual.pdf"), Some("Doc"));
    assert_eq!(ed2k_file_type_search_term("bundle.emulecollection"), Some("EmuleCollection"));
    assert_eq!(ed2k_file_type_search_term("README"), None);
}

#[test]
fn synthetic_publish_aich_hash_is_stable_for_same_file_identity() {
    let file_hash = Ed2kHash::from_bytes([0xAB; 16]);
    let first = synthetic_publish_aich_hash(&file_hash, "ubuntu.iso", 734_003_200);
    let second = synthetic_publish_aich_hash(&file_hash, "ubuntu.iso", 734_003_200);
    assert_eq!(first, second);
    assert_eq!(first.len(), 20);
}

#[test]
fn synthetic_publish_aich_hash_changes_when_file_identity_changes() {
    let file_hash = Ed2kHash::from_bytes([0xAB; 16]);
    let first = synthetic_publish_aich_hash(&file_hash, "ubuntu.iso", 734_003_200);
    let second = synthetic_publish_aich_hash(&file_hash, "ubuntu.iso", 734_003_201);
    assert_ne!(first, second);
}

#[test]
fn bound_ed2k_listener_is_treated_as_tcp_open() {
    assert!(!current_tcp_firewalled(Some(41001), &Ed2kServerState::default()));
}

#[test]
fn low_id_server_verdict_marks_tcp_as_firewalled() {
    let server = Ed2kServerState { client_id: Some(0x0000_2222), ..Ed2kServerState::default() };

    assert!(current_tcp_firewalled(Some(41001), &server));
}

#[test]
fn unbound_listener_is_treated_as_firewalled() {
    assert!(current_tcp_firewalled(None, &Ed2kServerState::default()));
    assert!(current_tcp_firewalled(Some(0), &Ed2kServerState::default()));
}

fn local(byte: u8) -> LocalHello {
    LocalHello {
        node_id: NodeId::from_bytes([byte; 16]),
        kad_udp_port: 41000,
        tcp_port: 41001,
        udp_verified: false,
        udp_open: false,
        tcp_firewalled: false,
    }
}

#[test]
fn hello_response_uses_oracle_hello_shape() {
    let hello = build_hello_response(&local(0x33), true);

    assert_eq!(hello.node_id, NodeId::from_bytes([0x33; 16]));
    assert!(hello.tags.iter().any(|tag| matches!(
        (&tag.name, &tag.value),
        (TagName::Short(name), TagValue::U16(_))
            if *name == TAG_SOURCEUPORT
    )));
}

#[test]
fn hello_request_uses_oracle_hello_shape() {
    let hello = build_hello_request(&local(0x44), true);

    assert_eq!(hello.node_id, NodeId::from_bytes([0x44; 16]));
    assert!(hello.tags.iter().any(|tag| matches!(
        (&tag.name, &tag.value),
        (TagName::Short(name), TagValue::U8(bits))
            if *name == TAG_KADMISCOPTIONS && (*bits & 0x04) != 0
    )));
}
