use overlord_agent::direct_download::{
    is_retryable_direct_download_error, DirectDownloadRun, ErrorCause, NativeDirectDownloadOutcome,
    PeerError, PeerOutcome,
};
use overlord_agent::ed2k::{
    ed2k_hello_identity_from_config, manifest_has_ed2k_transfer_progress, Ed2kConfig,
    Ed2kFoundSource, Ed2kPiece, Ed2kResumeManifest, Ed2kSearchFile, Ed2kServerState,
};
use overlord_agent::ed2k_download::{
    adopted_name, begin_download_activity, callback_intent, callback_route, callback_timeout_secs,
    callback_transfer_settled, callback_wait_budget_secs, check_download_kind,
    check_download_request, finish_download_activity, ingest_local_file_name,
    kad_source_timeout_secs, peer_connect_timeout_secs, requested_sources, wants_metadata,
    AcquisitionStep, ActiveDownloads, CallbackRoute, CallbackWait, CallbackWaitStep, DownloadFailure,
    DownloadSession, LocalIngestError, RefreshPlan, SourceAcquisition,
};
use overlord_agent::activity::AgentActivityTracker;
use overlord_agent::ed2k_enrich::{
    hash_only_ed2k_placeholder_name, is_hash_only_ed2k_placeholder_name, EnrichEd2kDownloadRequest,
    EnrichEd2kDownloadSource, EnrichError, IngestLocalFileRequest,
};
use overlord_agent::ed2k_search::{
    after_background_keyword_search, after_background_source_search, ed2k_content_type,
    ed2k_download_source_server_attempt_budget, ed2k_keyword_search_timeout,
    ed2k_keyword_server_attempt_budget, ed2k_source_search_timeout,
    kad_source_result_to_ed2k_found_source, learn_from_kad, map_ed2k_keyword_result,
    map_ed2k_source_result, select_ed2k_keyword_metadata, select_kad_keyword_metadata,
    ActiveEd2kSearchStep, KadSourceCollection, LearnedEd2kMetadata, MetadataSearch, MetadataStep,
    ServerSearchOptions,
};
use overlord_agent::ed2k_sources;
use overlord_agent::ed2k_sources::{
    direct_download_candidate_sources, new_direct_ed2k_source_count,
    plaintext_fallback_for_obfuscated_source, should_skip_no_progress_source_requery,
    sort_native_ed2k_download_sources,
};
use overlord_agent::ids::{Ed2kHash, Endpoint, IpAddr, Ipv4Addr, SocketAddr, Timestamp};
use overlord_agent::kad::{SearchResult, SourceResult};
use overlord_agent::source_merge;
use overlord_agent::types::{
    AgentActivityState, ContentType, FileRecord, HashType, JsonField, JsonScalar, JsonValue,
    Protocol, Source, TagEntry,
};

const LOCALHOST: Ipv4Addr = Ipv4Addr { a: 127, b: 0, c: 0, d: 1 };

fn direct(ip: Ipv4Addr, port: u16, client_id: u32) -> Ed2kFoundSource {
    Ed2kFoundSource {
        file_hash: Ed2kHash::from_bytes([0x44; 16]),
        ip,
        tcp_port: port,
        client_id,
        low_id: false,
        obfuscated: false,
        obfuscation_options: None,
        user_hash: None,
        source_server: None,
    }
}

fn obfuscated(ip: Ipv4Addr, port: u16, options: u8, user: u8) -> Ed2kFoundSource {
    Ed2kFoundSource {
        obfuscated: true,
        obfuscation_options: Some(options),
        user_hash: Some([user; 16]),
        ..direct(ip, port, 1)
    }
}

fn failure(message: &str) -> PeerOutcome {
    PeerOutcome::Failed {
        error: PeerError { message: message.to_string(), causes: vec![ErrorCause::Other] },
    }
}

fn refused() -> PeerOutcome {
    PeerOutcome::Failed {
        error: PeerError {
            message: "connection refused".to_string(),
            causes: vec![ErrorCause::ConnectionRefused],
        },
    }
}

/// Runs the downloads with sessions that end in the order in which they were started.
fn run_downloads(
    sources: Vec<Ed2kFoundSource>,
    max_parallel: usize,
    mut session: impl FnMut(&Ed2kFoundSource) -> PeerOutcome,
) -> (NativeDirectDownloadOutcome, Vec<(u16, bool, bool)>) {
    let mut run = DirectDownloadRun::new(sources, max_parallel);
    let mut attempts = Vec::new();
    loop {
        let mut in_flight = std::collections::VecDeque::new();
        while let Some(source) = run.start_next() {
            attempts.push((source.tcp_port, source.obfuscated, source.user_hash.is_some()));
            in_flight.push_back(source);
        }
        while let Some(source) = in_flight.pop_front() {
            let outcome = session(&source);
            if let Some(done) = run.report(&source, outcome) {
                return (done, attempts);
            }
            while let Some(next) = run.start_next() {
                attempts.push((next.tcp_port, next.obfuscated, next.user_hash.is_some()));
                in_flight.push_back(next);
            }
        }
        if let Some(done) = run.end_round(false, 0) {
            return (done, attempts);
        }
    }
}

fn ports(attempts: &[(u16, bool, bool)]) -> Vec<u16> {
    attempts.iter().map(|attempt| attempt.0).collect()
}

#[test]
fn native_direct_download_retries_other_direct_peer_after_failure() {
    let (outcome, attempts) = run_downloads(
        vec![direct(LOCALHOST, 41001, 1), direct(LOCALHOST, 41002, 2)],
        2,
        |source| {
            if source.tcp_port == 41001 {
                failure("simulated first peer failure")
            } else {
                PeerOutcome::Completed { manifest_completed: true }
            }
        },
    );
    assert!(outcome.completed);
    assert_eq!(outcome.accepted_incomplete_peers, 0);
    assert!(outcome.last_error.is_some());
    assert_eq!(ports(&attempts), vec![41001, 41002]);
}

#[test]
fn native_direct_download_retries_loopback_peer_after_connection_refused() {
    let mut count = 0;
    let (outcome, attempts) = run_downloads(vec![direct(LOCALHOST, 41001, 1)], 1, |_source| {
        count += 1;
        if count < 3 {
            refused()
        } else {
            PeerOutcome::Completed { manifest_completed: true }
        }
    });
    assert!(outcome.completed);
    assert_eq!(outcome.accepted_incomplete_peers, 0);
    assert!(outcome.last_error.is_some());
    assert_eq!(ports(&attempts), vec![41001, 41001, 41001]);
}

#[test]
fn native_direct_download_tries_plaintext_after_optional_obfuscated_failure() {
    let (outcome, attempts) = run_downloads(
        vec![obfuscated(LOCALHOST, 41001, 0x83, 0x22)],
        1,
        |source| {
            if source.obfuscated {
                failure("simulated obfuscated peer close")
            } else {
                PeerOutcome::Completed { manifest_completed: true }
            }
        },
    );
    assert!(outcome.completed);
    assert_eq!(attempts, vec![(41001, true, true), (41001, false, false)]);
}

#[test]
fn native_direct_download_tracks_accepted_incomplete_peer_separately_from_failure() {
    let (outcome, attempts) = run_downloads(
        vec![direct(LOCALHOST, 41001, 1), direct(LOCALHOST, 41002, 2)],
        2,
        |source| {
            if source.tcp_port == 41001 {
                PeerOutcome::AcceptedButIncomplete
            } else {
                PeerOutcome::Completed { manifest_completed: true }
            }
        },
    );
    assert!(outcome.completed);
    assert_eq!(outcome.accepted_incomplete_peers, 1);
    assert!(outcome.last_error.is_none());
    assert_eq!(ports(&attempts), vec![41001, 41002]);
}

#[test]
fn plaintext_fallback_preserves_crypt_required_sources() {
    let source = Ed2kFoundSource {
        file_hash: Ed2kHash::from_bytes([0x33; 16]),
        ip: LOCALHOST,
        tcp_port: 41001,
        client_id: 1,
        low_id: false,
        obfuscated: true,
        obfuscation_options: Some(0x87),
        user_hash: Some([0x22; 16]),
        source_server: None,
    };
    assert!(plaintext_fallback_for_obfuscated_source(&source).is_none());
}

#[test]
fn direct_download_candidates_exhaust_endpoint_family_after_attempt() {
    let file_hash = Ed2kHash::from_bytes([0x44; 16]);
    let attempted_endpoints = vec![Endpoint { ip: Ipv4Addr::new(10, 0, 0, 1), port: 41001 }];
    let sources = vec![
        Ed2kFoundSource {
            file_hash,
            ip: Ipv4Addr::new(10, 0, 0, 1),
            tcp_port: 41001,
            client_id: 1,
            low_id: false,
            obfuscated: true,
            obfuscation_options: Some(0x83),
            user_hash: Some([0x11; 16]),
            source_server: None,
        },
        Ed2kFoundSource {
            file_hash,
            ip: Ipv4Addr::new(10, 0, 0, 1),
            tcp_port: 41001,
            client_id: 2,
            low_id: false,
            obfuscated: false,
            obfuscation_options: None,
            user_hash: None,
            source_server: None,
        },
        Ed2kFoundSource {
            file_hash,
            ip: Ipv4Addr::new(10, 0, 0, 2),
            tcp_port: 41001,
            client_id: 3,
            low_id: false,
            obfuscated: true,
            obfuscation_options: Some(0x83),
            user_hash: Some([0x22; 16]),
            source_server: None,
        },
    ];

    let candidates = direct_download_candidate_sources(&sources, &attempted_endpoints);

    assert_eq!(candidates.len(), 1);
    assert_eq!(candidates[0].ip, Ipv4Addr::new(10, 0, 0, 2));
}

#[test]
fn direct_download_candidates_deduplicate_same_endpoint_in_one_round() {
    let file_hash = Ed2kHash::from_bytes([0x45; 16]);
    let sources = vec![
        Ed2kFoundSource {
            file_hash,
            ip: Ipv4Addr::new(10, 0, 0, 1),
            tcp_port: 41001,
            client_id: 1,
            low_id: false,
            obfuscated: true,
            obfuscation_options: Some(0x83),
            user_hash: Some([0x11; 16]),
            source_server: None,
        },
        Ed2kFoundSource {
            file_hash,
            ip: Ipv4Addr::new(10, 0, 0, 1),
            tcp_port: 41001,
            client_id: 2,
            low_id: false,
            obfuscated: false,
            obfuscation_options: None,
            user_hash: None,
            source_server: None,
        },
    ];

    let candidates = direct_download_candidate_sources(&sources, &Vec::new());

    assert_eq!(candidates.len(), 1);
    assert!(candidates[0].obfuscated);
    assert!(candidates[0].user_hash.is_some());
}

#[test]
fn no_progress_source_requery_skips_exhausted_direct_endpoints() {
    assert!(should_skip_no_progress_source_requery(true, false, 0));
    assert!(!should_skip_no_progress_source_requery(true, true, 0));
    assert!(!should_skip_no_progress_source_requery(true, false, 1));
    assert!(!should_skip_no_progress_source_requery(false, false, 0));
}

#[test]
fn kad_source_results_preserve_obfuscation_and_user_hash_metadata() {
    let source = kad_source_result_to_ed2k_found_source(SourceResult {
        file_hash: Ed2kHash::from_bytes([0x44; 16]),
        source_id: Ed2kHash::from_bytes([0x55; 16]),
        ip: Ipv4Addr::new(127, 0, 0, 2),
        tcp_port: 4662,
        udp_port: 4672,
        obfuscation_options: Some(0x03),
    });
    assert!(source.obfuscated);
    assert_eq!(source.obfuscation_options, Some(0x03));
    assert_eq!(source.user_hash, Some([0x55; 16]));
    assert_eq!(source.ip, Ipv4Addr::new(127, 0, 0, 2));
    assert_eq!(source.client_id, 0x7F00_0002);
}

fn config() -> Ed2kConfig {
    Ed2kConfig {
        listen_port: 41001,
        obfuscation_enabled: true,
        server_entries: Vec::new(),
        server_endpoints: Vec::new(),
        connect_timeout_secs: 8,
        keyword_server_attempt_budget: 1,
        exact_hash_keyword_server_attempt_budget: 1,
        source_server_attempt_budget: 1,
        kad_source_supplement_max_existing_sources: 2,
        max_parallel_download_peers: 4,
    }
}

#[test]
fn exact_ed2k_hash_queries_use_configured_server_budgets() {
    let mut config = config();
    config.server_endpoints = vec![
        "1.1.1.1:4661".to_string(),
        "2.2.2.2:4661".to_string(),
        "3.3.3.3:4661".to_string(),
        "4.4.4.4:4661".to_string(),
        "5.5.5.5:4661".to_string(),
    ];
    config.keyword_server_attempt_budget = 2;
    config.exact_hash_keyword_server_attempt_budget = 4;
    config.source_server_attempt_budget = 3;
    let exact_hash = Ed2kHash::from_bytes([0x44; 16]).to_text();

    assert_eq!(ed2k_keyword_server_attempt_budget(&config, &format!("ed2k::{exact_hash}")), 4);
    assert_eq!(ed2k_keyword_server_attempt_budget(&config, "ubuntu linux"), 2);
    assert_eq!(ed2k_download_source_server_attempt_budget(&config), 3);
}

#[test]
fn budgets_stay_within_the_configured_servers() {
    let mut config = config();
    config.source_server_attempt_budget = 9;
    assert_eq!(ed2k_download_source_server_attempt_budget(&config), 1);
    config.server_entries = vec!["a".to_string(), "b".to_string()];
    assert_eq!(ed2k_download_source_server_attempt_budget(&config), 2);
    config.source_server_attempt_budget = 0;
    assert_eq!(ed2k_download_source_server_attempt_budget(&config), 1);
}

#[test]
fn select_ed2k_keyword_metadata_prefers_exact_hash_with_size_and_name() {
    let exact_hash = Ed2kHash::from_bytes([0x44; 16]);
    let other_hash = Ed2kHash::from_bytes([0xAA; 16]);
    let metadata = select_ed2k_keyword_metadata(
        &vec![
            Ed2kSearchFile {
                file_hash: exact_hash,
                file_name: Some("".to_string()),
                file_size: Some(0),
                file_type: None,
                source_count: Some(100),
            },
            Ed2kSearchFile {
                file_hash: other_hash,
                file_name: Some("wrong.bin".to_string()),
                file_size: Some(123),
                file_type: None,
                source_count: Some(5),
            },
            Ed2kSearchFile {
                file_hash: exact_hash,
                file_name: Some("resolved.bin".to_string()),
                file_size: Some(4_294_967_299),
                file_type: Some("Pro".to_string()),
                source_count: Some(12),
            },
        ],
        exact_hash,
    )
    .unwrap();
    assert_eq!(metadata.canonical_name.as_deref(), Some("resolved.bin"));
    assert_eq!(metadata.file_size, Some(4_294_967_299));
}

fn named_result(name: &str, size: Option<u64>, count: Option<u32>) -> Ed2kSearchFile {
    Ed2kSearchFile {
        file_hash: Ed2kHash::from_bytes([0x44; 16]),
        file_name: Some(name.to_string()),
        file_size: size,
        file_type: None,
        source_count: count,
    }
}

#[test]
fn best_metadata_is_the_last_of_equally_good_results() {
    let hash = Ed2kHash::from_bytes([0x44; 16]);
    let metadata = select_ed2k_keyword_metadata(
        &vec![
            named_result("first", Some(1), Some(5)),
            named_result(" second ", Some(2), Some(5)),
            named_result("third", Some(3), Some(4)),
            named_result("no size", None, Some(500)),
        ],
        hash,
    )
    .unwrap();
    assert_eq!(metadata.canonical_name.as_deref(), Some("second"));
    assert_eq!(metadata.file_size, Some(2));
    assert!(select_ed2k_keyword_metadata(&vec![named_result("  ", Some(0), None)], hash).is_none());
}

#[test]
fn kad_search_result_exposes_exact_hash_metadata() {
    let exact_hash = Ed2kHash::from_bytes([0x44; 16]);
    let metadata = select_kad_keyword_metadata(
        &SearchResult {
            hash: exact_hash,
            names: vec!["resolved.bin".to_string()],
            size: Some(5_000),
            source_count: Some(3),
            tags: Vec::new(),
        },
        exact_hash,
    )
    .unwrap();
    assert_eq!(metadata.canonical_name.as_deref(), Some("resolved.bin"));
    assert_eq!(metadata.file_size, Some(5_000));
}

#[test]
fn metadata_is_learned_from_several_kad_results() {
    let hash = Ed2kHash::from_bytes([0x44; 16]);
    let mut learned = LearnedEd2kMetadata::default();
    let sized = SearchResult {
        hash,
        names: vec![" ".to_string()],
        size: Some(7),
        source_count: None,
        tags: Vec::new(),
    };
    let named = SearchResult {
        hash,
        names: vec!["  ".to_string(), " name.bin ".to_string()],
        size: Some(8),
        source_count: None,
        tags: Vec::new(),
    };
    assert!(!learn_from_kad(&mut learned, &sized, hash));
    assert!(learn_from_kad(&mut learned, &named, hash));
    assert_eq!(
        learned,
        LearnedEd2kMetadata { canonical_name: Some("name.bin".to_string()), file_size: Some(7) }
    );
}

#[test]
fn metadata_search_asks_on_until_all_is_known() {
    let server = Ed2kServerState { connected: true, endpoint: None, client_id: None };
    let mut search = MetadataSearch::begin(&server);
    assert_eq!(search.step, MetadataStep::Background);
    search.advance(None);
    assert_eq!(search.step, MetadataStep::Servers);
    search.advance(Some(LearnedEd2kMetadata { canonical_name: None, file_size: Some(3) }));
    assert_eq!(search.step, MetadataStep::Kad);
    search.advance(Some(LearnedEd2kMetadata {
        canonical_name: Some("late".to_string()),
        file_size: Some(9),
    }));
    assert_eq!(search.step, MetadataStep::Done);
    assert_eq!(
        search.finish(),
        Some(LearnedEd2kMetadata { canonical_name: Some("late".to_string()), file_size: Some(3) })
    );
    assert!(MetadataSearch::begin(&Ed2kServerState::default()).finish().is_none());
}

#[test]
fn refused_connections_are_retryable() {
    let error = PeerError {
        message: "outer".to_string(),
        causes: vec![ErrorCause::Other, ErrorCause::ConnectionRefused],
    };
    assert!(is_retryable_direct_download_error(&error));
    let other = PeerError { message: "outer".to_string(), causes: vec![ErrorCause::OtherIo] };
    assert!(!is_retryable_direct_download_error(&other));
}

#[test]
fn remote_sources_are_not_retried() {
    let (outcome, attempts) =
        run_downloads(vec![direct(Ipv4Addr::new(10, 0, 0, 1), 5, 1)], 1, |_source| refused());
    assert!(!outcome.completed);
    assert_eq!(outcome.last_error.as_deref(), Some("connection refused"));
    assert_eq!(attempts.len(), 1);
}

#[test]
fn loopback_retries_end_with_the_window() {
    let mut run = DirectDownloadRun::new(vec![direct(LOCALHOST, 5, 1)], 0);
    assert_eq!(run.max_parallel, 1);
    let source = run.start_next().unwrap();
    assert!(run.start_next().is_none());
    assert!(run.report(&source, refused()).is_none());
    assert!(run.end_round(false, 359).is_none());
    let source = run.start_next().unwrap();
    assert!(run.report(&source, refused()).is_none());
    let outcome = run.end_round(false, 360).unwrap();
    assert_eq!(outcome.last_error.as_deref(), Some("connection refused"));
}

#[test]
fn a_round_starts_every_source_and_no_more_than_two_sessions_each() {
    let sources = vec![
        obfuscated(Ipv4Addr::new(10, 0, 0, 1), 1, 0x03, 1),
        obfuscated(Ipv4Addr::new(10, 0, 0, 2), 2, 0x07, 2),
        direct(Ipv4Addr::new(10, 0, 0, 3), 3, 3),
    ];
    let (outcome, attempts) = run_downloads(sources, 2, |_source| failure("no"));
    assert!(!outcome.completed);
    assert_eq!(ports(&attempts), vec![1, 2, 1, 3]);
}

#[test]
fn a_round_starts_each_listing_once_and_one_fallback_per_failure() {
    let remote = Ipv4Addr::new(10, 0, 0, 1);
    let optional = obfuscated(remote, 1, 0x03, 1);
    let sources = vec![optional, direct(remote, 2, 2), optional, obfuscated(remote, 3, 0x07, 3)];
    let mut failures = 0;
    let (outcome, attempts) = run_downloads(sources, 1, |source| {
        if source.tcp_port == 1 && source.obfuscated && failures == 0 {
            failures += 1;
            failure("no")
        } else {
            PeerOutcome::AcceptedButIncomplete
        }
    });
    assert_eq!(
        attempts,
        vec![
            (1, true, true),
            (1, false, false),
            (2, false, false),
            (1, true, true),
            (3, true, true)
        ]
    );
    assert_eq!(outcome.accepted_incomplete_peers, 4);
}

#[test]
fn only_an_incomplete_session_takes_room_in_its_count() {
    let mut run = DirectDownloadRun::new(vec![direct(LOCALHOST, 5, 1)], 1);
    run.accepted_incomplete_peers = u32::MAX;
    let source = run.start_next().unwrap();
    assert!(run.report(&source, failure("no")).is_none());
    assert_eq!(run.accepted_incomplete_peers, u32::MAX);
    assert_eq!(run.last_error.as_deref(), Some("no"));
}

#[test]
fn a_completed_session_without_a_whole_file_goes_on() {
    let (outcome, attempts) = run_downloads(
        vec![direct(LOCALHOST, 1, 1), direct(LOCALHOST, 2, 2)],
        1,
        |_source| PeerOutcome::Completed { manifest_completed: false },
    );
    assert!(!outcome.completed);
    assert_eq!(attempts.len(), 2);
}

#[test]
fn sources_are_sorted_by_readiness_and_stay_in_order() {
    let low = Ed2kFoundSource { low_id: true, ..obfuscated(LOCALHOST, 1, 3, 1) };
    let plain_a = direct(LOCALHOST, 2, 2);
    let ready = obfuscated(LOCALHOST, 3, 3, 3);
    let plain_b = direct(LOCALHOST, 4, 4);
    let hashed = Ed2kFoundSource { obfuscation_options: None, ..obfuscated(LOCALHOST, 5, 3, 5) };
    let mut sources = vec![low, plain_a, ready, plain_b, hashed];
    sort_native_ed2k_download_sources(&mut sources);
    let order: Vec<u16> = sources.iter().map(|source| source.tcp_port).collect();
    assert_eq!(order, vec![3, 5, 2, 4, 1]);
}

#[test]
fn merging_drops_duplicates_and_is_idempotent() {
    let a = direct(LOCALHOST, 1, 1);
    let b = direct(LOCALHOST, 2, 2);
    let twin = Ed2kFoundSource { client_id: 9, ..a };
    let mut known = vec![a];
    ed2k_sources::merge_download_sources(&mut known, &vec![twin, b, b]);
    assert_eq!(known, vec![a, b]);
    ed2k_sources::merge_download_sources(&mut known, &vec![twin, b, b]);
    assert_eq!(known, vec![a, b]);
}

#[test]
fn merging_lets_a_known_source_learn_its_server() {
    let server = SocketAddr { ip: IpAddr::V4(Ipv4Addr::new(1, 2, 3, 4)), port: 4661 };
    let other = SocketAddr { ip: IpAddr::V4(Ipv4Addr::new(1, 2, 3, 4)), port: 4662 };
    let a = direct(LOCALHOST, 1, 1);
    let with_server = Ed2kFoundSource { source_server: Some(server), ..a };
    let with_other = Ed2kFoundSource { source_server: Some(other), ..a };
    let mut known = vec![a];
    source_merge::merge_download_sources(&mut known, &vec![with_server, with_other]);
    assert_eq!(known, vec![with_server]);
    let mut kept = vec![a];
    ed2k_sources::merge_download_sources(&mut kept, &vec![with_server]);
    assert_eq!(kept, vec![a]);
}

#[test]
fn dialed_endpoints_are_exhausted() {
    let sources = vec![
        obfuscated(LOCALHOST, 1, 3, 1),
        direct(LOCALHOST, 1, 2),
        direct(LOCALHOST, 0, 3),
        Ed2kFoundSource { low_id: true, ..direct(LOCALHOST, 7, 4) },
    ];
    let first = direct_download_candidate_sources(&sources, &Vec::new());
    assert_eq!(first.len(), 1);
    let attempted: Vec<Endpoint> = first.iter().map(|source| source.endpoint()).collect();
    assert_eq!(new_direct_ed2k_source_count(&sources, &attempted), 0);
}

#[test]
fn plaintext_fallback_is_the_same_peer_in_plaintext() {
    let source = obfuscated(LOCALHOST, 9, 0x83, 4);
    let fallback = plaintext_fallback_for_obfuscated_source(&source).unwrap();
    assert_eq!(
        fallback,
        Ed2kFoundSource { obfuscated: false, obfuscation_options: None, user_hash: None, ..source }
    );
    assert!(plaintext_fallback_for_obfuscated_source(&fallback).is_none());
}

fn manifest() -> Ed2kResumeManifest {
    Ed2kResumeManifest {
        completed: false,
        md4_hashset_acquired: false,
        verified_ranges: Vec::new(),
        pieces: vec![Ed2kPiece { bytes_written: 0 }, Ed2kPiece { bytes_written: 0 }],
    }
}

#[test]
fn progress_is_anything_that_was_persisted() {
    assert!(!manifest_has_ed2k_transfer_progress(&manifest()));
    let mut written = manifest();
    written.pieces[1].bytes_written = 1;
    assert!(manifest_has_ed2k_transfer_progress(&written));
    assert!(!callback_transfer_settled(&written));
    let mut verified = manifest();
    verified.verified_ranges.push((0, 5));
    assert!(manifest_has_ed2k_transfer_progress(&verified));
    assert!(callback_transfer_settled(&verified));
    let mut hashed = manifest();
    hashed.md4_hashset_acquired = true;
    assert!(manifest_has_ed2k_transfer_progress(&hashed));
}

#[test]
fn callbacks_are_awaited_until_something_is_verified_or_the_budget_is_spent() {
    let poll = CallbackWaitStep::Poll { pause_secs: 2 };
    let mut verified = manifest();
    verified.verified_ranges.push((0, 5));
    let mut wait = CallbackWait::begin(&config(), &verified);
    assert_eq!(wait.next(0), poll);
    wait.observe(&manifest());
    assert_eq!(wait.next(89), poll);
    assert_eq!(wait.next(90), CallbackWaitStep::Done);
    wait.observe(&verified);
    assert_eq!(wait.next(1), CallbackWaitStep::Done);
    let mut whole = manifest();
    whole.completed = true;
    assert_eq!(CallbackWait::begin(&config(), &whole).next(0), CallbackWaitStep::Done);
}

fn enrich_source(user_hash: Option<&str>) -> EnrichEd2kDownloadSource {
    EnrichEd2kDownloadSource {
        ip: Ipv4Addr::new(10, 0, 0, 9),
        tcp_port: 4662,
        client_id: None,
        low_id: None,
        obfuscation_options: Some(3),
        user_hash: user_hash.map(|value| value.to_string()),
    }
}

#[test]
fn requested_sources_are_filled_in() {
    let hash = Ed2kHash::from_bytes([1; 16]);
    let found = enrich_source(Some("000102030405060708090A0b0c0d0e0f")).into_found_source(hash).unwrap();
    assert_eq!(found.client_id, 0x0A00_0009);
    assert!(!found.low_id);
    assert!(found.obfuscated);
    assert_eq!(found.user_hash, Some([0, 1, 2, 3, 4, 5, 6, 7, 8, 9, 10, 11, 12, 13, 14, 15]));
    let error = enrich_source(Some("zz")).into_found_source(hash).unwrap_err();
    assert_eq!(error.message(), "invalid source user hash zz");
    let error = enrich_source(Some("0001")).into_found_source(hash).unwrap_err();
    assert_eq!(error, EnrichError::UserHashLength);
    assert_eq!(error.message(), "source user hash must be 16 bytes");
}

#[test]
fn the_first_bad_source_refuses_a_request() {
    let hash = Ed2kHash::from_bytes([1; 16]);
    assert_eq!(requested_sources(vec![enrich_source(None), enrich_source(None)], hash).unwrap().len(), 2);
    let error = requested_sources(
        vec![enrich_source(None), enrich_source(Some("00")), enrich_source(Some("zz"))],
        hash,
    )
    .unwrap_err();
    assert_eq!(error, DownloadFailure::InvalidSource { error: EnrichError::UserHashLength });
}

fn request(name: Option<&str>, size: Option<u64>) -> EnrichEd2kDownloadRequest {
    EnrichEd2kDownloadRequest {
        kind: "ed2k_download".to_string(),
        file_hash: "44444444444444444444444444444444".to_string(),
        file_name: name.map(|value| value.to_string()),
        file_size: size,
        sources: Vec::new(),
    }
}

#[test]
fn names_fall_back_to_a_stand_in() {
    let hash = "44444444444444444444444444444444";
    assert_eq!(request(Some("  a b "), None).canonical_name(), "a b");
    assert_eq!(request(Some("   "), None).canonical_name(), format!("ed2k-{hash}.bin"));
    assert_eq!(hash_only_ed2k_placeholder_name(hash), format!("ed2k-{hash}.bin"));
    assert!(is_hash_only_ed2k_placeholder_name("ED2K-AB.BIN", "ab"));
    assert!(!is_hash_only_ed2k_placeholder_name("x.bin", "ab"));
    assert_eq!(request(None, Some(5)).file_size_or_unknown(), 5);
    assert_eq!(request(None, None).file_size_or_unknown(), 0);
}

#[test]
fn metadata_is_wanted_for_unknown_files() {
    assert!(wants_metadata(&request(None, Some(5))));
    assert!(wants_metadata(&request(Some("known.iso"), None)));
    assert!(!wants_metadata(&request(Some("known.iso"), Some(5))));
    let mut with_sources = request(None, None);
    with_sources.sources.push(enrich_source(None));
    assert!(!wants_metadata(&with_sources));
    let learned =
        LearnedEd2kMetadata { canonical_name: Some("learned.iso".to_string()), file_size: Some(1) };
    assert_eq!(adopted_name(&request(None, None), &learned).as_deref(), Some("learned.iso"));
    assert_eq!(adopted_name(&request(Some("known.iso"), None), &learned), None);
}

#[test]
fn download_requests_are_checked_in_order() {
    let mut other = request(None, None);
    other.kind = "other".to_string();
    other.file_hash = "zz".to_string();
    let error = check_download_request(&other, false).unwrap_err();
    assert_eq!(error.message(), "unsupported enrich kind other");
    assert!(check_download_kind(&other).is_err());
    let mut bad_hash = request(None, None);
    bad_hash.file_hash = "zz".to_string();
    let error = check_download_request(&bad_hash, false).unwrap_err();
    assert_eq!(error.message(), "invalid ED2K file hash zz");
    let error = check_download_request(&request(None, None), false).unwrap_err();
    assert_eq!(error.message(), "agent networking is waiting for interface selection");
    assert_eq!(check_download_request(&request(None, None), true).unwrap(), Ed2kHash([0x44; 16]));
    assert!(check_download_kind(&request(None, None)).is_ok());
}

#[test]
fn local_ingest_takes_a_name() {
    let mut ingest = IngestLocalFileRequest { source_path: "/x".to_string(), canonical_name: None };
    assert_eq!(ingest_local_file_name(&ingest, false), Err(LocalIngestError::WaitingForInterface));
    let error = ingest_local_file_name(&ingest, true).unwrap_err();
    assert_eq!(error.message(), "local ingest payload requires canonicalName");
    ingest.canonical_name = Some(" file ".to_string());
    assert_eq!(ingest_local_file_name(&ingest, true), Ok("file".to_string()));
}

#[test]
fn sources_are_acquired_step_by_step() {
    let endpoint = SocketAddr { ip: IpAddr::V4(Ipv4Addr::new(1, 2, 3, 4)), port: 4661 };
    let server = Ed2kServerState { connected: true, endpoint: Some(endpoint), client_id: Some(1) };
    let mut acquisition = SourceAcquisition::begin(&server, 100, 1);
    assert_eq!(acquisition.step, AcquisitionStep::Background);
    assert_eq!(
        acquisition.server_options(&config()),
        ServerSearchOptions {
            preferred_endpoint: Some(endpoint),
            excluded_endpoint: Some(endpoint),
            max_attempts: 1,
        }
    );
    acquisition.advance(None);
    assert_eq!(acquisition.step, AcquisitionStep::Servers);
    acquisition.advance(Some(Vec::new()));
    assert_eq!(acquisition.step, AcquisitionStep::UdpServers);
    acquisition.advance(Some(vec![direct(LOCALHOST, 1, 1)]));
    assert_eq!(acquisition.step, AcquisitionStep::Kad);
    acquisition.advance(Some(vec![direct(LOCALHOST, 1, 1), direct(LOCALHOST, 2, 2)]));
    assert_eq!(acquisition.step, AcquisitionStep::Done);
    assert_eq!(acquisition.sources.len(), 2);
}

#[test]
fn kad_is_skipped_for_unknown_sizes_and_enough_sources() {
    let server = Ed2kServerState::default();
    let mut unknown = SourceAcquisition::begin(&server, 0, 5);
    assert_eq!(unknown.step, AcquisitionStep::Servers);
    assert_eq!(unknown.server_options(&config()).excluded_endpoint, None);
    unknown.advance(Some(vec![direct(LOCALHOST, 1, 1)]));
    assert_eq!(unknown.step, AcquisitionStep::Done);
    let mut enough = SourceAcquisition::begin(&server, 10, 0);
    enough.advance(Some(vec![direct(LOCALHOST, 1, 1)]));
    assert_eq!(enough.step, AcquisitionStep::Done);
}

#[test]
fn kad_sources_are_collected_up_to_the_cap() {
    let mut collection = KadSourceCollection::new();
    assert!(collection.should_retry(501));
    assert!(!collection.should_retry(500));
    for port in 1..=64u16 {
        let result = SourceResult {
            file_hash: Ed2kHash::from_bytes([1; 16]),
            source_id: Ed2kHash::from_bytes([2; 16]),
            ip: LOCALHOST,
            tcp_port: port,
            udp_port: 0,
            obfuscation_options: None,
        };
        if port < 64 {
            assert!(!collection.accept(result));
            assert!(!collection.accept(result));
        } else {
            assert!(collection.accept(result));
        }
    }
    assert_eq!(collection.sources.len(), 64);
    assert!(!collection.should_retry(10_000));
}

fn session(sources: Vec<Ed2kFoundSource>, auto: bool) -> DownloadSession {
    DownloadSession::begin("hash".to_string(), auto, 10, sources).unwrap_or_else(|_| panic!("no sources"))
}

#[test]
fn a_download_takes_a_source() {
    let error = match DownloadSession::begin("h".to_string(), true, 0, Vec::new()) {
        Ok(_) => panic!("a session without sources"),
        Err(error) => error,
    };
    assert_eq!(error.message(), "no ED2K sources available for h");
}

#[test]
fn endpoints_are_dialed_once_and_callbacks_requested_once() {
    let low = Ed2kFoundSource { low_id: true, ..direct(LOCALHOST, 9, 7) };
    let mut session = session(vec![low, direct(LOCALHOST, 1, 1)], true);
    let plan = session.begin_round();
    assert_eq!(plan.callbacks, vec![low]);
    assert_eq!(plan.direct, vec![direct(LOCALHOST, 1, 1)]);
    let again = session.begin_round();
    assert!(again.callbacks.is_empty());
    assert!(again.direct.is_empty());
    assert!(session.awaits_callbacks());
    assert_eq!(session.plan_refresh(false), RefreshPlan::Stop);
}

#[test]
fn sources_are_refreshed_a_bounded_number_of_times() {
    let low = Ed2kFoundSource { low_id: true, ..direct(LOCALHOST, 9, 7) };
    let mut session = session(vec![low], true);
    session.begin_round();
    assert_eq!(session.plan_refresh(false), RefreshPlan::Refresh { delay_secs: 0 });
    assert!(session.take_refreshed(Some(Vec::new()), false));
    session.begin_round();
    assert_eq!(session.plan_refresh(false), RefreshPlan::Refresh { delay_secs: 5 });
    assert!(session.take_refreshed(Some(vec![direct(LOCALHOST, 1, 1)]), false));
    let plan = session.begin_round();
    assert_eq!(plan.direct.len(), 1);
    assert_eq!(session.plan_refresh(true), RefreshPlan::Stop);
}

#[test]
fn given_sources_are_never_refreshed() {
    let given = session(vec![direct(LOCALHOST, 1, 1)], false);
    assert!(!given.may_refresh());
    let mut found = session(vec![direct(LOCALHOST, 1, 1)], true);
    assert!(found.may_refresh());
    assert_eq!(found.plan_refresh(true), RefreshPlan::Refresh { delay_secs: 0 });
    assert!(found.may_refresh());
    assert_eq!(found.plan_refresh(true), RefreshPlan::Refresh { delay_secs: 5 });
    assert!(!found.may_refresh());
}

#[test]
fn a_failed_refresh_is_tried_once_more() {
    let low = Ed2kFoundSource { low_id: true, ..direct(LOCALHOST, 9, 7) };
    let mut session = session(vec![low], true);
    session.begin_round();
    session.plan_refresh(false);
    assert!(session.take_refreshed(None, false));
    session.plan_refresh(false);
    assert!(!session.take_refreshed(None, false));
}

#[test]
fn named_sources_are_not_refreshed() {
    let mut session = session(vec![direct(LOCALHOST, 1, 1)], false);
    session.begin_round();
    assert_eq!(session.plan_refresh(true), RefreshPlan::Stop);
}

#[test]
fn verdicts_say_how_far_a_download_got() {
    let low = Ed2kFoundSource { low_id: true, ..direct(LOCALHOST, 9, 7) };
    let mut only_low = session(vec![low], true);
    only_low.begin_round();
    assert_eq!(
        only_low.verdict(false, false).unwrap_err().message(),
        "native ED2K download found only callback-only or otherwise non-dialable sources for hash"
    );
    let mut called_back = session(vec![low], true);
    called_back.begin_round();
    assert!(called_back.verdict(true, false).is_ok());

    let mut silent = session(vec![direct(LOCALHOST, 1, 1)], true);
    silent.begin_round();
    assert_eq!(
        silent.verdict(true, false).unwrap_err().message(),
        "native ED2K download for hash did not complete and no peer reported a concrete error"
    );

    let mut incomplete = session(vec![direct(LOCALHOST, 1, 1)], true);
    incomplete.begin_round();
    assert!(!incomplete.take_direct_outcome(NativeDirectDownloadOutcome {
        completed: false,
        accepted_incomplete_peers: 3,
        last_error: None,
    }));
    assert_eq!(
        incomplete.verdict(false, false).unwrap_err().message(),
        "native ED2K download for hash did not complete after 3 accepted incomplete peer sessions"
    );

    let mut failed = session(vec![direct(LOCALHOST, 1, 1)], true);
    failed.begin_round();
    failed.take_direct_outcome(NativeDirectDownloadOutcome {
        completed: false,
        accepted_incomplete_peers: u32::MAX,
        last_error: Some("boom".to_string()),
    });
    failed.take_direct_outcome(NativeDirectDownloadOutcome {
        completed: false,
        accepted_incomplete_peers: 1,
        last_error: None,
    });
    assert_eq!(failed.accepted_incomplete_peers, u32::MAX);
    let error = failed.verdict(false, false).unwrap_err();
    assert_eq!(
        error,
        DownloadFailure::DirectFailed { file_hash: "hash".to_string(), last_error: "boom".to_string() }
    );
    assert_eq!(
        error.message(),
        "native ED2K download did not complete for hash after trying discovered sources"
    );

    let mut whole = session(vec![direct(LOCALHOST, 1, 1)], true);
    whole.begin_round();
    assert!(whole.verdict(false, true).is_ok());
}

#[test]
fn callbacks_go_through_the_server_that_named_the_source() {
    let server = SocketAddr { ip: IpAddr::V4(Ipv4Addr::new(1, 2, 3, 4)), port: 4661 };
    let source = obfuscated(Ipv4Addr::new(10, 0, 0, 7), 4662, 3, 0xAB);
    assert_eq!(callback_route(&source), CallbackRoute::Background);
    let named = Ed2kFoundSource { source_server: Some(server), ..source };
    assert_eq!(callback_route(&named), CallbackRoute::Server(server));
    let intent = callback_intent(&source, "hash", "name", 5);
    assert_eq!(intent.source_ip, "10.0.0.7");
    assert_eq!(intent.source_user_hash, Some("ab".repeat(16)));
    assert_eq!(intent.file_hash, "hash");
    assert_eq!(intent.canonical_name, "name");
}

#[test]
fn timeouts_have_floors() {
    let mut config = config();
    assert_eq!(ed2k_source_search_timeout(&config), 15);
    assert_eq!(ed2k_keyword_search_timeout(&config), 8);
    assert_eq!(callback_timeout_secs(&config), 30);
    assert_eq!(callback_wait_budget_secs(&config), 90);
    assert_eq!(peer_connect_timeout_secs(&config), 10);
    assert_eq!(kad_source_timeout_secs(&config), 45);
    config.connect_timeout_secs = 100;
    assert_eq!(ed2k_source_search_timeout(&config), 100);
    assert_eq!(callback_wait_budget_secs(&config), 100);
    assert_eq!(kad_source_timeout_secs(&config), 100);
}

#[test]
fn a_file_is_fetched_once_at_a_time() {
    let mut active = ActiveDownloads::new();
    assert_eq!(active.begin("AbCd"), Ok("abcd".to_string()));
    let error = active.begin("ABCD").unwrap_err();
    assert_eq!(error.message(), "ED2K download abcd is already active");
    assert!(active.begin("ef").is_ok());
    active.finish("abcd");
    assert!(active.begin("abcd").is_ok());
    assert_eq!(active.hashes.len(), 2);
}

#[test]
fn downloads_are_shown_while_they_run() {
    let at = Timestamp { secs: 5, nanos: 0 };
    let mut tracker = AgentActivityTracker::new(at);
    tracker.leave("starting", at);
    let key = begin_download_activity(&mut tracker, &request(Some("a.iso"), None), "ff", at);
    assert_eq!(key, "ed2k_download:ff");
    let shown = tracker.current_snapshot(None, at);
    assert_eq!(shown.state, AgentActivityState::Downloading);
    assert_eq!(shown.protocol, Some(Protocol::Ed2k));
    assert_eq!(shown.query_or_target.as_deref(), Some("a.iso (ff)"));
    finish_download_activity(&mut tracker, &key, "ff", Some("boom".to_string()), at);
    let shown = tracker.current_snapshot(None, at);
    assert_eq!(shown.state, AgentActivityState::Degraded);
    assert_eq!(shown.query_or_target.as_deref(), Some("ED2K download ff"));
    assert_eq!(shown.last_error.as_deref(), Some("boom"));
    finish_download_activity(&mut tracker, &key, "ff", None, at);
    assert_eq!(tracker.current_snapshot(None, at).state, AgentActivityState::Idle);
}

#[test]
fn the_identity_without_a_server_is_bare() {
    let identity = ed2k_hello_identity_from_config(&config(), 41000, [7; 16]);
    assert_eq!(identity.client_id, 0);
    assert_eq!(identity.tcp_port, 41001);
    assert_eq!(identity.udp_port, 41000);
    assert_eq!(identity.connect_options, 3);
    assert_eq!(identity.user_hash, [7; 16]);
}

#[test]
fn file_types_map_to_content_types() {
    assert_eq!(ed2k_content_type(Some("Video")), Some(ContentType::Video));
    assert_eq!(ed2k_content_type(Some("Doc")), Some(ContentType::Document));
    assert_eq!(ed2k_content_type(Some("EmuleCollection")), Some(ContentType::Software));
    assert_eq!(ed2k_content_type(Some("Image")), Some(ContentType::Unknown));
    assert_eq!(ed2k_content_type(None), None);
}

#[test]
fn server_results_become_records() {
    let record = map_ed2k_keyword_result(&Ed2kSearchFile {
        file_hash: Ed2kHash::from_bytes([0xAB; 16]),
        file_name: Some("a.mp3".to_string()),
        file_size: Some(9),
        file_type: Some("Audio".to_string()),
        source_count: Some(4),
    });
    assert_eq!(
        record,
        FileRecord {
            hashes: vec![HashType::Ed2k("ab".repeat(16))],
            names: vec!["a.mp3".to_string()],
            size: Some(9),
            content_type: Some(ContentType::Audio),
            tags: vec![
                TagEntry {
                    key: "ed2k_file_type".to_string(),
                    value: JsonValue::Scalar(JsonScalar::Text("Audio".to_string())),
                },
                TagEntry {
                    key: "ed2k_source_count".to_string(),
                    value: JsonValue::Scalar(JsonScalar::Number(4)),
                },
            ],
            sources: Vec::new(),
        }
    );
    let record = map_ed2k_source_result(&obfuscated(LOCALHOST, 4662, 3, 0xCD), 77);
    assert_eq!(record.size, Some(77));
    assert_eq!(
        record.sources,
        vec![Source {
            protocol: Protocol::Ed2k,
            address: "127.0.0.1:4662".to_string(),
            extra: JsonValue::Object(vec![
                JsonField::new("search_mode", JsonScalar::Text("server_source".to_string())),
                JsonField::new("client_id", JsonScalar::Number(1)),
                JsonField::new("direct_dialable", JsonScalar::Bool(true)),
                JsonField::new("low_id", JsonScalar::Bool(false)),
                JsonField::new("obfuscated", JsonScalar::Bool(true)),
                JsonField::new("obfuscation_options", JsonScalar::Number(3)),
                JsonField::new("user_hash", JsonScalar::Text("cd".repeat(16))),
            ]),
        }]
    );
}

#[test]
fn active_searches_fall_back_to_other_servers() {
    let endpoint = Some(SocketAddr { ip: IpAddr::V4(Ipv4Addr::new(1, 2, 3, 4)), port: 4661 });
    let step = after_background_keyword_search(None, &config(), "ubuntu", endpoint);
    assert_eq!(
        step,
        ActiveEd2kSearchStep::Servers {
            options: ServerSearchOptions {
                preferred_endpoint: endpoint,
                excluded_endpoint: None,
                max_attempts: 1,
            },
        }
    );
    let step = after_background_keyword_search(
        Some(vec![named_result("x", None, None)]),
        &config(),
        "ubuntu",
        endpoint,
    );
    assert!(matches!(step, ActiveEd2kSearchStep::Post { files } if files.len() == 1));
    let step = after_background_source_search(true, Some(Vec::new()), 1, endpoint);
    assert_eq!(
        step,
        ActiveEd2kSearchStep::Servers {
            options: ServerSearchOptions {
                preferred_endpoint: endpoint,
                excluded_endpoint: endpoint,
                max_attempts: 3,
            },
        }
    );
    let step = after_background_source_search(false, None, 1, endpoint);
    assert!(matches!(
        step,
        ActiveEd2kSearchStep::Servers { options } if options.excluded_endpoint.is_none()
    ));
}
