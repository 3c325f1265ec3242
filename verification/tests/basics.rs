use md4::{Digest, Md4};
use overlord_agent::api::{
    agent_interfaces_path, dispatch_payload, snoop_restore_path, ControlRoute, DispatchPayload,
};
use overlord_agent::ids::{
    emule_kad_chunk_order, same_bytes16, same_optional_bytes16, Ed2kHash, Endpoint, IpAddr,
    Ipv4Addr, NodeId, SocketAddr, Timestamp, Uuid,
};
use overlord_agent::kad::{
    Contact, ContactType, NoteResult, SearchKeyReq, SearchNotesReq, SearchResult, SearchSourceReq,
    SourceResult, Tag, TagName, TagValue, TAG_FILETYPE, TAG_SOURCETYPE,
};
use overlord_agent::keywords::{
    hash_only_ed2k_search_query, keyword_lookup_word, keyword_target, significant_keyword_words,
};
use overlord_agent::lifecycle::{
    agent_exit, bootstrap_contact, bootstrap_nodes_text, download_slots, load_or_create_indexer_id,
    load_or_create_node_id, load_or_create_udp_key, nat_mappings_from_config, new_node_identity,
    parse_u32, plan_reconcile, plan_startup, resolved_socket_addr, watches_interface,
    AgentStatePaths, MappingExposure, NetworkingConfigApplyOutcome, ReconcilePlan, StartupPlan,
    StatePath, StoredIdentityError,
};
use overlord_agent::publish::{
    build_source_publish_tags, create_ed2k_user_hash, draw_usable_user_hash,
    ed2k_file_type_search_term, ed2k_user_hash_is_bad, load_or_create_ed2k_user_hash,
    normalize_ed2k_user_hash_markers, synthetic_file_hash, synthetic_publish_aich_hash,
    user_hash_from_random, user_hash_of_number, SourcePublishSettings, StoredUserHash,
    LARGEST_UNMARKED_NUMBER,
};
use overlord_agent::random::{draw_bytes16, draw_udp_key, draw_uuid, random_routing_refresh_target};
use overlord_agent::search::{
    guess_content_type, map_note_result, map_search_result_for, map_source_result,
    mock_file_record, search_file_hash, search_file_size, search_query, tag_to_entry,
    SearchJobError,
};
use overlord_agent::seeds::synthetic_popular_seeds;
use overlord_agent::snoop::{
    build_keyword_snoop_entry, build_notes_snoop_entry, build_source_snoop_entry,
    finish_snoop_flush, snoop_observation, take_snoop_observations,
};
use overlord_agent::text::{
    alphanumeric, decimal_text, ends_with, hex_u16_text, lowercase_text, quoted_text, replace_char,
    same_ignoring_ascii_case, signed_decimal_text, trim_text,
};
use overlord_agent::types::{
    AgentExit, ContentType, HarvestFamily, HashType, JsonField, JsonScalar, JsonValue, Protocol,
    SearchJob, SearchKind, TagEntry,
};
use sha1::Sha1;

fn time(secs: i64) -> Timestamp {
    Timestamp { secs, nanos: 0 }
}

#[test]
fn trimming_agrees_with_std_for_every_character() {
    for code in 0..=0x10FFFFu32 {
        if let Some(c) = char::from_u32(code) {
            if c.is_whitespace() || code < 0x3100 {
                let text = format!("{c}x{c}");
                assert_eq!(trim_text(&text), text.trim(), "code point {code:x}");
            }
        }
    }
}

#[test]
fn letters_and_digits_agree_with_std() {
    for code in 0..0x3000u32 {
        if let Some(c) = char::from_u32(code) {
            assert_eq!(alphanumeric(c), c.is_alphanumeric(), "code point {code:x}");
        }
    }
}

#[test]
fn lowercase_agrees_with_std() {
    for text in ["", "ABC xyz 09", "ÀÉÎ", "ΑΣ", "İ", "Straße"] {
        assert_eq!(lowercase_text(text), text.to_lowercase());
    }
    assert_eq!(lowercase_text("ÀB"), "àb");
}

#[test]
fn quotes_agree_with_std() {
    for text in ["", "plain", "it's", "a\"b", "back\\slash", "line\nfeed", "é", "\u{7f}", "\u{200b}"] {
        assert_eq!(quoted_text(text), format!("{text:?}"));
    }
}

#[test]
fn numbers_are_written_as_std_writes_them() {
    for n in [0u128, 7, 10, 99, 100, u64::MAX as u128, u128::MAX] {
        assert_eq!(decimal_text(n), n.to_string());
    }
    for n in [0i128, -1, -10, 12345, i64::MIN as i128] {
        assert_eq!(signed_decimal_text(n), n.to_string());
    }
    for n in [0u16, 1, 0x8000, 0xABCD, 0xFFFF] {
        assert_eq!(hex_u16_text(n), format!("{n:04x}"));
    }
}

#[test]
fn texts_are_compared_and_replaced() {
    assert!(same_ignoring_ascii_case("eD2K-É", "Ed2k-É"));
    assert!(!same_ignoring_ascii_case("é", "É"));
    assert!(ends_with("movie.mkv", ".mkv"));
    assert!(!ends_with("mkv", ".mkv"));
    assert_eq!(replace_char("a b  c", ' ', '_'), "a_b__c");
}

#[test]
fn identifiers_are_written_and_read() {
    let id = Uuid::from_u128(0x0123_4567_89ab_cdef_0011_2233_4455_6677);
    assert_eq!(id.to_text(), "01234567-89ab-cdef-0011-223344556677");
    assert_eq!(Uuid::parse_str("01234567-89AB-cdef-0011-223344556677"), Some(id));
    assert_eq!(Uuid::parse_str("0123456789abcdef0011223344556677"), Some(id));
    assert_eq!(Uuid::parse_str("01234567-89ab-cdef-0011-22334455667"), None);
}

#[test]
fn hashes_are_written_and_read() {
    let bytes = [0x00, 0x01, 0x7F, 0x80, 0xAB, 0xCD, 0xEF, 0xFF, 8, 9, 10, 11, 12, 13, 14, 15];
    let hash = Ed2kHash::from_bytes(bytes);
    assert_eq!(hash.to_text(), "00017f80abcdefff08090a0b0c0d0e0f");
    assert_eq!(Ed2kHash::from_text("00017F80ABCDEFFF08090a0b0c0d0e0f"), Some(hash));
    assert_eq!(Ed2kHash::from_text("00017f80abcdefff08090a0b0c0d0e"), None);
    assert_eq!(NodeId::from_text("00017f80abcdefff08090a0b0c0d0e0g"), None);
    assert_eq!(NodeId::from_text(&hash.to_text()), Some(NodeId::from_bytes(bytes)));
    assert_eq!(NodeId::from_bytes(bytes).to_text(), hash.to_text());
}

#[test]
fn chunk_order_is_its_own_inverse() {
    let bytes = [1, 2, 3, 4, 5, 6, 7, 8, 9, 10, 11, 12, 13, 14, 15, 16];
    let turned = emule_kad_chunk_order(bytes);
    assert_eq!(turned, [4, 3, 2, 1, 8, 7, 6, 5, 12, 11, 10, 9, 16, 15, 14, 13]);
    assert_eq!(emule_kad_chunk_order(turned), bytes);
    assert!(same_bytes16(&bytes, &bytes));
    assert!(!same_bytes16(&bytes, &turned));
    assert!(!same_optional_bytes16(&Some(bytes), &None));
    assert!(same_optional_bytes16(&None, &None));
}

#[test]
fn addresses_are_numbers_and_texts() {
    let ip = Ipv4Addr::new(10, 54, 206, 1);
    assert_eq!(ip.to_bits(), 0x0A36_CE01);
    assert_eq!(Ipv4Addr::from_bits(0x0A36_CE01), ip);
    assert_eq!(ip.to_text(), "10.54.206.1");
    assert_eq!(Endpoint { ip, port: 65535 }.to_text(), "10.54.206.1:65535");
    assert!(Ipv4Addr::new(127, 9, 9, 9).is_loopback());
    assert!(!ip.is_loopback());
}

#[test]
fn points_in_time_are_ordered() {
    let a = Timestamp { secs: 5, nanos: 1_999_999 };
    assert!(a.is_after(Timestamp { secs: 5, nanos: 1_999_998 }));
    assert!(!a.is_after(a));
    assert_eq!(a.timestamp_millis(), 5001);
    assert_eq!(Timestamp { secs: -2, nanos: 500_000_000 }.timestamp_millis(), -1500);
}

#[test]
fn chance_gives_fresh_values() {
    assert_ne!(draw_bytes16(), draw_bytes16());
    assert_ne!(random_routing_refresh_target(), random_routing_refresh_target());
    let keys: Vec<u32> = (0..8).map(|_| draw_udp_key()).collect();
    assert!(keys.iter().any(|key| *key != keys[0]));
    let id = draw_uuid();
    assert_ne!(id, draw_uuid());
    let text = id.to_text();
    assert_eq!(text.as_bytes()[14], b'4');
    assert!(b"89ab".contains(&text.as_bytes()[19]));
}

#[test]
fn keyword_targets_are_md4_digests() {
    let digest: [u8; 16] = Md4::digest(b"torino").into();
    assert_eq!(keyword_target("  Torino, train").to_be_bytes(), digest);
    assert_eq!(keyword_lookup_word("A b"), "a b");
    assert_eq!(significant_keyword_words("é xx 日本"), vec!["日本".to_string()]);
    let hash = Ed2kHash::from_bytes([0x44; 16]);
    let query = hash_only_ed2k_search_query(hash);
    assert_eq!(query, format!("ed2k::{}", hash.to_text()));
    assert_eq!(keyword_lookup_word(&format!("  {query}  ")), hash.to_text());
}

#[test]
fn synthetic_digests_cover_the_file_identity() {
    let hash = Ed2kHash::from_bytes([0xAB; 16]);
    let mut hasher = Sha1::new();
    hasher.update([0xAB; 16]);
    hasher.update(734_003_200u64.to_le_bytes());
    hasher.update("ubuntu.iso".as_bytes());
    let expected: [u8; 20] = hasher.finalize().into();
    assert_eq!(synthetic_publish_aich_hash(&hash, "ubuntu.iso", 734_003_200), expected);

    let seed = &synthetic_popular_seeds()[3];
    let identity = format!(
        "overlord-synthetic-kad-seed|3|{}|{}|{}",
        seed.title, seed.size, seed.source_count
    );
    let digest: [u8; 16] = Md4::digest(identity.as_bytes()).into();
    assert_eq!(synthetic_file_hash(3, seed).0, digest);
}

#[test]
fn user_hashes_are_checked() {
    assert!(ed2k_user_hash_is_bad(&normalize_ed2k_user_hash_markers([0; 16])));
    assert!(user_hash_from_random([0; 16]).is_none());
    let marked = normalize_ed2k_user_hash_markers([7; 16]);
    assert_eq!(normalize_ed2k_user_hash_markers(marked), marked);
    assert_eq!(user_hash_from_random([7; 16]), Some(marked));
    assert!(matches!(load_or_create_ed2k_user_hash(None), StoredUserHash::Create));
    assert!(matches!(load_or_create_ed2k_user_hash(Some(vec![7; 15])), StoredUserHash::Create));
    assert!(matches!(load_or_create_ed2k_user_hash(Some(vec![0; 16])), StoredUserHash::Create));
    assert!(matches!(
        load_or_create_ed2k_user_hash(Some(vec![7; 16])),
        StoredUserHash::Normalize(hash) if hash == marked
    ));
    assert!(matches!(
        load_or_create_ed2k_user_hash(Some(marked.to_vec())),
        StoredUserHash::Use(hash) if hash == marked
    ));
    let fresh = create_ed2k_user_hash();
    assert_eq!(normalize_ed2k_user_hash_markers(fresh), fresh);
    assert!(!ed2k_user_hash_is_bad(&fresh));
    assert_ne!(create_ed2k_user_hash(), fresh);
}

#[test]
fn a_number_spells_a_user_hash() {
    assert_eq!(
        user_hash_of_number(0x0E0D_0C0B_0A09_0807_0605_0403_0201),
        [1, 2, 3, 4, 5, 0x0E, 6, 7, 8, 9, 10, 11, 12, 13, 0x6F, 14]
    );
    assert!(ed2k_user_hash_is_bad(&user_hash_of_number(0)));
    assert!(!ed2k_user_hash_is_bad(&user_hash_of_number(1)));
    let last = user_hash_of_number(LARGEST_UNMARKED_NUMBER);
    assert_eq!(last, normalize_ed2k_user_hash_markers([0xFF; 16]));
    let drawn = draw_usable_user_hash();
    assert_eq!(normalize_ed2k_user_hash_markers(drawn), drawn);
    assert!(!ed2k_user_hash_is_bad(&drawn));
    assert_ne!(drawn, user_hash_of_number(1));
    assert_ne!(drawn, last);
    assert_ne!(draw_usable_user_hash(), drawn);
}

#[test]
fn large_files_are_published_with_their_source_type() {
    let addr = SocketAddr { ip: IpAddr::V4(Ipv4Addr::new(1, 2, 3, 4)), port: 5 };
    let settings = SourcePublishSettings { tcp_port: 6, obfuscation_enabled: false };
    let tags = build_source_publish_tags(addr, settings, 0x1_0000_0000);
    assert_eq!(tags[0], Tag::new_short(TAG_SOURCETYPE, TagValue::UInt(4)));
    let tags = build_source_publish_tags(addr, settings, 0xFFFF_FFFF);
    assert_eq!(tags[0], Tag::new_short(TAG_SOURCETYPE, TagValue::UInt(1)));
}

#[test]
fn file_types_go_by_the_last_extension() {
    assert_eq!(ed2k_file_type_search_term("A.MP3"), Some("Audio"));
    assert_eq!(ed2k_file_type_search_term("movie.mkv.unknown"), None);
    assert_eq!(Tag::filetype("Pro").name, TagName::Short(TAG_FILETYPE));
}

#[test]
fn harvested_requests_are_told_apart() {
    let target = NodeId::from_text("00112233445566778899aabbccddeeff").unwrap();
    let keyword = build_keyword_snoop_entry(
        &SearchKeyReq { target, start_position: 0x8000, restrictive_payload: vec![0xAA, 0xBB] },
        time(3),
    );
    assert_eq!(keyword.logical_key(), "keyword:00112233445566778899aabbccddeeff:8000:aabb");
    assert_eq!(keyword.restrictive_payload_hex(), Some("aabb"));
    assert_eq!(keyword.hit_count(), 1);
    assert_eq!(keyword.first_seen(), time(3));
    assert_eq!(keyword.last_drained_at(), None);
    let mut source =
        build_source_snoop_entry(&SearchSourceReq { target, start_position: 1, size: 99 }, time(4));
    assert_eq!(source.logical_key(), "source:00112233445566778899aabbccddeeff:0001:99");
    assert_eq!(source.restrictive_payload_hex(), None);
    source.set_hit_count(7);
    source.set_last_seen(time(9));
    source.set_last_drained_at(Some(time(8)));
    source.set_first_seen(time(1));
    assert_eq!(source.hit_count(), 7);
    assert_eq!(source.first_seen(), time(1));
    assert_eq!(source.last_seen(), time(9));
    assert_eq!(source.last_drained_at(), Some(time(8)));
    let notes = build_notes_snoop_entry(&SearchNotesReq { target, size: 5 }, time(5));
    assert_eq!(notes.logical_key(), "notes:00112233445566778899aabbccddeeff:5");
    assert_eq!(notes.target(), "00112233445566778899aabbccddeeff");
}

#[test]
fn observations_survive_a_failed_flush() {
    let target = NodeId::from_bytes([1; 16]);
    let observe = |size: u64| {
        snoop_observation(build_notes_snoop_entry(&SearchNotesReq { target, size }, time(5)))
    };
    let mut observed = vec![observe(1), observe(2)];
    assert_eq!(observed[0].family, HarvestFamily::Notes);
    assert_eq!(observed[0].size, Some(1));
    assert_eq!(observed[0].observed_at, time(5));
    let taken = take_snoop_observations(&mut observed);
    assert!(observed.is_empty());
    observed.push(observe(3));
    finish_snoop_flush(&mut observed, taken, false);
    let mut sizes: Vec<u64> = observed.iter().filter_map(|entry| entry.size).collect();
    sizes.sort();
    assert_eq!(sizes, vec![1, 2, 3]);
    let taken = take_snoop_observations(&mut observed);
    finish_snoop_flush(&mut observed, taken, true);
    assert!(observed.is_empty());
}

fn job(kind: SearchKind) -> SearchJob {
    SearchJob {
        job_id: Uuid::from_u128(1),
        protocol: Protocol::Kad2,
        kind,
        query: Some(" torino ".to_string()),
        file_hash: Some(HashType::Ed2k("ab".repeat(16))),
        file_size: Some(5),
        callback_url: "http://127.0.0.1:9".to_string(),
    }
}

#[test]
fn jobs_are_checked_for_what_they_need() {
    let mut job = job(SearchKind::Keyword);
    assert_eq!(search_query(&job), Ok(" torino "));
    assert_eq!(search_file_hash(&job), Ok(Ed2kHash::from_bytes([0xAB; 16])));
    assert_eq!(search_file_size(&job), Ok(5));
    job.query = Some(" \t ".to_string());
    job.file_hash = Some(HashType::Ed2k("xy".to_string()));
    job.file_size = Some(0);
    let error = search_query(&job).unwrap_err();
    assert_eq!(error.message(), "search job is missing query text");
    let error = search_file_hash(&job).unwrap_err();
    assert_eq!(error.message(), "invalid Ed2k hash xy");
    let error = search_file_size(&job).unwrap_err();
    assert_eq!(error.message(), "search job is missing file size");
    job.file_hash = None;
    let error = search_file_hash(&job).unwrap_err();
    assert_eq!(error, SearchJobError::MissingHash);
    assert_eq!(error.message(), "search job is missing ed2k file hash");
}

#[test]
fn results_become_records() {
    let hash = Ed2kHash::from_bytes([0xCD; 16]);
    let record = map_source_result(
        &SourceResult {
            file_hash: hash,
            source_id: hash,
            ip: Ipv4Addr::new(9, 8, 7, 6),
            tcp_port: 4662,
            udp_port: 4672,
            obfuscation_options: None,
        },
        11,
    );
    assert_eq!(record.size, Some(11));
    assert_eq!(record.sources[0].address, "9.8.7.6:4662");
    assert_eq!(
        record.sources[0].extra,
        JsonValue::Object(vec![
            JsonField::new("udp_port", JsonScalar::Number(4672)),
            JsonField::new("search_mode", JsonScalar::Text("source".to_string())),
        ])
    );
    let record = map_note_result(
        &NoteResult { file_hash: hash, source_id: hash, rating: Some(4), comment: None },
        11,
    );
    assert_eq!(
        record.tags,
        vec![TagEntry {
            key: "kad_note".to_string(),
            value: JsonValue::Object(vec![
                JsonField::new("source_id", JsonScalar::Text("cd".repeat(16))),
                JsonField::new("rating", JsonScalar::Number(4)),
                JsonField::new("comment", JsonScalar::Null),
            ]),
        }]
    );
    let record = map_search_result_for(
        "10.0.0.1:41000",
        &SearchResult {
            hash,
            names: vec!["Film.MKV".to_string(), "other.txt".to_string()],
            size: Some(3),
            source_count: Some(2),
            tags: vec![Tag::filesize(3)],
        },
    );
    assert_eq!(record.hashes, vec![HashType::Ed2k("cd".repeat(16))]);
    assert_eq!(record.content_type, Some(ContentType::Video));
    assert_eq!(record.tags[0].key, "tag_02");
    assert_eq!(record.sources[0].address, "10.0.0.1:41000");
}

#[test]
fn content_types_go_by_the_extension() {
    let guess = |name: &str| guess_content_type(Some(&name.to_string()));
    assert_eq!(guess("a.OGG"), Some(ContentType::Audio));
    assert_eq!(guess("a.docx"), Some(ContentType::Document));
    assert_eq!(guess("a.7z"), Some(ContentType::Archive));
    assert_eq!(guess("a.iso"), Some(ContentType::Software));
    assert_eq!(guess("a"), Some(ContentType::Unknown));
    assert_eq!(guess_content_type(None), Some(ContentType::Unknown));
}

#[test]
fn tags_become_entries() {
    let entry = |value: TagValue| match tag_to_entry(&Tag::new_short(0xF3, value)).value {
        JsonValue::Scalar(scalar) => scalar,
        JsonValue::Object(_) => panic!("a tag is a scalar"),
    };
    assert_eq!(entry(TagValue::U16(7)), JsonScalar::Number(7));
    assert_eq!(entry(TagValue::Bool(true)), JsonScalar::Bool(true));
    assert_eq!(entry(TagValue::Blob(vec![0, 255])), JsonScalar::Text("00ff".to_string()));
    assert_eq!(entry(TagValue::FloatBits(1.5f32.to_bits())), JsonScalar::FloatBits(0x3FC0_0000));
    let long = Tag { name: TagName::Long("codec".to_string()), value: TagValue::U8(1) };
    assert_eq!(tag_to_entry(&long).key, "codec");
}

#[test]
fn stand_ins_are_named_after_the_query() {
    let record = mock_file_record(" Torino Train ", "1.2.3.4:5".to_string());
    assert_eq!(record.names, vec!["torino_train.bin".to_string()]);
    let digest: [u8; 16] = Md4::digest(b"torino").into();
    assert_eq!(record.hashes, vec![HashType::Ed2k(hex::encode(digest))]);
    assert_eq!(record.size, Some(1_048_576));
}

#[test]
fn paths_name_the_agent() {
    let id = Uuid::from_u128(0x22222222222222222222222222222222);
    assert_eq!(
        snoop_restore_path(id),
        "/api/internal/snoop-restore/22222222-2222-2222-2222-222222222222"
    );
    assert_eq!(
        agent_interfaces_path(id),
        "/api/agents/22222222-2222-2222-2222-222222222222/interfaces"
    );
}

#[test]
fn searches_are_dispatched_by_query_or_file() {
    assert_eq!(
        dispatch_payload(&job(SearchKind::Keyword)),
        DispatchPayload::Keyword {
            protocol: Protocol::Kad2,
            query: Some(" torino ".to_string()),
        }
    );
    assert_eq!(
        dispatch_payload(&job(SearchKind::Notes)),
        DispatchPayload::File {
            protocol: Protocol::Kad2,
            kind: SearchKind::Notes,
            file_hash: Some(HashType::Ed2k("ab".repeat(16))),
            file_size: Some(5),
        }
    );
}

#[test]
fn routes_answer_with_their_status() {
    assert_eq!(ControlRoute::Health.path(), "/api/internal/health");
    assert_eq!(ControlRoute::Health.status(true), 200);
    assert_eq!(ControlRoute::Search.status(true), 202);
    assert_eq!(ControlRoute::Search.status(false), 500);
    assert_eq!(ControlRoute::SeedPopular.path(), "/api/internal/seed-popular");
    assert_eq!(ControlRoute::SeedPopular.status(false), 501);
    assert_eq!(ControlRoute::Interfaces.status(false), 501);
}

#[test]
fn stored_identities_are_read_back() {
    let fresh = load_or_create_indexer_id(None).unwrap();
    let stored = fresh.write.unwrap();
    let again = load_or_create_indexer_id(Some(&format!("{stored}\n"))).unwrap();
    assert_eq!(again.id, fresh.id);
    assert_eq!(again.write, None);

    let fresh = load_or_create_node_id(None).unwrap();
    let stored = fresh.write.unwrap();
    let again = load_or_create_node_id(Some(&format!(" {stored}\n"))).unwrap();
    assert_eq!(again.node_id, fresh.node_id);

    let fresh = load_or_create_udp_key(None).unwrap();
    let stored = fresh.write.unwrap();
    let again = load_or_create_udp_key(Some(&stored)).unwrap();
    assert_eq!(again.udp_key, fresh.udp_key);

    let made = new_node_identity([0x5A; 16]);
    assert_eq!(made.write, Some("5a".repeat(16)));
}

#[test]
fn stored_identities_that_cannot_be_read_are_named() {
    let error = load_or_create_indexer_id(Some("nonsense")).unwrap_err();
    assert_eq!(error.message("/x/id"), "invalid uuid in /x/id");
    let error = load_or_create_node_id(Some("00")).unwrap_err();
    assert_eq!(error.message("/x/node"), "invalid node id in /x/node");
    let error = load_or_create_udp_key(Some("4294967296")).unwrap_err();
    assert_eq!(error, StoredIdentityError::InvalidUdpKey);
    assert_eq!(error.message("/x/key"), "invalid udp key in /x/key");
}

#[test]
fn numbers_are_read_as_std_reads_them() {
    for text in ["", "+", "-1", "-0", "0", "+7", "007", "4294967295", "4294967296", "1 2", "١"] {
        assert_eq!(parse_u32(text), text.parse::<u32>().ok(), "{text}");
    }
}

#[test]
fn the_list_of_nodes_may_be_elsewhere() {
    let paths = AgentStatePaths::from_config("  ");
    assert_eq!(paths.nodes_dat_path, StatePath::InStateDir("overlord-kad.nodes.dat".to_string()));
    assert_eq!(paths.udp_key_path, StatePath::InStateDir("overlord-kad.udp-key".to_string()));
    let paths = AgentStatePaths::from_config("/etc/nodes.dat");
    assert_eq!(paths.nodes_dat_path, StatePath::Configured("/etc/nodes.dat".to_string()));
}

#[test]
fn sockets_and_mappings_follow_the_configuration() {
    let any = resolved_socket_addr(41000, None);
    assert_eq!(any, SocketAddr { ip: IpAddr::V4(Ipv4Addr::new(0, 0, 0, 0)), port: 41000 });
    let bound = IpAddr::V4(Ipv4Addr::new(10, 0, 0, 1));
    let mappings = nat_mappings_from_config(41000, 41001, Some(bound));
    assert_eq!(mappings.len(), 2);
    assert_eq!(mappings[0].name, "kad");
    assert_eq!(mappings[0].exposure, MappingExposure::Required);
    assert_eq!(mappings[1].name, "ed2k");
    assert_eq!(mappings[1].local_addr, SocketAddr { ip: bound, port: 41001 });
    assert_eq!(mappings[1].exposure, MappingExposure::Preferred);
}

#[test]
fn bootstrap_nodes_are_joined() {
    assert_eq!(bootstrap_nodes_text(&Vec::new()), None);
    assert_eq!(
        bootstrap_nodes_text(&vec!["a:1".to_string(), "b:2".to_string()]),
        Some("a:1\nb:2".to_string())
    );
}

#[test]
fn known_keys_win_over_routed_ones() {
    let contact = Contact {
        id: NodeId::from_bytes([9; 16]),
        ip: Ipv4Addr::new(1, 2, 3, 4),
        udp_port: 4672,
        tcp_port: 4662,
        kad_version: 9,
        contact_type: ContactType::Active,
        verified: true,
        tcp_firewalled: false,
        udp_firewalled: false,
        udp_key: 5,
    };
    assert_eq!(bootstrap_contact(&contact, Some(8)).udp_key, 8);
    assert_eq!(bootstrap_contact(&contact, None).udp_key, 5);
}

#[test]
fn interfaces_are_watched_only_by_name() {
    let named = Some("hide.me".to_string());
    assert!(watches_interface(true, &None, &named, true));
    assert!(watches_interface(true, &Some(" ".to_string()), &named, true));
    assert!(!watches_interface(true, &Some("10.0.0.1".to_string()), &named, true));
    assert!(!watches_interface(true, &None, &None, true));
    assert!(!watches_interface(false, &None, &named, true));
    assert!(!watches_interface(true, &None, &named, false));
}

#[test]
fn the_network_runs_on_a_confirmed_address() {
    let ip = "10.0.0.1".to_string();
    assert_eq!(
        plan_reconcile(true, Some(ip.clone())),
        ReconcilePlan::Restart { bind_ip: ip.clone() }
    );
    assert_eq!(plan_reconcile(false, Some(ip)), ReconcilePlan::Stop);
    assert_eq!(plan_reconcile(true, None), ReconcilePlan::Stop);
}

#[test]
fn startup_goes_on_without_a_coordinator() {
    assert_eq!(plan_startup(None), StartupPlan::Serve { reconnect: true });
    assert_eq!(
        plan_startup(Some(NetworkingConfigApplyOutcome::Unchanged)),
        StartupPlan::Serve { reconnect: false }
    );
    assert_eq!(
        plan_startup(Some(NetworkingConfigApplyOutcome::ReconciledInPlace)),
        StartupPlan::Serve { reconnect: false }
    );
    assert_eq!(
        plan_startup(Some(NetworkingConfigApplyOutcome::RestartRequired)),
        StartupPlan::RestartNow
    );
    assert_eq!(agent_exit(true), AgentExit::RestartRequested);
    assert_eq!(agent_exit(false), AgentExit::Stopped);
    assert_eq!(download_slots(0), 1);
    assert_eq!(download_slots(4), 4);
}
