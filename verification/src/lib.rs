pub mod activity;
pub mod api;
pub mod background;
pub mod digests;
pub mod direct_download;
pub mod ed2k;
pub mod ed2k_download;
pub mod ed2k_enrich;
pub mod ed2k_search;
pub mod ed2k_sources;
pub mod ids;
pub mod kad;
pub mod kad_firewall;
pub mod kad_hello;
pub mod kad_unsolicited;
pub mod keywords;
pub mod lifecycle;
pub mod passive_replay;
pub mod passive_runtime;
pub mod publish;
pub mod publish_runtime;
pub mod random;
pub mod search;
pub mod seeds;
pub mod service;
pub mod snoop;
pub mod source_merge;
pub mod text;
pub mod types;
