//! Fetching a file over eD2k: finding sources, deciding whom to dial and whom to call back, and
//! when to look for more.

use vstd::prelude::*;
use vstd::string::*;
use crate::activity;
use crate::activity::{active_ed2k_download_key, degraded_snapshot, new_activity_snapshot, AgentActivityTracker};
use crate::direct_download::NativeDirectDownloadOutcome;
use crate::ed2k::{Ed2kConfig, Ed2kFoundSource, Ed2kResumeManifest, Ed2kServerState};
use crate::ed2k_enrich;
use crate::ed2k_enrich::{
    is_hash_only_ed2k_placeholder_name, EnrichEd2kDownloadRequest, EnrichEd2kDownloadSource,
    EnrichError, IngestLocalFileRequest,
};
use crate::ed2k_search;
use crate::ed2k_search::{
    ed2k_download_source_server_attempt_budget, ed2k_source_search_timeout, LearnedEd2kMetadata,
    ServerSearchOptions,
};
use crate::ed2k_sources;
use crate::ed2k_sources::{
    direct_download_candidate_sources, ed2k_source_attempt_key, ed2k_source_endpoint_key,
    merge_download_sources, new_direct_ed2k_source_count, same_source_key,
    should_skip_no_progress_source_requery, sort_native_ed2k_download_sources, SourceKey,
};
use crate::ids;
use crate::ids::{Ed2kHash, Endpoint, SocketAddr, Timestamp};
use crate::text;
use crate::text::{decimal_text, hex_encode, joined, lowercase_text, same_text};
use crate::types;
use crate::types::{clone_text, AgentActivitySnapshot, AgentActivityState, Protocol};

verus! {

broadcast use vstd::string::group_string_axioms;

pub const ED2K_DOWNLOAD_KAD_SOURCE_TIMEOUT_FLOOR_SECS: u64 = 45;

pub const ED2K_DOWNLOAD_SOURCE_REQUERY_ROUNDS: usize = 2;

pub const ED2K_DOWNLOAD_SOURCE_REQUERY_DELAY_SECS: u64 = 5;

/// How often the transfer is looked at while callbacks are awaited.
pub const CALLBACK_POLL_SECS: u64 = 2;

/// The larger of the two.
pub open spec fn at_least(secs: u64, floor: u64) -> u64 {
    if secs < floor {
        floor
    } else {
        secs
    }
}

fn raised(secs: u64, floor: u64) -> (r: u64)
    ensures
        r == at_least(secs, floor),
{
    if secs < floor {
        floor
    } else {
        secs
    }
}

/// Low-ID peers often arrive noticeably later than direct connects, because the callback has to
/// propagate through the server first. In seconds.
pub fn callback_timeout_secs(config: &Ed2kConfig) -> (r: u64)
    ensures
        r == at_least(config.connect_timeout_secs, 30),
{
    raised(config.connect_timeout_secs, 30)
}

/// How long a callback transfer may take to show progress, in seconds.
pub fn callback_wait_budget_secs(config: &Ed2kConfig) -> (r: u64)
    ensures
        r == at_least(config.connect_timeout_secs, 90),
{
    raised(callback_timeout_secs(config), 90)
}

/// The connect timeout of a direct download, in seconds.
pub fn peer_connect_timeout_secs(config: &Ed2kConfig) -> (r: u64)
    ensures
        r == at_least(config.connect_timeout_secs, 10),
{
    raised(config.connect_timeout_secs, 10)
}

/// How long Kad is asked for sources, in seconds.
pub fn kad_source_timeout_secs(config: &Ed2kConfig) -> (r: u64)
    ensures
        r == at_least(config.connect_timeout_secs, ED2K_DOWNLOAD_KAD_SOURCE_TIMEOUT_FLOOR_SECS),
{
    raised(ed2k_source_search_timeout(config), ED2K_DOWNLOAD_KAD_SOURCE_TIMEOUT_FLOOR_SECS)
}

/// Whether the wait for a callback transfer is over: the file is whole, or a part of it has been
/// verified.
pub fn callback_transfer_settled(manifest: &Ed2kResumeManifest) -> (r: bool)
    ensures
        r == (manifest.completed || manifest.verified_ranges@.len() > 0),
{
    manifest.completed || manifest.verified_ranges.len() > 0
}

/// What the wait for a callback transfer does next.
#[derive(Debug, Clone, Copy, PartialEq, Eq, Structural)]
pub enum CallbackWaitStep {
    /// Look at the transfer again after a pause.
    Poll { pause_secs: u64 },
    Done,
}

/// The wait for a callback transfer.
#[derive(Debug, Clone, Copy, PartialEq, Eq, Structural)]
pub struct CallbackWait {
    pub budget_secs: u64,
    pub settled: bool,
}

impl CallbackWait {
    /// Begins to wait. A file that is whole needs no waiting; what has been verified of it before
    /// does not end the wait.
    pub fn begin(config: &Ed2kConfig, manifest: &Ed2kResumeManifest) -> (r: CallbackWait)
        ensures
            r.budget_secs == at_least(config.connect_timeout_secs, 90),
            r.settled == manifest.completed,
    {
        CallbackWait { budget_secs: callback_wait_budget_secs(config), settled: manifest.completed }
    }

    /// Decides what follows after `elapsed_secs` whole seconds of waiting.
    pub fn next(&self, elapsed_secs: u64) -> (r: CallbackWaitStep)
        ensures
            r == if self.settled || elapsed_secs >= self.budget_secs {
                CallbackWaitStep::Done
            } else {
                CallbackWaitStep::Poll { pause_secs: CALLBACK_POLL_SECS }
            },
    {
        if self.settled || elapsed_secs >= self.budget_secs {
            CallbackWaitStep::Done
        } else {
            CallbackWaitStep::Poll { pause_secs: CALLBACK_POLL_SECS }
        }
    }

    /// Takes in how far the transfer has got.
    pub fn observe(&mut self, manifest: &Ed2kResumeManifest)
        ensures
            final(self).budget_secs == old(self).budget_secs,
            final(self).settled == (old(self).settled || manifest.completed
                || manifest.verified_ranges@.len() > 0),
    {
        self.settled = self.settled || callback_transfer_settled(manifest);
    }
}

/// Why a download failed.
#[derive(Debug, PartialEq, Eq)]
pub enum DownloadFailure {
    UnsupportedKind { kind: String },
    AlreadyActive { file_hash: String },
    InvalidFileHash { raw: String },
    WaitingForInterface,
    InvalidSource { error: EnrichError },
    NoSources { file_hash: String },
    /// Peers failed; `last_error` is what the last one said.
    DirectFailed { file_hash: String, last_error: String },
    AcceptedIncomplete { file_hash: String, peers: u32 },
    NoConcreteError { file_hash: String },
    OnlyCallback { file_hash: String },
}

impl DownloadFailure {
    /// The text of the failure.
    pub open spec fn text(self) -> Seq<char> {
        match self {
            DownloadFailure::UnsupportedKind { kind } => "unsupported enrich kind "@ + kind@,
            DownloadFailure::AlreadyActive { file_hash } => "ED2K download "@ + file_hash@
                + " is already active"@,
            DownloadFailure::InvalidFileHash { raw } => "invalid ED2K file hash "@ + raw@,
            DownloadFailure::WaitingForInterface => "agent networking is waiting for interface selection"@,
            DownloadFailure::InvalidSource { error } => error.text(),
            DownloadFailure::NoSources { file_hash } => "no ED2K sources available for "@ + file_hash@,
            DownloadFailure::DirectFailed { file_hash, .. } => "native ED2K download did not complete for "@
                + file_hash@ + " after trying discovered sources"@,
            DownloadFailure::AcceptedIncomplete { file_hash, peers } => "native ED2K download for "@
                + file_hash@ + " did not complete after "@ + text::decimal(peers as nat)
                + " accepted incomplete peer sessions"@,
            DownloadFailure::NoConcreteError { file_hash } => "native ED2K download for "@ + file_hash@
                + " did not complete and no peer reported a concrete error"@,
            DownloadFailure::OnlyCallback { file_hash } => "native ED2K download found only callback-only or otherwise non-dialable sources for "@
                + file_hash@,
        }
    }

    pub fn message(&self) -> (r: String)
        ensures
            r@ == self.text(),
    {
        match self {
            DownloadFailure::UnsupportedKind { kind } => joined(
                "unsupported enrich kind ",
                kind.as_str(),
            ),
            DownloadFailure::AlreadyActive { file_hash } => {
                let mut r: String = joined("ED2K download ", file_hash.as_str());
                r.append(" is already active");
                r
            },
            DownloadFailure::InvalidFileHash { raw } => joined("invalid ED2K file hash ", raw.as_str()),
            DownloadFailure::WaitingForInterface => "agent networking is waiting for interface selection".to_owned(),
            DownloadFailure::InvalidSource { error } => error.message(),
            DownloadFailure::NoSources { file_hash } => joined(
                "no ED2K sources available for ",
                file_hash.as_str(),
            ),
            DownloadFailure::DirectFailed { file_hash, .. } => {
                let mut r: String = joined(
                    "native ED2K download did not complete for ",
                    file_hash.as_str(),
                );
                r.append(" after trying discovered sources");
                r
            },
            DownloadFailure::AcceptedIncomplete { file_hash, peers } => {
                let mut r: String = joined("native ED2K download for ", file_hash.as_str());
                r.append(" did not complete after ");
                let count: String = decimal_text(*peers as u128);
                r.append(count.as_str());
                r.append(" accepted incomplete peer sessions");
                r
            },
            DownloadFailure::NoConcreteError { file_hash } => {
                let mut r: String = joined("native ED2K download for ", file_hash.as_str());
                r.append(" did not complete and no peer reported a concrete error");
                r
            },
            DownloadFailure::OnlyCallback { file_hash } => joined(
                "native ED2K download found only callback-only or otherwise non-dialable sources for ",
                file_hash.as_str(),
            ),
        }
    }
}

/// Whether a request is one for a download.
pub open spec fn is_download(request: EnrichEd2kDownloadRequest) -> bool {
    request.kind@ == "ed2k_download"@
}

/// Refuses a request of another kind.
pub fn check_download_kind(request: &EnrichEd2kDownloadRequest) -> (r: Result<(), DownloadFailure>)
    ensures
        match r {
            Ok(()) => is_download(*request),
            Err(error) => !is_download(*request) && error == (DownloadFailure::UnsupportedKind {
                kind: request.kind,
            }),
        },
{
    if same_text(request.kind.as_str(), "ed2k_download") {
        Ok(())
    } else {
        Err(DownloadFailure::UnsupportedKind { kind: request.kind.clone() })
    }
}

/// The hash of the file that a request is for. The kind is looked at first, then the hash, and
/// last whether the agent has an interface.
pub fn check_download_request(request: &EnrichEd2kDownloadRequest, networked: bool) -> (r: Result<
    Ed2kHash,
    DownloadFailure,
>)
    ensures
        match r {
            Ok(hash) => is_download(*request) && ids::is_hash_text(request.file_hash@) && networked
                && hash.0@ == text::hex_bytes(request.file_hash@),
            Err(DownloadFailure::UnsupportedKind { kind }) => !is_download(*request) && kind
                == request.kind,
            Err(DownloadFailure::InvalidFileHash { raw }) => is_download(*request)
                && !ids::is_hash_text(request.file_hash@) && raw == request.file_hash,
            Err(DownloadFailure::WaitingForInterface) => is_download(*request) && ids::is_hash_text(
                request.file_hash@,
            ) && !networked,
            Err(_) => false,
        },
{
    match check_download_kind(request) {
        Ok(()) => {},
        Err(error) => {
            return Err(error);
        },
    }
    match Ed2kHash::from_text(request.file_hash.as_str()) {
        Some(hash) => if networked {
            Ok(hash)
        } else {
            Err(DownloadFailure::WaitingForInterface)
        },
        None => Err(DownloadFailure::InvalidFileHash { raw: request.file_hash.clone() }),
    }
}

/// Whether the name of a request only stands in for the file's own.
pub open spec fn name_stands_in(request: EnrichEd2kDownloadRequest) -> bool {
    text::ascii_lower(request.name()) == text::ascii_lower(
        ed2k_enrich::placeholder_name(request.file_hash@),
    )
}

/// Whether the name and size of a file are looked for before its sources: the request names no
/// sources, and the size is unknown or the name only stands in.
pub fn wants_metadata(request: &EnrichEd2kDownloadRequest) -> (r: bool)
    ensures
        r == (request.sources@.len() == 0 && (request.size() == 0 || name_stands_in(*request))),
{
    let name: String = request.canonical_name();
    request.sources.len() == 0 && (request.file_size_or_unknown() == 0
        || is_hash_only_ed2k_placeholder_name(name.as_str(), request.file_hash.as_str()))
}

/// The name that is adopted from what was learned: a name that the request gives is kept.
pub fn adopted_name(request: &EnrichEd2kDownloadRequest, learned: &LearnedEd2kMetadata) -> (r: Option<String>)
    ensures
        r == if name_stands_in(*request) {
            learned.canonical_name
        } else {
            None
        },
{
    let name: String = request.canonical_name();
    if is_hash_only_ed2k_placeholder_name(name.as_str(), request.file_hash.as_str()) {
        clone_text(&learned.canonical_name)
    } else {
        None
    }
}

/// Whether `found` is what a requested source comes to.
pub open spec fn taken_for(source: EnrichEd2kDownloadSource, file_hash: Ed2kHash, found: Ed2kFoundSource) -> bool {
    ed2k_enrich::user_hash_usable(source) && ed2k_enrich::describes(source, file_hash, found)
}

/// Whether `error` is what is wrong with a requested source.
pub open spec fn refused_for(source: EnrichEd2kDownloadSource, error: EnrichError) -> bool {
    match error {
        EnrichError::InvalidUserHash { value } => source.user_hash == Some(value) && !text::is_hex_text(
            value@,
        ),
        EnrichError::UserHashLength => source.user_hash matches Some(value) && text::is_hex_text(value@)
            && value@.len() != 32,
        EnrichError::MissingCanonicalName => false,
    }
}

/// The sources that a request names, or what is wrong with the first that cannot be used.
pub fn requested_sources(sources: Vec<EnrichEd2kDownloadSource>, file_hash: Ed2kHash) -> (r: Result<
    Vec<Ed2kFoundSource>,
    DownloadFailure,
>)
    ensures
        match r {
            Ok(found) => found@.len() == sources@.len() && forall|i: int|
                0 <= i < sources@.len() ==> taken_for(sources@[i], file_hash, #[trigger] found@[i]),
            Err(DownloadFailure::InvalidSource { error }) => exists|i: int| {
                &&& 0 <= i < sources@.len()
                &&& refused_for(#[trigger] sources@[i], error)
                &&& forall|j: int| 0 <= j < i ==> ed2k_enrich::user_hash_usable(#[trigger] sources@[j])
            },
            Err(_) => false,
        },
{
    let ghost all = sources@;
    let mut rest: Vec<EnrichEd2kDownloadSource> = sources;
    let mut found: Vec<Ed2kFoundSource> = Vec::new();
    let mut i: usize = 0;
    let n: usize = rest.len();
    while i < n
        invariant
            all == sources@,
            n == all.len(),
            i <= n,
            rest@ == all.skip(i as int),
            found@.len() == i,
            forall|j: int| 0 <= j < i ==> taken_for(all[j], file_hash, #[trigger] found@[j]),
        decreases n - i,
    {
        let source: EnrichEd2kDownloadSource = rest.remove(0);
        assert(source == all[i as int]);
        assert(rest@ =~= all.skip(i + 1));
        match source.into_found_source(file_hash) {
            Ok(one) => {
                let ghost before = found@;
                found.push(one);
                assert forall|j: int| 0 <= j < i + 1 implies taken_for(
                    all[j],
                    file_hash,
                    #[trigger] found@[j],
                ) by {
                    if j < i {
                        assert(found@[j] == before[j]);
                    } else {
                        assert(found@[j] == one);
                    }
                }
            },
            Err(error) => {
                assert(refused_for(all[i as int], error));
                assert forall|j: int| 0 <= j < i implies ed2k_enrich::user_hash_usable(
                    #[trigger] all[j],
                ) by {
                    assert(taken_for(all[j], file_hash, found@[j]));
                }
                return Err(DownloadFailure::InvalidSource { error });
            },
        }
        i = i + 1;
    }
    Ok(found)
}

/// Where sources are asked for next.
#[derive(Debug, Clone, Copy, PartialEq, Eq, Structural)]
pub enum AcquisitionStep {
    /// The server that the agent is connected to.
    Background,
    Servers,
    UdpServers,
    Kad,
    Done,
}

/// One search for the sources of a file.
pub struct SourceAcquisition {
    pub step: AcquisitionStep,
    pub has_background_search: bool,
    pub preferred_endpoint: Option<SocketAddr>,
    pub file_size: u64,
    /// Kad is asked as well while no more sources than this are known.
    pub kad_supplement_threshold: usize,
    pub sources: Vec<Ed2kFoundSource>,
}

impl SourceAcquisition {
    /// No source twice.
    pub open spec fn wf(self) -> bool {
        ed2k_sources::keys_distinct(self.sources@)
    }

    /// Kad, where the size is known and few sources are; else the end.
    pub open spec fn kad_or_done(self) -> AcquisitionStep {
        if self.file_size != 0 && self.sources@.len() <= self.kad_supplement_threshold {
            AcquisitionStep::Kad
        } else {
            AcquisitionStep::Done
        }
    }

    /// The step after the present one: UDP servers are asked only where nothing is known yet.
    pub open spec fn next_step(self) -> AcquisitionStep {
        match self.step {
            AcquisitionStep::Background => AcquisitionStep::Servers,
            AcquisitionStep::Servers => if self.sources@.len() == 0 {
                AcquisitionStep::UdpServers
            } else {
                self.kad_or_done()
            },
            AcquisitionStep::UdpServers => self.kad_or_done(),
            AcquisitionStep::Kad => AcquisitionStep::Done,
            AcquisitionStep::Done => AcquisitionStep::Done,
        }
    }

    /// Begins at the connected server, where there is one.
    pub fn begin(server: &Ed2kServerState, file_size: u64, kad_supplement_threshold: usize) -> (r:
        SourceAcquisition)
        ensures
            r.wf(),
            r.step == if server.connected {
                AcquisitionStep::Background
            } else {
                AcquisitionStep::Servers
            },
            r.has_background_search == server.connected,
            r.preferred_endpoint == if server.connected {
                server.endpoint
            } else {
                None
            },
            r.file_size == file_size,
            r.kad_supplement_threshold == kad_supplement_threshold,
            r.sources@.len() == 0,
    {
        SourceAcquisition {
            step: if server.connected {
                AcquisitionStep::Background
            } else {
                AcquisitionStep::Servers
            },
            has_background_search: server.connected,
            preferred_endpoint: server.session_endpoint(),
            file_size,
            kad_supplement_threshold,
            sources: Vec::new(),
        }
    }

    /// Whom the server steps ask: the connected server is left out, for it has been asked.
    pub fn server_options(&self, config: &Ed2kConfig) -> (r: ServerSearchOptions)
        ensures
            r.preferred_endpoint == self.preferred_endpoint,
            r.excluded_endpoint == if self.has_background_search {
                self.preferred_endpoint
            } else {
                None
            },
            r.max_attempts == ed2k_search::bounded_budget(config.source_server_attempt_budget, *config),
    {
        ServerSearchOptions {
            preferred_endpoint: self.preferred_endpoint,
            excluded_endpoint: if self.has_background_search {
                self.preferred_endpoint
            } else {
                None
            },
            max_attempts: ed2k_download_source_server_attempt_budget(config),
        }
    }

    /// Takes in what a step found, `None` where it failed, and moves on.
    pub fn advance(&mut self, found: Option<Vec<Ed2kFoundSource>>)
        requires
            old(self).wf(),
        ensures
            final(self).wf(),
            final(self).sources@ == match found {
                Some(found) => ed2k_sources::united(old(self).sources@, found@),
                None => old(self).sources@,
            },
            final(self).step == (SourceAcquisition { sources: final(self).sources, ..*old(self) }).next_step(),
            final(self).has_background_search == old(self).has_background_search,
            final(self).preferred_endpoint == old(self).preferred_endpoint,
            final(self).file_size == old(self).file_size,
            final(self).kad_supplement_threshold == old(self).kad_supplement_threshold,
    {
        match found {
            Some(found) => {
                let ghost before = self.sources@;
                merge_download_sources(&mut self.sources, &found);
                proof {
                    ed2k_sources::law_union_keeps_known(before, found@);
                }
            },
            None => {},
        }
        let kad_or_done: AcquisitionStep = if self.file_size != 0 && self.sources.len()
            <= self.kad_supplement_threshold {
            AcquisitionStep::Kad
        } else {
            AcquisitionStep::Done
        };
        self.step = match self.step {
            AcquisitionStep::Background => AcquisitionStep::Servers,
            AcquisitionStep::Servers => if self.sources.len() == 0 {
                AcquisitionStep::UdpServers
            } else {
                kad_or_done
            },
            AcquisitionStep::UdpServers => kad_or_done,
            AcquisitionStep::Kad => AcquisitionStep::Done,
            AcquisitionStep::Done => AcquisitionStep::Done,
        };
    }
}

/// Where a callback is requested.
#[derive(Debug, Clone, Copy, PartialEq, Eq, Structural)]
pub enum CallbackRoute {
    Server(SocketAddr),
    /// The server that the agent is connected to.
    Background,
}

/// The server that named a source passes its callback on, and else the connected one.
pub fn callback_route(source: &Ed2kFoundSource) -> (r: CallbackRoute)
    ensures
        r == match source.source_server {
            Some(server) => CallbackRoute::Server(server),
            None => CallbackRoute::Background,
        },
{
    match source.source_server {
        Some(server) => CallbackRoute::Server(server),
        None => CallbackRoute::Background,
    }
}

/// What is noted of a callback that is requested.
#[derive(Debug, PartialEq, Eq)]
pub struct Ed2kCallbackIntent {
    pub client_id: u32,
    pub file_hash: String,
    pub canonical_name: String,
    pub file_size: u64,
    pub source_ip: String,
    pub source_tcp_port: u16,
    pub source_user_hash: Option<String>,
}

pub fn callback_intent(source: &Ed2kFoundSource, file_hash: &str, canonical_name: &str, file_size: u64) -> (r:
    Ed2kCallbackIntent)
    ensures
        r.client_id == source.client_id,
        r.file_hash@ == file_hash@,
        r.canonical_name@ == canonical_name@,
        r.file_size == file_size,
        r.source_ip@ == source.ip.text(),
        r.source_tcp_port == source.tcp_port,
        types::opt_text(r.source_user_hash) == match source.user_hash {
            Some(hash) => Some(text::hex_text(hash@)),
            None => None,
        },
{
    Ed2kCallbackIntent {
        client_id: source.client_id,
        file_hash: file_hash.to_owned(),
        canonical_name: canonical_name.to_owned(),
        file_size,
        source_ip: source.ip.to_text(),
        source_tcp_port: source.tcp_port,
        source_user_hash: match source.user_hash {
            Some(hash) => Some(hex_encode(hash.as_slice())),
            None => None,
        },
    }
}

/// The low-ID sources whose callback has not been requested, each key once, in order.
pub open spec fn callbacks_due(sources: Seq<Ed2kFoundSource>, requested: Seq<SourceKey>) -> Seq<Ed2kFoundSource>
    decreases sources.len(),
{
    if sources.len() == 0 {
        Seq::empty()
    } else {
        let before = callbacks_due(sources.drop_last(), requested);
        let last = sources.last();
        if last.low_id && !requested.contains(ed2k_sources::key_of(last)) && !ed2k_sources::has_key(
            before,
            ed2k_sources::key_of(last),
        ) {
            before.push(last)
        } else {
            before
        }
    }
}

/// The keys of a list of sources.
pub open spec fn keys_of(sources: Seq<Ed2kFoundSource>) -> Seq<SourceKey> {
    Seq::new(sources.len(), |i: int| ed2k_sources::key_of(sources[i]))
}

fn contains_key(keys: &Vec<SourceKey>, key: &SourceKey) -> (r: bool)
    ensures
        r == keys@.contains(*key),
{
    let mut i: usize = 0;
    while i < keys.len()
        invariant
            i <= keys.len(),
            forall|j: int| 0 <= j < i ==> keys@[j] != *key,
        decreases keys.len() - i,
    {
        if same_source_key(&keys[i], key) {
            assert(keys@[i as int] == *key);
            return true;
        }
        i = i + 1;
    }
    false
}

/// What one round of a download does.
pub struct RoundPlan {
    /// The sources whose callback is requested.
    pub callbacks: Vec<Ed2kFoundSource>,
    /// The sources that are dialed.
    pub direct: Vec<Ed2kFoundSource>,
}

/// What follows a round.
#[derive(Debug, Clone, Copy, PartialEq, Eq, Structural)]
pub enum RefreshPlan {
    /// The rounds are over.
    Stop,
    /// Sources are looked for again, after a pause.
    Refresh { delay_secs: u64 },
}

/// The download of one file, from the first list of sources on.
pub struct DownloadSession {
    pub file_hash: String,
    /// Whether the agent found the sources itself, and so may look for more.
    pub auto_acquire_sources: bool,
    pub file_size: u64,
    pub sources: Vec<Ed2kFoundSource>,
    pub attempted_direct_endpoints: Vec<Endpoint>,
    pub requested_callback_sources: Vec<SourceKey>,
    pub had_direct_sources: bool,
    pub accepted_incomplete_peers: u32,
    pub last_direct_error: Option<String>,
    pub source_requery_round: usize,
}

impl DownloadSession {
    /// No endpoint is dialed twice, no callback is requested twice, and sources are looked for
    /// again a bounded number of times.
    pub open spec fn wf(self) -> bool {
        &&& self.attempted_direct_endpoints@.no_duplicates()
        &&& self.requested_callback_sources@.no_duplicates()
        &&& self.source_requery_round <= ED2K_DOWNLOAD_SOURCE_REQUERY_ROUNDS
        &&& (self.attempted_direct_endpoints@.len() > 0 ==> self.had_direct_sources)
    }

    /// Begins a download with its first sources. It takes one at least.
    pub fn begin(file_hash: String, auto_acquire_sources: bool, file_size: u64, sources: Vec<Ed2kFoundSource>) -> (r:
        Result<DownloadSession, DownloadFailure>)
        ensures
            match r {
                Ok(session) => {
                    &&& sources@.len() > 0
                    &&& session.wf()
                    &&& session.file_hash == file_hash
                    &&& session.auto_acquire_sources == auto_acquire_sources
                    &&& session.file_size == file_size
                    &&& session.sources == sources
                    &&& session.attempted_direct_endpoints@.len() == 0
                    &&& session.requested_callback_sources@.len() == 0
                    &&& !session.had_direct_sources
                    &&& session.accepted_incomplete_peers == 0
                    &&& session.last_direct_error is None
                    &&& session.source_requery_round == 0
                },
                Err(error) => sources@.len() == 0 && error == (DownloadFailure::NoSources { file_hash }),
            },
    {
        if sources.len() == 0 {
            return Err(DownloadFailure::NoSources { file_hash });
        }
        Ok(
            DownloadSession {
                file_hash,
                auto_acquire_sources,
                file_size,
                sources,
                attempted_direct_endpoints: Vec::new(),
                requested_callback_sources: Vec::new(),
                had_direct_sources: false,
                accepted_incomplete_peers: 0,
                last_direct_error: None,
                source_requery_round: 0,
            },
        )
    }

    /// Whether `after` is `self` with other sources, attempts and callbacks.
    pub open spec fn same_but_for_round(self, after: DownloadSession) -> bool {
        &&& after.file_hash == self.file_hash
        &&& after.auto_acquire_sources == self.auto_acquire_sources
        &&& after.file_size == self.file_size
        &&& after.accepted_incomplete_peers == self.accepted_incomplete_peers
        &&& after.last_direct_error == self.last_direct_error
        &&& after.source_requery_round == self.source_requery_round
    }

    fn due_callbacks(&self) -> (r: Vec<Ed2kFoundSource>)
        ensures
            r@ == callbacks_due(self.sources@, self.requested_callback_sources@),
    {
        let mut due: Vec<Ed2kFoundSource> = Vec::new();
        let mut keys: Vec<SourceKey> = Vec::new();
        let mut i: usize = 0;
        while i < self.sources.len()
            invariant
                i <= self.sources.len(),
                due@ == callbacks_due(self.sources@.take(i as int), self.requested_callback_sources@),
                keys@ == keys_of(due@),
            decreases self.sources.len() - i,
        {
            proof {
                assert(self.sources@.take(i + 1).drop_last() =~= self.sources@.take(i as int));
                assert(self.sources@.take(i + 1).last() == self.sources@[i as int]);
            }
            let source: Ed2kFoundSource = self.sources[i];
            let key: SourceKey = ed2k_source_attempt_key(&source);
            let known: bool = contains_key(&keys, &key);
            proof {
                if known {
                    let k = choose|k: int| 0 <= k < keys@.len() && keys@[k] == key;
                    assert(ed2k_sources::key_of(due@[k]) == key);
                }
                if ed2k_sources::has_key(due@, key) {
                    let k = choose|k: int|
                        0 <= k < due@.len() && ed2k_sources::key_of(#[trigger] due@[k]) == key;
                    assert(keys@[k] == key);
                }
            }
            if source.low_id && !contains_key(&self.requested_callback_sources, &key) && !known {
                due.push(source);
                keys.push(key);
                assert(keys@ =~= keys_of(due@));
            }
            i = i + 1;
        }
        assert(self.sources@.take(i as int) =~= self.sources@);
        due
    }

    /// Plans a round. The sources are sorted; low-ID sources are called back, once each; the
    /// others are dialed, each endpoint once in the whole download.
    pub fn begin_round(&mut self) -> (r: RoundPlan)
        requires
            old(self).wf(),
        ensures
            final(self).wf(),
            old(self).same_but_for_round(*final(self)),
            final(self).sources@ == ed2k_sources::sorted_sources(old(self).sources@),
            r.callbacks@ == callbacks_due(final(self).sources@, old(self).requested_callback_sources@),
            final(self).requested_callback_sources@ == old(self).requested_callback_sources@ + keys_of(
                r.callbacks@,
            ),
            r.direct@ == ed2k_sources::candidates(
                final(self).sources@,
                old(self).attempted_direct_endpoints@,
            ),
            final(self).attempted_direct_endpoints@ == old(self).attempted_direct_endpoints@
                + ed2k_sources::endpoints_of(r.direct@),
            final(self).had_direct_sources == (old(self).had_direct_sources || r.direct@.len() > 0),
    {
        let ghost before = *self;
        sort_native_ed2k_download_sources(&mut self.sources);
        let callbacks: Vec<Ed2kFoundSource> = self.due_callbacks();
        let mut i: usize = 0;
        while i < callbacks.len()
            invariant
                i <= callbacks.len(),
                self.requested_callback_sources@ == before.requested_callback_sources@ + keys_of(
                    callbacks@.take(i as int),
                ),
                self.sources@ == ed2k_sources::sorted_sources(before.sources@),
                before.same_but_for_round(*self),
                self.attempted_direct_endpoints == before.attempted_direct_endpoints,
                self.had_direct_sources == before.had_direct_sources,
            decreases callbacks.len() - i,
        {
            self.requested_callback_sources.push(ed2k_source_attempt_key(&callbacks[i]));
            assert(self.requested_callback_sources@ =~= before.requested_callback_sources@ + keys_of(
                callbacks@.take(i + 1),
            ));
            i = i + 1;
        }
        assert(callbacks@.take(i as int) =~= callbacks@);
        let direct: Vec<Ed2kFoundSource> = direct_download_candidate_sources(
            &self.sources,
            &self.attempted_direct_endpoints,
        );
        if direct.len() > 0 {
            self.had_direct_sources = true;
        }
        let ghost requested = self.requested_callback_sources@;
        let mut k: usize = 0;
        while k < direct.len()
            invariant
                k <= direct.len(),
                self.attempted_direct_endpoints@ == before.attempted_direct_endpoints@
                    + ed2k_sources::endpoints_of(direct@.take(k as int)),
                self.sources@ == ed2k_sources::sorted_sources(before.sources@),
                before.same_but_for_round(*self),
                self.requested_callback_sources@ == requested,
                self.had_direct_sources == (before.had_direct_sources || direct@.len() > 0),
            decreases direct.len() - k,
        {
            self.attempted_direct_endpoints.push(ed2k_source_endpoint_key(&direct[k]));
            assert(self.attempted_direct_endpoints@ =~= before.attempted_direct_endpoints@
                + ed2k_sources::endpoints_of(direct@.take(k + 1)));
            k = k + 1;
        }
        assert(direct@.take(k as int) =~= direct@);
        proof {
            lemma_no_repeats(before, self.sources@, callbacks@, direct@);
        }
        RoundPlan { callbacks, direct }
    }

    /// Takes in how the direct downloads of a round ended, and says whether the file is whole.
    pub fn take_direct_outcome(&mut self, outcome: NativeDirectDownloadOutcome) -> (r: bool)
        requires
            old(self).wf(),
        ensures
            final(self).wf(),
            r == outcome.completed,
            *final(self) == if outcome.completed {
                *old(self)
            } else {
                DownloadSession {
                    accepted_incomplete_peers: if old(self).accepted_incomplete_peers
                        + outcome.accepted_incomplete_peers > u32::MAX {
                        u32::MAX
                    } else {
                        (old(self).accepted_incomplete_peers + outcome.accepted_incomplete_peers) as u32
                    },
                    last_direct_error: if outcome.last_error is Some {
                        outcome.last_error
                    } else {
                        old(self).last_direct_error
                    },
                    ..*old(self)
                }
            },
    {
        if outcome.completed {
            return true;
        }
        self.accepted_incomplete_peers = self.accepted_incomplete_peers.saturating_add(
            outcome.accepted_incomplete_peers,
        );
        if outcome.last_error.is_some() {
            self.last_direct_error = outcome.last_error;
        }
        false
    }

    /// Whether sources may be looked for again at all: the agent found them itself, the size is
    /// known, and rounds are left.
    pub open spec fn refreshable(self) -> bool {
        &&& self.auto_acquire_sources
        &&& self.file_size != 0
        &&& self.source_requery_round < ED2K_DOWNLOAD_SOURCE_REQUERY_ROUNDS
    }

    /// Whether it has to be known how far the transfer has got before the next round is planned.
    pub fn may_refresh(&self) -> (r: bool)
        ensures
            r == self.refreshable(),
    {
        self.auto_acquire_sources && self.file_size != 0 && self.source_requery_round
            < ED2K_DOWNLOAD_SOURCE_REQUERY_ROUNDS
    }

    /// Whether sources are looked for again after a round: they may be, and there is a point in it.
    pub open spec fn refreshes(self, progress: bool) -> bool {
        &&& self.refreshable()
        &&& !(self.had_direct_sources && !progress && ed2k_sources::candidates(
            self.sources@,
            self.attempted_direct_endpoints@,
        ).len() == 0)
    }

    /// Decides what follows a round. `progress` is whether anything has been persisted.
    pub fn plan_refresh(&mut self, progress: bool) -> (r: RefreshPlan)
        requires
            old(self).wf(),
        ensures
            final(self).wf(),
            match r {
                RefreshPlan::Stop => !old(self).refreshes(progress) && *final(self) == *old(self),
                RefreshPlan::Refresh { delay_secs } => {
                    &&& old(self).refreshes(progress)
                    &&& *final(self) == (DownloadSession {
                        source_requery_round: (old(self).source_requery_round + 1) as usize,
                        ..*old(self)
                    })
                    &&& delay_secs == if final(self).source_requery_round > 1 {
                        ED2K_DOWNLOAD_SOURCE_REQUERY_DELAY_SECS
                    } else {
                        0
                    }
                },
            },
    {
        if !self.may_refresh() {
            return RefreshPlan::Stop;
        }
        let known_new: usize = new_direct_ed2k_source_count(
            &self.sources,
            &self.attempted_direct_endpoints,
        );
        if should_skip_no_progress_source_requery(self.had_direct_sources, progress, known_new) {
            return RefreshPlan::Stop;
        }
        self.source_requery_round = self.source_requery_round + 1;
        RefreshPlan::Refresh {
            delay_secs: if self.source_requery_round > 1 {
                ED2K_DOWNLOAD_SOURCE_REQUERY_DELAY_SECS
            } else {
                0
            },
        }
    }

    /// Takes in what the renewed search found, `None` where it failed, and says whether another
    /// round follows: where something has been persisted, where somebody new can be dialed, and,
    /// while rounds are left, where nobody could be dialed so far or the search failed.
    pub fn take_refreshed(&mut self, refreshed: Option<Vec<Ed2kFoundSource>>, progress: bool) -> (r: bool)
        requires
            old(self).wf(),
        ensures
            final(self).wf(),
            old(self).same_but_for_round(*final(self)),
            final(self).attempted_direct_endpoints == old(self).attempted_direct_endpoints,
            final(self).requested_callback_sources == old(self).requested_callback_sources,
            final(self).had_direct_sources == old(self).had_direct_sources,
            match refreshed {
                Some(found) => {
                    &&& final(self).sources@ == ed2k_sources::united(old(self).sources@, found@)
                    &&& r == (progress || ed2k_sources::candidates(
                        final(self).sources@,
                        old(self).attempted_direct_endpoints@,
                    ).len() != 0 || (!old(self).had_direct_sources && old(self).source_requery_round
                        < ED2K_DOWNLOAD_SOURCE_REQUERY_ROUNDS))
                },
                None => {
                    &&& *final(self) == *old(self)
                    &&& r == (old(self).source_requery_round < ED2K_DOWNLOAD_SOURCE_REQUERY_ROUNDS)
                },
            },
    {
        match refreshed {
            Some(found) => {
                merge_download_sources(&mut self.sources, &found);
                let new_direct: usize = new_direct_ed2k_source_count(
                    &self.sources,
                    &self.attempted_direct_endpoints,
                );
                progress || new_direct != 0 || (!self.had_direct_sources && self.source_requery_round
                    < ED2K_DOWNLOAD_SOURCE_REQUERY_ROUNDS)
            },
            None => self.source_requery_round < ED2K_DOWNLOAD_SOURCE_REQUERY_ROUNDS,
        }
    }

    /// Whether callbacks are awaited after the rounds.
    pub fn awaits_callbacks(&self) -> (r: bool)
        ensures
            r == (self.requested_callback_sources@.len() > 0),
    {
        self.requested_callback_sources.len() > 0
    }

    /// How the download ends. A callback transfer that has made progress, or a file that is
    /// whole, is a success; else the failure says how far the direct peers got.
    /// `callback_progress` is whether anything had been persisted once the awaited callbacks had
    /// had their time.
    pub fn verdict(self, callback_progress: bool, completed: bool) -> (r: Result<(), DownloadFailure>)
        ensures
            r is Ok <==> (self.requested_callback_sources@.len() > 0 && callback_progress) || completed,
            r matches Err(error) ==> error == if !self.had_direct_sources {
                DownloadFailure::OnlyCallback { file_hash: self.file_hash }
            } else if self.last_direct_error is Some {
                DownloadFailure::DirectFailed {
                    file_hash: self.file_hash,
                    last_error: self.last_direct_error->0,
                }
            } else if self.accepted_incomplete_peers != 0 {
                DownloadFailure::AcceptedIncomplete {
                    file_hash: self.file_hash,
                    peers: self.accepted_incomplete_peers,
                }
            } else {
                DownloadFailure::NoConcreteError { file_hash: self.file_hash }
            },
    {
        if (self.requested_callback_sources.len() > 0 && callback_progress) || completed {
            return Ok(());
        }
        if !self.had_direct_sources {
            return Err(DownloadFailure::OnlyCallback { file_hash: self.file_hash });
        }
        match self.last_direct_error {
            Some(last_error) => Err(
                DownloadFailure::DirectFailed { file_hash: self.file_hash, last_error },
            ),
            None => if self.accepted_incomplete_peers != 0 {
                Err(
                    DownloadFailure::AcceptedIncomplete {
                        file_hash: self.file_hash,
                        peers: self.accepted_incomplete_peers,
                    },
                )
            } else {
                Err(DownloadFailure::NoConcreteError { file_hash: self.file_hash })
            },
        }
    }
}

proof fn lemma_callbacks_due(sources: Seq<Ed2kFoundSource>, requested: Seq<SourceKey>)
    ensures
        forall|i: int|
            0 <= i < callbacks_due(sources, requested).len() ==> {
                &&& (#[trigger] callbacks_due(sources, requested)[i]).low_id
                &&& !requested.contains(ed2k_sources::key_of(callbacks_due(sources, requested)[i]))
            },
        ed2k_sources::keys_distinct(callbacks_due(sources, requested)),
    decreases sources.len(),
{
    if sources.len() > 0 {
        lemma_callbacks_due(sources.drop_last(), requested);
        let before = callbacks_due(sources.drop_last(), requested);
        let all = callbacks_due(sources, requested);
        assert forall|i: int| 0 <= i < all.len() implies {
            &&& (#[trigger] all[i]).low_id
            &&& !requested.contains(ed2k_sources::key_of(all[i]))
        } by {
            if i < before.len() {
                assert(all[i] == before[i]);
            }
        }
        assert forall|i: int, j: int| 0 <= i < j < all.len() implies ed2k_sources::key_of(
            #[trigger] all[i],
        ) != ed2k_sources::key_of(#[trigger] all[j]) by {
            assert(all[i] == before[i]);
            if j < before.len() {
                assert(all[j] == before[j]);
            }
        }
    }
}

proof fn lemma_no_repeats(
    before: DownloadSession,
    sources: Seq<Ed2kFoundSource>,
    callbacks: Seq<Ed2kFoundSource>,
    direct: Seq<Ed2kFoundSource>,
)
    requires
        before.wf(),
        callbacks == callbacks_due(sources, before.requested_callback_sources@),
        direct == ed2k_sources::candidates(sources, before.attempted_direct_endpoints@),
    ensures
        (before.requested_callback_sources@ + keys_of(callbacks)).no_duplicates(),
        (before.attempted_direct_endpoints@ + ed2k_sources::endpoints_of(direct)).no_duplicates(),
{
    let requested = before.requested_callback_sources@;
    let attempted = before.attempted_direct_endpoints@;
    lemma_callbacks_due(sources, requested);
    ed2k_sources::law_candidates(sources, attempted);
    let all = requested + keys_of(callbacks);
    assert forall|i: int, j: int| 0 <= i < all.len() && 0 <= j < all.len() && i != j implies all[i]
        != all[j] by {
        let n = requested.len() as int;
        if i >= n && j >= n {
            let a = callbacks[i - n];
            let b = callbacks[j - n];
            assert(all[i] == ed2k_sources::key_of(a) && all[j] == ed2k_sources::key_of(b));
        } else if i >= n {
            assert(all[i] == ed2k_sources::key_of(callbacks[i - n]));
            assert(requested.contains(all[j]));
        } else if j >= n {
            assert(all[j] == ed2k_sources::key_of(callbacks[j - n]));
            assert(requested.contains(all[i]));
        }
    }
    let dialed = attempted + ed2k_sources::endpoints_of(direct);
    assert forall|i: int, j: int| 0 <= i < dialed.len() && 0 <= j < dialed.len() && i != j implies dialed[i]
        != dialed[j] by {
        let n = attempted.len() as int;
        if i >= n && j >= n {
            let a = direct[i - n];
            let b = direct[j - n];
            assert(dialed[i] == a.endpoint_of() && dialed[j] == b.endpoint_of());
        } else if i >= n {
            assert(dialed[i] == direct[i - n].endpoint_of());
            assert(attempted.contains(dialed[j]));
        } else if j >= n {
            assert(dialed[j] == direct[j - n].endpoint_of());
            assert(attempted.contains(dialed[i]));
        }
    }
}

/// Direct peers that led to nothing end the rounds: right after a round that has dialed somebody,
/// now or before, and with nothing persisted, sources are not looked for again.
pub proof fn law_no_progress_ends_rounds(before: DownloadSession, after: DownloadSession)
    requires
        after.attempted_direct_endpoints@ == before.attempted_direct_endpoints@
            + ed2k_sources::endpoints_of(
            ed2k_sources::candidates(after.sources@, before.attempted_direct_endpoints@),
        ),
        after.had_direct_sources,
    ensures
        !after.refreshes(false),
{
    ed2k_sources::law_attempted_endpoints_exhausted(
        after.sources@,
        before.attempted_direct_endpoints@,
    );
}

/// The files being fetched, by their hash.
pub struct ActiveDownloads {
    pub hashes: Vec<String>,
}

impl View for ActiveDownloads {
    type V = Set<Seq<char>>;

    open spec fn view(&self) -> Set<Seq<char>> {
        Set::new(|hash: Seq<char>| self.listed(hash))
    }
}

impl ActiveDownloads {
    /// Whether a hash is listed.
    pub open spec fn listed(self, hash: Seq<char>) -> bool {
        exists|i: int| 0 <= i < self.hashes@.len() && (#[trigger] self.hashes@[i])@ == hash
    }

    /// No hash is listed twice.
    pub open spec fn wf(self) -> bool {
        forall|i: int, j: int|
            0 <= i < j < self.hashes@.len() ==> (#[trigger] self.hashes@[i])@ != (#[trigger] self.hashes@[j])@
    }

    pub fn new() -> (r: ActiveDownloads)
        ensures
            r.wf(),
            r@ == Set::<Seq<char>>::empty(),
    {
        let r: ActiveDownloads = ActiveDownloads { hashes: Vec::new() };
        assert(r@ =~= Set::<Seq<char>>::empty());
        r
    }

    fn find(&self, hash: &str) -> (r: Option<usize>)
        ensures
            r is Some <==> self@.contains(hash@),
            r matches Some(i) ==> i < self.hashes@.len() && self.hashes@[i as int]@ == hash@,
    {
        let mut i: usize = 0;
        while i < self.hashes.len()
            invariant
                i <= self.hashes.len(),
                forall|j: int| 0 <= j < i ==> (#[trigger] self.hashes@[j])@ != hash@,
            decreases self.hashes.len() - i,
        {
            if same_text(self.hashes[i].as_str(), hash) {
                assert(self.hashes@[i as int]@ == hash@);
                return Some(i);
            }
            i = i + 1;
        }
        None
    }

    /// Lists the file of a request, and returns its hash in lowercase. A file that is being
    /// fetched already is refused.
    pub fn begin(&mut self, file_hash: &str) -> (r: Result<String, DownloadFailure>)
        requires
            old(self).wf(),
        ensures
            final(self).wf(),
            match r {
                Ok(hash) => hash@ == text::lowercase(file_hash@) && !old(self)@.contains(hash@)
                    && final(self)@ == old(self)@.insert(hash@),
                Err(DownloadFailure::AlreadyActive { file_hash: hash }) => hash@ == text::lowercase(
                    file_hash@,
                ) && old(self)@.contains(hash@) && final(self)@ == old(self)@,
                Err(_) => false,
            },
    {
        let hash: String = lowercase_text(file_hash);
        if self.find(hash.as_str()).is_some() {
            return Err(DownloadFailure::AlreadyActive { file_hash: hash });
        }
        let ghost before = *self;
        self.hashes.push(hash.clone());
        proof {
            assert forall|h: Seq<char>| self@.contains(h) <==> before@.insert(hash@).contains(h) by {
                if before.listed(h) {
                    let i = choose|i: int|
                        0 <= i < before.hashes@.len() && (#[trigger] before.hashes@[i])@ == h;
                    assert(self.hashes@[i]@ == h);
                }
                if h == hash@ {
                    assert(self.hashes@[before.hashes@.len() as int]@ == h);
                }
                if self.listed(h) && h != hash@ {
                    let i = choose|i: int|
                        0 <= i < self.hashes@.len() && (#[trigger] self.hashes@[i])@ == h;
                    assert(before.hashes@[i]@ == h);
                }
            }
            assert(self@ =~= before@.insert(hash@));
            assert forall|i: int, j: int| 0 <= i < j < self.hashes@.len() implies (#[trigger] self.hashes@[i])@
                != (#[trigger] self.hashes@[j])@ by {
                assert(self.hashes@[i] == before.hashes@[i]);
                if j < before.hashes@.len() {
                    assert(self.hashes@[j] == before.hashes@[j]);
                } else {
                    assert(before.listed(self.hashes@[i]@));
                }
            }
        }
        Ok(hash)
    }

    /// Takes a file off the list.
    pub fn finish(&mut self, hash: &str)
        requires
            old(self).wf(),
        ensures
            final(self).wf(),
            final(self)@ == old(self)@.remove(hash@),
    {
        let ghost before = *self;
        match self.find(hash) {
            Some(at) => {
                let _removed: String = self.hashes.remove(at);
                proof {
                    let n = at as int;
                    assert forall|i: int, j: int| 0 <= i < j < self.hashes@.len() implies (
                    #[trigger] self.hashes@[i])@ != (#[trigger] self.hashes@[j])@ by {
                        let x = if i < n {
                            i
                        } else {
                            i + 1
                        };
                        let y = if j < n {
                            j
                        } else {
                            j + 1
                        };
                        assert(before.hashes@[x]@ != before.hashes@[y]@);
                    }
                    assert forall|h: Seq<char>| self@.contains(h) <==> before@.remove(hash@).contains(h) by {
                        if self.listed(h) {
                            let i = choose|i: int|
                                0 <= i < self.hashes@.len() && (#[trigger] self.hashes@[i])@ == h;
                            let x = if i < n {
                                i
                            } else {
                                i + 1
                            };
                            assert(before.hashes@[x]@ == h);
                            if i < n {
                                assert(before.hashes@[x]@ != before.hashes@[n]@);
                            } else {
                                assert(before.hashes@[n]@ != before.hashes@[x]@);
                            }
                        }
                        if before.listed(h) && h != hash@ {
                            let i = choose|i: int|
                                0 <= i < before.hashes@.len() && (#[trigger] before.hashes@[i])@ == h;
                            let x = if i < n {
                                i
                            } else {
                                i - 1
                            };
                            assert(self.hashes@[x]@ == h);
                        }
                    }
                    assert(self@ =~= before@.remove(hash@));
                }
            },
            None => {
                assert(self@ =~= self@.remove(hash@));
            },
        }
    }
}

/// A file is fetched once at a time, under whatever case its hash is written: a second request is
/// refused while the first lasts, and taken up again once it has ended.
pub proof fn law_ended_download_can_restart(
    active: Set<Seq<char>>,
    requested: Seq<char>,
    again: Seq<char>,
)
    requires
        !active.contains(text::lowercase(requested)),
        text::lowercase(again) == text::lowercase(requested),
    ensures
        active.insert(text::lowercase(requested)).contains(text::lowercase(again)),
        active.insert(text::lowercase(requested)).remove(text::lowercase(requested)) == active,
{
    let hash = text::lowercase(requested);
    assert(active.insert(hash).remove(hash) =~= active);
}

/// What is shown of a download: its name and hash.
pub open spec fn download_snapshot(
    request: EnrichEd2kDownloadRequest,
    file_hash: Seq<char>,
    snapshot: AgentActivitySnapshot,
    now: Timestamp,
) -> bool {
    &&& types::opt_text(snapshot.query_or_target) == Some(request.name() + " ("@ + file_hash + ")"@)
    &&& snapshot == (AgentActivitySnapshot {
        protocol: Some(Protocol::Ed2k),
        query_or_target: snapshot.query_or_target,
        ..activity::bare_snapshot(AgentActivityState::Downloading, now)
    })
}

/// Shows that a download has begun, and returns the key of the activity.
pub fn begin_download_activity(
    tracker: &mut AgentActivityTracker,
    request: &EnrichEd2kDownloadRequest,
    file_hash: &str,
    now: Timestamp,
) -> (r: String)
    requires
        old(tracker).wf(),
    ensures
        final(tracker).wf(),
        r@ == "ed2k_download:"@ + file_hash@,
        final(tracker).degraded == old(tracker).degraded,
        final(tracker).idle_since == old(tracker).idle_since,
        exists|snapshot: AgentActivitySnapshot| #[trigger]
            download_snapshot(*request, file_hash@, snapshot, now) && final(tracker)@ == old(tracker)@.insert(
                r@,
                snapshot,
            ),
{
    let key: String = active_ed2k_download_key(file_hash);
    let mut snapshot: AgentActivitySnapshot = new_activity_snapshot(
        AgentActivityState::Downloading,
        now,
    );
    snapshot.protocol = Some(Protocol::Ed2k);
    let mut target: String = request.canonical_name();
    target.append(" (");
    target.append(file_hash);
    target.append(")");
    snapshot.query_or_target = Some(target);
    assert(download_snapshot(*request, file_hash@, snapshot, now));
    tracker.enter(key.clone(), snapshot);
    key
}

/// Notes that a download failed.
pub fn record_download_failure(tracker: &mut AgentActivityTracker, file_hash: &str, error: String, now: Timestamp)
    requires
        old(tracker).wf(),
    ensures
        final(tracker).wf(),
        final(tracker).active == old(tracker).active,
        final(tracker).idle_since == old(tracker).idle_since,
        final(tracker).degraded matches Some(snapshot) && activity::says_failed(
            snapshot,
            "ED2K download "@ + file_hash@,
            error,
            now,
        ),
{
    let what: String = joined("ED2K download ", file_hash);
    tracker.record_degraded(degraded_snapshot(what.as_str(), error, now));
}

/// Shows that a download has ended. A success clears what degraded the agent; a failure is noted.
pub fn finish_download_activity(
    tracker: &mut AgentActivityTracker,
    key: &str,
    file_hash: &str,
    error: Option<String>,
    now: Timestamp,
)
    requires
        old(tracker).wf(),
    ensures
        final(tracker).wf(),
        final(tracker)@ == old(tracker)@.remove(key@),
        final(tracker).idle_since == activity::idle_after(*old(tracker), *final(tracker), key@, now),
        match error {
            Some(error) => final(tracker).degraded matches Some(snapshot) && activity::says_failed(
            snapshot,
            "ED2K download "@ + file_hash@,
            error,
            now,
        ),
            None => final(tracker).degraded is None,
        },
{
    tracker.leave(key, now);
    match error {
        Some(error) => {
            record_download_failure(tracker, file_hash, error, now);
        },
        None => {
            tracker.clear_degraded();
        },
    }
}

/// Why a local file cannot be taken in.
#[derive(Debug, PartialEq, Eq)]
pub enum LocalIngestError {
    WaitingForInterface,
    Request { error: EnrichError },
}

impl LocalIngestError {
    /// The text of the error.
    pub open spec fn text(self) -> Seq<char> {
        match self {
            LocalIngestError::WaitingForInterface => "agent networking is waiting for interface selection"@,
            LocalIngestError::Request { error } => error.text(),
        }
    }

    pub fn message(&self) -> (r: String)
        ensures
            r@ == self.text(),
    {
        match self {
            LocalIngestError::WaitingForInterface => "agent networking is waiting for interface selection".to_owned(),
            LocalIngestError::Request { error } => error.message(),
        }
    }
}

/// The name under which a local file is taken in, once the agent has an interface.
pub fn ingest_local_file_name(request: &IngestLocalFileRequest, networked: bool) -> (r: Result<
    String,
    LocalIngestError,
>)
    ensures
        match r {
            Ok(name) => networked && ed2k_enrich::nonempty_trimmed(types::opt_text(request.canonical_name))
                == Some(name@),
            Err(LocalIngestError::WaitingForInterface) => !networked,
            Err(LocalIngestError::Request { error }) => networked && error is MissingCanonicalName
                && ed2k_enrich::nonempty_trimmed(types::opt_text(request.canonical_name)) is None,
        },
{
    if !networked {
        return Err(LocalIngestError::WaitingForInterface);
    }
    match request.canonical_name() {
        Ok(name) => Ok(name),
        Err(error) => Err(LocalIngestError::Request { error }),
    }
}

/// Every wait lasts as long as the configured timeout, and never shorter than its own floor: half a
/// minute for a callback, a minute and a half for a callback transfer, ten seconds for a direct peer,
/// three quarters of a minute for Kad.
pub proof fn law_download_timeouts(config: &Ed2kConfig, callback: u64, budget: u64, peer: u64, kad: u64)
    requires
        call_ensures(callback_timeout_secs, (config,), callback),
        call_ensures(callback_wait_budget_secs, (config,), budget),
        call_ensures(peer_connect_timeout_secs, (config,), peer),
        call_ensures(kad_source_timeout_secs, (config,), kad),
    ensures
        callback >= 30 && budget >= 90 && peer >= 10 && kad >= 45,
        callback >= config.connect_timeout_secs && budget >= config.connect_timeout_secs,
        peer >= config.connect_timeout_secs && kad >= config.connect_timeout_secs,
        callback == 30 || callback == config.connect_timeout_secs,
        budget == 90 || budget == config.connect_timeout_secs,
        peer == 10 || peer == config.connect_timeout_secs,
        kad == 45 || kad == config.connect_timeout_secs,
{
}

/// A wait for a callback transfer looks at it every two seconds until it is settled or its time is
/// over. A whole file needs no waiting; a verified part ends it; what was seen once stays.
pub proof fn law_callback_wait(
    config: &Ed2kConfig,
    manifest: &Ed2kResumeManifest,
    begun: CallbackWait,
    wait: &mut CallbackWait,
    elapsed_secs: u64,
    step: CallbackWaitStep,
    settled: bool,
)
    requires
        call_ensures(CallbackWait::begin, (config, manifest), begun),
        call_ensures(CallbackWait::observe, (wait, manifest), ()),
        call_ensures(CallbackWait::next, (final(wait), elapsed_secs), step),
        call_ensures(callback_transfer_settled, (manifest,), settled),
    ensures
        begun.settled <==> manifest.completed,
        begun.budget_secs >= 90 && begun.budget_secs >= config.connect_timeout_secs,
        settled <==> manifest.completed || manifest.verified_ranges@.len() > 0,
        final(wait).settled <==> old(wait).settled || settled,
        final(wait).budget_secs == old(wait).budget_secs,
        settled ==> step is Done,
        old(wait).settled ==> step is Done,
        elapsed_secs >= old(wait).budget_secs ==> step is Done,
        !old(wait).settled && !settled && elapsed_secs < old(wait).budget_secs ==> step == (
        CallbackWaitStep::Poll { pause_secs: 2 }),
{
}

/// What a failure says names the file it is about.
pub proof fn law_failure_messages(failure: &DownloadFailure, r: String)
    requires
        call_ensures(DownloadFailure::message, (failure,), r),
    ensures
        *failure matches DownloadFailure::UnsupportedKind { kind } ==> r@ == "unsupported enrich kind "@ + kind@,
        *failure matches DownloadFailure::AlreadyActive { file_hash } ==> r@ == "ED2K download "@ + file_hash@
            + " is already active"@,
        *failure matches DownloadFailure::InvalidFileHash { raw } ==> r@ == "invalid ED2K file hash "@ + raw@,
        *failure is WaitingForInterface ==> r@ == "agent networking is waiting for interface selection"@,
        *failure matches DownloadFailure::NoSources { file_hash } ==> r@ == "no ED2K sources available for "@
            + file_hash@,
        *failure matches DownloadFailure::DirectFailed { file_hash, .. } ==> r@
            == "native ED2K download did not complete for "@ + file_hash@ + " after trying discovered sources"@,
        *failure matches DownloadFailure::AcceptedIncomplete { file_hash, peers } ==> r@
            == "native ED2K download for "@ + file_hash@ + " did not complete after "@ + text::decimal(
            peers as nat,
        ) + " accepted incomplete peer sessions"@,
        *failure matches DownloadFailure::NoConcreteError { file_hash } ==> r@ == "native ED2K download for "@
            + file_hash@ + " did not complete and no peer reported a concrete error"@,
        *failure matches DownloadFailure::OnlyCallback { file_hash } ==> r@
            == "native ED2K download found only callback-only or otherwise non-dialable sources for "@ + file_hash@,
        *failure matches DownloadFailure::InvalidSource { error } ==> r@ == error.text(),
{
}

/// A request is taken up exactly where it is one for a download, its hash is 32 hexadecimal digits
/// and the agent has an interface; of several things that are wrong the first of these is said.
pub proof fn law_requests_are_checked(
    request: &EnrichEd2kDownloadRequest,
    networked: bool,
    r: Result<Ed2kHash, DownloadFailure>,
    kind: Result<(), DownloadFailure>,
)
    requires
        call_ensures(check_download_request, (request, networked), r),
        call_ensures(check_download_kind, (request,), kind),
    ensures
        kind is Ok <==> request.kind@ == "ed2k_download"@,
        kind matches Err(error) ==> (error matches DownloadFailure::UnsupportedKind { kind: said } && said
            == request.kind),
        request.kind@ != "ed2k_download"@ ==> (r matches Err(DownloadFailure::UnsupportedKind { kind: said })
            && said == request.kind),
        ({
            let spelled = request.file_hash@.len() == 32 && forall|i: int|
                0 <= i < 32 ==> text::is_hex_char(#[trigger] request.file_hash@[i]);
            &&& request.kind@ == "ed2k_download"@ && !spelled ==> (r matches Err(
                DownloadFailure::InvalidFileHash { raw },
            ) && raw == request.file_hash)
            &&& request.kind@ == "ed2k_download"@ && spelled && !networked ==> (r matches Err(
                DownloadFailure::WaitingForInterface,
            ))
            &&& request.kind@ == "ed2k_download"@ && spelled && networked ==> (r matches Ok(hash) && hash.0@
                == text::hex_bytes(request.file_hash@))
        }),
{
}

/// A file's name and size are looked for only where the request names no sources, and then exactly
/// where a size or a name of its own is missing; only a name that stands in is replaced.
pub proof fn law_metadata_wanted(
    request: &EnrichEd2kDownloadRequest,
    learned: &LearnedEd2kMetadata,
    r: bool,
    adopted: Option<String>,
)
    requires
        call_ensures(wants_metadata, (request,), r),
        call_ensures(adopted_name, (request, learned), adopted),
    ensures
        request.sources@.len() > 0 ==> !r,
        request.sources@.len() == 0 && (request.file_size is None || request.file_size == Some(0u64)) ==> r,
        request.sources@.len() == 0 && request.file_name is None ==> r,
        request.file_name is None ==> adopted == learned.canonical_name,
        request.file_name matches Some(given) ==> {
            let stand_in = text::ascii_lower("ed2k-"@ + request.file_hash@ + ".bin"@);
            let own = text::trimmed(given@).len() > 0 && text::ascii_lower(text::trimmed(given@)) != stand_in;
            &&& own ==> adopted is None
            &&& own && (request.file_size matches Some(size) && size > 0) ==> !r
            &&& !own ==> adopted == learned.canonical_name
            &&& !own && request.sources@.len() == 0 ==> r
        },
{
}

/// The sources of a request are taken as they are described, in their order, all or none.
pub proof fn law_requested_sources(
    sources: Vec<EnrichEd2kDownloadSource>,
    file_hash: Ed2kHash,
    r: Result<Vec<Ed2kFoundSource>, DownloadFailure>,
    i: int,
)
    requires
        call_ensures(requested_sources, (sources, file_hash), r),
        0 <= i < sources@.len(),
    ensures
        r matches Ok(found) ==> {
            &&& found@.len() == sources@.len()
            &&& found@[i].file_hash == file_hash
            &&& found@[i].ip == sources@[i].ip
            &&& found@[i].tcp_port == sources@[i].tcp_port
            &&& sources@[i].client_id matches Some(id) ==> found@[i].client_id == id
            &&& found@[i].low_id <==> sources@[i].low_id == Some(true)
            &&& found@[i].obfuscation_options == sources@[i].obfuscation_options
            &&& found@[i].user_hash is Some <==> sources@[i].user_hash is Some
        },
        sources@[i].user_hash matches Some(value) ==> (value@.len() != 32 ==> r is Err),
        (forall|k: int| 0 <= k < sources@.len() ==> (#[trigger] sources@[k]).user_hash is None) ==> r is Ok,
        r matches Err(error) ==> error is InvalidSource,
{
    if let Ok(found) = r {
        assert(taken_for(sources@[i], file_hash, found@[i]));
    }
}

/// A search for sources begins at the connected server, which is then left out of the others that are
/// asked; without one it begins at those.
pub proof fn law_acquisition_begins(
    server: &Ed2kServerState,
    file_size: u64,
    threshold: usize,
    config: &Ed2kConfig,
    r: SourceAcquisition,
    options: ServerSearchOptions,
)
    requires
        call_ensures(SourceAcquisition::begin, (server, file_size, threshold), r),
        call_ensures(SourceAcquisition::server_options, (&r, config), options),
    ensures
        r.sources@.len() == 0,
        r.file_size == file_size,
        r.kad_supplement_threshold == threshold,
        server.connected ==> r.step is Background && r.preferred_endpoint == server.endpoint,
        !server.connected ==> r.step is Servers && r.preferred_endpoint is None,
        server.connected ==> options.excluded_endpoint == server.endpoint,
        !server.connected ==> options.excluded_endpoint is None,
        options.preferred_endpoint == r.preferred_endpoint,
{
}

/// The connected server is asked first, then the other servers, by UDP only while nothing is known,
/// and Kad last, where the size is known and no more sources are than the threshold; what a step
/// found is added to what is known.
pub proof fn law_acquisition_steps(search: &mut SourceAcquisition, found: Option<Vec<Ed2kFoundSource>>)
    requires
        old(search).wf(),
        call_ensures(SourceAcquisition::advance, (search, found), ()),
    ensures
        found is None ==> final(search).sources@ == old(search).sources@,
        final(search).sources@.len() >= old(search).sources@.len(),
        found matches Some(new) ==> (old(search).sources@.len() == 0 && new@.len() > 0
            ==> final(search).sources@.len() > 0),
        old(search).step is Background ==> final(search).step is Servers,
        old(search).step is Servers && final(search).sources@.len() == 0 ==> final(search).step is UdpServers,
        ((old(search).step is Servers && final(search).sources@.len() > 0) || old(search).step is UdpServers) ==> {
            let wanted = old(search).file_size > 0 && final(search).sources@.len() <= old(search).kad_supplement_threshold;
            &&& wanted ==> final(search).step is Kad
            &&& !wanted ==> final(search).step is Done
        },
        old(search).step is Kad || old(search).step is Done ==> final(search).step is Done,
        final(search).file_size == old(search).file_size,
        final(search).preferred_endpoint == old(search).preferred_endpoint,
{
    if let Some(new) = found {
        ed2k_sources::law_union_keeps_known(old(search).sources@, new@);
        ed2k_sources::law_union_complete(old(search).sources@, new@);
        if new@.len() > 0 {
            let all = ed2k_sources::united(old(search).sources@, new@);
            assert(ed2k_sources::has_key(all, ed2k_sources::key_of(new@[0])));
        }
    }
}

/// A callback goes by way of the server that named the peer, and by the connected one where none
/// did.
pub proof fn law_callback_route(source: &Ed2kFoundSource, r: CallbackRoute)
    requires
        call_ensures(callback_route, (source,), r),
    ensures
        source.source_server matches Some(server) ==> r == CallbackRoute::Server(server),
        source.source_server is None ==> r is Background,
{
}

/// What is noted of a callback names the peer, by its ID, address, port and user hash, and the file.
pub proof fn law_callback_intent(
    source: &Ed2kFoundSource,
    file_hash: &str,
    name: &str,
    size: u64,
    ip: String,
    r: Ed2kCallbackIntent,
)
    requires
        call_ensures(callback_intent, (source, file_hash, name, size), r),
        call_ensures(ids::Ipv4Addr::to_text, (source.ip,), ip),
    ensures
        r.client_id == source.client_id,
        r.file_hash@ == file_hash@,
        r.canonical_name@ == name@,
        r.file_size == size,
        r.source_ip@ == ip@,
        r.source_tcp_port == source.tcp_port,
        r.source_user_hash is Some <==> source.user_hash is Some,
        source.user_hash matches Some(hash) ==> (r.source_user_hash matches Some(text) && text@.len() == 32
            && text::hex_bytes(text@) == hash@),
{
    if let Some(hash) = source.user_hash {
        ids::law_hex_round_trip(hash@);
    }
}

/// A download begins with all its sources, none of them tried; it takes one at least.
pub proof fn law_download_begins(
    file_hash: String,
    auto: bool,
    size: u64,
    sources: Vec<Ed2kFoundSource>,
    r: Result<DownloadSession, DownloadFailure>,
)
    requires
        call_ensures(DownloadSession::begin, (file_hash, auto, size, sources), r),
    ensures
        r is Ok <==> sources@.len() > 0,
        r matches Err(error) ==> (error matches DownloadFailure::NoSources { file_hash: said } && said
            == file_hash),
        r matches Ok(session) ==> {
            &&& session.file_hash == file_hash
            &&& session.auto_acquire_sources == auto
            &&& session.file_size == size
            &&& session.sources@ == sources@
            &&& session.attempted_direct_endpoints@.len() == 0
            &&& session.requested_callback_sources@.len() == 0
            &&& !session.had_direct_sources
            &&& session.accepted_incomplete_peers == 0
            &&& session.last_direct_error is None
            &&& session.source_requery_round == 0
        },
{
}

/// A round dials only peers that can be dialed and calls back only peers with a low ID; whom it dials
/// was not dialed before, and is noted; whom it calls back is noted too; and no source is lost.
pub proof fn law_rounds_are_planned(session: &mut DownloadSession, r: RoundPlan, i: int)
    requires
        old(session).wf(),
        call_ensures(DownloadSession::begin_round, (session,), r),
    ensures
        final(session).sources@.to_multiset() == old(session).sources@.to_multiset(),
        0 <= i < r.direct@.len() ==> {
            let at = Endpoint { ip: r.direct@[i].ip, port: r.direct@[i].tcp_port };
            &&& !r.direct@[i].low_id
            &&& r.direct@[i].tcp_port != 0
            &&& !old(session).attempted_direct_endpoints@.contains(at)
            &&& final(session).attempted_direct_endpoints@.contains(at)
            &&& final(session).had_direct_sources
        },
        0 <= i < r.callbacks@.len() ==> {
            let key = SourceKey {
                ip: r.callbacks@[i].ip,
                tcp_port: r.callbacks@[i].tcp_port,
                user_hash: r.callbacks@[i].user_hash,
                obfuscation_options: r.callbacks@[i].obfuscation_options,
            };
            &&& r.callbacks@[i].low_id
            &&& !old(session).requested_callback_sources@.contains(key)
            &&& final(session).requested_callback_sources@.contains(key)
        },
        0 <= i < final(session).sources@.len() && final(session).sources@[i].low_id ==> final(session).requested_callback_sources@.contains(
            SourceKey {
                ip: final(session).sources@[i].ip,
                tcp_port: final(session).sources@[i].tcp_port,
                user_hash: final(session).sources@[i].user_hash,
                obfuscation_options: final(session).sources@[i].obfuscation_options,
            },
        ),
        0 <= i < final(session).sources@.len() && !final(session).sources@[i].low_id && final(session).sources@[i].tcp_port
            != 0 ==> final(session).attempted_direct_endpoints@.contains(
            Endpoint { ip: final(session).sources@[i].ip, port: final(session).sources@[i].tcp_port },
        ),
        final(session).attempted_direct_endpoints@.len() == old(session).attempted_direct_endpoints@.len()
            + r.direct@.len(),
        final(session).requested_callback_sources@.len() == old(session).requested_callback_sources@.len()
            + r.callbacks@.len(),
        final(session).source_requery_round == old(session).source_requery_round,
        final(session).last_direct_error == old(session).last_direct_error,
        final(session).file_hash == old(session).file_hash,
        final(session).file_size == old(session).file_size,
        final(session).auto_acquire_sources == old(session).auto_acquire_sources,
        final(session).accepted_incomplete_peers == old(session).accepted_incomplete_peers,
        r.direct@.len() == 0 ==> final(session).had_direct_sources == old(session).had_direct_sources,
{
    let sources = final(session).sources@;
    let requested = old(session).requested_callback_sources@;
    let attempted = old(session).attempted_direct_endpoints@;
    ed2k_sources::law_sort_is_ordered_permutation(old(session).sources@);
    ed2k_sources::law_candidates(sources, attempted);
    lemma_callbacks_due(sources, requested);
    lemma_callbacks_complete(sources, requested);
    if 0 <= i < r.direct@.len() {
        assert(r.direct@[i].dialable());
        assert(final(session).attempted_direct_endpoints@[attempted.len() + i] == r.direct@[i].endpoint_of());
    }
    if 0 <= i < r.callbacks@.len() {
        assert(final(session).requested_callback_sources@[requested.len() + i] == ed2k_sources::key_of(
            r.callbacks@[i],
        ));
    }
    if 0 <= i < sources.len() && sources[i].low_id {
        let key = ed2k_sources::key_of(sources[i]);
        if requested.contains(key) {
            let k = choose|k: int| 0 <= k < requested.len() && requested[k] == key;
            assert(final(session).requested_callback_sources@[k] == key);
        } else {
            assert(ed2k_sources::has_key(r.callbacks@, key));
            let k = choose|k: int|
                0 <= k < r.callbacks@.len() && ed2k_sources::key_of(#[trigger] r.callbacks@[k]) == key;
            assert(final(session).requested_callback_sources@[requested.len() + k] == key);
        }
    }
    if 0 <= i < sources.len() && sources[i].dialable() {
        let at = sources[i].endpoint_of();
        if attempted.contains(at) {
            let k = choose|k: int| 0 <= k < attempted.len() && attempted[k] == at;
            assert(final(session).attempted_direct_endpoints@[k] == at);
        } else {
            assert(ed2k_sources::lists_endpoint(r.direct@, at));
            let k = choose|k: int| 0 <= k < r.direct@.len() && (#[trigger] r.direct@[k]).endpoint_of() == at;
            assert(final(session).attempted_direct_endpoints@[attempted.len() + k] == at);
        }
    }
}

proof fn lemma_callbacks_complete(sources: Seq<Ed2kFoundSource>, requested: Seq<SourceKey>)
    ensures
        forall|k: int|
            0 <= k < sources.len() && (#[trigger] sources[k]).low_id && !requested.contains(
                ed2k_sources::key_of(sources[k]),
            ) ==> ed2k_sources::has_key(callbacks_due(sources, requested), ed2k_sources::key_of(sources[k])),
        forall|k: int|
            0 <= k < callbacks_due(sources, requested).len() ==> (#[trigger] callbacks_due(sources, requested)[k]).low_id,
    decreases sources.len(),
{
    if sources.len() > 0 {
        let init = sources.drop_last();
        lemma_callbacks_complete(init, requested);
        let before = callbacks_due(init, requested);
        let all = callbacks_due(sources, requested);
        assert forall|k: int| 0 <= k < sources.len() && (#[trigger] sources[k]).low_id && !requested.contains(
            ed2k_sources::key_of(sources[k]),
        ) implies ed2k_sources::has_key(all, ed2k_sources::key_of(sources[k])) by {
            let key = ed2k_sources::key_of(sources[k]);
            if k < init.len() {
                assert(init[k] == sources[k]);
            }
            if ed2k_sources::has_key(before, key) {
                let m = choose|m: int| 0 <= m < before.len() && ed2k_sources::key_of(#[trigger] before[m]) == key;
                assert(ed2k_sources::key_of(all[m]) == key);
            } else {
                assert(all.last() == sources.last());
                assert(ed2k_sources::key_of(all[all.len() - 1]) == key);
            }
        }
        assert forall|k: int| 0 <= k < all.len() implies (#[trigger] all[k]).low_id by {
            if k < before.len() {
                assert(all[k] == before[k]);
            }
        }
    }
}

/// A whole file ends the rounds and leaves the session as it was. Otherwise the peers that accepted
/// are added, as far as the count reaches, and the last error that was said is kept.
pub proof fn law_direct_outcomes(session: &mut DownloadSession, outcome: NativeDirectDownloadOutcome, r: bool)
    requires
        old(session).wf(),
        call_ensures(DownloadSession::take_direct_outcome, (session, outcome), r),
    ensures
        r <==> outcome.completed,
        r ==> *final(session) == *old(session),
        !r && old(session).accepted_incomplete_peers + outcome.accepted_incomplete_peers <= u32::MAX ==> final(session).accepted_incomplete_peers == old(session).accepted_incomplete_peers
            + outcome.accepted_incomplete_peers,
        !r && old(session).accepted_incomplete_peers + outcome.accepted_incomplete_peers > u32::MAX ==> final(session).accepted_incomplete_peers == u32::MAX,
        !r && outcome.last_error is Some ==> final(session).last_direct_error == outcome.last_error,
        outcome.last_error is None ==> final(session).last_direct_error == old(session).last_direct_error,
        final(session).sources == old(session).sources,
        final(session).source_requery_round == old(session).source_requery_round,
{
}

/// Sources are looked for again at most twice, the second time after five seconds, only by an agent
/// that found them itself and knows the size; not where direct peers led to nothing and nobody new
/// is known.
pub proof fn law_refresh_is_planned(session: &mut DownloadSession, progress: bool, may: bool, new_direct: usize, r: RefreshPlan)
    requires
        old(session).wf(),
        call_ensures(DownloadSession::may_refresh, (&*old(session),), may),
        call_ensures(
            new_direct_ed2k_source_count,
            (&old(session).sources, &old(session).attempted_direct_endpoints),
            new_direct,
        ),
        call_ensures(DownloadSession::plan_refresh, (session, progress), r),
    ensures
        may <==> old(session).auto_acquire_sources && old(session).file_size > 0 && old(session).source_requery_round < 2,
        r is Refresh <==> may && (!old(session).had_direct_sources || progress || new_direct > 0),
        r is Refresh ==> final(session).source_requery_round == old(session).source_requery_round + 1,
        r is Stop ==> *final(session) == *old(session),
        r matches RefreshPlan::Refresh { delay_secs } ==> {
            &&& old(session).source_requery_round == 0 ==> delay_secs == 0
            &&& old(session).source_requery_round == 1 ==> delay_secs == 5
        },
        final(session).sources == old(session).sources,
{
}

/// Another round follows a renewed search where there is progress or somebody new to dial, and, while
/// rounds are left, where nobody was dialed so far; after a search that failed, while rounds are
/// left. What was found is added.
pub proof fn law_refreshed_sources(
    session: &mut DownloadSession,
    refreshed: Option<Vec<Ed2kFoundSource>>,
    progress: bool,
    r: bool,
    new_direct: usize,
)
    requires
        old(session).wf(),
        call_ensures(DownloadSession::take_refreshed, (session, refreshed, progress), r),
        call_ensures(
            new_direct_ed2k_source_count,
            (&final(session).sources, &final(session).attempted_direct_endpoints),
            new_direct,
        ),
    ensures
        refreshed is None ==> *final(session) == *old(session) && (r <==> old(session).source_requery_round < 2),
        refreshed is Some ==> (r <==> progress || new_direct > 0 || (!old(session).had_direct_sources && old(session).source_requery_round < 2)),
        final(session).sources@.len() >= old(session).sources@.len(),
        old(session).sources@.is_prefix_of(final(session).sources@),
        final(session).attempted_direct_endpoints == old(session).attempted_direct_endpoints,
        final(session).source_requery_round == old(session).source_requery_round,
        final(session).file_hash == old(session).file_hash,
        final(session).file_size == old(session).file_size,
        final(session).auto_acquire_sources == old(session).auto_acquire_sources,
        final(session).last_direct_error == old(session).last_direct_error,
        final(session).requested_callback_sources == old(session).requested_callback_sources,
{
    if let Some(found) = refreshed {
        ed2k_sources::law_union_keeps_known(old(session).sources@, found@);
    } else {
        assert(old(session).sources@ =~= old(session).sources@.subrange(0, old(session).sources@.len() as int));
    }
}

/// A download succeeds exactly where the file is whole or a requested callback brought progress. A
/// failure names its file, and says that nobody could be dialed, what the last peer said, how many
/// accepted, or that nobody said anything, the first of these that holds.
pub proof fn law_download_verdict(
    session: DownloadSession,
    callback_progress: bool,
    completed: bool,
    awaits: bool,
    r: Result<(), DownloadFailure>,
)
    requires
        call_ensures(DownloadSession::verdict, (session, callback_progress, completed), r),
        call_ensures(DownloadSession::awaits_callbacks, (&session,), awaits),
    ensures
        awaits <==> session.requested_callback_sources@.len() > 0,
        r is Ok <==> completed || (awaits && callback_progress),
        r is Err && !session.had_direct_sources ==> r == Err::<(), DownloadFailure>(
            DownloadFailure::OnlyCallback { file_hash: session.file_hash },
        ),
        r is Err && session.had_direct_sources ==> {
            &&& session.last_direct_error matches Some(said) ==> r == Err::<(), DownloadFailure>(
                DownloadFailure::DirectFailed { file_hash: session.file_hash, last_error: said },
            )
            &&& session.last_direct_error is None && session.accepted_incomplete_peers > 0 ==> r == Err::<
                (),
                DownloadFailure,
            >(
                DownloadFailure::AcceptedIncomplete {
                    file_hash: session.file_hash,
                    peers: session.accepted_incomplete_peers,
                },
            )
            &&& session.last_direct_error is None && session.accepted_incomplete_peers == 0 ==> r == Err::<
                (),
                DownloadFailure,
            >(DownloadFailure::NoConcreteError { file_hash: session.file_hash })
        },
{
}

/// A file is on the list from its request to its end, under its hash in lowercase, and is refused
/// while it is; no other file comes or goes with it.
pub proof fn law_active_downloads(
    begun: &mut ActiveDownloads,
    ended: &mut ActiveDownloads,
    file_hash: &str,
    r: Result<String, DownloadFailure>,
    other: Seq<char>,
)
    requires
        old(begun).wf(),
        old(ended).wf(),
        call_ensures(ActiveDownloads::begin, (begun, file_hash), r),
        call_ensures(ActiveDownloads::finish, (ended, file_hash), ()),
    ensures
        ({
            let hash = text::lowercase(file_hash@);
            &&& r is Err <==> old(begun).listed(hash)
            &&& r matches Ok(name) ==> name@ == hash
            &&& r matches Err(error) ==> (error matches DownloadFailure::AlreadyActive { file_hash: said }
                && said@ == hash)
            &&& final(begun).listed(hash)
            &&& other != hash ==> (final(begun).listed(other) <==> old(begun).listed(other))
        }),
        !final(ended).listed(file_hash@),
        other != file_hash@ ==> (final(ended).listed(other) <==> old(ended).listed(other)),
{
    let hash = text::lowercase(file_hash@);
    assert(final(begun)@.contains(hash) == final(begun).listed(hash));
    assert(final(begun)@.contains(other) == final(begun).listed(other));
    assert(old(begun)@.contains(hash) == old(begun).listed(hash));
    assert(old(begun)@.contains(other) == old(begun).listed(other));
    assert(final(ended)@.contains(other) == final(ended).listed(other));
    assert(final(ended)@.contains(file_hash@) == final(ended).listed(file_hash@));
    assert(old(ended)@.contains(other) == old(ended).listed(other));
}

/// A download is shown under its hash from its beginning to its end, with its name and hash, as one of
/// the eD2k network; a failure degrades the agent and a success clears that.
pub proof fn law_download_is_shown(
    begun: &mut AgentActivityTracker,
    failed: &mut AgentActivityTracker,
    ended: &mut AgentActivityTracker,
    request: &EnrichEd2kDownloadRequest,
    name: String,
    file_hash: &str,
    key: &str,
    text: String,
    error: Option<String>,
    now: Timestamp,
    r: String,
)
    requires
        old(begun).wf(),
        old(failed).wf(),
        old(ended).wf(),
        call_ensures(EnrichEd2kDownloadRequest::canonical_name, (request,), name),
        call_ensures(begin_download_activity, (begun, request, file_hash, now), r),
        call_ensures(record_download_failure, (failed, file_hash, text, now), ()),
        call_ensures(finish_download_activity, (ended, key, file_hash, error, now), ()),
    ensures
        r@ == "ed2k_download:"@ + file_hash@,
        final(begun)@.contains_key(r@),
        final(begun)@[r@].state is Downloading,
        final(begun)@[r@].protocol == Some(Protocol::Ed2k),
        final(begun)@[r@].query_or_target matches Some(shown) && shown@ == name@ + " ("@ + file_hash@ + ")"@,
        final(begun)@[r@].since == now,
        final(begun)@[r@].last_error is None,
        final(begun)@.remove(r@) =~= old(begun)@.remove(r@),
        final(failed)@ == old(failed)@,
        final(failed).degraded matches Some(shown) && shown.state is Degraded && shown.last_error == Some(text)
            && shown.last_update_at == now && (shown.query_or_target matches Some(what) && what@ == "ED2K download "@
            + file_hash@),
        !final(ended)@.contains_key(key@),
        final(ended)@ == old(ended)@.remove(key@),
        final(ended).degraded is Some <==> error is Some,
        error matches Some(said) ==> (final(ended).degraded matches Some(shown) && shown.last_error == Some(said)),
{
}

/// A local file is taken in only by an agent that has an interface, under its trimmed name; without
/// a name it is refused, and what is wrong is said.
pub proof fn law_local_files(request: &IngestLocalFileRequest, networked: bool, r: Result<String, LocalIngestError>)
    requires
        call_ensures(ingest_local_file_name, (request, networked), r),
    ensures
        !networked ==> (r matches Err(error) && error is WaitingForInterface),
        networked && request.canonical_name is None ==> (r matches Err(LocalIngestError::Request { error })
            && error is MissingCanonicalName),
        request.canonical_name matches Some(given) ==> {
            &&& networked && text::trimmed(given@).len() > 0 ==> (r matches Ok(name) && name@ == text::trimmed(
                given@,
            ))
            &&& networked && text::trimmed(given@).len() == 0 ==> (r matches Err(
                LocalIngestError::Request { error },
            ) && error is MissingCanonicalName)
        },
{
}

/// What is wrong with a local file is said in words.
pub proof fn law_ingest_messages(error: &LocalIngestError, r: String)
    requires
        call_ensures(LocalIngestError::message, (error,), r),
    ensures
        *error is WaitingForInterface ==> r@ == "agent networking is waiting for interface selection"@,
        *error matches LocalIngestError::Request { error: EnrichError::MissingCanonicalName } ==> r@
            == "local ingest payload requires canonicalName"@,
{
}

} // verus!
