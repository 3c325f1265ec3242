//! The HTTP surface: where the coordinator is called, where the agent is called, and what it
//! answers.
//!
//! URLs are read by the `reqwest` crate. What it makes of a text takes pages to state, so its
//! results go by a name each: `parsed_url` and `joined_url`.

use vstd::prelude::*;
use vstd::string::*;
use crate::ids;
use crate::ids::Uuid;
use crate::text::joined;
use crate::types::{clone_text, HashType, Protocol, SearchJob, SearchKind};

verus! {

broadcast use vstd::string::group_string_axioms;

pub const PATH_REGISTER: &'static str = "/api/internal/register";

pub const PATH_RESULTS: &'static str = "/api/internal/results";

pub const PATH_SEARCH_EVENTS: &'static str = "/api/internal/search-events";

pub const PATH_DISPATCH_SEARCH: &'static str = "/api/search";

pub const PATH_SNOOP_FLUSH: &'static str = "/api/internal/snoop-flush";

pub const PATH_POPULAR_HASHES: &'static str = "/api/internal/popular-hashes";

pub const PATH_HARVEST_REPLAYS: &'static str = "/api/internal/harvest-replays";

/// Where the coordinator hands back what an agent had harvested.
pub fn snoop_restore_path(indexer_id: Uuid) -> (r: String)
    ensures
        r@ == "/api/internal/snoop-restore/"@ + ids::uuid_text(indexer_id),
{
    let id: String = indexer_id.to_text();
    joined("/api/internal/snoop-restore/", id.as_str())
}

/// Where the coordinator shows the interfaces of an agent.
pub fn agent_interfaces_path(indexer_id: Uuid) -> (r: String)
    ensures
        r@ == "/api/agents/"@ + ids::uuid_text(indexer_id) + "/interfaces"@,
{
    let id: String = indexer_id.to_text();
    let mut r: String = joined("/api/agents/", id.as_str());
    r.append("/interfaces");
    r
}

/// The texts of a result.
pub open spec fn text_result(r: Result<String, String>) -> Result<Seq<char>, Seq<char>> {
    match r {
        Ok(text) => Ok(text@),
        Err(text) => Err(text@),
    }
}

/// Name of what `reqwest::Url::parse` makes of a text: the URL that the text spells, serialized, or
/// why it spells none.
pub uninterp spec fn parsed_url(text: Seq<char>) -> Result<Seq<char>, Seq<char>>;

/// Name of what `reqwest::Url::join` makes of a reference on the URL that `base` spells: the URL
/// that is referred to, serialized, or why there is none.
pub uninterp spec fn joined_url(base: Seq<char>, reference: Seq<char>) -> Result<
    Seq<char>,
    Seq<char>,
>;

/// `reqwest::Url::parse`: the URL that a text spells, as `String::from` serializes it, or the text
/// of the error. It is claimed that the result depends on the text alone.
#[verifier::external_body]
fn url_parse(text: &str) -> (r: Result<String, String>)
    ensures
        text_result(r) == parsed_url(text@),
{
    match reqwest::Url::parse(text) {
        Ok(url) => Ok(String::from(url)),
        Err(error) => Err(error.to_string()),
    }
}

/// `reqwest::Url::join`: the URL that a reference stands for on the URL that `base` spells, as
/// `String::from` serializes it, or the text of the error. It is claimed that the result depends on
/// the two texts alone.
#[verifier::external_body]
fn url_join(base: &str, reference: &str) -> (r: Result<String, String>)
    requires
        parsed_url(base@) is Ok,
    ensures
        text_result(r) == joined_url(base@, reference@),
{
    match reqwest::Url::parse(base) {
        Ok(base) => match base.join(reference) {
            Ok(url) => Ok(String::from(url)),
            Err(error) => Err(error.to_string()),
        },
        Err(error) => Err(error.to_string()),
    }
}

/// A base that nothing can be called at.
#[derive(Debug, PartialEq, Eq)]
pub struct InvalidBaseUrl {
    pub message: String,
    /// What is wrong with it.
    pub cause: String,
}

/// The URL of a coordinator, or of whoever else is called like one.
pub fn coordinator_base(base_url: &str) -> (r: Result<String, InvalidBaseUrl>)
    ensures
        match r {
            Ok(url) => parsed_url(base_url@) == Ok::<Seq<char>, Seq<char>>(url@),
            Err(error) => {
                &&& parsed_url(base_url@) == Err::<Seq<char>, Seq<char>>(error.cause@)
                &&& error.message@ == "invalid coordinator base url: "@ + base_url@
            },
        },
{
    match url_parse(base_url) {
        Ok(url) => Ok(url),
        Err(cause) => Err(
            InvalidBaseUrl { message: joined("invalid coordinator base url: ", base_url), cause },
        ),
    }
}

/// What is called for a path on a base: nothing where the base spells no URL.
pub open spec fn called_url(base_url: Seq<char>, path: Seq<char>) -> Result<Seq<char>, Seq<char>> {
    match parsed_url(base_url) {
        Ok(_) => joined_url(base_url, path),
        Err(cause) => Err(cause),
    }
}

/// The URL of a call, or why there is none.
pub fn call_url(base_url: &str, path: &str) -> (r: Result<String, String>)
    ensures
        text_result(r) == called_url(base_url@, path@),
{
    match url_parse(base_url) {
        Ok(_) => url_join(base_url, path),
        Err(cause) => Err(cause),
    }
}

/// What a search is dispatched with.
#[derive(Debug, PartialEq, Eq)]
pub enum DispatchPayload {
    /// A keyword search goes by its query alone.
    Keyword { protocol: Protocol, query: Option<String> },
    /// Any other goes by the file.
    File { protocol: Protocol, kind: SearchKind, file_hash: Option<HashType>, file_size: Option<u64> },
}

/// What a search is dispatched with.
pub fn dispatch_payload(job: &SearchJob) -> (r: DispatchPayload)
    ensures
        r == match job.kind {
            SearchKind::Keyword => DispatchPayload::Keyword {
                protocol: job.protocol,
                query: job.query,
            },
            _ => DispatchPayload::File {
                protocol: job.protocol,
                kind: job.kind,
                file_hash: job.file_hash,
                file_size: job.file_size,
            },
        },
{
    let by_query: bool = match job.kind {
        SearchKind::Keyword => true,
        SearchKind::Source => false,
        SearchKind::Notes => false,
    };
    if by_query {
        return DispatchPayload::Keyword { protocol: job.protocol, query: clone_text(&job.query) };
    }
    DispatchPayload::File {
        protocol: job.protocol,
        kind: job.kind,
        file_hash: match &job.file_hash {
            Some(hash) => Some(hash.clone()),
            None => None,
        },
        file_size: job.file_size,
    }
}

/// What the agent can be asked over HTTP.
#[derive(Debug, Clone, Copy, PartialEq, Eq, Structural)]
pub enum ControlRoute {
    Health,
    Stats,
    Interfaces,
    Search,
    CancelSearch,
    Enrich,
    SeedPopular,
    ConfigUpdate,
}

impl ControlRoute {
    /// Whether the route hands something out; the others take something in.
    pub open spec fn reads(self) -> bool {
        self is Health || self is Stats || self is Interfaces
    }

    /// Whether an agent may leave the route out.
    pub open spec fn optional(self) -> bool {
        self is Interfaces || self is Enrich || self is SeedPopular
    }

    pub fn path(self) -> (r: &'static str)
        ensures
            r@ == match self {
                ControlRoute::Health => "/api/internal/health"@,
                ControlRoute::Stats => "/api/internal/stats"@,
                ControlRoute::Interfaces => "/api/internal/interfaces"@,
                ControlRoute::Search => "/api/internal/search"@,
                ControlRoute::CancelSearch => "/api/internal/search/cancel"@,
                ControlRoute::Enrich => "/api/internal/enrich"@,
                ControlRoute::SeedPopular => "/api/internal/seed-popular"@,
                ControlRoute::ConfigUpdate => "/api/internal/config-update"@,
            },
    {
        match self {
            ControlRoute::Health => "/api/internal/health",
            ControlRoute::Stats => "/api/internal/stats",
            ControlRoute::Interfaces => "/api/internal/interfaces",
            ControlRoute::Search => "/api/internal/search",
            ControlRoute::CancelSearch => "/api/internal/search/cancel",
            ControlRoute::Enrich => "/api/internal/enrich",
            ControlRoute::SeedPopular => "/api/internal/seed-popular",
            ControlRoute::ConfigUpdate => "/api/internal/config-update",
        }
    }

    /// The status of an answer: what is handed out is OK, what is taken in is accepted, and a
    /// failure is an internal error, or says that the agent leaves the route out.
    pub fn status(self, succeeded: bool) -> (r: u16)
        ensures
            r == if succeeded {
                if self.reads() {
                    200u16
                } else {
                    202
                }
            } else if self.optional() {
                501
            } else {
                500
            },
    {
        if succeeded {
            match self {
                ControlRoute::Health => 200,
                ControlRoute::Stats => 200,
                ControlRoute::Interfaces => 200,
                _ => 202,
            }
        } else {
            match self {
                ControlRoute::Interfaces => 501,
                ControlRoute::Enrich => 501,
                ControlRoute::SeedPopular => 501,
                _ => 500,
            }
        }
    }
}

/// What belongs to an agent is found under its identifier.
pub proof fn law_agent_paths(indexer_id: Uuid, id: String, restore: String, interfaces: String)
    requires
        call_ensures(Uuid::to_text, (indexer_id,), id),
        call_ensures(snoop_restore_path, (indexer_id,), restore),
        call_ensures(agent_interfaces_path, (indexer_id,), interfaces),
    ensures
        restore@ == "/api/internal/snoop-restore/"@ + id@,
        interfaces@ == "/api/agents/"@ + id@ + "/interfaces"@,
{
}

/// Something is called on a base exactly where the base spells a URL and the path can be joined to it;
/// a base that spells none is said, with what is wrong with it.
pub proof fn law_called_urls(
    base: &str,
    path: &str,
    url: Result<String, InvalidBaseUrl>,
    r: Result<String, String>,
)
    requires
        call_ensures(coordinator_base, (base,), url),
        call_ensures(call_url, (base, path), r),
    ensures
        url matches Ok(parsed) ==> parsed_url(base@) == Ok::<Seq<char>, Seq<char>>(parsed@),
        url matches Err(error) ==> {
            &&& error.message@ == "invalid coordinator base url: "@ + base@
            &&& (r matches Err(cause) && cause@ == error.cause@)
        },
        url is Ok ==> (r is Ok <==> joined_url(base@, path@) is Ok),
        url is Ok ==> (r matches Ok(called) ==> joined_url(base@, path@) == Ok::<Seq<char>, Seq<char>>(called@)),
{
}

/// A keyword search is dispatched by its query alone, any other by its file alone, and each over its
/// own network.
pub proof fn law_dispatch(job: &SearchJob, r: DispatchPayload)
    requires
        call_ensures(dispatch_payload, (job,), r),
    ensures
        job.kind is Keyword <==> r is Keyword,
        r matches DispatchPayload::Keyword { protocol, query } ==> protocol == job.protocol && query == job.query,
        r matches DispatchPayload::File { protocol, kind, file_hash, file_size } ==> {
            &&& protocol == job.protocol
            &&& kind == job.kind
            &&& file_hash == job.file_hash
            &&& file_size == job.file_size
        },
{
}

/// A route that hands something out answers OK, one that takes something in that it is accepted; a
/// failure is an internal error, or says that an agent leaves the route out.
pub proof fn law_route_status(route: ControlRoute, ok: u16, failed: u16)
    requires
        call_ensures(ControlRoute::status, (route, true), ok),
        call_ensures(ControlRoute::status, (route, false), failed),
    ensures
        route is Health || route is Stats || route is Interfaces ==> ok == 200,
        route is Search || route is CancelSearch || route is Enrich || route is SeedPopular || route is ConfigUpdate
            ==> ok == 202,
        route is Interfaces || route is Enrich || route is SeedPopular ==> failed == 501,
        route is Health || route is Stats || route is Search || route is CancelSearch || route is ConfigUpdate
            ==> failed == 500,
{
}

/// Each route has a path of its own.
pub proof fn law_route_paths(route: ControlRoute, path: &'static str)
    requires
        call_ensures(ControlRoute::path, (route,), path),
    ensures
        route is Health ==> path@ == "/api/internal/health"@,
        route is Stats ==> path@ == "/api/internal/stats"@,
        route is Interfaces ==> path@ == "/api/internal/interfaces"@,
        route is Search ==> path@ == "/api/internal/search"@,
        route is CancelSearch ==> path@ == "/api/internal/search/cancel"@,
        route is Enrich ==> path@ == "/api/internal/enrich"@,
        route is SeedPopular ==> path@ == "/api/internal/seed-popular"@,
        route is ConfigUpdate ==> path@ == "/api/internal/config-update"@,
{
}

} // verus!
