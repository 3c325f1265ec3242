//! Requests to fetch a file over eD2k, and to take in a local one.

use vstd::prelude::*;
use vstd::string::*;
use crate::ed2k::Ed2kFoundSource;
use crate::ids::{vec_to_bytes16, Ed2kHash, Ipv4Addr};
use crate::text;
use crate::text::{hex_decode, joined, same_ignoring_ascii_case, trim_text};

verus! {

broadcast use vstd::string::group_string_axioms;

/// Why a request cannot be used.
#[derive(Debug, PartialEq, Eq)]
pub enum EnrichError {
    InvalidUserHash { value: String },
    UserHashLength,
    MissingCanonicalName,
}

impl EnrichError {
    /// The text of the error.
    pub open spec fn text(self) -> Seq<char> {
        match self {
            EnrichError::InvalidUserHash { value } => "invalid source user hash "@ + value@,
            EnrichError::UserHashLength => "source user hash must be 16 bytes"@,
            EnrichError::MissingCanonicalName => "local ingest payload requires canonicalName"@,
        }
    }

    pub fn message(&self) -> (r: String)
        ensures
            r@ == self.text(),
    {
        match self {
            EnrichError::InvalidUserHash { value } => joined(
                "invalid source user hash ",
                value.as_str(),
            ),
            EnrichError::UserHashLength => "source user hash must be 16 bytes".to_owned(),
            EnrichError::MissingCanonicalName => "local ingest payload requires canonicalName".to_owned(),
        }
    }
}

/// A peer that a request names.
#[derive(Debug, PartialEq, Eq)]
pub struct EnrichEd2kDownloadSource {
    pub ip: Ipv4Addr,
    pub tcp_port: u16,
    pub client_id: Option<u32>,
    pub low_id: Option<bool>,
    pub obfuscation_options: Option<u8>,
    /// In hexadecimal.
    pub user_hash: Option<String>,
}

/// Whether the user hash of a requested source can be used: there is none, or it spells sixteen
/// bytes.
pub open spec fn user_hash_usable(source: EnrichEd2kDownloadSource) -> bool {
    match source.user_hash {
        Some(value) => text::is_hex_text(value@) && value@.len() == 32,
        None => true,
    }
}

/// Whether `r` is the source that a request describes, for a user hash that can be used.
pub open spec fn describes(source: EnrichEd2kDownloadSource, file_hash: Ed2kHash, r: Ed2kFoundSource) -> bool {
    &&& r == (Ed2kFoundSource {
        file_hash,
        ip: source.ip,
        tcp_port: source.tcp_port,
        client_id: match source.client_id {
            Some(id) => id,
            None => source.ip.bits() as u32,
        },
        low_id: source.low_id == Some(true),
        obfuscated: source.obfuscation_options is Some,
        obfuscation_options: source.obfuscation_options,
        user_hash: r.user_hash,
        source_server: None,
    })
    &&& match source.user_hash {
        Some(value) => r.user_hash matches Some(hash) && hash@ == text::hex_bytes(value@),
        None => r.user_hash is None,
    }
}

impl EnrichEd2kDownloadSource {
    /// The source that a request describes. A client ID that is not given is the address, and a
    /// peer is taken for one that can be reached unless the request says otherwise.
    pub fn into_found_source(self, file_hash: Ed2kHash) -> (r: Result<Ed2kFoundSource, EnrichError>)
        ensures
            match r {
                Ok(found) => user_hash_usable(self) && describes(self, file_hash, found),
                Err(EnrichError::InvalidUserHash { value }) => self.user_hash == Some(value)
                    && !text::is_hex_text(value@),
                Err(EnrichError::UserHashLength) => self.user_hash matches Some(value)
                    && text::is_hex_text(value@) && value@.len() != 32,
                Err(EnrichError::MissingCanonicalName) => false,
            },
    {
        let user_hash: Option<[u8; 16]> = match self.user_hash {
            Some(value) => match hex_decode(value.as_str()) {
                Ok(bytes) => match vec_to_bytes16(&bytes) {
                    Some(hash) => Some(hash),
                    None => {
                        return Err(EnrichError::UserHashLength);
                    },
                },
                Err(_) => {
                    return Err(EnrichError::InvalidUserHash { value });
                },
            },
            None => None,
        };
        let client_id: u32 = match self.client_id {
            Some(id) => id,
            None => self.ip.to_bits(),
        };
        let low_id: bool = match self.low_id {
            Some(low_id) => low_id,
            None => false,
        };
        Ok(
            Ed2kFoundSource {
                file_hash,
                ip: self.ip,
                tcp_port: self.tcp_port,
                client_id,
                low_id,
                obfuscated: self.obfuscation_options.is_some(),
                obfuscation_options: self.obfuscation_options,
                user_hash,
                source_server: None,
            },
        )
    }
}

/// A request to fetch a file.
#[derive(Debug, PartialEq, Eq)]
pub struct EnrichEd2kDownloadRequest {
    pub kind: String,
    pub file_hash: String,
    pub file_name: Option<String>,
    pub file_size: Option<u64>,
    pub sources: Vec<EnrichEd2kDownloadSource>,
}

/// The name that stands in for a file's own where only its hash is known.
pub open spec fn placeholder_name(file_hash: Seq<char>) -> Seq<char> {
    "ed2k-"@ + file_hash + ".bin"@
}

/// The trimmed name, where one is left.
pub open spec fn nonempty_trimmed(name: Option<Seq<char>>) -> Option<Seq<char>> {
    match name {
        Some(name) => if text::trimmed(name).len() > 0 {
            Some(text::trimmed(name))
        } else {
            None
        },
        None => None,
    }
}

/// The trimmed name, where one is left.
pub fn nonempty_trimmed_name(name: &Option<String>) -> (r: Option<String>)
    ensures
        crate::types::opt_text(r) == nonempty_trimmed(crate::types::opt_text(*name)),
{
    match name {
        Some(name) => {
            let trimmed: String = trim_text(name.as_str());
            if trimmed.as_str().unicode_len() > 0 {
                Some(trimmed)
            } else {
                None
            }
        },
        None => None,
    }
}

impl EnrichEd2kDownloadRequest {
    /// The name of the requested file, or the one that stands in for it.
    pub open spec fn name(self) -> Seq<char> {
        match nonempty_trimmed(crate::types::opt_text(self.file_name)) {
            Some(name) => name,
            None => placeholder_name(self.file_hash@),
        }
    }

    /// The size of the requested file, zero where it is not known.
    pub open spec fn size(self) -> u64 {
        match self.file_size {
            Some(size) => size,
            None => 0,
        }
    }

    pub fn canonical_name(&self) -> (r: String)
        ensures
            r@ == self.name(),
    {
        match nonempty_trimmed_name(&self.file_name) {
            Some(name) => name,
            None => hash_only_ed2k_placeholder_name(self.file_hash.as_str()),
        }
    }

    pub fn file_size_or_unknown(&self) -> (r: u64)
        ensures
            r == self.size(),
    {
        match self.file_size {
            Some(size) => size,
            None => 0,
        }
    }
}

/// A request to take in a local file.
#[derive(Debug, PartialEq, Eq)]
pub struct IngestLocalFileRequest {
    pub source_path: String,
    pub canonical_name: Option<String>,
}

impl IngestLocalFileRequest {
    /// The name under which the file is taken in. It has to be given.
    pub fn canonical_name(&self) -> (r: Result<String, EnrichError>)
        ensures
            match r {
                Ok(name) => nonempty_trimmed(crate::types::opt_text(self.canonical_name)) == Some(name@),
                Err(error) => error is MissingCanonicalName && nonempty_trimmed(
                    crate::types::opt_text(self.canonical_name),
                ) is None,
            },
    {
        match nonempty_trimmed_name(&self.canonical_name) {
            Some(name) => Ok(name),
            None => Err(EnrichError::MissingCanonicalName),
        }
    }
}

pub fn hash_only_ed2k_placeholder_name(file_hash: &str) -> (r: String)
    ensures
        r@ == placeholder_name(file_hash@),
{
    let mut r: String = joined("ed2k-", file_hash);
    r.append(".bin");
    r
}

/// Whether a name is the one that stands in for that hash, the case of ASCII letters aside.
pub fn is_hash_only_ed2k_placeholder_name(name: &str, file_hash: &str) -> (r: bool)
    ensures
        r == (text::ascii_lower(name@) == text::ascii_lower(placeholder_name(file_hash@))),
{
    let placeholder: String = hash_only_ed2k_placeholder_name(file_hash);
    same_ignoring_ascii_case(name, placeholder.as_str())
}

/// A request without a usable name is recognised as one: the name that stands in is always taken
/// for a stand-in.
pub proof fn law_stand_in_recognised(request: EnrichEd2kDownloadRequest)
    ensures
        nonempty_trimmed(crate::types::opt_text(request.file_name)) is None ==> text::ascii_lower(request.name())
            == text::ascii_lower(placeholder_name(request.file_hash@)),
{
}

/// What is wrong with a request is said in words of its own.
pub proof fn law_enrich_messages(error: &EnrichError, r: String)
    requires
        call_ensures(EnrichError::message, (error,), r),
    ensures
        *error matches EnrichError::InvalidUserHash { value } ==> r@ == "invalid source user hash "@ + value@,
        *error is UserHashLength ==> r@ == "source user hash must be 16 bytes"@,
        *error is MissingCanonicalName ==> r@ == "local ingest payload requires canonicalName"@,
{
}

/// A requested peer is taken as it is described, for the requested file: at its address and port,
/// with its client ID, or its address in place of one, reachable unless said otherwise, obfuscated
/// exactly where it has options, and named by no server. A user hash that is not 32 hexadecimal
/// digits is refused, with what is wrong with it.
pub proof fn law_requested_source(
    source: EnrichEd2kDownloadSource,
    file_hash: Ed2kHash,
    r: Result<Ed2kFoundSource, EnrichError>,
)
    requires
        call_ensures(EnrichEd2kDownloadSource::into_found_source, (source, file_hash), r),
    ensures
        source.user_hash is None ==> r is Ok,
        source.user_hash matches Some(value) ==> {
            &&& r is Ok <==> value@.len() == 32 && forall|i: int|
                0 <= i < 32 ==> text::is_hex_char(#[trigger] value@[i])
            &&& r matches Err(error) ==> !(error is MissingCanonicalName)
            &&& r matches Err(EnrichError::InvalidUserHash { value: said }) ==> said == value
            &&& r matches Err(EnrichError::UserHashLength) ==> value@.len() != 32
        },
        r matches Ok(found) ==> {
            &&& found.file_hash == file_hash
            &&& found.ip == source.ip
            &&& found.tcp_port == source.tcp_port
            &&& source.client_id matches Some(id) ==> found.client_id == id
            &&& source.client_id is None ==> found.client_id == source.ip.a * 16_777_216 + source.ip.b * 65_536
                + source.ip.c * 256 + source.ip.d
            &&& found.low_id <==> source.low_id == Some(true)
            &&& found.obfuscated <==> source.obfuscation_options is Some
            &&& found.obfuscation_options == source.obfuscation_options
            &&& found.user_hash is Some <==> source.user_hash is Some
            &&& found.user_hash matches Some(hash) ==> (source.user_hash matches Some(value)
                && text::hex_bytes(value@) == hash@)
            &&& found.source_server is None
        },
{
}

/// A name that is left after trimming is the file's name; where none is left, another stands in for
/// it that holds the hash, and that is recognised as such in whatever case it is written.
pub proof fn law_requested_name(
    request: &EnrichEd2kDownloadRequest,
    hash: &str,
    name: String,
    size: u64,
    stand_in: String,
)
    requires
        hash@ == request.file_hash@,
        call_ensures(EnrichEd2kDownloadRequest::canonical_name, (request,), name),
        call_ensures(EnrichEd2kDownloadRequest::file_size_or_unknown, (request,), size),
        call_ensures(hash_only_ed2k_placeholder_name, (hash,), stand_in),
    ensures
        stand_in@ == "ed2k-"@ + request.file_hash@ + ".bin"@,
        request.file_name is None ==> name@ == stand_in@,
        request.file_name matches Some(given) ==> {
            &&& text::trimmed(given@).len() > 0 ==> name@ == text::trimmed(given@)
            &&& text::trimmed(given@).len() == 0 ==> name@ == stand_in@
        },
        request.file_size matches Some(given) ==> size == given,
        request.file_size is None ==> size == 0,
{
}

/// A name stands in for a hash exactly where it is the stand-in, the case of ASCII letters aside.
pub proof fn law_stand_in(name: &str, hash: &str, r: bool)
    requires
        call_ensures(is_hash_only_ed2k_placeholder_name, (name, hash), r),
    ensures
        r <==> text::ascii_lower(name@) == text::ascii_lower("ed2k-"@ + hash@ + ".bin"@),
        name@ == "ed2k-"@ + hash@ + ".bin"@ ==> r,
{
}

/// A local file is taken in under the trimmed name that was given, and refused without one.
pub proof fn law_local_name(request: &IngestLocalFileRequest, r: Result<String, EnrichError>, trimmed: Option<String>)
    requires
        call_ensures(IngestLocalFileRequest::canonical_name, (request,), r),
        call_ensures(nonempty_trimmed_name, (&request.canonical_name,), trimmed),
    ensures
        r is Ok <==> trimmed is Some,
        request.canonical_name is None ==> trimmed is None,
        request.canonical_name matches Some(given) ==> (trimmed is Some <==> text::trimmed(given@).len() > 0),
        request.canonical_name matches Some(given) ==> (r matches Ok(name) ==> name@ == text::trimmed(given@)),
        r matches Err(error) ==> error is MissingCanonicalName,
        trimmed matches Some(name) ==> (request.canonical_name matches Some(given) && name@ == text::trimmed(
            given@,
        )),
{
}

} // verus!
