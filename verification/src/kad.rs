//! The parts of the Kad wire protocol that the agent builds and reads.

use vstd::prelude::*;
use vstd::string::*;
use crate::ids;
use crate::ids::{Ed2kHash, Ipv4Addr, NodeId};

verus! {

broadcast use vstd::string::group_string_axioms;

/// Bucket size of the routing table, and the default number of contacts in a reply.
pub const K: usize = 10;

/// The Kad protocol version that the agent announces.
pub const KAD_VERSION: u8 = 9;

pub const TAG_FILENAME: u8 = 0x01;

pub const TAG_FILESIZE: u8 = 0x02;

pub const TAG_FILETYPE: u8 = 0x03;

pub const TAG_DESCRIPTION: u8 = 0x0B;

pub const TAG_SOURCES: u8 = 0x15;

pub const TAG_KADMISCOPTIONS: u8 = 0xF2;

pub const TAG_ENCRYPTION: u8 = 0xF3;

pub const TAG_FILERATING: u8 = 0xF7;

pub const TAG_SOURCEUPORT: u8 = 0xFC;

pub const TAG_SOURCEPORT: u8 = 0xFD;

pub const TAG_SOURCEIP: u8 = 0xFE;

pub const TAG_SOURCETYPE: u8 = 0xFF;

#[derive(Debug, PartialEq, Eq)]
pub enum TagName {
    Short(u8),
    Long(String),
}

/// What a [`TagName`] stands for.
pub enum TagNameView {
    Short(u8),
    Long(Seq<char>),
}

impl View for TagName {
    type V = TagNameView;

    open spec fn view(&self) -> TagNameView {
        match self {
            TagName::Short(name) => TagNameView::Short(*name),
            TagName::Long(name) => TagNameView::Long(name@),
        }
    }
}

/// A tag's value. A floating-point value is carried as its single-precision bits.
#[derive(Debug, PartialEq, Eq)]
pub enum TagValue {
    Hash(Ed2kHash),
    String(String),
    UInt(u64),
    U64(u64),
    U32(u32),
    U16(u16),
    U8(u8),
    FloatBits(u32),
    Bool(bool),
    Blob(Vec<u8>),
    SmallBlob(Vec<u8>),
}

/// What a [`TagValue`] stands for.
pub enum TagValueView {
    Hash(Ed2kHash),
    String(Seq<char>),
    UInt(u64),
    U64(u64),
    U32(u32),
    U16(u16),
    U8(u8),
    FloatBits(u32),
    Bool(bool),
    Blob(Seq<u8>),
    SmallBlob(Seq<u8>),
}

impl View for TagValue {
    type V = TagValueView;

    open spec fn view(&self) -> TagValueView {
        match self {
            TagValue::Hash(value) => TagValueView::Hash(*value),
            TagValue::String(value) => TagValueView::String(value@),
            TagValue::UInt(value) => TagValueView::UInt(*value),
            TagValue::U64(value) => TagValueView::U64(*value),
            TagValue::U32(value) => TagValueView::U32(*value),
            TagValue::U16(value) => TagValueView::U16(*value),
            TagValue::U8(value) => TagValueView::U8(*value),
            TagValue::FloatBits(value) => TagValueView::FloatBits(*value),
            TagValue::Bool(value) => TagValueView::Bool(*value),
            TagValue::Blob(value) => TagValueView::Blob(value@),
            TagValue::SmallBlob(value) => TagValueView::SmallBlob(value@),
        }
    }
}

#[derive(Debug, PartialEq, Eq)]
pub struct Tag {
    pub name: TagName,
    pub value: TagValue,
}

/// What a [`Tag`] stands for.
pub struct TagView {
    pub name: TagNameView,
    pub value: TagValueView,
}

impl View for Tag {
    type V = TagView;

    open spec fn view(&self) -> TagView {
        TagView { name: self.name@, value: self.value@ }
    }
}

/// The tag with a one-byte name.
pub open spec fn short_tag(name: u8, value: TagValueView) -> TagView {
    TagView { name: TagNameView::Short(name), value }
}

/// What a list of tags stands for.
pub open spec fn tag_views(tags: Seq<Tag>) -> Seq<TagView> {
    Seq::new(tags.len(), |i: int| tags[i]@)
}

impl Tag {
    pub fn new_short(name: u8, value: TagValue) -> (r: Tag)
        ensures
            r@ == short_tag(name, value@),
    {
        Tag { name: TagName::Short(name), value }
    }

    pub fn filename(name: &str) -> (r: Tag)
        ensures
            r@ == short_tag(TAG_FILENAME, TagValueView::String(name@)),
    {
        Tag::new_short(TAG_FILENAME, TagValue::String(name.to_owned()))
    }

    pub fn filesize(size: u64) -> (r: Tag)
        ensures
            r@ == short_tag(TAG_FILESIZE, TagValueView::UInt(size)),
    {
        Tag::new_short(TAG_FILESIZE, TagValue::UInt(size))
    }

    pub fn sources(count: u32) -> (r: Tag)
        ensures
            r@ == short_tag(TAG_SOURCES, TagValueView::UInt(count as u64)),
    {
        Tag::new_short(TAG_SOURCES, TagValue::UInt(count as u64))
    }

    pub fn filetype(term: &str) -> (r: Tag)
        ensures
            r@ == short_tag(TAG_FILETYPE, TagValueView::String(term@)),
    {
        Tag::new_short(TAG_FILETYPE, TagValue::String(term.to_owned()))
    }
}

#[derive(Debug, PartialEq, Eq)]
pub struct SearchKeyReq {
    pub target: NodeId,
    pub start_position: u16,
    pub restrictive_payload: Vec<u8>,
}

#[derive(Debug, Clone, Copy, PartialEq, Eq)]
pub struct SearchSourceReq {
    pub target: NodeId,
    pub start_position: u16,
    pub size: u64,
}

#[derive(Debug, Clone, Copy, PartialEq, Eq)]
pub struct SearchNotesReq {
    pub target: NodeId,
    pub size: u64,
}

impl SearchNotesReq {
    /// The file that the notes are about.
    pub fn file_hash(&self) -> (r: Ed2kHash)
        ensures
            r.0@ == ids::chunk_order(self.target.0@),
    {
        Ed2kHash::from_bytes(self.target.to_be_bytes())
    }
}

/// One keyword search result.
#[derive(Debug, PartialEq, Eq)]
pub struct SearchResult {
    pub hash: Ed2kHash,
    pub names: Vec<String>,
    pub size: Option<u64>,
    pub source_count: Option<u32>,
    pub tags: Vec<Tag>,
}

/// One source search result.
#[derive(Debug, Clone, Copy, PartialEq, Eq)]
pub struct SourceResult {
    pub file_hash: Ed2kHash,
    pub source_id: Ed2kHash,
    pub ip: Ipv4Addr,
    pub tcp_port: u16,
    pub udp_port: u16,
    pub obfuscation_options: Option<u8>,
}

/// One notes search result.
#[derive(Debug, PartialEq, Eq)]
pub struct NoteResult {
    pub file_hash: Ed2kHash,
    pub source_id: Ed2kHash,
    pub rating: Option<u8>,
    pub comment: Option<String>,
}

#[derive(Debug, Clone, Copy, PartialEq, Eq, Structural)]
pub enum ContactType {
    Active,
    Fresh,
    Stale,
    Dead,
}

/// A routing-table contact.
#[derive(Debug, Clone, Copy, PartialEq, Eq)]
pub struct Contact {
    pub id: NodeId,
    pub ip: Ipv4Addr,
    pub udp_port: u16,
    pub tcp_port: u16,
    pub kad_version: u8,
    pub contact_type: ContactType,
    pub verified: bool,
    pub tcp_firewalled: bool,
    pub udp_firewalled: bool,
    /// The peer's UDP key; zero where none is known.
    pub udp_key: u32,
}

/// A contact as it is listed in a reply.
#[derive(Debug, Clone, Copy, PartialEq, Eq)]
pub struct ContactEntry {
    pub node_id: NodeId,
    pub ip: u32,
    pub udp_port: u16,
    pub tcp_port: u16,
    pub version: u8,
}

/// Whether exactly one of the tags has that one-byte name, and it has that value.
pub open spec fn sole_tag(tags: Seq<Tag>, name: u8, value: TagValueView) -> bool {
    exists|i: int|
        0 <= i < tags.len() && (#[trigger] tags[i]).name == TagName::Short(name) && tags[i].value@ == value && forall|
            j: int,
        | 0 <= j < tags.len() && (#[trigger] tags[j]).name == TagName::Short(name) ==> j == i
}

/// Whether none of the tags has that one-byte name.
pub open spec fn no_tag(tags: Seq<Tag>, name: u8) -> bool {
    forall|i: int| 0 <= i < tags.len() ==> (#[trigger] tags[i]).name != TagName::Short(name)
}

pub(crate) proof fn lemma_sole_tag(tags: Seq<Tag>, i: int, name: u8, value: TagValueView)
    requires
        0 <= i < tags.len(),
        tag_views(tags)[i] == short_tag(name, value),
        forall|j: int|
            0 <= j < tags.len() && (#[trigger] tag_views(tags)[j]).name == TagNameView::Short(name) ==> j == i,
    ensures
        sole_tag(tags, name, value),
{
    let views = tag_views(tags);
    assert(tags[i]@ == views[i]);
    assert forall|j: int| 0 <= j < tags.len() && (#[trigger] tags[j]).name == TagName::Short(name) implies j == i by {
        assert(tags[j]@ == views[j]);
    }
}

pub(crate) proof fn lemma_no_tag(tags: Seq<Tag>, name: u8)
    requires
        forall|j: int|
            0 <= j < tags.len() ==> (#[trigger] tag_views(tags)[j]).name != TagNameView::Short(name),
    ensures
        no_tag(tags, name),
{
    assert forall|j: int| 0 <= j < tags.len() implies (#[trigger] tags[j]).name != TagName::Short(name) by {
        assert(tags[j]@ == tag_views(tags)[j]);
    }
}

/// The numbers by which eMule knows the tags; no two tags share one.
pub proof fn law_tag_numbers()
    ensures
        TAG_FILENAME == 0x01 && TAG_FILESIZE == 0x02 && TAG_FILETYPE == 0x03 && TAG_DESCRIPTION == 0x0B,
        TAG_SOURCES == 0x15 && TAG_KADMISCOPTIONS == 0xF2 && TAG_ENCRYPTION == 0xF3,
        TAG_FILERATING == 0xF7 && TAG_SOURCEUPORT == 0xFC && TAG_SOURCEPORT == 0xFD,
        TAG_SOURCEIP == 0xFE && TAG_SOURCETYPE == 0xFF,
{
}

/// A tag carries the name and the value that it is made with.
pub proof fn law_tags_carry_their_values(name: &str, size: u64, count: u32, made: (Tag, Tag, Tag, Tag))
    requires
        call_ensures(Tag::filename, (name,), made.0),
        call_ensures(Tag::filesize, (size,), made.1),
        call_ensures(Tag::sources, (count,), made.2),
        call_ensures(Tag::filetype, (name,), made.3),
    ensures
        made.0.name == TagName::Short(0x01),
        made.0.value matches TagValue::String(text) && text@ == name@,
        made.1.name == TagName::Short(0x02) && made.1.value == TagValue::UInt(size),
        made.2.name == TagName::Short(0x15) && made.2.value == TagValue::UInt(count as u64),
        made.3.name == TagName::Short(0x03),
        made.3.value matches TagValue::String(text) && text@ == name@,
{
}

/// Notes are asked for under the target that their file is published under.
pub proof fn law_notes_request_names_its_file(request: SearchNotesReq, r: Ed2kHash, target: NodeId)
    requires
        call_ensures(SearchNotesReq::file_hash, (&request,), r),
        call_ensures(NodeId::from_be_bytes, (r.0,), target),
    ensures
        target == request.target,
{
    ids::law_chunk_order_involution(request.target.0@);
    assert(target.0@ =~= request.target.0@);
    assert(target.0 =~= request.target.0);
}

} // verus!
