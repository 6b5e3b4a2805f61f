//! Firmware metadata: what a metadata response has to say before a session
//! can start.

use vstd::prelude::*;
use crate::bounded::{
    byte_len, new_title, new_version, push_title, push_version, title_str, title_text,
    version_str, version_text, TITLE_CAPACITY, VERSION_CAPACITY,
};
use crate::json::{json_as_str, json_as_u64, json_get, json_model, parse_json, parsed_json, JsonModel};

verus! {

/// Identity and size of a firmware image.
pub struct Metadata {
    title: heapless::String<32>,
    version: heapless::String<16>,
    size: u64,
}

/// A [`Metadata`] as a mathematical value.
pub ghost struct MetadataView {
    pub title: Seq<char>,
    pub version: Seq<char>,
    pub size: nat,
}

impl MetadataView {
    /// The identity fits its fixed-capacity fields and the size is one that
    /// a message can carry.
    pub open spec fn valid(self) -> bool {
        &&& byte_len(self.title) <= 32
        &&& byte_len(self.version) <= 16
        &&& self.size <= u64::MAX
    }
}

/// The title of a response that names none.
pub open spec fn default_title() -> Seq<char> {
    "ota"@
}

/// The version of a response that names none.
pub open spec fn default_version() -> Seq<char> {
    "1.0"@
}

/// The metadata made of the three attributes of a response: the size is
/// required, title and version have defaults, and the identity has to fit.
pub open spec fn metadata_from(
    title: Option<Seq<char>>,
    version: Option<Seq<char>>,
    size: Option<u64>,
) -> Option<MetadataView> {
    let title = if title is Some { title.unwrap() } else { default_title() };
    let version = if version is Some { version.unwrap() } else { default_version() };
    if size is Some && byte_len(title) <= 32 && byte_len(version) <= 16 {
        Some(MetadataView { title, version, size: size.unwrap() as nat })
    } else {
        None
    }
}

/// The text of the member `key` of `object`, if there is one and it is a string.
pub open spec fn text_member(object: JsonModel, key: Seq<char>) -> Option<Seq<char>> {
    match object.member(key) {
        Some(v) => v.text(),
        None => None,
    }
}

/// The value of the member `key` of `object`, if there is one and it is a
/// non-negative integer below 2^64.
pub open spec fn unsigned_member(object: JsonModel, key: Seq<char>) -> Option<u64> {
    match object.member(key) {
        Some(v) => v.unsigned(),
        None => None,
    }
}

/// The metadata in a response document: the attributes `fw_title`,
/// `fw_version` and `fw_size` of its member `shared`.
pub open spec fn metadata_in(doc: JsonModel) -> Option<MetadataView> {
    match doc.member("shared"@) {
        Some(shared) => metadata_from(
            text_member(shared, "fw_title"@),
            text_member(shared, "fw_version"@),
            unsigned_member(shared, "fw_size"@),
        ),
        None => None,
    }
}

/// The metadata in the text of a response.
pub open spec fn metadata_of(payload: Seq<char>) -> Option<MetadataView> {
    match parsed_json(payload) {
        Some(doc) => metadata_in(doc),
        None => None,
    }
}

/// The views of an optional metadata.
pub open spec fn view_of(m: Option<Metadata>) -> Option<MetadataView> {
    match m {
        Some(m) => Some(m@),
        None => None,
    }
}

impl View for Metadata {
    type V = MetadataView;

    closed spec fn view(&self) -> MetadataView {
        MetadataView {
            title: title_text(self.title),
            version: version_text(self.version),
            size: self.size as nat,
        }
    }
}

impl Metadata {
    /// Metadata with the given identity and size; `None` if the title takes
    /// more than 32 bytes or the version more than 16.
    pub fn new(title: &str, version: &str, size: u64) -> (r: Option<Metadata>)
        ensures
            view_of(r) == metadata_from(Some(title@), Some(version@), Some(size)),
            r matches Some(m) ==> m@.valid(),
    {
        let mut t = new_title();
        let mut v = new_version();
        match push_title(&mut t, title) {
            Err(_) => None,
            Ok(_) => match push_version(&mut v, version) {
                Err(_) => None,
                Ok(_) => Some(Metadata { title: t, version: v, size }),
            },
        }
    }

    /// Metadata from the attributes of a response, each of which may be
    /// missing: without a size there is none, a missing title is `"ota"`, a
    /// missing version `"1.0"`.
    pub fn from_fields(title: Option<&str>, version: Option<&str>, size: Option<u64>) -> (r: Option<Metadata>)
        ensures
            view_of(r) == metadata_from(
                match title { Some(t) => Some(t@), None => None },
                match version { Some(v) => Some(v@), None => None },
                size,
            ),
            r matches Some(m) ==> m@.valid(),
    {
        let title: &str = match title {
            Some(t) => t,
            None => "ota",
        };
        let version: &str = match version {
            Some(v) => v,
            None => "1.0",
        };
        match size {
            Some(size) => Metadata::new(title, version, size),
            None => None,
        }
    }

    /// The identity fits its fields.  This holds of every metadata that
    /// [`Metadata::new`] returns.
    pub fn is_valid(&self) -> (r: bool)
        ensures
            r == self@.valid(),
    {
        title_str(&self.title).as_bytes().len() <= TITLE_CAPACITY && version_str(
            &self.version,
        ).as_bytes().len() <= VERSION_CAPACITY
    }

    /// The firmware title.
    pub fn title(&self) -> (r: &str)
        ensures
            r@ == self@.title,
    {
        title_str(&self.title)
    }

    /// The firmware version.
    pub fn version(&self) -> (r: &str)
        ensures
            r@ == self@.version,
    {
        version_str(&self.version)
    }

    /// The size of the image in bytes.
    pub fn size(&self) -> (r: u64)
        ensures
            r == self@.size,
    {
        self.size
    }
}

/// Reads the metadata out of a parsed response.
pub fn read_metadata(doc: &serde_json::Value) -> (r: Option<Metadata>)
    ensures
        view_of(r) == metadata_in(json_model(*doc)),
        r matches Some(m) ==> m@.valid(),
{
    match json_get(doc, "shared") {
        None => None,
        Some(shared) => {
            let title: Option<&str> = match json_get(shared, "fw_title") {
                Some(v) => json_as_str(v),
                None => None,
            };
            let version: Option<&str> = match json_get(shared, "fw_version") {
                Some(v) => json_as_str(v),
                None => None,
            };
            let size: Option<u64> = match json_get(shared, "fw_size") {
                Some(v) => json_as_u64(v),
                None => None,
            };
            Metadata::from_fields(title, version, size)
        },
    }
}

/// Parses a metadata response.  The result is `None` for a payload that is
/// no JSON document, that has no member `shared`, whose `shared` has no
/// usable `fw_size`, or whose identity does not fit.
pub fn parse_metadata(payload: &str) -> (r: Option<Metadata>)
    ensures
        view_of(r) == metadata_of(payload@),
        r matches Some(m) ==> m@.valid(),
{
    match parse_json(payload) {
        Ok(doc) => read_metadata(&doc),
        Err(_) => None,
    }
}

} // verus!
