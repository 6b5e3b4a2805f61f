//! The protocol on the wire: topics, payload texts, and what an incoming
//! topic means.

use vstd::prelude::*;
use vstd::std_specs::iter::IteratorSpec;
use vstd::string::StringExecFns;
use vstd::utf8::{decode_utf8, valid_utf8};
use crate::protocol::{Outgoing, ReportLabel};

verus! {

/// The topic on which the firmware attributes are asked for.
pub const METADATA_REQUEST_TOPIC: &'static str = "v1/devices/me/attributes/request/1";

/// The topic on which the firmware attributes arrive.  The program
/// subscribes to it once the channel is connected.
pub const METADATA_RESPONSE_TOPIC: &'static str = "v1/devices/me/attributes/response/1";

/// The topic of state reports.
pub const TELEMETRY_TOPIC: &'static str = "v1/devices/me/telemetry";

/// What the topic of every chunk response starts with.
pub const CHUNK_RESPONSE_PREFIX: &'static str = "v2/fw/response/";

/// The topic filter that covers all chunk responses.  The program
/// subscribes to it once the channel is connected.
pub const CHUNK_RESPONSE_FILTER: &'static str = "v2/fw/response/+/chunk/+";

/// The topic on which the firmware attributes are asked for.
pub open spec fn metadata_request_topic() -> Seq<char> {
    METADATA_REQUEST_TOPIC@
}

/// The topic on which the firmware attributes arrive.
pub open spec fn metadata_response_topic() -> Seq<char> {
    METADATA_RESPONSE_TOPIC@
}

/// The topic of state reports.
pub open spec fn telemetry_topic() -> Seq<char> {
    TELEMETRY_TOPIC@
}

/// What the topic of every chunk response starts with.
pub open spec fn chunk_response_prefix() -> Seq<char> {
    CHUNK_RESPONSE_PREFIX@
}

/// The payload of the request for the firmware attributes.
pub open spec fn metadata_request_text() -> Seq<char> {
    "{\"sharedKeys\":\"fw_title,fw_version,fw_size,fw_checksum,fw_checksum_algorithm\"}"@
}

/// The character of a decimal digit.
pub open spec fn digit(d: nat) -> char {
    if d == 0 {
        '0'
    } else if d == 1 {
        '1'
    } else if d == 2 {
        '2'
    } else if d == 3 {
        '3'
    } else if d == 4 {
        '4'
    } else if d == 5 {
        '5'
    } else if d == 6 {
        '6'
    } else if d == 7 {
        '7'
    } else if d == 8 {
        '8'
    } else {
        '9'
    }
}

/// A number in decimal, without sign or leading zeros.
pub open spec fn decimal(n: nat) -> Seq<char>
    decreases n,
{
    if n < 10 {
        seq![digit(n)]
    } else {
        decimal(n / 10).push(digit(n % 10))
    }
}

/// The value of `fw_state` for a label.
pub open spec fn label_text(label: ReportLabel) -> Seq<char> {
    match label {
        ReportLabel::Downloading => "DOWNLOADING"@,
        ReportLabel::Updating => "UPDATING"@,
        ReportLabel::Updated => "UPDATED"@,
        ReportLabel::Failed => "FAILED"@,
    }
}

/// The topic on which chunk `index` is asked for under `request_id`.
pub open spec fn chunk_request_topic(request_id: nat, index: nat) -> Seq<char> {
    "v2/fw/request/"@ + decimal(request_id) + "/chunk/"@ + decimal(index)
}

/// The payload of a state report: a JSON object whose one member,
/// `fw_state`, is the label.
pub open spec fn report_text(label: ReportLabel) -> Seq<char> {
    "{\"fw_state\":\""@ + label_text(label) + "\"}"@
}

/// The topic that a message is published on.
pub open spec fn topic_text(message: Outgoing) -> Seq<char> {
    match message {
        Outgoing::MetadataRequest => metadata_request_topic(),
        Outgoing::ChunkRequest { request_id, index, size } => chunk_request_topic(
            request_id as nat,
            index as nat,
        ),
        Outgoing::StateReport(_) => telemetry_topic(),
    }
}

/// The payload that a message is published with.  For a chunk request it is
/// the number of bytes asked for, in decimal.
pub open spec fn payload_text(message: Outgoing) -> Seq<char> {
    match message {
        Outgoing::MetadataRequest => metadata_request_text(),
        Outgoing::ChunkRequest { request_id, index, size } => decimal(size as nat),
        Outgoing::StateReport(label) => report_text(label),
    }
}

/// The text of one decimal digit.
fn digit_str(d: u64) -> (r: &'static str)
    requires
        d < 10,
    ensures
        r@ == seq![digit(d as nat)],
{
    proof {
        reveal_strlit("0");
        reveal_strlit("1");
        reveal_strlit("2");
        reveal_strlit("3");
        reveal_strlit("4");
        reveal_strlit("5");
        reveal_strlit("6");
        reveal_strlit("7");
        reveal_strlit("8");
        reveal_strlit("9");
    }
    if d == 0 {
        "0"
    } else if d == 1 {
        "1"
    } else if d == 2 {
        "2"
    } else if d == 3 {
        "3"
    } else if d == 4 {
        "4"
    } else if d == 5 {
        "5"
    } else if d == 6 {
        "6"
    } else if d == 7 {
        "7"
    } else if d == 8 {
        "8"
    } else {
        "9"
    }
}

/// Appends `n` in decimal.
pub fn push_decimal(text: &mut String, n: u64)
    ensures
        final(text)@ == old(text)@ + decimal(n as nat),
    decreases n,
{
    if n >= 10 {
        push_decimal(text, n / 10);
    }
    text.append(digit_str(n % 10));
}

/// The value of `fw_state` for a label.
pub fn label_str(label: ReportLabel) -> (r: &'static str)
    ensures
        r@ == label_text(label),
{
    match label {
        ReportLabel::Downloading => "DOWNLOADING",
        ReportLabel::Updating => "UPDATING",
        ReportLabel::Updated => "UPDATED",
        ReportLabel::Failed => "FAILED",
    }
}

impl Outgoing {
    /// The topic to publish the message on.
    pub fn topic(&self) -> (r: String)
        ensures
            r@ == topic_text(*self),
    {
        match self {
            Outgoing::MetadataRequest => METADATA_REQUEST_TOPIC.to_owned(),
            Outgoing::ChunkRequest { request_id, index, size } => {
                let mut text: String = "v2/fw/request/".to_owned();
                push_decimal(&mut text, *request_id as u64);
                text.append("/chunk/");
                push_decimal(&mut text, *index);
                text
            },
            Outgoing::StateReport(_) => TELEMETRY_TOPIC.to_owned(),
        }
    }

    /// The payload to publish the message with.
    pub fn payload(&self) -> (r: String)
        ensures
            r@ == payload_text(*self),
    {
        match self {
            Outgoing::MetadataRequest => {
                "{\"sharedKeys\":\"fw_title,fw_version,fw_size,fw_checksum,fw_checksum_algorithm\"}".to_owned()
            },
            Outgoing::ChunkRequest { request_id, index, size } => {
                let mut text: String = String::new();
                push_decimal(&mut text, *size);
                text
            },
            Outgoing::StateReport(label) => {
                let mut text: String = "{\"fw_state\":\"".to_owned();
                text.append(label_str(*label));
                text.append("\"}");
                text
            },
        }
    }
}

/// What an incoming message is, going by its topic.
#[derive(Clone, Copy, Debug, PartialEq, Eq, Structural)]
pub enum MessageKind {
    MetadataResponse,
    ChunkResponse,
    /// Nothing that the driver handles.
    Other,
}

/// The kind of a message that arrives on `topic`: a metadata response on the
/// metadata-response topic, a chunk response on any topic under the
/// chunk-response prefix.
pub open spec fn kind_of(topic: Seq<char>) -> MessageKind {
    if topic == metadata_response_topic() {
        MessageKind::MetadataResponse
    } else if chunk_response_prefix().is_prefix_of(topic) {
        MessageKind::ChunkResponse
    } else {
        MessageKind::Other
    }
}

/// The text of a payload: what its bytes say in UTF-8, and the empty text
/// where they are not UTF-8.
pub open spec fn text_of(data: Seq<u8>) -> Seq<char> {
    if valid_utf8(data) {
        decode_utf8(data)
    } else {
        Seq::empty()
    }
}

/// How a text compares with a pattern.
enum Match {
    /// The text is the pattern.
    Whole,
    /// The text starts with the pattern and goes on.
    Start,
    /// The text does not start with the pattern.
    No,
}

/// Compares `text` with `pattern`, character by character.
fn compare(text: &str, pattern: &str) -> (r: Match)
    ensures
        r is Whole <==> text@ == pattern@,
        !(r is No) <==> pattern@.is_prefix_of(text@),
{
    broadcast use vstd::string::group_string_axioms;

    let mut rest = text.chars();
    let mut wanted = pattern.chars();
    let ghost mut seen: int = 0;
    loop
        invariant
            0 <= seen <= text@.len(),
            seen <= pattern@.len(),
            rest.remaining() == text@.skip(seen),
            wanted.remaining() == pattern@.skip(seen),
            text@.take(seen) == pattern@.take(seen),
        decreases pattern@.len() - seen,
    {
        match wanted.next() {
            None => {
                assert(pattern@.take(seen) =~= pattern@);
                let more = rest.next();
                proof {
                    if more is None {
                        assert(text@.take(seen) =~= text@);
                    }
                }
                return if more.is_none() {
                    Match::Whole
                } else {
                    Match::Start
                };
            },
            Some(w) => {
                match rest.next() {
                    None => {
                        return Match::No;
                    },
                    Some(c) => {
                        if c != w {
                            return Match::No;
                        }
                        proof {
                            seen = seen + 1;
                        }
                    },
                }
            },
        }
    }
}

/// Says what a message is, going by its topic.
pub fn classify_topic(topic: &str) -> (k: MessageKind)
    ensures
        k == kind_of(topic@),
{
    match compare(topic, METADATA_RESPONSE_TOPIC) {
        Match::Whole => MessageKind::MetadataResponse,
        _ => match compare(topic, CHUNK_RESPONSE_PREFIX) {
            Match::No => MessageKind::Other,
            _ => MessageKind::ChunkResponse,
        },
    }
}

/// `core::str::from_utf8`: the text that the bytes encode, and `None` where
/// they are not valid UTF-8.
#[verifier::external_body]
pub(crate) fn utf8_text(data: &[u8]) -> (r: Option<&str>)
    ensures
        match r {
            Some(t) => valid_utf8(data@) && t@ == decode_utf8(data@),
            None => !valid_utf8(data@),
        },
{
    core::str::from_utf8(data).ok()
}

/// The text of a payload.
pub fn payload_str(data: &[u8]) -> (r: &str)
    ensures
        r@ == text_of(data@),
{
    match utf8_text(data) {
        Some(t) => t,
        None => {
            proof {
                reveal_strlit("");
            }
            ""
        },
    }
}

} // verus!
