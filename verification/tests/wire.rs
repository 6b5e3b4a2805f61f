//! Topics and payload texts.

use ota_update::driver::{request_chunk, request_firmware_attributes, send_fw_state};
use ota_update::plan::{next_request_size, plan_write, remaining, writable, WritePlan, ALIGNMENT, CHUNK_SIZE};
use ota_update::protocol::{Action, Outgoing, ReportLabel};
use ota_update::session::UpdateSession;
use ota_update::wire::{classify_topic, label_str, payload_str, push_decimal, MessageKind};

fn published(action: Action) -> Outgoing {
    match action {
        Action::Publish(message) => message,
        _ => panic!("a message was expected"),
    }
}

#[test]
fn metadata_request_on_the_wire() {
    let m = published(request_firmware_attributes());
    assert_eq!(m.topic(), "v1/devices/me/attributes/request/1");
    assert_eq!(
        m.payload(),
        "{\"sharedKeys\":\"fw_title,fw_version,fw_size,fw_checksum,fw_checksum_algorithm\"}"
    );
}

#[test]
fn state_reports_on_the_wire() {
    let m = published(send_fw_state(ReportLabel::Downloading));
    assert_eq!(m.topic(), "v1/devices/me/telemetry");
    assert_eq!(m.payload(), "{\"fw_state\":\"DOWNLOADING\"}");
    assert_eq!(published(send_fw_state(ReportLabel::Updating)).payload(), "{\"fw_state\":\"UPDATING\"}");
    assert_eq!(published(send_fw_state(ReportLabel::Updated)).payload(), "{\"fw_state\":\"UPDATED\"}");
    assert_eq!(published(send_fw_state(ReportLabel::Failed)).payload(), "{\"fw_state\":\"FAILED\"}");
    assert_eq!(published(send_fw_state(ReportLabel::Failed)).topic(), "v1/devices/me/telemetry");
    assert_eq!(label_str(ReportLabel::Updated), "UPDATED");
}

#[test]
fn chunk_request_on_the_wire() {
    let m = Outgoing::ChunkRequest { request_id: 1, index: 0, size: 1024 };
    assert_eq!(m.topic(), "v2/fw/request/1/chunk/0");
    assert_eq!(m.payload(), "1024");
    let m = Outgoing::ChunkRequest { request_id: 42, index: 1307, size: 476 };
    assert_eq!(m.topic(), "v2/fw/request/42/chunk/1307");
    assert_eq!(m.payload(), "476");
    let m = Outgoing::ChunkRequest { request_id: u32::MAX, index: u64::MAX, size: 1 };
    assert_eq!(m.topic(), "v2/fw/request/4294967295/chunk/18446744073709551615");
    assert_eq!(m.payload(), "1");
}

#[test]
fn numbers_in_decimal() {
    for n in [0u64, 1, 9, 10, 11, 99, 100, 101, 1024, 65535, 1234567890, u64::MAX] {
        let mut text = String::from("n=");
        push_decimal(&mut text, n);
        assert_eq!(text, format!("n={}", n));
    }
}

#[test]
fn no_request_without_a_session() {
    let s = UpdateSession::new();
    assert_eq!(request_chunk(&s, 0), None);
    assert_eq!(request_chunk(&s, 5), None);
}

#[test]
fn topics_are_told_apart() {
    assert_eq!(classify_topic("v1/devices/me/attributes/response/1"), MessageKind::MetadataResponse);
    assert_eq!(classify_topic("v1/devices/me/attributes/response/12"), MessageKind::Other);
    assert_eq!(classify_topic("v1/devices/me/attributes/response/"), MessageKind::Other);
    assert_eq!(classify_topic("v1/devices/me/attributes/response/2"), MessageKind::Other);
    assert_eq!(classify_topic("v1/devices/me/attributes/request/1"), MessageKind::Other);
    assert_eq!(classify_topic("v2/fw/response/1/chunk/0"), MessageKind::ChunkResponse);
    assert_eq!(classify_topic("v2/fw/response/9/chunk/41"), MessageKind::ChunkResponse);
    assert_eq!(classify_topic("v2/fw/response/"), MessageKind::ChunkResponse);
    assert_eq!(classify_topic("v2/fw/response"), MessageKind::Other);
    assert_eq!(classify_topic("v2/fw/request/1/chunk/0"), MessageKind::Other);
    assert_eq!(classify_topic("xv2/fw/response/1/chunk/0"), MessageKind::Other);
    assert_eq!(classify_topic("v2/fw/responsé/1"), MessageKind::Other);
    assert_eq!(classify_topic("v2/fw/response/é"), MessageKind::ChunkResponse);
    assert_eq!(classify_topic(""), MessageKind::Other);
    assert_eq!(classify_topic("v1/devices/me/telemetry"), MessageKind::Other);
}

#[test]
fn payload_text_is_utf8_or_empty() {
    assert_eq!(payload_str(b"{\"a\":1}"), "{\"a\":1}");
    assert_eq!(payload_str("héllo ✓".as_bytes()), "héllo ✓");
    assert_eq!(payload_str(&[]), "");
    assert_eq!(payload_str(&[0x61, 0xff]), "");
    assert_eq!(payload_str(&[0xc3]), "");
    assert_eq!(payload_str(&[0xed, 0xa0, 0x80]), "");
}

#[test]
fn remaining_saturates_at_zero() {
    assert_eq!(remaining(2048, 0), 2048);
    assert_eq!(remaining(2048, 2047), 1);
    assert_eq!(remaining(2048, 2048), 0);
    assert_eq!(remaining(10, 11), 0);
    assert_eq!(remaining(0, u64::MAX), 0);
    assert_eq!(remaining(u64::MAX, 0), u64::MAX);
}

#[test]
fn writable_is_the_smaller_of_payload_and_missing() {
    assert_eq!(writable(1024, 476), 476);
    assert_eq!(writable(476, 1024), 476);
    assert_eq!(writable(0, 5), 0);
    assert_eq!(writable(5, 0), 0);
    assert_eq!(writable(7, 7), 7);
    assert_eq!(writable(usize::MAX, 3), 3);
    assert_eq!(writable(3, u64::MAX), 3);
}

#[test]
fn request_size_is_capped() {
    assert_eq!(CHUNK_SIZE, 1024);
    assert_eq!(next_request_size(0), 0);
    assert_eq!(next_request_size(1), 1);
    assert_eq!(next_request_size(476), 476);
    assert_eq!(next_request_size(1023), 1023);
    assert_eq!(next_request_size(1024), 1024);
    assert_eq!(next_request_size(1025), 1024);
    assert_eq!(next_request_size(u64::MAX), 1024);
}

#[test]
fn plans_split_at_the_alignment() {
    assert_eq!(ALIGNMENT, 4);
    let plan = |n: usize| {
        let p = plan_write(n);
        (p.aligned_len, p.tail_len)
    };
    assert_eq!(plan(0), (0, 0));
    assert_eq!(plan(1), (1, 0));
    assert_eq!(plan(2), (2, 0));
    assert_eq!(plan(3), (3, 0));
    assert_eq!(plan(4), (4, 0));
    assert_eq!(plan(5), (4, 1));
    assert_eq!(plan(6), (4, 2));
    assert_eq!(plan(7), (4, 3));
    assert_eq!(plan(8), (8, 0));
    assert_eq!(plan(476), (476, 0));
    assert_eq!(plan(1023), (1020, 3));
    assert_eq!(plan(1024), (1024, 0));
    assert_eq!(plan(usize::MAX), (usize::MAX - 3, 3));
    assert_eq!(plan_write(10), WritePlan { aligned_len: 8, tail_len: 2 });
}
