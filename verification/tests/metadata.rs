//! Reading metadata responses.

use ota_update::metadata::{parse_metadata, read_metadata, Metadata};

#[test]
fn full_response_is_read() {
    let m = parse_metadata(
        "{\"shared\":{\"fw_title\":\"sensor\",\"fw_version\":\"2.4.1\",\"fw_size\":123456,\
         \"fw_checksum\":\"abc\",\"fw_checksum_algorithm\":\"SHA256\"}}",
    )
    .unwrap();
    assert_eq!(m.title(), "sensor");
    assert_eq!(m.version(), "2.4.1");
    assert_eq!(m.size(), 123456);
}

#[test]
fn missing_identity_gets_defaults() {
    let m = parse_metadata("{\"shared\":{\"fw_size\":1}}").unwrap();
    assert_eq!(m.title(), "ota");
    assert_eq!(m.version(), "1.0");
    assert_eq!(m.size(), 1);
}

#[test]
fn identity_that_is_no_string_gets_defaults() {
    let m = parse_metadata("{\"shared\":{\"fw_title\":5,\"fw_version\":null,\"fw_size\":9}}").unwrap();
    assert_eq!(m.title(), "ota");
    assert_eq!(m.version(), "1.0");
}

#[test]
fn empty_identity_is_kept() {
    let m = parse_metadata("{\"shared\":{\"fw_title\":\"\",\"fw_version\":\"\",\"fw_size\":2}}").unwrap();
    assert_eq!(m.title(), "");
    assert_eq!(m.version(), "");
}

#[test]
fn size_is_required() {
    assert!(parse_metadata("{\"shared\":{\"fw_title\":\"a\",\"fw_version\":\"b\"}}").is_none());
    assert!(parse_metadata("{\"fw_size\":10}").is_none());
    assert!(parse_metadata("{\"shared\":[{\"fw_size\":10}]}").is_none());
    assert!(parse_metadata("{\"shared\":\"fw_size\"}").is_none());
}

#[test]
fn size_has_to_be_an_unsigned_integer() {
    assert!(parse_metadata("{\"shared\":{\"fw_size\":-1}}").is_none());
    assert!(parse_metadata("{\"shared\":{\"fw_size\":1.5}}").is_none());
    assert!(parse_metadata("{\"shared\":{\"fw_size\":\"10\"}}").is_none());
    assert!(parse_metadata("{\"shared\":{\"fw_size\":true}}").is_none());
    let m = parse_metadata("{\"shared\":{\"fw_size\":18446744073709551615}}").unwrap();
    assert_eq!(m.size(), u64::MAX);
    assert!(parse_metadata("{\"shared\":{\"fw_size\":18446744073709551616}}").is_none());
}

#[test]
fn text_that_is_no_document_has_no_metadata() {
    assert!(parse_metadata("").is_none());
    assert!(parse_metadata("{\"shared\":{\"fw_size\":1}").is_none());
    assert!(parse_metadata("{\"shared\":{\"fw_size\":1}} trailing").is_none());
}

#[test]
fn metadata_is_read_from_a_parsed_document() {
    let doc: serde_json::Value =
        serde_json::from_str("{\"other\":1,\"shared\":{\"fw_version\":\"3\",\"fw_size\":77}}").unwrap();
    let m = read_metadata(&doc).unwrap();
    assert_eq!(m.title(), "ota");
    assert_eq!(m.version(), "3");
    assert_eq!(m.size(), 77);
    let mut members = serde_json::Map::new();
    members.insert("fw_size".to_string(), serde_json::Value::from(5u64));
    let mut outer = serde_json::Map::new();
    outer.insert("shared".to_string(), serde_json::Value::Object(members));
    let built = read_metadata(&serde_json::Value::Object(outer)).unwrap();
    assert_eq!(built.size(), 5);
    assert!(read_metadata(&serde_json::Value::Null).is_none());
}

#[test]
fn identity_has_to_fit() {
    let title32 = "t".repeat(32);
    let version16 = "v".repeat(16);
    let m = Metadata::new(&title32, &version16, 3).unwrap();
    assert_eq!(m.title(), title32);
    assert_eq!(m.version(), version16);
    assert_eq!(m.size(), 3);
    assert!(Metadata::new(&"t".repeat(33), "1", 3).is_none());
    assert!(Metadata::new("t", &"v".repeat(17), 3).is_none());
    let m = Metadata::new("", "", 0).unwrap();
    assert_eq!(m.title(), "");
    assert_eq!(m.version(), "");
    assert!(m.is_valid());
    assert!(Metadata::new(&title32, &version16, u64::MAX).unwrap().is_valid());
}

#[test]
fn capacity_counts_bytes() {
    // 16 characters of two bytes each fill the title; 17 do not fit.
    let sixteen = "é".repeat(16);
    assert_eq!(sixteen.len(), 32);
    let m = Metadata::new(&sixteen, "1", 3).unwrap();
    assert_eq!(m.title(), sixteen);
    assert!(Metadata::new(&"é".repeat(17), "1", 3).is_none());
    assert!(Metadata::new("a", &"é".repeat(9), 3).is_none());
    assert!(Metadata::new("a", &"é".repeat(8), 3).is_some());
}

#[test]
fn oversized_identity_in_a_response_is_dropped() {
    let long = format!("{{\"shared\":{{\"fw_title\":\"{}\",\"fw_size\":1}}}}", "x".repeat(33));
    assert!(parse_metadata(&long).is_none());
    let fits = format!("{{\"shared\":{{\"fw_title\":\"{}\",\"fw_size\":1}}}}", "x".repeat(32));
    assert!(parse_metadata(&fits).is_some());
}

#[test]
fn fields_are_put_together_with_defaults() {
    assert!(Metadata::from_fields(Some("a"), Some("b"), None).is_none());
    let m = Metadata::from_fields(None, None, Some(4)).unwrap();
    assert_eq!((m.title(), m.version(), m.size()), ("ota", "1.0", 4));
    let m = Metadata::from_fields(Some("x"), None, Some(4)).unwrap();
    assert_eq!((m.title(), m.version(), m.size()), ("x", "1.0", 4));
    let m = Metadata::from_fields(None, Some("y"), Some(4)).unwrap();
    assert_eq!((m.title(), m.version(), m.size()), ("ota", "y", 4));
}
