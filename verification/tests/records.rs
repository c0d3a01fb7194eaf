use time::OffsetDateTime;
use tracing_sqlite::{Attributes, Level, LogEntry, Row, StorageError};

fn attributes(pairs: &[(&str, &str)]) -> Attributes {
    let mut attributes = Attributes::new();
    for (k, v) in pairs {
        attributes.insert(k.to_string(), v.to_string());
    }
    attributes
}

fn sorted(attributes: &Attributes) -> Vec<(String, String)> {
    let mut entries = attributes.as_slice().to_vec();
    entries.sort();
    entries
}

fn owned(pairs: &[(&str, &str)]) -> Vec<(String, String)> {
    pairs.iter().map(|(k, v)| (k.to_string(), v.to_string())).collect()
}

fn entry(structured: Attributes) -> LogEntry {
    LogEntry {
        time: OffsetDateTime::UNIX_EPOCH,
        level: Level::Warn,
        module: Some("svc::net".to_string()),
        file: Some("src/net.rs".to_string()),
        line: Some(17),
        message: "lost".to_string(),
        structured,
    }
}

fn row(level: &str, structured: &str) -> Row {
    Row {
        time: OffsetDateTime::UNIX_EPOCH,
        level: level.to_string(),
        module: None,
        file: Some("src/a.rs".to_string()),
        line: None,
        message: "m".to_string(),
        structured: structured.to_string(),
    }
}

fn json_error() -> serde_json::Error {
    serde_json::from_str::<u8>("x").unwrap_err()
}

#[test]
fn attributes_encode_as_a_json_object() {
    let text = attributes(&[("user_id", "42"), ("retry", "true")]).to_json().unwrap();
    assert_eq!(text, "{\"retry\":\"true\",\"user_id\":\"42\"}");
}

#[test]
fn no_attributes_encode_as_the_empty_object() {
    assert_eq!(Attributes::new().to_json().unwrap(), "{}");
}

#[test]
fn encoding_escapes_what_json_requires() {
    let text = attributes(&[("quote\"d", "line\nbreak\\")]).to_json().unwrap();
    assert_eq!(text, "{\"quote\\\"d\":\"line\\nbreak\\\\\"}");
}

#[test]
fn encoding_ignores_insertion_order() {
    let one = attributes(&[("a", "1"), ("b", "2"), ("c", "3")]);
    let other = attributes(&[("c", "3"), ("a", "0"), ("b", "2"), ("a", "1")]);
    assert_eq!(one.to_json().unwrap(), other.to_json().unwrap());
}

#[test]
fn attributes_decode_from_a_json_object() {
    let decoded = Attributes::from_json("{\"user_id\": \"42\", \"retry\": \"true\"}").unwrap();
    assert_eq!(sorted(&decoded), owned(&[("retry", "true"), ("user_id", "42")]));
}

#[test]
fn decoding_rejects_what_is_no_object_of_strings() {
    assert!(Attributes::from_json("").is_err());
    assert!(Attributes::from_json("[]").is_err());
    assert!(Attributes::from_json("\"text\"").is_err());
    assert!(Attributes::from_json("{\"a\": 1}").is_err());
    assert!(Attributes::from_json("{\"a\": \"1\"").is_err());
    assert!(Attributes::from_json("{\"a\": \"1\"} x").is_err());
    assert!(Attributes::from_json("{\"a\": null}").is_err());
}

#[test]
fn decoding_keeps_each_name_once() {
    let decoded = Attributes::from_json("{\"a\": \"1\", \"a\": \"2\"}").unwrap();
    assert_eq!(decoded.len(), 1);
    assert_eq!(decoded.get("a").map(|v| v.as_str()), Some("2"));
}

#[test]
fn attributes_survive_encoding_and_decoding() {
    let pairs = [("user_id", "42"), ("retry", "true"), ("名前", "größe \"x\"\t\u{1}"), ("", "")];
    let text = attributes(&pairs).to_json().unwrap();
    let decoded = Attributes::from_json(&text).unwrap();
    let mut expected = owned(&pairs);
    expected.sort();
    assert_eq!(sorted(&decoded), expected);
}

#[test]
fn row_holds_the_fields_of_the_entry() {
    let row = entry(attributes(&[("user_id", "42"), ("retry", "true")])).into_row().unwrap();
    assert_eq!(row.time, OffsetDateTime::UNIX_EPOCH);
    assert_eq!(row.level, "WARN");
    assert_eq!(row.module.as_deref(), Some("svc::net"));
    assert_eq!(row.file.as_deref(), Some("src/net.rs"));
    assert_eq!(row.line, Some(17));
    assert_eq!(row.message, "lost");
    assert_eq!(row.structured, "{\"retry\":\"true\",\"user_id\":\"42\"}");
}

#[test]
fn row_takes_the_encoded_text_as_given() {
    let row = entry(Attributes::new()).into_row_with(Ok("{\"k\":\"v\"}".to_string())).unwrap();
    assert_eq!(row.level, "WARN");
    assert_eq!(row.message, "lost");
    assert_eq!(row.structured, "{\"k\":\"v\"}");
}

#[test]
fn failed_encoding_is_reported() {
    let row = entry(Attributes::new()).into_row_with(Err(json_error()));
    assert_eq!(row.unwrap_err(), StorageError::Encode);
}

#[test]
fn entry_is_read_from_a_row() {
    let entry = LogEntry::from_row(row("ERROR", "{\"user_id\":\"42\",\"retry\":\"true\"}")).unwrap();
    assert_eq!(entry.time, OffsetDateTime::UNIX_EPOCH);
    assert_eq!(entry.level, Level::Error);
    assert_eq!(entry.module, None);
    assert_eq!(entry.file.as_deref(), Some("src/a.rs"));
    assert_eq!(entry.line, None);
    assert_eq!(entry.message, "m");
    assert_eq!(sorted(&entry.structured), owned(&[("retry", "true"), ("user_id", "42")]));
}

#[test]
fn malformed_level_is_reported() {
    let read = LogEntry::from_row(row("LOUD", "{}"));
    assert_eq!(read.unwrap_err(), StorageError::MalformedLevel);
}

#[test]
fn malformed_attributes_are_reported() {
    let read = LogEntry::from_row(row("INFO", "{\"a\": 1}"));
    assert_eq!(read.unwrap_err(), StorageError::MalformedAttributes);
    let read = LogEntry::from_row(row("INFO", "not json"));
    assert_eq!(read.unwrap_err(), StorageError::MalformedAttributes);
}

#[test]
fn malformed_level_is_reported_before_malformed_attributes() {
    let read = LogEntry::from_row(row("", "not json"));
    assert_eq!(read.unwrap_err(), StorageError::MalformedLevel);
}

#[test]
fn from_row_with_goes_by_what_it_is_given() {
    let read = LogEntry::from_row_with(row("ignored", "ignored"), None, Ok(Attributes::new()));
    assert_eq!(read.unwrap_err(), StorageError::MalformedLevel);
    let read = LogEntry::from_row_with(row("ignored", "ignored"), None, Err(json_error()));
    assert_eq!(read.unwrap_err(), StorageError::MalformedLevel);
    let read = LogEntry::from_row_with(row("ignored", "ignored"), Some(Level::Info), Err(json_error()));
    assert_eq!(read.unwrap_err(), StorageError::MalformedAttributes);
    let read = LogEntry::from_row_with(
        row("ignored", "ignored"),
        Some(Level::Debug),
        Ok(attributes(&[("k", "v")])),
    )
    .unwrap();
    assert_eq!(read.level, Level::Debug);
    assert_eq!(read.message, "m");
    assert_eq!(sorted(&read.structured), owned(&[("k", "v")]));
}

#[test]
fn entry_survives_the_way_through_a_row() {
    for level in [Level::Trace, Level::Debug, Level::Info, Level::Warn, Level::Error] {
        let mut before = entry(attributes(&[("user_id", "42"), ("retry", "true")]));
        before.level = level;
        let after = LogEntry::from_row(before.into_row().unwrap()).unwrap();
        assert_eq!(after.time, OffsetDateTime::UNIX_EPOCH);
        assert_eq!(after.level, level);
        assert_eq!(after.module.as_deref(), Some("svc::net"));
        assert_eq!(after.file.as_deref(), Some("src/net.rs"));
        assert_eq!(after.line, Some(17));
        assert_eq!(after.message, "lost");
        assert_eq!(sorted(&after.structured), owned(&[("retry", "true"), ("user_id", "42")]));
    }
}

#[test]
fn rows_are_read_in_order() {
    let rows = vec![row("ERROR", "{\"n\":\"1\"}"), row("debug", "{}"), row("3", "{\"n\":\"3\"}")];
    let entries = LogEntry::from_rows(rows).unwrap();
    assert_eq!(entries.len(), 3);
    assert_eq!(entries[0].level, Level::Error);
    assert_eq!(sorted(&entries[0].structured), owned(&[("n", "1")]));
    assert_eq!(entries[1].level, Level::Debug);
    assert!(entries[1].structured.is_empty());
    assert_eq!(entries[2].level, Level::Info);
    assert_eq!(sorted(&entries[2].structured), owned(&[("n", "3")]));
}

#[test]
fn no_rows_read_as_no_records() {
    assert_eq!(LogEntry::from_rows(Vec::new()).unwrap().len(), 0);
}

#[test]
fn the_first_malformed_row_decides_the_error() {
    let rows = vec![row("INFO", "{}"), row("INFO", "[]"), row("LOUD", "{}")];
    assert_eq!(LogEntry::from_rows(rows).unwrap_err(), StorageError::MalformedAttributes);
    let rows = vec![row("INFO", "{}"), row("LOUD", "{}"), row("INFO", "[]")];
    assert_eq!(LogEntry::from_rows(rows).unwrap_err(), StorageError::MalformedLevel);
}

#[test]
fn equal_attributes_are_recognised_whatever_the_order() {
    let one = attributes(&[("a", "1"), ("b", "2"), ("c", "3")]);
    assert!(one.same_as(&attributes(&[("c", "3"), ("a", "1"), ("b", "2")])));
    assert!(one.same_as(&one));
    assert!(Attributes::new().same_as(&Attributes::new()));
    assert!(!one.same_as(&attributes(&[("a", "1"), ("b", "2")])));
    assert!(!one.same_as(&attributes(&[("a", "1"), ("b", "2"), ("c", "4")])));
    assert!(!one.same_as(&attributes(&[("a", "1"), ("b", "2"), ("d", "3")])));
    assert!(!one.same_as(&attributes(&[("a", "1"), ("b", "2"), ("c", "3"), ("d", "4")])));
    assert!(!one.same_as(&Attributes::new()));
    assert!(!Attributes::new().same_as(&one));
}

#[test]
fn a_text_reads_back_only_as_the_attributes_it_holds() {
    let one = attributes(&[("user_id", "42"), ("retry", "true")]);
    assert!(one.reads_back_from("{\"retry\":\"true\",\"user_id\":\"42\"}"));
    assert!(one.reads_back_from(" { \"user_id\" : \"42\", \"retry\" : \"true\" } "));
    assert!(!one.reads_back_from("{\"retry\":\"true\"}"));
    assert!(!one.reads_back_from("{\"retry\":\"false\",\"user_id\":\"42\"}"));
    assert!(!one.reads_back_from("{\"retry\":\"true\",\"user_id\":42}"));
    assert!(!one.reads_back_from("not json"));
    assert!(Attributes::new().reads_back_from("{}"));
    assert!(!Attributes::new().reads_back_from("[]"));
}

#[test]
fn encoded_attributes_read_back() {
    let pairs = [("user_id", "42"), ("名前", "größe \"x\"\t\u{1}\u{7f}\\"), ("", ""), ("\n", "\r")];
    let one = attributes(&pairs);
    assert!(one.reads_back_from(&one.to_json().unwrap()));
}

#[test]
fn checked_row_is_the_row_of_the_entry() {
    let row = entry(attributes(&[("user_id", "42"), ("retry", "true")])).into_checked_row().unwrap();
    assert_eq!(row.time, OffsetDateTime::UNIX_EPOCH);
    assert_eq!(row.level, "WARN");
    assert_eq!(row.module.as_deref(), Some("svc::net"));
    assert_eq!(row.file.as_deref(), Some("src/net.rs"));
    assert_eq!(row.line, Some(17));
    assert_eq!(row.message, "lost");
    assert_eq!(row.structured, "{\"retry\":\"true\",\"user_id\":\"42\"}");
}

#[test]
fn checked_row_reads_back_as_the_entry() {
    let pairs = [("quote\"d", "line\nbreak\\"), ("名前", "値"), ("", "")];
    let row = entry(attributes(&pairs)).into_checked_row().unwrap();
    let read = LogEntry::from_row(row).unwrap();
    assert_eq!(read.level, Level::Warn);
    assert_eq!(read.message, "lost");
    assert!(read.structured.same_as(&attributes(&pairs)));
}
