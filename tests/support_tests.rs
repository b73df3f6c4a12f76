use dmarc_ingest::archive::{input_kind, traverse_zip, unpack, ArchiveError, InputKind};
use dmarc_ingest::config::{parse_port, Database};
use dmarc_ingest::normalize::{epoch_to_utc, UTC_MAX_SECS, UTC_MIN_SECS};
use dmarc_ingest::persist::{run_continues, FailureKind, WriteProgress, WriteStep};
use dmarc_ingest::text::{parse_signed, parse_unsigned, same_text};
use std::io::Write;

fn gzip(data: &[u8]) -> Vec<u8> {
    let mut e = flate2::write::GzEncoder::new(Vec::new(), flate2::Compression::default());
    e.write_all(data).unwrap();
    e.finish().unwrap()
}

#[test]
fn epoch_seconds_render_in_utc() {
    assert_eq!(epoch_to_utc(0).unwrap(), "1970-01-01T00:00:00Z");
    assert_eq!(epoch_to_utc(1609459200).unwrap(), "2021-01-01T00:00:00Z");
    assert_eq!(epoch_to_utc(-1).unwrap(), "1969-12-31T23:59:59Z");
    assert_eq!(epoch_to_utc(8_000_000_000_000).is_some(), true);
    assert_eq!(epoch_to_utc(i64::MAX), None);
}

#[test]
fn inputs_are_routed_by_suffix() {
    assert_eq!(input_kind("report.xml"), InputKind::PlainXml);
    assert_eq!(input_kind("report.xml.gz"), InputKind::GzipXml);
    assert_eq!(input_kind("bundle.zip"), InputKind::Zip);
    assert_eq!(input_kind("notes.txt"), InputKind::Ignored);
    assert_eq!(input_kind("report.gz"), InputKind::Ignored);
    assert_eq!(input_kind(""), InputKind::Ignored);
}

#[test]
fn gzip_payloads_are_decoded() {
    let z = gzip(b"<feedback/>");
    assert_eq!(unpack(&z, true).unwrap(), b"<feedback/>".to_vec());
    assert_eq!(unpack(&z, false).unwrap(), z);
    assert_eq!(unpack(&b"not gzip".to_vec(), true), Err(ArchiveError::Gzip));
}

#[test]
fn zip_entries_are_visited_in_order_despite_a_corrupt_one() {
    let mut w = zip::ZipWriter::new(std::io::Cursor::new(Vec::new()));
    let opts = zip::write::SimpleFileOptions::default();
    w.start_file("a.xml", opts).unwrap();
    w.write_all(b"<a/>").unwrap();
    w.start_file("b.xml.gz", opts).unwrap();
    w.write_all(&b"garbage".to_vec()).unwrap();
    w.start_file("c.xml.gz", opts).unwrap();
    w.write_all(&gzip(b"<c/>")).unwrap();
    let bytes = w.finish().unwrap().into_inner();
    let entries = traverse_zip(bytes).unwrap();
    assert_eq!(entries.len(), 3);
    for (i, e) in entries.iter().enumerate() {
        assert_eq!(e.index, i);
    }
    assert_eq!(entries[0].label, "a.xml");
    assert_eq!(entries[0].payload, Ok(b"<a/>".to_vec()));
    assert_eq!(entries[1].label, "b.xml.gz");
    assert_eq!(entries[1].payload, Err(ArchiveError::Gzip));
    assert_eq!(entries[2].label, "c.xml.gz");
    assert_eq!(entries[2].payload, Ok(b"<c/>".to_vec()));
}

#[test]
fn unreadable_zip_is_refused() {
    assert_eq!(traverse_zip(b"no archive here".to_vec()), Err(ArchiveError::Unreadable));
}

#[test]
fn ports_parse_like_unsigned_decimals() {
    assert_eq!(parse_port("5432"), Some(5432));
    assert_eq!(parse_port("+80"), Some(80));
    assert_eq!(parse_port("65535"), Some(65535));
    assert_eq!(parse_port("65536"), None);
    assert_eq!(parse_port(""), None);
    assert_eq!(parse_port("pg"), None);
    assert_eq!(parse_port("-1"), None);
}

#[test]
fn socket_hosts_start_with_a_slash() {
    let mut db = Database {
        database: "dmarc".to_string(),
        user: "u".to_string(),
        password: "p".to_string(),
        host: "/var/run/postgresql".to_string(),
        port: None,
    };
    assert!(db.is_unix_socket());
    db.host = "localhost".to_string();
    assert!(!db.is_unix_socket());
}

#[test]
fn decimal_parsing_edges() {
    assert_eq!(parse_unsigned("18446744073709551615", u64::MAX), Some(u64::MAX));
    assert_eq!(parse_unsigned("18446744073709551616", u64::MAX), None);
    assert_eq!(parse_unsigned("+", 10), None);
    assert_eq!(parse_unsigned("007", 10), Some(7));
    assert_eq!(parse_signed("9223372036854775807"), Some(i64::MAX));
    assert_eq!(parse_signed("9223372036854775808"), None);
    assert_eq!(parse_signed("-9223372036854775809"), None);
    assert_eq!(parse_signed("-"), None);
    assert_eq!(parse_signed("-42"), Some(-42));
    assert!(same_text("relaxed", "relaxed"));
    assert!(!same_text("relaxed", "relax"));
}

#[test]
fn header_is_written_before_items() {
    let mut p = WriteProgress::new(2);
    assert_eq!(p.next_step(), WriteStep::Header);
    p.step_done();
    assert_eq!(p.next_step(), WriteStep::Item(0));
    let e = p.failure(&"R1".to_string());
    assert!(e.header_written);
    assert_eq!((e.items_written, e.items_total), (0, 2));
    p.step_done();
    assert_eq!(p.next_step(), WriteStep::Item(1));
    p.step_done();
    assert_eq!(p.next_step(), WriteStep::Commit);
    let mut q = WriteProgress::new(0);
    q.step_done();
    assert_eq!(q.next_step(), WriteStep::Commit);
}

#[test]
fn utc_range_bounds_are_exact() {
    assert!(epoch_to_utc(UTC_MIN_SECS).is_some());
    assert!(epoch_to_utc(UTC_MAX_SECS).is_some());
    assert_eq!(epoch_to_utc(UTC_MIN_SECS - 1), None);
    assert_eq!(epoch_to_utc(UTC_MAX_SECS + 1), None);
    assert_eq!(epoch_to_utc(i64::MIN), None);
    assert_eq!(epoch_to_utc(253402300799).unwrap(), "9999-12-31T23:59:59Z");
    assert_eq!(epoch_to_utc(951782400).unwrap(), "2000-02-29T00:00:00Z");
    assert_eq!(epoch_to_utc(253402300800).unwrap(), "+10000-01-01T00:00:00Z");
    assert_eq!(epoch_to_utc(-62135596800).unwrap(), "0001-01-01T00:00:00Z");
    assert_eq!(epoch_to_utc(-62167219200).unwrap(), "0000-01-01T00:00:00Z");
    assert_eq!(epoch_to_utc(-62167219201).unwrap(), "-0001-12-31T23:59:59Z");
    assert_eq!(epoch_to_utc(UTC_MIN_SECS).unwrap(), "-262143-01-01T00:00:00Z");
    assert_eq!(epoch_to_utc(UTC_MAX_SECS).unwrap(), "+262142-12-31T23:59:59Z");
}

#[test]
fn only_storage_failures_end_the_run() {
    assert!(run_continues(FailureKind::Archive, false));
    assert!(run_continues(FailureKind::Parse, false));
    assert!(!run_continues(FailureKind::Storage, false));
    assert!(run_continues(FailureKind::Storage, true));
}
