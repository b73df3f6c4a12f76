use dmarc_ingest::decode::decode;
use dmarc_ingest::model::{
    Field, ParseError, RawAuthResult, RawDateRange, RawDkim, RawFeedback, RawIdentifier,
    RawPolicyEvaluated, RawPolicyPublished, RawReason, RawRecord, RawReportMetadata, RawRow,
    RawSpf,
};
use dmarc_ingest::normalize::normalize_record;
use dmarc_ingest::pipeline::process_report;
use dmarc_ingest::vocab::{
    DKIMResultType, DMARCResultType, DispositionType, PolicyOverrideType, SPFDomainScope,
    SPFResultType,
};

fn s(t: &str) -> Option<String> {
    Some(t.to_string())
}

fn record(disposition: &str, dkim: Vec<RawDkim>, spf: Vec<RawSpf>) -> RawRecord {
    RawRecord {
        row: Some(RawRow {
            source_ip: s("192.0.2.1"),
            count: s("3"),
            policy_evaluated: Some(RawPolicyEvaluated {
                disposition: s(disposition),
                dkim: s("fail"),
                spf: s("pass"),
                reason: None,
            }),
        }),
        identifiers: Some(RawIdentifier {
            envelope_to: None,
            envelope_from: None,
            header_from: s("example.com"),
        }),
        auth_results: Some(RawAuthResult { dkim, spf: Some(spf) }),
    }
}

fn spf_entry(domain: &str, result: &str) -> RawSpf {
    RawSpf { domain: s(domain), scope: None, result: s(result), selector: None }
}

fn report(pct: &str, records: Vec<RawRecord>) -> RawFeedback {
    RawFeedback {
        report_metadata: Some(RawReportMetadata {
            org_name: s("acme"),
            email: s("dmarc@acme.test"),
            extra_contact_info: None,
            report_id: s("R1"),
            date_range: Some(RawDateRange { begin: s("0"), end: s("1609459200") }),
        }),
        policy_published: Some(RawPolicyPublished {
            domain: s("example.com"),
            adkim: None,
            aspf: None,
            p: s("none"),
            sp: None,
            pct: s(pct),
            fo: None,
        }),
        record: records,
    }
}

#[test]
fn pct_is_kept_exactly() {
    for (text, value) in [("0", 0u32), ("1", 1), ("50", 50), ("100", 100), ("+7", 7)] {
        let f = decode(&report(text, vec![])).unwrap();
        assert_eq!(f.policy_published.pct, value);
        let n = process_report(&report(text, vec![])).unwrap();
        assert_eq!(n.header.policy_pct, value as i64);
    }
}

#[test]
fn pct_out_of_range_is_refused() {
    for text in ["101", "-1", "abc", "", "1000000000000000000000"] {
        assert_eq!(
            decode(&report(text, vec![])),
            Err(ParseError::InvalidRange(Field::Pct))
        );
    }
}

#[test]
fn optional_fields_take_defaults() {
    let raw = report("100", vec![record("none", vec![], vec![spf_entry("example.com", "pass")])]);
    let f = decode(&raw).unwrap();
    assert_eq!(f.report_metadata.extra_contact_info, "");
    assert_eq!(f.policy_published.adkim, "");
    assert_eq!(f.policy_published.aspf, "");
    assert_eq!(f.policy_published.sp, "");
    assert_eq!(f.policy_published.fo, "");
    let r = &f.record[0];
    assert_eq!(r.identifiers.envelope_to, "");
    assert_eq!(r.identifiers.envelope_from, "");
    assert_eq!(r.row.policy_evaluated.reason, None);
    assert_eq!(r.auth_results.spf[0].scope, None);
    assert_eq!(r.auth_results.spf[0].selector, "");
    assert!(r.auth_results.dkim.is_empty());
}

#[test]
fn optional_dkim_fields_take_defaults() {
    let dkim = RawDkim { domain: s("d.test"), selector: None, result: s("pass"), human_result: None };
    let f = decode(&report("100", vec![record("none", vec![dkim], vec![])])).unwrap();
    let d = &f.record[0].auth_results.dkim[0];
    assert_eq!(d.selector, "");
    assert_eq!(d.human_result, "");
    assert_eq!(d.result, DKIMResultType::Pass);
}

#[test]
fn unknown_disposition_is_refused() {
    let raw = report("100", vec![record("block", vec![], vec![])]);
    assert_eq!(
        decode(&raw),
        Err(ParseError::InvalidEnum(Field::Disposition, "block".to_string()))
    );
    assert_eq!(
        process_report(&raw),
        Err(ParseError::InvalidEnum(Field::Disposition, "block".to_string()))
    );
}

#[test]
fn unknown_dkim_result_is_refused() {
    let dkim = RawDkim { domain: s("d.test"), selector: None, result: s("good"), human_result: None };
    let raw = report("100", vec![record("none", vec![dkim], vec![])]);
    assert_eq!(
        decode(&raw),
        Err(ParseError::InvalidEnum(Field::DkimResult, "good".to_string()))
    );
}

#[test]
fn unknown_spf_result_is_refused() {
    let raw = report("100", vec![record("none", vec![], vec![spf_entry("e.test", "Pass")])]);
    assert_eq!(
        decode(&raw),
        Err(ParseError::InvalidEnum(Field::SpfResult, "Pass".to_string()))
    );
}

#[test]
fn unknown_scope_and_reason_are_refused() {
    let mut spf = spf_entry("e.test", "pass");
    spf.scope = s("envelope");
    let raw = report("100", vec![record("none", vec![], vec![spf])]);
    assert_eq!(
        decode(&raw),
        Err(ParseError::InvalidEnum(Field::SpfScope, "envelope".to_string()))
    );
    let mut rec = record("none", vec![], vec![]);
    rec.row.as_mut().unwrap().policy_evaluated.as_mut().unwrap().reason =
        Some(RawReason { type_: s("whim"), comment: s("c") });
    assert_eq!(
        decode(&report("100", vec![rec])),
        Err(ParseError::InvalidEnum(Field::ReasonType, "whim".to_string()))
    );
}

#[test]
fn every_vocabulary_member_decodes() {
    for (t, v) in [
        ("none", DispositionType::NoAction),
        ("quarantine", DispositionType::Quarantine),
        ("reject", DispositionType::Reject),
    ] {
        let f = decode(&report("100", vec![record(t, vec![], vec![])])).unwrap();
        assert_eq!(f.record[0].row.policy_evaluated.disposition, v);
        assert_eq!(v.as_str(), t);
    }
    let mut spf = spf_entry("e.test", "softfail");
    spf.scope = s("mfrom");
    let f = decode(&report("100", vec![record("none", vec![], vec![spf])])).unwrap();
    assert_eq!(f.record[0].auth_results.spf[0].scope, Some(SPFDomainScope::MFrom));
    assert_eq!(f.record[0].auth_results.spf[0].result, SPFResultType::SoftFail);
    assert_eq!(f.record[0].row.policy_evaluated.dkim, DMARCResultType::Fail);
    assert_eq!(f.record[0].row.policy_evaluated.spf, DMARCResultType::Pass);
}

#[test]
fn missing_fields_are_named() {
    let mut raw = report("100", vec![]);
    raw.report_metadata.as_mut().unwrap().org_name = None;
    assert_eq!(decode(&raw), Err(ParseError::MissingField(Field::OrgName)));
    let mut raw = report("100", vec![]);
    raw.policy_published.as_mut().unwrap().p = None;
    assert_eq!(decode(&raw), Err(ParseError::MissingField(Field::P)));
    let mut rec = record("none", vec![], vec![]);
    rec.auth_results.as_mut().unwrap().spf = None;
    assert_eq!(decode(&report("100", vec![rec])), Err(ParseError::MissingField(Field::Spf)));
    let mut rec = record("none", vec![], vec![]);
    rec.identifiers = None;
    assert_eq!(
        decode(&report("100", vec![rec])),
        Err(ParseError::MissingField(Field::Identifiers))
    );
}

#[test]
fn bad_timestamps_are_refused() {
    let mut raw = report("100", vec![]);
    raw.report_metadata.as_mut().unwrap().date_range =
        Some(RawDateRange { begin: s("yesterday"), end: s("5") });
    assert_eq!(decode(&raw), Err(ParseError::InvalidTimestamp(Field::Begin)));
    let mut raw = report("100", vec![]);
    raw.report_metadata.as_mut().unwrap().date_range =
        Some(RawDateRange { begin: s("10"), end: s("5") });
    assert_eq!(decode(&raw), Err(ParseError::InvalidTimestamp(Field::End)));
    let mut raw = report("100", vec![]);
    raw.report_metadata.as_mut().unwrap().date_range =
        Some(RawDateRange { begin: s("-9223372036854775808"), end: s("-5") });
    let f = decode(&raw).unwrap();
    assert_eq!(f.report_metadata.date_range.begin, i64::MIN);
    assert_eq!(f.report_metadata.date_range.end, -5);
}

#[test]
fn empty_record_list_decodes() {
    let n = process_report(&report("20", vec![])).unwrap();
    assert!(n.items.is_empty());
    assert_eq!(n.header.report_id, "R1");
}

#[test]
fn empty_dkim_gives_undefined_primary() {
    let raw = report("100", vec![record("none", vec![], vec![])]);
    let f = decode(&raw).unwrap();
    let item = normalize_record(&f.record[0], &"R1".to_string()).unwrap();
    assert_eq!(item.dkim_domain, "*undef*");
    assert_eq!(item.dkim_result, DKIMResultType::NoResult);
    assert_eq!(item.spf_domain, "*undef*");
    assert_eq!(item.spf_result, SPFResultType::NoResult);
}

#[test]
fn first_results_are_primary_and_comment_is_reason() {
    let d1 = RawDkim { domain: s("one.test"), selector: s("s1"), result: s("fail"), human_result: None };
    let d2 = RawDkim { domain: s("two.test"), selector: None, result: s("pass"), human_result: None };
    let mut rec = record("quarantine", vec![d1, d2], vec![spf_entry("a.test", "neutral"), spf_entry("b.test", "pass")]);
    rec.row.as_mut().unwrap().policy_evaluated.as_mut().unwrap().reason =
        Some(RawReason { type_: s("mailing_list"), comment: s("list traffic") });
    let f = decode(&report("100", vec![rec])).unwrap();
    assert_eq!(
        f.record[0].row.policy_evaluated.reason.as_ref().unwrap().type_,
        PolicyOverrideType::MailingList
    );
    let item = normalize_record(&f.record[0], &"R9".to_string()).unwrap();
    assert_eq!(item.report_id, "R9");
    assert_eq!(item.dkim_domain, "one.test");
    assert_eq!(item.dkim_result, DKIMResultType::Fail);
    assert_eq!(item.spf_domain, "a.test");
    assert_eq!(item.spf_result, SPFResultType::Neutral);
    assert_eq!(item.reason, "list traffic");
    assert_eq!(item.disposition, DispositionType::Quarantine);
    assert_eq!(item.count, 3);
}

#[test]
fn count_wider_than_storage_overflows() {
    let mut rec = record("none", vec![], vec![]);
    rec.row.as_mut().unwrap().count = s("9223372036854775808");
    assert_eq!(
        process_report(&report("100", vec![rec])),
        Err(ParseError::Overflow(Field::Count))
    );
    let mut rec = record("none", vec![], vec![]);
    rec.row.as_mut().unwrap().count = s("9223372036854775807");
    let n = process_report(&report("100", vec![rec])).unwrap();
    assert_eq!(n.items[0].count, i64::MAX);
    let mut rec = record("none", vec![], vec![]);
    rec.row.as_mut().unwrap().count = s("4294967295");
    let n = process_report(&report("100", vec![rec])).unwrap();
    assert_eq!(n.items[0].count, 4294967295);
    let mut rec = record("none", vec![], vec![]);
    rec.row.as_mut().unwrap().count = s("many");
    assert_eq!(
        decode(&report("100", vec![rec])),
        Err(ParseError::InvalidRange(Field::Count))
    );
}

#[test]
fn end_to_end_report_rows() {
    let raw = report("100", vec![record("none", vec![], vec![spf_entry("example.com", "pass")])]);
    let n = process_report(&raw).unwrap();
    assert_eq!(n.header.report_id, "R1");
    assert_eq!(n.header.org_name, "acme");
    assert_eq!(n.header.policy_pct, 100);
    assert_eq!(n.header.begin_date, "1970-01-01T00:00:00Z");
    assert_eq!(n.header.end_date, "2021-01-01T00:00:00Z");
    assert_eq!(n.items.len(), 1);
    let item = &n.items[0];
    assert_eq!(item.report_id, "R1");
    assert_eq!(item.dkim_domain, "*undef*");
    assert_eq!(item.dkim_result, DKIMResultType::NoResult);
    assert_eq!(item.dkim_result.as_str(), "none");
    assert_eq!(item.spf_domain, "example.com");
    assert_eq!(item.spf_result, SPFResultType::Pass);
    assert_eq!(item.spf_result.as_str(), "pass");
    assert_eq!(item.reason, "-");
    assert_eq!(item.header_from, "example.com");
    assert_eq!(item.ip, "192.0.2.1");
}

#[test]
fn unrenderable_dates_fail_after_decoding() {
    let mut raw = report("100", vec![]);
    raw.report_metadata.as_mut().unwrap().date_range =
        Some(RawDateRange { begin: s("-9223372036854775808"), end: s("0") });
    assert_eq!(process_report(&raw), Err(ParseError::InvalidTimestamp(Field::Begin)));
    let mut raw = report("100", vec![]);
    raw.report_metadata.as_mut().unwrap().date_range =
        Some(RawDateRange { begin: s("0"), end: s("9223372036854775807") });
    assert_eq!(process_report(&raw), Err(ParseError::InvalidTimestamp(Field::End)));
}
