//! Decoding a report as it arrives into the strict model: required elements,
//! closed vocabularies, numeric ranges and the defaults of optional elements.
//!
//! Elements are checked in document order; the first fault found is the one
//! reported.
use vstd::prelude::*;
use crate::model::{
    AuthResult, DKIMAuthResult, DateRange, Feedback, Field, Identifier, ParseError,
    ParseErrorView, PolicyEvaluated, PolicyOverrideReason, PolicyPublished, RawAuthResult,
    RawDateRange, RawDkim, RawFeedback, RawIdentifier, RawPolicyEvaluated, RawPolicyPublished, RawReason,
    RawRecord, RawReportMetadata, RawRow, RawSpf, Record, ReportMetadata, Row, SPFAuthResult,
};
use crate::text::{parse_signed, parse_unsigned, signed_text, unsigned_text};
use crate::vocab::{
    dkim_result_of, disposition_of, dmarc_result_of, policy_override_of, spf_result_of,
    spf_scope_of, DKIMResultType, DMARCResultType, DispositionType, PolicyOverrideType,
    SPFDomainScope, SPFResultType,
};

verus! {

// ---- what decoding requires ----

/// The text of an optional element, or the empty default.
pub open spec fn or_empty(o: Option<String>) -> Seq<char> {
    match o {
        Some(s) => s@,
        None => Seq::empty(),
    }
}

/// The earlier of two faults.
pub open spec fn first(a: Option<ParseErrorView>, b: Option<ParseErrorView>) -> Option<
    ParseErrorView,
> {
    if a is Some {
        a
    } else {
        b
    }
}

pub open spec fn text_fault(o: Option<String>, f: Field) -> Option<ParseErrorView> {
    if o is None {
        Some(ParseErrorView::MissingField(f))
    } else {
        None
    }
}

/// The fault of a required element of a vocabulary; `known` says whether its text is a member.
pub open spec fn enum_fault(o: Option<String>, f: Field, known: bool) -> Option<ParseErrorView> {
    match o {
        None => Some(ParseErrorView::MissingField(f)),
        Some(s) => if known {
            None
        } else {
            Some(ParseErrorView::InvalidEnum(f, s@))
        },
    }
}

/// A signed decimal that fits in an `i64`.
pub open spec fn i64_value(s: Seq<char>) -> Option<int> {
    if signed_text(s) is Some && i64::MIN <= signed_text(s)->0 <= i64::MAX {
        signed_text(s)
    } else {
        None
    }
}

pub open spec fn timestamp_fault(o: Option<String>, f: Field) -> Option<ParseErrorView> {
    match o {
        None => Some(ParseErrorView::MissingField(f)),
        Some(s) => if i64_value(s@) is Some {
            None
        } else {
            Some(ParseErrorView::InvalidTimestamp(f))
        },
    }
}

pub open spec fn date_range_fault(raw: RawDateRange) -> Option<ParseErrorView> {
    first(
        timestamp_fault(raw.begin, Field::Begin),
        first(
            timestamp_fault(raw.end, Field::End),
            if i64_value(raw.begin->Some_0@)->0 > i64_value(raw.end->Some_0@)->0 {
                Some(ParseErrorView::InvalidTimestamp(Field::End))
            } else {
                None
            },
        ),
    )
}

pub open spec fn metadata_fault(raw: RawReportMetadata) -> Option<ParseErrorView> {
    first(
        text_fault(raw.org_name, Field::OrgName),
        first(
            text_fault(raw.email, Field::Email),
            first(
                text_fault(raw.report_id, Field::ReportId),
                match raw.date_range {
                    None => Some(ParseErrorView::MissingField(Field::DateRange)),
                    Some(d) => date_range_fault(d),
                },
            ),
        ),
    )
}

/// A percentage: an unsigned decimal from 0 to 100.
pub open spec fn pct_fault(o: Option<String>) -> Option<ParseErrorView> {
    match o {
        None => Some(ParseErrorView::MissingField(Field::Pct)),
        Some(s) => if unsigned_text(s@) is Some && unsigned_text(s@)->0 <= 100 {
            None
        } else {
            Some(ParseErrorView::InvalidRange(Field::Pct))
        },
    }
}

pub open spec fn policy_fault(raw: RawPolicyPublished) -> Option<ParseErrorView> {
    first(
        text_fault(raw.domain, Field::Domain),
        first(text_fault(raw.p, Field::P), pct_fault(raw.pct)),
    )
}

pub open spec fn reason_fault(raw: RawReason) -> Option<ParseErrorView> {
    first(
        enum_fault(
            raw.type_,
            Field::ReasonType,
            policy_override_of(raw.type_->Some_0@) is Some,
        ),
        text_fault(raw.comment, Field::ReasonComment),
    )
}

pub open spec fn evaluated_fault(raw: RawPolicyEvaluated) -> Option<ParseErrorView> {
    first(
        enum_fault(
            raw.disposition,
            Field::Disposition,
            disposition_of(raw.disposition->Some_0@) is Some,
        ),
        first(
            enum_fault(raw.dkim, Field::PolicyDkim, dmarc_result_of(raw.dkim->Some_0@) is Some),
            first(
                enum_fault(raw.spf, Field::PolicySpf, dmarc_result_of(raw.spf->Some_0@) is Some),
                match raw.reason {
                    None => None,
                    Some(r) => reason_fault(r),
                },
            ),
        ),
    )
}

/// A count: an unsigned decimal that fits in a `u64`.
pub open spec fn count_fault(o: Option<String>) -> Option<ParseErrorView> {
    match o {
        None => Some(ParseErrorView::MissingField(Field::Count)),
        Some(s) => if unsigned_text(s@) is Some && unsigned_text(s@)->0 <= u64::MAX {
            None
        } else {
            Some(ParseErrorView::InvalidRange(Field::Count))
        },
    }
}

pub open spec fn row_fault(raw: RawRow) -> Option<ParseErrorView> {
    first(
        text_fault(raw.source_ip, Field::SourceIp),
        first(
            count_fault(raw.count),
            match raw.policy_evaluated {
                None => Some(ParseErrorView::MissingField(Field::PolicyEvaluated)),
                Some(p) => evaluated_fault(p),
            },
        ),
    )
}

pub open spec fn dkim_fault(raw: RawDkim) -> Option<ParseErrorView> {
    first(
        text_fault(raw.domain, Field::DkimDomain),
        enum_fault(raw.result, Field::DkimResult, dkim_result_of(raw.result->Some_0@) is Some),
    )
}

pub open spec fn spf_fault(raw: RawSpf) -> Option<ParseErrorView> {
    first(
        text_fault(raw.domain, Field::SpfDomain),
        first(
            match raw.scope {
                None => None,
                Some(s) => if spf_scope_of(s@) is Some {
                    None
                } else {
                    Some(ParseErrorView::InvalidEnum(Field::SpfScope, s@))
                },
            },
            enum_fault(raw.result, Field::SpfResult, spf_result_of(raw.result->Some_0@) is Some),
        ),
    )
}

pub open spec fn dkims_fault(s: Seq<RawDkim>) -> Option<ParseErrorView>
    decreases s.len(),
{
    if s.len() == 0 {
        None
    } else {
        first(dkim_fault(s[0]), dkims_fault(s.skip(1)))
    }
}

pub open spec fn spfs_fault(s: Seq<RawSpf>) -> Option<ParseErrorView>
    decreases s.len(),
{
    if s.len() == 0 {
        None
    } else {
        first(spf_fault(s[0]), spfs_fault(s.skip(1)))
    }
}

pub open spec fn auth_fault(raw: RawAuthResult) -> Option<ParseErrorView> {
    first(
        dkims_fault(raw.dkim@),
        match raw.spf {
            None => Some(ParseErrorView::MissingField(Field::Spf)),
            Some(v) => spfs_fault(v@),
        },
    )
}

pub open spec fn record_fault(raw: RawRecord) -> Option<ParseErrorView> {
    first(
        match raw.row {
            None => Some(ParseErrorView::MissingField(Field::Row)),
            Some(r) => row_fault(r),
        },
        first(
            match raw.identifiers {
                None => Some(ParseErrorView::MissingField(Field::Identifiers)),
                Some(i) => text_fault(i.header_from, Field::HeaderFrom),
            },
            match raw.auth_results {
                None => Some(ParseErrorView::MissingField(Field::AuthResults)),
                Some(a) => auth_fault(a),
            },
        ),
    )
}

pub open spec fn records_fault(s: Seq<RawRecord>) -> Option<ParseErrorView>
    decreases s.len(),
{
    if s.len() == 0 {
        None
    } else {
        first(record_fault(s[0]), records_fault(s.skip(1)))
    }
}

/// The first fault of a report in document order, or `None` when it decodes.
pub open spec fn feedback_fault(raw: RawFeedback) -> Option<ParseErrorView> {
    first(
        match raw.report_metadata {
            None => Some(ParseErrorView::MissingField(Field::ReportMetadata)),
            Some(m) => metadata_fault(m),
        },
        first(
            match raw.policy_published {
                None => Some(ParseErrorView::MissingField(Field::PolicyPublished)),
                Some(p) => policy_fault(p),
            },
            records_fault(raw.record@),
        ),
    )
}

/// `r` is the error `fault` names, or a success where there is none.
pub open spec fn outcome<T>(r: Result<T, ParseError>, fault: Option<ParseErrorView>) -> bool {
    match fault {
        Some(e) => r is Err && r->Err_0@ == e,
        None => r is Ok,
    }
}

// ---- what decoding yields ----

pub open spec fn metadata_decoded(m: ReportMetadata, raw: RawReportMetadata) -> bool {
    &&& m.org_name@ == raw.org_name->Some_0@
    &&& m.email@ == raw.email->Some_0@
    &&& m.extra_contact_info@ == or_empty(raw.extra_contact_info)
    &&& m.report_id@ == raw.report_id->Some_0@
    &&& m.date_range.begin == i64_value(raw.date_range->Some_0.begin->Some_0@)->0
    &&& m.date_range.end == i64_value(raw.date_range->Some_0.end->Some_0@)->0
}

pub open spec fn policy_decoded(p: PolicyPublished, raw: RawPolicyPublished) -> bool {
    &&& p.domain@ == raw.domain->Some_0@
    &&& p.adkim@ == or_empty(raw.adkim)
    &&& p.aspf@ == or_empty(raw.aspf)
    &&& p.p@ == raw.p->Some_0@
    &&& p.sp@ == or_empty(raw.sp)
    &&& p.pct == unsigned_text(raw.pct->Some_0@)->0
    &&& p.fo@ == or_empty(raw.fo)
}

pub open spec fn evaluated_decoded(p: PolicyEvaluated, raw: RawPolicyEvaluated) -> bool {
    &&& disposition_of(raw.disposition->Some_0@) == Some(p.disposition)
    &&& dmarc_result_of(raw.dkim->Some_0@) == Some(p.dkim)
    &&& dmarc_result_of(raw.spf->Some_0@) == Some(p.spf)
    &&& p.reason is Some == raw.reason is Some
    &&& p.reason is Some ==> {
        &&& policy_override_of(raw.reason->Some_0.type_->Some_0@) == Some(p.reason->Some_0.type_)
        &&& p.reason->Some_0.comment@ == raw.reason->Some_0.comment->Some_0@
    }
}

pub open spec fn row_decoded(r: Row, raw: RawRow) -> bool {
    &&& r.source_ip@ == raw.source_ip->Some_0@
    &&& r.count == unsigned_text(raw.count->Some_0@)->0
    &&& evaluated_decoded(r.policy_evaluated, raw.policy_evaluated->Some_0)
}

pub open spec fn identifier_decoded(i: Identifier, raw: RawIdentifier) -> bool {
    &&& i.envelope_to@ == or_empty(raw.envelope_to)
    &&& i.envelope_from@ == or_empty(raw.envelope_from)
    &&& i.header_from@ == raw.header_from->Some_0@
}

pub open spec fn dkim_decoded(d: DKIMAuthResult, raw: RawDkim) -> bool {
    &&& d.domain@ == raw.domain->Some_0@
    &&& d.selector@ == or_empty(raw.selector)
    &&& dkim_result_of(raw.result->Some_0@) == Some(d.result)
    &&& d.human_result@ == or_empty(raw.human_result)
}

pub open spec fn spf_decoded(d: SPFAuthResult, raw: RawSpf) -> bool {
    &&& d.domain@ == raw.domain->Some_0@
    &&& d.scope == match raw.scope {
        None => None,
        Some(s) => spf_scope_of(s@),
    }
    &&& spf_result_of(raw.result->Some_0@) == Some(d.result)
    &&& d.selector@ == or_empty(raw.selector)
}

pub open spec fn auth_decoded(a: AuthResult, raw: RawAuthResult) -> bool {
    &&& a.dkim@.len() == raw.dkim@.len()
    &&& forall|i: int| 0 <= i < a.dkim@.len() ==> dkim_decoded(#[trigger] a.dkim@[i], raw.dkim@[i])
    &&& a.spf@.len() == raw.spf->Some_0@.len()
    &&& forall|i: int|
        0 <= i < a.spf@.len() ==> spf_decoded(#[trigger] a.spf@[i], raw.spf->Some_0@[i])
}

pub open spec fn record_decoded(r: Record, raw: RawRecord) -> bool {
    &&& row_decoded(r.row, raw.row->Some_0)
    &&& identifier_decoded(r.identifiers, raw.identifiers->Some_0)
    &&& auth_decoded(r.auth_results, raw.auth_results->Some_0)
}

pub open spec fn feedback_decoded(f: Feedback, raw: RawFeedback) -> bool {
    &&& metadata_decoded(f.report_metadata, raw.report_metadata->Some_0)
    &&& policy_decoded(f.policy_published, raw.policy_published->Some_0)
    &&& f.record@.len() == raw.record@.len()
    &&& forall|i: int|
        0 <= i < f.record@.len() ==> record_decoded(#[trigger] f.record@[i], raw.record@[i])
}

/// A disposition, DKIM result or SPF result outside its vocabulary is a fault that
/// names the field and keeps the value: at the disposition of an evaluated policy,
/// and at the result of a DKIM or SPF entry whose domain (and scope) are in order.
pub proof fn lemma_vocabulary_faults(
    p: RawPolicyEvaluated,
    d: RawDkim,
    sp: RawSpf,
)
    ensures
        p.disposition is Some && disposition_of(p.disposition->Some_0@) is None
            ==> evaluated_fault(p) == Some(
            ParseErrorView::InvalidEnum(Field::Disposition, p.disposition->Some_0@),
        ),
        d.domain is Some && d.result is Some && dkim_result_of(d.result->Some_0@) is None
            ==> dkim_fault(d) == Some(
            ParseErrorView::InvalidEnum(Field::DkimResult, d.result->Some_0@),
        ),
        sp.domain is Some && (sp.scope is None || spf_scope_of(sp.scope->Some_0@) is Some)
            && sp.result is Some && spf_result_of(sp.result->Some_0@) is None ==> spf_fault(sp)
            == Some(ParseErrorView::InvalidEnum(Field::SpfResult, sp.result->Some_0@)),
{
}

/// The fault of a list of records is that of the first record that has one.
pub proof fn lemma_first_faulty_record(s: Seq<RawRecord>, k: int)
    requires
        0 <= k < s.len(),
        forall|j: int| 0 <= j < k ==> record_fault(#[trigger] s[j]) is None,
        record_fault(s[k]) is Some,
    ensures
        records_fault(s) == record_fault(s[k]),
    decreases k,
{
    if k > 0 {
        let t = s.skip(1);
        assert forall|j: int| 0 <= j < k - 1 implies record_fault(#[trigger] t[j]) is None by {
            assert(t[j] == s[j + 1]);
        }
        assert(t[k - 1] == s[k]);
        lemma_first_faulty_record(t, k - 1);
        assert(record_fault(s[0]) is None);
    }
}

/// A report whose header is in order, whose records before record `k` are in order,
/// and whose record `k` first goes wrong in a value outside a vocabulary, fails with
/// `InvalidEnum` naming that field and value; so does one whose record `k` is in
/// order up to a disposition outside its vocabulary.
pub proof fn lemma_report_vocabulary_fault(raw: RawFeedback, k: int)
    requires
        raw.report_metadata is Some && metadata_fault(raw.report_metadata->Some_0) is None,
        raw.policy_published is Some && policy_fault(raw.policy_published->Some_0) is None,
        0 <= k < raw.record@.len(),
        forall|j: int| 0 <= j < k ==> record_fault(#[trigger] raw.record@[j]) is None,
        record_fault(raw.record@[k]) is Some,
    ensures
        feedback_fault(raw) == record_fault(raw.record@[k]),
        ({
            let rec = raw.record@[k];
            let row = rec.row->Some_0;
            let p = row.policy_evaluated->Some_0;
            rec.row is Some && row.source_ip is Some && count_fault(row.count) is None
                && row.policy_evaluated is Some && p.disposition is Some && disposition_of(
                p.disposition->Some_0@,
            ) is None
        }) ==> feedback_fault(raw) == Some(
            ParseErrorView::InvalidEnum(
                Field::Disposition,
                raw.record@[k].row->Some_0.policy_evaluated->Some_0.disposition->Some_0@,
            ),
        ),
{
    lemma_first_faulty_record(raw.record@, k);
}

/// A record that carries none of its optional elements.
pub open spec fn record_without_optionals(r: RawRecord) -> bool {
    let i = r.identifiers->Some_0;
    let a = r.auth_results->Some_0;
    &&& i.envelope_to is None && i.envelope_from is None
    &&& r.row->Some_0.policy_evaluated->Some_0.reason is None
    &&& forall|j: int|
        0 <= j < a.dkim@.len() ==> (#[trigger] a.dkim@[j]).selector is None
            && a.dkim@[j].human_result is None
    &&& forall|j: int|
        0 <= j < a.spf->Some_0@.len() ==> (#[trigger] a.spf->Some_0@[j]).scope is None
            && a.spf->Some_0@[j].selector is None
}

/// A decoded record whose optional elements all hold their defaults.
pub open spec fn record_has_defaults(r: Record) -> bool {
    &&& r.identifiers.envelope_to@.len() == 0 && r.identifiers.envelope_from@.len() == 0
    &&& r.row.policy_evaluated.reason is None
    &&& forall|j: int|
        0 <= j < r.auth_results.dkim@.len() ==> (#[trigger] r.auth_results.dkim@[j]).selector@.len()
            == 0 && r.auth_results.dkim@[j].human_result@.len() == 0
    &&& forall|j: int|
        0 <= j < r.auth_results.spf@.len() ==> (#[trigger] r.auth_results.spf@[j]).scope is None
            && r.auth_results.spf@[j].selector@.len() == 0
}

/// Decoding a report that carries none of the optional elements gives each of them
/// its default: empty text, no SPF scope and no override reason.
pub proof fn lemma_absent_optionals_default(raw: RawFeedback, f: Feedback)
    requires
        feedback_decoded(f, raw),
        raw.report_metadata->Some_0.extra_contact_info is None,
        ({
            let p = raw.policy_published->Some_0;
            p.adkim is None && p.aspf is None && p.sp is None && p.fo is None
        }),
        forall|i: int|
            0 <= i < raw.record@.len() ==> record_without_optionals(#[trigger] raw.record@[i]),
    ensures
        f.report_metadata.extra_contact_info@.len() == 0,
        f.policy_published.adkim@.len() == 0 && f.policy_published.aspf@.len() == 0,
        f.policy_published.sp@.len() == 0 && f.policy_published.fo@.len() == 0,
        forall|i: int| 0 <= i < f.record@.len() ==> record_has_defaults(#[trigger] f.record@[i]),
{
    assert forall|i: int| 0 <= i < f.record@.len() implies record_has_defaults(
        #[trigger] f.record@[i],
    ) by {
        let r = f.record@[i];
        let w = raw.record@[i];
        assert(record_decoded(r, w));
        assert(record_without_optionals(w));
        let a = w.auth_results->Some_0;
        assert forall|j: int| 0 <= j < r.auth_results.dkim@.len() implies (
        #[trigger] r.auth_results.dkim@[j]).selector@.len() == 0
            && r.auth_results.dkim@[j].human_result@.len() == 0 by {
            assert(dkim_decoded(r.auth_results.dkim@[j], a.dkim@[j]));
            assert(a.dkim@[j].selector is None);
        }
        assert forall|j: int| 0 <= j < r.auth_results.spf@.len() implies (
        #[trigger] r.auth_results.spf@[j]).scope is None && r.auth_results.spf@[j].selector@.len()
            == 0 by {
            assert(spf_decoded(r.auth_results.spf@[j], a.spf->Some_0@[j]));
            assert(a.spf->Some_0@[j].scope is None);
        }
    }
}

// ---- decoding ----

fn required_text(o: &Option<String>, f: Field) -> (r: Result<String, ParseError>)
    ensures
        outcome(r, text_fault(*o, f)),
        r is Ok ==> r->Ok_0@ == o->Some_0@,
{
    match o {
        Some(s) => Ok(s.clone()),
        None => Err(ParseError::MissingField(f)),
    }
}

fn optional_text(o: &Option<String>) -> (r: String)
    ensures
        r@ == or_empty(*o),
{
    match o {
        Some(s) => s.clone(),
        None => String::new(),
    }
}

fn timestamp(o: &Option<String>, f: Field) -> (r: Result<i64, ParseError>)
    ensures
        outcome(r, timestamp_fault(*o, f)),
        r is Ok ==> r->Ok_0 == i64_value(o->Some_0@)->0,
{
    match o {
        None => Err(ParseError::MissingField(f)),
        Some(s) => match parse_signed(s.as_str()) {
            Some(v) => Ok(v),
            None => Err(ParseError::InvalidTimestamp(f)),
        },
    }
}

fn decode_date_range(raw: &RawDateRange) -> (r: Result<DateRange, ParseError>)
    ensures
        outcome(r, date_range_fault(*raw)),
        r is Ok ==> r->Ok_0.begin == i64_value(raw.begin->Some_0@)->0 && r->Ok_0.end
            == i64_value(raw.end->Some_0@)->0,
{
    let begin = timestamp(&raw.begin, Field::Begin)?;
    let end = timestamp(&raw.end, Field::End)?;
    if begin > end {
        return Err(ParseError::InvalidTimestamp(Field::End));
    }
    Ok(DateRange { begin, end })
}

fn decode_metadata(raw: &RawReportMetadata) -> (r: Result<ReportMetadata, ParseError>)
    ensures
        outcome(r, metadata_fault(*raw)),
        r is Ok ==> metadata_decoded(r->Ok_0, *raw),
{
    let org_name = required_text(&raw.org_name, Field::OrgName)?;
    let email = required_text(&raw.email, Field::Email)?;
    let report_id = required_text(&raw.report_id, Field::ReportId)?;
    let date_range = match &raw.date_range {
        None => {
            return Err(ParseError::MissingField(Field::DateRange));
        },
        Some(d) => decode_date_range(d)?,
    };
    let extra_contact_info = optional_text(&raw.extra_contact_info);
    Ok(ReportMetadata { org_name, email, extra_contact_info, report_id, date_range })
}

/// Decodes the published policy; the percentage must lie in `[0, 100]`.
pub fn decode_policy(raw: &RawPolicyPublished) -> (r: Result<PolicyPublished, ParseError>)
    ensures
        outcome(r, policy_fault(*raw)),
        r is Ok ==> policy_decoded(r->Ok_0, *raw),
{
    let domain = required_text(&raw.domain, Field::Domain)?;
    let p = required_text(&raw.p, Field::P)?;
    let pct = match &raw.pct {
        None => {
            return Err(ParseError::MissingField(Field::Pct));
        },
        Some(s) => match parse_unsigned(s.as_str(), 100) {
            Some(v) => v as u32,
            None => {
                return Err(ParseError::InvalidRange(Field::Pct));
            },
        },
    };
    Ok(
        PolicyPublished {
            domain,
            adkim: optional_text(&raw.adkim),
            aspf: optional_text(&raw.aspf),
            p,
            sp: optional_text(&raw.sp),
            pct,
            fo: optional_text(&raw.fo),
        },
    )
}

fn invalid(f: Field, s: &String) -> (r: ParseError)
    ensures
        r@ == ParseErrorView::InvalidEnum(f, s@),
{
    ParseError::InvalidEnum(f, s.clone())
}

fn decode_reason(raw: &RawReason) -> (r: Result<PolicyOverrideReason, ParseError>)
    ensures
        outcome(r, reason_fault(*raw)),
        r is Ok ==> policy_override_of(raw.type_->Some_0@) == Some(r->Ok_0.type_)
            && r->Ok_0.comment@ == raw.comment->Some_0@,
{
    let type_ = match &raw.type_ {
        None => {
            return Err(ParseError::MissingField(Field::ReasonType));
        },
        Some(s) => match PolicyOverrideType::parse(s.as_str()) {
            Some(v) => v,
            None => {
                return Err(invalid(Field::ReasonType, s));
            },
        },
    };
    let comment = required_text(&raw.comment, Field::ReasonComment)?;
    Ok(PolicyOverrideReason { type_, comment })
}

fn decode_dmarc_result(o: &Option<String>, f: Field) -> (r: Result<DMARCResultType, ParseError>)
    ensures
        outcome(r, enum_fault(*o, f, dmarc_result_of(o->Some_0@) is Some)),
        r is Ok ==> dmarc_result_of(o->Some_0@) == Some(r->Ok_0),
{
    match o {
        None => Err(ParseError::MissingField(f)),
        Some(s) => match DMARCResultType::parse(s.as_str()) {
            Some(v) => Ok(v),
            None => Err(invalid(f, s)),
        },
    }
}

fn decode_evaluated(raw: &RawPolicyEvaluated) -> (r: Result<PolicyEvaluated, ParseError>)
    ensures
        outcome(r, evaluated_fault(*raw)),
        r is Ok ==> evaluated_decoded(r->Ok_0, *raw),
{
    let disposition = match &raw.disposition {
        None => {
            return Err(ParseError::MissingField(Field::Disposition));
        },
        Some(s) => match DispositionType::parse(s.as_str()) {
            Some(v) => v,
            None => {
                return Err(invalid(Field::Disposition, s));
            },
        },
    };
    let dkim = decode_dmarc_result(&raw.dkim, Field::PolicyDkim)?;
    let spf = decode_dmarc_result(&raw.spf, Field::PolicySpf)?;
    let reason = match &raw.reason {
        None => None,
        Some(rr) => Some(decode_reason(rr)?),
    };
    Ok(PolicyEvaluated { disposition, dkim, spf, reason })
}

fn decode_row(raw: &RawRow) -> (r: Result<Row, ParseError>)
    ensures
        outcome(r, row_fault(*raw)),
        r is Ok ==> row_decoded(r->Ok_0, *raw),
{
    let source_ip = required_text(&raw.source_ip, Field::SourceIp)?;
    let count = match &raw.count {
        None => {
            return Err(ParseError::MissingField(Field::Count));
        },
        Some(s) => match parse_unsigned(s.as_str(), u64::MAX) {
            Some(v) => v,
            None => {
                return Err(ParseError::InvalidRange(Field::Count));
            },
        },
    };
    let policy_evaluated = match &raw.policy_evaluated {
        None => {
            return Err(ParseError::MissingField(Field::PolicyEvaluated));
        },
        Some(p) => decode_evaluated(p)?,
    };
    Ok(Row { source_ip, count, policy_evaluated })
}

fn decode_dkim(raw: &RawDkim) -> (r: Result<DKIMAuthResult, ParseError>)
    ensures
        outcome(r, dkim_fault(*raw)),
        r is Ok ==> dkim_decoded(r->Ok_0, *raw),
{
    let domain = required_text(&raw.domain, Field::DkimDomain)?;
    let result = match &raw.result {
        None => {
            return Err(ParseError::MissingField(Field::DkimResult));
        },
        Some(s) => match DKIMResultType::parse(s.as_str()) {
            Some(v) => v,
            None => {
                return Err(invalid(Field::DkimResult, s));
            },
        },
    };
    Ok(
        DKIMAuthResult {
            domain,
            selector: optional_text(&raw.selector),
            result,
            human_result: optional_text(&raw.human_result),
        },
    )
}

fn decode_spf(raw: &RawSpf) -> (r: Result<SPFAuthResult, ParseError>)
    ensures
        outcome(r, spf_fault(*raw)),
        r is Ok ==> spf_decoded(r->Ok_0, *raw),
{
    let domain = required_text(&raw.domain, Field::SpfDomain)?;
    let scope = match &raw.scope {
        None => None,
        Some(s) => match SPFDomainScope::parse(s.as_str()) {
            Some(v) => Some(v),
            None => {
                return Err(invalid(Field::SpfScope, s));
            },
        },
    };
    let result = match &raw.result {
        None => {
            return Err(ParseError::MissingField(Field::SpfResult));
        },
        Some(s) => match SPFResultType::parse(s.as_str()) {
            Some(v) => v,
            None => {
                return Err(invalid(Field::SpfResult, s));
            },
        },
    };
    Ok(SPFAuthResult { domain, scope, result, selector: optional_text(&raw.selector) })
}

fn decode_dkims(raw: &Vec<RawDkim>) -> (r: Result<Vec<DKIMAuthResult>, ParseError>)
    ensures
        outcome(r, dkims_fault(raw@)),
        r is Ok ==> r->Ok_0@.len() == raw@.len() && forall|i: int|
            0 <= i < raw@.len() ==> dkim_decoded(#[trigger] r->Ok_0@[i], raw@[i]),
{
    let mut out: Vec<DKIMAuthResult> = Vec::new();
    let mut i: usize = 0;
    assert(raw@.skip(0) =~= raw@);
    while i < raw.len()
        invariant
            i <= raw@.len(),
            out@.len() == i,
            dkims_fault(raw@) == dkims_fault(raw@.skip(i as int)),
            forall|j: int| 0 <= j < i ==> dkim_decoded(#[trigger] out@[j], raw@[j]),
        decreases raw@.len() - i,
    {
        assert(raw@.skip(i as int)[0] == raw@[i as int]);
        assert(raw@.skip(i as int).skip(1) =~= raw@.skip(i + 1));
        let d = decode_dkim(&raw[i])?;
        out.push(d);
        i = i + 1;
    }
    Ok(out)
}

fn decode_spfs(raw: &Vec<RawSpf>) -> (r: Result<Vec<SPFAuthResult>, ParseError>)
    ensures
        outcome(r, spfs_fault(raw@)),
        r is Ok ==> r->Ok_0@.len() == raw@.len() && forall|i: int|
            0 <= i < raw@.len() ==> spf_decoded(#[trigger] r->Ok_0@[i], raw@[i]),
{
    let mut out: Vec<SPFAuthResult> = Vec::new();
    let mut i: usize = 0;
    assert(raw@.skip(0) =~= raw@);
    while i < raw.len()
        invariant
            i <= raw@.len(),
            out@.len() == i,
            spfs_fault(raw@) == spfs_fault(raw@.skip(i as int)),
            forall|j: int| 0 <= j < i ==> spf_decoded(#[trigger] out@[j], raw@[j]),
        decreases raw@.len() - i,
    {
        assert(raw@.skip(i as int)[0] == raw@[i as int]);
        assert(raw@.skip(i as int).skip(1) =~= raw@.skip(i + 1));
        let d = decode_spf(&raw[i])?;
        out.push(d);
        i = i + 1;
    }
    Ok(out)
}

/// Decodes one record: its row, its identifiers and its authentication results.
pub fn decode_record(raw: &RawRecord) -> (r: Result<Record, ParseError>)
    ensures
        outcome(r, record_fault(*raw)),
        r is Ok ==> record_decoded(r->Ok_0, *raw),
{
    let row = match &raw.row {
        None => {
            return Err(ParseError::MissingField(Field::Row));
        },
        Some(x) => decode_row(x)?,
    };
    let identifiers = match &raw.identifiers {
        None => {
            return Err(ParseError::MissingField(Field::Identifiers));
        },
        Some(x) => Identifier {
            header_from: required_text(&x.header_from, Field::HeaderFrom)?,
            envelope_to: optional_text(&x.envelope_to),
            envelope_from: optional_text(&x.envelope_from),
        },
    };
    let auth_results = match &raw.auth_results {
        None => {
            return Err(ParseError::MissingField(Field::AuthResults));
        },
        Some(x) => {
            let dkim = decode_dkims(&x.dkim)?;
            let spf = match &x.spf {
                None => {
                    return Err(ParseError::MissingField(Field::Spf));
                },
                Some(v) => decode_spfs(v)?,
            };
            AuthResult { dkim, spf }
        },
    };
    Ok(Record { row, identifiers, auth_results })
}

/// Decodes a whole report. It succeeds exactly when the report has no fault,
/// and otherwise reports the first fault in document order.
pub fn decode(raw: &RawFeedback) -> (r: Result<Feedback, ParseError>)
    ensures
        outcome(r, feedback_fault(*raw)),
        r is Ok ==> feedback_decoded(r->Ok_0, *raw),
{
    let report_metadata = match &raw.report_metadata {
        None => {
            return Err(ParseError::MissingField(Field::ReportMetadata));
        },
        Some(m) => decode_metadata(m)?,
    };
    let policy_published = match &raw.policy_published {
        None => {
            return Err(ParseError::MissingField(Field::PolicyPublished));
        },
        Some(p) => decode_policy(p)?,
    };
    let mut record: Vec<Record> = Vec::new();
    let mut i: usize = 0;
    assert(raw.record@.skip(0) =~= raw.record@);
    while i < raw.record.len()
        invariant
            i <= raw.record@.len(),
            record@.len() == i,
            feedback_fault(*raw) == records_fault(raw.record@),
            metadata_decoded(report_metadata, raw.report_metadata->Some_0),
            policy_decoded(policy_published, raw.policy_published->Some_0),
            records_fault(raw.record@) == records_fault(raw.record@.skip(i as int)),
            forall|j: int| 0 <= j < i ==> record_decoded(#[trigger] record@[j], raw.record@[j]),
        decreases raw.record@.len() - i,
    {
        assert(raw.record@.skip(i as int)[0] == raw.record@[i as int]);
        assert(raw.record@.skip(i as int).skip(1) =~= raw.record@.skip(i + 1));
        let rec = decode_record(&raw.record[i])?;
        record.push(rec);
        i = i + 1;
    }
    Ok(Feedback { report_metadata, policy_published, record })
}

} // verus!
