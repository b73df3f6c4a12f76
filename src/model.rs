//! The report as it arrives (every element optional, every value text) and the
//! strict, typed report that decoding yields.
use vstd::prelude::*;
use crate::vocab::{
    DKIMResultType, DMARCResultType, DispositionType, PolicyOverrideType, SPFDomainScope,
    SPFResultType,
};

verus! {

/// The elements of a report whose absence or bad value decoding reports.
#[derive(Clone, Copy, Debug, PartialEq, Eq, Structural)]
pub enum Field {
    ReportMetadata,
    OrgName,
    Email,
    ReportId,
    DateRange,
    Begin,
    End,
    PolicyPublished,
    Domain,
    P,
    Pct,
    Row,
    SourceIp,
    Count,
    PolicyEvaluated,
    Disposition,
    PolicyDkim,
    PolicySpf,
    ReasonType,
    ReasonComment,
    Identifiers,
    HeaderFrom,
    AuthResults,
    Spf,
    DkimDomain,
    DkimResult,
    SpfDomain,
    SpfScope,
    SpfResult,
}

/// Why a report could not be decoded or normalized.
#[derive(Clone, Debug, PartialEq, Eq)]
pub enum ParseError {
    /// A required element is absent.
    MissingField(Field),
    /// A value lies outside the field's vocabulary; the value is kept.
    InvalidEnum(Field, String),
    /// A number is not a decimal or lies outside its range.
    InvalidRange(Field),
    /// A timestamp is not a decimal, is out of order, or cannot be rendered.
    InvalidTimestamp(Field),
    /// A value does not fit the storage width.
    Overflow(Field),
}

/// A `ParseError` with its text as characters.
pub enum ParseErrorView {
    MissingField(Field),
    InvalidEnum(Field, Seq<char>),
    InvalidRange(Field),
    InvalidTimestamp(Field),
    Overflow(Field),
}

impl View for ParseError {
    type V = ParseErrorView;

    open spec fn view(&self) -> ParseErrorView {
        match self {
            ParseError::MissingField(f) => ParseErrorView::MissingField(*f),
            ParseError::InvalidEnum(f, s) => ParseErrorView::InvalidEnum(*f, s@),
            ParseError::InvalidRange(f) => ParseErrorView::InvalidRange(*f),
            ParseError::InvalidTimestamp(f) => ParseErrorView::InvalidTimestamp(*f),
            ParseError::Overflow(f) => ParseErrorView::Overflow(*f),
        }
    }
}

// ---- the report as it arrives ----

#[derive(Clone, Debug, PartialEq, Eq)]
pub struct RawDateRange {
    pub begin: Option<String>,
    pub end: Option<String>,
}

#[derive(Clone, Debug, PartialEq, Eq)]
pub struct RawReportMetadata {
    pub org_name: Option<String>,
    pub email: Option<String>,
    pub extra_contact_info: Option<String>,
    pub report_id: Option<String>,
    pub date_range: Option<RawDateRange>,
}

#[derive(Clone, Debug, PartialEq, Eq)]
pub struct RawPolicyPublished {
    pub domain: Option<String>,
    pub adkim: Option<String>,
    pub aspf: Option<String>,
    pub p: Option<String>,
    pub sp: Option<String>,
    pub pct: Option<String>,
    pub fo: Option<String>,
}

#[derive(Clone, Debug, PartialEq, Eq)]
pub struct RawReason {
    pub type_: Option<String>,
    pub comment: Option<String>,
}

#[derive(Clone, Debug, PartialEq, Eq)]
pub struct RawPolicyEvaluated {
    pub disposition: Option<String>,
    pub dkim: Option<String>,
    pub spf: Option<String>,
    pub reason: Option<RawReason>,
}

#[derive(Clone, Debug, PartialEq, Eq)]
pub struct RawRow {
    pub source_ip: Option<String>,
    pub count: Option<String>,
    pub policy_evaluated: Option<RawPolicyEvaluated>,
}

#[derive(Clone, Debug, PartialEq, Eq)]
pub struct RawIdentifier {
    pub envelope_to: Option<String>,
    pub envelope_from: Option<String>,
    pub header_from: Option<String>,
}

#[derive(Clone, Debug, PartialEq, Eq)]
pub struct RawDkim {
    pub domain: Option<String>,
    pub selector: Option<String>,
    pub result: Option<String>,
    pub human_result: Option<String>,
}

#[derive(Clone, Debug, PartialEq, Eq)]
pub struct RawSpf {
    pub domain: Option<String>,
    pub scope: Option<String>,
    pub result: Option<String>,
    pub selector: Option<String>,
}

#[derive(Clone, Debug, PartialEq, Eq)]
pub struct RawAuthResult {
    pub dkim: Vec<RawDkim>,
    pub spf: Option<Vec<RawSpf>>,
}

#[derive(Clone, Debug, PartialEq, Eq)]
pub struct RawRecord {
    pub row: Option<RawRow>,
    pub identifiers: Option<RawIdentifier>,
    pub auth_results: Option<RawAuthResult>,
}

#[derive(Clone, Debug, PartialEq, Eq)]
pub struct RawFeedback {
    pub report_metadata: Option<RawReportMetadata>,
    pub policy_published: Option<RawPolicyPublished>,
    pub record: Vec<RawRecord>,
}

// ---- the decoded report ----

#[derive(Clone, Copy, Debug, PartialEq, Eq, Structural)]
pub struct DateRange {
    pub begin: i64,
    pub end: i64,
}

#[derive(Clone, Debug, PartialEq, Eq)]
pub struct ReportMetadata {
    pub org_name: String,
    pub email: String,
    pub extra_contact_info: String,
    pub report_id: String,
    pub date_range: DateRange,
}

#[derive(Clone, Debug, PartialEq, Eq)]
pub struct PolicyPublished {
    pub domain: String,
    pub adkim: String,
    pub aspf: String,
    pub p: String,
    pub sp: String,
    pub pct: u32,
    pub fo: String,
}

#[derive(Clone, Debug, PartialEq, Eq)]
pub struct PolicyOverrideReason {
    pub type_: PolicyOverrideType,
    pub comment: String,
}

#[derive(Clone, Debug, PartialEq, Eq)]
pub struct PolicyEvaluated {
    pub disposition: DispositionType,
    pub dkim: DMARCResultType,
    pub spf: DMARCResultType,
    pub reason: Option<PolicyOverrideReason>,
}

#[derive(Clone, Debug, PartialEq, Eq)]
pub struct Row {
    pub source_ip: String,
    pub count: u64,
    pub policy_evaluated: PolicyEvaluated,
}

#[derive(Clone, Debug, PartialEq, Eq)]
pub struct Identifier {
    pub envelope_to: String,
    pub envelope_from: String,
    pub header_from: String,
}

#[derive(Clone, Debug, PartialEq, Eq)]
pub struct DKIMAuthResult {
    pub domain: String,
    pub selector: String,
    pub result: DKIMResultType,
    pub human_result: String,
}

#[derive(Clone, Debug, PartialEq, Eq)]
pub struct SPFAuthResult {
    pub domain: String,
    pub scope: Option<SPFDomainScope>,
    pub result: SPFResultType,
    pub selector: String,
}

#[derive(Clone, Debug, PartialEq, Eq)]
pub struct AuthResult {
    pub dkim: Vec<DKIMAuthResult>,
    pub spf: Vec<SPFAuthResult>,
}

#[derive(Clone, Debug, PartialEq, Eq)]
pub struct Record {
    pub row: Row,
    pub identifiers: Identifier,
    pub auth_results: AuthResult,
}

#[derive(Clone, Debug, PartialEq, Eq)]
pub struct Feedback {
    pub report_metadata: ReportMetadata,
    pub policy_published: PolicyPublished,
    pub record: Vec<Record>,
}

} // verus!
