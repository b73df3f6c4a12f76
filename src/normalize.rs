//! Normalization of a decoded report into the rows that storage holds: the
//! header row and one item row per record.
use vstd::prelude::*;
use crate::model::{AuthResult, Feedback, Field, ParseError, ParseErrorView, PolicyEvaluated, Record};
use crate::vocab::{DKIMResultType, DMARCResultType, DispositionType, SPFResultType};

verus! {

/// The report header as stored.
#[derive(Clone, Debug, PartialEq, Eq)]
pub struct ReportRow {
    pub begin_date: String,
    pub end_date: String,
    pub domain: String,
    pub org_name: String,
    pub report_id: String,
    pub email: String,
    pub policy_adkim: String,
    pub policy_aspf: String,
    pub policy_p: String,
    pub policy_sp: String,
    pub policy_pct: i64,
}

/// One evaluated sender as stored, keyed to its report.
#[derive(Clone, Debug, PartialEq, Eq)]
pub struct ItemRow {
    pub report_id: String,
    pub ip: String,
    pub count: i64,
    pub disposition: DispositionType,
    pub dkim_domain: String,
    pub dkim_result: DKIMResultType,
    pub policy_dkim: DMARCResultType,
    pub spf_domain: String,
    pub spf_result: SPFResultType,
    pub policy_spf: DMARCResultType,
    pub reason: String,
    pub header_from: String,
}

/// A report ready to be written: its header, then its items in document order.
#[derive(Clone, Debug, PartialEq, Eq)]
pub struct NormalizedFeedback {
    pub header: ReportRow,
    pub items: Vec<ItemRow>,
}

/// The domain recorded when a record carries no result of a mechanism.
pub open spec fn undefined_domain() -> Seq<char> {
    "*undef*"@
}

/// The primary DKIM result: the first one, or the undefined domain with no result.
pub open spec fn primary_dkim_of(a: AuthResult) -> (Seq<char>, DKIMResultType) {
    if a.dkim@.len() > 0 {
        (a.dkim@[0].domain@, a.dkim@[0].result)
    } else {
        (undefined_domain(), DKIMResultType::NoResult)
    }
}

/// The primary SPF result: the first one, or the undefined domain with no result.
pub open spec fn primary_spf_of(a: AuthResult) -> (Seq<char>, SPFResultType) {
    if a.spf@.len() > 0 {
        (a.spf@[0].domain@, a.spf@[0].result)
    } else {
        (undefined_domain(), SPFResultType::NoResult)
    }
}

/// The override comment, or `-` where no override reason is given.
pub open spec fn reason_of(p: PolicyEvaluated) -> Seq<char> {
    match p.reason {
        Some(r) => r.comment@,
        None => "-"@,
    }
}

/// `it` is the item row of `rec` in the report `report_id`.
pub open spec fn item_of(it: ItemRow, rec: Record, report_id: Seq<char>) -> bool {
    &&& it.report_id@ == report_id
    &&& it.ip@ == rec.row.source_ip@
    &&& it.count == rec.row.count
    &&& it.disposition == rec.row.policy_evaluated.disposition
    &&& (it.dkim_domain@, it.dkim_result) == primary_dkim_of(rec.auth_results)
    &&& it.policy_dkim == rec.row.policy_evaluated.dkim
    &&& (it.spf_domain@, it.spf_result) == primary_spf_of(rec.auth_results)
    &&& it.policy_spf == rec.row.policy_evaluated.spf
    &&& it.reason@ == reason_of(rec.row.policy_evaluated)
    &&& it.header_from@ == rec.identifiers.header_from@
}

/// Whether a record's count fits the storage width.
pub open spec fn count_fits(rec: Record) -> bool {
    rec.row.count <= i64::MAX
}

/// `h` is the header row of `f`, with the two dates as given.
pub open spec fn header_of(h: ReportRow, f: Feedback, begin: Seq<char>, end: Seq<char>) -> bool {
    &&& h.begin_date@ == begin
    &&& h.end_date@ == end
    &&& h.domain@ == f.policy_published.domain@
    &&& h.org_name@ == f.report_metadata.org_name@
    &&& h.report_id@ == f.report_metadata.report_id@
    &&& h.email@ == f.report_metadata.email@
    &&& h.policy_adkim@ == f.policy_published.adkim@
    &&& h.policy_aspf@ == f.policy_published.aspf@
    &&& h.policy_p@ == f.policy_published.p@
    &&& h.policy_sp@ == f.policy_published.sp@
    &&& h.policy_pct == f.policy_published.pct
}

/// The item rows of all records of `f`, in document order.
pub open spec fn items_of(items: Seq<ItemRow>, f: Feedback) -> bool {
    &&& items.len() == f.record@.len()
    &&& forall|i: int|
        0 <= i < items.len() ==> item_of(
            #[trigger] items[i],
            f.record@[i],
            f.report_metadata.report_id@,
        )
}

/// The first second that can be rendered: the start of year -262143.
pub const UTC_MIN_SECS: i64 = -8_334_601_228_800;

/// The last second that can be rendered: the end of year 262142.
pub const UTC_MAX_SECS: i64 = 8_210_266_876_799;

/// Whether an epoch second lies within the calendar that can be rendered.
pub open spec fn utc_in_range(secs: int) -> bool {
    UTC_MIN_SECS <= secs <= UTC_MAX_SECS
}

/// The proleptic Gregorian (year, month, day) of a day counted from 1970-01-01.
pub open spec fn civil_of(days: int) -> (int, int, int) {
    let z = days + 719468;
    let era = z / 146097;
    let doe = z - era * 146097;
    let yoe = (doe - doe / 1460 + doe / 36524 - doe / 146096) / 365;
    let doy = doe - (365 * yoe + yoe / 4 - yoe / 100);
    let mp = (5 * doy + 2) / 153;
    let d = doy - (153 * mp + 2) / 5 + 1;
    let m = if mp < 10 {
        mp + 3
    } else {
        mp - 9
    };
    (if m <= 2 {
        yoe + era * 400 + 1
    } else {
        yoe + era * 400
    }, m, d)
}

pub open spec fn digit(n: int) -> char {
    ('0' as int + n) as char
}

/// `n` written with two digits, `0 <= n < 100`.
pub open spec fn two_digits(n: int) -> Seq<char> {
    seq![digit(n / 10), digit(n % 10)]
}

/// `n` in decimal, without leading zeros.
pub open spec fn decimal(n: nat) -> Seq<char>
    decreases n,
{
    if n < 10 {
        seq![digit(n as int)]
    } else {
        decimal(n / 10) + seq![digit((n % 10) as int)]
    }
}

/// `n` in decimal, padded with zeros to at least four digits.
pub open spec fn four_digits_at_least(n: nat) -> Seq<char> {
    if n < 10000 {
        two_digits((n / 100) as int) + two_digits((n % 100) as int)
    } else {
        decimal(n)
    }
}

/// A year as RFC 3339 and ISO 8601 write it: four digits from 0 to 9999, and
/// otherwise a sign followed by at least four digits.
pub open spec fn year_text(y: int) -> Seq<char> {
    if 0 <= y <= 9999 {
        four_digits_at_least(y as nat)
    } else if y > 9999 {
        seq!['+'] + four_digits_at_least(y as nat)
    } else {
        seq!['-'] + four_digits_at_least((-y) as nat)
    }
}

/// The UTC text of an epoch second, `YYYY-MM-DDTHH:MM:SSZ`.
pub open spec fn civil_text(secs: int) -> Seq<char> {
    let (y, m, d) = civil_of(secs / 86400);
    let t = secs % 86400;
    year_text(y) + seq!['-'] + two_digits(m) + seq!['-'] + two_digits(d) + seq!['T'] + two_digits(
        t / 3600,
    ) + seq![':'] + two_digits((t % 3600) / 60) + seq![':'] + two_digits(t % 60) + seq!['Z']
}

/// The start of 1970 is written `1970-01-01T00:00:00Z`, and the start of 2021
/// `2021-01-01T00:00:00Z`.
pub proof fn lemma_epoch_texts()
    ensures
        civil_text(0) == "1970-01-01T00:00:00Z"@,
        civil_text(1609459200) == "2021-01-01T00:00:00Z"@,
{
    reveal_strlit("1970-01-01T00:00:00Z");
    reveal_strlit("2021-01-01T00:00:00Z");
    assert(civil_of(0) == (1970int, 1int, 1int));
    assert(civil_of(18628) == (2021int, 1int, 1int));
    assert(civil_text(0) =~= "1970-01-01T00:00:00Z"@);
    assert(civil_text(1609459200) =~= "2021-01-01T00:00:00Z"@);
}

/// Relies on chrono's `DateTime::<Utc>::from_timestamp`, which gives a date exactly
/// for the seconds from the start of year -262143 to the end of year 262142, and on
/// `DateTime::to_rfc3339_opts` with whole seconds and `Z` for UTC, which writes a year
/// from 0 to 9999 with four digits, any other year as `{:+05}` does, and each other
/// field with two digits.
#[verifier::external_body]
fn utc_text(secs: i64) -> (r: Option<String>)
    ensures
        r is Some <==> utc_in_range(secs as int),
        r is Some ==> r->Some_0@ == civil_text(secs as int),
{
    match chrono::DateTime::from_timestamp(secs, 0) {
        Some(d) => Some(d.to_rfc3339_opts(chrono::SecondsFormat::Secs, true)),
        None => None,
    }
}

/// Renders an epoch second as UTC text, `YYYY-MM-DDTHH:MM:SSZ`; `None` exactly where
/// the second lies beyond the range of calendar dates that can be rendered.
pub fn epoch_to_utc(secs: i64) -> (r: Option<String>)
    ensures
        r is Some <==> utc_in_range(secs as int),
        r is Some ==> r->Some_0@ == civil_text(secs as int),
{
    utc_text(secs)
}

fn text_of(s: &str) -> (r: String)
    ensures
        r@ == s@,
{
    s.to_owned()
}

/// The item row of one record of the report `report_id`; fails only where the
/// count does not fit the storage width.
pub fn normalize_record(rec: &Record, report_id: &String) -> (r: Result<ItemRow, ParseError>)
    ensures
        r is Ok <==> count_fits(*rec),
        r is Err ==> r->Err_0@ == ParseErrorView::Overflow(Field::Count),
        r is Ok ==> item_of(r->Ok_0, *rec, report_id@),
{
    if rec.row.count > 0x7fff_ffff_ffff_ffffu64 {
        return Err(ParseError::Overflow(Field::Count));
    }
    let a = &rec.auth_results;
    let (dkim_domain, dkim_result) = if a.dkim.len() > 0 {
        (a.dkim[0].domain.clone(), a.dkim[0].result)
    } else {
        (text_of("*undef*"), DKIMResultType::NoResult)
    };
    let (spf_domain, spf_result) = if a.spf.len() > 0 {
        (a.spf[0].domain.clone(), a.spf[0].result)
    } else {
        (text_of("*undef*"), SPFResultType::NoResult)
    };
    let pe = &rec.row.policy_evaluated;
    let reason = match &pe.reason {
        Some(x) => x.comment.clone(),
        None => text_of("-"),
    };
    Ok(
        ItemRow {
            report_id: report_id.clone(),
            ip: rec.row.source_ip.clone(),
            count: rec.row.count as i64,
            disposition: pe.disposition,
            dkim_domain,
            dkim_result,
            policy_dkim: pe.dkim,
            spf_domain,
            spf_result,
            policy_spf: pe.spf,
            reason,
            header_from: rec.identifiers.header_from.clone(),
        },
    )
}

/// The item rows of a report in document order; fails with `Overflow` exactly
/// when some record's count does not fit the storage width.
pub fn normalize_items(f: &Feedback) -> (r: Result<Vec<ItemRow>, ParseError>)
    ensures
        r is Ok <==> forall|i: int| 0 <= i < f.record@.len() ==> count_fits(#[trigger] f.record@[i]),
        r is Err ==> r->Err_0@ == ParseErrorView::Overflow(Field::Count),
        r is Ok ==> items_of(r->Ok_0@, *f),
{
    let mut items: Vec<ItemRow> = Vec::new();
    let mut i: usize = 0;
    while i < f.record.len()
        invariant
            i <= f.record@.len(),
            items@.len() == i,
            forall|j: int| 0 <= j < i ==> count_fits(#[trigger] f.record@[j]),
            forall|j: int|
                0 <= j < i ==> item_of(
                    #[trigger] items@[j],
                    f.record@[j],
                    f.report_metadata.report_id@,
                ),
        decreases f.record@.len() - i,
    {
        let it = normalize_record(&f.record[i], &f.report_metadata.report_id)?;
        items.push(it);
        i = i + 1;
    }
    Ok(items)
}

/// The header row of a report, with its two dates already rendered.
pub fn report_row(f: &Feedback, begin_date: String, end_date: String) -> (r: ReportRow)
    ensures
        header_of(r, *f, begin_date@, end_date@),
{
    let m = &f.report_metadata;
    let p = &f.policy_published;
    ReportRow {
        begin_date,
        end_date,
        domain: p.domain.clone(),
        org_name: m.org_name.clone(),
        report_id: m.report_id.clone(),
        email: m.email.clone(),
        policy_adkim: p.adkim.clone(),
        policy_aspf: p.aspf.clone(),
        policy_p: p.p.clone(),
        policy_sp: p.sp.clone(),
        policy_pct: p.pct as i64,
    }
}

/// A decoded report as rows. Fails with `InvalidTimestamp` exactly where a date
/// cannot be rendered, the beginning checked first; else with `Overflow` exactly
/// when some count does not fit the storage width.
pub fn normalize(f: &Feedback) -> (r: Result<NormalizedFeedback, ParseError>)
    ensures
        r is Ok ==> header_of(
            r->Ok_0.header,
            *f,
            civil_text(f.report_metadata.date_range.begin as int),
            civil_text(f.report_metadata.date_range.end as int),
        ) && items_of(r->Ok_0.items@, *f),
        !utc_in_range(f.report_metadata.date_range.begin as int) ==> r is Err && r->Err_0@
            == ParseErrorView::InvalidTimestamp(Field::Begin),
        utc_in_range(f.report_metadata.date_range.begin as int) && !utc_in_range(
            f.report_metadata.date_range.end as int,
        ) ==> r is Err && r->Err_0@ == ParseErrorView::InvalidTimestamp(Field::End),
        utc_in_range(f.report_metadata.date_range.begin as int) && utc_in_range(
            f.report_metadata.date_range.end as int,
        ) ==> (r is Ok <==> forall|i: int|
            0 <= i < f.record@.len() ==> count_fits(#[trigger] f.record@[i])) && (r is Err
            ==> r->Err_0@ == ParseErrorView::Overflow(Field::Count)),
{
    let begin_date = match epoch_to_utc(f.report_metadata.date_range.begin) {
        Some(s) => s,
        None => {
            return Err(ParseError::InvalidTimestamp(Field::Begin));
        },
    };
    let end_date = match epoch_to_utc(f.report_metadata.date_range.end) {
        Some(s) => s,
        None => {
            return Err(ParseError::InvalidTimestamp(Field::End));
        },
    };
    let items = normalize_items(f)?;
    let header = report_row(f, begin_date, end_date);
    Ok(NormalizedFeedback { header, items })
}

} // verus!
