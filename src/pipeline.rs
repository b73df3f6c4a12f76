//! One report from its arriving form to its rows, and what holds across the steps.
use vstd::prelude::*;
use crate::decode::{decode, feedback_decoded, record_decoded, feedback_fault, i64_value, outcome};
use crate::model::{Field, ParseError, ParseErrorView, RawFeedback};
use crate::normalize::{
    civil_text, count_fits, header_of, item_of, items_of, normalize, utc_in_range,
    NormalizedFeedback,
};
use crate::text::unsigned_text;
use crate::vocab::DKIMResultType;

verus! {

/// Whether a report's dates can be rendered and its counts fit the storage width,
/// read from the report as it arrives.
pub open spec fn storable(raw: RawFeedback) -> bool {
    let d = raw.report_metadata->Some_0.date_range->Some_0;
    &&& utc_in_range(i64_value(d.begin->Some_0@)->0)
    &&& utc_in_range(i64_value(d.end->Some_0@)->0)
    &&& forall|i: int|
        0 <= i < raw.record@.len() ==> unsigned_text(
            (#[trigger] raw.record@[i]).row->Some_0.count->Some_0@,
        )->0 <= i64::MAX
}

/// Decodes a report and turns it into rows. Decoding faults come first, in
/// document order. A report without them succeeds exactly when it is storable;
/// otherwise it fails on a date that cannot be rendered or a count too wide.
pub fn process_report(raw: &RawFeedback) -> (r: Result<NormalizedFeedback, ParseError>)
    ensures
        feedback_fault(*raw) is Some ==> r is Err && r->Err_0@ == feedback_fault(*raw)->0,
        feedback_fault(*raw) is None ==> (r is Ok <==> storable(*raw)),
        feedback_fault(*raw) is None && r is Err ==> r->Err_0@ == ParseErrorView::InvalidTimestamp(
            Field::Begin,
        ) || r->Err_0@ == ParseErrorView::InvalidTimestamp(Field::End) || r->Err_0@
            == ParseErrorView::Overflow(Field::Count),
        r is Ok ==> exists|f| #[trigger]
            feedback_decoded(f, *raw) && header_of(
                r->Ok_0.header,
                f,
                civil_text(f.report_metadata.date_range.begin as int),
                civil_text(f.report_metadata.date_range.end as int),
            ) && items_of(r->Ok_0.items@, f),
{
    let f = decode(raw)?;
    proof {
        assert((forall|i: int| 0 <= i < f.record@.len() ==> count_fits(#[trigger] f.record@[i]))
            <==> (forall|i: int|
            0 <= i < raw.record@.len() ==> unsigned_text(
                (#[trigger] raw.record@[i]).row->Some_0.count->Some_0@,
            )->0 <= i64::MAX)) by {
            assert forall|i: int| 0 <= i < f.record@.len() implies count_fits(
                #[trigger] f.record@[i],
            ) == (unsigned_text(raw.record@[i].row->Some_0.count->Some_0@)->0
                <= i64::MAX) by {}
            if forall|i: int| 0 <= i < f.record@.len() ==> count_fits(#[trigger] f.record@[i]) {
                assert forall|i: int| 0 <= i < raw.record@.len() implies unsigned_text(
                    (#[trigger] raw.record@[i]).row->Some_0.count->Some_0@,
                )->0 <= i64::MAX by {
                    assert(count_fits(f.record@[i]));
                }
            }
            if forall|i: int|
                0 <= i < raw.record@.len() ==> unsigned_text(
                    (#[trigger] raw.record@[i]).row->Some_0.count->Some_0@,
                )->0 <= i64::MAX {
                assert forall|i: int| 0 <= i < f.record@.len() implies count_fits(
                    #[trigger] f.record@[i],
                ) by {
                    assert(unsigned_text(raw.record@[i].row->Some_0.count->Some_0@)->0
                        <= i64::MAX);
                }
            }
        }
    }
    let n = normalize(&f)?;
    Ok(n)
}

/// A published percentage reaches the stored header unchanged.
pub proof fn lemma_pct_stored(raw: RawFeedback, r: NormalizedFeedback)
    requires
        outcome(Ok::<NormalizedFeedback, ParseError>(r), feedback_fault(raw)),
        exists|f| #[trigger]
            feedback_decoded(f, raw) && header_of(
                r.header,
                f,
                civil_text(f.report_metadata.date_range.begin as int),
                civil_text(f.report_metadata.date_range.end as int),
            ),
    ensures
        r.header.policy_pct == unsigned_text(raw.policy_published->Some_0.pct->Some_0@)->0,
        0 <= r.header.policy_pct <= 100,
{
    let f = choose|f| #[trigger]
        feedback_decoded(f, raw) && header_of(
            r.header,
            f,
            civil_text(f.report_metadata.date_range.begin as int),
            civil_text(f.report_metadata.date_range.end as int),
        );
}

/// In the rows of a report, a record that carries no DKIM result has the item row
/// at its own position, with the undefined domain and no result.
pub proof fn lemma_empty_dkim_row(raw: RawFeedback, r: NormalizedFeedback, i: int)
    requires
        exists|f| #[trigger]
            feedback_decoded(f, raw) && items_of(r.items@, f),
        0 <= i < raw.record@.len(),
        raw.record@[i].auth_results->Some_0.dkim@.len() == 0,
    ensures
        i < r.items@.len(),
        r.items@[i].dkim_domain@ == "*undef*"@,
        r.items@[i].dkim_result == DKIMResultType::NoResult,
{
    let f = choose|f| #[trigger] feedback_decoded(f, raw) && items_of(r.items@, f);
    assert(record_decoded(f.record@[i], raw.record@[i]));
    assert(item_of(r.items@[i], f.record@[i], f.report_metadata.report_id@));
}

} // verus!
