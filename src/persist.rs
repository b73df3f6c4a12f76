//! The order in which one report is written: its header row first, then each item
//! row in document order, then the commit. A failure names how far the write got.
use vstd::prelude::*;

verus! {

/// The next write of a report.
#[derive(Clone, Copy, Debug, PartialEq, Eq, Structural)]
pub enum WriteStep {
    Header,
    Item(usize),
    Commit,
}

/// How far the write of one report has got.
#[derive(Clone, Copy, Debug, PartialEq, Eq, Structural)]
pub struct WriteProgress {
    pub items_total: usize,
    pub header_written: bool,
    pub items_written: usize,
}

/// A failed write of one report, with the state it left behind.
#[derive(Clone, Debug, PartialEq, Eq)]
pub struct StorageError {
    pub report_id: String,
    pub header_written: bool,
    pub items_written: usize,
    pub items_total: usize,
}

impl WriteProgress {
    /// No item is written before the header, nor more items than the report has.
    pub open spec fn wf(&self) -> bool {
        &&& self.items_written <= self.items_total
        &&& !self.header_written ==> self.items_written == 0
    }

    /// Nothing written yet of a report with `items_total` items.
    pub fn new(items_total: usize) -> (r: WriteProgress)
        ensures
            r.wf(),
            r == (WriteProgress { items_total, header_written: false, items_written: 0 }),
    {
        WriteProgress { items_total, header_written: false, items_written: 0 }
    }

    /// The header first, then the items in order, then the commit.
    pub fn next_step(&self) -> (r: WriteStep)
        requires
            self.wf(),
        ensures
            !self.header_written ==> r == WriteStep::Header,
            self.header_written && self.items_written < self.items_total ==> r == WriteStep::Item(
                self.items_written,
            ),
            self.header_written && self.items_written == self.items_total ==> r
                == WriteStep::Commit,
    {
        if !self.header_written {
            WriteStep::Header
        } else if self.items_written < self.items_total {
            WriteStep::Item(self.items_written)
        } else {
            WriteStep::Commit
        }
    }

    /// Records that the step `next_step` named has been written.
    pub fn step_done(&mut self)
        requires
            old(self).wf(),
            !(old(self).header_written && old(self).items_written == old(self).items_total),
        ensures
            final(self).wf(),
            final(self).items_total == old(self).items_total,
            final(self).header_written,
            !old(self).header_written ==> final(self).items_written == 0,
            old(self).header_written ==> final(self).items_written == old(self).items_written
                + 1,
    {
        if !self.header_written {
            self.header_written = true;
        } else {
            self.items_written = self.items_written + 1;
        }
    }

    /// The error that a failure of the next step reports for report `report_id`.
    pub fn failure(&self, report_id: &String) -> (r: StorageError)
        ensures
            r.report_id@ == report_id@,
            r.header_written == self.header_written,
            r.items_written == self.items_written,
            r.items_total == self.items_total,
    {
        StorageError {
            report_id: report_id.clone(),
            header_written: self.header_written,
            items_written: self.items_written,
            items_total: self.items_total,
        }
    }
}

/// The kinds of failure one input can meet.
#[derive(Clone, Copy, Debug, PartialEq, Eq, Structural)]
pub enum FailureKind {
    /// A container or one of its entries cannot be read.
    Archive,
    /// A document does not decode or cannot be normalized.
    Parse,
    /// A report could not be written.
    Storage,
}

/// Whether the run goes on after a failure: archive and decoding failures skip
/// their input; a storage failure ends the run unless the caller chose to skip it.
pub fn run_continues(kind: FailureKind, skip_storage_failures: bool) -> (r: bool)
    ensures
        r == (kind != FailureKind::Storage || skip_storage_failures),
{
    match kind {
        FailureKind::Storage => skip_storage_failures,
        _ => true,
    }
}

} // verus!
