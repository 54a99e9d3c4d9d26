//! Hardware test report fields that carry no measured value.

use vstd::prelude::*;

verus! {

/// Metadata of a hardware test report.
#[derive(Debug, Clone)]
pub struct ReportMeta {
    pub timestamp: String,
    pub harness_version: String,
    pub vehicle_id: String,
    pub transport: String,
    pub port: Option<String>,
    pub adapter_chipset: Option<String>,
    pub adapter_firmware: Option<String>,
    pub protocol_detected: Option<String>,
    pub raw_capture_path: Option<String>,
}

/// Outcome of a test group.
#[derive(Debug, Clone, Copy, PartialEq, Eq, Structural)]
pub enum TestStatus {
    Pass,
    Fail,
    Skipped,
}

/// Number of groups with a status.
pub open spec fn count_status(s: Seq<TestStatus>, t: TestStatus) -> nat
    decreases s.len(),
{
    if s.len() == 0 {
        0
    } else {
        count_status(s.drop_last(), t) + if s.last() == t { 1nat } else { 0nat }
    }
}

/// The report summary counts: total, passed, failed and skipped groups.
pub fn summarize_statuses(statuses: &[TestStatus]) -> (r: (u32, u32, u32, u32))
    requires
        statuses@.len() <= u32::MAX,
    ensures
        r.0 == statuses@.len(),
        r.1 == count_status(statuses@, TestStatus::Pass),
        r.2 == count_status(statuses@, TestStatus::Fail),
        r.3 == count_status(statuses@, TestStatus::Skipped),
{
    let mut total: u32 = 0;
    let mut passed: u32 = 0;
    let mut failed: u32 = 0;
    let mut skipped: u32 = 0;
    let mut i: usize = 0;
    while i < statuses.len()
        invariant
            i <= statuses.len(),
            statuses@.len() <= u32::MAX,
            total == i,
            passed == count_status(statuses@.take(i as int), TestStatus::Pass),
            failed == count_status(statuses@.take(i as int), TestStatus::Fail),
            skipped == count_status(statuses@.take(i as int), TestStatus::Skipped),
            passed + failed + skipped == i,
        decreases statuses.len() - i,
    {
        proof {
            assert(statuses@.take(i + 1).drop_last() =~= statuses@.take(i as int));
            assert(statuses@.take(i + 1).last() == statuses@[i as int]);
        }
        total = total + 1;
        match statuses[i] {
            TestStatus::Pass => passed = passed + 1,
            TestStatus::Fail => failed = failed + 1,
            TestStatus::Skipped => skipped = skipped + 1,
        }
        i = i + 1;
    }
    proof {
        assert(statuses@.take(statuses.len() as int) =~= statuses@);
    }
    (total, passed, failed, skipped)
}

} // verus!
