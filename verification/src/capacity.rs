//! Records produced by a disk-capacity scan.

use std::time::Duration;
use vstd::prelude::*;

verus! {

/// A reference to one drive of one endpoint.
#[derive(Debug, Clone, PartialEq, Eq, Hash)]
pub struct CapacityDiskRef {
    pub endpoint: String,
    pub drive_path: String,
}

/// The raw outcome of scanning one drive.
#[derive(Debug, Clone, Copy, PartialEq, Eq)]
pub struct CapacityScanResult {
    pub used_bytes: u64,
    pub file_count: usize,
    pub sampled_count: usize,
    pub is_estimated: bool,
    pub scan_duration: Duration,
    pub had_partial_errors: bool,
}

impl CapacityScanResult {
    /// The same result, marked as having met errors on part of the drive.
    pub fn with_partial_errors(self) -> (res: Self)
        ensures
            res == (CapacityScanResult { had_partial_errors: true, ..self }),
            res.had_partial_errors,
            res.used_bytes == self.used_bytes,
            res.file_count == self.file_count,
            res.sampled_count == self.sampled_count,
            res.is_estimated == self.is_estimated,
            res.scan_duration == self.scan_duration,
    {
        let mut res = self;
        res.had_partial_errors = true;
        res
    }
}

/// The zero-length duration.
///
/// Calls `std::time::Duration::new(0, 0)`. Nothing is claimed of the value:
/// `Duration` is opaque to the verifier.
#[verifier::external_body]
fn zero_duration() -> Duration {
    Duration::new(0, 0)
}

impl Default for CapacityScanResult {
    /// An empty scan: nothing used, nothing counted, exact, error-free.
    fn default() -> (res: Self)
        ensures
            res.used_bytes == 0,
            res.file_count == 0,
            res.sampled_count == 0,
            !res.is_estimated,
            !res.had_partial_errors,
    {
        CapacityScanResult {
            used_bytes: 0,
            file_count: 0,
            sampled_count: 0,
            is_estimated: false,
            scan_duration: zero_duration(),
            had_partial_errors: false,
        }
    }
}

/// Public summary of a scan, for tooling outside the scanner.
#[derive(Debug, Clone, Copy, PartialEq, Eq)]
pub struct CapacityScanSummary {
    pub used_bytes: u64,
    pub file_count: usize,
    pub sampled_count: usize,
    pub is_estimated: bool,
    pub had_partial_errors: bool,
    pub scan_duration: Duration,
}

impl From<CapacityScanResult> for CapacityScanSummary {
    /// Carries every field of the scan over unchanged.
    fn from(scan: CapacityScanResult) -> (res: Self)
        ensures
            res.used_bytes == scan.used_bytes,
            res.file_count == scan.file_count,
            res.sampled_count == scan.sampled_count,
            res.is_estimated == scan.is_estimated,
            res.had_partial_errors == scan.had_partial_errors,
            res.scan_duration == scan.scan_duration,
    {
        CapacityScanSummary {
            used_bytes: scan.used_bytes,
            file_count: scan.file_count,
            sampled_count: scan.sampled_count,
            is_estimated: scan.is_estimated,
            had_partial_errors: scan.had_partial_errors,
            scan_duration: scan.scan_duration,
        }
    }
}

impl vstd::std_specs::convert::FromSpecImpl<CapacityScanResult> for CapacityScanSummary {
    open spec fn obeys_from_spec() -> bool {
        true
    }

    open spec fn from_spec(scan: CapacityScanResult) -> Self {
        CapacityScanSummary {
            used_bytes: scan.used_bytes,
            file_count: scan.file_count,
            sampled_count: scan.sampled_count,
            is_estimated: scan.is_estimated,
            had_partial_errors: scan.had_partial_errors,
            scan_duration: scan.scan_duration,
        }
    }
}

/// A summary reports each figure of the scan it was made from under the same
/// name: the bytes and files counted, the files sampled, whether the figures
/// are estimated, whether errors were met, and how long the scan took.
pub proof fn lemma_summary_reports_the_scan(scan: CapacityScanResult)
    ensures
        ({
            let summary = <CapacityScanSummary as vstd::std_specs::convert::FromSpec<
                CapacityScanResult,
            >>::from_spec(scan);
            &&& summary.used_bytes == scan.used_bytes
            &&& summary.file_count == scan.file_count
            &&& summary.sampled_count == scan.sampled_count
            &&& summary.is_estimated == scan.is_estimated
            &&& summary.had_partial_errors == scan.had_partial_errors
            &&& summary.scan_duration == scan.scan_duration
        }),
{
}

} // verus!
