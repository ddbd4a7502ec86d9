//! Kinds of reports and regulatory filings.

use vstd::prelude::*;

use crate::compliance::error::{ComplianceError, ComplianceResult};

verus! {

/// Export format of a report.
#[allow(clippy::upper_case_acronyms)]
#[derive(Debug, Clone, Copy, PartialEq, Eq, Structural)]
pub enum ReportFormat {
    /// JSON.
    JSON,
    /// CSV.
    CSV,
}

/// Output format of a regulatory filing.
#[allow(clippy::upper_case_acronyms)]
#[derive(Debug, Clone, Copy, PartialEq, Eq, Structural)]
pub enum RegulatorFormat {
    /// JSON.
    JSON,
    /// CSV.
    CSV,
}

/// How often, or on what occasion, a filing is made.
#[derive(Debug, Clone, Copy, PartialEq, Eq, Structural)]
pub enum SubmissionType {
    /// Daily.
    Daily,
    /// Weekly.
    Weekly,
    /// Monthly.
    Monthly,
    /// Quarterly.
    Quarterly,
    /// Yearly.
    Annual,
    /// Triggered by an event.
    EventDriven,
}

/// Checks the month of a monthly report: it must be 1 to 12.
pub fn check_report_month(month: u32) -> (r: ComplianceResult<()>)
    ensures
        r is Ok <==> 1 <= month <= 12,
        r matches Err(e) ==> (e matches ComplianceError::ReportError(m) && m@ == "月份必须在 1-12 之间"@),
{
    if 1 <= month && month <= 12 {
        Ok(())
    } else {
        Err(ComplianceError::ReportError("月份必须在 1-12 之间".to_owned()))
    }
}

} // verus!
