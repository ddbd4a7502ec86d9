//! Compliance: a tamper-evident audit log and the kinds of reports and filings.

pub mod audit;
pub mod error;
pub mod formats;

pub use audit::{AuditEvent, AuditEventType, AuditLog};
pub use error::{ComplianceError, ComplianceResult};
pub use formats::{check_report_month, RegulatorFormat, ReportFormat, SubmissionType};
