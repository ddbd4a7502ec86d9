//! Errors of the compliance layer.

use vstd::prelude::*;

use crate::text::push_str;

verus! {

/// Errors raised by audit and compliance checks.
#[derive(Debug, Clone, PartialEq)]
pub enum ComplianceError {
    /// Invalid trade data.
    InvalidTradeData(String),
    /// The audit log failed its integrity check.
    AuditIntegrityFailed,
    /// Storage failed.
    StorageError(String),
    /// Serialisation failed.
    SerializationError(String),
    /// A report could not be produced.
    ReportError(String),
    /// A regulator format could not be produced.
    RegulatorFormatError(String),
    /// Invalid configuration.
    ConfigError(String),
}

/// Text of a compliance error.
pub open spec fn compliance_message(e: ComplianceError) -> Seq<char> {
    match e {
        ComplianceError::InvalidTradeData(s) => "Invalid trade data: "@ + s@,
        ComplianceError::AuditIntegrityFailed => "Audit log integrity check failed"@,
        ComplianceError::StorageError(s) => "Storage error: "@ + s@,
        ComplianceError::SerializationError(s) => "Serialization error: "@ + s@,
        ComplianceError::ReportError(s) => "Report generation error: "@ + s@,
        ComplianceError::RegulatorFormatError(s) => "Regulator format error: "@ + s@,
        ComplianceError::ConfigError(s) => "Configuration error: "@ + s@,
    }
}

impl ComplianceError {
    /// Text of the error.
    pub fn message(&self) -> (r: String)
        ensures
            r@ == compliance_message(*self),
    {
        let mut out = String::new();
        match self {
            ComplianceError::InvalidTradeData(s) => {
                push_str(&mut out, "Invalid trade data: ");
                push_str(&mut out, s.as_str());
            },
            ComplianceError::AuditIntegrityFailed => {
                push_str(&mut out, "Audit log integrity check failed");
            },
            ComplianceError::StorageError(s) => {
                push_str(&mut out, "Storage error: ");
                push_str(&mut out, s.as_str());
            },
            ComplianceError::SerializationError(s) => {
                push_str(&mut out, "Serialization error: ");
                push_str(&mut out, s.as_str());
            },
            ComplianceError::ReportError(s) => {
                push_str(&mut out, "Report generation error: ");
                push_str(&mut out, s.as_str());
            },
            ComplianceError::RegulatorFormatError(s) => {
                push_str(&mut out, "Regulator format error: ");
                push_str(&mut out, s.as_str());
            },
            ComplianceError::ConfigError(s) => {
                push_str(&mut out, "Configuration error: ");
                push_str(&mut out, s.as_str());
            },
        }
        out
    }
}

/// Result type of the compliance layer.
pub type ComplianceResult<T> = Result<T, ComplianceError>;

} // verus!
