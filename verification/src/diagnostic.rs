//! Failures of generation, and their report.

use vstd::prelude::*;
use vstd::string::*;

verus! {

/// Why no conversion function can be generated for a declaration.
#[derive(Clone, Debug, PartialEq, Eq)]
pub enum DiagnosticError {
    /// The declaration called `name` is a single-shape record.
    NotAUnion { name: String },
}

/// The mathematical value of a [`DiagnosticError`].
pub enum DiagnosticModel {
    NotAUnion { name: Seq<char> },
}

impl View for DiagnosticError {
    type V = DiagnosticModel;

    open spec fn view(&self) -> DiagnosticModel {
        match self {
            DiagnosticError::NotAUnion { name } => DiagnosticModel::NotAUnion { name: name@ },
        }
    }
}

/// What a diagnostic expects of a declaration.
pub const EXPECTATION: &'static str = "expected a tagged union of failure cases";

/// The message of a diagnostic: it states the expectation and names the
/// declaration that does not meet it.
pub open spec fn message_text(error: DiagnosticModel) -> Seq<char> {
    match error {
        DiagnosticModel::NotAUnion { name } => EXPECTATION@ + ", but `"@ + name
            + "` is a single-shape record"@,
    }
}

impl DiagnosticError {
    /// The human-readable message of the diagnostic.
    pub fn message(&self) -> (message: String)
        ensures
            message@ == message_text(self@),
    {
        match self {
            DiagnosticError::NotAUnion { name } => {
                let mut message = String::from_str(EXPECTATION);
                message.append(", but `");
                message.append(name.as_str());
                message.append("` is a single-shape record");
                message
            },
        }
    }
}

/// A build-time error to be shown at the place where generation was asked
/// for. It stands in place of generated code: a report carries none.
#[derive(Clone, Debug, PartialEq, Eq)]
pub struct ErrorReport {
    /// The name of the declaration the report is about.
    pub subject: String,
    pub message: String,
}

/// The mathematical value of an [`ErrorReport`].
pub struct ReportModel {
    pub subject: Seq<char>,
    pub message: Seq<char>,
}

impl View for ErrorReport {
    type V = ReportModel;

    open spec fn view(&self) -> ReportModel {
        ReportModel { subject: self.subject@, message: self.message@ }
    }
}

/// The report of a diagnostic.
pub open spec fn report_of(error: DiagnosticModel) -> ReportModel {
    match error {
        DiagnosticModel::NotAUnion { name } => ReportModel {
            subject: name,
            message: message_text(error),
        },
    }
}

/// Turns a diagnostic into its report. Every diagnostic has one.
pub fn report(error: &DiagnosticError) -> (report: ErrorReport)
    ensures
        report@ == report_of(error@),
{
    match error {
        DiagnosticError::NotAUnion { name } => ErrorReport {
            subject: name.clone(),
            message: error.message(),
        },
    }
}

} // verus!
