//! The failures a compile can report. Every fatal failure names the entity
//! and the field a document author has to fix.

use vstd::prelude::*;
use vstd::string::StringExecFns;

verus! {

/// A construction-time failure of the configuration compiler.
///
/// `MissingSection` names the entity whose definition is incomplete and the
/// required section that was not found. `UnmatchedQuote` carries the first
/// document line whose double quotes do not pair up. `EmptySecret` reports
/// that the side-channel secret handed to the merge-request handler was empty.
#[derive(Debug, PartialEq, Eq)]
pub enum CiError {
    MissingSection { entity: String, section: String },
    UnmatchedQuote { line: String },
    EmptySecret,
}

/// The mathematical value of a `CiError`.
pub enum CiErrorView {
    MissingSection { entity: Seq<char>, section: Seq<char> },
    UnmatchedQuote { line: Seq<char> },
    EmptySecret,
}

impl View for CiError {
    type V = CiErrorView;

    open spec fn view(&self) -> CiErrorView {
        match self {
            CiError::MissingSection { entity, section } => CiErrorView::MissingSection {
                entity: entity@,
                section: section@,
            },
            CiError::UnmatchedQuote { line } => CiErrorView::UnmatchedQuote { line: line@ },
            CiError::EmptySecret => CiErrorView::EmptySecret,
        }
    }
}

impl CiError {
    /// A human-readable description of the failure, naming the entity and
    /// field at fault.
    pub fn message(&self) -> (m: String)
        ensures
            m@ == match self@ {
                CiErrorView::MissingSection { entity, section } => "the '"@ + section
                    + "' section is not specified for "@ + entity,
                CiErrorView::UnmatchedQuote { line } => "unmatched quotes in the line '"@ + line
                    + "'"@,
                CiErrorView::EmptySecret =>
                    "the authentication token for the version control system is empty"@,
            },
    {
        match self {
            CiError::MissingSection { entity, section } => {
                let mut m = String::new();
                m.append("the '");
                m.append(section.as_str());
                m.append("' section is not specified for ");
                m.append(entity.as_str());
                m
            },
            CiError::UnmatchedQuote { line } => {
                let mut m = String::new();
                m.append("unmatched quotes in the line '");
                m.append(line.as_str());
                m.append("'");
                m
            },
            CiError::EmptySecret => {
                let mut m = String::new();
                m.append("the authentication token for the version control system is empty");
                m
            },
        }
    }
}

} // verus!
