use vstd::prelude::*;

use crate::model::severity::Severity;

verus! {

/// How the markers beneath a value are styled.
#[derive(Clone, Copy, Debug, PartialEq, Eq, Structural)]
pub enum HighlightLevel {
    /// The value is an error.
    Error,
    /// The value deserves a warning.
    Warning,
    /// The value is pointed out as a hint.
    Info,
}

impl HighlightLevel {
    /// The level at which the offending value of a diagnostic of the given
    /// severity is marked.
    pub open spec fn of_severity(severity: Severity) -> HighlightLevel {
        match severity {
            Severity::Deny => HighlightLevel::Error,
            Severity::Warning => HighlightLevel::Warning,
        }
    }
}

impl From<Severity> for HighlightLevel {
    fn from(severity: Severity) -> (level: HighlightLevel) {
        match severity {
            Severity::Deny => HighlightLevel::Error,
            Severity::Warning => HighlightLevel::Warning,
        }
    }
}

impl vstd::std_specs::convert::FromSpecImpl<Severity> for HighlightLevel {
    open spec fn obeys_from_spec() -> bool {
        true
    }

    open spec fn from_spec(severity: Severity) -> HighlightLevel {
        HighlightLevel::of_severity(severity)
    }
}

} // verus!
