use vstd::prelude::*;

verus! {

/// How serious a diagnostic is.
#[derive(Clone, Copy, Debug, PartialEq, Eq, Structural)]
pub enum Severity {
    /// An error: the user has to correct the source before going on.
    Deny,
    /// A warning: things work, but the source should be changed.
    Warning,
}

} // verus!
