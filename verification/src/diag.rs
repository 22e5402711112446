//! Diagnostic records handed back to the front end for developer-facing
//! reporting.

use vstd::prelude::*;

verus! {

/// Whether a diagnostic abandons generation for the enclosing type.
#[derive(Debug, PartialEq, Eq, Clone, Copy)]
pub enum Severity {
    /// Generation for the type is abandoned; no artifact is emitted.
    Blocking,
    /// Generation continues; the offending construct is treated as absent.
    NonBlocking,
}

/// One diagnostic: a severity, a human-readable message, and the source
/// location the front end recorded for the offending construct.
#[derive(Debug, PartialEq, Eq, Clone)]
pub struct Diagnostic {
    pub severity: Severity,
    pub message: String,
    pub span: usize,
}

impl Diagnostic {
    pub open spec fn is_blocking(self) -> bool {
        self.severity == Severity::Blocking
    }
}

} // verus!
