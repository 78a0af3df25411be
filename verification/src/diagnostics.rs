//! The diagnostic sink: severity-tagged textual messages the backend emits
//! during any operation. Severity is preserved and logged but never by
//! itself aborts an operation — only an operation's own return value
//! decides success or failure.

use vstd::prelude::*;

verus! {

/// The severity the backend attached to a diagnostic.
#[derive(Clone, Copy, Debug, PartialEq, Eq, Structural)]
pub enum Severity {
    Error,
    Warning,
    Remark,
    Note,
}

/// One severity-tagged message. Ephemeral: produced and consumed within a
/// single backend call, never persisted.
pub struct Diagnostic {
    pub severity: Severity,
    pub message: String,
}

impl Severity {
    /// The label a log line carries for this severity.
    pub fn label(self) -> (r: &'static str)
        ensures
            self is Error ==> r@ == "error"@,
            self is Warning ==> r@ == "warning"@,
            self is Remark ==> r@ == "remark"@,
            self is Note ==> r@ == "note"@,
    {
        match self {
            Severity::Error => "error",
            Severity::Warning => "warning",
            Severity::Remark => "remark",
            Severity::Note => "note",
        }
    }
}

/// The capability a context's registered diagnostic consumer provides:
/// anything able to receive each severity-tagged message, synchronously,
/// for the lifetime of the context it is bound to.
pub trait DiagnosticHandler {
    fn handle_diagnostic(&mut self, diagnostic: Diagnostic);
}

} // verus!
