use vstd::prelude::*;

verus! {

/// The failures a request can end in. Every per-request failure is reported
/// to the caller as one of these; none terminates the server process.
#[derive(Debug)]
pub enum BackendError {
    /// The document reference does not use the local-file scheme.
    InvalidParams(String),
    /// The command name is not one the server recognizes.
    InvalidRequest,
    /// The document could not be read; carries the reason.
    IoError(String),
    /// The fixed structural pattern failed to compile against the grammar;
    /// carries the compiler's message. A configuration defect, caught at
    /// first use.
    PatternError(String),
    /// A capture's byte span does not align to character boundaries of the
    /// source text. Indicates a grammar/query mismatch; the whole request
    /// is aborted.
    DecodeError(String),
    /// The engine failed in a way the taxonomy above does not name: the
    /// parser refused the grammar or produced no tree, or a match lacked
    /// its capture slots.
    InternalError(String),
}

} // verus!
