//! The kinds of failure that an item, or the whole run, can meet.

use vstd::prelude::*;

verus! {

/// What went wrong.
#[derive(Clone, Copy, Debug, PartialEq, Eq, Structural)]
pub enum ErrorKind {
    /// The expected structure is absent from a page or a script.
    ProtocolMismatch,
    /// The sandboxed interpreter failed to run the rewritten script.
    DeobfuscationFailure,
    /// The resolver's landing page, or its token field, is missing.
    ResolverUnavailable,
    /// The decoded script holds no full-quality video address.
    NoVideoUrlFound,
    /// The item is not yet present in the site's state blob.
    TransientInfoMissing,
    /// The remux tool ended with a non-zero status.
    RemuxFailure,
    /// A network or filesystem operation failed.
    Io,
}

impl ErrorKind {
    /// Only a transiently missing item is worth another attempt.
    pub open spec fn retryable(self) -> bool {
        self is TransientInfoMissing
    }

    /// Only the failure to obtain the session ends the whole run.
    pub open spec fn ends_batch(self) -> bool {
        self is ResolverUnavailable
    }

    pub fn is_retryable(&self) -> (r: bool)
        ensures
            r == self.retryable(),
    {
        match self {
            ErrorKind::TransientInfoMissing => true,
            _ => false,
        }
    }

    pub fn is_fatal_to_batch(&self) -> (r: bool)
        ensures
            r == self.ends_batch(),
    {
        match self {
            ErrorKind::ResolverUnavailable => true,
            _ => false,
        }
    }

    /// The name of the kind, for diagnostics.
    pub fn name(&self) -> (r: &'static str)
        ensures
            r@ == self.name_spec(),
    {
        match self {
            ErrorKind::ProtocolMismatch => "ProtocolMismatch",
            ErrorKind::DeobfuscationFailure => "DeobfuscationFailure",
            ErrorKind::ResolverUnavailable => "ResolverUnavailable",
            ErrorKind::NoVideoUrlFound => "NoVideoUrlFound",
            ErrorKind::TransientInfoMissing => "TransientInfoMissing",
            ErrorKind::RemuxFailure => "RemuxFailure",
            ErrorKind::Io => "Io",
        }
    }

    pub open spec fn name_spec(self) -> Seq<char> {
        match self {
            ErrorKind::ProtocolMismatch => "ProtocolMismatch"@,
            ErrorKind::DeobfuscationFailure => "DeobfuscationFailure"@,
            ErrorKind::ResolverUnavailable => "ResolverUnavailable"@,
            ErrorKind::NoVideoUrlFound => "NoVideoUrlFound"@,
            ErrorKind::TransientInfoMissing => "TransientInfoMissing"@,
            ErrorKind::RemuxFailure => "RemuxFailure"@,
            ErrorKind::Io => "Io"@,
        }
    }
}

} // verus!
