//! Context-owned identifiers and diagnostics.
//!
//! The context handle itself, the attribute and diagnostic handles, and
//! every call that acquires them live in the unverified shell; what those
//! calls hand back — the metadata kind identifier and the diagnostic
//! severity — are plain values and are modelled here.

use vstd::prelude::*;

verus! {

/// Wrapper for `MetadataKindId`: the numeric identifier the wrapped library
/// assigns to a metadata kind name within a context.
#[derive(Debug, Copy, Clone, PartialEq, Eq, Structural)]
pub struct MetadataKindId(pub u32);

impl MetadataKindId {
    /// Wrap a raw metadata kind identifier handed back by the lookup call.
    pub fn new(id: u32) -> (r: Self)
        ensures
            r.0 == id,
    {
        Self(id)
    }

    /// The wrapped numeric identifier.
    pub fn value(self) -> (r: u32)
        ensures
            r == self.0,
    {
        self.0
    }
}

/// Severity of a diagnostic the wrapped library reports through a context's
/// diagnostic handler.
#[derive(Debug, Copy, Clone, PartialEq, Eq, Structural)]
pub enum DiagnosticSeverity {
    /// The diagnostic reports an error.
    Error,
    /// The diagnostic reports a warning.
    Warning,
    /// The diagnostic reports a remark.
    Remark,
    /// The diagnostic reports a note.
    Note,
}

impl DiagnosticSeverity {
    /// The numeric code of this severity on the C side of the wrapped
    /// library.
    pub open spec fn spec_code(self) -> u32 {
        match self {
            DiagnosticSeverity::Error => 0,
            DiagnosticSeverity::Warning => 1,
            DiagnosticSeverity::Remark => 2,
            DiagnosticSeverity::Note => 3,
        }
    }

    /// The severity a numeric C code stands for, if any.
    pub open spec fn spec_from_code(code: u32) -> Option<DiagnosticSeverity> {
        if code == 0 {
            Some(DiagnosticSeverity::Error)
        } else if code == 1 {
            Some(DiagnosticSeverity::Warning)
        } else if code == 2 {
            Some(DiagnosticSeverity::Remark)
        } else if code == 3 {
            Some(DiagnosticSeverity::Note)
        } else {
            None
        }
    }

    /// Convert to the numeric code of the wrapped library's C enumeration.
    pub fn code(self) -> (c: u32)
        ensures
            c == self.spec_code(),
    {
        match self {
            DiagnosticSeverity::Error => 0,
            DiagnosticSeverity::Warning => 1,
            DiagnosticSeverity::Remark => 2,
            DiagnosticSeverity::Note => 3,
        }
    }

    /// Convert a numeric code of the wrapped library's C enumeration back;
    /// `None` exactly on codes that stand for no severity.
    pub fn from_code(code: u32) -> (r: Option<DiagnosticSeverity>)
        ensures
            r == Self::spec_from_code(code),
    {
        match code {
            0 => Some(DiagnosticSeverity::Error),
            1 => Some(DiagnosticSeverity::Warning),
            2 => Some(DiagnosticSeverity::Remark),
            3 => Some(DiagnosticSeverity::Note),
            _ => None,
        }
    }
}

/// Decoding a severity's own code gives that severity back.
pub proof fn lemma_diagnostic_severity_code_round_trip(x: DiagnosticSeverity)
    ensures
        DiagnosticSeverity::spec_from_code(x.spec_code()) == Some(x),
{
}

/// A code that decodes to a severity is that severity's code; together
/// with the round trip above, the code is a faithful name for the variant.
pub proof fn lemma_diagnostic_severity_from_code_inverse(code: u32)
    ensures
        DiagnosticSeverity::spec_from_code(code) matches Some(x) ==> x.spec_code() == code,
{
}

} // verus!
