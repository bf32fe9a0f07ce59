//! Typed errors of the registration protocol.

use vstd::prelude::*;

verus! {

/// The errors a registration session can report. Silent protocol violations
/// (a mismatched take of the object-data slot, an argument read past the
/// declared signature) have no host feedback channel at all; they are ruled
/// out by preconditions elsewhere in this crate, not represented here.
#[derive(Clone, Copy, Debug, PartialEq, Eq, Structural)]
pub enum CkError {
    /// The host handle is null or was never bound.
    InvalidDescriptor,
    /// A name cannot be represented as a null-terminated byte string,
    /// because one of its bytes is a null byte.
    NameEncodingError,
    /// The host rejected the class when it was finalized.
    ClassRegistrationFailed,
    /// An operation that is valid only while a class is open was called
    /// with no class open.
    NoOpenClass,
    /// `begin_class` was called while another class was still open;
    /// exactly one class may be open at a time.
    ClassAlreadyOpen,
}

impl CkError {
    /// A short human-readable description of the error.
    pub fn describe(&self) -> (s: &'static str)
        ensures
            s@.len() > 0,
    {
        let s = match self {
            CkError::InvalidDescriptor => "invalid query object",
            CkError::NameEncodingError => "unable to convert C-string: name",
            CkError::ClassRegistrationFailed => "failed to end_class",
            CkError::NoOpenClass => "no class is open",
            CkError::ClassAlreadyOpen => "a class is already open",
        };
        proof {
            reveal_strlit("invalid query object");
            reveal_strlit("unable to convert C-string: name");
            reveal_strlit("failed to end_class");
            reveal_strlit("no class is open");
            reveal_strlit("a class is already open");
        }
        s
    }
}

/// Result type of the registration protocol.
pub type CKResult<T = ()> = Result<T, CkError>;

} // verus!
