//! What a drawing operation reports when it did not draw.

use vstd::prelude::*;

verus! {

/// Why a drawing operation failed.
#[derive(Debug, PartialEq, Eq)]
pub enum Error {
    /// The native library reported failure. Carries the diagnostic that it
    /// had recorded right after the call.
    NativeCallFailed(String),
    /// The operation has no native counterpart behind this layer.
    Unimplemented,
}

impl Error {
    /// A readable account of the failure: the native diagnostic, or a fixed
    /// text for an operation that is not implemented.
    pub fn message(&self) -> (m: String)
        ensures
            self matches Error::NativeCallFailed(d) ==> m@ == d@,
            self is Unimplemented ==> m@ == "not implemented"@,
    {
        match self {
            Error::NativeCallFailed(d) => d.clone(),
            Error::Unimplemented => "not implemented".to_owned(),
        }
    }
}

} // verus!
