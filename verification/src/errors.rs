//! Error taxonomy of the dispatch core. Call-level errors are returned to the
//! guest as ordinary values; context-level faults terminate the owning
//! execution context.

use vstd::prelude::*;

verus! {

/// A call-level or context-level error of the dispatch core.
#[derive(Clone, Copy, Debug, PartialEq, Eq, Structural)]
pub enum CoreError {
    /// A handle was absent from the table or named a resource of another
    /// kind; recoverable, surfaced to the caller.
    BadResource,
    /// The permission checkpoint refused the operation before any native
    /// effect occurred; recoverable, surfaced to the caller.
    PermissionDenied,
    /// A promise was completed twice, or completed without ever having been
    /// dispatched; fatal to the owning execution context.
    ProtocolViolation,
}

impl CoreError {
    /// A short description of the error.
    pub fn message(&self) -> (r: &'static str)
        ensures
            *self is BadResource ==> r@ == "bad resource id"@,
            *self is PermissionDenied ==> r@ == "permission denied"@,
            *self is ProtocolViolation ==> r@ == "protocol violation"@,
    {
        match self {
            CoreError::BadResource => "bad resource id",
            CoreError::PermissionDenied => "permission denied",
            CoreError::ProtocolViolation => "protocol violation",
        }
    }
}

/// A fault raised by the script engine while executing guest code; carried
/// as data so that a context-level fault can be reported to whatever owns
/// the context.
pub struct JsError {
    pub message: String,
}

/// Distinguishes a native-side error from a fault inside the guest script.
pub enum RustOrJsError {
    Rust(CoreError),
    Js(JsError),
}

} // verus!
