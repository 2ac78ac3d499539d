//! `std::io::Error` as the verifier sees it: an opaque value, sorted into
//! the three classes that the runtime tells apart.

use vstd::prelude::*;

verus! {

/// `std::io::Error`, carried through verified code without looking inside.
#[verifier::external_type_specification]
#[verifier::external_body]
pub struct ExIoError(std::io::Error);

/// What an I/O error means to the runtime.
#[derive(Clone, Copy, Debug, PartialEq, Eq, Structural)]
pub enum ErrorClass {
    /// The operation would have blocked: try again once the source is ready.
    WouldBlock,
    /// A system call was interrupted: try again at once.
    Interrupted,
    /// Any other error.
    Other,
}

/// The class of an error: what `class_of` answers for it. An error's kind is
/// the error's own, so the class is a function of the error alone.
pub uninterp spec fn error_class(error: std::io::Error) -> ErrorClass;

/// Calls `Error::kind` and sorts the kind into a class: `WouldBlock` and
/// `Interrupted` each into the class of that name, every other kind into
/// `Other`.
#[verifier::external_body]
pub(crate) fn class_of(error: &std::io::Error) -> (class: ErrorClass)
    ensures
        class == error_class(*error),
{
    match error.kind() {
        std::io::ErrorKind::WouldBlock => ErrorClass::WouldBlock,
        std::io::ErrorKind::Interrupted => ErrorClass::Interrupted,
        _ => ErrorClass::Other,
    }
}

} // verus!
