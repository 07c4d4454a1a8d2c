use vstd::prelude::*;

verus! {

/// The terminal failure conditions of tree construction.
///
/// Rendering itself never fails: a well-formed tree always produces a finite
/// string. Only building blocks can be rejected, either because a confined
/// sequence would grow past its ceiling or because an identifier text is
/// malformed.
#[derive(Clone, Copy, PartialEq, Eq, Debug)]
pub enum VesperError {
    /// An attribute or child sequence would exceed its fixed maximum count.
    CapacityExceeded,
    /// An identifier was built from a text that the identifier rules reject.
    InvalidIdentifier,
}

} // verus!
