use vstd::prelude::*;

verus! {

/// Opaque rejection value returned for any structurally invalid key container.
///
/// Callers learn only that the key was rejected, never which byte check
/// failed: the coarse, undifferentiated error is deliberate, so that probing
/// with malformed containers reveals nothing about the internal checks.
#[derive(Clone, Copy, Debug, PartialEq, Eq)]
pub struct KeyRejected;

impl KeyRejected {
    /// The single rejection value used for every invalid encoding.
    pub fn invalid_encoding() -> KeyRejected {
        KeyRejected
    }
}

/// Error of the low-level DER reader; it carries no diagnostic payload.
#[derive(Clone, Copy, Debug, PartialEq, Eq)]
pub struct Unspecified;

} // verus!
