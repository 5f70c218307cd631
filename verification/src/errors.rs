//! Error taxonomy shared by the provider adapters and the retry machinery.

use vstd::prelude::*;

verus! {

/// What a single provider call can fail with.
///
/// `Transport` and `Auth` mark connectivity or configuration trouble: they are
/// never retried and propagate at once.  `Protocol` marks a malformed response
/// shape: the structured-extraction engine absorbs it with a retry, everywhere
/// else it is fatal too.
#[derive(Clone, Copy, Debug, PartialEq, Eq, Structural)]
pub enum AdapterError {
    Transport,
    Auth,
    Protocol,
}

impl AdapterError {
    /// A transport or credential failure: fatal in every context.
    pub open spec fn is_fatal(self) -> bool {
        self is Transport || self is Auth
    }
}

} // verus!
