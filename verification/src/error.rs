//! Error kinds surfaced by the recording core.
//!
//! The core fails fast: setup-time selection failures and pool exhaustion are
//! reported as typed errors so a caller can wait, grow, or abort, instead of
//! the process dying inside the library.

use vstd::prelude::*;

verus! {

/// Everything that can go wrong inside the recording core.
#[derive(Clone, Copy, Debug, PartialEq, Eq, Structural)]
pub enum Error {
    /// No command buffer in the pool is eligible for acquisition.
    PoolExhausted,
    /// No queue family satisfies the requested flags and presentation support.
    NoQueueFamily,
    /// No adapter satisfies the minimum rendering requirements.
    NoAdapter,
}

impl Error {
    /// A short human-readable description of the error.
    pub fn describe(&self) -> (r: &'static str)
        ensures
            r@ == self.describe_spec(),
    {
        match self {
            Error::PoolExhausted => "no free command buffer in the pool",
            Error::NoQueueFamily => "no suitable queue family",
            Error::NoAdapter => "no suitable adapter",
        }
    }

    /// What `describe` returns for each variant.
    pub open spec fn describe_spec(&self) -> Seq<char> {
        match self {
            Error::PoolExhausted => "no free command buffer in the pool"@,
            Error::NoQueueFamily => "no suitable queue family"@,
            Error::NoAdapter => "no suitable adapter"@,
        }
    }
}

} // verus!
