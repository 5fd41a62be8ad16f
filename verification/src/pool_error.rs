//! The pool's error type.

use vstd::prelude::*;

verus! {

/// What can go wrong when using the pool.
#[derive(Clone, Copy, Debug, PartialEq, Eq, Structural)]
pub enum PoolError {
    /// A pool was requested with zero workers: a configuration error,
    /// caught before any worker exists.
    ZeroSize,
    /// The channel's receive side is gone, so a send can never be
    /// delivered: submission after shutdown.
    Disconnected,
}

impl PoolError {
    /// A short description of the error.
    pub fn describe(&self) -> &'static str {
        match self {
            PoolError::ZeroSize => "pool size must be positive",
            PoolError::Disconnected => "the pool has shut down and accepts no work",
        }
    }
}

} // verus!
