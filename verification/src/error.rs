//! The ways in which configuring or opening a subscription fails.

use vstd::prelude::*;

verus! {

/// Why a call was refused.
#[derive(Clone, Copy, Debug, PartialEq, Eq, Structural)]
pub enum SSEError {
    /// A setter was called on a configuration of the other kind.
    IncompatibleConfig,
    /// An event name was given before any contract.
    ContractNotSet,
    /// The stream transport could not set up a session.
    EventSource,
}

/// The result of every fallible call of this library.
pub type SSEResult<T> = Result<T, SSEError>;

} // verus!
