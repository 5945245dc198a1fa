//! The subscription manager.
//!
//! An [`ActiveSSE`] holds a finished configuration. It hands the path of the
//! configuration to the transport and decides what the caller gets once the
//! transport has answered. The transport itself is the caller's: a function
//! that opens a session at a path.

use vstd::prelude::*;
use crate::config::{Config, ConfigView};
use crate::error::{SSEError, SSEResult};

verus! {

/// What the caller gets for an answer of the transport: the session that
/// was set up, or the one error `EventSource` in place of the transport's
/// own.
pub open spec fn outcome<S, E>(answer: Result<S, E>) -> SSEResult<S> {
    match answer {
        Ok(session) => Ok(session),
        Err(_) => Err(SSEError::EventSource),
    }
}

/// A configuration that is ready to be subscribed to.
pub struct ActiveSSE {
    config: Config,
}

impl View for ActiveSSE {
    type V = ConfigView;

    closed spec fn view(&self) -> ConfigView {
        self.config@
    }
}

impl ActiveSSE {
    /// Takes the configuration over as it is.
    pub fn new(config: Config) -> (sse: ActiveSSE)
        ensures
            sse@ == config@,
    {
        ActiveSSE { config }
    }

    /// The path that the transport is to open: that of the configuration.
    pub fn url(&self) -> (url: &str)
        ensures
            url@ == self@.url,
    {
        self.config.get_url()
    }

    /// What the caller gets for an answer of the transport.
    pub fn session<S, E>(answer: Result<S, E>) -> (res: SSEResult<S>)
        ensures
            res == outcome(answer),
    {
        match answer {
            Ok(session) => Ok(session),
            Err(_) => Err(SSEError::EventSource),
        }
    }

    /// Has `open` set up a session at the path of the configuration, once,
    /// and returns what the caller gets for its answer: the session, or
    /// `EventSource` where `open` set none up. Of `open` only this is asked,
    /// that it takes that path. The manager is left as it was, so that a
    /// refusal leaves nothing half open.
    pub fn subscribe<S, E, F>(&self, open: F) -> (res: SSEResult<S>)
        where F: FnOnce(&str) -> Result<S, E>
        requires
            forall|url: &str| url@ == self@.url ==> call_requires(open, (url,)),
        ensures
            exists|url: &str, answer: Result<S, E>|
                url@ == self@.url && #[trigger] call_ensures(open, (url,), answer)
                    && res == outcome(answer),
    {
        let answer = open(self.config.get_url());
        Self::session(answer)
    }
}

} // verus!
