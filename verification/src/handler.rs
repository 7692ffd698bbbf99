//! Per-connection state machine behind the SSH server callbacks.
//!
//! One handler exists per accepted connection. It gates authentication,
//! remembers whether the connection may issue commands, and owns one
//! command-router invocation per exec request; the relay session that a
//! successful dispatch opens lives with the channel.

use vstd::prelude::*;
use crate::auth::AuthDecision;
use crate::auth::authenticate;
use crate::auth::service_identity;
use crate::command::CommandPlan;
use crate::command::DispatchError;
use crate::command::dispatch_model;
use crate::command::dispatch_payload;
use crate::command::spec_dispatch;
use crate::resolve::ResolverConfig;
use crate::text::split_chars;

verus! {

/// State of one accepted connection.
#[derive(Debug)]
pub struct ConnectionHandler {
    /// Resolver configuration the connection routes against.
    pub config: ResolverConfig,
    /// Whether authentication has succeeded on this connection.
    pub authenticated: bool,
}

impl ConnectionHandler {
    /// A handler for a freshly accepted, not yet authenticated connection.
    pub fn new(config: ResolverConfig) -> (h: ConnectionHandler)
        ensures
            h.config == config,
            !h.authenticated,
    {
        ConnectionHandler { config, authenticated: false }
    }

    /// The no-credential authentication callback: only the designated
    /// service identity may proceed, and only an accepted identity marks
    /// the connection authenticated.
    pub fn auth_none(&mut self, user: &str) -> (decision: AuthDecision)
        ensures
            decision is Accept <==> user@ == service_identity(),
            final(self).authenticated == (old(self).authenticated || decision is Accept),
            final(self).config == old(self).config,
    {
        let decision = authenticate(user);
        if matches!(decision, AuthDecision::Accept) {
            self.authenticated = true;
        }
        decision
    }

    /// The exec-request callback: splits the payload on single spaces and
    /// routes the tokens. The transport delivers exec requests only on
    /// authenticated connections.
    pub fn exec_request(&self, payload: &str) -> (r: Result<CommandPlan, DispatchError>)
        requires
            self.authenticated,
        ensures
            dispatch_model(r) == spec_dispatch(
                self.config.root@,
                self.config.allow_push,
                split_chars(payload@, ' '),
            ),
    {
        dispatch_payload(&self.config, payload)
    }
}

} // verus!
