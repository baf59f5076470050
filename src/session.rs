//! Per-connection session: the credentials installed by Auth or Login, and
//! whether the connection has been torn down.

use vstd::prelude::*;
use crate::codec::{decode_frame, payload_of, FrameError};
use crate::dispatch::{handler_of, route, step_for, Action, Query, Step};
use crate::request::Request;

verus! {

/// The identity a successful Auth or Login installs.
#[derive(Debug, Clone, PartialEq, Eq)]
pub struct Credentials {
    pub token: String,
    /// The tenant every downstream query is scoped to.
    pub license_key: String,
}

/// The credential store turned an Auth or Login down.
#[derive(Debug, Clone, Copy, PartialEq, Eq, Structural)]
pub enum AuthError {
    Rejected,
}


/// Where a session stands.
#[derive(Debug, Clone, Copy, PartialEq, Eq, Structural)]
pub enum SessionState {
    Unauthenticated,
    Authenticated,
    /// Terminal: the transport closed or sent a frame that could not be decoded.
    Closed,
}

/// The credentials after an Auth or Login whose validation gave `outcome`:
/// the new ones on success (last write wins), the previous ones otherwise.
pub open spec fn creds_after(
    prev: Option<Credentials>,
    outcome: Result<Credentials, AuthError>,
) -> Option<Credentials> {
    match outcome {
        Ok(c) => Some(c),
        Err(_) => prev,
    }
}

pub open spec fn state_of(creds: Option<Credentials>, closed: bool) -> SessionState {
    if closed {
        SessionState::Closed
    } else if creds is Some {
        SessionState::Authenticated
    } else {
        SessionState::Unauthenticated
    }
}

/// The state of one connection. Each connection owns exactly one.
#[derive(Debug)]
pub struct Session {
    credentials: Option<Credentials>,
    closed: bool,
}

impl Session {
    pub closed spec fn creds(&self) -> Option<Credentials> {
        self.credentials
    }

    pub closed spec fn is_closed(&self) -> bool {
        self.closed
    }

    pub open spec fn spec_state(&self) -> SessionState {
        state_of(self.creds(), self.is_closed())
    }

    /// A fresh, unauthenticated session.
    pub fn new() -> (r: Session)
        ensures
            r.creds() is None,
            !r.is_closed(),
            r.spec_state() == SessionState::Unauthenticated,
    {
        Session { credentials: None, closed: false }
    }

    pub fn state(&self) -> (r: SessionState)
        ensures
            r == self.spec_state(),
    {
        if self.closed {
            SessionState::Closed
        } else if self.credentials.is_some() {
            SessionState::Authenticated
        } else {
            SessionState::Unauthenticated
        }
    }

    pub fn credentials(&self) -> (r: &Option<Credentials>)
        ensures
            *r == self.creds(),
    {
        &self.credentials
    }

    /// Decides what `req` asks of the connection: Auth and Login go to the
    /// credential store; any other request runs its handler under this
    /// session's license key, or is dropped where there are no credentials.
    pub fn dispatch(&self, req: &Request) -> (r: Step)
        requires
            !self.is_closed(),
        ensures
            r == step_for(self.creds(), *req),
    {
        route(&self.credentials, req)
    }

    /// Records the outcome of validating an Auth or Login. Success replaces
    /// the credentials; failure leaves the session as it was.
    pub fn complete_auth(&mut self, outcome: Result<Credentials, AuthError>) -> (r: Result<(), AuthError>)
        requires
            !old(self).is_closed(),
        ensures
            final(self).creds() == creds_after(old(self).creds(), outcome),
            !final(self).is_closed(),
            r == match outcome {
                Ok(_) => Ok::<(), AuthError>(()),
                Err(e) => Err(e),
            },
    {
        match outcome {
            Ok(c) => {
                self.credentials = Some(c);
                Ok(())
            },
            Err(e) => Err(e),
        }
    }

    /// Takes one inbound frame. A frame that does not decompress closes the
    /// session, and only this session; otherwise the payload comes back.
    pub fn accept_frame(&mut self, raw: &[u8]) -> (r: Result<Vec<u8>, FrameError>)
        requires
            !old(self).is_closed(),
        ensures
            match r {
                Ok(p) => payload_of(raw@) == Ok::<Seq<u8>, FrameError>(p@),
                Err(e) => payload_of(raw@) == Err::<Seq<u8>, FrameError>(e),
            },
            r is Err ==> r == Err::<Vec<u8>, FrameError>(FrameError::Decompress),
            final(self).is_closed() == r is Err,
            final(self).creds() == old(self).creds(),
    {
        let r = decode_frame(raw);
        if r.is_err() {
            self.closed = true;
        }
        r
    }

    /// The payload of an accepted frame is not a well-formed request: the
    /// session closes with a protocol error.
    pub fn reject_payload(&mut self) -> (r: FrameError)
        ensures
            r == FrameError::Deserialize,
            final(self).is_closed(),
            final(self).creds() == old(self).creds(),
    {
        self.closed = true;
        FrameError::Deserialize
    }

    /// The transport closed.
    pub fn close(&mut self)
        ensures
            final(self).is_closed(),
            final(self).creds() == old(self).creds(),
    {
        self.closed = true;
    }
}

/// An unauthenticated session routes nothing but Auth and Login: any other
/// request reaches no handler, sends nothing and refreshes nothing.
pub proof fn lemma_unauthenticated_drops(s: Session, req: Request)
    requires
        s.spec_state() == SessionState::Unauthenticated,
        !req.spec_kind().is_authentication(),
    ensures
        step_for(s.creds(), req) == (Step { refresh: None, action: Action::Skip { kind: req.spec_kind() } }),
{
}

/// After a successful Auth or Login the session is authenticated, and every
/// later request other than Auth and Login runs its one handler under the
/// installed license key, after refreshing the installed token.
pub proof fn lemma_authenticated_routes(prev: Option<Credentials>, c: Credentials, req: Request)
    requires
        !req.spec_kind().is_authentication(),
    ensures
        state_of(creds_after(prev, Ok(c)), false) == SessionState::Authenticated,
        handler_of(req.spec_kind()) is Some,
        step_for(creds_after(prev, Ok(c)), req) == (Step {
            refresh: Some(c.token),
            action: Action::Run {
                query: Query {
                    handler: handler_of(req.spec_kind())->0,
                    license_key: c.license_key,
                    params: req.spec_params(),
                },
            },
        }),
{
}

/// No outcome of an Auth or Login takes credentials away: there is no way
/// back from authenticated to unauthenticated.
pub proof fn lemma_credentials_never_revoked(prev: Option<Credentials>, outcome: Result<Credentials, AuthError>)
    ensures
        prev is Some ==> creds_after(prev, outcome) is Some,
        outcome is Err ==> creds_after(prev, outcome) == prev,
{
}

} // verus!
