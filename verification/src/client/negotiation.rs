//! The negotiation as a state machine: from the phase and the answer to the
//! request that is out, to the next phase and what to do.

use vstd::prelude::*;
use crate::client::error::{Error, ErrorView, TransportError, TransportErrorView};
use crate::client::model::{auth_path, auth_post_request, ClientView, HttpRequestView};
use crate::client::proto::{
    AuthAllowed, AuthCredentialView, AuthIssueSession, AuthMech, AuthRequest, AuthResponse,
    AuthStateView, AuthStepView,
};
use crate::client::transport::HttpRequest;

verus! {

/// Where a negotiation stands.
#[derive(Clone, Copy, Debug, PartialEq, Eq, Structural)]
pub enum AuthPhase {
    /// The opening request is out and nothing has come back.
    Init,
    /// The server has offered mechanisms and the choice is out.
    Choosing,
    /// The server has named its challenges and the credential is out.
    Continuing,
    /// Over: a bearer token was issued.
    Success,
    /// Over: the negotiation failed.
    Denied,
}

/// What the client does next in a negotiation.
pub enum AuthActionView {
    /// Post this body, under this head.
    Send(HttpRequestView, AuthStepView),
    /// Stop with this result.
    Finish(Result<(), ErrorView>),
}

/// What the client does next in a negotiation.
#[derive(Debug, PartialEq, Eq)]
pub enum AuthAction {
    /// Post this body, under this head, and come back with the answer.
    Send(HttpRequest, AuthRequest),
    /// Stop with this result.
    Finish(Result<(), Error>),
}

/// The view of the result of a negotiation.
pub open spec fn result_view(result: Result<(), Error>) -> Result<(), ErrorView> {
    match result {
        Ok(()) => Ok(()),
        Err(e) => Err(e@),
    }
}

impl View for AuthAction {
    type V = AuthActionView;

    open spec fn view(&self) -> AuthActionView {
        match self {
            AuthAction::Send(head, body) => AuthActionView::Send(head@, body@),
            AuthAction::Finish(result) => AuthActionView::Finish(result_view(*result)),
        }
    }
}

/// The view of the answer to a negotiation request: the state that the server
/// reported, or why none arrived.
pub open spec fn reply_view(
    reply: Result<AuthResponse, TransportError>,
) -> Result<AuthStateView, TransportErrorView> {
    match reply {
        Ok(response) => Ok(response@),
        Err(e) => Err(e@),
    }
}

/// What one step of a negotiation comes to.
pub struct AuthStepOutcome {
    pub client: ClientView,
    pub phase: AuthPhase,
    pub action: AuthActionView,
}

/// The request that opens a negotiation for an identity: a bearer token is
/// asked for, and no privileged session.
pub open spec fn auth_init_step(ident: Seq<char>) -> AuthStepView {
    AuthStepView::Init2 { username: ident, issue: AuthIssueSession::Token, privileged: false }
}

/// What the answer to the opening request offers: the set of the mechanisms
/// that the server named. Any other state is a failure of the negotiation.
pub open spec fn auth_init_reply(
    reply: Result<AuthStateView, TransportErrorView>,
) -> Result<Set<AuthMech>, ErrorView> {
    match reply {
        Err(e) => Err(ErrorView::UReq(e)),
        Ok(AuthStateView::Choose(mechs)) => Ok(mechs.to_set()),
        Ok(_) => Err(ErrorView::AuthenticationFailed),
    }
}

/// What the answer to the choice of a mechanism allows: the challenges that
/// the server named. Any other state is a failure of the negotiation.
pub open spec fn auth_begin_reply(
    reply: Result<AuthStateView, TransportErrorView>,
) -> Result<Seq<AuthAllowed>, ErrorView> {
    match reply {
        Err(e) => Err(ErrorView::UReq(e)),
        Ok(AuthStateView::Continue(allowed)) => Ok(allowed),
        Ok(_) => Err(ErrorView::AuthenticationFailed),
    }
}

/// What the answer to a credential grants: the bearer token. Any other state,
/// a denial too, is a failure of the negotiation.
pub open spec fn auth_cred_reply(
    reply: Result<AuthStateView, TransportErrorView>,
) -> Result<Seq<char>, ErrorView> {
    match reply {
        Err(e) => Err(ErrorView::UReq(e)),
        Ok(AuthStateView::Success(token)) => Ok(token),
        Ok(_) => Err(ErrorView::AuthenticationFailed),
    }
}

/// What all unexpected answers come to: the negotiation is over and failed.
pub open spec fn auth_fail(c: ClientView, e: ErrorView) -> AuthStepOutcome {
    AuthStepOutcome { client: c, phase: AuthPhase::Denied, action: AuthActionView::Finish(Err(e)) }
}

/// The next request of a negotiation that goes on.
pub open spec fn auth_go_on(c: ClientView, phase: AuthPhase, step: AuthStepView) -> AuthStepOutcome {
    AuthStepOutcome {
        client: c,
        phase,
        action: AuthActionView::Send(auth_post_request(c, auth_path()), step),
    }
}

/// One step of the anonymous negotiation: from the phase and the answer to
/// the request that is out, to the next phase and what to do.
///
/// A round trip that failed ends the negotiation with its error. Of the
/// answers that arrived, exactly one per phase lets it go on: an offer that
/// holds the anonymous mechanism, then a list of challenges, then a token.
/// The client keeps the token and drops the session-affinity identifier,
/// which belongs to the negotiation that is now over. Every other answer ends
/// it as failed and leaves the client as it was.
pub open spec fn auth_anonymous_step(
    c: ClientView,
    phase: AuthPhase,
    reply: Result<AuthStateView, TransportErrorView>,
) -> AuthStepOutcome {
    match reply {
        Err(e) => auth_fail(c, ErrorView::UReq(e)),
        Ok(state) => match (phase, state) {
            (AuthPhase::Init, AuthStateView::Choose(mechs)) => if mechs.contains(
                AuthMech::Anonymous,
            ) {
                auth_go_on(c, AuthPhase::Choosing, AuthStepView::Begin(AuthMech::Anonymous))
            } else {
                auth_fail(c, ErrorView::AuthenticationFailed)
            },
            (AuthPhase::Choosing, AuthStateView::Continue(_)) => auth_go_on(
                c,
                AuthPhase::Continuing,
                AuthStepView::Cred(AuthCredentialView::Anonymous),
            ),
            (AuthPhase::Continuing, AuthStateView::Success(token)) => AuthStepOutcome {
                client: ClientView { token: Some(token), session_id: None, ..c },
                phase: AuthPhase::Success,
                action: AuthActionView::Finish(Ok(())),
            },
            _ => auth_fail(c, ErrorView::AuthenticationFailed),
        },
    }
}

} // verus!
