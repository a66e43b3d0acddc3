//! The client: session state, transport rules and the negotiation.

pub mod error;
pub mod laws;
pub mod mechs;
pub mod model;
pub mod negotiation;
pub mod proto;
pub mod transport;

pub use error::{Error, ErrorView, TransportError, TransportErrorView};
pub use proto::UnixUserToken;

use vstd::prelude::*;
use mechs::MechSet;
use model::ClientView;
use negotiation::{reply_view, AuthAction, AuthPhase};
use proto::{
    AuthAllowed, AuthCredential, AuthIssueSession, AuthMech, AuthRequest, AuthResponse, AuthState,
    AuthStep, SingleStringRequest,
};
use transport::{Header, HttpRequest};

verus! {

/// The name of the header that carries the bearer token.
pub const AUTHORIZATION: &'static str = "Authorization";

/// The name of the header that carries the session-affinity identifier.
pub const SESSION_ID: &'static str = "X-KANIDM-AUTH-SESSION-ID";

/// The path of the negotiation endpoint.
pub const AUTH_PATH: &'static str = "/v1/auth";

/// A client of one directory. It holds what outlives a request: the bearer
/// token and the session-affinity identifier.
#[derive(Clone, Debug, PartialEq, Eq)]
pub struct KanidmClient {
    base_url: String,
    token: Option<String>,
    session_id: Option<Vec<u8>>,
}

/// The view of text that may be absent.
pub open spec fn text_view(text: Option<String>) -> Option<Seq<char>> {
    match text {
        Some(t) => Some(t@),
        None => None,
    }
}

/// The view of bytes that may be absent.
pub open spec fn bytes_view(bytes: Option<Vec<u8>>) -> Option<Seq<u8>> {
    match bytes {
        Some(b) => Some(b@),
        None => None,
    }
}

impl View for KanidmClient {
    type V = ClientView;

    closed spec fn view(&self) -> ClientView {
        ClientView {
            base_url: self.base_url@,
            token: text_view(self.token),
            session_id: bytes_view(self.session_id),
        }
    }
}

impl KanidmClient {
    /// A client of the directory at `base_url`, with no token and no session.
    pub fn new(base_url: String) -> (client: KanidmClient)
        ensures
            client@ == (ClientView { base_url: base_url@, token: None, session_id: None }),
    {
        KanidmClient { base_url, token: None, session_id: None }
    }

    /// The headers that carry a token.
    fn token_headers(&self) -> (headers: Vec<Header>)
        ensures
            headers@.map_values(|h: Header| h@) == model::token_headers(self@.token),
    {
        let mut headers: Vec<Header> = Vec::new();
        if let Some(token) = &self.token {
            let mut text = "Bearer ".to_string();
            text.append(token.as_str());
            let value = text.as_str().as_bytes_vec();
            headers.push(Header { name: AUTHORIZATION.to_string(), value });
        }
        assert(headers@.map_values(|h: Header| h@) =~= model::token_headers(self@.token));
        headers
    }

    /// The head of a request that takes part in a negotiation, to the path
    /// `dest` of the directory: it carries the token and the session-affinity
    /// identifier, as far as the client holds them.
    pub fn auth_post(&self, dest: &str) -> (req: HttpRequest)
        ensures
            req@ == model::auth_post_request(self@, dest@),
    {
        let mut url = self.base_url.clone();
        url.append(dest);
        let mut headers = self.token_headers();
        if let Some(session_id) = &self.session_id {
            headers.push(Header { name: SESSION_ID.to_string(), value: session_id.clone() });
        }
        assert(headers@.map_values(|h: Header| h@) =~= model::token_headers(self@.token)
            + model::session_headers(self@.session_id));
        HttpRequest { url, headers }
    }

    /// The head of a request that takes no part in a negotiation, to the path
    /// `dest` of the directory: it carries the token, if the client holds one,
    /// and never the session-affinity identifier.
    pub fn post(&self, dest: &str) -> (req: HttpRequest)
        ensures
            req@ == model::post_request(self@, dest@),
    {
        let mut url = self.base_url.clone();
        url.append(dest);
        let headers = self.token_headers();
        HttpRequest { url, headers }
    }

    /// Takes in the head of a response to a request made by [`Self::auth_post`].
    ///
    /// `session_id` holds the bytes of the session-affinity header of the
    /// response, if it has one. With status 200 the body is to be read next,
    /// and the bytes, if there are any, replace the identifier that the
    /// client holds. Any other status is an error that carries it, and leaves
    /// the client as it was.
    pub fn auth_post_response(&mut self, status: u16, session_id: Option<Vec<u8>>) -> (r: Result<
        (),
        TransportError,
    >)
        ensures
            r == model::post_response(status),
            final(self)@ == model::auth_post_session(old(self)@, status, bytes_view(session_id)),
    {
        if status == 200 {
            if let Some(id) = session_id {
                self.session_id = Some(id);
            }
            Ok(())
        } else {
            Err(TransportError::StatusCode(status))
        }
    }

    /// Takes in the head of a response to a request made by [`Self::post`]:
    /// with status 200 the body is to be read next, any other status is an
    /// error that carries it.
    pub fn post_response(&self, status: u16) -> (r: Result<(), TransportError>)
        ensures
            r == model::post_response(status),
    {
        if status == 200 {
            Ok(())
        } else {
            Err(TransportError::StatusCode(status))
        }
    }

    /// The request that opens a negotiation for the identity `ident`.
    pub fn auth_step_init(&self, ident: &str) -> (out: (HttpRequest, AuthRequest))
        ensures
            out.0@ == model::auth_post_request(self@, model::auth_path()),
            out.1@ == negotiation::auth_init_step(ident@),
    {
        let auth_init = AuthRequest {
            step: AuthStep::Init2 {
                username: ident.to_string(),
                issue: AuthIssueSession::Token,
                privileged: false,
            },
        };
        (self.auth_post(AUTH_PATH), auth_init)
    }

    /// Reads the answer to the opening request: the set of mechanisms that
    /// the server offers.
    pub fn auth_step_init_reply(reply: Result<AuthResponse, TransportError>) -> (r: Result<
        MechSet,
        Error,
    >)
        ensures
            match r {
                Ok(set) => negotiation::auth_init_reply(reply_view(reply)) == Ok::<
                    Set<AuthMech>,
                    ErrorView,
                >(set@),
                Err(e) => negotiation::auth_init_reply(reply_view(reply)) == Err::<
                    Set<AuthMech>,
                    ErrorView,
                >(e@),
            },
    {
        match reply {
            Err(e) => Err(Error::UReq(e)),
            Ok(response) => match response.state {
                AuthState::Choose(mechs) => Ok(MechSet::from_mechs(&mechs)),
                _ => Err(Error::AuthenticationFailed),
            },
        }
    }

    /// The request that picks the mechanism `mech`.
    pub fn auth_step_begin(&self, mech: AuthMech) -> (out: (HttpRequest, AuthRequest))
        ensures
            out.0@ == model::auth_post_request(self@, model::auth_path()),
            out.1@ == proto::AuthStepView::Begin(mech),
    {
        let auth_begin = AuthRequest { step: AuthStep::Begin(mech) };
        (self.auth_post(AUTH_PATH), auth_begin)
    }

    /// Reads the answer to the choice of a mechanism: the challenges that the
    /// server accepts.
    pub fn auth_step_begin_reply(reply: Result<AuthResponse, TransportError>) -> (r: Result<
        Vec<AuthAllowed>,
        Error,
    >)
        ensures
            match r {
                Ok(allowed) => negotiation::auth_begin_reply(reply_view(reply)) == Ok::<
                    Seq<AuthAllowed>,
                    ErrorView,
                >(allowed@),
                Err(e) => negotiation::auth_begin_reply(reply_view(reply)) == Err::<
                    Seq<AuthAllowed>,
                    ErrorView,
                >(e@),
            },
    {
        match reply {
            Err(e) => Err(Error::UReq(e)),
            Ok(response) => match response.state {
                AuthState::Continue(allowed) => Ok(allowed),
                _ => Err(Error::AuthenticationFailed),
            },
        }
    }

    /// The request that answers a challenge with the credential `cred`.
    pub fn auth_step_cred(&self, cred: AuthCredential) -> (out: (HttpRequest, AuthRequest))
        ensures
            out.0@ == model::auth_post_request(self@, model::auth_path()),
            out.1@ == proto::AuthStepView::Cred(cred@),
    {
        let auth_cred = AuthRequest { step: AuthStep::Cred(cred) };
        (self.auth_post(AUTH_PATH), auth_cred)
    }

    /// Reads the answer to a credential: the bearer token that was issued.
    pub fn auth_step_cred_reply(reply: Result<AuthResponse, TransportError>) -> (r: Result<
        String,
        Error,
    >)
        ensures
            match r {
                Ok(token) => negotiation::auth_cred_reply(reply_view(reply)) == Ok::<
                    Seq<char>,
                    ErrorView,
                >(token@),
                Err(e) => negotiation::auth_cred_reply(reply_view(reply)) == Err::<
                    Seq<char>,
                    ErrorView,
                >(e@),
            },
    {
        match reply {
            Err(e) => Err(Error::UReq(e)),
            Ok(response) => match response.state {
                AuthState::Success(token) => Ok(token),
                _ => Err(Error::AuthenticationFailed),
            },
        }
    }

    /// Opens an anonymous negotiation: the phase it starts in, and the
    /// request to send first.
    pub fn auth_anonymous_begin(&self) -> (start: (AuthPhase, AuthAction))
        ensures
            start.0 == AuthPhase::Init,
            start.1@ == negotiation::AuthActionView::Send(
                model::auth_post_request(self@, model::auth_path()),
                negotiation::auth_init_step(model::anonymous_name()),
            ),
    {
        let (head, body) = self.auth_step_init("anonymous");
        (AuthPhase::Init, AuthAction::Send(head, body))
    }

    /// One step of an anonymous negotiation. `phase` is where it stands and
    /// `reply` the answer to the request that is out: the state that the
    /// server reported, or the error of the round trip.
    ///
    /// Returns the next phase and what to do: send a request and call again
    /// with its answer, or stop. Where the negotiation succeeds, the client
    /// takes the token that was issued and drops the session-affinity
    /// identifier; in every other step the client stays as it was.
    pub fn auth_anonymous(
        &mut self,
        phase: AuthPhase,
        reply: Result<AuthResponse, TransportError>,
    ) -> (next: (AuthPhase, AuthAction))
        ensures
            final(self)@ == negotiation::auth_anonymous_step(
                old(self)@,
                phase,
                reply_view(reply),
            ).client,
            next.0 == negotiation::auth_anonymous_step(old(self)@, phase, reply_view(reply)).phase,
            next.1@ == negotiation::auth_anonymous_step(
                old(self)@,
                phase,
                reply_view(reply),
            ).action,
    {
        match phase {
            AuthPhase::Init => match Self::auth_step_init_reply(reply) {
                Ok(mechs) => {
                    if !mechs.contains(AuthMech::Anonymous) {
                        return (
                            AuthPhase::Denied,
                            AuthAction::Finish(Err(Error::AuthenticationFailed)),
                        );
                    }
                    let (head, body) = self.auth_step_begin(AuthMech::Anonymous);
                    (AuthPhase::Choosing, AuthAction::Send(head, body))
                },
                Err(e) => (AuthPhase::Denied, AuthAction::Finish(Err(e))),
            },
            AuthPhase::Choosing => match Self::auth_step_begin_reply(reply) {
                Ok(_) => {
                    let (head, body) = self.auth_step_cred(AuthCredential::Anonymous);
                    (AuthPhase::Continuing, AuthAction::Send(head, body))
                },
                Err(e) => (AuthPhase::Denied, AuthAction::Finish(Err(e))),
            },
            AuthPhase::Continuing => match Self::auth_step_cred_reply(reply) {
                Ok(token) => {
                    self.token = Some(token);
                    self.session_id = None;
                    (AuthPhase::Success, AuthAction::Finish(Ok(())))
                },
                Err(e) => (AuthPhase::Denied, AuthAction::Finish(Err(e))),
            },
            _ => match reply {
                Err(e) => (AuthPhase::Denied, AuthAction::Finish(Err(Error::UReq(e)))),
                Ok(_) => (AuthPhase::Denied, AuthAction::Finish(Err(Error::AuthenticationFailed))),
            },
        }
    }

    /// The request that asks the directory whether `cred` is the unix
    /// credential of the identity `id`: the head, and the body that holds the
    /// credential and nothing else. The request takes no part in a
    /// negotiation.
    pub fn idm_account_unix_cred_verify(&self, id: &str, cred: String) -> (out: (
        HttpRequest,
        SingleStringRequest,
    ))
        ensures
            out.0@ == model::post_request(self@, model::unix_auth_path(id@)),
            out.1@ == cred@,
    {
        let mut dest = "/v1/account/".to_string();
        dest.append(id);
        dest.append("/_unix/_auth");
        let req = SingleStringRequest { value: cred };
        (self.post(dest.as_str()), req)
    }

    /// Reads the answer to a verification request: what the directory said of
    /// the credential, if it knows the identity, or the error of the round
    /// trip.
    pub fn idm_account_unix_cred_verify_reply(
        reply: Result<Option<UnixUserToken>, TransportError>,
    ) -> (r: Result<Option<UnixUserToken>, Error>)
        ensures
            match reply {
                Ok(token) => r == Ok::<Option<UnixUserToken>, Error>(token),
                Err(e) => r == Err::<Option<UnixUserToken>, Error>(Error::UReq(e)),
            },
    {
        match reply {
            Ok(token) => Ok(token),
            Err(e) => Err(Error::UReq(e)),
        }
    }

    /// The address of the directory.
    pub fn base_url(&self) -> (url: &String)
        ensures
            url@ == self@.base_url,
    {
        &self.base_url
    }

    /// The bearer token, once a negotiation has succeeded.
    pub fn token(&self) -> (token: &Option<String>)
        ensures
            text_view(*token) == self@.token,
    {
        &self.token
    }

    /// The session-affinity identifier of the negotiation that is under way:
    /// the bytes that the server gave last.
    pub fn session_id(&self) -> (session_id: &Option<Vec<u8>>)
        ensures
            bytes_view(*session_id) == self@.session_id,
    {
        &self.session_id
    }
}

/// Whether a verification call has shown the credential to be valid: the
/// call succeeded, the directory knows the identity, and it says so. An
/// error and a plain "no" both give `false`.
pub fn credential_verified(outcome: &Result<Option<UnixUserToken>, Error>) -> (verified: bool)
    ensures
        verified == (outcome matches Ok(Some(token)) && token.valid),
{
    match outcome {
        Ok(Some(token)) => token.valid,
        _ => false,
    }
}

} // verus!
