//! The values that travel between client and server.
//!
//! Each type that owns text or a list has a view: the same value with `Seq`
//! in place of `String` and `Vec`. Contracts are stated over the views.

use vstd::prelude::*;

verus! {

/// An authentication mechanism that the server may offer for an identity.
#[derive(Clone, Copy, Debug, PartialEq, Eq, PartialOrd, Ord, Structural)]
pub enum AuthMech {
    Anonymous,
    Password,
    PasswordBackupCode,
    /// Password followed by a time-based one-time code.
    PasswordTotp,
    PasswordSecurityKey,
    Passkey,
}

impl AuthMech {
    /// The position of the mechanism in the order of the type.
    pub open spec fn spec_rank(self) -> u8 {
        match self {
            AuthMech::Anonymous => 0,
            AuthMech::Password => 1,
            AuthMech::PasswordBackupCode => 2,
            AuthMech::PasswordTotp => 3,
            AuthMech::PasswordSecurityKey => 4,
            AuthMech::Passkey => 5,
        }
    }

    /// The position of the mechanism in the order of the type.
    #[verifier::when_used_as_spec(spec_rank)]
    pub fn rank(self) -> (r: u8)
        ensures
            r == self.spec_rank(),
    {
        match self {
            AuthMech::Anonymous => 0,
            AuthMech::Password => 1,
            AuthMech::PasswordBackupCode => 2,
            AuthMech::PasswordTotp => 3,
            AuthMech::PasswordSecurityKey => 4,
            AuthMech::Passkey => 5,
        }
    }
}

/// A challenge that the server accepts within the chosen mechanism.
#[derive(Clone, Copy, Debug, PartialEq, Eq, Structural)]
pub enum AuthAllowed {
    Anonymous,
    BackupCode,
    Password,
    Totp,
}

/// The session artifact that the client asks for.
#[derive(Clone, Copy, Debug, PartialEq, Eq, Structural)]
pub enum AuthIssueSession {
    /// A bearer token.
    Token,
}

/// A credential given in answer to a challenge.
#[derive(Clone, Debug, PartialEq, Eq)]
pub enum AuthCredential {
    Anonymous,
    Password(String),
    Totp(u32),
}

/// The view of an [`AuthCredential`].
pub enum AuthCredentialView {
    Anonymous,
    Password(Seq<char>),
    Totp(u32),
}

impl View for AuthCredential {
    type V = AuthCredentialView;

    open spec fn view(&self) -> AuthCredentialView {
        match self {
            AuthCredential::Anonymous => AuthCredentialView::Anonymous,
            AuthCredential::Password(p) => AuthCredentialView::Password(p@),
            AuthCredential::Totp(code) => AuthCredentialView::Totp(*code),
        }
    }
}

/// The state of a negotiation as the server reports it.
#[derive(Clone, Debug, PartialEq, Eq)]
pub enum AuthState {
    /// The client has to pick one of these mechanisms.
    Choose(Vec<AuthMech>),
    /// The client has to answer one of these challenges.
    Continue(Vec<AuthAllowed>),
    /// The negotiation is over and has failed, for this reason.
    Denied(String),
    /// The negotiation is over and this bearer token was issued.
    Success(String),
}

/// The view of an [`AuthState`].
pub enum AuthStateView {
    Choose(Seq<AuthMech>),
    Continue(Seq<AuthAllowed>),
    Denied(Seq<char>),
    Success(Seq<char>),
}

impl View for AuthState {
    type V = AuthStateView;

    open spec fn view(&self) -> AuthStateView {
        match self {
            AuthState::Choose(mechs) => AuthStateView::Choose(mechs@),
            AuthState::Continue(allowed) => AuthStateView::Continue(allowed@),
            AuthState::Denied(reason) => AuthStateView::Denied(reason@),
            AuthState::Success(token) => AuthStateView::Success(token@),
        }
    }
}

/// One step of a negotiation, as the client sends it.
#[derive(Clone, Debug, PartialEq, Eq)]
pub enum AuthStep {
    /// Opens a negotiation for an identity.
    Init2 {
        username: String,
        issue: AuthIssueSession,
        /// Whether the session asks for read and write access.
        privileged: bool,
    },
    /// Picks the mechanism to go on with.
    Begin(AuthMech),
    /// Answers a challenge.
    Cred(AuthCredential),
}

/// The view of an [`AuthStep`].
pub enum AuthStepView {
    Init2 { username: Seq<char>, issue: AuthIssueSession, privileged: bool },
    Begin(AuthMech),
    Cred(AuthCredentialView),
}

impl View for AuthStep {
    type V = AuthStepView;

    open spec fn view(&self) -> AuthStepView {
        match self {
            AuthStep::Init2 { username, issue, privileged } => AuthStepView::Init2 {
                username: username@,
                issue: *issue,
                privileged: *privileged,
            },
            AuthStep::Begin(mech) => AuthStepView::Begin(*mech),
            AuthStep::Cred(cred) => AuthStepView::Cred(cred@),
        }
    }
}

/// The body of a request to the negotiation endpoint.
#[derive(Clone, Debug, PartialEq, Eq)]
pub struct AuthRequest {
    pub step: AuthStep,
}

impl View for AuthRequest {
    type V = AuthStepView;

    /// A request is seen as the step it carries.
    open spec fn view(&self) -> AuthStepView {
        self.step@
    }
}

/// The body of a response from the negotiation endpoint.
#[derive(Clone, Debug, PartialEq, Eq)]
pub struct AuthResponse {
    pub state: AuthState,
}

impl View for AuthResponse {
    type V = AuthStateView;

    /// A response is seen as the state it carries.
    open spec fn view(&self) -> AuthStateView {
        self.state@
    }
}

/// A request body that holds one string.
#[derive(Clone, Debug, PartialEq, Eq)]
pub struct SingleStringRequest {
    pub value: String,
}

impl View for SingleStringRequest {
    type V = Seq<char>;

    /// The request is seen as the text it carries.
    open spec fn view(&self) -> Seq<char> {
        self.value@
    }
}

/// What the directory says of a credential that it was asked to check.
#[derive(Clone, Copy, Debug, PartialEq, Eq, Structural)]
pub struct UnixUserToken {
    /// Whether the credential is valid. A payload without the flag counts as
    /// not valid.
    pub valid: bool,
}

impl Default for UnixUserToken {
    /// The token of a payload that says nothing: not valid.
    fn default() -> (token: UnixUserToken)
        ensures
            !token.valid,
    {
        UnixUserToken { valid: false }
    }
}

} // verus!
