//! The transport rules as mathematics: which head a request gets and what
//! the head of a response does to the client, stated over views.

use vstd::prelude::*;
use crate::client::error::TransportError;

verus! {

/// What a client holds: where the directory is, and the two credentials that
/// it carries from one request to the next.
pub struct ClientView {
    pub base_url: Seq<char>,
    /// The bearer token of the last negotiation that succeeded.
    pub token: Option<Seq<char>>,
    /// The session-affinity identifier that the server gave last, as the
    /// bytes of the header that brought it.
    pub session_id: Option<Seq<u8>>,
}

/// A header of a request: its name, then the bytes of its value.
pub type HeaderView = (Seq<char>, Seq<u8>);

/// The head of a request: where it goes and the headers it carries.
pub struct HttpRequestView {
    pub url: Seq<char>,
    pub headers: Seq<HeaderView>,
}

/// The name of the header that carries the bearer token.
pub open spec fn authorization_name() -> Seq<char> {
    "Authorization"@
}

/// The name of the header that carries the session-affinity identifier.
pub open spec fn session_id_name() -> Seq<char> {
    "X-KANIDM-AUTH-SESSION-ID"@
}

/// The path of the negotiation endpoint.
pub open spec fn auth_path() -> Seq<char> {
    "/v1/auth"@
}

/// The identity that an anonymous negotiation is opened for.
pub open spec fn anonymous_name() -> Seq<char> {
    "anonymous"@
}

/// The path of the endpoint that checks the credential of an identity.
pub open spec fn unix_auth_path(id: Seq<char>) -> Seq<char> {
    "/v1/account/"@ + id + "/_unix/_auth"@
}

/// The value of the authorization header for a token: the word `Bearer`, a
/// space and the token, as UTF-8.
pub open spec fn bearer(token: Seq<char>) -> Seq<u8> {
    vstd::utf8::encode_utf8("Bearer "@ + token)
}

/// The authorization header, where a token is held.
pub open spec fn token_headers(token: Option<Seq<char>>) -> Seq<HeaderView> {
    match token {
        Some(t) => seq![(authorization_name(), bearer(t))],
        None => seq![],
    }
}

/// The session-affinity header, where an identifier is held.
pub open spec fn session_headers(session_id: Option<Seq<u8>>) -> Seq<HeaderView> {
    match session_id {
        Some(id) => seq![(session_id_name(), id)],
        None => seq![],
    }
}

/// The head of a request to the negotiation endpoint, or to any other path
/// that takes part in a negotiation.
pub open spec fn auth_post_request(c: ClientView, dest: Seq<char>) -> HttpRequestView {
    HttpRequestView {
        url: c.base_url + dest,
        headers: token_headers(c.token) + session_headers(c.session_id),
    }
}

/// The head of a request that takes no part in a negotiation.
pub open spec fn post_request(c: ClientView, dest: Seq<char>) -> HttpRequestView {
    HttpRequestView { url: c.base_url + dest, headers: token_headers(c.token) }
}

/// Whether a response with this status is read further.
pub open spec fn post_response(status: u16) -> Result<(), TransportError> {
    if status == 200 {
        Ok(())
    } else {
        Err(TransportError::StatusCode(status))
    }
}

/// The client after the head of a response to a negotiation request: a 200
/// response that carries a session-affinity header replaces the identifier,
/// byte for byte.
pub open spec fn auth_post_session(
    c: ClientView,
    status: u16,
    session_id: Option<Seq<u8>>,
) -> ClientView {
    if status == 200 && session_id is Some {
        ClientView { session_id, ..c }
    } else {
        c
    }
}

} // verus!
