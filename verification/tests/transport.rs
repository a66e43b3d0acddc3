use kanidm_auth_plugin::client::negotiation::AuthPhase;
use kanidm_auth_plugin::client::proto::{AuthResponse, AuthState, SingleStringRequest, UnixUserToken};
use kanidm_auth_plugin::client::transport::{Header, HttpRequest};
use kanidm_auth_plugin::client::{
    credential_verified, Error, KanidmClient, TransportError, AUTHORIZATION, AUTH_PATH, SESSION_ID,
};

fn header(name: &str, value: &str) -> Header {
    Header { name: name.to_string(), value: value.as_bytes().to_vec() }
}

fn bytes(text: &str) -> Option<Vec<u8>> {
    Some(text.as_bytes().to_vec())
}

/// A client that has been through a negotiation in which the server set the
/// session-affinity identifier `session_id`, if one is given, and issued
/// `token`.
fn client_with(token: &str, session_id: Option<&str>) -> KanidmClient {
    let mut client = KanidmClient::new("https://idm.example.com".to_string());
    if let Some(id) = session_id {
        assert_eq!(client.auth_post_response(200, bytes(id)), Ok(()));
    }
    let state = AuthState::Success(token.to_string());
    client.auth_anonymous(AuthPhase::Continuing, Ok(AuthResponse { state }));
    client
}

#[test]
fn new_client_holds_nothing() {
    let client = KanidmClient::new("https://idm.example.com".to_string());
    assert_eq!(client.base_url(), "https://idm.example.com");
    assert_eq!(client.token(), &None);
    assert_eq!(client.session_id(), &None);
    assert_eq!(
        client.auth_post("/v1/auth"),
        HttpRequest { url: "https://idm.example.com/v1/auth".to_string(), headers: vec![] }
    );
    assert_eq!(
        client.post("/v1/self"),
        HttpRequest { url: "https://idm.example.com/v1/self".to_string(), headers: vec![] }
    );
}

#[test]
fn names_on_the_wire() {
    assert_eq!(AUTHORIZATION, "Authorization");
    assert_eq!(SESSION_ID, "X-KANIDM-AUTH-SESSION-ID");
    assert_eq!(AUTH_PATH, "/v1/auth");
}

#[test]
fn url_is_base_then_path_with_nothing_between() {
    let client = KanidmClient::new("http://localhost:8443/".to_string());
    assert_eq!(client.post("/v1/auth").url, "http://localhost:8443//v1/auth");
    assert_eq!(client.auth_post("").url, "http://localhost:8443/");
    let client = KanidmClient::new(String::new());
    assert_eq!(client.auth_post("/x").url, "/x");
}

#[test]
fn requests_after_success_carry_the_bearer_token() {
    let client = client_with("tok-123", Some("sess-1"));
    assert_eq!(client.token(), &Some("tok-123".to_string()));
    assert_eq!(client.session_id(), &None);
    let plain = client.post("/v1/self");
    assert_eq!(plain.headers, vec![header("Authorization", "Bearer tok-123")]);
    let (verify, _) = client.idm_account_unix_cred_verify("bob", "pw".to_string());
    assert_eq!(verify.headers, vec![header("Authorization", "Bearer tok-123")]);
    let negotiation = client.auth_post("/v1/auth");
    assert_eq!(negotiation.headers, vec![header("Authorization", "Bearer tok-123")]);
    for head in [plain, verify, negotiation] {
        assert!(head.headers.iter().all(|h| h.name != SESSION_ID));
    }
}

#[test]
fn negotiation_under_way_with_a_token_carries_both() {
    let mut client = client_with("tok-123", None);
    assert_eq!(client.auth_post_response(200, bytes("sess-2")), Ok(()));
    assert_eq!(
        client.auth_post("/v1/auth").headers,
        vec![
            header("Authorization", "Bearer tok-123"),
            header("X-KANIDM-AUTH-SESSION-ID", "sess-2"),
        ]
    );
    assert_eq!(client.post("/v1/self").headers, vec![header("Authorization", "Bearer tok-123")]);
}

#[test]
fn bearer_value_is_the_token_as_utf8() {
    let client = client_with("t\u{f6}k-\u{20ac}", None);
    let head = client.post("/p");
    assert_eq!(head.headers.len(), 1);
    assert_eq!(head.headers[0].name, "Authorization");
    assert_eq!(
        head.headers[0].value,
        vec![b'B', b'e', b'a', b'r', b'e', b'r', b' ', b't', 0xc3, 0xb6, b'k', b'-', 0xe2, 0x82, 0xac]
    );
}

#[test]
fn token_survives_responses_and_failed_negotiations() {
    let mut client = client_with("tok-123", None);
    assert_eq!(client.auth_post_response(200, bytes("s")), Ok(()));
    assert_eq!(client.auth_post_response(500, None), Err(TransportError::StatusCode(500)));
    let denied = AuthState::Denied("no".to_string());
    client.auth_anonymous(AuthPhase::Continuing, Ok(AuthResponse { state: denied }));
    client.auth_anonymous(AuthPhase::Init, Err(TransportError::Other("reset".to_string())));
    assert_eq!(client.token(), &Some("tok-123".to_string()));
    assert_eq!(client.post("/p").headers, vec![header("Authorization", "Bearer tok-123")]);
}

#[test]
fn later_success_replaces_the_token() {
    let mut client = client_with("first", None);
    let state = AuthState::Success("second".to_string());
    client.auth_anonymous(AuthPhase::Continuing, Ok(AuthResponse { state }));
    assert_eq!(client.post("/p").headers, vec![header("Authorization", "Bearer second")]);
}

#[test]
fn empty_token_is_still_sent() {
    let client = client_with("", None);
    assert_eq!(client.post("/p").headers, vec![header("Authorization", "Bearer ")]);
}

#[test]
fn session_id_is_stored_as_received() {
    let mut client = KanidmClient::new("https://idm.example.com".to_string());
    let received = "  aB3/+=_-.~ \t9f8e7d6c-5b4a  ";
    assert_eq!(client.auth_post_response(200, bytes(received)), Ok(()));
    assert_eq!(client.session_id(), &bytes(received));
    let next = client.auth_post("/v1/auth");
    assert_eq!(next.headers, vec![header("X-KANIDM-AUTH-SESSION-ID", received)]);
    assert_eq!(next.headers[0].value, received.as_bytes());
}

#[test]
fn session_id_that_is_not_text_is_stored_and_echoed_byte_for_byte() {
    let mut client = KanidmClient::new("https://idm.example.com".to_string());
    let received: Vec<u8> = vec![b'a', 0x80, 0xff, b'\t', b' ', 0xc3, 0x28, b'z'];
    assert_eq!(client.auth_post_response(200, Some(received.clone())), Ok(()));
    assert_eq!(client.session_id(), &Some(received.clone()));
    let next = client.auth_post("/v1/auth");
    assert_eq!(next.headers.len(), 1);
    assert_eq!(next.headers[0].name, "X-KANIDM-AUTH-SESSION-ID");
    assert_eq!(next.headers[0].value, received);
}

#[test]
fn empty_session_id_is_stored_and_echoed() {
    let mut client = KanidmClient::new("https://idm.example.com".to_string());
    assert_eq!(client.auth_post_response(200, bytes("one")), Ok(()));
    assert_eq!(client.auth_post_response(200, Some(vec![])), Ok(()));
    assert_eq!(client.session_id(), &Some(vec![]));
    assert_eq!(client.auth_post("/v1/auth").headers, vec![header("X-KANIDM-AUTH-SESSION-ID", "")]);
}

#[test]
fn session_id_is_overwritten_by_a_later_one() {
    let mut client = KanidmClient::new("https://idm.example.com".to_string());
    assert_eq!(client.auth_post_response(200, bytes("one")), Ok(()));
    assert_eq!(client.auth_post_response(200, bytes("two")), Ok(()));
    assert_eq!(client.session_id(), &bytes("two"));
    assert_eq!(
        client.auth_post("/v1/auth").headers,
        vec![header("X-KANIDM-AUTH-SESSION-ID", "two")]
    );
}

#[test]
fn session_id_is_kept_where_the_response_has_none() {
    let mut client = KanidmClient::new("https://idm.example.com".to_string());
    assert_eq!(client.auth_post_response(200, bytes("one")), Ok(()));
    assert_eq!(client.auth_post_response(200, None), Ok(()));
    assert_eq!(client.session_id(), &bytes("one"));
}

#[test]
fn session_id_of_a_failed_response_is_not_stored() {
    let mut client = KanidmClient::new("https://idm.example.com".to_string());
    assert_eq!(client.auth_post_response(200, bytes("one")), Ok(()));
    for status in [0u16, 100, 199, 201, 204, 301, 400, 403, 500, 599, u16::MAX] {
        assert_eq!(
            client.auth_post_response(status, bytes("other")),
            Err(TransportError::StatusCode(status))
        );
        assert_eq!(client.session_id(), &bytes("one"));
    }
}

#[test]
fn plain_request_never_carries_the_session_id() {
    let mut client = KanidmClient::new("https://idm.example.com".to_string());
    assert_eq!(client.auth_post_response(200, bytes("one")), Ok(()));
    assert_eq!(client.post("/v1/self").headers, vec![]);
    assert_eq!(client.post_response(200), Ok(()));
    assert_eq!(client.session_id(), &bytes("one"));
}

#[test]
fn verification_request() {
    let client = client_with("tok-123", Some("sess-1"));
    let (head, body) = client.idm_account_unix_cred_verify("bob", "correct horse".to_string());
    assert_eq!(head.url, "https://idm.example.com/v1/account/bob/_unix/_auth");
    assert_eq!(head.headers, vec![header("Authorization", "Bearer tok-123")]);
    assert_eq!(body, SingleStringRequest { value: "correct horse".to_string() });
    let (head, body) = client.idm_account_unix_cred_verify("", String::new());
    assert_eq!(head.url, "https://idm.example.com/v1/account//_unix/_auth");
    assert_eq!(body.value, "");
}

#[test]
fn verification_without_a_token_sends_no_authorization() {
    let client = KanidmClient::new("https://idm.example.com".to_string());
    let (head, _) = client.idm_account_unix_cred_verify("alice", "pw".to_string());
    assert_eq!(head.headers, vec![]);
}

#[test]
fn verification_reports_valid() {
    let client = client_with("tok-123", None);
    assert_eq!(client.post_response(200), Ok(()));
    let outcome =
        KanidmClient::idm_account_unix_cred_verify_reply(Ok(Some(UnixUserToken { valid: true })));
    assert_eq!(outcome, Ok(Some(UnixUserToken { valid: true })));
    assert!(credential_verified(&outcome));
}

#[test]
fn verification_without_the_flag_reports_not_valid() {
    let token = UnixUserToken::default();
    assert!(!token.valid);
    let outcome = KanidmClient::idm_account_unix_cred_verify_reply(Ok(Some(token)));
    assert_eq!(outcome, Ok(Some(UnixUserToken { valid: false })));
    assert!(!credential_verified(&outcome));
}

#[test]
fn verification_of_an_unknown_identity_reports_not_valid() {
    let outcome = KanidmClient::idm_account_unix_cred_verify_reply(Ok(None));
    assert_eq!(outcome, Ok(None));
    assert!(!credential_verified(&outcome));
}

#[test]
fn verification_refused_is_a_transport_error() {
    let client = client_with("tok-123", None);
    let head = client.post_response(403);
    assert_eq!(head, Err(TransportError::StatusCode(403)));
    let outcome = KanidmClient::idm_account_unix_cred_verify_reply(Err(head.unwrap_err()));
    assert_eq!(outcome, Err(Error::UReq(TransportError::StatusCode(403))));
    assert_ne!(outcome, Ok(Some(UnixUserToken { valid: false })));
    assert_ne!(outcome, Ok(None));
    assert!(!credential_verified(&outcome));
}

#[test]
fn verification_server_error_is_surfaced_with_its_status() {
    let client = client_with("tok-123", None);
    let head = client.post_response(500);
    let outcome = KanidmClient::idm_account_unix_cred_verify_reply(head.map(|_| None));
    assert_eq!(outcome, Err(Error::UReq(TransportError::StatusCode(500))));
    assert!(!credential_verified(&outcome));
}

#[test]
fn verification_body_that_does_not_decode() {
    let e = TransportError::Json("invalid type".to_string());
    let outcome = KanidmClient::idm_account_unix_cred_verify_reply(Err(e.clone()));
    assert_eq!(outcome, Err(Error::UReq(e)));
    assert!(!credential_verified(&outcome));
    assert!(!credential_verified(&Err(Error::AuthenticationFailed)));
}

#[test]
fn transport_error_becomes_an_error() {
    assert_eq!(
        Error::from(TransportError::StatusCode(418)),
        Error::UReq(TransportError::StatusCode(418))
    );
    let e = TransportError::Other("dns".to_string());
    assert_eq!(Error::from(e.clone()), Error::UReq(e));
}
