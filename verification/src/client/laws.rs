//! What holds of every negotiation, proved from the rules of the client.
//!
//! A run is a negotiation from its opening request on: each request that the
//! client hands out is sent, what comes back is taken in head first and body
//! second, and the answer decides the next step.

use vstd::prelude::*;
use crate::client::error::{ErrorView, TransportErrorView};
use crate::client::model::{
    anonymous_name, auth_path, auth_post_request, auth_post_session, authorization_name, bearer,
    post_request, post_response, session_id_name, ClientView, HttpRequestView,
};
use crate::client::negotiation::{
    auth_anonymous_step, auth_init_step, AuthActionView, AuthPhase,
};
use crate::client::proto::{AuthCredentialView, AuthMech, AuthStateView, AuthStepView};

verus! {

/// What became of one request on the wire.
pub enum Exchange {
    /// No response arrived.
    Failed(TransportErrorView),
    /// A response arrived, with this status and, if it had one, this
    /// session-affinity header. `body` is what reading the body gives.
    Answered {
        status: u16,
        session_id: Option<Seq<u8>>,
        body: Result<AuthStateView, TransportErrorView>,
    },
}

/// The answer that the negotiation gets from an exchange: the body of a
/// response is read only where its status is 200.
pub open spec fn exchange_reply(x: Exchange) -> Result<AuthStateView, TransportErrorView> {
    match x {
        Exchange::Failed(e) => Err(e),
        Exchange::Answered { status, session_id, body } => match post_response(status) {
            Ok(_) => body,
            Err(e) => Err(e@),
        },
    }
}

/// The client after it has taken in the head of what came back.
pub open spec fn exchange_client(c: ClientView, x: Exchange) -> ClientView {
    match x {
        Exchange::Failed(_) => c,
        Exchange::Answered { status, session_id, body } => auth_post_session(c, status, session_id),
    }
}

/// A request as it was sent: head and body.
pub type Sent = (HttpRequestView, AuthStepView);

/// A negotiation as far as it got.
pub struct Run {
    /// The client at the end.
    pub client: ClientView,
    /// The phase at the end.
    pub phase: AuthPhase,
    /// The requests that were sent, in order.
    pub sent: Seq<Sent>,
    /// The result, if the negotiation is over.
    pub result: Option<Result<(), ErrorView>>,
}

/// The run that goes on from a phase with one request out, through the
/// exchanges that follow.
pub open spec fn run_from(
    c: ClientView,
    phase: AuthPhase,
    sent: Seq<Sent>,
    exchanges: Seq<Exchange>,
) -> Run
    decreases exchanges.len(),
{
    if exchanges.len() == 0 {
        Run { client: c, phase, sent, result: None }
    } else {
        let step = auth_anonymous_step(
            exchange_client(c, exchanges[0]),
            phase,
            exchange_reply(exchanges[0]),
        );
        match step.action {
            AuthActionView::Finish(result) => Run {
                client: step.client,
                phase: step.phase,
                sent,
                result: Some(result),
            },
            AuthActionView::Send(head, body) => run_from(
                step.client,
                step.phase,
                sent.push((head, body)),
                exchanges.drop_first(),
            ),
        }
    }
}

/// The anonymous negotiation of a client, through the exchanges given.
pub open spec fn run(c: ClientView, exchanges: Seq<Exchange>) -> Run {
    run_from(
        c,
        AuthPhase::Init,
        seq![(auth_post_request(c, auth_path()), auth_init_step(anonymous_name()))],
        exchanges,
    )
}

/// Whether an answer is the one that lets request number `k` of a
/// negotiation be followed by the next: an offer that holds the anonymous
/// mechanism, then a list of challenges, then a token.
pub open spec fn in_order(k: int, reply: Result<AuthStateView, TransportErrorView>) -> bool {
    if k == 0 {
        reply matches Ok(AuthStateView::Choose(mechs)) && mechs.contains(AuthMech::Anonymous)
    } else if k == 1 {
        reply matches Ok(AuthStateView::Continue(_))
    } else {
        k == 2 && reply matches Ok(AuthStateView::Success(_))
    }
}

/// How many exchanges, from the first on, went as the negotiation asks.
pub open spec fn progress(exchanges: Seq<Exchange>) -> int {
    if !(exchanges.len() > 0 && in_order(0, exchange_reply(exchanges[0]))) {
        0
    } else if !(exchanges.len() > 1 && in_order(1, exchange_reply(exchanges[1]))) {
        1
    } else if !(exchanges.len() > 2 && in_order(2, exchange_reply(exchanges[2]))) {
        2
    } else {
        3
    }
}

/// The error that an answer out of order ends the negotiation with.
pub open spec fn failure(reply: Result<AuthStateView, TransportErrorView>) -> ErrorView {
    match reply {
        Err(e) => ErrorView::UReq(e),
        Ok(_) => ErrorView::AuthenticationFailed,
    }
}

/// The body of request number `k` of an anonymous negotiation.
pub open spec fn request_step(k: int) -> AuthStepView {
    if k == 0 {
        auth_init_step(anonymous_name())
    } else if k == 1 {
        AuthStepView::Begin(AuthMech::Anonymous)
    } else {
        AuthStepView::Cred(AuthCredentialView::Anonymous)
    }
}

/// A negotiation succeeds exactly when the server reports, in this order, an
/// offer that holds the anonymous mechanism, a list of challenges and a
/// token. The first answer that is anything else ends it: with the error of
/// the round trip if that failed, and as a failed authentication otherwise.
/// Until then the client sends the opening request, the choice and the
/// credential, each once and in this order, and nothing after the end.
pub proof fn law_negotiation_order(c: ClientView, exchanges: Seq<Exchange>)
    ensures
        run(c, exchanges).result == Some(Ok::<(), ErrorView>(())) <==> progress(exchanges) == 3,
        progress(exchanges) < 3 && progress(exchanges) < exchanges.len() ==> run(
            c,
            exchanges,
        ).result == Some(
            Err::<(), ErrorView>(failure(exchange_reply(exchanges[progress(exchanges)]))),
        ),
        progress(exchanges) < 3 && progress(exchanges) == exchanges.len() ==> run(
            c,
            exchanges,
        ).result is None,
        run(c, exchanges).sent.len() == if progress(exchanges) < 3 {
            progress(exchanges) + 1
        } else {
            3
        },
        forall|k: int|
            0 <= k < run(c, exchanges).sent.len() ==> (#[trigger] run(c, exchanges).sent[k]).1
                == request_step(k),
{
    reveal_with_fuel(run_from, 4);
    if exchanges.len() > 0 {
        let x1 = exchanges.drop_first();
        if x1.len() > 0 {
            let x2 = x1.drop_first();
            assert(x1[0] == exchanges[1]);
            if x2.len() > 0 {
                assert(x2[0] == exchanges[2]);
            }
        }
    }
}

/// If the offer of the server does not hold the anonymous mechanism, the
/// negotiation ends there as a failed authentication, and the opening request
/// is all that was sent: no choice of a mechanism goes out.
pub proof fn law_absent_mechanism_sends_no_choice(
    c: ClientView,
    exchanges: Seq<Exchange>,
    mechs: Seq<AuthMech>,
)
    requires
        exchanges.len() > 0,
        exchange_reply(exchanges[0]) == Ok::<AuthStateView, TransportErrorView>(
            AuthStateView::Choose(mechs),
        ),
        !mechs.contains(AuthMech::Anonymous),
    ensures
        run(c, exchanges).result == Some(Err::<(), ErrorView>(ErrorView::AuthenticationFailed)),
        run(c, exchanges).sent == seq![
            (auth_post_request(c, auth_path()), auth_init_step(anonymous_name())),
        ],
        forall|k: int|
            0 <= k < run(c, exchanges).sent.len() ==> !((#[trigger] run(c, exchanges).sent[k]).1
                is Begin),
{
    reveal_with_fuel(run_from, 2);
}

/// The token that a client holds changes in one way only: the last step of a
/// negotiation that succeeds puts the issued token in its place. The head of
/// a response never touches it.
pub proof fn law_token_kept(
    c: ClientView,
    phase: AuthPhase,
    reply: Result<AuthStateView, TransportErrorView>,
    status: u16,
    session_id: Option<Seq<u8>>,
)
    ensures
        auth_post_session(c, status, session_id).token == c.token,
        auth_anonymous_step(c, phase, reply).client.token == match (phase, reply) {
            (AuthPhase::Continuing, Ok(AuthStateView::Success(token))) => Some(token),
            _ => c.token,
        },
{
}

/// Once a negotiation has succeeded, the client holds the token that the
/// server issued and no session-affinity identifier. Every request that it
/// makes from then on, within a negotiation or outside one, carries the
/// token as bearer and no other header: the identifier of the negotiation
/// that is over goes out on none of them.
pub proof fn law_token_carried_after_success(
    c: ClientView,
    exchanges: Seq<Exchange>,
    dest: Seq<char>,
)
    requires
        run(c, exchanges).result == Some(Ok::<(), ErrorView>(())),
    ensures
        exchanges.len() >= 3,
        exchange_reply(exchanges[2]) matches Ok(AuthStateView::Success(token)) && {
            let after = run(c, exchanges).client;
            &&& after.token == Some(token)
            &&& after.session_id is None
            &&& post_request(after, dest).headers == seq![(authorization_name(), bearer(token))]
            &&& auth_post_request(after, dest).headers == seq![
                (authorization_name(), bearer(token)),
            ]
            &&& forall|i: int|
                0 <= i < auth_post_request(after, dest).headers.len() ==> (
                #[trigger] auth_post_request(after, dest).headers[i]).0 != session_id_name()
        },
{
    law_negotiation_order(c, exchanges);
    reveal_with_fuel(run_from, 4);
    let x1 = exchanges.drop_first();
    let x2 = x1.drop_first();
    assert(x1[0] == exchanges[1]);
    assert(x2[0] == exchanges[2]);
    lemma_header_names_differ();
    let after = run(c, exchanges).client;
    assert(auth_post_request(after, dest).headers =~= post_request(after, dest).headers);
}

/// The session-affinity identifier that a client holds changes in two ways
/// only: the head of a 200 response that carries one puts it in place, and
/// the last step of a negotiation that succeeds drops it.
pub proof fn law_session_id_kept(
    c: ClientView,
    phase: AuthPhase,
    reply: Result<AuthStateView, TransportErrorView>,
    status: u16,
    session_id: Option<Seq<u8>>,
)
    ensures
        auth_post_session(c, status, session_id).session_id == if status == 200
            && session_id is Some {
            session_id
        } else {
            c.session_id
        },
        auth_anonymous_step(c, phase, reply).client.session_id == match (phase, reply) {
            (AuthPhase::Continuing, Ok(AuthStateView::Success(_))) => None,
            _ => c.session_id,
        },
{
}

/// The two header names of the client are not the same name.
pub proof fn lemma_header_names_differ()
    ensures
        authorization_name() != session_id_name(),
{
    reveal_strlit("Authorization");
    reveal_strlit("X-KANIDM-AUTH-SESSION-ID");
    assert(authorization_name().len() == 13);
    assert(session_id_name().len() == 24);
}

/// The session-affinity identifier that a 200 response carries is kept as it
/// was received, byte for byte and in place of any earlier one, and is the
/// value of the session-affinity header of the negotiation request that
/// follows.
pub proof fn law_session_id_echoed(c: ClientView, session_id: Seq<u8>, dest: Seq<char>)
    ensures
        ({
            let after = auth_post_session(c, 200, Some(session_id));
            &&& after.session_id == Some(session_id)
            &&& auth_post_request(after, dest).headers.last() == (session_id_name(), session_id)
        }),
{
}

/// In a negotiation, each request but the first follows a 200 response. If
/// that response carried a session-affinity header, the request carries its
/// value, unchanged, in its own; if not, the request carries the headers of
/// the request before it.
pub proof fn law_run_echoes_session_id(c: ClientView, exchanges: Seq<Exchange>, k: int)
    requires
        0 <= k,
        k + 1 < run(c, exchanges).sent.len(),
    ensures
        k < exchanges.len(),
        exchanges[k] matches Exchange::Answered { status, session_id, body } && {
            &&& status == 200
            &&& match session_id {
                Some(id) => run(c, exchanges).sent[k + 1].0.headers.last() == (
                    session_id_name(),
                    id,
                ),
                None => run(c, exchanges).sent[k + 1].0.headers == run(
                    c,
                    exchanges,
                ).sent[k].0.headers,
            }
        },
{
    law_negotiation_order(c, exchanges);
    reveal_with_fuel(run_from, 4);
    if exchanges.len() > 1 {
        assert(exchanges.drop_first()[0] == exchanges[1]);
    }
}

} // verus!
