//! The request dispatcher as a state machine: which step follows which
//! reply, and what holds of every run of it.
//!
//! One logical request makes up to three attempts. The first uses a cached
//! cookie if there is one; the second and third log in again first. Only a
//! 403 on the operation itself leads to another attempt: a failed login, a
//! transport failure and every other status end the request.

use crate::error::{ApiError, QbitError};
use crate::ext::{cookie_of, ResponseHead, ResponseHeadView, FORBIDDEN};
use crate::model::CredentialView;
use crate::session::SessionView;
use vstd::prelude::*;

verus! {

/// The number of attempts one logical request may make.
pub const MAX_ATTEMPTS: u8 = 3;

/// What the transport hands back for one call: the head of the response,
/// or its own error.
pub type Reply = Result<ResponseHead, reqwest::Error>;

/// How one logical request ends.
pub type Outcome = Result<ResponseHead, QbitError>;

/// The next thing to do for a request, as sequences of characters.
pub enum StepView {
    /// Make the login call with this credential.
    Login { attempt: u8, credential: CredentialView },
    /// Send the operation with this cookie attached.
    Send { attempt: u8, cookie: Seq<char> },
    /// The request is over.
    Done(Outcome),
}

/// Whether `login(force)` has to call the service: always when forced,
/// and otherwise only without a cached cookie.
pub open spec fn login_needed(s: SessionView, force: bool) -> bool {
    force || s.cookie() is None
}

/// The first step of attempt number `attempt`: every attempt but the first
/// forces a login.
pub open spec fn spec_attempt(s: SessionView, attempt: u8) -> StepView {
    if login_needed(s, attempt != 0) {
        StepView::Login { attempt, credential: s.login_credential() }
    } else {
        StepView::Send { attempt, cookie: s.cookie().unwrap() }
    }
}

/// What a login response gives: 403 means that the address is banned;
/// every other response is read for its session cookie.
pub open spec fn login_result(head: ResponseHeadView) -> Result<Seq<char>, QbitError> {
    if head.status == FORBIDDEN {
        Err(QbitError::ApiError(ApiError::IpBanned))
    } else {
        cookie_of(head)
    }
}

/// The session after the login call has been answered: only a login that
/// gave a cookie changes it.
pub open spec fn session_after_login(s: SessionView, reply: Reply) -> SessionView {
    match reply {
        Err(_) => s,
        Ok(head) => match login_result(head@) {
            Err(_) => s,
            Ok(cookie) => s.add_cookie(cookie),
        },
    }
}

/// The error that ends a login, if it failed.
pub open spec fn login_error(reply: Reply) -> Option<QbitError> {
    match reply {
        Err(e) => Some(QbitError::HttpError(e)),
        Ok(head) => match login_result(head@) {
            Err(err) => Some(err),
            Ok(_) => None,
        },
    }
}

/// The step after the login call of attempt `attempt` has been answered: a
/// failed login ends the request; after a good one the operation is sent
/// with the cookie that the session now holds.
pub open spec fn spec_after_login(s: SessionView, attempt: u8, reply: Reply) -> StepView {
    match login_error(reply) {
        Some(err) => StepView::Done(Err(err)),
        None => StepView::Send {
            attempt,
            cookie: session_after_login(s, reply).cookie().unwrap(),
        },
    }
}

/// The step after the operation of attempt `attempt` has been answered: a
/// transport failure ends the request; 403 leads to the next attempt, or
/// to "not logged in" after the last one; every other response is handed
/// to the caller.
pub open spec fn spec_after_send(s: SessionView, attempt: u8, reply: Reply) -> StepView {
    match reply {
        Err(e) => StepView::Done(Err(QbitError::HttpError(e))),
        Ok(head) => if head.status == FORBIDDEN {
            if attempt >= MAX_ATTEMPTS - 1 {
                StepView::Done(Err(QbitError::ApiError(ApiError::NotLoggedIn)))
            } else {
                spec_attempt(s, (attempt + 1) as u8)
            }
        } else {
            StepView::Done(Ok(head))
        },
    }
}

/// What one run of a request came to.
pub struct Trace {
    /// The session at the end.
    pub session: SessionView,
    /// How many login calls were made.
    pub logins: nat,
    /// How many times the operation was sent.
    pub sends: nat,
    /// How the request ended.
    pub outcome: Outcome,
}

/// The attempts that are left at attempt number `attempt`.
pub open spec fn attempts_left(attempt: u8) -> nat {
    if attempt < MAX_ATTEMPTS {
        (MAX_ATTEMPTS - attempt) as nat
    } else {
        1
    }
}

/// The longest that a run can still take from a step, in calls.
pub open spec fn calls_left(step: StepView) -> nat {
    match step {
        StepView::Login { attempt, .. } => 2 * attempts_left(attempt),
        StepView::Send { attempt, .. } => (2 * attempts_left(attempt) - 1) as nat,
        StepView::Done(_) => 0,
    }
}

/// Runs a request from `step` to its end against a transport that answers
/// the login call number `k` with `login_reply(k)` and the sent operation
/// number `k` with `send_reply(k)`, after `logins` login calls and `sends`
/// sent operations. The request runs alone: nothing else touches the
/// session while it lasts.
pub open spec fn run_from(
    s: SessionView,
    step: StepView,
    login_reply: spec_fn(nat) -> Reply,
    send_reply: spec_fn(nat) -> Reply,
    logins: nat,
    sends: nat,
) -> Trace
    decreases calls_left(step),
{
    match step {
        StepView::Done(outcome) => Trace { session: s, logins, sends, outcome },
        StepView::Login { attempt, .. } => {
            let reply = login_reply(logins);
            run_from(
                session_after_login(s, reply),
                spec_after_login(s, attempt, reply),
                login_reply,
                send_reply,
                logins + 1,
                sends,
            )
        },
        StepView::Send { attempt, .. } => {
            let reply = send_reply(sends);
            run_from(
                s,
                spec_after_send(s, attempt, reply),
                login_reply,
                send_reply,
                logins,
                sends + 1,
            )
        },
    }
}

/// Runs one request from its first attempt.
pub open spec fn run(
    s: SessionView,
    login_reply: spec_fn(nat) -> Reply,
    send_reply: spec_fn(nat) -> Reply,
) -> Trace {
    run_from(s, spec_attempt(s, 0), login_reply, send_reply, 0, 0)
}

/// The operation that follows a login is sent with the cookie that the
/// login gave, unless the caller provided a cookie, which is then sent
/// again.
pub proof fn lemma_send_after_login_carries_the_cookie(s: SessionView, attempt: u8, reply: Reply)
    requires
        login_error(reply) is None,
    ensures
        reply is Ok,
        login_result(reply->Ok_0@) is Ok,
        spec_after_login(s, attempt, reply) == (StepView::Send {
            attempt,
            cookie: match s {
                SessionView::CookieProvided { cookie } => cookie,
                _ => login_result(reply->Ok_0@)->Ok_0,
            },
        }),
{
}

/// An attempt after the first always logs in before it sends, whatever the
/// session holds.
pub proof fn lemma_later_attempts_log_in_first(s: SessionView, attempt: u8)
    requires
        attempt != 0,
    ensures
        spec_attempt(s, attempt) == (StepView::Login {
            attempt,
            credential: s.login_credential(),
        }),
{
}

/// The login calls that a run can still make from a step.
pub open spec fn logins_left(step: StepView) -> nat {
    match step {
        StepView::Login { attempt, .. } => attempts_left(attempt),
        StepView::Send { attempt, .. } => (attempts_left(attempt) - 1) as nat,
        StepView::Done(_) => 0,
    }
}

/// The times that a run can still send the operation from a step.
pub open spec fn sends_left(step: StepView) -> nat {
    match step {
        StepView::Login { attempt, .. } => attempts_left(attempt),
        StepView::Send { attempt, .. } => attempts_left(attempt),
        StepView::Done(_) => 0,
    }
}

/// From any step and against any transport, a run makes no more login
/// calls and sends the operation no more often than the attempts that are
/// left allow, and it keeps the credential that the session holds.
pub proof fn lemma_run_from_bounded(
    s: SessionView,
    step: StepView,
    login_reply: spec_fn(nat) -> Reply,
    send_reply: spec_fn(nat) -> Reply,
    logins: nat,
    sends: nat,
)
    ensures
        logins <= run_from(s, step, login_reply, send_reply, logins, sends).logins <= logins
            + logins_left(step),
        sends <= run_from(s, step, login_reply, send_reply, logins, sends).sends <= sends
            + sends_left(step),
        run_from(s, step, login_reply, send_reply, logins, sends).session.credential()
            == s.credential(),
        s.cookie() is Some ==> run_from(
            s,
            step,
            login_reply,
            send_reply,
            logins,
            sends,
        ).session.cookie() is Some,
    decreases calls_left(step),
{
    match step {
        StepView::Done(_) => {},
        StepView::Login { attempt, .. } => {
            let reply = login_reply(logins);
            lemma_run_from_bounded(
                session_after_login(s, reply),
                spec_after_login(s, attempt, reply),
                login_reply,
                send_reply,
                logins + 1,
                sends,
            );
        },
        StepView::Send { attempt, .. } => {
            let reply = send_reply(sends);
            lemma_run_from_bounded(
                s,
                spec_after_send(s, attempt, reply),
                login_reply,
                send_reply,
                logins,
                sends + 1,
            );
        },
    }
}

/// Whatever the transport answers, one request makes at most three login
/// calls and sends its operation at most three times.
pub proof fn lemma_run_bounded(
    s: SessionView,
    login_reply: spec_fn(nat) -> Reply,
    send_reply: spec_fn(nat) -> Reply,
)
    ensures
        run(s, login_reply, send_reply).logins <= MAX_ATTEMPTS,
        run(s, login_reply, send_reply).sends <= MAX_ATTEMPTS,
        s.cookie() is Some ==> run(s, login_reply, send_reply).logins <= MAX_ATTEMPTS - 1,
        run(s, login_reply, send_reply).session.credential() == s.credential(),
{
    lemma_run_from_bounded(s, spec_attempt(s, 0), login_reply, send_reply, 0, 0);
}

/// Whether a reply is a response with the status that tells that the
/// session is not authenticated.
pub open spec fn is_forbidden(reply: Reply) -> bool {
    reply matches Ok(head) && head.status == FORBIDDEN
}

/// Against a service that answers every sent operation with 403 while
/// every login succeeds, a request ends in "not logged in" after it has
/// sent the operation exactly three times: with two login calls where a
/// cookie was cached, and with three where none was.
pub proof fn lemma_bounded_retry(
    s: SessionView,
    login_reply: spec_fn(nat) -> Reply,
    send_reply: spec_fn(nat) -> Reply,
)
    requires
        forall|k: nat| login_error(#[trigger] login_reply(k)) is None,
        forall|k: nat| is_forbidden(#[trigger] send_reply(k)),
    ensures
        run(s, login_reply, send_reply).outcome == Err::<ResponseHead, QbitError>(
            QbitError::ApiError(ApiError::NotLoggedIn),
        ),
        run(s, login_reply, send_reply).sends == 3,
        run(s, login_reply, send_reply).logins == if s.cookie() is Some {
            2nat
        } else {
            3nat
        },
{
    reveal_with_fuel(run_from, 8);
    assert(login_error(login_reply(0)) is None);
    assert(login_error(login_reply(1)) is None);
    assert(login_error(login_reply(2)) is None);
    assert(is_forbidden(send_reply(0)));
    assert(is_forbidden(send_reply(1)));
    assert(is_forbidden(send_reply(2)));
}

/// Against a service that answers the first sent operation with 403 and
/// the second with another response, while every login succeeds, a request
/// hands that second response to the caller after it has sent the
/// operation exactly twice: with one login call where a cookie was cached,
/// and with two where none was.
pub proof fn lemma_recovery_after_stale_cookie(
    s: SessionView,
    login_reply: spec_fn(nat) -> Reply,
    send_reply: spec_fn(nat) -> Reply,
)
    requires
        forall|k: nat| login_error(#[trigger] login_reply(k)) is None,
        is_forbidden(send_reply(0)),
        send_reply(1) is Ok,
        !is_forbidden(send_reply(1)),
    ensures
        run(s, login_reply, send_reply).outcome == Ok::<ResponseHead, QbitError>(
            send_reply(1)->Ok_0,
        ),
        run(s, login_reply, send_reply).sends == 2,
        run(s, login_reply, send_reply).logins == if s.cookie() is Some {
            1nat
        } else {
            2nat
        },
{
    reveal_with_fuel(run_from, 6);
    assert(login_error(login_reply(0)) is None);
    assert(login_error(login_reply(1)) is None);
}

/// A login that the service answers with 403 ends the request at once with
/// "IP banned": the session is left as it was, the operation is not sent
/// again and no further login is tried.
pub proof fn lemma_ip_ban_ends_request(
    s: SessionView,
    attempt: u8,
    credential: CredentialView,
    login_reply: spec_fn(nat) -> Reply,
    send_reply: spec_fn(nat) -> Reply,
    logins: nat,
    sends: nat,
)
    requires
        is_forbidden(login_reply(logins)),
    ensures
        run_from(
            s,
            StepView::Login { attempt, credential },
            login_reply,
            send_reply,
            logins,
            sends,
        ) == (Trace {
            session: s,
            logins: logins + 1,
            sends,
            outcome: Err(QbitError::ApiError(ApiError::IpBanned)),
        }),
{
    reveal_with_fuel(run_from, 3);
}

/// A login without a cached cookie that the service answers with 403 ends
/// the whole request with "IP banned" after that one call.
pub proof fn lemma_ip_ban_short_circuits(
    s: SessionView,
    login_reply: spec_fn(nat) -> Reply,
    send_reply: spec_fn(nat) -> Reply,
)
    requires
        s.cookie() is None,
        is_forbidden(login_reply(0)),
    ensures
        run(s, login_reply, send_reply).outcome == Err::<ResponseHead, QbitError>(
            QbitError::ApiError(ApiError::IpBanned),
        ),
        run(s, login_reply, send_reply).logins == 1,
        run(s, login_reply, send_reply).sends == 0,
        run(s, login_reply, send_reply).session == s,
{
    lemma_ip_ban_ends_request(s, 0, s.login_credential(), login_reply, send_reply, 0, 0);
}

} // verus!
