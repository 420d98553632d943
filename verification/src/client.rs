//! The client: an endpoint and a session, and the steps of a login and of a
//! request on them. The calls themselves are made by whoever drives the
//! steps; the client decides what is called and what a reply means.

use crate::dispatch::{
    login_error, login_needed, login_result, session_after_login, spec_after_login,
    spec_after_send, spec_attempt, Outcome, Reply, StepView, MAX_ATTEMPTS,
};
use crate::endpoint::{api_url, parse_url, resolve, url_parsed, InvalidEndpoint};
use crate::error::{ApiError, QbitError};
use crate::ext::{Cookie, ResponseExt, ResponseHead, FORBIDDEN};
use crate::form::copy_fields;
use crate::model::{Credential, CredentialView};
use crate::operation::{Call, CallView, Method, Operation, OperationView};
use crate::session::{LoginState, SessionView};
use vstd::prelude::*;

verus! {

/// The next thing to do for a request.
#[derive(Debug)]
pub enum Step {
    /// Make the login call with this credential, then hand the reply to
    /// `Qbit::after_login`.
    Login { attempt: u8, credential: Credential },
    /// Send the operation with this cookie attached, then hand the reply
    /// to `Qbit::after_send`.
    Send { attempt: u8, cookie: String },
    /// The request is over.
    Done(Outcome),
}

impl View for Step {
    type V = StepView;

    open spec fn view(&self) -> StepView {
        match self {
            Step::Login { attempt, credential } => StepView::Login {
                attempt: *attempt,
                credential: credential@,
            },
            Step::Send { attempt, cookie } => StepView::Send { attempt: *attempt, cookie: cookie@ },
            Step::Done(outcome) => StepView::Done(*outcome),
        }
    }
}

/// The path of the login call.
pub const LOGIN_PATH: &'static str = "auth/login";

/// The rule of the login call: 403 means that the address is banned.
pub fn ip_banned(status: u16) -> (mapped: Option<QbitError>)
    ensures
        mapped == if status == FORBIDDEN {
            Some(QbitError::ApiError(ApiError::IpBanned))
        } else {
            None::<QbitError>
        },
{
    if status == FORBIDDEN {
        Some(QbitError::ApiError(ApiError::IpBanned))
    } else {
        None
    }
}

/// The rule of every operation: 403 means that the session is not
/// authenticated.
pub fn not_logged_in(status: u16) -> (mapped: Option<QbitError>)
    ensures
        mapped == if status == FORBIDDEN {
            Some(QbitError::ApiError(ApiError::NotLoggedIn))
        } else {
            None::<QbitError>
        },
{
    if status == FORBIDDEN {
        Some(QbitError::ApiError(ApiError::NotLoggedIn))
    } else {
        None
    }
}

/// Reads the session cookie off a login response.
pub fn login_cookie(head: ResponseHead) -> (r: Result<Cookie, QbitError>)
    ensures
        match login_result(head@) {
            Ok(text) => r matches Ok(cookie) && cookie@ == text,
            Err(err) => r matches Err(e) && e == err,
        },
{
    match head.map_status(ip_banned) {
        Err(err) => Err(err),
        Ok(passed) => passed.extract::<Cookie>(),
    }
}

/// The login call of a client at `endpoint` with a credential: the fields
/// of the credential are posted to the login path, without a cookie. There
/// is none where the URL cannot be built.
pub open spec fn spec_login_call(endpoint: Seq<char>, credential: CredentialView) -> Option<
    CallView,
> {
    match api_url(endpoint, LOGIN_PATH@) {
        Some(url) => Some(
            CallView {
                method: Method::Post,
                url,
                cookie: None,
                form: Some(
                    seq![("username"@, credential.username), ("password"@, credential.password)],
                ),
            },
        ),
        None => None,
    }
}

/// The call of an operation by a client at `endpoint`: the verb and the
/// form are those of the operation, the URL is that of its path, and the
/// cookie is attached. There is none where the URL cannot be built.
pub open spec fn spec_operation_call(
    endpoint: Seq<char>,
    op: OperationView,
    cookie: Seq<char>,
) -> Option<CallView> {
    match api_url(endpoint, op.path) {
        Some(url) => Some(CallView { method: op.method, url, cookie: Some(cookie), form: op.body }),
        None => None,
    }
}

/// Main entry point of the library: the endpoint of a qBittorrent WebUI
/// and the session with it.
#[derive(Debug)]
pub struct Qbit {
    endpoint: String,
    state: LoginState,
}

impl Clone for Qbit {
    /// A copy with the same endpoint and a snapshot of the session.
    fn clone(&self) -> (q: Self)
        ensures
            q.endpoint() == self.endpoint(),
            q.session() == self.session(),
    {
        Qbit { endpoint: self.endpoint.clone(), state: self.state.clone() }
    }
}

impl Qbit {
    /// The endpoint, as the URL it was parsed to.
    pub closed spec fn endpoint(&self) -> Seq<char> {
        self.endpoint@
    }

    /// The session.
    pub closed spec fn session(&self) -> SessionView {
        self.state@
    }

    /// A client for the service at `endpoint` that holds `state`. There is
    /// one exactly where the endpoint is a URL; otherwise the error says
    /// what the parser found.
    pub fn with_state(endpoint: &str, state: LoginState) -> (q: Result<Self, InvalidEndpoint>)
        ensures
            q is Ok <==> url_parsed(endpoint@) is Some,
            q matches Ok(qbit) ==> url_parsed(endpoint@) == Some(qbit.endpoint())
                && qbit.session() == state@,
    {
        match parse_url(endpoint) {
            Ok(parsed) => Ok(Qbit { endpoint: parsed, state }),
            Err(cause) => Err(InvalidEndpoint { cause }),
        }
    }

    /// A client that is not logged in yet. There is one exactly where the
    /// endpoint is a URL.
    pub fn new(endpoint: &str, credential: Credential) -> (q: Result<Self, InvalidEndpoint>)
        ensures
            q is Ok <==> url_parsed(endpoint@) is Some,
            q matches Ok(qbit) ==> url_parsed(endpoint@) == Some(qbit.endpoint())
                && qbit.session() == (SessionView::NotLoggedIn { credential: credential@ }),
    {
        Qbit::with_state(endpoint, LoginState::NotLoggedIn { credential })
    }

    /// Takes a cookie from the caller: it replaces the one that is held,
    /// and a stored credential is kept.
    pub fn with_cookie(self, cookie: String) -> (q: Self)
        ensures
            q.endpoint() == self.endpoint(),
            q.session() == self.session().with_cookie(cookie@),
    {
        Qbit { endpoint: self.endpoint, state: self.state.with_cookie(cookie) }
    }

    /// The cookie that is held, if any.
    pub fn get_cookie(&self) -> (r: Result<Option<String>, QbitError>)
        ensures
            r matches Ok(held) && (held is Some <==> self.session().cookie() is Some) && (
            held matches Some(text) ==> self.session().cookie() == Some(text@)),
    {
        match self.state.as_cookie() {
            Some(text) => Ok(Some(text.to_owned())),
            None => Ok(None),
        }
    }

    /// The endpoint, as the URL it was parsed to.
    pub fn base_url(&self) -> (s: &str)
        ensures
            s@ == self.endpoint(),
    {
        self.endpoint.as_str()
    }

    /// The session state.
    pub fn state(&self) -> (s: &LoginState)
        ensures
            s@ == self.session(),
    {
        &self.state
    }

    /// The URL of the operation at `path`.
    pub fn url(&self, path: &str) -> (target: Option<String>)
        ensures
            target is Some <==> api_url(self.endpoint(), path@) is Some,
            target matches Some(u) ==> api_url(self.endpoint(), path@) == Some(u@),
    {
        resolve(self.endpoint.as_str(), path)
    }

    /// The login call with a credential.
    pub fn login_call(&self, credential: &Credential) -> (call: Option<Call>)
        ensures
            call is Some <==> spec_login_call(self.endpoint(), credential@) is Some,
            call matches Some(c) ==> spec_login_call(self.endpoint(), credential@) == Some(c@),
    {
        match self.url(LOGIN_PATH) {
            Some(url) => Some(
                Call { method: Method::Post, url, cookie: None, form: Some(credential.fields()) },
            ),
            None => None,
        }
    }

    /// The call of an operation with a cookie.
    pub fn operation_call(&self, op: &Operation, cookie: &str) -> (call: Option<Call>)
        ensures
            call is Some <==> spec_operation_call(self.endpoint(), op@, cookie@) is Some,
            call matches Some(c) ==> spec_operation_call(self.endpoint(), op@, cookie@) == Some(
                c@,
            ),
    {
        match self.url(op.path) {
            Some(url) => {
                let form = match &op.body {
                    Some(fields) => Some(copy_fields(fields)),
                    None => None,
                };
                Some(Call { method: op.method, url, cookie: Some(cookie.to_owned()), form })
            },
            None => None,
        }
    }

    /// Log in to qBittorrent. Set force to `true` to forcefully re-login
    /// regardless if cookie is already set.
    ///
    /// Returns the credential for the one login call that has to be made,
    /// or nothing where the cached cookie makes the login a no-op. The
    /// reply to the call goes to `logged_in`.
    pub fn login(&self, force: bool) -> (call: Option<Credential>)
        ensures
            !force && self.session().cookie() is Some ==> call is None,
            force ==> call is Some,
            call is Some <==> login_needed(self.session(), force),
            call matches Some(credential) ==> credential@ == self.session().login_credential(),
    {
        if force || self.state.as_cookie().is_none() {
            Some(self.state.login_credential())
        } else {
            None
        }
    }

    /// Takes the reply to the login call: a cookie that it gave is
    /// recorded, and every failure leaves the session as it was.
    pub fn logged_in(&mut self, reply: Reply) -> (r: Result<(), QbitError>)
        ensures
            final(self).endpoint() == old(self).endpoint(),
            final(self).session() == session_after_login(old(self).session(), reply),
            match login_error(reply) {
                Some(err) => r matches Err(e) && e == err,
                None => r is Ok,
            },
    {
        match reply {
            Err(e) => Err(QbitError::HttpError(e)),
            Ok(head) => match login_cookie(head) {
                Err(err) => Err(err),
                Ok(Cookie(cookie)) => {
                    self.state.add_cookie(cookie);
                    Ok(())
                },
            },
        }
    }

    /// The first step of attempt number `attempt` of a request.
    pub fn attempt(&self, attempt: u8) -> (step: Step)
        ensures
            step@ == spec_attempt(self.session(), attempt),
    {
        match self.login(attempt != 0) {
            Some(credential) => Step::Login { attempt, credential },
            None => match self.state.as_cookie() {
                Some(cookie) => Step::Send { attempt, cookie: cookie.to_owned() },
                None => vstd::pervasive::unreached(),
            },
        }
    }

    /// Starts a request: the first step of its first attempt.
    pub fn request(&self) -> (step: Step)
        ensures
            step@ == spec_attempt(self.session(), 0),
    {
        self.attempt(0)
    }

    /// The step after the login call of attempt `attempt` was answered.
    pub fn after_login(&mut self, attempt: u8, reply: Reply) -> (step: Step)
        ensures
            final(self).endpoint() == old(self).endpoint(),
            final(self).session() == session_after_login(old(self).session(), reply),
            step@ == spec_after_login(old(self).session(), attempt, reply),
    {
        match self.logged_in(reply) {
            Err(err) => Step::Done(Err(err)),
            Ok(_) => match self.state.as_cookie() {
                Some(cookie) => Step::Send { attempt, cookie: cookie.to_owned() },
                None => vstd::pervasive::unreached(),
            },
        }
    }

    /// The step after the operation of attempt `attempt` was answered.
    pub fn after_send(&self, attempt: u8, reply: Reply) -> (step: Step)
        ensures
            step@ == spec_after_send(self.session(), attempt, reply),
    {
        match reply {
            Err(e) => Step::Done(Err(QbitError::HttpError(e))),
            Ok(head) => {
                match head.map_status(not_logged_in) {
                    Ok(passed) => Step::Done(Ok(passed)),
                    Err(err) => if err.is_not_logged_in() && attempt < MAX_ATTEMPTS - 1 {
                        self.attempt(attempt + 1)
                    } else {
                        Step::Done(Err(err))
                    },
                }
            },
        }
    }
}

} // verus!
