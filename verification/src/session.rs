//! The session store: what the client currently holds to prove who it is,
//! and the one transition that a login makes.

use crate::model::{Credential, CredentialView};
use vstd::prelude::*;

verus! {

/// The session state, as sequences of characters.
pub enum SessionView {
    CookieProvided { cookie: Seq<char> },
    NotLoggedIn { credential: CredentialView },
    LoggedIn { cookie: Seq<char>, credential: CredentialView },
}

impl SessionView {
    /// The cookie, where the state carries one.
    pub open spec fn cookie(self) -> Option<Seq<char>> {
        match self {
            SessionView::CookieProvided { cookie } => Some(cookie),
            SessionView::NotLoggedIn { .. } => None,
            SessionView::LoggedIn { cookie, .. } => Some(cookie),
        }
    }

    /// The stored credential, where the state carries one.
    pub open spec fn credential(self) -> Option<CredentialView> {
        match self {
            SessionView::CookieProvided { .. } => None,
            SessionView::NotLoggedIn { credential } => Some(credential),
            SessionView::LoggedIn { credential, .. } => Some(credential),
        }
    }

    /// The credential that a login call presents: the stored one, or the
    /// dummy credential where the caller gave only a cookie.
    pub open spec fn login_credential(self) -> CredentialView {
        match self.credential() {
            Some(credential) => credential,
            None => CredentialView::dummy(),
        }
    }

    /// The state after a login has issued `cookie`: a cookie that the caller
    /// provided stays as it is; otherwise the state is logged in with the new
    /// cookie and the credential it had.
    pub open spec fn add_cookie(self, cookie: Seq<char>) -> SessionView {
        match self {
            SessionView::CookieProvided { .. } => self,
            SessionView::NotLoggedIn { credential } => SessionView::LoggedIn { cookie, credential },
            SessionView::LoggedIn { credential, .. } => SessionView::LoggedIn {
                cookie,
                credential,
            },
        }
    }

    /// The state after the caller has supplied `cookie` by hand: the cookie
    /// is replaced and a stored credential is kept.
    pub open spec fn with_cookie(self, cookie: Seq<char>) -> SessionView {
        match self {
            SessionView::CookieProvided { .. } => SessionView::CookieProvided { cookie },
            _ => self.add_cookie(cookie),
        }
    }
}

/// What the client holds to authenticate its calls.
#[derive(Debug)]
pub enum LoginState {
    /// The caller supplied a cookie; a login never overwrites it.
    CookieProvided { cookie: String },
    /// No cookie yet: no login has succeeded.
    NotLoggedIn { credential: Credential },
    /// A cookie obtained by a login with the stored credential.
    LoggedIn { cookie: String, credential: Credential },
}

impl View for LoginState {
    type V = SessionView;

    open spec fn view(&self) -> SessionView {
        match self {
            LoginState::CookieProvided { cookie } => SessionView::CookieProvided {
                cookie: cookie@,
            },
            LoginState::NotLoggedIn { credential } => SessionView::NotLoggedIn {
                credential: credential@,
            },
            LoginState::LoggedIn { cookie, credential } => SessionView::LoggedIn {
                cookie: cookie@,
                credential: credential@,
            },
        }
    }
}

impl Clone for LoginState {
    fn clone(&self) -> (s: Self)
        ensures
            s@ == self@,
    {
        match self {
            LoginState::CookieProvided { cookie } => LoginState::CookieProvided {
                cookie: cookie.clone(),
            },
            LoginState::NotLoggedIn { credential } => LoginState::NotLoggedIn {
                credential: credential.clone(),
            },
            LoginState::LoggedIn { cookie, credential } => LoginState::LoggedIn {
                cookie: cookie.clone(),
                credential: credential.clone(),
            },
        }
    }
}

impl LoginState {
    /// The current cookie, if the state carries one.
    pub fn as_cookie(&self) -> (c: Option<&str>)
        ensures
            c is Some <==> self@.cookie() is Some,
            c matches Some(text) ==> self@.cookie() == Some(text@),
    {
        match self {
            LoginState::CookieProvided { cookie } => Some(cookie.as_str()),
            LoginState::NotLoggedIn { .. } => None,
            LoginState::LoggedIn { cookie, .. } => Some(cookie.as_str()),
        }
    }

    /// The stored credential, if the state carries one.
    pub fn as_credential(&self) -> (c: Option<&Credential>)
        ensures
            c is Some <==> self@.credential() is Some,
            c matches Some(credential) ==> self@.credential() == Some(credential@),
    {
        match self {
            LoginState::CookieProvided { .. } => None,
            LoginState::NotLoggedIn { credential } => Some(credential),
            LoginState::LoggedIn { credential, .. } => Some(credential),
        }
    }

    /// The credential that a login call presents.
    pub fn login_credential(&self) -> (c: Credential)
        ensures
            c@ == self@.login_credential(),
    {
        match self.as_credential() {
            Some(credential) => credential.clone(),
            None => Credential::dummy(),
        }
    }

    /// Records the cookie that a login has issued.
    pub fn add_cookie(&mut self, cookie: String)
        ensures
            final(self)@ == old(self)@.add_cookie(cookie@),
    {
        let next = match &*self {
            LoginState::CookieProvided { .. } => None,
            LoginState::NotLoggedIn { credential } => Some(
                LoginState::LoggedIn { cookie, credential: credential.clone() },
            ),
            LoginState::LoggedIn { credential, .. } => Some(
                LoginState::LoggedIn { cookie, credential: credential.clone() },
            ),
        };
        match next {
            Some(state) => {
                *self = state;
            },
            None => {},
        }
    }

    /// Takes a cookie that the caller supplies by hand.
    pub fn with_cookie(self, cookie: String) -> (s: Self)
        ensures
            s@ == self@.with_cookie(cookie@),
    {
        match self {
            LoginState::CookieProvided { .. } => LoginState::CookieProvided { cookie },
            LoginState::NotLoggedIn { credential } => LoginState::LoggedIn { cookie, credential },
            LoginState::LoggedIn { credential, .. } => LoginState::LoggedIn { cookie, credential },
        }
    }
}

/// A state that carries a credential is logged in after a cookie has been
/// recorded, with that cookie and the credential it had; a second cookie
/// replaces the first and the credential is still the one it had.
pub proof fn lemma_recorded_cookie_is_kept(s: SessionView, first: Seq<char>, second: Seq<char>)
    requires
        s.credential() is Some,
    ensures
        s.add_cookie(first) == (SessionView::LoggedIn {
            cookie: first,
            credential: s.credential().unwrap(),
        }),
        s.add_cookie(first).add_cookie(second) == (SessionView::LoggedIn {
            cookie: second,
            credential: s.credential().unwrap(),
        }),
{
}

/// Recording a cookie never takes a cookie away, and never takes the
/// credential away or changes it.
pub proof fn lemma_add_cookie_never_downgrades(s: SessionView, cookie: Seq<char>)
    ensures
        s.add_cookie(cookie).cookie() is Some,
        s.add_cookie(cookie).credential() == s.credential(),
        s.add_cookie(cookie).login_credential() == s.login_credential(),
{
}

/// A cookie that the caller provided is never overwritten by a login.
pub proof fn lemma_provided_cookie_is_sticky(provided: Seq<char>, issued: Seq<char>)
    ensures
        (SessionView::CookieProvided { cookie: provided }).add_cookie(issued) == (
        SessionView::CookieProvided { cookie: provided }),
        (SessionView::CookieProvided { cookie: provided }).add_cookie(issued).cookie() == Some(
            provided,
        ),
{
}

} // verus!
