//! Building a client step by step: a credential or a cookie, a transport
//! and an endpoint.

use crate::client::Qbit;
use crate::endpoint::{url_parsed, InvalidEndpoint};
use crate::ext::Cookie;
use crate::model::Credential;
use crate::session::{LoginState, SessionView};
use vstd::prelude::*;

verus! {

/// A builder of a client. `C` is what authenticates it, `R` the transport
/// and `E` the endpoint; each is `()` until it has been given.
pub struct QbitBuilder<C = (), R = (), E = ()> {
    credential: C,
    client: R,
    endpoint: E,
}

/// What can start a session: a credential or a cookie.
pub trait IntoLoginState {
    /// The session that the value starts.
    spec fn login_state(self) -> SessionView;

    fn into_login_state(self) -> (state: LoginState)
        ensures
            state@ == self.login_state(),
    ;
}

impl IntoLoginState for Cookie {
    open spec fn login_state(self) -> SessionView {
        SessionView::CookieProvided { cookie: self@ }
    }

    fn into_login_state(self) -> (state: LoginState) {
        LoginState::CookieProvided { cookie: self.0 }
    }
}

impl IntoLoginState for Credential {
    open spec fn login_state(self) -> SessionView {
        SessionView::NotLoggedIn { credential: self@ }
    }

    fn into_login_state(self) -> (state: LoginState) {
        LoginState::NotLoggedIn { credential: self }
    }
}

impl QbitBuilder {
    pub fn new() -> (b: Self)
        ensures
            b.parts() == ((), (), ()),
    {
        QbitBuilder { credential: (), client: (), endpoint: () }
    }
}

impl Default for QbitBuilder {
    fn default() -> (b: Self)
        ensures
            b.parts() == ((), (), ()),
    {
        Self::new()
    }
}

impl<C, R, E> QbitBuilder<C, R, E> {
    /// What has been given so far: the authentication, the transport and
    /// the endpoint.
    pub closed spec fn parts(self) -> (C, R, E) {
        (self.credential, self.client, self.endpoint)
    }

    pub fn client<Cl>(self, client: Cl) -> (b: QbitBuilder<C, Cl, E>)
        ensures
            b.parts() == (self.parts().0, client, self.parts().2),
    {
        QbitBuilder { credential: self.credential, client, endpoint: self.endpoint }
    }

    pub fn cookie(self, cookie: &str) -> (b: QbitBuilder<Cookie, R, E>)
        ensures
            b.parts().0@ == cookie@,
            b.parts().1 == self.parts().1,
            b.parts().2 == self.parts().2,
    {
        QbitBuilder {
            credential: Cookie(cookie.to_owned()),
            client: self.client,
            endpoint: self.endpoint,
        }
    }

    pub fn credential(self, credential: Credential) -> (b: QbitBuilder<Credential, R, E>)
        ensures
            b.parts() == (credential, self.parts().1, self.parts().2),
    {
        QbitBuilder { credential, client: self.client, endpoint: self.endpoint }
    }

    pub fn endpoint<'a>(self, endpoint: &'a str) -> (b: QbitBuilder<C, R, &'a str>)
        ensures
            b.parts() == (self.parts().0, self.parts().1, endpoint),
    {
        QbitBuilder { credential: self.credential, client: self.client, endpoint }
    }
}

impl<'a, C: IntoLoginState, R> QbitBuilder<C, R, &'a str> {
    /// Builds the client and hands back the transport beside it. There is
    /// a client exactly where the endpoint is a URL; otherwise the error
    /// says what the parser found.
    pub fn build(self) -> (built: Result<(Qbit, R), InvalidEndpoint>)
        ensures
            built is Ok <==> url_parsed(self.parts().2@) is Some,
            built matches Ok((qbit, client)) ==> client == self.parts().1 && url_parsed(
                self.parts().2@,
            ) == Some(qbit.endpoint()) && qbit.session() == self.parts().0.login_state(),
    {
        let state = self.credential.into_login_state();
        match Qbit::with_state(self.endpoint, state) {
            Ok(qbit) => Ok((qbit, self.client)),
            Err(err) => Err(err),
        }
    }
}

} // verus!
