use qbit_rs::client::Qbit;
use qbit_rs::ext::ResponseHead;
use qbit_rs::model::Credential;
use qbit_rs::session::LoginState;
use qbit_rs::{ApiError, QbitError};

fn admin() -> Credential {
    Credential::new("admin", "adminadmin")
}

fn fresh() -> Qbit {
    Qbit::new("http://localhost:8080", admin()).unwrap()
}

fn login_reply(cookie: &str) -> ResponseHead {
    ResponseHead::new(200, Some(cookie.as_bytes().to_vec()))
}

#[test]
fn login_without_force_is_a_no_op_when_a_cookie_is_cached() {
    let qbit = fresh().with_cookie("SID=1".to_string());
    assert!(qbit.login(false).is_none());
    assert_eq!(qbit.get_cookie().unwrap(), Some("SID=1".to_string()));
}

#[test]
fn login_without_force_calls_when_no_cookie_is_cached() {
    let qbit = fresh();
    let call = qbit.login(false).unwrap();
    assert_eq!(call, admin());
    assert_eq!(qbit.get_cookie().unwrap(), None);
}

#[test]
fn forced_login_always_calls() {
    let cached = fresh().with_cookie("SID=1".to_string());
    let call = cached.login(true).unwrap();
    assert_eq!(call.username(), "admin");
    assert_eq!(call.password(), "adminadmin");
    assert!(fresh().login(true).is_some());
}

#[test]
fn forced_login_with_a_provided_cookie_presents_the_dummy_credential() {
    let qbit = Qbit::with_state(
        "http://localhost:8080",
        LoginState::CookieProvided { cookie: "SID=given".to_string() },
    )
    .unwrap();
    assert!(qbit.login(false).is_none());
    let call = qbit.login(true).unwrap();
    assert!(call.is_dummy());
}

#[test]
fn recorded_cookie_logs_in_and_keeps_the_credential() {
    let mut state = LoginState::NotLoggedIn { credential: admin() };
    assert_eq!(state.as_cookie(), None);
    assert_eq!(state.as_credential(), Some(&admin()));

    state.add_cookie("SID=1".to_string());
    assert!(matches!(state, LoginState::LoggedIn { .. }));
    assert_eq!(state.as_cookie(), Some("SID=1"));
    assert_eq!(state.as_credential(), Some(&admin()));

    state.add_cookie("SID=2".to_string());
    assert!(matches!(state, LoginState::LoggedIn { .. }));
    assert_eq!(state.as_cookie(), Some("SID=2"));
    assert_eq!(state.as_credential(), Some(&admin()));
}

#[test]
fn provided_cookie_is_never_overwritten() {
    let mut state = LoginState::CookieProvided { cookie: "SID=given".to_string() };
    state.add_cookie("SID=issued".to_string());
    assert!(matches!(state, LoginState::CookieProvided { .. }));
    assert_eq!(state.as_cookie(), Some("SID=given"));
    assert_eq!(state.as_credential(), None);
}

#[test]
fn with_cookie_replaces_the_cookie_and_keeps_the_credential() {
    let state = LoginState::NotLoggedIn { credential: admin() }.with_cookie("a".to_string());
    assert_eq!(state.as_cookie(), Some("a"));
    assert_eq!(state.as_credential(), Some(&admin()));
    let state = state.with_cookie("b".to_string());
    assert_eq!(state.as_cookie(), Some("b"));
    let given = LoginState::CookieProvided { cookie: "old".to_string() };
    let given = given.with_cookie("new".to_string());
    assert_eq!(given.as_cookie(), Some("new"));
    assert_eq!(given.as_credential(), None);
}

#[test]
fn clone_of_a_state_is_a_snapshot() {
    let mut state = LoginState::NotLoggedIn { credential: admin() };
    let copy = state.clone();
    state.add_cookie("SID=1".to_string());
    assert_eq!(copy.as_cookie(), None);
    assert_eq!(state.as_cookie(), Some("SID=1"));
}

#[test]
fn logged_in_records_the_cookie_of_a_good_reply() {
    let mut qbit = fresh();
    qbit.logged_in(Ok(login_reply("SID=abc"))).unwrap();
    assert_eq!(qbit.get_cookie().unwrap(), Some("SID=abc".to_string()));
}

#[test]
fn logged_in_fails_with_ip_banned_on_403_and_changes_nothing() {
    let mut qbit = fresh();
    let r = qbit.logged_in(Ok(ResponseHead::new(403, Some(b"SID=abc".to_vec()))));
    assert!(matches!(r, Err(QbitError::ApiError(ApiError::IpBanned))));
    assert_eq!(qbit.get_cookie().unwrap(), None);
}

#[test]
fn logged_in_fails_with_bad_response_without_a_cookie() {
    let mut qbit = fresh();
    let r = qbit.logged_in(Ok(ResponseHead::new(200, None)));
    assert!(matches!(
        r,
        Err(QbitError::BadResponse { explain: "Failed to extract cookie from response" })
    ));
    assert_eq!(qbit.get_cookie().unwrap(), None);
}

#[test]
fn logged_in_fails_on_a_cookie_that_is_not_ascii() {
    let mut qbit = fresh();
    let r = qbit.logged_in(Ok(ResponseHead::new(200, Some(vec![b'S', 0xc3, 0xa9]))));
    assert!(matches!(r, Err(QbitError::NonAsciiHeader)));
    assert_eq!(qbit.get_cookie().unwrap(), None);
}

#[test]
fn logged_in_passes_a_transport_error_on() {
    let mut qbit = fresh();
    let error = reqwest::Client::new().get("not a url").build().unwrap_err();
    let r = qbit.logged_in(Err(error));
    assert!(matches!(r, Err(QbitError::HttpError(_))));
    assert_eq!(qbit.get_cookie().unwrap(), None);
}

#[test]
fn clone_of_a_client_has_a_session_of_its_own() {
    let mut qbit = fresh();
    let copy = qbit.clone();
    qbit.logged_in(Ok(login_reply("SID=abc"))).unwrap();
    assert_eq!(copy.get_cookie().unwrap(), None);
    assert_eq!(copy.base_url(), qbit.base_url());
    assert_eq!(qbit.get_cookie().unwrap(), Some("SID=abc".to_string()));
}
