use qbit_rs::client::{Qbit, Step};
use qbit_rs::dispatch::{Outcome, Reply};
use qbit_rs::ext::ResponseHead;
use qbit_rs::model::Credential;
use qbit_rs::session::LoginState;
use qbit_rs::{ApiError, QbitError};

struct Counts {
    logins: usize,
    forced: Vec<u8>,
    sends: usize,
    cookies: Vec<String>,
}

fn drive(
    qbit: &mut Qbit,
    mut login: impl FnMut(usize) -> Reply,
    mut send: impl FnMut(usize) -> Reply,
) -> (Outcome, Counts) {
    let mut counts = Counts { logins: 0, forced: Vec::new(), sends: 0, cookies: Vec::new() };
    let mut step = qbit.request();
    loop {
        step = match step {
            Step::Login { attempt, .. } => {
                let reply = login(counts.logins);
                counts.logins += 1;
                counts.forced.push(attempt);
                qbit.after_login(attempt, reply)
            }
            Step::Send { attempt, cookie } => {
                let reply = send(counts.sends);
                counts.sends += 1;
                counts.cookies.push(cookie);
                qbit.after_send(attempt, reply)
            }
            Step::Done(outcome) => return (outcome, counts),
        };
        assert!(counts.logins + counts.sends <= 6);
    }
}

fn fresh() -> Qbit {
    Qbit::new("http://localhost:8080", Credential::new("admin", "adminadmin")).unwrap()
}

fn issue(n: usize) -> Reply {
    Ok(ResponseHead::new(200, Some(format!("SID={}", n).into_bytes())))
}

fn status(code: u16) -> Reply {
    Ok(ResponseHead::new(code, None))
}

fn transport_error() -> reqwest::Error {
    reqwest::Client::new().get("not a url").build().unwrap_err()
}

#[test]
fn request_gives_up_after_three_attempts_without_a_cached_cookie() {
    let mut qbit = fresh();
    let (outcome, counts) = drive(&mut qbit, issue, |_| status(403));
    assert!(matches!(outcome, Err(QbitError::ApiError(ApiError::NotLoggedIn))));
    assert_eq!(counts.sends, 3);
    assert_eq!(counts.logins, 3);
    assert_eq!(counts.forced, vec![0, 1, 2]);
    assert_eq!(counts.cookies, vec!["SID=0", "SID=1", "SID=2"]);
}

#[test]
fn request_gives_up_after_three_attempts_with_a_cached_cookie() {
    let mut qbit = fresh().with_cookie("SID=stale".to_string());
    let (outcome, counts) = drive(&mut qbit, issue, |_| status(403));
    assert!(matches!(outcome, Err(QbitError::ApiError(ApiError::NotLoggedIn))));
    assert_eq!(counts.sends, 3);
    assert_eq!(counts.logins, 2);
    assert_eq!(counts.forced, vec![1, 2]);
    assert_eq!(counts.cookies, vec!["SID=stale", "SID=0", "SID=1"]);
    assert_eq!(qbit.get_cookie().unwrap(), Some("SID=1".to_string()));
}

#[test]
fn request_recovers_after_one_stale_cookie() {
    let mut qbit = fresh().with_cookie("SID=stale".to_string());
    let (outcome, counts) =
        drive(&mut qbit, issue, |n| if n == 0 { status(403) } else { status(200) });
    assert_eq!(outcome.unwrap().status, 200);
    assert_eq!(counts.sends, 2);
    assert_eq!(counts.logins, 1);
    assert_eq!(counts.forced, vec![1]);
    assert_eq!(counts.cookies, vec!["SID=stale", "SID=0"]);
}

#[test]
fn request_with_a_good_cached_cookie_makes_one_call_and_no_login() {
    let mut qbit = fresh().with_cookie("SID=good".to_string());
    let (outcome, counts) = drive(&mut qbit, issue, |_| status(200));
    assert_eq!(outcome.unwrap().status, 200);
    assert_eq!(counts.sends, 1);
    assert_eq!(counts.logins, 0);
}

#[test]
fn request_logs_in_first_without_a_cookie() {
    let mut qbit = fresh();
    let (outcome, counts) = drive(&mut qbit, issue, |_| status(204));
    assert_eq!(outcome.unwrap().status, 204);
    assert_eq!(counts.logins, 1);
    assert_eq!(counts.forced, vec![0]);
    assert_eq!(counts.sends, 1);
    assert_eq!(counts.cookies, vec!["SID=0"]);
}

#[test]
fn ip_ban_on_login_ends_the_request_at_once() {
    let mut qbit = fresh();
    let (outcome, counts) = drive(&mut qbit, |_| status(403), |_| status(200));
    assert!(matches!(outcome, Err(QbitError::ApiError(ApiError::IpBanned))));
    assert_eq!(counts.logins, 1);
    assert_eq!(counts.sends, 0);
    assert_eq!(qbit.get_cookie().unwrap(), None);
}

#[test]
fn ip_ban_on_a_forced_login_ends_the_request_too() {
    let mut qbit = fresh().with_cookie("SID=stale".to_string());
    let (outcome, counts) = drive(&mut qbit, |_| status(403), |_| status(403));
    assert!(matches!(outcome, Err(QbitError::ApiError(ApiError::IpBanned))));
    assert_eq!(counts.sends, 1);
    assert_eq!(counts.logins, 1);
    assert_eq!(qbit.get_cookie().unwrap(), Some("SID=stale".to_string()));
}

#[test]
fn login_without_a_cookie_in_the_reply_ends_the_request() {
    let mut qbit = fresh();
    let (outcome, counts) = drive(&mut qbit, |_| status(200), |_| status(200));
    assert!(matches!(outcome, Err(QbitError::BadResponse { .. })));
    assert_eq!(counts.logins, 1);
    assert_eq!(counts.sends, 0);
}

#[test]
fn transport_failure_of_the_operation_is_not_retried() {
    let mut qbit = fresh().with_cookie("SID=1".to_string());
    let (outcome, counts) = drive(&mut qbit, issue, |_| Err(transport_error()));
    assert!(matches!(outcome, Err(QbitError::HttpError(_))));
    assert_eq!(counts.sends, 1);
    assert_eq!(counts.logins, 0);
}

#[test]
fn transport_failure_of_the_login_is_not_retried() {
    let mut qbit = fresh();
    let (outcome, counts) = drive(&mut qbit, |_| Err(transport_error()), |_| status(200));
    assert!(matches!(outcome, Err(QbitError::HttpError(_))));
    assert_eq!(counts.logins, 1);
    assert_eq!(counts.sends, 0);
}

#[test]
fn other_statuses_are_handed_to_the_caller() {
    for code in [404u16, 409, 418, 500] {
        let mut qbit = fresh().with_cookie("SID=1".to_string());
        let (outcome, counts) = drive(&mut qbit, issue, |_| status(code));
        assert_eq!(outcome.unwrap().status, code);
        assert_eq!(counts.sends, 1);
        assert_eq!(counts.logins, 0);
    }
}

#[test]
fn provided_cookie_survives_the_forced_logins() {
    let mut qbit = Qbit::with_state(
        "http://localhost:8080",
        LoginState::CookieProvided { cookie: "SID=given".to_string() },
    )
    .unwrap();
    let (outcome, counts) = drive(&mut qbit, issue, |_| status(403));
    assert!(matches!(outcome, Err(QbitError::ApiError(ApiError::NotLoggedIn))));
    assert_eq!(counts.sends, 3);
    assert_eq!(counts.logins, 2);
    assert_eq!(counts.cookies, vec!["SID=given", "SID=given", "SID=given"]);
    assert_eq!(qbit.get_cookie().unwrap(), Some("SID=given".to_string()));
}

#[test]
fn an_attempt_number_out_of_range_is_the_last_attempt() {
    let qbit = fresh().with_cookie("SID=1".to_string());
    let step = qbit.after_send(7, status(403));
    assert!(matches!(step, Step::Done(Err(QbitError::ApiError(ApiError::NotLoggedIn)))));
}
