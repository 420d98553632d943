use qbit_rs::ext::{
    header_to_str, is_success, is_visible_ascii, torrent_not_found, Cookie, FromResponse,
    ResponseExt, ResponseHead,
};
use qbit_rs::client::Qbit;
use qbit_rs::model::Credential;
use qbit_rs::{ApiError, QbitError};

fn head(status: u16) -> ResponseHead {
    ResponseHead::new(status, None)
}

fn conflict(status: u16) -> Option<QbitError> {
    if status == 409 {
        Some(QbitError::ApiError(ApiError::QueueingDisabled))
    } else {
        None
    }
}

#[test]
fn success_is_200_to_299() {
    assert!(!is_success(199));
    assert!(is_success(200));
    assert!(is_success(204));
    assert!(is_success(299));
    assert!(!is_success(300));
    assert!(!is_success(403));
    assert!(!is_success(0));
    assert!(!is_success(u16::MAX));
}

#[test]
fn map_status_passes_a_success_without_asking_the_rule() {
    let r = head(200).map_status(|_| panic!("the rule is not asked on a success"));
    assert_eq!(r.unwrap().status, 200);
}

#[test]
fn map_status_gives_the_error_of_the_rule() {
    let r = head(409).map_status(conflict);
    assert!(matches!(r, Err(QbitError::ApiError(ApiError::QueueingDisabled))));
}

#[test]
fn map_status_maps_403_to_not_logged_in_without_a_rule_for_it() {
    let r = head(403).map_status(conflict);
    assert!(matches!(r, Err(QbitError::ApiError(ApiError::NotLoggedIn))));
}

#[test]
fn map_status_lets_the_rule_speak_first_on_403() {
    let r = head(403).map_status(|_| Some(QbitError::ApiError(ApiError::NoWriteAccess)));
    assert!(matches!(r, Err(QbitError::ApiError(ApiError::NoWriteAccess))));
}

#[test]
fn map_status_passes_a_status_that_no_rule_maps() {
    let r = head(418).map_status(conflict);
    assert_eq!(r.unwrap().status, 418);
}

#[test]
fn end_gives_unknown_http_code_for_a_status_that_is_not_403() {
    let r = head(418).end::<()>();
    assert!(matches!(r, Err(QbitError::UnknownHttpCode(418))));
    let r = head(500).end::<()>();
    assert!(matches!(r, Err(QbitError::UnknownHttpCode(500))));
    let r = head(199).end::<()>();
    assert!(matches!(r, Err(QbitError::UnknownHttpCode(199))));
    assert!(head(200).end::<()>().is_ok());
    assert!(head(299).end::<()>().is_ok());
}

#[test]
fn end_maps_403_to_not_logged_in() {
    let r = head(403).end::<()>();
    assert!(matches!(r, Err(QbitError::ApiError(ApiError::NotLoggedIn))));
    let r = ResponseHead::new(403, Some(b"SID=1".to_vec())).end::<Cookie>();
    assert!(matches!(r, Err(QbitError::ApiError(ApiError::NotLoggedIn))));
}

#[test]
fn end_agrees_with_judge_on_an_operation_without_a_rule() {
    let q = Qbit::new("http://localhost:8080", Credential::dummy()).unwrap();
    for status in [200u16, 204, 400, 403, 404, 409, 418, 500] {
        let ended = head(status).end::<()>().map_err(|e| e.to_string());
        let judged = q.logout().judge(head(status)).map(|_| ()).map_err(|e| e.to_string());
        assert_eq!(ended, judged);
    }
}

#[test]
fn rule_of_the_operation_comes_before_the_unknown_status() {
    let domain = head(409).map_status(conflict).and_then(|r| r.end::<()>());
    assert!(matches!(domain, Err(QbitError::ApiError(ApiError::QueueingDisabled))));
    let unknown = head(418).map_status(conflict).and_then(|r| r.end::<()>());
    assert!(matches!(unknown, Err(QbitError::UnknownHttpCode(418))));
}

#[test]
fn map_status_with_is_the_second_half_of_map_status() {
    let r = head(404).map_status_with(Some(QbitError::ApiError(ApiError::TorrentNotFound)));
    assert!(matches!(r, Err(QbitError::ApiError(ApiError::TorrentNotFound))));
    let r = head(204).map_status_with(Some(QbitError::ApiError(ApiError::TorrentNotFound)));
    assert_eq!(r.unwrap().status, 204);
    let r = head(403).map_status_with(None);
    assert!(matches!(r, Err(QbitError::ApiError(ApiError::NotLoggedIn))));
    let r = head(500).map_status_with(None);
    assert_eq!(r.unwrap().status, 500);
}

#[test]
fn torrent_not_found_maps_404_only() {
    assert!(matches!(
        torrent_not_found(404),
        Some(QbitError::ApiError(ApiError::TorrentNotFound))
    ));
    assert!(torrent_not_found(403).is_none());
    assert!(torrent_not_found(200).is_none());
}

#[test]
fn cookie_is_read_off_the_set_cookie_header() {
    let response = ResponseHead::new(200, Some(b"SID=abc; HttpOnly; path=/".to_vec()));
    let Cookie(cookie) = response.extract::<Cookie>().unwrap();
    assert_eq!(cookie, "SID=abc; HttpOnly; path=/");
    let Cookie(again) = Cookie::from_response(&response).unwrap();
    assert_eq!(again, "SID=abc; HttpOnly; path=/");
}

#[test]
fn cookie_is_missing_without_the_header() {
    let r = head(200).extract::<Cookie>();
    assert!(matches!(
        r,
        Err(QbitError::BadResponse { explain: "Failed to extract cookie from response" })
    ));
}

#[test]
fn cookie_with_a_byte_outside_ascii_is_refused() {
    let r = ResponseHead::new(200, Some(vec![b'a', 0x80])).extract::<Cookie>();
    assert!(matches!(r, Err(QbitError::NonAsciiHeader)));
}

#[test]
fn unit_is_read_off_every_response() {
    assert!(head(500).extract::<()>().is_ok());
}

#[test]
fn visible_ascii_is_printable_or_tab() {
    assert!(is_visible_ascii(b' '));
    assert!(is_visible_ascii(b'~'));
    assert!(is_visible_ascii(b'\t'));
    assert!(!is_visible_ascii(127));
    assert!(!is_visible_ascii(31));
    assert!(!is_visible_ascii(b'\n'));
    assert!(!is_visible_ascii(128));
    assert!(!is_visible_ascii(255));
}

#[test]
fn header_text_is_the_bytes_as_characters() {
    assert_eq!(header_to_str(&b"a\tb ~".to_vec()), Some("a\tb ~".to_string()));
    assert_eq!(header_to_str(&Vec::new()), Some(String::new()));
    assert_eq!(header_to_str(&vec![b'a', 127]), None);
    assert_eq!(header_to_str(&vec![0xe2, 0x82, 0xac]), None);
}

#[test]
fn header_text_agrees_with_the_http_crate() {
    for bytes in [&b"SID=abc"[..], &b"a\tb"[..], &[b'a', 0x80][..], &[0xff][..], &b""[..]] {
        let value = reqwest::header::HeaderValue::from_bytes(bytes).unwrap();
        let theirs = value.to_str().ok().map(|s| s.to_string());
        assert_eq!(header_to_str(&bytes.to_vec()), theirs);
    }
}

#[test]
fn success_agrees_with_the_http_crate() {
    for code in 100u16..1000 {
        let theirs = reqwest::StatusCode::from_u16(code).unwrap().is_success();
        assert_eq!(is_success(code), theirs);
    }
}
