use qbit_rs::builder::QbitBuilder;
use qbit_rs::client::Qbit;
use qbit_rs::model::Credential;
use qbit_rs::session::LoginState;
use qbit_rs::{ApiError, QbitError};

#[test]
fn test_builder() {
    QbitBuilder::new()
        .client(reqwest::Client::new())
        .endpoint("http://localhost:8080")
        .credential(Credential::new("admin", "adminadmin"))
        .build()
        .unwrap();

    QbitBuilder::new()
        .client(reqwest::Client::new())
        .endpoint("http://localhost:8080")
        .cookie("SID=1234567890")
        .build()
        .unwrap();
}

#[test]
fn builder_with_a_credential_is_not_logged_in() {
    let (qbit, client) = QbitBuilder::new()
        .client(7u8)
        .endpoint("http://localhost:8080")
        .credential(Credential::new("admin", "adminadmin"))
        .build()
        .unwrap();
    assert_eq!(client, 7);
    assert!(matches!(qbit.state(), LoginState::NotLoggedIn { .. }));
    assert_eq!(qbit.state().as_credential(), Some(&Credential::new("admin", "adminadmin")));
    assert_eq!(qbit.base_url(), "http://localhost:8080/");
}

#[test]
fn builder_with_a_cookie_has_the_cookie_provided() {
    let (qbit, _) = QbitBuilder::default()
        .endpoint("http://localhost:8080")
        .cookie("SID=1234567890")
        .client(())
        .build()
        .unwrap();
    assert!(matches!(qbit.state(), LoginState::CookieProvided { .. }));
    assert_eq!(qbit.get_cookie().unwrap(), Some("SID=1234567890".to_string()));
}

#[test]
fn builder_gives_the_error_for_an_endpoint_that_is_no_url() {
    let built = QbitBuilder::new()
        .client(())
        .endpoint("not a url")
        .credential(Credential::dummy())
        .build();
    assert_eq!(built.unwrap_err().cause, url::ParseError::RelativeUrlWithoutBase);
}

#[test]
fn endpoint_is_held_as_the_url_it_parses_to() {
    let qbit = Qbit::new("HTTP://LocalHost:8080", Credential::dummy()).unwrap();
    assert_eq!(qbit.base_url(), "http://localhost:8080/");
    let qbit = Qbit::new("https://example.com/qb/", Credential::dummy()).unwrap();
    assert_eq!(qbit.base_url(), "https://example.com/qb/");
    assert!(Qbit::new("localhost:8080/x y", Credential::dummy()).is_ok());
}

#[test]
fn endpoint_that_is_no_url_gives_the_error_of_the_parser() {
    let cause = |endpoint: &str| Qbit::new(endpoint, Credential::dummy()).unwrap_err().cause;
    assert_eq!(cause(""), url::ParseError::RelativeUrlWithoutBase);
    assert_eq!(cause("//localhost"), url::ParseError::RelativeUrlWithoutBase);
    assert_eq!(cause("http://"), url::ParseError::EmptyHost);
    assert_eq!(cause("http://localhost:99999"), url::ParseError::InvalidPort);
    assert_eq!(cause("http://[::1"), url::ParseError::InvalidIpv6Address);
}

#[test]
fn url_of_an_operation_is_joined_below_the_api_prefix() {
    let qbit = Qbit::new("http://localhost:8080", Credential::dummy()).unwrap();
    assert_eq!(
        qbit.url("auth/login"),
        Some("http://localhost:8080/api/v2/auth/login".to_string())
    );
    let qbit = Qbit::new("https://example.com/qb/", Credential::dummy()).unwrap();
    assert_eq!(
        qbit.url("torrents/info"),
        Some("https://example.com/qb/api/v2/torrents/info".to_string())
    );
    // Without a trailing slash the last segment of the endpoint is replaced.
    let qbit = Qbit::new("https://example.com/qb", Credential::dummy()).unwrap();
    assert_eq!(
        qbit.url("app/version"),
        Some("https://example.com/api/v2/app/version".to_string())
    );
}

#[test]
fn url_of_an_operation_is_missing_where_the_endpoint_is_no_base() {
    let qbit = Qbit::new("mailto:admin@example.com", Credential::dummy()).unwrap();
    assert_eq!(qbit.url("auth/login"), None);
}

#[test]
fn errors_say_what_they_are() {
    assert_eq!(ApiError::NotLoggedIn.to_string(), "API routes requires login, try again");
    assert_eq!(
        ApiError::IpBanned.to_string(),
        "User's IP is banned for too many failed login attempts"
    );
    assert_eq!(ApiError::InvalidPath.to_string().len(), 59);
    assert_eq!(
        QbitError::ApiError(ApiError::TorrentNotFound).to_string(),
        "Torrent not found"
    );
    assert_eq!(QbitError::NonAsciiHeader.to_string(), "Non ASCII header");
    assert_eq!(
        QbitError::BadResponse { explain: "no cookie" }.to_string(),
        "API Returned bad response: no cookie"
    );
}

#[test]
fn unknown_status_is_shown_with_its_reason_phrase() {
    assert_eq!(
        QbitError::UnknownHttpCode(418).to_string(),
        "API returned unknown status code: 418 I'm a teapot"
    );
    assert_eq!(
        QbitError::UnknownHttpCode(500).to_string(),
        "API returned unknown status code: 500 Internal Server Error"
    );
    assert_eq!(
        QbitError::UnknownHttpCode(799).to_string(),
        "API returned unknown status code: 799 <unknown status code>"
    );
    assert_eq!(
        QbitError::UnknownHttpCode(42).to_string(),
        "API returned unknown status code: 42 <unknown status code>"
    );
    assert_eq!(
        qbit_rs::error::status_to_text(404),
        reqwest::StatusCode::NOT_FOUND.to_string()
    );
}

#[test]
fn outside_errors_are_shown_behind_their_prefix() {
    let transport = reqwest::Client::new().get("not a url").build().unwrap_err();
    let shown = transport.to_string();
    assert_eq!(QbitError::from(transport).to_string(), format!("Http error: {}", shown));
    let json = serde_json::from_str::<u8>("x").unwrap_err();
    let shown = json.to_string();
    assert_eq!(QbitError::from(json).to_string(), format!("serde_json error: {}", shown));
    assert!(matches!(
        QbitError::from(ApiError::InvalidPeers),
        QbitError::ApiError(ApiError::InvalidPeers)
    ));
    assert!(QbitError::ApiError(ApiError::NotLoggedIn).is_not_logged_in());
    assert!(!QbitError::ApiError(ApiError::IpBanned).is_not_logged_in());
    assert!(!QbitError::NonAsciiHeader.is_not_logged_in());
}
