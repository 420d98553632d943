use qbit_rs::model::{Credential, Hashes, NonEmptyStr, Sep};

#[test]
fn test_sep() {
    let sep = Sep::<u8, b'|'>::from(vec![1, 2, 3]);
    assert_eq!(sep.to_string(), "1|2|3");

    let sep = Sep::<u8, b'\n'>::from(vec![1, 2, 3]);
    assert_eq!(sep.to_string(), "1\n2\n3");

    let sep = Sep::<u8, b'|'>::from(vec![1]);
    assert_eq!(sep.to_string(), "1");

    let sep = Sep::<u8, b'|'>::from(vec![]);
    assert_eq!(sep.to_string(), "");
}

#[test]
fn credential_dummy_is_dummy() {
    assert!(Credential::dummy().is_dummy());
    assert!(!Credential::new("admin", "").is_dummy());
    assert!(!Credential::new("", "secret").is_dummy());
}

#[test]
fn non_empty_str_rejects_the_empty_text() {
    assert!(NonEmptyStr::new("").is_none());
    assert_eq!(NonEmptyStr::new("name").unwrap().as_str(), "name");
    assert_eq!(NonEmptyStr::new("name".to_string()).unwrap().as_str(), "name");
}

#[test]
fn hashes_are_joined_with_a_bar() {
    let hashes = Hashes::from(vec!["a".to_string(), "b".to_string()]);
    assert_eq!(hashes.to_string(), "a|b");
    assert_eq!(Hashes::All.to_string(), "all");
}

#[test]
fn credential_keeps_its_parts() {
    let credential = Credential::new("admin", "adminadmin");
    assert_eq!(credential.username(), "admin");
    assert_eq!(credential.password(), "adminadmin");
    assert_eq!(credential.clone(), credential);
}
