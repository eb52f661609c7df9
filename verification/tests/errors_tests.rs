use mail_sessions::errors::{Error, ErrorKind, StoreError};

#[test]
fn mail_error_has_fixed_message_and_keeps_cause() {
    let error = Error::from_mail("IMAP greeting failed".to_string());
    assert_eq!(error.describe(), "Error with upstream mail server");
    match error.kind() {
        ErrorKind::Mail(cause) => assert_eq!(cause, "IMAP greeting failed"),
        other => panic!("unexpected kind: {:?}", other),
    }
}

#[test]
fn io_error_has_fixed_message() {
    let error = Error::from_io("broken pipe".to_string());
    assert_eq!(error.describe(), "IO error");
    assert!(matches!(error.kind(), ErrorKind::Io(_)));
}

#[test]
fn keyring_error_has_fixed_message() {
    let error = Error::from_keyring(StoreError::Other("locked".to_string()));
    assert_eq!(error.describe(), "Error with keyring");
    assert!(matches!(error.kind(), ErrorKind::Keyring(StoreError::Other(_))));
}

#[test]
fn json_error_has_fixed_message() {
    let error = Error::from_json("expected value at line 1".to_string());
    assert_eq!(error.describe(), "Failed to serialize/deserialize json data");
    assert!(matches!(error.kind(), ErrorKind::Json(_)));
}

#[test]
fn new_keeps_the_given_message_and_kind() {
    let error = Error::new(ErrorKind::Io("cause".to_string()), "short summary".to_string());
    assert_eq!(error.describe(), "short summary");
    assert!(matches!(error.kind(), ErrorKind::Io(_)));
}

#[test]
fn boundary_form_flattens_kind_and_exposes_cause_text() {
    let error = Error::from_mail("connection reset by peer".to_string());
    assert_eq!(error.boundary_kind(), "MailError");
    assert_eq!(error.boundary_message(), "connection reset by peer");

    let json = Error::from_json("trailing characters".to_string());
    assert_eq!(json.boundary_kind(), "MailError");
    assert_eq!(json.boundary_message(), "trailing characters");
}

#[test]
fn boundary_message_of_store_miss_is_the_summary() {
    let error = Error::from_keyring(StoreError::NotFound);
    assert_eq!(error.boundary_message(), "Error with keyring");
}
