use std::io;

use brightwheel::DdcError;

#[test]
fn message_errors_have_no_source() {
    let error = DdcError::message("display unavailable");

    assert_eq!(error.to_string(), "display unavailable");
    assert!(error.source().is_none());
}

#[test]
fn windows_code_preserves_the_operation_and_source() {
    let error = DdcError::windows_code("operation failed", 2);

    assert!(error.to_string().starts_with("operation failed: "));
    assert_eq!(
        error.source().and_then(io::Error::raw_os_error),
        Some(2)
    );
}

#[test]
fn captured_errors_keep_their_cause() {
    let error = DdcError::with_source("read failed", io::Error::from_raw_os_error(5));
    assert_eq!(error.source().and_then(io::Error::raw_os_error), Some(5));
    assert!(error.to_string().starts_with("read failed: "));
}

#[test]
fn windows_errors_keep_the_status_they_were_made_for() {
    assert_eq!(DdcError::windows_code("operation failed", 1223).status(), Some(1223));
    assert_eq!(DdcError::message("display unavailable").status(), None);
    assert_eq!(DdcError::with_source("read failed", io::Error::from_raw_os_error(5)).status(), None);
}
