use communicator::error::{Error, ErrorCode, LastError};

#[test]
fn test_error_creation() {
    let err = Error::new(ErrorCode::NetworkError, "Connection failed".to_string());
    assert_eq!(err.code, ErrorCode::NetworkError);
    assert_eq!(err.message, "Connection failed");
}

#[test]
fn test_error_storage() {
    let mut last = LastError::new();
    last.clear_last_error();
    assert!(last.get_last_error().is_none());

    let err = Error::new(ErrorCode::InvalidArgument, "Test error".to_string());
    last.set_last_error(err.clone());

    let retrieved = last.get_last_error();
    assert!(retrieved.is_some());
    assert_eq!(retrieved.unwrap().code, ErrorCode::InvalidArgument);
}

#[test]
fn test_error_with_additional_info() {
    let error = Error::new(ErrorCode::NotFound, "User not found".to_string())
        .with_mattermost_error_id("api.user.get.not_found".to_string())
        .with_request_id("abc123".to_string())
        .with_http_status(404);

    assert_eq!(error.code, ErrorCode::NotFound);
    assert_eq!(error.message, "User not found");
    assert_eq!(error.mattermost_error_id(), Some("api.user.get.not_found"));
    assert_eq!(error.request_id(), Some("abc123"));
    assert_eq!(error.http_status(), Some(404));
}

#[test]
fn test_error_builder_pattern() {
    let error = Error::new(ErrorCode::AuthenticationFailed, "Login failed".to_string())
        .with_mattermost_error_id("api.user.login.invalid_credentials".to_string());

    assert_eq!(
        error.mattermost_error_id(),
        Some("api.user.login.invalid_credentials")
    );
    assert_eq!(error.request_id(), None);
    assert_eq!(error.http_status(), None);
}

#[test]
fn test_error_without_additional_info() {
    let error = Error::new(ErrorCode::Unknown, "Generic error".to_string());

    assert_eq!(error.mattermost_error_id(), None);
    assert_eq!(error.request_id(), None);
    assert_eq!(error.http_status(), None);
}

#[test]
fn error_code_descriptions() {
    assert_eq!(ErrorCode::Success.as_str(), "Success");
    assert_eq!(ErrorCode::Unknown.as_str(), "Unknown error");
    assert_eq!(ErrorCode::InvalidUtf8.as_str(), "Invalid UTF-8 string");
    assert_eq!(ErrorCode::Unsupported.as_str(), "Feature not supported");
    assert_eq!(ErrorCode::RateLimited.as_str(), "Rate limit exceeded");
}

#[test]
fn error_preset_constructors() {
    let e = Error::null_pointer();
    assert_eq!(e.code, ErrorCode::NullPointer);
    assert_eq!(e.message, "Null pointer provided");
    let e = Error::invalid_utf8();
    assert_eq!(e.code, ErrorCode::InvalidUtf8);
    assert_eq!(e.message, "Invalid UTF-8 string");
    let e = Error::invalid_argument("bad".to_string());
    assert_eq!(e.code, ErrorCode::InvalidArgument);
    let e = Error::unsupported("nope".to_string());
    assert_eq!(e.code, ErrorCode::Unsupported);
    assert_eq!(e.message, "nope");
}

#[test]
fn error_display_text() {
    let e = Error::new(ErrorCode::NotFound, "User not found".to_string());
    assert_eq!(e.to_display_string(), "Not found: User not found");
}

#[test]
fn last_error_code_reads_back_the_write() {
    let mut last = LastError::new();
    assert_eq!(last.last_error_code(), ErrorCode::Success);
    last.set_last_error(Error::new(ErrorCode::Timeout, "slow".to_string()));
    assert_eq!(last.last_error_code(), ErrorCode::Timeout);
    last.clear_last_error();
    assert_eq!(last.last_error_code(), ErrorCode::Success);
}
