use tweet_votes::error::AppError;
use tweet_votes::store::StoreError;

#[test]
fn store_errors_are_server_errors() {
    let error = AppError::RedisError(StoreError::Connection("refused".to_string()));
    assert_eq!(error.status_code(), 500);
    assert_eq!(error.message(), "Redis error");
    assert_eq!(error.describe(), "Redis error: refused");
    assert_eq!(error.into_response(), (500, "Redis error".to_string()));
}

#[test]
fn environment_errors_are_server_errors() {
    let error = AppError::EnvVarError("not present".to_string());
    assert_eq!(error.status_code(), 500);
    assert_eq!(error.message(), "Environment variable error");
    assert_eq!(error.describe(), "Environment variable error: not present");
    assert_eq!(error.into_response(), (500, "Environment variable error".to_string()));
}

#[test]
fn io_errors_are_server_errors() {
    let error = AppError::IoError("address in use".to_string());
    assert_eq!(error.status_code(), 500);
    assert_eq!(error.message(), "IO error");
    assert_eq!(error.describe(), "IO error: address in use");
    assert_eq!(error.into_response(), (500, "IO error".to_string()));
}

#[test]
fn missing_asset_is_not_found() {
    let error = AppError::AssetNotFound("index-mini.html".to_string());
    assert_eq!(error.status_code(), 404);
    assert_eq!(error.message(), "Asset not found");
    assert_eq!(error.describe(), "Asset not found: index-mini.html");
    assert_eq!(error.into_response(), (404, "Asset not found".to_string()));
}

#[test]
fn response_leaks_no_detail() {
    let error = AppError::RedisError(StoreError::Operation("password wrong for user x".to_string()));
    let (status, body) = error.into_response();
    assert_eq!(status, 500);
    assert!(!body.contains("password"));
}

#[test]
fn store_error_causes() {
    assert_eq!(StoreError::Configuration("bad url".to_string()).cause_text(), "bad url");
    assert_eq!(StoreError::Connection("refused".to_string()).cause_text(), "refused");
    assert_eq!(StoreError::Operation("readonly".to_string()).cause_text(), "readonly");
    assert_eq!(StoreError::Timeout.cause_text(), "timed out waiting for the store");
    assert_eq!(StoreError::UnexpectedReply.cause_text(), "unexpected reply from the store");
    assert_eq!(
        AppError::RedisError(StoreError::UnexpectedReply).describe(),
        "Redis error: unexpected reply from the store"
    );
}
