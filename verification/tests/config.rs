use tweet_votes::config::{client_or_error, default_store_url, open_store, store_url};
use tweet_votes::error::AppError;
use tweet_votes::store::StoreError;

#[test]
fn default_address_is_local() {
    assert_eq!(default_store_url(), "redis://127.0.0.1/");
    assert_eq!(store_url(None), "redis://127.0.0.1/");
}

#[test]
fn configured_address_wins() {
    assert_eq!(store_url(Some("redis://votes:6380/2".to_string())), "redis://votes:6380/2");
    assert_eq!(store_url(Some(String::new())), "");
}

#[test]
fn default_address_opens() {
    let client = open_store(None).unwrap();
    let info = client.get_connection_info();
    assert_eq!(info.addr.to_string(), "127.0.0.1:6379");
    assert_eq!(info.redis.db, 0);
    assert!(open_store(Some("redis://127.0.0.1/".to_string())).is_ok());
}

#[test]
fn configured_address_opens() {
    let client = open_store(Some("redis://votes.example:6380/2".to_string())).unwrap();
    let info = client.get_connection_info();
    assert_eq!(info.redis.db, 2);
    assert_eq!(info.addr.to_string(), "votes.example:6380");
}

#[test]
fn malformed_address_is_a_configuration_error() {
    match open_store(Some("not an address".to_string())) {
        Err(AppError::RedisError(StoreError::Configuration(text))) => assert!(!text.is_empty()),
        _ => panic!("a malformed address was not refused"),
    }
    assert!(matches!(
        open_store(Some("http://127.0.0.1/".to_string())),
        Err(AppError::RedisError(StoreError::Configuration(_)))
    ));
}

#[test]
fn opened_client_is_passed_through() {
    let opened = redis::Client::open("redis://127.0.0.1:7000/");
    let client = client_or_error(opened).unwrap();
    assert_eq!(client.get_connection_info().addr.to_string(), "127.0.0.1:7000");
}

#[test]
fn failed_open_keeps_the_cause() {
    let opened = redis::Client::open("redis://127.0.0.1/notanumber");
    assert!(opened.is_err());
    match client_or_error(opened) {
        Err(error) => {
            assert_eq!(error.status_code(), 500);
            assert!(error.describe().starts_with("Redis error: "));
        }
        Ok(_) => panic!("a database that is no number was accepted"),
    }
}
