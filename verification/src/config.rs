//! Where the store is, and the client that is made for it at startup.

use vstd::prelude::*;
use vstd::string::StringExecFns;
use crate::error::AppError;
use crate::store::StoreError;

verus! {

/// The client of the `redis` crate. It holds the parsed address of the
/// store; making one opens no connection.
#[verifier::external_type_specification]
#[verifier::external_body]
pub struct ExClient(redis::Client);

/// The error type of the `redis` crate.
#[verifier::external_type_specification]
#[verifier::external_body]
pub struct ExRedisError(redis::RedisError);

/// The address that a client is opened for: the configured one, or the
/// default, a store on this machine, where nothing is configured.
pub open spec fn store_address(configured: Option<String>) -> Seq<char> {
    match configured {
        Some(given) => given@,
        None => "redis://127.0.0.1/"@,
    }
}

/// The address used where none is configured.
pub fn default_store_url() -> (url: &'static str)
    ensures
        url@ == "redis://127.0.0.1/"@,
{
    "redis://127.0.0.1/"
}

/// The store's address: the configured one, or the default where nothing
/// is configured.
pub fn store_url(configured: Option<String>) -> (url: String)
    ensures
        url@ == store_address(configured),
        configured matches Some(given) ==> url == given,
{
    match configured {
        Some(given) => given,
        None => String::from_str(default_store_url()),
    }
}

/// Calls `redis::Client::open` on the address. Trusted. The one claim is
/// that the default address is accepted: it is the address of the `redis`
/// crate's own usage example, a `redis` scheme and a host with neither
/// port, database nor credentials, which the crate takes on every
/// platform. Of any other address nothing is claimed: whether it is
/// accepted depends on the platform and on how the crate was built.
#[verifier::external_body]
fn open_client(url: &str) -> (opened: Result<redis::Client, redis::RedisError>)
    ensures
        url@ == "redis://127.0.0.1/"@ ==> opened is Ok,
{
    redis::Client::open(url)
}

/// Writes out a `redis::RedisError` through its `Display` impl. Trusted,
/// and nothing is claimed of the text.
#[verifier::external_body]
fn redis_error_text(error: &redis::RedisError) -> (text: String) {
    format!("{}", error)
}

/// Turns the result of opening a client into the service's own terms: the
/// client as it is, or a configuration error.
pub fn client_or_error(opened: Result<redis::Client, redis::RedisError>) -> (outcome: Result<
    redis::Client,
    AppError,
>)
    ensures
        match opened {
            Ok(client) => outcome == Ok::<redis::Client, AppError>(client),
            Err(_) => outcome matches Err(AppError::RedisError(StoreError::Configuration(_))),
        },
{
    match opened {
        Ok(client) => Ok(client),
        Err(error) => Err(AppError::RedisError(StoreError::Configuration(redis_error_text(&error)))),
    }
}

/// Makes the client for the configured address, or for the default one.
/// With nothing configured, or with the default address configured, a
/// client is made. An address that the `redis` crate refuses gives a
/// configuration error, and there is no other way to fail.
pub fn open_store(configured: Option<String>) -> (outcome: Result<redis::Client, AppError>)
    ensures
        store_address(configured) == "redis://127.0.0.1/"@ ==> outcome is Ok,
        configured is None ==> outcome is Ok,
        outcome matches Err(error) ==> error matches AppError::RedisError(
            StoreError::Configuration(_),
        ),
{
    let url = store_url(configured);
    client_or_error(open_client(url.as_str()))
}

} // verus!
