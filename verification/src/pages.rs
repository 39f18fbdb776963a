//! The static pages: found in the bundle once, decoded, and kept for the
//! life of the process.

use vstd::prelude::*;
use vstd::string::StringExecFns;
use crate::error::AppError;

verus! {

/// The text that lossy UTF-8 decoding makes of `bytes`: valid sequences
/// decode to their characters, and each invalid one becomes U+FFFD.
pub uninterp spec fn utf8_lossy(bytes: Seq<u8>) -> Seq<char>;

/// Decodes a page's bytes with `String::from_utf8_lossy`. Trusted: the
/// result is taken to be the lossy decoding of exactly these bytes, which
/// the standard library computes from the bytes alone.
#[verifier::external_body]
fn decode_lossy(data: &[u8]) -> (text: String)
    ensures
        text@ == utf8_lossy(data@),
{
    String::from_utf8_lossy(data).into_owned()
}

/// The bundle's name for the front page.
pub fn index_asset() -> (name: &'static str)
    ensures
        name@ == "index-mini.html"@,
{
    "index-mini.html"
}

/// The bundle's name for the privacy policy.
pub fn privacy_policy_asset() -> (name: &'static str)
    ensures
        name@ == "privacy-policy.html"@,
{
    "privacy-policy.html"
}

/// Makes a page of what the bundle holds under a name: the decoded text
/// where it holds something, and otherwise an error that carries
/// `reported`, the name to report as missing.
pub fn load_page(reported: &str, data: Option<Vec<u8>>) -> (page: Result<String, AppError>)
    ensures
        match data {
            Some(bytes) => page matches Ok(text) && text@ == utf8_lossy(bytes@),
            None => page matches Err(AppError::AssetNotFound(name)) && name@ == reported@,
        },
{
    match data {
        Some(bytes) => Ok(decode_lossy(bytes.as_slice())),
        None => Err(AppError::AssetNotFound(String::from_str(reported))),
    }
}

/// The front page, from what the bundle holds under [`index_asset`].
pub fn index_page(data: Option<Vec<u8>>) -> (page: Result<String, AppError>)
    ensures
        match data {
            Some(bytes) => page matches Ok(text) && text@ == utf8_lossy(bytes@),
            None => page matches Err(AppError::AssetNotFound(name)) && name@
                == "index-mini.html"@,
        },
{
    load_page(index_asset(), data)
}

/// The privacy policy, from what the bundle holds under
/// [`privacy_policy_asset`]. Where it is missing the error names the
/// minified file.
pub fn privacy_policy_page(data: Option<Vec<u8>>) -> (page: Result<String, AppError>)
    ensures
        match data {
            Some(bytes) => page matches Ok(text) && text@ == utf8_lossy(bytes@),
            None => page matches Err(AppError::AssetNotFound(name)) && name@
                == "privacy-policy-mini.html"@,
        },
{
    load_page("privacy-policy-mini.html", data)
}

/// Answers a request for a page from the kept result of loading it: a copy
/// of the page, or a not-found error whose text is the full description of
/// what went wrong when the page was loaded.
pub fn serve_page(kept: &Result<String, AppError>) -> (served: Result<String, AppError>)
    ensures
        match *kept {
            Ok(page) => served == Ok::<String, AppError>(page),
            Err(error) => served matches Err(AppError::AssetNotFound(text)) && text@
                == error.description(),
        },
        served matches Err(error) ==> error.status() == 404,
{
    match kept {
        Ok(page) => Ok(page.clone()),
        Err(error) => Err(AppError::AssetNotFound(error.describe())),
    }
}

} // verus!
