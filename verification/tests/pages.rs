use tweet_votes::error::AppError;
use tweet_votes::pages::{
    index_asset, index_page, load_page, privacy_policy_asset, privacy_policy_page, serve_page,
};

#[test]
fn asset_names() {
    assert_eq!(index_asset(), "index-mini.html");
    assert_eq!(privacy_policy_asset(), "privacy-policy.html");
}

#[test]
fn page_is_decoded_text() {
    let data = "<html>caf\u{e9}</html>".as_bytes().to_vec();
    assert_eq!(load_page("p.html", Some(data)), Ok("<html>caf\u{e9}</html>".to_string()));
}

#[test]
fn invalid_bytes_become_replacement_characters() {
    let data = vec![b'a', 0xff, b'b', 0xc3];
    assert_eq!(load_page("p.html", Some(data)), Ok("a\u{fffd}b\u{fffd}".to_string()));
}

#[test]
fn empty_page_is_empty_text() {
    assert_eq!(index_page(Some(Vec::new())), Ok(String::new()));
}

#[test]
fn missing_page_names_what_was_asked() {
    assert_eq!(
        load_page("p.html", None),
        Err(AppError::AssetNotFound("p.html".to_string()))
    );
}

#[test]
fn missing_index_page() {
    assert_eq!(index_page(None), Err(AppError::AssetNotFound("index-mini.html".to_string())));
    assert_eq!(index_page(Some(b"hi".to_vec())), Ok("hi".to_string()));
}

#[test]
fn missing_privacy_policy_names_the_minified_file() {
    assert_eq!(
        privacy_policy_page(None),
        Err(AppError::AssetNotFound("privacy-policy-mini.html".to_string()))
    );
    assert_eq!(privacy_policy_page(Some(b"policy".to_vec())), Ok("policy".to_string()));
}

#[test]
fn kept_page_is_served_as_it_is() {
    let kept = Ok("<html></html>".to_string());
    assert_eq!(serve_page(&kept), Ok("<html></html>".to_string()));
    assert_eq!(serve_page(&kept), Ok("<html></html>".to_string()));
}

#[test]
fn kept_error_is_served_as_not_found() {
    let kept = index_page(None);
    let served = serve_page(&kept);
    assert_eq!(
        served,
        Err(AppError::AssetNotFound("Asset not found: index-mini.html".to_string()))
    );
    assert_eq!(served.unwrap_err().status_code(), 404);
}

#[test]
fn any_kept_error_is_served_as_not_found() {
    let kept = Err(AppError::IoError("disk".to_string()));
    assert_eq!(serve_page(&kept), Err(AppError::AssetNotFound("IO error: disk".to_string())));
}
