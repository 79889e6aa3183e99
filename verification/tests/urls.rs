use account_info::urls::{is_published, published, starts_with};
use account_info::{is_valid_url, ContractError, Identity, Urls};

fn id(byte: u8) -> Identity {
    Identity::new([byte; 32])
}

#[test]
fn accepted_urls() {
    assert!(is_valid_url("http://localhost:80"));
    assert!(is_valid_url("https://127.0.0.1:90"));
    assert!(is_valid_url("http://"));
    assert!(is_valid_url("https://"));
    assert!(is_valid_url("http://a\nb"));
    assert!(is_valid_url("https://ünï.example/ö"));
}

#[test]
fn refused_urls() {
    assert!(!is_valid_url(""));
    assert!(!is_valid_url("ftp://x"));
    assert!(!is_valid_url("http:/"));
    assert!(!is_valid_url("https:/"));
    assert!(!is_valid_url("http:/x/"));
    assert!(!is_valid_url("HTTP://x"));
    assert!(!is_valid_url("Https://x"));
    assert!(!is_valid_url(" http://x"));
    assert!(!is_valid_url("htt"));
    assert!(!is_valid_url("xhttp://"));
}

#[test]
fn prefixes() {
    assert!(starts_with("abc", ""));
    assert!(starts_with("", ""));
    assert!(starts_with("abc", "ab"));
    assert!(starts_with("abc", "abc"));
    assert!(!starts_with("abc", "abcd"));
    assert!(!starts_with("abc", "b"));
    assert!(!starts_with("", "a"));
    assert!(starts_with("äbc", "ä"));
    assert!(!starts_with("äbc", "a"));
}

#[test]
fn nothing_is_stored_at_first() {
    let urls = Urls::new();
    assert_eq!(urls.get(&id(1)), None);
}

#[test]
fn set_then_get_round_trip() {
    let mut urls = Urls::new();
    assert_eq!(urls.set(&id(1), "https://a"), Ok(()));
    assert_eq!(urls.get(&id(1)), Some("https://a".to_string()));
    assert_eq!(urls.set(&id(1), "http://b"), Ok(()));
    assert_eq!(urls.get(&id(1)), Some("http://b".to_string()));
    assert_eq!(urls.get(&id(2)), None);
}

#[test]
fn set_keeps_other_identities() {
    let mut urls = Urls::new();
    urls.set(&id(1), "https://one").unwrap();
    urls.set(&id(2), "https://two").unwrap();
    urls.set(&id(1), "http://uno").unwrap();
    assert_eq!(urls.get(&id(1)), Some("http://uno".to_string()));
    assert_eq!(urls.get(&id(2)), Some("https://two".to_string()));
}

#[test]
fn bad_url_is_not_stored() {
    let mut urls = Urls::new();
    assert_eq!(urls.set(&id(1), "ftp://x"), Err(ContractError::BadUrlFormat));
    assert_eq!(urls.get(&id(1)), None);
    urls.set(&id(1), "https://kept").unwrap();
    assert_eq!(urls.set(&id(1), "kept.example"), Err(ContractError::BadUrlFormat));
    assert_eq!(urls.get(&id(1)), Some("https://kept".to_string()));
}

#[test]
fn delete_leaves_the_empty_string() {
    let mut urls = Urls::new();
    urls.set(&id(1), "https://a").unwrap();
    urls.delete(&id(1));
    assert_eq!(urls.get(&id(1)), Some(String::new()));
}

#[test]
fn delete_without_url_never_fails() {
    let mut urls = Urls::new();
    urls.set(&id(2), "https://two").unwrap();
    // Nothing was ever written for the identity.
    urls.delete(&id(1));
    assert_eq!(urls.get(&id(1)), Some(String::new()));
    assert_eq!(published(urls.get(&id(1))), Err(ContractError::NotFound));
    // The empty string is written again.
    urls.delete(&id(1));
    assert_eq!(urls.get(&id(1)), Some(String::new()));
    assert_eq!(urls.get(&id(2)), Some("https://two".to_string()));
}

#[test]
fn set_after_delete() {
    let mut urls = Urls::new();
    urls.set(&id(1), "https://a").unwrap();
    urls.delete(&id(1));
    urls.set(&id(1), "http://b").unwrap();
    assert_eq!(urls.get(&id(1)), Some("http://b".to_string()));
}

#[test]
fn missing_and_empty_read_as_not_found() {
    assert_eq!(published(None), Err(ContractError::NotFound));
    assert_eq!(published(Some(String::new())), Err(ContractError::NotFound));
    assert_eq!(
        published(Some("https://a".to_string())),
        Ok("https://a".to_string())
    );
    assert!(!is_published(&None));
    assert!(!is_published(&Some(String::new())));
    assert!(is_published(&Some("https://a".to_string())));
}
