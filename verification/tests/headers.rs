use chat_client::error::ConfigError;
use chat_client::headers::get_headers;
use reqwest::header::{HeaderMap, HeaderValue, AUTHORIZATION, CONTENT_TYPE};

fn refused(key: &str) -> bool {
    get_headers(key) == Err(ConfigError::InvalidCredential)
}

#[test]
fn headers_carry_the_bearer_key_and_the_content_type() {
    let headers = get_headers("sk-x").unwrap();
    assert_eq!(headers.len(), 2);
    assert_eq!(headers.keys_len(), 2);
    assert_eq!(headers.get(AUTHORIZATION).unwrap().as_bytes(), b"Bearer sk-x");
    assert_eq!(headers.get(CONTENT_TYPE).unwrap().as_bytes(), b"application/json");
    assert_eq!(headers.get("authorization").unwrap(), "Bearer sk-x");
    assert_eq!(headers.get("content-type").unwrap(), "application/json");
}

#[test]
fn headers_are_what_inserting_by_hand_gives() {
    let mut by_hand = HeaderMap::new();
    by_hand.insert(AUTHORIZATION, HeaderValue::from_str("Bearer sk-x").unwrap());
    by_hand.insert(CONTENT_TYPE, HeaderValue::from_static("application/json"));
    assert_eq!(get_headers("sk-x"), Ok(by_hand));
}

#[test]
fn key_with_a_line_feed_is_refused() {
    assert!(refused("sk\nx"));
    assert!(refused("sk-x\n"));
    assert!(refused("sk-x\r\nX-Injected: 1"));
}

#[test]
fn key_with_a_null_character_is_refused() {
    assert!(refused("sk\0x"));
    assert!(refused("\0"));
}

#[test]
fn key_with_another_control_character_is_refused() {
    assert!(refused("a\u{1}b"));
    assert!(refused("a\u{1f}b"));
    assert!(refused("a\u{7f}b"));
}

#[test]
fn key_with_a_tab_or_a_space_is_accepted() {
    let headers = get_headers("a\tb c").unwrap();
    assert_eq!(headers.get(AUTHORIZATION).unwrap().as_bytes(), b"Bearer a\tb c");
}

#[test]
fn key_beyond_ascii_is_accepted_byte_for_byte() {
    let key = "cl\u{e9}-\u{43a}\u{43b}\u{44e}\u{447}-\u{1f511}";
    let headers = get_headers(key).unwrap();
    assert_eq!(
        headers.get(AUTHORIZATION).unwrap().as_bytes(),
        format!("Bearer {}", key).as_bytes()
    );
    assert_eq!(
        get_headers("\u{80}").unwrap().get(AUTHORIZATION).unwrap().as_bytes(),
        "Bearer \u{80}".as_bytes()
    );
}

#[test]
fn empty_key_gives_a_bare_bearer() {
    assert_eq!(get_headers("").unwrap().get(AUTHORIZATION).unwrap().as_bytes(), b"Bearer ");
}
