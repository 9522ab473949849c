use tiny_shop::web::cookie::{expire_cart_cookie, extract_cart_token, is_secure_base_url, set_cart_cookie};

#[test]
fn extract_cart_token_from_single_cookie() {
    assert_eq!(extract_cart_token(Some("cart=abc123")), Some("abc123".to_string()));
}

#[test]
fn extract_cart_token_among_multiple_cookies() {
    assert_eq!(
        extract_cart_token(Some("theme=dark; cart=abc123; lang=uk")),
        Some("abc123".to_string())
    );
}

#[test]
fn extract_cart_token_missing_returns_none() {
    assert_eq!(extract_cart_token(Some("theme=dark")), None);

    assert_eq!(extract_cart_token(None), None);
}

#[test]
fn extract_cart_token_empty_value_returns_none() {
    assert_eq!(extract_cart_token(Some("cart=")), None);
}

#[test]
fn set_cart_cookie_includes_security_attributes() {
    let value = set_cart_cookie("rawtoken", false);
    assert!(value.starts_with("cart=rawtoken;"));
    assert!(value.contains("HttpOnly"));
    assert!(value.contains("SameSite=Lax"));
    assert!(value.contains("Path=/"));
    assert!(value.contains("Max-Age=2592000"));
}

#[test]
fn set_cart_cookie_secure_true_adds_secure_attribute() {
    let value = set_cart_cookie("rawtoken", true);
    assert!(
        value.contains("; Secure"),
        "secure=true should add Secure attribute: {value}"
    );
}

#[test]
fn set_cart_cookie_secure_false_omits_secure_attribute() {
    let value = set_cart_cookie("rawtoken", false);
    assert!(
        !value.contains("Secure"),
        "secure=false should not add Secure attribute: {value}"
    );
}

#[test]
fn expire_cart_cookie_clears_with_max_age_zero() {
    let value = expire_cart_cookie(false);
    assert!(value.starts_with("cart=;"), "value: {value}");
    assert!(value.contains("Max-Age=0"));
    assert!(value.contains("Path=/"));
    assert!(!value.contains("Secure"));
}

#[test]
fn expire_cart_cookie_secure_true_adds_secure_attribute() {
    let value = expire_cart_cookie(true);
    assert!(
        value.contains("; Secure"),
        "secure=true should add Secure attribute: {value}"
    );
}

#[test]
fn set_cookie_exact_text() {
    assert_eq!(
        set_cart_cookie("tok", true),
        "cart=tok; HttpOnly; SameSite=Lax; Path=/; Max-Age=2592000; Secure"
    );
    assert_eq!(
        expire_cart_cookie(false),
        "cart=; HttpOnly; SameSite=Lax; Path=/; Max-Age=0"
    );
}

#[test]
fn cookie_written_is_cookie_read() {
    let token = "Ab3dEf9";
    let set = set_cart_cookie(token, false);
    let pair = set.split(';').next().unwrap();
    assert_eq!(extract_cart_token(Some(pair)), Some(token.to_string()));
}

#[test]
fn extract_cart_token_trims_and_takes_first_non_empty() {
    assert_eq!(extract_cart_token(Some("  cart=xyz  ")), Some("xyz".to_string()));
    assert_eq!(extract_cart_token(Some("cart=; cart=second")), Some("second".to_string()));
    assert_eq!(extract_cart_token(Some("cartx=1; acart=2")), None);
    assert_eq!(extract_cart_token(Some("")), None);
}

#[test]
fn secure_base_url_is_https() {
    assert!(is_secure_base_url("https://shop.example"));
    assert!(!is_secure_base_url("http://127.0.0.1:8080"));
}
