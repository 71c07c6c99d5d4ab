use shared::auth::{judge_hash, judge_password, AuthError, AuthService};
use shared::shopify::{
    check_order_status, check_product_status, check_status, judge_signature, ShopifyClient,
    ShopifyConfig, ShopifyError,
};
use shared::sorting::sort_ascending;

fn client(secret: &str) -> ShopifyClient {
    ShopifyClient::new(ShopifyConfig {
        shop_domain: "demo.myshopify.com".to_string(),
        access_token: "token".to_string(),
        webhook_secret: secret.to_string(),
        api_version: "2024-01".to_string(),
    })
}

#[test]
fn a_webhook_signature_is_the_base64_of_the_hmac() {
    let shop = client("key");
    let payload = "The quick brown fox jumps over the lazy dog";
    assert!(matches!(
        shop.verify_webhook(payload, "97yD9DBThCSxMpjmqm+xQ+9NWaFJRhdZl0edvC0aPNg="),
        Ok(true)
    ));
    assert!(matches!(
        shop.verify_webhook(payload, "97yD9DBThCSxMpjmqm+xQ+9NWaFJRhdZl0edvC0aPNg"),
        Ok(false)
    ));
    assert!(matches!(shop.verify_webhook(payload, payload), Ok(false)));
    assert!(matches!(shop.verify_webhook(payload, "key"), Ok(false)));
    assert!(matches!(shop.verify_webhook(payload, ""), Ok(false)));
    assert!(matches!(
        shop.verify_webhook("The quick brown fox", "97yD9DBThCSxMpjmqm+xQ+9NWaFJRhdZl0edvC0aPNg="),
        Ok(false)
    ));
}

#[test]
fn webhook_signatures_for_other_keys_and_payloads() {
    let shop = ShopifyClient::new(ShopifyConfig::default());
    assert!(matches!(
        shop.verify_webhook("{\"id\":1}", "QvXb3zhuj4LgTGoAvvxDY7YiY6ouyBNAtDTAFGwyoUg="),
        Ok(true)
    ));
    assert!(matches!(
        client("").verify_webhook("", "thNnmggU2ex3L5XXeMNfxf8Wl8STcVZTxscSFEKSxa0="),
        Ok(true)
    ));
    let long_key = "k".repeat(200);
    assert!(matches!(
        client(&long_key).verify_webhook("p\u{e4}yload", "mEn57Y8h4x0/TmN/N3Ti7QMaxXngfbvbjSl4HSNaL4o="),
        Ok(true)
    ));
}

#[test]
fn a_signature_is_judged_against_what_was_expected() {
    assert!(matches!(judge_signature("abc", Some("abc")), Ok(true)));
    assert!(matches!(judge_signature("abc", Some("abd")), Ok(false)));
    assert!(matches!(judge_signature("", Some("")), Ok(true)));
    assert!(matches!(
        judge_signature("abc", None),
        Err(ShopifyError::InvalidWebhookSignature)
    ));
}

#[test]
fn shop_addresses() {
    let shop = client("s");
    assert_eq!(shop.config().api_version, "2024-01");
    assert_eq!(shop.base_url(), "https://demo.myshopify.com/admin/api/2024-01");
    assert_eq!(
        shop.collection_url("products"),
        "https://demo.myshopify.com/admin/api/2024-01/products.json"
    );
    assert_eq!(
        shop.collection_url("orders"),
        "https://demo.myshopify.com/admin/api/2024-01/orders.json"
    );
    assert_eq!(
        shop.resource_url("products", 42),
        "https://demo.myshopify.com/admin/api/2024-01/products/42.json"
    );
    assert_eq!(
        shop.resource_url("orders", -7),
        "https://demo.myshopify.com/admin/api/2024-01/orders/-7.json"
    );
    assert_eq!(
        shop.resource_url("orders", i64::MIN),
        "https://demo.myshopify.com/admin/api/2024-01/orders/-9223372036854775808.json"
    );
}

#[test]
fn statuses_become_errors() {
    assert!(check_status(200).is_ok());
    assert!(check_status(299).is_ok());
    assert!(matches!(check_status(199), Err(ShopifyError::ApiError(text)) if text == "HTTP 199"));
    assert!(matches!(check_status(300), Err(ShopifyError::ApiError(text)) if text == "HTTP 300"));
    assert!(matches!(check_status(404), Err(ShopifyError::ApiError(text)) if text == "HTTP 404"));
    assert!(matches!(check_status(0), Err(ShopifyError::ApiError(text)) if text == "HTTP 0"));
    assert!(check_product_status(201).is_ok());
    assert!(matches!(check_product_status(404), Err(ShopifyError::ProductNotFound)));
    assert!(
        matches!(check_product_status(500), Err(ShopifyError::ApiError(text)) if text == "HTTP 500")
    );
    assert!(check_order_status(204).is_ok());
    assert!(matches!(check_order_status(404), Err(ShopifyError::OrderNotFound)));
    assert!(
        matches!(check_order_status(429), Err(ShopifyError::ApiError(text)) if text == "HTTP 429")
    );
}

#[test]
fn a_hashed_password_verifies() {
    let service = AuthService::new("secret".to_string());
    let hash = service.hash_password("TestPassword123!").unwrap();
    assert_ne!(hash, "TestPassword123!");
    assert!(hash.starts_with("$2b$12$"), "{}", hash);
    assert_eq!(hash.len(), 60);
    assert!(matches!(service.verify_password("TestPassword123!", &hash), Ok(true)));
    assert!(matches!(service.verify_password("TestPassword123", &hash), Ok(false)));
    assert!(matches!(service.verify_password("", &hash), Ok(false)));
}

#[test]
fn a_known_hash_verifies() {
    let service = AuthService::new(String::new());
    // A hash of "correctbatteryhorsestapler" at cost 4.
    let hash = "$2b$04$EGdrhbKUv8Oc9vGiXX0HQOxSg445d458Muh7DAHskb6QbtCvdxcie";
    assert!(matches!(service.verify_password("correctbatteryhorsestapler", hash), Ok(true)));
    assert!(matches!(service.verify_password("correctbatteryhorsestaple", hash), Ok(false)));
    // A hash of "password" at cost 4.
    let hash = "$2a$04$UuTkLRZZ6QofpDOlMz32MuuxEHA43WOemOYHPz6.SjsVsyO1tDU96";
    assert!(matches!(service.verify_password("password", hash), Ok(true)));
    assert!(matches!(service.verify_password(hash, hash), Ok(false)));
}

#[test]
fn what_is_no_hash_gives_invalid_credentials() {
    let service = AuthService::new(String::new());
    assert!(matches!(
        service.verify_password("password", "password"),
        Err(AuthError::InvalidCredentials)
    ));
    assert!(matches!(service.verify_password("password", ""), Err(AuthError::InvalidCredentials)));
    assert!(matches!(
        service.verify_password("password", "$2b$04$tooshort"),
        Err(AuthError::InvalidCredentials)
    ));
    assert!(matches!(
        service.verify_password("x", "$9z$04$EGdrhbKUv8Oc9vGiXX0HQOxSg445d458Muh7DAHskb6QbtCvdxcie"),
        Err(AuthError::InvalidCredentials)
    ));
}

#[test]
fn the_outcome_of_hashing_is_passed_on() {
    assert_eq!(judge_hash(Ok("$2b$12$abc".to_string())).unwrap(), "$2b$12$abc");
    assert_eq!(judge_hash(Ok(String::new())).unwrap(), "");
    assert!(matches!(
        judge_hash(Err(bcrypt::BcryptError::CostNotAllowed(99))),
        Err(AuthError::PasswordHashingFailed)
    ));
    assert!(matches!(
        judge_hash(Err(bcrypt::BcryptError::InvalidSaltLen(3))),
        Err(AuthError::PasswordHashingFailed)
    ));
}

#[test]
fn every_fresh_hash_verifies_and_differs() {
    let service = AuthService::new(String::new());
    let first = service.hash_password("p\u{e4}ss").unwrap();
    let second = service.hash_password("p\u{e4}ss").unwrap();
    assert_ne!(first, second);
    assert!(matches!(service.verify_password("p\u{e4}ss", &first), Ok(true)));
    assert!(matches!(service.verify_password("p\u{e4}ss", &second), Ok(true)));
    assert!(matches!(service.verify_password("pass", &first), Ok(false)));
}

#[test]
fn the_verdict_on_a_password_follows_the_comparison() {
    assert!(matches!(judge_password(Some(true)), Ok(true)));
    assert!(matches!(judge_password(Some(false)), Ok(false)));
    assert!(matches!(judge_password(None), Err(AuthError::InvalidCredentials)));
}

#[test]
fn sorting_orders_and_keeps_every_value() {
    let mut values = vec![5u64, 3, 9, 3, 0, u64::MAX, 7, 3];
    sort_ascending(&mut values);
    assert_eq!(values, vec![0, 3, 3, 3, 5, 7, 9, u64::MAX]);
    let mut values: Vec<u64> = vec![];
    sort_ascending(&mut values);
    assert!(values.is_empty());
    let mut values = vec![1u64];
    sort_ascending(&mut values);
    assert_eq!(values, vec![1]);
    let mut values: Vec<u64> = (0..1000).map(|i| (i * 7919) % 1009).collect();
    let mut expected = values.clone();
    expected.sort();
    sort_ascending(&mut values);
    assert_eq!(values, expected);
}
