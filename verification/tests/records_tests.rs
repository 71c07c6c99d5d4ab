use shared::auth::{AuthError, AuthenticatedUser, Claims};
use shared::decimal::Decimal;
use shared::metrics::{error_key, BenchmarkMetrics};
use shared::models::{ApiResponse, Order, OrderStatus, Product, User};
use shared::sample::RequestMetrics;
use shared::shopify::{MockShopifyClient, ShopifyError, ShopifyWebhook, MOCK_PRODUCT_ID};
use uuid::Uuid;

const ID: &str = "550e8400-e29b-41d4-a716-446655440000";

#[test]
fn error_keys_name_the_status() {
    assert_eq!(error_key(0), "HTTP_0");
    assert_eq!(error_key(404), "HTTP_404");
    assert_eq!(error_key(500), "HTTP_500");
    assert_eq!(error_key(u16::MAX), "HTTP_65535");
}

#[test]
fn the_error_histogram_lists_failures_by_status() {
    let mut metrics = BenchmarkMetrics::with_start_time("AXUM".to_string(), 0);
    assert!(metrics.error_counts().is_empty());
    for code in [500u16, 200, 404, 500, 204, 65535, 404, 500] {
        metrics.add_request(RequestMetrics::from_response(0, 1, code, None, "/x".to_string()));
    }
    metrics.add_request(RequestMetrics::transport_failure(0, 1, "/x".to_string()));
    let listing: Vec<(String, u16, u64)> =
        metrics.error_counts().into_iter().map(|e| (e.key, e.status_code, e.count)).collect();
    assert_eq!(
        listing,
        vec![
            ("HTTP_0".to_string(), 0, 1),
            ("HTTP_404".to_string(), 404, 2),
            ("HTTP_500".to_string(), 500, 3),
            ("HTTP_65535".to_string(), 65535, 1),
        ]
    );
    let listed: u64 = metrics.error_counts().iter().map(|e| e.count).sum();
    assert_eq!(listed, metrics.failed_requests());
}

#[test]
fn answers_carry_data_or_an_error() {
    let response = ApiResponse::success_at(7u32, 123);
    assert!(response.success);
    assert_eq!(response.data, Some(7));
    assert_eq!(response.error, None);
    assert_eq!(response.timestamp, 123);
    let response: ApiResponse<u32> = ApiResponse::error_at("Product not found".to_string(), 5);
    assert!(!response.success);
    assert_eq!(response.data, None);
    assert_eq!(response.error.as_deref(), Some("Product not found"));
    assert_eq!(response.timestamp, 5);
    let response = ApiResponse::success("ok".to_string());
    assert!(response.success);
    assert_eq!(response.data.as_deref(), Some("ok"));
    assert!(response.timestamp > 1_577_836_800_000);
    let response: ApiResponse<()> = ApiResponse::error("no".to_string());
    assert!(!response.success);
    assert!(response.data.is_none());
    assert_eq!(response.error.as_deref(), Some("no"));
}

#[test]
fn new_claims_are_issued_now() {
    let id = Uuid::parse_str(ID).unwrap();
    let claims =
        Claims::new(id, "test@example.com".to_string(), "Test User".to_string(), 24).unwrap();
    assert_eq!(claims.sub, ID);
    assert_eq!(claims.email, "test@example.com");
    assert_eq!(claims.name, "Test User");
    assert_eq!(claims.exp - claims.iat, 24 * 3600);
    assert!(claims.iat > 1_577_836_800);
    assert!(!claims.is_expired());
    assert!(Claims::new(id, String::new(), String::new(), i64::MAX).is_none());
    assert!(Claims::new(id, String::new(), String::new(), i64::MIN).is_none());
    // A lifetime that fits after every reading of the clock gives claims.
    let longest = (i64::MAX - 0xffff_ffff_ffff) / 3600;
    let claims = Claims::new(id, String::new(), String::new(), longest).unwrap();
    assert_eq!(claims.exp - claims.iat, longest * 3600);
    let shortest = i64::MIN / 3600;
    let claims = Claims::new(id, String::new(), String::new(), shortest).unwrap();
    assert_eq!(claims.exp, claims.iat + shortest * 3600);
    assert!(claims.is_expired());
    let claims = Claims::new(id, String::new(), String::new(), 0).unwrap();
    assert_eq!(claims.exp, claims.iat);
}

#[test]
fn claims_name_their_user() {
    let claims = Claims {
        sub: ID.to_string(),
        email: "test@example.com".to_string(),
        name: "Test User".to_string(),
        exp: 2,
        iat: 1,
    };
    let user = AuthenticatedUser::from_claims(claims).unwrap();
    assert_eq!(user.id, Uuid::parse_str(ID).unwrap());
    assert_eq!(user.email, "test@example.com");
    assert_eq!(user.name, "Test User");
    // The form without hyphens is read too.
    let claims = Claims {
        sub: "550e8400e29b41d4a716446655440000".to_string(),
        email: String::new(),
        name: String::new(),
        exp: 0,
        iat: 0,
    };
    assert_eq!(AuthenticatedUser::from_claims(claims).unwrap().id.to_string(), ID);
}

#[test]
fn claims_without_an_identifier_are_an_invalid_token() {
    for sub in ["", "user-1", "550e8400-e29b-41d4-a716-44665544000", "not a uuid at all, not at all"] {
        let claims = Claims {
            sub: sub.to_string(),
            email: "e".to_string(),
            name: "n".to_string(),
            exp: 0,
            iat: 0,
        };
        assert!(matches!(AuthenticatedUser::from_claims(claims), Err(AuthError::InvalidToken)));
    }
    assert!(matches!(
        AuthenticatedUser::from_parts(None, String::new(), String::new()),
        Err(AuthError::InvalidToken)
    ));
    let id = Uuid::parse_str(ID).unwrap();
    let user = AuthenticatedUser::from_parts(Some(id), "e".to_string(), "n".to_string()).unwrap();
    assert_eq!(user.id, id);
    assert_eq!(user.email, "e");
}

#[test]
fn records_are_plain_data() {
    let id = Uuid::parse_str(ID).unwrap();
    let user = User {
        id,
        email: "a@b.c".to_string(),
        name: "A".to_string(),
        created_at: 1,
        updated_at: 2,
    };
    let copy = user.clone();
    assert_eq!(copy.id, user.id);
    let product = Product {
        id,
        name: "Mock Product".to_string(),
        description: None,
        price: Decimal { thousandths: 99_990 },
        shopify_id: Some("1".to_string()),
        created_at: 0,
        updated_at: 0,
    };
    assert_eq!(product.price.whole(), 99);
    assert_eq!(product.price.fraction(), 990);
    let order = Order {
        id,
        user_id: id,
        total_amount: Decimal { thousandths: 199_980 },
        status: OrderStatus::Processing,
        shopify_order_id: None,
        created_at: 0,
        updated_at: 0,
    };
    assert_eq!(order.status, OrderStatus::Processing);
}

#[test]
fn the_stand_in_shop_lists_two_products() {
    let shop = MockShopifyClient::stamped(1_700_000_000_000);
    let products = shop.get_products();
    assert_eq!(products.len(), 2);
    assert_eq!(products[0].id, Some(1));
    assert_eq!(products[0].title, "Demo Product 1");
    assert_eq!(products[0].body_html.as_deref(), Some("<p>This is a demo product</p>"));
    assert_eq!(products[0].vendor, "Demo Vendor");
    assert_eq!(products[0].product_type, "Demo Type");
    assert_eq!(products[0].status, "active");
    assert_eq!(products[0].published_scope, "web");
    assert_eq!(products[0].tags, "demo,test");
    assert_eq!(products[0].admin_graphql_api_id.as_deref(), Some("gid://shopify/Product/1"));
    assert_eq!(products[0].created_at, Some(1_700_000_000_000));
    assert_eq!(products[0].published_at, Some(1_700_000_000_000));
    assert!(products[0].template_suffix.is_none());
    assert!(products[0].variants.is_empty());
    assert_eq!(products[1].id, Some(2));
    assert_eq!(products[1].title, "Demo Product 2");
    assert_eq!(products[1].body_html.as_deref(), Some("<p>This is another demo product</p>"));
    assert_eq!(products[1].tags, "demo,test,featured");
    assert_eq!(products[1].admin_graphql_api_id.as_deref(), Some("gid://shopify/Product/2"));
    assert!(shop.get_orders().is_empty());
    assert!(MockShopifyClient::create_mock_orders().is_empty());
}

#[test]
fn the_stand_in_shop_finds_products_by_number() {
    let shop = MockShopifyClient::new();
    assert_eq!(shop.get_product(1).unwrap().title, "Demo Product 1");
    assert_eq!(shop.get_product(2).unwrap().title, "Demo Product 2");
    assert!(matches!(shop.get_product(3), Err(ShopifyError::ProductNotFound)));
    assert!(matches!(shop.get_product(0), Err(ShopifyError::ProductNotFound)));
    assert!(matches!(shop.get_product(-1), Err(ShopifyError::ProductNotFound)));
    assert!(shop.get_products()[0].created_at.unwrap() > 1_577_836_800_000);
}

#[test]
fn the_stand_in_shop_creates_products_under_one_number() {
    let shop = MockShopifyClient::stamped(0);
    let template = MockShopifyClient::create_mock_products(5).remove(0);
    let created = shop.create_product_at(template.clone(), 77);
    assert_eq!(MOCK_PRODUCT_ID, 999);
    assert_eq!(created.id, Some(999));
    assert_eq!(created.created_at, Some(77));
    assert_eq!(created.updated_at, Some(77));
    assert_eq!(created.published_at, Some(5));
    assert_eq!(created.title, "Demo Product 1");
    assert_eq!(created.tags, template.tags);
    let created = shop.create_product(template);
    assert_eq!(created.id, Some(999));
    assert_eq!(created.created_at, created.updated_at);
    assert!(created.created_at.unwrap() > 1_577_836_800_000);
    assert_eq!(created.title, "Demo Product 1");
    // Creating does not add to what the shop lists.
    assert_eq!(shop.get_products().len(), 2);
}

#[test]
fn a_notification_carries_its_payload() {
    let mut fields = serde_json::Map::new();
    fields.insert("id".to_string(), serde_json::Value::from(1001));
    fields.insert("email".to_string(), serde_json::Value::String("a@b.c".to_string()));
    let webhook = ShopifyWebhook {
        topic: "orders/create".to_string(),
        shop_domain: "demo.myshopify.com".to_string(),
        payload: serde_json::Value::Object(fields),
        created_at: 1_700_000_000_000,
    };
    let copy = webhook.clone();
    assert_eq!(copy.topic, "orders/create");
    assert_eq!(copy.payload, webhook.payload);
    assert_eq!(copy.payload["id"], serde_json::Value::from(1001));
    assert_eq!(copy.created_at, webhook.created_at);
}
