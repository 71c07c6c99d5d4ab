use shared::graphql::graphql_playground;
use shared::shopify::{
    create_shopify_gid, extract_shopify_id_from_gid, ShopifyConfig, ShopifyOption,
};

#[test]
fn a_gid_names_type_and_number() {
    assert_eq!(create_shopify_gid("Product", 1), "gid://shopify/Product/1");
    assert_eq!(create_shopify_gid("Order", 1001), "gid://shopify/Order/1001");
    assert_eq!(create_shopify_gid("Product", 0), "gid://shopify/Product/0");
    assert_eq!(create_shopify_gid("", 7), "gid://shopify//7");
    assert_eq!(create_shopify_gid("Refund", -42), "gid://shopify/Refund/-42");
    assert_eq!(
        create_shopify_gid("Product", i64::MAX),
        "gid://shopify/Product/9223372036854775807"
    );
    assert_eq!(
        create_shopify_gid("Product", i64::MIN),
        "gid://shopify/Product/-9223372036854775808"
    );
}

#[test]
fn the_number_is_read_from_the_last_segment() {
    assert_eq!(extract_shopify_id_from_gid("gid://shopify/Product/1"), Some(1));
    assert_eq!(extract_shopify_id_from_gid("gid://shopify/Product/2"), Some(2));
    assert_eq!(extract_shopify_id_from_gid("gid://shopify/Order/1001"), Some(1001));
    assert_eq!(extract_shopify_id_from_gid("12345"), Some(12345));
    assert_eq!(extract_shopify_id_from_gid("a/b/007"), Some(7));
    assert_eq!(extract_shopify_id_from_gid("x/-15"), Some(-15));
    assert_eq!(extract_shopify_id_from_gid("x/+15"), Some(15));
    assert_eq!(extract_shopify_id_from_gid("x/-0"), Some(0));
}

#[test]
fn what_is_no_number_gives_nothing() {
    assert_eq!(extract_shopify_id_from_gid(""), None);
    assert_eq!(extract_shopify_id_from_gid("gid://shopify/Product/"), None);
    assert_eq!(extract_shopify_id_from_gid("gid://shopify/Product"), None);
    assert_eq!(extract_shopify_id_from_gid("gid://shopify/Product/12a"), None);
    assert_eq!(extract_shopify_id_from_gid("gid://shopify/Product/1 "), None);
    assert_eq!(extract_shopify_id_from_gid("x/-"), None);
    assert_eq!(extract_shopify_id_from_gid("x/+"), None);
    assert_eq!(extract_shopify_id_from_gid("x/--1"), None);
    assert_eq!(extract_shopify_id_from_gid("x/1-"), None);
    assert_eq!(extract_shopify_id_from_gid("x/\u{663}"), None);
    assert_eq!(extract_shopify_id_from_gid("x/1.5"), None);
}

#[test]
fn numbers_at_the_limits() {
    assert_eq!(extract_shopify_id_from_gid("x/9223372036854775807"), Some(i64::MAX));
    assert_eq!(extract_shopify_id_from_gid("x/9223372036854775808"), None);
    assert_eq!(extract_shopify_id_from_gid("x/-9223372036854775808"), Some(i64::MIN));
    assert_eq!(extract_shopify_id_from_gid("x/-9223372036854775809"), None);
    assert_eq!(extract_shopify_id_from_gid("x/99999999999999999999999999999999999999999999"), None);
    assert_eq!(extract_shopify_id_from_gid("x/00000000000000000000000000000000000000000012"), Some(12));
}

#[test]
fn reading_agrees_with_the_standard_parser() {
    for text in ["0", "-1", "+1", "1_000", " 1", "0x10", "١", "18446744073709551616", "-", ""] {
        assert_eq!(extract_shopify_id_from_gid(text), text.parse::<i64>().ok(), "{:?}", text);
    }
}

#[test]
fn a_gid_gives_its_number_back() {
    for id in [0i64, 1, -1, 999, 1001, 1234567890123, i64::MAX, i64::MIN, i64::MIN + 1] {
        for resource_type in ["Product", "Order", "", "a/b"] {
            let gid = create_shopify_gid(resource_type, id);
            assert_eq!(extract_shopify_id_from_gid(&gid), Some(id), "{}", gid);
        }
    }
}

#[test]
fn the_default_shop() {
    let config = ShopifyConfig::default();
    assert_eq!(config.shop_domain, "your-shop.myshopify.com");
    assert_eq!(config.access_token, "your-access-token");
    assert_eq!(config.webhook_secret, "your-webhook-secret");
    assert_eq!(config.api_version, "2023-10");
    assert_eq!(config.base_url(), "https://your-shop.myshopify.com/admin/api/2023-10");
}

#[test]
fn an_option_is_plain_data() {
    let option = ShopifyOption {
        id: Some(1),
        product_id: None,
        name: "Size".to_string(),
        position: 1,
        values: vec!["S".to_string(), "M".to_string()],
    };
    assert_eq!(option.values.len(), 2);
    assert_eq!(option.name, "Size");
}

#[test]
fn the_playground_talks_to_the_graphql_endpoint() {
    let page = graphql_playground();
    assert!(page.contains("<title>GraphQL Playground</title>"));
    assert!(page.contains("endpoint: '/graphql',"));
    assert!(page.contains("subscriptionEndpoint: '/graphql/ws',"));
    assert!(page.contains("graphql-playground-react@1.7.26/build/static/js/middleware.js"));
    assert!(page.starts_with("\n    <!DOCTYPE html>\n"));
    assert!(page.ends_with("    </html>\n    "));
}
