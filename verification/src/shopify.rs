use crate::clock::{is_clock_millis, now_millis};
use crate::decimal::Decimal;
use crate::text::{chars_of, decimal_text, digit_char, push_decimal};
use vstd::prelude::*;
use vstd::string::StringExecFns;

verus! {

/// What can go wrong when the shop is asked.
#[derive(Debug)]
pub enum ShopifyError {
    /// A request could not be made at all; the text says why.
    HttpError(String),
    AuthenticationFailed,
    ProductNotFound,
    OrderNotFound,
    RateLimitExceeded,
    InvalidWebhookSignature,
    ApiError(String),
}

impl ShopifyError {
    /// What the error says, without the detail that it may carry.
    pub open spec fn headline(self) -> Seq<char> {
        match self {
            ShopifyError::HttpError(_) => "HTTP request failed: "@,
            ShopifyError::AuthenticationFailed => "Authentication failed"@,
            ShopifyError::ProductNotFound => "Product not found"@,
            ShopifyError::OrderNotFound => "Order not found"@,
            ShopifyError::RateLimitExceeded => "Rate limit exceeded"@,
            ShopifyError::InvalidWebhookSignature => "Invalid webhook signature"@,
            ShopifyError::ApiError(_) => "Shopify API error: "@,
        }
    }

    /// The detail that the error carries: none for most.
    pub open spec fn detail(self) -> Seq<char> {
        match self {
            ShopifyError::HttpError(detail) => detail@,
            ShopifyError::ApiError(detail) => detail@,
            _ => Seq::empty(),
        }
    }

    /// The error in words: its headline, and its detail after it.
    pub fn message(&self) -> (text: String)
        ensures
            text@ == self.headline() + self.detail(),
    {
        let text = match self {
            ShopifyError::HttpError(detail) => {
                let mut text = String::from_str("HTTP request failed: ");
                text.append(detail.as_str());
                text
            },
            ShopifyError::AuthenticationFailed => String::from_str("Authentication failed"),
            ShopifyError::ProductNotFound => String::from_str("Product not found"),
            ShopifyError::OrderNotFound => String::from_str("Order not found"),
            ShopifyError::RateLimitExceeded => String::from_str("Rate limit exceeded"),
            ShopifyError::InvalidWebhookSignature => String::from_str("Invalid webhook signature"),
            ShopifyError::ApiError(detail) => {
                let mut text = String::from_str("Shopify API error: ");
                text.append(detail.as_str());
                text
            },
        };
        assert(text@ =~= self.headline() + self.detail());
        text
    }
}

/// How to reach a shop.
#[derive(Debug, Clone)]
pub struct ShopifyConfig {
    pub shop_domain: String,
    pub access_token: String,
    pub webhook_secret: String,
    pub api_version: String,
}

impl Default for ShopifyConfig {
    fn default() -> (config: ShopifyConfig)
        ensures
            config.shop_domain@ == "your-shop.myshopify.com"@,
            config.access_token@ == "your-access-token"@,
            config.webhook_secret@ == "your-webhook-secret"@,
            config.api_version@ == "2023-10"@,
    {
        ShopifyConfig {
            shop_domain: String::from_str("your-shop.myshopify.com"),
            access_token: String::from_str("your-access-token"),
            webhook_secret: String::from_str("your-webhook-secret"),
            api_version: String::from_str("2023-10"),
        }
    }
}

impl ShopifyConfig {
    /// The address under which the shop's interface stands.
    pub open spec fn spec_base_url(&self) -> Seq<char> {
        "https://"@ + self.shop_domain@ + "/admin/api/"@ + self.api_version@
    }

    /// The address under which the shop's interface stands.
    pub fn base_url(&self) -> (url: String)
        ensures
            url@ == self.spec_base_url(),
    {
        let mut url = String::from_str("https://");
        url.append(self.shop_domain.as_str());
        url.append("/admin/api/");
        url.append(self.api_version.as_str());
        url
    }
}

/// One option of a product, such as its size, with the values it can take.
#[derive(Debug, Clone)]
pub struct ShopifyOption {
    pub id: Option<i64>,
    pub product_id: Option<i64>,
    pub name: String,
    pub position: i32,
    pub values: Vec<String>,
}

/// `serde_json::Value`, any JSON value. The library carries such values and
/// never reads them.
#[verifier::external_type_specification]
#[verifier::external_body]
pub struct ExJsonValue(serde_json::Value);

/// `serde_json::Value`'s `clone`: an equal value.
pub assume_specification[ <serde_json::Value as Clone>::clone ](value: &serde_json::Value) -> (copy:
    serde_json::Value)
    ensures
        copy == *value,
;

/// A product as the shop lists it. Timestamps are milliseconds since the Unix
/// epoch, here and in every other record of the shop.
#[derive(Debug, Clone)]
pub struct ShopifyProduct {
    pub id: Option<i64>,
    pub title: String,
    pub body_html: Option<String>,
    pub vendor: String,
    pub product_type: String,
    pub created_at: Option<i64>,
    pub updated_at: Option<i64>,
    pub published_at: Option<i64>,
    pub template_suffix: Option<String>,
    pub status: String,
    pub published_scope: String,
    pub tags: String,
    pub admin_graphql_api_id: Option<String>,
    pub variants: Vec<ShopifyVariant>,
    pub options: Vec<ShopifyOption>,
    pub images: Vec<ShopifyImage>,
}

/// One variant of a product.
#[derive(Debug, Clone)]
pub struct ShopifyVariant {
    pub id: Option<i64>,
    pub product_id: Option<i64>,
    pub title: String,
    pub price: String,
    pub sku: Option<String>,
    pub position: i32,
    pub inventory_policy: String,
    pub compare_at_price: Option<String>,
    pub fulfillment_service: String,
    pub inventory_management: Option<String>,
    pub option1: Option<String>,
    pub option2: Option<String>,
    pub option3: Option<String>,
    pub created_at: Option<i64>,
    pub updated_at: Option<i64>,
    pub taxable: bool,
    pub barcode: Option<String>,
    pub grams: i32,
    pub image_id: Option<i64>,
    pub weight: Decimal,
    pub weight_unit: String,
    pub inventory_item_id: Option<i64>,
    pub inventory_quantity: i32,
    pub old_inventory_quantity: i32,
    pub requires_shipping: bool,
    pub admin_graphql_api_id: Option<String>,
}

/// One image of a product.
#[derive(Debug, Clone)]
pub struct ShopifyImage {
    pub id: Option<i64>,
    pub product_id: Option<i64>,
    pub position: i32,
    pub created_at: Option<i64>,
    pub updated_at: Option<i64>,
    pub alt: Option<String>,
    pub width: i32,
    pub height: i32,
    pub src: String,
    pub variant_ids: Vec<i64>,
    pub admin_graphql_api_id: Option<String>,
}

/// An order as the shop lists it.
#[derive(Debug, Clone)]
pub struct ShopifyOrder {
    pub id: Option<i64>,
    pub admin_graphql_api_id: Option<String>,
    pub app_id: Option<i64>,
    pub browser_ip: Option<String>,
    pub buyer_accepts_marketing: bool,
    pub cancel_reason: Option<String>,
    pub cancelled_at: Option<i64>,
    pub cart_token: Option<String>,
    pub checkout_id: Option<i64>,
    pub checkout_token: Option<String>,
    pub closed_at: Option<i64>,
    pub confirmed: bool,
    pub contact_email: Option<String>,
    pub created_at: Option<i64>,
    pub currency: String,
    pub current_subtotal_price: String,
    pub current_subtotal_price_set: Option<serde_json::Value>,
    pub current_total_discounts: String,
    pub current_total_discounts_set: Option<serde_json::Value>,
    pub current_total_duties_set: Option<serde_json::Value>,
    pub current_total_price: String,
    pub current_total_price_set: Option<serde_json::Value>,
    pub current_total_tax: String,
    pub current_total_tax_set: Option<serde_json::Value>,
    pub customer_locale: Option<String>,
    pub device_id: Option<i64>,
    pub discount_codes: Vec<serde_json::Value>,
    pub email: String,
    pub estimated_taxes: bool,
    pub financial_status: String,
    pub fulfillment_status: Option<String>,
    pub gateway: String,
    pub landing_site: Option<String>,
    pub landing_site_ref: Option<String>,
    pub location_id: Option<i64>,
    pub name: String,
    pub note: Option<String>,
    pub note_attributes: Vec<serde_json::Value>,
    pub number: i32,
    pub order_number: i32,
    pub order_status_url: String,
    pub original_total_duties_set: Option<serde_json::Value>,
    pub payment_gateway_names: Vec<String>,
    pub phone: Option<String>,
    pub presentment_currency: String,
    pub processed_at: Option<i64>,
    pub processing_method: String,
    pub reference: Option<String>,
    pub referring_site: Option<String>,
    pub source_identifier: Option<String>,
    pub source_name: String,
    pub source_url: Option<String>,
    pub subtotal_price: String,
    pub subtotal_price_set: Option<serde_json::Value>,
    pub tags: String,
    pub tax_lines: Vec<serde_json::Value>,
    pub taxes_included: bool,
    pub test: bool,
    pub token: String,
    pub total_discounts: String,
    pub total_discounts_set: Option<serde_json::Value>,
    pub total_line_items_price: String,
    pub total_line_items_price_set: Option<serde_json::Value>,
    pub total_outstanding: String,
    pub total_price: String,
    pub total_price_set: Option<serde_json::Value>,
    pub total_price_usd: String,
    pub total_shipping_price_set: Option<serde_json::Value>,
    pub total_tax: String,
    pub total_tax_set: Option<serde_json::Value>,
    pub total_tip_received: String,
    pub total_weight: i32,
    pub updated_at: Option<i64>,
    pub user_id: Option<i64>,
    pub billing_address: Option<serde_json::Value>,
    pub customer: Option<serde_json::Value>,
    pub discount_applications: Vec<serde_json::Value>,
    pub fulfillments: Vec<serde_json::Value>,
    pub line_items: Vec<serde_json::Value>,
    pub payment_terms: Option<serde_json::Value>,
    pub refunds: Vec<serde_json::Value>,
    pub shipping_address: Option<serde_json::Value>,
    pub shipping_lines: Vec<serde_json::Value>,
}

/// A notification from the shop.
#[derive(Debug, Clone)]
pub struct ShopifyWebhook {
    pub topic: String,
    pub shop_domain: String,
    pub payload: serde_json::Value,
    pub created_at: i64,
}

/// An integer in decimal, with a minus sign where it is negative.
pub open spec fn integer_text(value: int) -> Seq<char> {
    if value < 0 {
        seq!['-'] + decimal_text((-value) as nat)
    } else {
        decimal_text(value as nat)
    }
}

/// The global identifier of the resource of type `resource_type` with the
/// number `id`.
pub open spec fn gid_text(resource_type: Seq<char>, id: int) -> Seq<char> {
    "gid://shopify/"@ + resource_type + "/"@ + integer_text(id)
}

/// The global identifier of the resource of type `resource_type` with the
/// number `id`.
pub fn create_shopify_gid(resource_type: &str, id: i64) -> (gid: String)
    ensures
        gid@ == gid_text(resource_type@, id as int),
{
    proof {
        reveal_strlit("-");
    }
    let mut gid = String::from_str("gid://shopify/");
    gid.append(resource_type);
    gid.append("/");
    if id < 0 {
        gid.append("-");
        push_decimal(&mut gid, (-(id as i128)) as u128);
    } else {
        push_decimal(&mut gid, id as u128);
    }
    assert(gid@ =~= gid_text(resource_type@, id as int));
    gid
}

/// What follows the last `/` of a text; the whole text where it has none.
pub open spec fn last_segment(text: Seq<char>) -> Seq<char>
    decreases text.len(),
{
    if text.len() == 0 {
        text
    } else if text.last() == '/' {
        Seq::empty()
    } else {
        last_segment(text.drop_last()).push(text.last())
    }
}

/// Whether a character is one of `0` to `9`.
pub open spec fn is_digit(c: char) -> bool {
    '0' <= c <= '9'
}

/// The value of a decimal digit; zero for any other character.
pub open spec fn digit_value(c: char) -> nat {
    if is_digit(c) {
        (c as int - '0' as int) as nat
    } else {
        0
    }
}

/// The number that a run of decimal digits stands for.
pub open spec fn digits_value(digits: Seq<char>) -> nat
    decreases digits.len(),
{
    if digits.len() == 0 {
        0
    } else {
        digits_value(digits.drop_last()) * 10 + digit_value(digits.last())
    }
}

/// Whether every character is a decimal digit.
pub open spec fn all_digits(text: Seq<char>) -> bool {
    forall|i: int| 0 <= i < text.len() ==> is_digit(#[trigger] text[i])
}

/// The integer that a text stands for: an optional sign, `+` or `-`, and then
/// one decimal digit or more. `None` for any other text, and for a number
/// that no `i64` holds.
pub open spec fn parse_integer(text: Seq<char>) -> Option<i64> {
    let signed = text.len() > 0 && (text[0] == '-' || text[0] == '+');
    let negative = text.len() > 0 && text[0] == '-';
    let digits = if signed {
        text.drop_first()
    } else {
        text
    };
    let magnitude = digits_value(digits) as int;
    let value = if negative {
        -magnitude
    } else {
        magnitude
    };
    if digits.len() == 0 || !all_digits(digits) || value < i64::MIN || value > i64::MAX {
        None
    } else {
        Some(value as i64)
    }
}

/// A run of digits stands for no less than any of its beginnings.
pub proof fn lemma_digits_value_grows(digits: Seq<char>, n: int)
    requires
        0 <= n <= digits.len(),
    ensures
        digits_value(digits.take(n)) <= digits_value(digits),
    decreases digits.len() - n,
{
    if n < digits.len() {
        lemma_digits_value_grows(digits, n + 1);
        assert(digits.take(n + 1).drop_last() == digits.take(n));
    } else {
        assert(digits.take(n) == digits);
    }
}

/// The last segment of a text that ends in `tail`, where a `/` stands before
/// `tail` and none in it, is `tail`.
pub proof fn lemma_last_segment_of_tail(head: Seq<char>, tail: Seq<char>)
    requires
        head.len() > 0,
        head.last() == '/',
        forall|i: int| 0 <= i < tail.len() ==> tail[i] != '/',
    ensures
        last_segment(head + tail) == tail,
    decreases tail.len(),
{
    let text = head + tail;
    if tail.len() == 0 {
        assert(text =~= head);
    } else {
        assert(text.last() == tail.last());
        assert(text.drop_last() =~= head + tail.drop_last());
        lemma_last_segment_of_tail(head, tail.drop_last());
        assert(tail.drop_last().push(tail.last()) =~= tail);
    }
}

/// A number written in decimal reads back as itself.
pub proof fn lemma_decimal_text_reads_back(n: nat)
    ensures
        decimal_text(n).len() > 0,
        all_digits(decimal_text(n)),
        digits_value(decimal_text(n)) == n,
        decimal_text(n)[0] != '-',
        decimal_text(n)[0] != '+',
    decreases n,
{
    let text = decimal_text(n);
    if n < 10 {
        assert(text.drop_last() =~= Seq::<char>::empty());
        assert(digits_value(text.drop_last()) == 0);
        assert(text.last() == digit_char(n as int));
        assert(digit_value(digit_char(n as int)) == n);
    } else {
        lemma_decimal_text_reads_back(n / 10);
        assert(text.drop_last() =~= decimal_text(n / 10));
        assert(text.last() == digit_char((n % 10) as int));
        assert(digit_value(digit_char((n % 10) as int)) == n % 10);
        assert(is_digit(digit_char((n % 10) as int)));
        assert(text[0] == decimal_text(n / 10)[0]);
    }
}

/// An identifier made of a resource type and a number gives the number back.
pub proof fn lemma_gid_round_trip(resource_type: Seq<char>, id: i64)
    ensures
        parse_integer(last_segment(gid_text(resource_type, id as int))) == Some(id),
{
    reveal_strlit("/");
    let number = integer_text(id as int);
    let head = "gid://shopify/"@ + resource_type + "/"@;
    let magnitude: nat = if id < 0 {
        (-id) as nat
    } else {
        id as nat
    };
    lemma_decimal_text_reads_back(magnitude);
    assert forall|i: int| 0 <= i < number.len() implies number[i] != '/' by {
        if id < 0 {
            if i > 0 {
                assert(number[i] == decimal_text(magnitude)[i - 1]);
                assert(is_digit(decimal_text(magnitude)[i - 1]));
            }
        } else {
            assert(is_digit(decimal_text(magnitude)[i]));
        }
    }
    assert(head.last() == '/');
    lemma_last_segment_of_tail(head, number);
    assert(gid_text(resource_type, id as int) =~= head + number);
    if id < 0 {
        assert(number.drop_first() =~= decimal_text(magnitude));
    } else {
        assert(is_digit(number[0]));
    }
}

/// Where the last segment of `chars` begins.
fn segment_start(chars: &Vec<char>) -> (start: usize)
    ensures
        start <= chars@.len(),
        last_segment(chars@) == chars@.skip(start as int),
{
    let mut start: usize = chars.len();
    proof {
        assert(chars@.take(start as int) =~= chars@);
        assert(last_segment(chars@) + chars@.skip(start as int) =~= last_segment(chars@));
    }
    while start > 0 && chars[start - 1] != '/'
        invariant
            start <= chars@.len(),
            last_segment(chars@) == last_segment(chars@.take(start as int)) + chars@.skip(
                start as int,
            ),
        decreases start,
    {
        proof {
            let shorter = chars@.take(start as int);
            assert(shorter.drop_last() =~= chars@.take(start - 1));
            assert(last_segment(shorter) == last_segment(chars@.take(start - 1)).push(
                chars@[start - 1],
            ));
            assert(last_segment(chars@.take(start - 1)).push(chars@[start - 1]) + chars@.skip(
                start as int,
            ) =~= last_segment(chars@.take(start - 1)) + chars@.skip(start - 1));
        }
        start = start - 1;
    }
    proof {
        if start == 0 {
            assert(chars@.take(0) =~= Seq::<char>::empty());
        }
        assert(last_segment(chars@.take(start as int)) =~= Seq::<char>::empty());
        assert(last_segment(chars@) =~= chars@.skip(start as int));
    }
    start
}

/// The number that the characters from `from` on stand for, where they are
/// decimal digits, one or more, and stand for no more than `2^63`.
fn read_digits(chars: &Vec<char>, from: usize) -> (magnitude: Option<u128>)
    requires
        from <= chars@.len(),
    ensures
        magnitude is Some <==> from < chars@.len() && all_digits(chars@.skip(from as int))
            && digits_value(chars@.skip(from as int)) <= 9_223_372_036_854_775_808,
        magnitude matches Some(m) ==> m == digits_value(chars@.skip(from as int)),
{
    if from == chars.len() {
        return None;
    }
    let ghost digits = chars@.skip(from as int);
    let mut magnitude: u128 = 0;
    let mut i: usize = from;
    while i < chars.len()
        invariant
            from <= i <= chars@.len(),
            digits == chars@.skip(from as int),
            magnitude == digits_value(digits.take(i - from)),
            magnitude <= 9_223_372_036_854_775_808,
            forall|j: int| 0 <= j < i - from ==> is_digit(#[trigger] digits[j]),
        decreases chars@.len() - i,
    {
        let c = chars[i];
        assert(c == digits[i - from]);
        if c < '0' || c > '9' {
            return None;
        }
        let digit: u128 = (c as u32 - '0' as u32) as u128;
        proof {
            assert(digits.take(i - from + 1).drop_last() =~= digits.take(i - from));
            assert(digit == digit_value(c));
        }
        magnitude = magnitude * 10 + digit;
        if magnitude > 9_223_372_036_854_775_808 {
            proof {
                lemma_digits_value_grows(digits, i - from + 1);
            }
            return None;
        }
        i = i + 1;
    }
    proof {
        assert(digits.take(digits.len() as int) =~= digits);
    }
    Some(magnitude)
}

/// The number at the end of a global identifier: what follows its last `/`,
/// read as an integer.
pub fn extract_shopify_id_from_gid(gid: &str) -> (id: Option<i64>)
    ensures
        id == parse_integer(last_segment(gid@)),
{
    let chars = chars_of(gid);
    let start = segment_start(&chars);
    let ghost segment = chars@.skip(start as int);
    let signed = start < chars.len() && (chars[start] == '-' || chars[start] == '+');
    let negative = start < chars.len() && chars[start] == '-';
    let first_digit: usize = if signed {
        start + 1
    } else {
        start
    };
    proof {
        if signed {
            assert(segment.drop_first() =~= chars@.skip(first_digit as int));
        }
    }
    match read_digits(&chars, first_digit) {
        None => None,
        Some(magnitude) => {
            if negative {
                Some((-(magnitude as i128)) as i64)
            } else if magnitude == 9_223_372_036_854_775_808 {
                None
            } else {
                Some(magnitude as i64)
            }
        },
    }
}

/// The error of `hmac` for a key of a length that it does not take.
#[verifier::external_type_specification]
#[verifier::external_body]
pub struct ExInvalidLength(hmac::digest::InvalidLength);

/// The HMAC-SHA256 tag of a message under a key.
pub uninterp spec fn hmac_sha256_tag(key: Seq<u8>, message: Seq<u8>) -> Seq<u8>;

/// The base64 text of a run of bytes, in the standard alphabet with padding.
pub uninterp spec fn base64_standard_text(bytes: Seq<u8>) -> Seq<char>;

/// `hmac::Hmac<sha2::Sha256>`: a MAC made by `new_from_slice` from `key`, fed
/// `message` by `update`, and read by `finalize`. The outcome is the tag of
/// the message under the key, 32 bytes long. HMAC takes a key of any length,
/// so `new_from_slice` gives no error.
#[verifier::external_body]
fn hmac_sha256(key: &[u8], message: &[u8]) -> (tag: Result<Vec<u8>, hmac::digest::InvalidLength>)
    ensures
        tag is Ok,
        tag matches Ok(bytes) ==> bytes@ == hmac_sha256_tag(key@, message@) && bytes@.len() == 32,
{
    let mut mac = <hmac::Hmac<sha2::Sha256> as hmac::Mac>::new_from_slice(key)?;
    hmac::Mac::update(&mut mac, message);
    Ok(hmac::Mac::finalize(mac).into_bytes().to_vec())
}

/// `base64`'s `Engine::encode` on `general_purpose::STANDARD`: the base64
/// text of the bytes. The length is bounded because `encode` panics where
/// the length of the text does not fit a `usize`.
#[verifier::external_body]
fn base64_standard(bytes: &[u8]) -> (text: String)
    requires
        bytes@.len() <= 0x2fff_ffff,
    ensures
        text@ == base64_standard_text(bytes@),
{
    base64::Engine::encode(&base64::engine::general_purpose::STANDARD, bytes)
}

/// The verdict on a signature, given the outcome of signing the payload:
/// whether the signature is the base64 text of the tag, and
/// `InvalidWebhookSignature` where there is no tag.
pub fn judge_signature(signature: &str, expected: Option<&str>) -> (verdict: Result<
    bool,
    ShopifyError,
>)
    ensures
        expected matches Some(text) ==> verdict == Ok::<bool, ShopifyError>(signature@ == text@),
        expected is None ==> verdict == Err::<bool, ShopifyError>(
            ShopifyError::InvalidWebhookSignature,
        ),
{
    match expected {
        Some(text) => Ok(signature.to_owned() == text.to_owned()),
        None => Err(ShopifyError::InvalidWebhookSignature),
    }
}

/// What the library knows of a shop: how to address it, and how to check
/// what it sends.
#[derive(Debug)]
pub struct ShopifyClient {
    config: ShopifyConfig,
}

impl ShopifyClient {
    pub closed spec fn spec_config(&self) -> ShopifyConfig {
        self.config
    }

    pub fn new(config: ShopifyConfig) -> (client: ShopifyClient)
        ensures
            client.spec_config() == config,
    {
        ShopifyClient { config }
    }

    pub fn config(&self) -> (config: &ShopifyConfig)
        ensures
            *config == self.spec_config(),
    {
        &self.config
    }

    /// The address under which the shop's interface stands.
    pub fn base_url(&self) -> (url: String)
        ensures
            url@ == self.spec_config().spec_base_url(),
    {
        self.config.base_url()
    }

    /// The address of a list of resources, such as `products` or `orders`.
    pub fn collection_url(&self, collection: &str) -> (url: String)
        ensures
            url@ == self.spec_config().spec_base_url() + "/"@ + collection@ + ".json"@,
    {
        let mut url = self.config.base_url();
        url.append("/");
        url.append(collection);
        url.append(".json");
        url
    }

    /// The address of one resource of a list.
    pub fn resource_url(&self, collection: &str, id: i64) -> (url: String)
        ensures
            url@ == self.spec_config().spec_base_url() + "/"@ + collection@ + "/"@ + integer_text(
                id as int,
            ) + ".json"@,
    {
        proof {
            reveal_strlit("-");
        }
        let mut url = self.config.base_url();
        url.append("/");
        url.append(collection);
        url.append("/");
        if id < 0 {
            url.append("-");
            push_decimal(&mut url, (-(id as i128)) as u128);
        } else {
            push_decimal(&mut url, id as u128);
        }
        url.append(".json");
        assert(url@ =~= self.spec_config().spec_base_url() + "/"@ + collection@ + "/"@
            + integer_text(id as int) + ".json"@);
        url
    }

    /// Whether `signature` is the one that the shop's webhook secret gives
    /// for `payload`: the base64 text of the payload's HMAC-SHA256 tag.
    pub fn verify_webhook(&self, payload: &str, signature: &str) -> (verdict: Result<
        bool,
        ShopifyError,
    >)
        ensures
            verdict == Ok::<bool, ShopifyError>(
                signature@ == base64_standard_text(
                    hmac_sha256_tag(
                        vstd::utf8::encode_utf8(self.spec_config().webhook_secret@),
                        vstd::utf8::encode_utf8(payload@),
                    ),
                ),
            ),
    {
        match hmac_sha256(self.config.webhook_secret.as_str().as_bytes(), payload.as_bytes()) {
            Ok(tag) => {
                let expected = base64_standard(tag.as_slice());
                judge_signature(signature, Some(expected.as_str()))
            },
            Err(_) => judge_signature(signature, None),
        }
    }
}

/// Whether a response's status lets the request for one product stand.
pub fn check_product_status(status: u16) -> (checked: Result<(), ShopifyError>)
    ensures
        200 <= status <= 299 <==> checked is Ok,
        status == 404 ==> checked == Err::<(), ShopifyError>(ShopifyError::ProductNotFound),
        status != 404 ==> (checked matches Err(e) ==> (e matches ShopifyError::ApiError(text)
            && text@ == "HTTP "@ + decimal_text(status as nat))),
{
    if status == 404 {
        return Err(ShopifyError::ProductNotFound);
    }
    check_status(status)
}

/// Whether a response's status lets the request for one order stand.
pub fn check_order_status(status: u16) -> (checked: Result<(), ShopifyError>)
    ensures
        200 <= status <= 299 <==> checked is Ok,
        status == 404 ==> checked == Err::<(), ShopifyError>(ShopifyError::OrderNotFound),
        status != 404 ==> (checked matches Err(e) ==> (e matches ShopifyError::ApiError(text)
            && text@ == "HTTP "@ + decimal_text(status as nat))),
{
    if status == 404 {
        return Err(ShopifyError::OrderNotFound);
    }
    check_status(status)
}

/// Whether a response's status lets a request stand: an `ApiError` that
/// names the status unless it is a success.
pub fn check_status(status: u16) -> (checked: Result<(), ShopifyError>)
    ensures
        200 <= status <= 299 <==> checked is Ok,
        checked matches Err(e) ==> (e matches ShopifyError::ApiError(text) && text@ == "HTTP "@
            + decimal_text(status as nat)),
{
    if 200 <= status && status <= 299 {
        Ok(())
    } else {
        let mut text = String::from_str("HTTP ");
        push_decimal(&mut text, status as u128);
        Err(ShopifyError::ApiError(text))
    }
}

/// The number that the stand-in shop gives to every product it creates.
pub const MOCK_PRODUCT_ID: i64 = 999;

/// A product of the stand-in shop.
fn mock_product(id: i64, title: &str, body_html: &str, tags: &str, gid: &str, now: i64) -> (product:
    ShopifyProduct)
    ensures
        product.id == Some(id),
        product.title@ == title@,
        product.body_html matches Some(text) && text@ == body_html@,
        product.vendor@ == "Demo Vendor"@,
        product.product_type@ == "Demo Type"@,
        product.created_at == Some(now),
        product.updated_at == Some(now),
        product.published_at == Some(now),
        product.template_suffix is None,
        product.status@ == "active"@,
        product.published_scope@ == "web"@,
        product.tags@ == tags@,
        product.admin_graphql_api_id matches Some(text) && text@ == gid@,
        product.variants@.len() == 0,
        product.options@.len() == 0,
        product.images@.len() == 0,
{
    ShopifyProduct {
        id: Some(id),
        title: String::from_str(title),
        body_html: Some(String::from_str(body_html)),
        vendor: String::from_str("Demo Vendor"),
        product_type: String::from_str("Demo Type"),
        created_at: Some(now),
        updated_at: Some(now),
        published_at: Some(now),
        template_suffix: None,
        status: String::from_str("active"),
        published_scope: String::from_str("web"),
        tags: String::from_str(tags),
        admin_graphql_api_id: Some(String::from_str(gid)),
        variants: Vec::new(),
        options: Vec::new(),
        images: Vec::new(),
    }
}

/// A stand-in for the shop that answers from memory: two products and no
/// orders.
#[derive(Debug)]
pub struct MockShopifyClient {
    products: Vec<ShopifyProduct>,
    orders: Vec<ShopifyOrder>,
}

impl MockShopifyClient {
    /// The products that the stand-in shop lists.
    pub closed spec fn listed(&self) -> Seq<ShopifyProduct> {
        self.products@
    }

    /// The orders that the stand-in shop lists.
    pub closed spec fn ordered(&self) -> Seq<ShopifyOrder> {
        self.orders@
    }

    /// The stand-in shop, its products stamped with the current time.
    pub fn new() -> (shop: MockShopifyClient)
        ensures
            shop.listed().len() == 2,
            shop.listed()[0].id == Some(1i64),
            shop.listed()[0].title@ == "Demo Product 1"@,
            shop.listed()[0].tags@ == "demo,test"@,
            shop.listed()[1].id == Some(2i64),
            shop.listed()[1].title@ == "Demo Product 2"@,
            shop.listed()[1].tags@ == "demo,test,featured"@,
            shop.listed()[0].created_at == shop.listed()[1].created_at,
            shop.listed()[0].created_at matches Some(now) && is_clock_millis(now),
            shop.ordered().len() == 0,
    {
        let now = now_millis();
        MockShopifyClient::stamped(now)
    }

    /// The stand-in shop, its products stamped with `now`.
    pub fn stamped(now: i64) -> (shop: MockShopifyClient)
        ensures
            shop.listed().len() == 2,
            shop.listed()[0].id == Some(1i64),
            shop.listed()[0].title@ == "Demo Product 1"@,
            shop.listed()[0].tags@ == "demo,test"@,
            shop.listed()[0].created_at == Some(now),
            shop.listed()[1].id == Some(2i64),
            shop.listed()[1].title@ == "Demo Product 2"@,
            shop.listed()[1].tags@ == "demo,test,featured"@,
            shop.listed()[1].created_at == Some(now),
            shop.ordered().len() == 0,
    {
        MockShopifyClient {
            products: MockShopifyClient::create_mock_products(now),
            orders: MockShopifyClient::create_mock_orders(),
        }
    }

    /// The two products of the stand-in shop, stamped with `now`.
    pub fn create_mock_products(now: i64) -> (products: Vec<ShopifyProduct>)
        ensures
            products@.len() == 2,
            products@[0].id == Some(1i64),
            products@[0].title@ == "Demo Product 1"@,
            products@[0].tags@ == "demo,test"@,
            products@[0].created_at == Some(now),
            products@[1].id == Some(2i64),
            products@[1].title@ == "Demo Product 2"@,
            products@[1].tags@ == "demo,test,featured"@,
            products@[1].created_at == Some(now),
    {
        let mut products: Vec<ShopifyProduct> = Vec::new();
        products.push(
            mock_product(
                1,
                "Demo Product 1",
                "<p>This is a demo product</p>",
                "demo,test",
                "gid://shopify/Product/1",
                now,
            ),
        );
        products.push(
            mock_product(
                2,
                "Demo Product 2",
                "<p>This is another demo product</p>",
                "demo,test,featured",
                "gid://shopify/Product/2",
                now,
            ),
        );
        products
    }

    /// The orders of the stand-in shop: none.
    pub fn create_mock_orders() -> (orders: Vec<ShopifyOrder>)
        ensures
            orders@.len() == 0,
    {
        Vec::new()
    }

    /// Every product.
    pub fn get_products(&self) -> (products: &Vec<ShopifyProduct>)
        ensures
            products@ == self.listed(),
    {
        &self.products
    }

    /// The first product with the number `product_id`; `ProductNotFound`
    /// where there is none.
    pub fn get_product(&self, product_id: i64) -> (found: Result<&ShopifyProduct, ShopifyError>)
        ensures
            found is Ok <==> exists|i: int|
                0 <= i < self.listed().len() && (#[trigger] self.listed()[i]).id == Some(
                    product_id,
                ),
            found matches Ok(product) ==> exists|i: int|
                0 <= i < self.listed().len() && *product == #[trigger] self.listed()[i]
                    && product.id == Some(product_id) && forall|j: int|
                    0 <= j < i ==> (#[trigger] self.listed()[j]).id != Some(product_id),
            found matches Err(e) ==> e is ProductNotFound,
    {
        let mut i: usize = 0;
        while i < self.products.len()
            invariant
                i <= self.products@.len(),
                forall|j: int| 0 <= j < i ==> (#[trigger] self.products@[j]).id != Some(product_id),
            decreases self.products@.len() - i,
        {
            let matches = match self.products[i].id {
                Some(id) => id == product_id,
                None => false,
            };
            if matches {
                assert(self.listed()[i as int].id == Some(product_id));
                return Ok(&self.products[i]);
            }
            i = i + 1;
        }
        Err(ShopifyError::ProductNotFound)
    }

    /// `product` as the stand-in shop hands it back once created: under the
    /// number 999, stamped with `now`.
    pub fn create_product_at(&self, product: ShopifyProduct, now: i64) -> (created: ShopifyProduct)
        ensures
            created == (ShopifyProduct {
                id: Some(MOCK_PRODUCT_ID),
                created_at: Some(now),
                updated_at: Some(now),
                ..product
            }),
    {
        let mut created = product;
        created.id = Some(MOCK_PRODUCT_ID);
        created.created_at = Some(now);
        created.updated_at = Some(now);
        created
    }

    /// `product` as the stand-in shop hands it back once created: under the
    /// number 999, stamped with the current time.
    pub fn create_product(&self, product: ShopifyProduct) -> (created: ShopifyProduct)
        ensures
            created.id == Some(MOCK_PRODUCT_ID),
            created.created_at == created.updated_at,
            created.created_at matches Some(now) && is_clock_millis(now),
            created == (ShopifyProduct {
                id: created.id,
                created_at: created.created_at,
                updated_at: created.updated_at,
                ..product
            }),
    {
        let now = now_millis();
        self.create_product_at(product, now)
    }

    /// Every order: none.
    pub fn get_orders(&self) -> (orders: &Vec<ShopifyOrder>)
        ensures
            orders@ == self.ordered(),
    {
        &self.orders
    }
}

} // verus!
