use lemonsqueezy::json::{to_text, JVal, ToJson};
use lemonsqueezy::modules::discount::CreateDiscountAttributes;
use lemonsqueezy::modules::subscription_items::{SubscriptionItemPatchRequest, SubscriptionItems};
use lemonsqueezy::modules::subscriptions::SubscriptionPatchRequest;
use lemonsqueezy::modules::usage_records::{
    CreateUsageRecord, CreateUsageRecordAttributes, CreateUsageRecordData,
    CreateUsageRecordRelationships, CreateUsageRecordSubscriptionItem,
    CreateUsageRecordSubscriptionItemData, UsageRecords,
};
use lemonsqueezy::modules::webhook::{UpdateWebhook, UpdateWebhookAttributes, Webhook};
use lemonsqueezy::request::{HttpMethod, RequestBody};
use lemonsqueezy::text::{bool_to_string, i64_to_string, u64_to_string};
use lemonsqueezy::utils::ResponseData;
use lemonsqueezy::LemonSqueezy;

fn api() -> LemonSqueezy {
    LemonSqueezy::new(String::from("token"))
}

fn json_body(body: &RequestBody) -> serde_json::Value {
    match body {
        RequestBody::Json(s) => serde_json::from_str(s).unwrap(),
        _ => panic!("expected a JSON body"),
    }
}

#[test]
fn numbers_render_in_decimal() {
    assert_eq!(u64_to_string(0), "0");
    assert_eq!(u64_to_string(9), "9");
    assert_eq!(u64_to_string(10), "10");
    assert_eq!(u64_to_string(18446744073709551615), "18446744073709551615");
    assert_eq!(i64_to_string(-1), "-1");
    assert_eq!(i64_to_string(i64::MIN), "-9223372036854775808");
    assert_eq!(i64_to_string(i64::MAX), "9223372036854775807");
    assert_eq!(bool_to_string(true), "true");
    assert_eq!(bool_to_string(false), "false");
}

#[test]
fn strings_are_escaped_for_json() {
    let v = JVal::Str(String::from("a\"b\\c\nd\u{1}e"));
    assert_eq!(to_text(&v), "\"a\\\"b\\\\c\\nd\\u0001e\"");
    let parsed: serde_json::Value = serde_json::from_str(&to_text(&v)).unwrap();
    assert_eq!(parsed.as_str().unwrap(), "a\"b\\c\nd\u{1}e");
}

#[test]
fn nested_values_render_without_whitespace() {
    let v = JVal::Obj(vec![
        (
            String::from("a"),
            JVal::Arr(vec![JVal::Int(1), JVal::Null, JVal::Bool(true)]),
        ),
        (String::from("b"), JVal::Obj(vec![])),
        (String::from("c"), JVal::Arr(vec![])),
    ]);
    assert_eq!(to_text(&v), "{\"a\":[1,null,true],\"b\":{},\"c\":[]}");
}

#[test]
fn unset_optional_fields_are_omitted() {
    let patch = SubscriptionPatchRequest {
        product_id: None,
        variant_id: Some(7),
        pause: None,
        cancelled: Some(true),
        billing_anchor: None,
        invoice_immediately: None,
        disable_prorations: None,
    };
    let subscriptions =
        lemonsqueezy::modules::subscriptions::Subscriptions::build(api());
    let req = subscriptions.update(ResponseData {
        type_: String::from("subscriptions"),
        id: String::from("99"),
        relationships: None,
        attributes: patch,
        links: None,
    });
    assert_eq!(req.url, "https://api.lemonsqueezy.com/v1/subscriptions/99");
    let body = json_body(&req.body);
    let attrs = body.get("data").unwrap().get("attributes").unwrap();
    assert!(attrs.get("product_id").is_none());
    assert!(attrs.get("pause").is_none());
    assert!(attrs.get("invoice_immediately").is_none());
    assert_eq!(attrs.get("variant_id").unwrap().as_i64().unwrap(), 7);
    assert!(attrs.get("cancelled").unwrap().as_bool().unwrap());
}

#[test]
fn subscription_item_update_wraps_data_and_keeps_id_path() {
    let items = SubscriptionItems::build(api());
    let req = items.update(ResponseData {
        type_: String::from("subscription-items"),
        id: String::from("5"),
        relationships: None,
        attributes: SubscriptionItemPatchRequest { quantity: Some(3) },
        links: None,
    });
    assert_eq!(
        req.url,
        "https://api.lemonsqueezy.com/v1/subscription-items/5"
    );
    let body = json_body(&req.body);
    let data = body.get("data").unwrap();
    assert_eq!(data.get("type").unwrap().as_str().unwrap(), "subscription-items");
    assert_eq!(data.get("id").unwrap().as_str().unwrap(), "5");
    assert!(data.get("relationships").unwrap().is_null());
    assert_eq!(
        data.get("attributes")
            .unwrap()
            .get("quantity")
            .unwrap()
            .as_i64()
            .unwrap(),
        3
    );
}

#[test]
fn usage_record_create_sends_its_own_wrapper() {
    let records = UsageRecords::build(api());
    let req = records.create(CreateUsageRecord {
        data: CreateUsageRecordData {
            type_: String::from("usage-records"),
            attributes: CreateUsageRecordAttributes {
                quantity: 10,
                action: String::from("increment"),
            },
            relationships: CreateUsageRecordRelationships {
                subscription_item: CreateUsageRecordSubscriptionItem {
                    data: CreateUsageRecordSubscriptionItemData {
                        type_: String::from("subscription-items"),
                        id: String::from("8"),
                    },
                },
            },
        },
    });
    assert_eq!(req.url, "https://api.lemonsqueezy.com/v1/usage-records");
    let body = json_body(&req.body);
    let data = body.get("data").unwrap();
    assert_eq!(data.get("type").unwrap().as_str().unwrap(), "usage-records");
    assert_eq!(
        data.get("attributes").unwrap().get("quantity").unwrap().as_i64().unwrap(),
        10
    );
    assert_eq!(
        data.get("relationships")
            .unwrap()
            .get("subscription-item")
            .unwrap()
            .get("data")
            .unwrap()
            .get("id")
            .unwrap()
            .as_str()
            .unwrap(),
        "8"
    );
}

#[test]
fn webhook_update_patches_the_payload_id() {
    let webhooks = Webhook::build(api());
    let req = webhooks.update(UpdateWebhook {
        type_: String::from("webhooks"),
        id: String::from("33"),
        attributes: UpdateWebhookAttributes {
            url: Some(String::from("https://ex.io/hook")),
            events: Some(vec![
                String::from("order_created"),
                String::from("order_refunded"),
            ]),
            secret: None,
            test_mode: None,
        },
        relationships: None,
    });
    assert_eq!(req.method, HttpMethod::Patch);
    assert_eq!(req.url, "https://api.lemonsqueezy.com/v1/webhooks/33");
    let body = json_body(&req.body);
    let data = body.get("data").unwrap();
    let attrs = data.get("attributes").unwrap();
    assert_eq!(attrs.get("url").unwrap().as_str().unwrap(), "https://ex.io/hook");
    assert_eq!(attrs.get("events").unwrap().as_array().unwrap().len(), 2);
    assert!(attrs.get("secret").is_none());
    assert!(attrs.get("test_mode").is_none());
    assert!(data.get("relationships").unwrap().is_null());
}

#[test]
fn payload_field_names_align_with_response_field_names() {
    let patch = SubscriptionPatchRequest {
        product_id: Some(1),
        variant_id: Some(2),
        pause: Some(JVal::Null),
        cancelled: Some(false),
        billing_anchor: Some(12),
        invoice_immediately: None,
        disable_prorations: None,
    };
    let subscriptions =
        lemonsqueezy::modules::subscriptions::Subscriptions::build(api());
    let req = subscriptions.update(ResponseData {
        type_: String::from("subscriptions"),
        id: String::from("1"),
        relationships: None,
        attributes: patch,
        links: None,
    });
    let body = json_body(&req.body);
    let attrs = body.get("data").unwrap().get("attributes").unwrap();
    // every serialized attribute key reads back under a field the response
    // shape also declares
    let response_fields = vec![
        "store_id",
        "customer_id",
        "order_id",
        "order_item_id",
        "product_id",
        "variant_id",
        "product_name",
        "variant_name",
        "user_name",
        "user_email",
        "status",
        "status_formatted",
        "card_brand",
        "card_last_four",
        "pause",
        "cancelled",
        "trial_ends_at",
        "billing_anchor",
        "first_subscription_item",
        "urls",
        "renews_at",
        "ends_at",
        "created_at",
        "updated_at",
        "test_mode",
    ];
    for (key, _) in attrs.as_object().unwrap() {
        assert!(response_fields.contains(&key.as_str()), "stray key: {}", key);
    }
}

#[test]
fn discount_payload_field_names_align_with_response_field_names() {
    let attrs = CreateDiscountAttributes {
        name: String::from("n"),
        code: String::from("c"),
        amount: 1,
        amount_type: String::from("percent"),
        is_limited_to_products: Some(true),
        is_limited_redemptions: Some(false),
        max_redemptions: Some(5),
        starts_at: Some(String::from("2024-01-01")),
        expires_at: Some(String::from("2024-02-01")),
        duration: Some(String::from("once")),
    };
    let text = to_text(&attrs.to_json());
    let parsed: serde_json::Value = serde_json::from_str(&text).unwrap();
    let response_fields = vec![
        "store_id",
        "name",
        "code",
        "amount",
        "amount_type",
        "is_limited_to_products",
        "is_limited_redemptions",
        "max_redemptions",
        "starts_at",
        "expires_at",
        "duration",
        "duration_in_months",
        "status",
        "status_formatted",
        "created_at",
        "updated_at",
    ];
    for (key, _) in parsed.as_object().unwrap() {
        assert!(response_fields.contains(&key.as_str()), "stray key: {}", key);
    }
}
