use lemonsqueezy::modules::checkout::Checkout;
use lemonsqueezy::modules::discount::{Discount, DiscountFilters};
use lemonsqueezy::modules::discount_redemptions::{
    DiscountRedemptions, DiscountRedemptionsFilters,
};
use lemonsqueezy::modules::files::{FileFilters, Files};
use lemonsqueezy::modules::license_key_instances::{
    LicenseKeyInstances, LicenseKeyInstancesFilters,
};
use lemonsqueezy::modules::license_keys::LicenseKey;
use lemonsqueezy::modules::order_items::{OrderItem, OrderItemFilters};
use lemonsqueezy::modules::orders::{OrderFilters, Orders};
use lemonsqueezy::modules::prices::{PriceFilters, Prices};
use lemonsqueezy::modules::products::Product;
use lemonsqueezy::modules::store::Store;
use lemonsqueezy::modules::subscription_invoice::SubscriptionInvoice;
use lemonsqueezy::modules::subscription_items::{SubscriptionItemFilters, SubscriptionItems};
use lemonsqueezy::modules::subscriptions::Subscriptions;
use lemonsqueezy::modules::usage_records::{UsageRecordFilters, UsageRecords};
use lemonsqueezy::modules::user::User;
use lemonsqueezy::modules::variants::{Variant, VariantFilters};
use lemonsqueezy::modules::webhook::Webhook;
use lemonsqueezy::request::{HttpMethod, RequestBody};
use lemonsqueezy::types::checkout::{
    CreateCheckout, CreateCheckoutAttributes, CreateCheckoutRelationShipData,
    CreateCheckoutRelationships,
};
use lemonsqueezy::types::webhook::{CreateWebhook, CreateWebhookAttributes};
use lemonsqueezy::types::Data;
use lemonsqueezy::LemonSqueezy;

fn api() -> LemonSqueezy {
    LemonSqueezy::new(String::from("token"))
}

const BASE: &str = "https://api.lemonsqueezy.com";

#[test]
fn every_resource_builds_its_retrieve_path() {
    assert_eq!(
        Checkout::build(api()).retrieve(String::from("ckt_abc")).url,
        format!("{}/v1/checkouts/ckt_abc", BASE)
    );
    assert_eq!(
        Discount::build(api()).retrieve(1).url,
        format!("{}/v1/discounts/1", BASE)
    );
    assert_eq!(
        DiscountRedemptions::build(api()).retrieve(2).url,
        format!("{}/v1/discount-redemptions/2", BASE)
    );
    assert_eq!(
        Files::build(api()).retrieve(3).url,
        format!("{}/v1/files/3", BASE)
    );
    assert_eq!(
        LicenseKeyInstances::build(api()).retrieve(4).url,
        format!("{}/v1/license-key-instances/4", BASE)
    );
    assert_eq!(
        LicenseKey::build(api()).retrieve(5).url,
        format!("{}/v1/license-keys/5", BASE)
    );
    assert_eq!(
        OrderItem::build(api()).retrieve(6).url,
        format!("{}/v1/order-items/6", BASE)
    );
    assert_eq!(
        Orders::build(api()).retrieve(7).url,
        format!("{}/v1/orders/7", BASE)
    );
    assert_eq!(
        Prices::build(api()).retrieve(8).url,
        format!("{}/v1/prices/8", BASE)
    );
    assert_eq!(
        Product::build(api()).retrieve(9).url,
        format!("{}/v1/products/9", BASE)
    );
    assert_eq!(
        Store::build(api()).retrieve(10).url,
        format!("{}/v1/stores/10", BASE)
    );
    assert_eq!(
        SubscriptionInvoice::build(api()).retrieve(11).url,
        format!("{}/v1/subscription-invoices/11", BASE)
    );
    assert_eq!(
        SubscriptionItems::build(api()).retrieve(12).url,
        format!("{}/v1/subscription-items/12", BASE)
    );
    assert_eq!(
        Subscriptions::build(api()).retrieve(13).url,
        format!("{}/v1/subscriptions/13", BASE)
    );
    assert_eq!(
        UsageRecords::build(api()).retrieve(14).url,
        format!("{}/v1/usage-records/14", BASE)
    );
    assert_eq!(User::build(api()).retrieve().url, format!("{}/v1/users/me", BASE));
    assert_eq!(
        Variant::build(api()).retrieve(15).url,
        format!("{}/v1/variants/15", BASE)
    );
    assert_eq!(
        Webhook::build(api()).retrieve(16).url,
        format!("{}/v1/webhooks/16", BASE)
    );
}

#[test]
fn single_field_filters_build_their_query() {
    assert_eq!(
        Discount::build(api())
            .get_all(Some(DiscountFilters { store_id: Some(1) }))
            .url,
        format!("{}/v1/discounts?filter[store_id]=1", BASE)
    );
    assert_eq!(
        Files::build(api())
            .get_all(Some(FileFilters { variant_id: Some(2) }))
            .url,
        format!("{}/v1/files?filter[variant_id]=2", BASE)
    );
    assert_eq!(
        LicenseKeyInstances::build(api())
            .get_all(Some(LicenseKeyInstancesFilters {
                license_key_id: Some(3),
            }))
            .url,
        format!("{}/v1/license-key-instances?filter[license_key_id]=3", BASE)
    );
    assert_eq!(
        Prices::build(api())
            .get_all(Some(PriceFilters { variant_id: Some(4) }))
            .url,
        format!("{}/v1/prices?filter[variant_id]=4", BASE)
    );
    assert_eq!(
        Variant::build(api())
            .get_all(Some(VariantFilters { product_id: Some(5) }))
            .url,
        format!("{}/v1/variants?filter[product_id]=5", BASE)
    );
    assert_eq!(
        UsageRecords::build(api())
            .get_all(Some(UsageRecordFilters {
                subscription_item_id: Some(6),
            }))
            .url,
        format!("{}/v1/usage-records?filter[subscription_item_id]=6", BASE)
    );
}

#[test]
fn paired_filters_keep_declared_order() {
    assert_eq!(
        DiscountRedemptions::build(api())
            .get_all(Some(DiscountRedemptionsFilters {
                order_id: Some(7),
                discount_id: Some(3),
            }))
            .url,
        format!(
            "{}/v1/discount-redemptions?filter[order_id]=7&filter[discount_id]=3",
            BASE
        )
    );
    assert_eq!(
        OrderItem::build(api())
            .get_all(Some(OrderItemFilters {
                order_id: Some(1),
                product_id: Some(2),
            }))
            .url,
        format!("{}/v1/order-items?filter[order_id]=1&filter[product_id]=2", BASE)
    );
    assert_eq!(
        Orders::build(api())
            .get_all(Some(OrderFilters {
                store_id: Some(1),
                user_email: Some(String::from("gm@ex.io")),
            }))
            .url,
        format!("{}/v1/orders?filter[store_id]=1&filter[user_email]=gm@ex.io", BASE)
    );
    assert_eq!(
        SubscriptionItems::build(api())
            .get_all(Some(SubscriptionItemFilters {
                store_id: Some(9),
                order_id: None,
                order_item_id: Some(2),
                product_id: None,
            }))
            .url,
        format!(
            "{}/v1/subscription-items?filter[store_id]=9&filter[order_item_id]=2",
            BASE
        )
    );
}

#[test]
fn deletes_and_cancel_use_the_delete_verb() {
    let req = Discount::build(api()).delete(21);
    assert_eq!(req.method, HttpMethod::Delete);
    assert_eq!(req.url, format!("{}/v1/discounts/21", BASE));
    let req = Webhook::build(api()).delete(22);
    assert_eq!(req.method, HttpMethod::Delete);
    assert_eq!(req.url, format!("{}/v1/webhooks/22", BASE));
    let req = Subscriptions::build(api()).cancel(23);
    assert_eq!(req.method, HttpMethod::Delete);
    assert_eq!(req.url, format!("{}/v1/subscriptions/23", BASE));
    assert!(matches!(req.body, RequestBody::Empty));
}

#[test]
fn current_usage_reads_the_sub_path() {
    let req = SubscriptionItems::build(api()).current_usage(77);
    assert_eq!(req.method, HttpMethod::Get);
    assert_eq!(
        req.url,
        format!("{}/v1/subscription-items/77/current-usage", BASE)
    );
}

#[test]
fn deactivate_license_key_posts_its_fields() {
    let req = LicenseKey::build(api()).deactivate("KEY", "9");
    assert_eq!(req.url, format!("{}/v1/licenses/deactivate", BASE));
    match &req.body {
        RequestBody::Form(fields) => {
            assert_eq!(
                fields,
                &vec![
                    (String::from("license_key"), String::from("KEY")),
                    (String::from("instance_id"), String::from("9")),
                ]
            );
        }
        _ => panic!("expected a form body"),
    }
}

#[test]
fn checkout_create_serializes_empty_attributes_and_relationships() {
    let req = Checkout::build(api()).create(CreateCheckout {
        type_: String::from("checkouts"),
        attributes: CreateCheckoutAttributes {
            custom_price: None,
            product_options: None,
            checkout_options: None,
            checkout_data: None,
            expires_at: None,
            test_mode: None,
        },
        relationships: Some(CreateCheckoutRelationships {
            store: Data {
                data: CreateCheckoutRelationShipData {
                    type_: String::from("stores"),
                    id: String::from("1"),
                },
            },
            variant: Data {
                data: CreateCheckoutRelationShipData {
                    type_: String::from("variants"),
                    id: String::from("2"),
                },
            },
        }),
    });
    assert_eq!(req.method, HttpMethod::Post);
    assert_eq!(req.url, format!("{}/v1/checkouts", BASE));
    let body = match &req.body {
        RequestBody::Json(s) => s.clone(),
        _ => panic!("expected a JSON body"),
    };
    assert_eq!(
        body,
        "{\"data\":{\"type\":\"checkouts\",\"attributes\":{},\"relationships\":{\"store\":\
         {\"data\":{\"type\":\"stores\",\"id\":\"1\"}},\"variant\":{\"data\":{\"type\":\
         \"variants\",\"id\":\"2\"}}}}}"
    );
}

#[test]
fn webhook_create_serializes_null_relationships() {
    let req = Webhook::build(api()).create(CreateWebhook {
        type_: String::from("webhooks"),
        attributes: CreateWebhookAttributes {
            url: String::from("https://ex.io/hook"),
            events: vec![String::from("order_created")],
            secret: String::from("hook-secret"),
            test_mode: None,
        },
        relationships: None,
    });
    assert_eq!(req.url, format!("{}/v1/webhooks", BASE));
    let body = match &req.body {
        RequestBody::Json(s) => s.clone(),
        _ => panic!("expected a JSON body"),
    };
    assert_eq!(
        body,
        "{\"data\":{\"type\":\"webhooks\",\"attributes\":{\"url\":\"https://ex.io/hook\",\
         \"events\":[\"order_created\"],\"secret\":\"hook-secret\"},\
         \"relationships\":null}}"
    );
}

#[test]
fn empty_string_filter_values_still_emit_their_pair() {
    let req = Orders::build(api()).get_all(Some(OrderFilters {
        store_id: None,
        user_email: Some(String::from("")),
    }));
    assert_eq!(req.url, format!("{}/v1/orders?filter[user_email]=", BASE));
}
