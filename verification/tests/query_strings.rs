use lemonsqueezy::modules::customer::{Customer, CustomerFilters};
use lemonsqueezy::modules::license_keys::{LicenseKey, LicenseKeyFilters};
use lemonsqueezy::modules::store::Store;
use lemonsqueezy::modules::subscription_invoice::{
    SubscriptionInvoice, SubscriptionInvoiceFilter,
};
use lemonsqueezy::modules::subscriptions::{SubscriptionFilters, Subscriptions};
use lemonsqueezy::modules::webhook::{Webhook, WebhookRedemptionsFilters};
use lemonsqueezy::LemonSqueezy;

fn api() -> LemonSqueezy {
    LemonSqueezy::new(String::from("token"))
}

#[test]
fn no_filters_leave_the_collection_path_bare() {
    let customers = Customer::build(api());
    let req = customers.get_all(None);
    assert_eq!(req.url, "https://api.lemonsqueezy.com/v1/customers");
    let req = customers.get_all(Some(CustomerFilters {
        store_id: None,
        email: None,
    }));
    assert_eq!(req.url, "https://api.lemonsqueezy.com/v1/customers");
    let stores = Store::build(api());
    let req = stores.get_all();
    assert_eq!(req.url, "https://api.lemonsqueezy.com/v1/stores");
}

#[test]
fn one_filter_starts_with_question_mark_and_has_no_ampersand() {
    let customers = Customer::build(api());
    let req = customers.get_all(Some(CustomerFilters {
        store_id: None,
        email: Some(String::from("gm@ex.io")),
    }));
    assert_eq!(
        req.url,
        "https://api.lemonsqueezy.com/v1/customers?filter[email]=gm@ex.io"
    );
    let query = req.url.split('?').nth(1).unwrap();
    assert_eq!(query.matches('&').count(), 0);
    assert!(query.starts_with("filter[email]="));
}

#[test]
fn two_filters_use_one_question_mark_and_one_ampersand() {
    let customers = Customer::build(api());
    let req = customers.get_all(Some(CustomerFilters {
        store_id: Some(11),
        email: Some(String::from("gm@ex.io")),
    }));
    assert_eq!(
        req.url,
        "https://api.lemonsqueezy.com/v1/customers?filter[store_id]=11&filter[email]=gm@ex.io"
    );
    assert_eq!(req.url.matches('?').count(), 1);
    assert_eq!(req.url.matches('&').count(), 1);
}

#[test]
fn four_filters_use_three_ampersands_in_declared_order() {
    let licenses = LicenseKey::build(api());
    let req = licenses.get_all(Some(LicenseKeyFilters {
        store_id: Some(1),
        order_id: Some(2),
        order_item_id: Some(3),
        product_id: Some(4),
    }));
    assert_eq!(
        req.url,
        "https://api.lemonsqueezy.com/v1/license-keys?filter[store_id]=1&filter[order_id]=2\
         &filter[order_item_id]=3&filter[product_id]=4"
    );
    assert_eq!(req.url.matches('?').count(), 1);
    assert_eq!(req.url.matches('&').count(), 3);
}

#[test]
fn absent_fields_are_skipped_and_separators_stay_right() {
    let licenses = LicenseKey::build(api());
    let req = licenses.get_all(Some(LicenseKeyFilters {
        store_id: None,
        order_id: Some(2),
        order_item_id: None,
        product_id: Some(4),
    }));
    assert_eq!(
        req.url,
        "https://api.lemonsqueezy.com/v1/license-keys?filter[order_id]=2&filter[product_id]=4"
    );
}

#[test]
fn subscription_filters_follow_declared_order() {
    let subscriptions = Subscriptions::build(api());
    let req = subscriptions.get_all(Some(SubscriptionFilters {
        store_id: Some(9),
        order_id: Some(1),
        order_item_id: None,
        product_id: None,
    }));
    assert_eq!(
        req.url,
        "https://api.lemonsqueezy.com/v1/subscriptions?filter[store_id]=9&filter[order_id]=1"
    );
}

#[test]
fn webhook_filters_follow_declared_order() {
    let webhooks = Webhook::build(api());
    let req = webhooks.get_all(Some(WebhookRedemptionsFilters {
        order_id: Some(7),
        discount_id: Some(3),
    }));
    assert_eq!(
        req.url,
        "https://api.lemonsqueezy.com/v1/webhooks?filter[order_id]=7&filter[discount_id]=3"
    );
}

#[test]
fn boolean_and_string_filters_render_their_values() {
    let invoices = SubscriptionInvoice::build(api());
    let req = invoices.get_all(Some(SubscriptionInvoiceFilter {
        store_id: Some(5),
        status: Some(String::from("paid")),
        refunded: Some(false),
        subscription_id: None,
    }));
    assert_eq!(
        req.url,
        "https://api.lemonsqueezy.com/v1/subscription-invoices?filter[store_id]=5\
         &filter[status]=paid&filter[refunded]=false"
    );
}

#[test]
fn negative_ids_keep_their_sign() {
    let customers = Customer::build(api());
    let req = customers.get_all(Some(CustomerFilters {
        store_id: Some(-12),
        email: None,
    }));
    assert_eq!(
        req.url,
        "https://api.lemonsqueezy.com/v1/customers?filter[store_id]=-12"
    );
}
