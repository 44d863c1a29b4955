use lemonsqueezy::errors::NetworkError;
use lemonsqueezy::modules::customer::Customer;
use lemonsqueezy::modules::discount::{
    CreateDiscount, CreateDiscountAttributes, CreateDiscountRelationships,
    CreateDiscountRelationshipsStore, CreateDiscountRelationshipsVariants, Discount,
};
use lemonsqueezy::modules::license_keys::LicenseKey;
use lemonsqueezy::modules::products::{Product, ProductFilters};
use lemonsqueezy::request::{HttpMethod, RequestBody};
use lemonsqueezy::types::Data;
use lemonsqueezy::utils::{Response, ResponseData};
use lemonsqueezy::LemonSqueezy;

fn api() -> LemonSqueezy {
    LemonSqueezy::new(String::from("token"))
}

fn default_header_list() -> Vec<(String, String)> {
    vec![
        (
            String::from("Accept"),
            String::from("application/vnd.api+json"),
        ),
        (
            String::from("Content-Type"),
            String::from("application/vnd.api+json"),
        ),
        (String::from("Authorization"), String::from("Bearer token")),
    ]
}

#[test]
fn retrieve_customer_builds_get_with_default_headers() {
    let customer = Customer::build(api());
    let req = customer.retrieve(42);
    assert_eq!(req.method, HttpMethod::Get);
    assert_eq!(req.url, "https://api.lemonsqueezy.com/v1/customers/42");
    assert_eq!(req.headers, default_header_list());
    assert!(matches!(req.body, RequestBody::Empty));
}

#[test]
fn customer_envelope_keeps_the_string_id() {
    let text = "{\"data\":{\"type\":\"customers\",\"id\":\"42\",\"attributes\":{\"name\":\"Ada\"}}}";
    let parsed: serde_json::Value = serde_json::from_str(text).unwrap();
    let data = parsed.get("data").unwrap();
    let envelope: Response<String> = Response {
        jsonapi: None,
        links: None,
        data: Some(ResponseData {
            type_: data.get("type").unwrap().as_str().unwrap().to_string(),
            id: data.get("id").unwrap().as_str().unwrap().to_string(),
            relationships: None,
            attributes: data
                .get("attributes")
                .unwrap()
                .get("name")
                .unwrap()
                .as_str()
                .unwrap()
                .to_string(),
            links: None,
        }),
    };
    assert_eq!(envelope.data.as_ref().unwrap().id, "42");
    assert_eq!(envelope.get_inner_response().unwrap().as_str(), "Ada");
}

#[test]
fn get_all_products_with_store_filter() {
    let products = Product::build(api());
    let req = products.get_all(Some(ProductFilters {
        store_id: Some(42756),
    }));
    assert_eq!(req.method, HttpMethod::Get);
    assert_eq!(
        req.url,
        "https://api.lemonsqueezy.com/v1/products?filter[store_id]=42756"
    );
    assert_eq!(req.headers, default_header_list());
    assert!(matches!(req.body, RequestBody::Empty));
}

#[test]
fn create_discount_posts_wrapped_payload() {
    let discount = Discount::build(api());
    let data = CreateDiscount {
        type_: String::from("discounts"),
        attributes: CreateDiscountAttributes {
            name: String::from("Test"),
            code: String::from("TEST"),
            amount: 100,
            amount_type: String::from("fixed"),
            is_limited_to_products: None,
            is_limited_redemptions: None,
            max_redemptions: None,
            starts_at: None,
            expires_at: None,
            duration: None,
        },
        relationships: CreateDiscountRelationships {
            store: Data {
                data: CreateDiscountRelationshipsStore {
                    type_: String::from("stores"),
                    id: String::from("1"),
                },
            },
            variants: Data {
                data: vec![CreateDiscountRelationshipsVariants {
                    type_: String::from("variants"),
                    id: String::from("2"),
                }],
            },
        },
    };
    let req = discount.create(data);
    assert_eq!(req.method, HttpMethod::Post);
    assert_eq!(req.url, "https://api.lemonsqueezy.com/v1/discounts");
    assert_eq!(req.headers, default_header_list());
    let body = match &req.body {
        RequestBody::Json(s) => s.clone(),
        _ => panic!("expected a JSON body"),
    };
    let got: serde_json::Value = serde_json::from_str(&body).unwrap();
    let expected: serde_json::Value = serde_json::from_str(
        "{\"data\":{\"type\":\"discounts\",\"attributes\":{\"name\":\"Test\",\"code\":\"TEST\",\
         \"amount\":100,\"amount_type\":\"fixed\"},\"relationships\":{\"store\":{\"data\":\
         {\"type\":\"stores\",\"id\":\"1\"}},\"variants\":{\"data\":[{\"type\":\"variants\",\
         \"id\":\"2\"}]}}}}",
    )
    .unwrap();
    assert_eq!(got, expected);
}

#[test]
fn activate_license_key_posts_form_fields() {
    let licenses = LicenseKey::build(api());
    let req = licenses.activate("KEY", "Test");
    assert_eq!(req.method, HttpMethod::Post);
    assert_eq!(req.url, "https://api.lemonsqueezy.com/v1/licenses/activate");
    assert_eq!(
        req.headers,
        vec![(String::from("Accept"), String::from("application/json"))]
    );
    match &req.body {
        RequestBody::Form(fields) => {
            assert_eq!(
                fields,
                &vec![
                    (String::from("license_key"), String::from("KEY")),
                    (String::from("instance_name"), String::from("Test")),
                ]
            );
        }
        _ => panic!("expected a form body"),
    }
}

#[test]
fn validate_license_key_with_and_without_instance() {
    let licenses = LicenseKey::build(api());
    let req = licenses.validate("KEY", Some("inst"));
    match &req.body {
        RequestBody::Form(fields) => {
            assert_eq!(
                fields,
                &vec![
                    (String::from("license_key"), String::from("KEY")),
                    (String::from("instance_id"), String::from("inst")),
                ]
            );
        }
        _ => panic!("expected a form body"),
    }
    let req = licenses.validate("KEY", None);
    match &req.body {
        RequestBody::Form(fields) => {
            assert_eq!(
                fields,
                &vec![(String::from("license_key"), String::from("KEY"))]
            );
        }
        _ => panic!("expected a form body"),
    }
}

#[test]
fn one_configuration_serves_many_resources() {
    let shared = api();
    let customers = Customer::build(shared.duplicate());
    let products = Product::build(shared);
    assert_eq!(
        customers.retrieve(1).url,
        "https://api.lemonsqueezy.com/v1/customers/1"
    );
    assert_eq!(
        products.retrieve(1).url,
        "https://api.lemonsqueezy.com/v1/products/1"
    );
}

#[test]
fn transport_failures_carry_the_transport_kind() {
    let err = NetworkError::transport(String::from("connection refused"));
    assert!(err.is_transport());
    assert!(!err.is_decode());
    assert_eq!(err.message(), "connection refused");
    let err = NetworkError::decode(String::from("missing field"));
    assert!(err.is_decode());
    assert!(!err.is_transport());
}
