use vstd::prelude::*;

use crate::json::{
    jview_obj, lemma_fields_have_key_concat, lemma_opt_field_key, null_or_field, obj_has_key,
    opt_field, push_null_or_field, push_opt_field, push_req_field, req_field, JSpec, JVal,
    ToJson,
};
use crate::types::Data;
use crate::json::JVal as Value;

verus! {

/// A checkout's attributes as the API returns them.
pub struct CheckoutResponse {
    pub store_id: i64,
    pub variant_id: i64,
    pub custom_price: Value,
    pub product_options: ProductOptions,
    pub checkout_options: CheckoutOptions,
    pub checkout_data: CheckoutData,
    pub preview: Value,
    pub expires_at: Value,
    pub created_at: String,
    pub updated_at: String,
    pub test_mode: bool,
    pub url: String,
}

/// Product presentation settings echoed with a checkout.
pub struct ProductOptions {
    pub name: String,
    pub description: String,
    pub media: Vec<Value>,
    pub redirect_url: String,
    pub receipt_button_text: String,
    pub receipt_link_url: String,
    pub receipt_thank_you_note: String,
    pub enabled_variants: Vec<Value>,
}

/// Checkout page settings echoed with a checkout.
pub struct CheckoutOptions {
    pub embed: bool,
    pub media: bool,
    pub logo: bool,
    pub desc: bool,
    pub discount: bool,
    pub dark: bool,
    pub subscription_preview: bool,
    pub button_color: String,
}

/// Prefilled customer data echoed with a checkout.
pub struct CheckoutData {
    pub email: String,
    pub name: String,
    pub billing_address: Vec<BillingAddress>,
    pub tax_number: String,
    pub discount_code: String,
    pub custom: Vec<Value>,
    pub variant_quantities: Vec<Value>,
}

/// A billing address as it is echoed back.
pub struct BillingAddress {
    pub country: String,
    pub zip: String,
}

/// The price preview a checkout can carry.
pub struct Preview {
    pub currency: String,
    pub currency_rate: i64,
    pub subtotal: i64,
    pub discount_total: i64,
    pub tax: i64,
    pub total: i64,
    pub subtotal_usd: i64,
    pub discount_total_usd: i64,
    pub tax_usd: i64,
    pub total_usd: i64,
    pub subtotal_formatted: String,
    pub discount_total_formatted: String,
    pub tax_formatted: String,
    pub total_formatted: String,
}

/// A typed relationship reference.
pub struct CreateCheckoutRelationShip {
    pub type_: String,
    pub id: String,
}

/// The payload that creates a checkout.
pub struct CreateCheckout {
    pub type_: String,
    pub attributes: CreateCheckoutAttributes,
    pub relationships: Option<CreateCheckoutRelationships>,
}

/// The attributes of a new checkout; every field is omitted when unset.
pub struct CreateCheckoutAttributes {
    pub custom_price: Option<i64>,
    pub product_options: Option<CreateCheckoutProductOptions>,
    pub checkout_options: Option<CreateCheckoutCheckoutOptions>,
    pub checkout_data: Option<CreateCheckoutCheckoutData>,
    pub expires_at: Option<String>,
    pub test_mode: Option<bool>,
}

/// Product presentation overrides; every field is omitted when unset.
pub struct CreateCheckoutProductOptions {
    pub name: Option<String>,
    pub description: Option<String>,
    pub media: Option<Vec<String>>,
    pub redirect_url: Option<String>,
    pub receipt_button_text: Option<String>,
    pub receipt_link_url: Option<String>,
    pub receipt_thank_you_note: Option<String>,
    pub enabled_variants: Option<Vec<i64>>,
}

/// Checkout page overrides; every field is omitted when unset.
pub struct CreateCheckoutCheckoutOptions {
    pub embed: Option<bool>,
    pub media: Option<bool>,
    pub logo: Option<bool>,
    pub desc: Option<bool>,
    pub discount: Option<bool>,
    pub dark: Option<bool>,
    pub subscription_preview: Option<bool>,
    pub button_color: Option<String>,
}

/// Prefilled customer data; every field is omitted when unset.
pub struct CreateCheckoutCheckoutData {
    pub email: Option<String>,
    pub name: Option<String>,
    pub billing_address: Option<BillingAddress>,
    pub tax_number: Option<String>,
    pub discount_code: Option<String>,
    pub custom: Option<Vec<Value>>,
    pub variant_quantities: Option<Vec<i64>>,
}

/// A billing address where both parts are optional.
pub struct CreateCheckoutBillingAddress {
    pub country: Option<String>,
    pub zip: Option<String>,
}

/// The store and variant a new checkout belongs to.
pub struct CreateCheckoutRelationships {
    pub store: Data<CreateCheckoutRelationShipData>,
    pub variant: Data<CreateCheckoutRelationShipData>,
}

/// The reference a relationship carries.
pub struct CreateCheckoutRelationShipData {
    pub type_: String,
    pub id: String,
}

impl ToJson for BillingAddress {
    open spec fn json_of(&self) -> JSpec {
        JSpec::Obj(
            req_field("country"@, self.country)
            + req_field("zip"@, self.zip),
        )
    }

    fn to_json(&self) -> (r: JVal) {
        let mut fields: Vec<(String, JVal)> = Vec::new();
        proof {
            assert(jview_obj(fields@) =~= Seq::<(Seq<char>, JSpec)>::empty());
        }
        push_req_field(&mut fields, "country", &self.country);
        push_req_field(&mut fields, "zip", &self.zip);
        let r = JVal::Obj(fields);
        proof {
            assert(jview_obj(fields@) =~= (
            req_field("country"@, self.country)
            + req_field("zip"@, self.zip)));
        }
        r
    }
}

impl ToJson for CreateCheckoutRelationShipData {
    open spec fn json_of(&self) -> JSpec {
        JSpec::Obj(
            req_field("type"@, self.type_)
            + req_field("id"@, self.id),
        )
    }

    fn to_json(&self) -> (r: JVal) {
        let mut fields: Vec<(String, JVal)> = Vec::new();
        proof {
            assert(jview_obj(fields@) =~= Seq::<(Seq<char>, JSpec)>::empty());
        }
        push_req_field(&mut fields, "type", &self.type_);
        push_req_field(&mut fields, "id", &self.id);
        let r = JVal::Obj(fields);
        proof {
            assert(jview_obj(fields@) =~= (
            req_field("type"@, self.type_)
            + req_field("id"@, self.id)));
        }
        r
    }
}

impl ToJson for CreateCheckoutRelationships {
    open spec fn json_of(&self) -> JSpec {
        JSpec::Obj(
            req_field("store"@, self.store)
            + req_field("variant"@, self.variant),
        )
    }

    fn to_json(&self) -> (r: JVal) {
        let mut fields: Vec<(String, JVal)> = Vec::new();
        proof {
            assert(jview_obj(fields@) =~= Seq::<(Seq<char>, JSpec)>::empty());
        }
        push_req_field(&mut fields, "store", &self.store);
        push_req_field(&mut fields, "variant", &self.variant);
        let r = JVal::Obj(fields);
        proof {
            assert(jview_obj(fields@) =~= (
            req_field("store"@, self.store)
            + req_field("variant"@, self.variant)));
        }
        r
    }
}

impl ToJson for CreateCheckoutProductOptions {
    open spec fn json_of(&self) -> JSpec {
        JSpec::Obj(
            opt_field("name"@, self.name)
            + opt_field("description"@, self.description)
            + opt_field("media"@, self.media)
            + opt_field("redirect_url"@, self.redirect_url)
            + opt_field("receipt_button_text"@, self.receipt_button_text)
            + opt_field("receipt_link_url"@, self.receipt_link_url)
            + opt_field("receipt_thank_you_note"@, self.receipt_thank_you_note)
            + opt_field("enabled_variants"@, self.enabled_variants),
        )
    }

    fn to_json(&self) -> (r: JVal) {
        let mut fields: Vec<(String, JVal)> = Vec::new();
        proof {
            assert(jview_obj(fields@) =~= Seq::<(Seq<char>, JSpec)>::empty());
        }
        push_opt_field(&mut fields, "name", &self.name);
        push_opt_field(&mut fields, "description", &self.description);
        push_opt_field(&mut fields, "media", &self.media);
        push_opt_field(&mut fields, "redirect_url", &self.redirect_url);
        push_opt_field(&mut fields, "receipt_button_text", &self.receipt_button_text);
        push_opt_field(&mut fields, "receipt_link_url", &self.receipt_link_url);
        push_opt_field(&mut fields, "receipt_thank_you_note", &self.receipt_thank_you_note);
        push_opt_field(&mut fields, "enabled_variants", &self.enabled_variants);
        let r = JVal::Obj(fields);
        proof {
            assert(jview_obj(fields@) =~= (
            opt_field("name"@, self.name)
            + opt_field("description"@, self.description)
            + opt_field("media"@, self.media)
            + opt_field("redirect_url"@, self.redirect_url)
            + opt_field("receipt_button_text"@, self.receipt_button_text)
            + opt_field("receipt_link_url"@, self.receipt_link_url)
            + opt_field("receipt_thank_you_note"@, self.receipt_thank_you_note)
            + opt_field("enabled_variants"@, self.enabled_variants)));
        }
        r
    }
}

impl ToJson for CreateCheckoutCheckoutOptions {
    open spec fn json_of(&self) -> JSpec {
        JSpec::Obj(
            opt_field("embed"@, self.embed)
            + opt_field("media"@, self.media)
            + opt_field("logo"@, self.logo)
            + opt_field("desc"@, self.desc)
            + opt_field("discount"@, self.discount)
            + opt_field("dark"@, self.dark)
            + opt_field("subscription_preview"@, self.subscription_preview)
            + opt_field("button_color"@, self.button_color),
        )
    }

    fn to_json(&self) -> (r: JVal) {
        let mut fields: Vec<(String, JVal)> = Vec::new();
        proof {
            assert(jview_obj(fields@) =~= Seq::<(Seq<char>, JSpec)>::empty());
        }
        push_opt_field(&mut fields, "embed", &self.embed);
        push_opt_field(&mut fields, "media", &self.media);
        push_opt_field(&mut fields, "logo", &self.logo);
        push_opt_field(&mut fields, "desc", &self.desc);
        push_opt_field(&mut fields, "discount", &self.discount);
        push_opt_field(&mut fields, "dark", &self.dark);
        push_opt_field(&mut fields, "subscription_preview", &self.subscription_preview);
        push_opt_field(&mut fields, "button_color", &self.button_color);
        let r = JVal::Obj(fields);
        proof {
            assert(jview_obj(fields@) =~= (
            opt_field("embed"@, self.embed)
            + opt_field("media"@, self.media)
            + opt_field("logo"@, self.logo)
            + opt_field("desc"@, self.desc)
            + opt_field("discount"@, self.discount)
            + opt_field("dark"@, self.dark)
            + opt_field("subscription_preview"@, self.subscription_preview)
            + opt_field("button_color"@, self.button_color)));
        }
        r
    }
}

impl ToJson for CreateCheckoutCheckoutData {
    open spec fn json_of(&self) -> JSpec {
        JSpec::Obj(
            opt_field("email"@, self.email)
            + opt_field("name"@, self.name)
            + opt_field("billing_address"@, self.billing_address)
            + opt_field("tax_number"@, self.tax_number)
            + opt_field("discount_code"@, self.discount_code)
            + opt_field("custom"@, self.custom)
            + opt_field("variant_quantities"@, self.variant_quantities),
        )
    }

    fn to_json(&self) -> (r: JVal) {
        let mut fields: Vec<(String, JVal)> = Vec::new();
        proof {
            assert(jview_obj(fields@) =~= Seq::<(Seq<char>, JSpec)>::empty());
        }
        push_opt_field(&mut fields, "email", &self.email);
        push_opt_field(&mut fields, "name", &self.name);
        push_opt_field(&mut fields, "billing_address", &self.billing_address);
        push_opt_field(&mut fields, "tax_number", &self.tax_number);
        push_opt_field(&mut fields, "discount_code", &self.discount_code);
        push_opt_field(&mut fields, "custom", &self.custom);
        push_opt_field(&mut fields, "variant_quantities", &self.variant_quantities);
        let r = JVal::Obj(fields);
        proof {
            assert(jview_obj(fields@) =~= (
            opt_field("email"@, self.email)
            + opt_field("name"@, self.name)
            + opt_field("billing_address"@, self.billing_address)
            + opt_field("tax_number"@, self.tax_number)
            + opt_field("discount_code"@, self.discount_code)
            + opt_field("custom"@, self.custom)
            + opt_field("variant_quantities"@, self.variant_quantities)));
        }
        r
    }
}

impl ToJson for CreateCheckoutBillingAddress {
    open spec fn json_of(&self) -> JSpec {
        JSpec::Obj(
            opt_field("country"@, self.country)
            + opt_field("zip"@, self.zip),
        )
    }

    fn to_json(&self) -> (r: JVal) {
        let mut fields: Vec<(String, JVal)> = Vec::new();
        proof {
            assert(jview_obj(fields@) =~= Seq::<(Seq<char>, JSpec)>::empty());
        }
        push_opt_field(&mut fields, "country", &self.country);
        push_opt_field(&mut fields, "zip", &self.zip);
        let r = JVal::Obj(fields);
        proof {
            assert(jview_obj(fields@) =~= (
            opt_field("country"@, self.country)
            + opt_field("zip"@, self.zip)));
        }
        r
    }
}

impl ToJson for CreateCheckoutAttributes {
    open spec fn json_of(&self) -> JSpec {
        JSpec::Obj(
            opt_field("custom_price"@, self.custom_price)
            + opt_field("product_options"@, self.product_options)
            + opt_field("checkout_options"@, self.checkout_options)
            + opt_field("checkout_data"@, self.checkout_data)
            + opt_field("expires_at"@, self.expires_at)
            + opt_field("test_mode"@, self.test_mode),
        )
    }

    fn to_json(&self) -> (r: JVal) {
        let mut fields: Vec<(String, JVal)> = Vec::new();
        proof {
            assert(jview_obj(fields@) =~= Seq::<(Seq<char>, JSpec)>::empty());
        }
        push_opt_field(&mut fields, "custom_price", &self.custom_price);
        push_opt_field(&mut fields, "product_options", &self.product_options);
        push_opt_field(&mut fields, "checkout_options", &self.checkout_options);
        push_opt_field(&mut fields, "checkout_data", &self.checkout_data);
        push_opt_field(&mut fields, "expires_at", &self.expires_at);
        push_opt_field(&mut fields, "test_mode", &self.test_mode);
        let r = JVal::Obj(fields);
        proof {
            assert(jview_obj(fields@) =~= (
            opt_field("custom_price"@, self.custom_price)
            + opt_field("product_options"@, self.product_options)
            + opt_field("checkout_options"@, self.checkout_options)
            + opt_field("checkout_data"@, self.checkout_data)
            + opt_field("expires_at"@, self.expires_at)
            + opt_field("test_mode"@, self.test_mode)));
        }
        r
    }
}

impl ToJson for CreateCheckout {
    open spec fn json_of(&self) -> JSpec {
        JSpec::Obj(
            req_field("type"@, self.type_)
            + req_field("attributes"@, self.attributes)
            + null_or_field("relationships"@, self.relationships),
        )
    }

    fn to_json(&self) -> (r: JVal) {
        let mut fields: Vec<(String, JVal)> = Vec::new();
        proof {
            assert(jview_obj(fields@) =~= Seq::<(Seq<char>, JSpec)>::empty());
        }
        push_req_field(&mut fields, "type", &self.type_);
        push_req_field(&mut fields, "attributes", &self.attributes);
        push_null_or_field(&mut fields, "relationships", &self.relationships);
        let r = JVal::Obj(fields);
        proof {
            assert(jview_obj(fields@) =~= (
            req_field("type"@, self.type_)
            + req_field("attributes"@, self.attributes)
            + null_or_field("relationships"@, self.relationships)));
        }
        r
    }
}

/// Law: a new checkout's serialized attributes carry each key exactly when
/// its field is set.
pub proof fn lemma_create_checkout_attrs_keys(a: CreateCheckoutAttributes, k: Seq<char>)
    ensures
        obj_has_key(a.json_of(), k) <==> ((k == "custom_price"@ && a.custom_price is Some)
            || (k == "product_options"@ && a.product_options is Some)
            || (k == "checkout_options"@ && a.checkout_options is Some)
            || (k == "checkout_data"@ && a.checkout_data is Some)
            || (k == "expires_at"@ && a.expires_at is Some)
            || (k == "test_mode"@ && a.test_mode is Some)),
{
    let s0 = opt_field("custom_price"@, a.custom_price);
    let s1 = opt_field("product_options"@, a.product_options);
    let s2 = opt_field("checkout_options"@, a.checkout_options);
    let s3 = opt_field("checkout_data"@, a.checkout_data);
    let s4 = opt_field("expires_at"@, a.expires_at);
    let s5 = opt_field("test_mode"@, a.test_mode);
    lemma_opt_field_key("custom_price"@, a.custom_price, k);
    lemma_opt_field_key("product_options"@, a.product_options, k);
    lemma_opt_field_key("checkout_options"@, a.checkout_options, k);
    lemma_opt_field_key("checkout_data"@, a.checkout_data, k);
    lemma_opt_field_key("expires_at"@, a.expires_at, k);
    lemma_opt_field_key("test_mode"@, a.test_mode, k);
    lemma_fields_have_key_concat(s0, s1, k);
    lemma_fields_have_key_concat((s0 + s1), s2, k);
    lemma_fields_have_key_concat(((s0 + s1) + s2), s3, k);
    lemma_fields_have_key_concat((((s0 + s1) + s2) + s3), s4, k);
    lemma_fields_have_key_concat(((((s0 + s1) + s2) + s3) + s4), s5, k);
}

} // verus!
