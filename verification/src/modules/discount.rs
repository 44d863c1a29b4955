use vstd::prelude::*;

pub use crate::types::discount::{
    CreateDiscountRelationships, CreateDiscountRelationshipsStore,
    CreateDiscountRelationshipsVariants,
};

use crate::json::{
    data_body, jdata_wrap, json_text, jview_obj, lemma_fields_have_key_concat,
    lemma_opt_field_key, lemma_req_field_key, obj_has_key, opt_field, push_opt_field,
    push_req_field, req_field, JSpec, JVal, ToJson,
};
use crate::query::{build_query, opt_int_pair, push_opt_int_pair, query_string};
use crate::request::{is_delete, is_get, is_post, HttpRequest};
use crate::text::dec_str;
use crate::LemonSqueezy;

verus! {

/// A discount's attributes as the API returns them.
pub struct DiscountResponse {
    pub store_id: i64,
    pub name: String,
    pub code: String,
    pub amount: i64,
    pub amount_type: String,
    pub is_limited_to_products: bool,
    pub is_limited_redemptions: bool,
    pub max_redemptions: i64,
    pub starts_at: JVal,
    pub expires_at: JVal,
    pub duration: String,
    pub duration_in_months: i64,
    pub status: String,
    pub status_formatted: String,
    pub created_at: String,
    pub updated_at: String,
}

/// The payload that creates a discount.
pub struct CreateDiscount {
    pub type_: String,
    pub attributes: CreateDiscountAttributes,
    pub relationships: CreateDiscountRelationships,
}

/// The attributes of a new discount: name, code, amount and amount type are
/// always sent; the rest is omitted when unset.
pub struct CreateDiscountAttributes {
    pub name: String,
    pub code: String,
    pub amount: i64,
    pub amount_type: String,
    pub is_limited_to_products: Option<bool>,
    pub is_limited_redemptions: Option<bool>,
    pub max_redemptions: Option<i64>,
    pub starts_at: Option<String>,
    pub expires_at: Option<String>,
    pub duration: Option<String>,
}

impl ToJson for CreateDiscountAttributes {
    open spec fn json_of(&self) -> JSpec {
        JSpec::Obj(
            req_field("name"@, self.name)
            + req_field("code"@, self.code)
            + req_field("amount"@, self.amount)
            + req_field("amount_type"@, self.amount_type)
            + opt_field("is_limited_to_products"@, self.is_limited_to_products)
            + opt_field("is_limited_redemptions"@, self.is_limited_redemptions)
            + opt_field("max_redemptions"@, self.max_redemptions)
            + opt_field("starts_at"@, self.starts_at)
            + opt_field("expires_at"@, self.expires_at)
            + opt_field("duration"@, self.duration),
        )
    }

    fn to_json(&self) -> (r: JVal) {
        let mut fields: Vec<(String, JVal)> = Vec::new();
        proof {
            assert(jview_obj(fields@) =~= Seq::<(Seq<char>, JSpec)>::empty());
        }
        push_req_field(&mut fields, "name", &self.name);
        push_req_field(&mut fields, "code", &self.code);
        push_req_field(&mut fields, "amount", &self.amount);
        push_req_field(&mut fields, "amount_type", &self.amount_type);
        push_opt_field(&mut fields, "is_limited_to_products", &self.is_limited_to_products);
        push_opt_field(&mut fields, "is_limited_redemptions", &self.is_limited_redemptions);
        push_opt_field(&mut fields, "max_redemptions", &self.max_redemptions);
        push_opt_field(&mut fields, "starts_at", &self.starts_at);
        push_opt_field(&mut fields, "expires_at", &self.expires_at);
        push_opt_field(&mut fields, "duration", &self.duration);
        let r = JVal::Obj(fields);
        proof {
            assert(jview_obj(fields@) =~= (
            req_field("name"@, self.name)
            + req_field("code"@, self.code)
            + req_field("amount"@, self.amount)
            + req_field("amount_type"@, self.amount_type)
            + opt_field("is_limited_to_products"@, self.is_limited_to_products)
            + opt_field("is_limited_redemptions"@, self.is_limited_redemptions)
            + opt_field("max_redemptions"@, self.max_redemptions)
            + opt_field("starts_at"@, self.starts_at)
            + opt_field("expires_at"@, self.expires_at)
            + opt_field("duration"@, self.duration)));
        }
        r
    }
}

impl ToJson for CreateDiscount {
    open spec fn json_of(&self) -> JSpec {
        JSpec::Obj(
            req_field("type"@, self.type_)
            + req_field("attributes"@, self.attributes)
            + req_field("relationships"@, self.relationships),
        )
    }

    fn to_json(&self) -> (r: JVal) {
        let mut fields: Vec<(String, JVal)> = Vec::new();
        proof {
            assert(jview_obj(fields@) =~= Seq::<(Seq<char>, JSpec)>::empty());
        }
        push_req_field(&mut fields, "type", &self.type_);
        push_req_field(&mut fields, "attributes", &self.attributes);
        push_req_field(&mut fields, "relationships", &self.relationships);
        let r = JVal::Obj(fields);
        proof {
            assert(jview_obj(fields@) =~= (
            req_field("type"@, self.type_)
            + req_field("attributes"@, self.attributes)
            + req_field("relationships"@, self.relationships)));
        }
        r
    }
}

/// Law: the serialized attributes carry the four required keys always, and
/// each optional key exactly when its field is set.
pub proof fn lemma_create_discount_attrs_keys(a: CreateDiscountAttributes, k: Seq<char>)
    ensures
        obj_has_key(a.json_of(), k) <==> (k == "name"@
            || k == "code"@
            || k == "amount"@
            || k == "amount_type"@
            || (k == "is_limited_to_products"@ && a.is_limited_to_products is Some)
            || (k == "is_limited_redemptions"@ && a.is_limited_redemptions is Some)
            || (k == "max_redemptions"@ && a.max_redemptions is Some)
            || (k == "starts_at"@ && a.starts_at is Some)
            || (k == "expires_at"@ && a.expires_at is Some)
            || (k == "duration"@ && a.duration is Some)),
{
    let s0 = req_field("name"@, a.name);
    let s1 = req_field("code"@, a.code);
    let s2 = req_field("amount"@, a.amount);
    let s3 = req_field("amount_type"@, a.amount_type);
    let s4 = opt_field("is_limited_to_products"@, a.is_limited_to_products);
    let s5 = opt_field("is_limited_redemptions"@, a.is_limited_redemptions);
    let s6 = opt_field("max_redemptions"@, a.max_redemptions);
    let s7 = opt_field("starts_at"@, a.starts_at);
    let s8 = opt_field("expires_at"@, a.expires_at);
    let s9 = opt_field("duration"@, a.duration);
    lemma_req_field_key("name"@, a.name, k);
    lemma_req_field_key("code"@, a.code, k);
    lemma_req_field_key("amount"@, a.amount, k);
    lemma_req_field_key("amount_type"@, a.amount_type, k);
    lemma_opt_field_key("is_limited_to_products"@, a.is_limited_to_products, k);
    lemma_opt_field_key("is_limited_redemptions"@, a.is_limited_redemptions, k);
    lemma_opt_field_key("max_redemptions"@, a.max_redemptions, k);
    lemma_opt_field_key("starts_at"@, a.starts_at, k);
    lemma_opt_field_key("expires_at"@, a.expires_at, k);
    lemma_opt_field_key("duration"@, a.duration, k);
    lemma_fields_have_key_concat(s0, s1, k);
    lemma_fields_have_key_concat((s0 + s1), s2, k);
    lemma_fields_have_key_concat(((s0 + s1) + s2), s3, k);
    lemma_fields_have_key_concat((((s0 + s1) + s2) + s3), s4, k);
    lemma_fields_have_key_concat(((((s0 + s1) + s2) + s3) + s4), s5, k);
    lemma_fields_have_key_concat((((((s0 + s1) + s2) + s3) + s4) + s5), s6, k);
    lemma_fields_have_key_concat(((((((s0 + s1) + s2) + s3) + s4) + s5) + s6), s7, k);
    lemma_fields_have_key_concat((((((((s0 + s1) + s2) + s3) + s4) + s5) + s6) + s7), s8, k);
    lemma_fields_have_key_concat(((((((((s0 + s1) + s2) + s3) + s4) + s5) + s6) + s7) + s8), s9, k);
}

/// Which discounts to list.
pub struct DiscountFilters {
    pub store_id: Option<i64>,
}

/// The query pairs a filter emits, in declared field order.
pub open spec fn discount_filter_pairs(f: DiscountFilters) -> Seq<(Seq<char>, Seq<char>)> {
    opt_int_pair("store_id"@, f.store_id)
}

impl DiscountFilters {
    /// The present filters as `(name, value)` pairs, in declared order.
    pub fn pairs(&self) -> (pairs: Vec<(String, String)>)
        ensures
            pairs.deep_view() == discount_filter_pairs(*self),
    {
        let mut v: Vec<(String, String)> = Vec::new();
        proof {
            assert(v.deep_view() =~= Seq::<(Seq<char>, Seq<char>)>::empty());
        }
        push_opt_int_pair(&mut v, "store_id", &self.store_id);
        proof {
            assert(v.deep_view() =~= discount_filter_pairs(*self));
        }
        v
    }
}

/// The collection path with the filters' query string appended.
pub open spec fn discounts_path(filters: Option<DiscountFilters>) -> Seq<char> {
    "/v1/discounts"@ + query_string(
        match filters {
            Option::None => Seq::<(Seq<char>, Seq<char>)>::empty(),
            Option::Some(f) => discount_filter_pairs(f),
        },
    )
}

/// The discounts resource.
pub struct Discount {
    pub api: LemonSqueezy,
}

impl Discount {
    /// Binds the resource to a client configuration.
    pub fn build(api: LemonSqueezy) -> (s: Self)
        ensures
            s.api == api,
    {
        Discount { api }
    }

    /// Describes the GET for one resource: `/v1/discounts/<id>`.
    pub fn retrieve(&self, rid: usize) -> (req: HttpRequest)
        ensures
            is_get(req, self.api.key@, "/v1/discounts/"@ + dec_str(rid as nat)),
    {
        let mut url = String::from_str("/v1/discounts/");
        let id = crate::text::usize_to_string(rid);
        url.append(id.as_str());
        self.api.get(url.as_str())
    }

    /// Describes the GET for the collection, filtered by the present fields.
    pub fn get_all(&self, filters: Option<DiscountFilters>) -> (req: HttpRequest)
        ensures
            is_get(req, self.api.key@, discounts_path(filters)),
    {
        let pairs: Vec<(String, String)> = match &filters {
            Option::Some(f) => f.pairs(),
            Option::None => Vec::new(),
        };
        proof {
            if filters is None {
                assert(pairs.deep_view() =~= Seq::<(Seq<char>, Seq<char>)>::empty());
            }
        }
        let mut url = String::from_str("/v1/discounts");
        let q = build_query(&pairs);
        url.append(q.as_str());
        self.api.get(url.as_str())
    }

    /// Describes the DELETE for one discount.
    pub fn delete(&self, discount_id: usize) -> (req: HttpRequest)
        ensures
            is_delete(req, self.api.key@, "/v1/discounts/"@ + dec_str(discount_id as nat)),
    {
        let mut url = String::from_str("/v1/discounts/");
        let id = crate::text::usize_to_string(discount_id);
        url.append(id.as_str());
        self.api.delete(url.as_str())
    }

    /// Describes the POST that creates a discount: the payload wrapped as
    /// `{"data": ...}`.
    pub fn create(&self, data: CreateDiscount) -> (req: HttpRequest)
        ensures
            is_post(req, self.api.key@, "/v1/discounts"@, json_text(jdata_wrap(data.json_of()))),
    {
        let body = data_body(&data);
        self.api.post("/v1/discounts", body)
    }
}

} // verus!
