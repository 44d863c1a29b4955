use vstd::prelude::*;

use crate::json::{
    data_body, jdata_wrap, json_text, jview_obj, lemma_fields_have_key_concat,
    lemma_opt_field_key, obj_has_key, opt_field, push_opt_field, JSpec, JVal, ToJson,
};
use crate::query::{build_query, opt_int_pair, push_opt_int_pair, query_string};
use crate::request::{is_delete, is_get, is_patch, HttpRequest};
use crate::text::dec_str;
use crate::utils::ResponseData;
use crate::LemonSqueezy;

verus! {

/// A subscription's attributes as the API returns them.
pub struct SubscriptionResponse {
    pub store_id: i64,
    pub customer_id: i64,
    pub order_id: i64,
    pub order_item_id: i64,
    pub product_id: i64,
    pub variant_id: i64,
    pub product_name: String,
    pub variant_name: String,
    pub user_name: String,
    pub user_email: String,
    pub status: String,
    pub status_formatted: String,
    pub card_brand: String,
    pub card_last_four: String,
    pub pause: Option<JVal>,
    pub cancelled: bool,
    pub trial_ends_at: Option<JVal>,
    pub billing_anchor: i64,
    pub first_subscription_item: FirstSubscriptionItem,
    pub urls: Urls,
    pub renews_at: String,
    pub ends_at: JVal,
    pub created_at: String,
    pub updated_at: String,
    pub test_mode: bool,
}

/// The change an update sends; every field is omitted when unset.
pub struct SubscriptionPatchRequest {
    pub product_id: Option<i64>,
    pub variant_id: Option<i64>,
    pub pause: Option<JVal>,
    pub cancelled: Option<bool>,
    pub billing_anchor: Option<i64>,
    pub invoice_immediately: Option<String>,
    pub disable_prorations: Option<String>,
}

/// The first item of a subscription, echoed with the subscription itself.
pub struct FirstSubscriptionItem {
    pub id: i64,
    pub subscription_id: i64,
    pub price_id: i64,
    pub quantity: i64,
    pub created_at: String,
    pub updated_at: String,
}

/// Links that come with a subscription.
pub struct Urls {
    pub update_payment_method: String,
}

impl ToJson for SubscriptionPatchRequest {
    open spec fn json_of(&self) -> JSpec {
        JSpec::Obj(
            opt_field("product_id"@, self.product_id)
            + opt_field("variant_id"@, self.variant_id)
            + opt_field("pause"@, self.pause)
            + opt_field("cancelled"@, self.cancelled)
            + opt_field("billing_anchor"@, self.billing_anchor)
            + opt_field("invoice_immediately"@, self.invoice_immediately)
            + opt_field("disable_prorations"@, self.disable_prorations),
        )
    }

    fn to_json(&self) -> (r: JVal) {
        let mut fields: Vec<(String, JVal)> = Vec::new();
        proof {
            assert(jview_obj(fields@) =~= Seq::<(Seq<char>, JSpec)>::empty());
        }
        push_opt_field(&mut fields, "product_id", &self.product_id);
        push_opt_field(&mut fields, "variant_id", &self.variant_id);
        push_opt_field(&mut fields, "pause", &self.pause);
        push_opt_field(&mut fields, "cancelled", &self.cancelled);
        push_opt_field(&mut fields, "billing_anchor", &self.billing_anchor);
        push_opt_field(&mut fields, "invoice_immediately", &self.invoice_immediately);
        push_opt_field(&mut fields, "disable_prorations", &self.disable_prorations);
        let r = JVal::Obj(fields);
        proof {
            assert(jview_obj(fields@) =~= (
            opt_field("product_id"@, self.product_id)
            + opt_field("variant_id"@, self.variant_id)
            + opt_field("pause"@, self.pause)
            + opt_field("cancelled"@, self.cancelled)
            + opt_field("billing_anchor"@, self.billing_anchor)
            + opt_field("invoice_immediately"@, self.invoice_immediately)
            + opt_field("disable_prorations"@, self.disable_prorations)));
        }
        r
    }
}

/// Law: the serialized change carries each key exactly when its field is set.
pub proof fn lemma_subscription_patch_keys(a: SubscriptionPatchRequest, k: Seq<char>)
    ensures
        obj_has_key(a.json_of(), k) <==> ((k == "product_id"@ && a.product_id is Some)
            || (k == "variant_id"@ && a.variant_id is Some)
            || (k == "pause"@ && a.pause is Some)
            || (k == "cancelled"@ && a.cancelled is Some)
            || (k == "billing_anchor"@ && a.billing_anchor is Some)
            || (k == "invoice_immediately"@ && a.invoice_immediately is Some)
            || (k == "disable_prorations"@ && a.disable_prorations is Some)),
{
    let s0 = opt_field("product_id"@, a.product_id);
    let s1 = opt_field("variant_id"@, a.variant_id);
    let s2 = opt_field("pause"@, a.pause);
    let s3 = opt_field("cancelled"@, a.cancelled);
    let s4 = opt_field("billing_anchor"@, a.billing_anchor);
    let s5 = opt_field("invoice_immediately"@, a.invoice_immediately);
    let s6 = opt_field("disable_prorations"@, a.disable_prorations);
    lemma_opt_field_key("product_id"@, a.product_id, k);
    lemma_opt_field_key("variant_id"@, a.variant_id, k);
    lemma_opt_field_key("pause"@, a.pause, k);
    lemma_opt_field_key("cancelled"@, a.cancelled, k);
    lemma_opt_field_key("billing_anchor"@, a.billing_anchor, k);
    lemma_opt_field_key("invoice_immediately"@, a.invoice_immediately, k);
    lemma_opt_field_key("disable_prorations"@, a.disable_prorations, k);
    lemma_fields_have_key_concat(s0, s1, k);
    lemma_fields_have_key_concat((s0 + s1), s2, k);
    lemma_fields_have_key_concat(((s0 + s1) + s2), s3, k);
    lemma_fields_have_key_concat((((s0 + s1) + s2) + s3), s4, k);
    lemma_fields_have_key_concat(((((s0 + s1) + s2) + s3) + s4), s5, k);
    lemma_fields_have_key_concat((((((s0 + s1) + s2) + s3) + s4) + s5), s6, k);
}

/// Which subscriptions to list.
pub struct SubscriptionFilters {
    pub store_id: Option<i64>,
    pub order_id: Option<i64>,
    pub order_item_id: Option<i64>,
    pub product_id: Option<i64>,
}

/// The query pairs a filter emits, in declared field order.
pub open spec fn subscription_filter_pairs(f: SubscriptionFilters) -> Seq<(Seq<char>, Seq<char>)> {
    opt_int_pair("store_id"@, f.store_id)
        + opt_int_pair("order_id"@, f.order_id)
        + opt_int_pair("order_item_id"@, f.order_item_id)
        + opt_int_pair("product_id"@, f.product_id)
}

impl SubscriptionFilters {
    /// The present filters as `(name, value)` pairs, in declared order.
    pub fn pairs(&self) -> (pairs: Vec<(String, String)>)
        ensures
            pairs.deep_view() == subscription_filter_pairs(*self),
    {
        let mut v: Vec<(String, String)> = Vec::new();
        proof {
            assert(v.deep_view() =~= Seq::<(Seq<char>, Seq<char>)>::empty());
        }
        push_opt_int_pair(&mut v, "store_id", &self.store_id);
        push_opt_int_pair(&mut v, "order_id", &self.order_id);
        push_opt_int_pair(&mut v, "order_item_id", &self.order_item_id);
        push_opt_int_pair(&mut v, "product_id", &self.product_id);
        proof {
            assert(v.deep_view() =~= subscription_filter_pairs(*self));
        }
        v
    }
}

/// The collection path with the filters' query string appended.
pub open spec fn subscriptions_path(filters: Option<SubscriptionFilters>) -> Seq<char> {
    "/v1/subscriptions"@ + query_string(
        match filters {
            Option::None => Seq::<(Seq<char>, Seq<char>)>::empty(),
            Option::Some(f) => subscription_filter_pairs(f),
        },
    )
}

/// The subscriptions resource.
pub struct Subscriptions {
    pub api: LemonSqueezy,
}

impl Subscriptions {
    /// Binds the resource to a client configuration.
    pub fn build(api: LemonSqueezy) -> (s: Self)
        ensures
            s.api == api,
    {
        Subscriptions { api }
    }

    /// Describes the GET for one resource: `/v1/subscriptions/<id>`.
    pub fn retrieve(&self, rid: usize) -> (req: HttpRequest)
        ensures
            is_get(req, self.api.key@, "/v1/subscriptions/"@ + dec_str(rid as nat)),
    {
        let mut url = String::from_str("/v1/subscriptions/");
        let id = crate::text::usize_to_string(rid);
        url.append(id.as_str());
        self.api.get(url.as_str())
    }

    /// Describes the GET for the collection, filtered by the present fields.
    pub fn get_all(&self, filters: Option<SubscriptionFilters>) -> (req: HttpRequest)
        ensures
            is_get(req, self.api.key@, subscriptions_path(filters)),
    {
        let pairs: Vec<(String, String)> = match &filters {
            Option::Some(f) => f.pairs(),
            Option::None => Vec::new(),
        };
        proof {
            if filters is None {
                assert(pairs.deep_view() =~= Seq::<(Seq<char>, Seq<char>)>::empty());
            }
        }
        let mut url = String::from_str("/v1/subscriptions");
        let q = build_query(&pairs);
        url.append(q.as_str());
        self.api.get(url.as_str())
    }

    /// Describes the PATCH that updates a subscription: the resource object
    /// wrapped as `{"data": ...}`, sent to the id the object itself carries.
    pub fn update(&self, data: ResponseData<SubscriptionPatchRequest>) -> (req: HttpRequest)
        ensures
            is_patch(
                req,
                self.api.key@,
                "/v1/subscriptions/"@ + data.id@,
                json_text(jdata_wrap(data.json_of())),
            ),
    {
        let mut url = String::from_str("/v1/subscriptions/");
        url.append(data.id.as_str());
        let body = data_body(&data);
        self.api.patch(url.as_str(), body)
    }

    /// Describes the DELETE that cancels a subscription.
    pub fn cancel(&self, subscription_id: usize) -> (req: HttpRequest)
        ensures
            is_delete(req, self.api.key@, "/v1/subscriptions/"@ + dec_str(subscription_id as nat)),
    {
        let mut url = String::from_str("/v1/subscriptions/");
        let id = crate::text::usize_to_string(subscription_id);
        url.append(id.as_str());
        self.api.delete(url.as_str())
    }
}

} // verus!
