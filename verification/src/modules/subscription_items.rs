use vstd::prelude::*;

use crate::json::{
    data_body, jdata_wrap, json_text, jview_obj, lemma_opt_field_key, obj_has_key, opt_field,
    push_opt_field, JSpec, JVal, ToJson,
};
use crate::query::{build_query, opt_int_pair, push_opt_int_pair, query_string};
use crate::request::{is_get, is_patch, HttpRequest};
use crate::text::dec_str;
use crate::utils::ResponseData;
use crate::LemonSqueezy;

verus! {

/// A subscription item's attributes as the API returns them.
pub struct SubscriptionItemResponse {
    pub subscription_id: i64,
    pub usage_id: Option<i64>,
    pub price_id: i64,
    pub quantity: i64,
    pub is_usage_based: bool,
    pub created_at: String,
    pub updated_at: String,
}

/// The current-usage meta object: the billing period and its quantity.
pub struct SubscriptionItemMetaResponse {
    pub period_start: String,
    pub period_end: String,
    pub quantity: i64,
    pub interval_unit: String,
    pub interval_quantity: i64,
}

/// The change an update sends; `quantity` is omitted when unset.
pub struct SubscriptionItemPatchRequest {
    pub quantity: Option<i64>,
}

impl ToJson for SubscriptionItemPatchRequest {
    open spec fn json_of(&self) -> JSpec {
        JSpec::Obj(
            opt_field("quantity"@, self.quantity),
        )
    }

    fn to_json(&self) -> (r: JVal) {
        let mut fields: Vec<(String, JVal)> = Vec::new();
        proof {
            assert(jview_obj(fields@) =~= Seq::<(Seq<char>, JSpec)>::empty());
        }
        push_opt_field(&mut fields, "quantity", &self.quantity);
        let r = JVal::Obj(fields);
        proof {
            assert(jview_obj(fields@) =~= (
            opt_field("quantity"@, self.quantity)));
        }
        r
    }
}

/// Law: the serialized change carries `quantity` exactly when it is set.
pub proof fn lemma_subscription_item_patch_keys(a: SubscriptionItemPatchRequest, k: Seq<char>)
    ensures
        obj_has_key(a.json_of(), k) <==> ((k == "quantity"@ && a.quantity is Some)),
{
    let s0 = opt_field("quantity"@, a.quantity);
    lemma_opt_field_key("quantity"@, a.quantity, k);

}

/// Which subscription items to list.
pub struct SubscriptionItemFilters {
    pub store_id: Option<i64>,
    pub order_id: Option<i64>,
    pub order_item_id: Option<i64>,
    pub product_id: Option<i64>,
}

/// The query pairs a filter emits, in declared field order.
pub open spec fn subscription_item_filter_pairs(f: SubscriptionItemFilters) -> Seq<
    (Seq<char>, Seq<char>),
> {
    opt_int_pair("store_id"@, f.store_id)
        + opt_int_pair("order_id"@, f.order_id)
        + opt_int_pair("order_item_id"@, f.order_item_id)
        + opt_int_pair("product_id"@, f.product_id)
}

impl SubscriptionItemFilters {
    /// The present filters as `(name, value)` pairs, in declared order.
    pub fn pairs(&self) -> (pairs: Vec<(String, String)>)
        ensures
            pairs.deep_view() == subscription_item_filter_pairs(*self),
    {
        let mut v: Vec<(String, String)> = Vec::new();
        proof {
            assert(v.deep_view() =~= Seq::<(Seq<char>, Seq<char>)>::empty());
        }
        push_opt_int_pair(&mut v, "store_id", &self.store_id);
        push_opt_int_pair(&mut v, "order_id", &self.order_id);
        push_opt_int_pair(&mut v, "order_item_id", &self.order_item_id);
        push_opt_int_pair(&mut v, "product_id", &self.product_id);
        proof {
            assert(v.deep_view() =~= subscription_item_filter_pairs(*self));
        }
        v
    }
}

/// The collection path with the filters' query string appended.
pub open spec fn subscription_items_path(filters: Option<SubscriptionItemFilters>) -> Seq<char> {
    "/v1/subscription-items"@ + query_string(
        match filters {
            Option::None => Seq::<(Seq<char>, Seq<char>)>::empty(),
            Option::Some(f) => subscription_item_filter_pairs(f),
        },
    )
}

/// The subscription items resource.
pub struct SubscriptionItems {
    pub api: LemonSqueezy,
}

impl SubscriptionItems {
    /// Binds the resource to a client configuration.
    pub fn build(api: LemonSqueezy) -> (s: Self)
        ensures
            s.api == api,
    {
        SubscriptionItems { api }
    }

    /// Describes the GET for one resource: `/v1/subscription-items/<id>`.
    pub fn retrieve(&self, rid: usize) -> (req: HttpRequest)
        ensures
            is_get(req, self.api.key@, "/v1/subscription-items/"@ + dec_str(rid as nat)),
    {
        let mut url = String::from_str("/v1/subscription-items/");
        let id = crate::text::usize_to_string(rid);
        url.append(id.as_str());
        self.api.get(url.as_str())
    }

    /// Describes the GET for the collection, filtered by the present fields.
    pub fn get_all(&self, filters: Option<SubscriptionItemFilters>) -> (req: HttpRequest)
        ensures
            is_get(req, self.api.key@, subscription_items_path(filters)),
    {
        let pairs: Vec<(String, String)> = match &filters {
            Option::Some(f) => f.pairs(),
            Option::None => Vec::new(),
        };
        proof {
            if filters is None {
                assert(pairs.deep_view() =~= Seq::<(Seq<char>, Seq<char>)>::empty());
            }
        }
        let mut url = String::from_str("/v1/subscription-items");
        let q = build_query(&pairs);
        url.append(q.as_str());
        self.api.get(url.as_str())
    }

    /// Describes the PATCH that updates an item: the resource object wrapped
    /// as `{"data": ...}`, sent to the id the object itself carries.
    pub fn update(&self, data: ResponseData<SubscriptionItemPatchRequest>) -> (req: HttpRequest)
        ensures
            is_patch(
                req,
                self.api.key@,
                "/v1/subscription-items/"@ + data.id@,
                json_text(jdata_wrap(data.json_of())),
            ),
    {
        let mut url = String::from_str("/v1/subscription-items/");
        url.append(data.id.as_str());
        let body = data_body(&data);
        self.api.patch(url.as_str(), body)
    }

    /// Describes the GET for an item's usage in the current billing period.
    pub fn current_usage(&self, subscription_item_id: usize) -> (req: HttpRequest)
        ensures
            is_get(
                req,
                self.api.key@,
                "/v1/subscription-items/"@ + dec_str(subscription_item_id as nat)
                    + "/current-usage"@,
            ),
    {
        let mut url = String::from_str("/v1/subscription-items/");
        let id = crate::text::usize_to_string(subscription_item_id);
        url.append(id.as_str());
        url.append("/current-usage");
        self.api.get(url.as_str())
    }
}

} // verus!
