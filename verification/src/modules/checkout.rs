use vstd::prelude::*;

pub use crate::types::checkout::{
    BillingAddress, CheckoutData, CheckoutOptions, CheckoutResponse, CreateCheckout,
    CreateCheckoutAttributes, CreateCheckoutBillingAddress, CreateCheckoutCheckoutData,
    CreateCheckoutCheckoutOptions, CreateCheckoutProductOptions, CreateCheckoutRelationShip,
    CreateCheckoutRelationShipData, CreateCheckoutRelationships, Preview, ProductOptions,
};

use crate::json::{data_body, jdata_wrap, json_text, ToJson};
use crate::query::{build_query, opt_int_pair, push_opt_int_pair, query_string};
use crate::request::{is_get, is_post, HttpRequest};
use crate::LemonSqueezy;

verus! {

/// Which checkouts to list.
pub struct WebhookRedemptionsFilters {
    pub store_id: Option<i64>,
}

/// The query pairs a filter emits, in declared field order.
pub open spec fn checkout_filter_pairs(f: WebhookRedemptionsFilters) -> Seq<
    (Seq<char>, Seq<char>),
> {
    opt_int_pair("store_id"@, f.store_id)
}

impl WebhookRedemptionsFilters {
    /// The present filters as `(name, value)` pairs, in declared order.
    pub fn pairs(&self) -> (pairs: Vec<(String, String)>)
        ensures
            pairs.deep_view() == checkout_filter_pairs(*self),
    {
        let mut v: Vec<(String, String)> = Vec::new();
        proof {
            assert(v.deep_view() =~= Seq::<(Seq<char>, Seq<char>)>::empty());
        }
        push_opt_int_pair(&mut v, "store_id", &self.store_id);
        proof {
            assert(v.deep_view() =~= checkout_filter_pairs(*self));
        }
        v
    }
}

/// The collection path with the filters' query string appended.
pub open spec fn checkouts_path(filters: Option<WebhookRedemptionsFilters>) -> Seq<char> {
    "/v1/checkouts"@ + query_string(
        match filters {
            Option::None => Seq::<(Seq<char>, Seq<char>)>::empty(),
            Option::Some(f) => checkout_filter_pairs(f),
        },
    )
}

/// The checkouts resource.
pub struct Checkout {
    pub api: LemonSqueezy,
}

impl Checkout {
    /// Binds the resource to a client configuration.
    pub fn build(api: LemonSqueezy) -> (s: Self)
        ensures
            s.api == api,
    {
        Checkout { api }
    }

    /// Describes the GET for one checkout; checkout ids are strings.
    pub fn retrieve(&self, checkout_id: String) -> (req: HttpRequest)
        ensures
            is_get(req, self.api.key@, "/v1/checkouts/"@ + checkout_id@),
    {
        let mut url = String::from_str("/v1/checkouts/");
        url.append(checkout_id.as_str());
        self.api.get(url.as_str())
    }

    /// Describes the GET for the collection, filtered by the present fields.
    pub fn get_all(&self, filters: Option<WebhookRedemptionsFilters>) -> (req: HttpRequest)
        ensures
            is_get(req, self.api.key@, checkouts_path(filters)),
    {
        let pairs: Vec<(String, String)> = match &filters {
            Option::Some(f) => f.pairs(),
            Option::None => Vec::new(),
        };
        proof {
            if filters is None {
                assert(pairs.deep_view() =~= Seq::<(Seq<char>, Seq<char>)>::empty());
            }
        }
        let mut url = String::from_str("/v1/checkouts");
        let q = build_query(&pairs);
        url.append(q.as_str());
        self.api.get(url.as_str())
    }

    /// Describes the POST that creates a checkout: the payload wrapped as
    /// `{"data": ...}`.
    pub fn create(&self, data: CreateCheckout) -> (req: HttpRequest)
        ensures
            is_post(req, self.api.key@, "/v1/checkouts"@, json_text(jdata_wrap(data.json_of()))),
    {
        let body = data_body(&data);
        self.api.post("/v1/checkouts", body)
    }
}

} // verus!
