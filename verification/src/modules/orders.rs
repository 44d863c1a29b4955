use vstd::prelude::*;

use crate::json::JVal;
use crate::query::{
    build_query, opt_int_pair, opt_str_pair, push_opt_int_pair, push_opt_str_pair, query_string,
};
use crate::request::{is_get, HttpRequest};
use crate::text::dec_str;
use crate::LemonSqueezy;

verus! {

/// An order's attributes as the API returns them.
pub struct OrderResponse {
    pub store_id: Option<i64>,
    pub customer_id: Option<i64>,
    pub identifier: String,
    pub order_number: Option<i64>,
    pub user_name: Option<String>,
    pub user_email: Option<String>,
    pub currency: String,
    pub currency_rate: String,
    pub subtotal: Option<i64>,
    pub discount_total: Option<i64>,
    pub tax: Option<i64>,
    pub total: Option<i64>,
    pub subtotal_usd: Option<i64>,
    pub discount_total_usd: Option<i64>,
    pub tax_usd: Option<i64>,
    pub total_usd: Option<i64>,
    pub tax_name: Option<String>,
    pub tax_rate: Option<String>,
    pub status: Option<String>,
    pub status_formatted: Option<String>,
    pub refunded: bool,
    pub refunded_at: Option<JVal>,
    pub subtotal_formatted: Option<String>,
    pub discount_total_formatted: Option<String>,
    pub tax_formatted: Option<String>,
    pub total_formatted: Option<String>,
    pub first_order_item: Option<FirstOrderItem>,
    pub urls: Urls,
    pub created_at: String,
    pub updated_at: String,
}

/// The first item of an order, echoed with the order itself.
pub struct FirstOrderItem {
    pub id: Option<i64>,
    pub order_id: Option<i64>,
    pub product_id: Option<i64>,
    pub variant_id: Option<i64>,
    pub product_name: String,
    pub variant_name: String,
    pub price: Option<i64>,
    pub created_at: String,
    pub updated_at: String,
    pub test_mode: bool,
}

/// Links that come with an order.
pub struct Urls {
    pub receipt: String,
}

/// Which orders to list.
pub struct OrderFilters {
    pub store_id: Option<i64>,
    pub user_email: Option<String>,
}

/// The query pairs a filter emits, in declared field order.
pub open spec fn order_filter_pairs(f: OrderFilters) -> Seq<(Seq<char>, Seq<char>)> {
    opt_int_pair("store_id"@, f.store_id) + opt_str_pair("user_email"@, f.user_email)
}

impl OrderFilters {
    /// The present filters as `(name, value)` pairs, in declared order.
    pub fn pairs(&self) -> (pairs: Vec<(String, String)>)
        ensures
            pairs.deep_view() == order_filter_pairs(*self),
    {
        let mut v: Vec<(String, String)> = Vec::new();
        proof {
            assert(v.deep_view() =~= Seq::<(Seq<char>, Seq<char>)>::empty());
        }
        push_opt_int_pair(&mut v, "store_id", &self.store_id);
        push_opt_str_pair(&mut v, "user_email", &self.user_email);
        proof {
            assert(v.deep_view() =~= order_filter_pairs(*self));
        }
        v
    }
}

/// The collection path with the filters' query string appended.
pub open spec fn orders_path(filters: Option<OrderFilters>) -> Seq<char> {
    "/v1/orders"@ + query_string(
        match filters {
            Option::None => Seq::<(Seq<char>, Seq<char>)>::empty(),
            Option::Some(f) => order_filter_pairs(f),
        },
    )
}

/// The orders resource.
pub struct Orders {
    pub api: LemonSqueezy,
}

impl Orders {
    /// Binds the resource to a client configuration.
    pub fn build(api: LemonSqueezy) -> (s: Self)
        ensures
            s.api == api,
    {
        Orders { api }
    }

    /// Describes the GET for one resource: `/v1/orders/<id>`.
    pub fn retrieve(&self, rid: usize) -> (req: HttpRequest)
        ensures
            is_get(req, self.api.key@, "/v1/orders/"@ + dec_str(rid as nat)),
    {
        let mut url = String::from_str("/v1/orders/");
        let id = crate::text::usize_to_string(rid);
        url.append(id.as_str());
        self.api.get(url.as_str())
    }

    /// Describes the GET for the collection, filtered by the present fields.
    pub fn get_all(&self, filters: Option<OrderFilters>) -> (req: HttpRequest)
        ensures
            is_get(req, self.api.key@, orders_path(filters)),
    {
        let pairs: Vec<(String, String)> = match &filters {
            Option::Some(f) => f.pairs(),
            Option::None => Vec::new(),
        };
        proof {
            if filters is None {
                assert(pairs.deep_view() =~= Seq::<(Seq<char>, Seq<char>)>::empty());
            }
        }
        let mut url = String::from_str("/v1/orders");
        let q = build_query(&pairs);
        url.append(q.as_str());
        self.api.get(url.as_str())
    }
}

} // verus!
