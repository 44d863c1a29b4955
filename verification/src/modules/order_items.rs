use vstd::prelude::*;

use crate::query::{build_query, opt_int_pair, push_opt_int_pair, query_string};
use crate::request::{is_get, HttpRequest};
use crate::text::dec_str;
use crate::LemonSqueezy;

verus! {

/// An order item's attributes as the API returns them.
pub struct OrderItemResponse {
    pub order_id: i64,
    pub product_id: i64,
    pub variant_id: i64,
    pub product_name: String,
    pub variant_name: String,
    pub price: i64,
    pub created_at: String,
    pub updated_at: String,
}

/// Which order items to list.
pub struct OrderItemFilters {
    pub order_id: Option<i64>,
    pub product_id: Option<i64>,
}

/// The query pairs a filter emits, in declared field order.
pub open spec fn order_item_filter_pairs(f: OrderItemFilters) -> Seq<(Seq<char>, Seq<char>)> {
    opt_int_pair("order_id"@, f.order_id) + opt_int_pair("product_id"@, f.product_id)
}

impl OrderItemFilters {
    /// The present filters as `(name, value)` pairs, in declared order.
    pub fn pairs(&self) -> (pairs: Vec<(String, String)>)
        ensures
            pairs.deep_view() == order_item_filter_pairs(*self),
    {
        let mut v: Vec<(String, String)> = Vec::new();
        proof {
            assert(v.deep_view() =~= Seq::<(Seq<char>, Seq<char>)>::empty());
        }
        push_opt_int_pair(&mut v, "order_id", &self.order_id);
        push_opt_int_pair(&mut v, "product_id", &self.product_id);
        proof {
            assert(v.deep_view() =~= order_item_filter_pairs(*self));
        }
        v
    }
}

/// The collection path with the filters' query string appended.
pub open spec fn order_items_path(filters: Option<OrderItemFilters>) -> Seq<char> {
    "/v1/order-items"@ + query_string(
        match filters {
            Option::None => Seq::<(Seq<char>, Seq<char>)>::empty(),
            Option::Some(f) => order_item_filter_pairs(f),
        },
    )
}

/// The order items resource.
pub struct OrderItem {
    pub api: LemonSqueezy,
}

impl OrderItem {
    /// Binds the resource to a client configuration.
    pub fn build(api: LemonSqueezy) -> (s: Self)
        ensures
            s.api == api,
    {
        OrderItem { api }
    }

    /// Describes the GET for one resource: `/v1/order-items/<id>`.
    pub fn retrieve(&self, rid: usize) -> (req: HttpRequest)
        ensures
            is_get(req, self.api.key@, "/v1/order-items/"@ + dec_str(rid as nat)),
    {
        let mut url = String::from_str("/v1/order-items/");
        let id = crate::text::usize_to_string(rid);
        url.append(id.as_str());
        self.api.get(url.as_str())
    }

    /// Describes the GET for the collection, filtered by the present fields.
    pub fn get_all(&self, filters: Option<OrderItemFilters>) -> (req: HttpRequest)
        ensures
            is_get(req, self.api.key@, order_items_path(filters)),
    {
        let pairs: Vec<(String, String)> = match &filters {
            Option::Some(f) => f.pairs(),
            Option::None => Vec::new(),
        };
        proof {
            if filters is None {
                assert(pairs.deep_view() =~= Seq::<(Seq<char>, Seq<char>)>::empty());
            }
        }
        let mut url = String::from_str("/v1/order-items");
        let q = build_query(&pairs);
        url.append(q.as_str());
        self.api.get(url.as_str())
    }
}

} // verus!
