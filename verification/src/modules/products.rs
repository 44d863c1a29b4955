use vstd::prelude::*;

use crate::json::JVal;
use crate::query::{build_query, opt_int_pair, push_opt_int_pair, query_string};
use crate::request::{is_get, HttpRequest};
use crate::text::dec_str;
use crate::LemonSqueezy;

verus! {

/// A product's attributes as the API returns them.
pub struct ProductResponse {
    pub store_id: i64,
    pub name: String,
    pub slug: Option<String>,
    pub description: Option<String>,
    pub status: Option<String>,
    pub status_formatted: Option<String>,
    pub thumb_url: Option<String>,
    pub large_thumb_url: Option<String>,
    pub price: Option<i64>,
    pub pay_what_you_want: Option<bool>,
    pub from_price: Option<JVal>,
    pub to_price: Option<JVal>,
    pub buy_now_url: Option<String>,
    pub price_formatted: Option<String>,
    pub created_at: String,
    pub updated_at: String,
}

/// Which products to list.
pub struct ProductFilters {
    pub store_id: Option<i64>,
}

/// The query pairs a filter emits, in declared field order.
pub open spec fn product_filter_pairs(f: ProductFilters) -> Seq<(Seq<char>, Seq<char>)> {
    opt_int_pair("store_id"@, f.store_id)
}

impl ProductFilters {
    /// The present filters as `(name, value)` pairs, in declared order.
    pub fn pairs(&self) -> (pairs: Vec<(String, String)>)
        ensures
            pairs.deep_view() == product_filter_pairs(*self),
    {
        let mut v: Vec<(String, String)> = Vec::new();
        proof {
            assert(v.deep_view() =~= Seq::<(Seq<char>, Seq<char>)>::empty());
        }
        push_opt_int_pair(&mut v, "store_id", &self.store_id);
        proof {
            assert(v.deep_view() =~= product_filter_pairs(*self));
        }
        v
    }
}

/// The collection path with the filters' query string appended.
pub open spec fn products_path(filters: Option<ProductFilters>) -> Seq<char> {
    "/v1/products"@ + query_string(
        match filters {
            Option::None => Seq::<(Seq<char>, Seq<char>)>::empty(),
            Option::Some(f) => product_filter_pairs(f),
        },
    )
}

/// The products resource.
pub struct Product {
    pub api: LemonSqueezy,
}

impl Product {
    /// Binds the resource to a client configuration.
    pub fn build(api: LemonSqueezy) -> (s: Self)
        ensures
            s.api == api,
    {
        Product { api }
    }

    /// Describes the GET for one resource: `/v1/products/<id>`.
    pub fn retrieve(&self, rid: usize) -> (req: HttpRequest)
        ensures
            is_get(req, self.api.key@, "/v1/products/"@ + dec_str(rid as nat)),
    {
        let mut url = String::from_str("/v1/products/");
        let id = crate::text::usize_to_string(rid);
        url.append(id.as_str());
        self.api.get(url.as_str())
    }

    /// Describes the GET for the collection, filtered by the present fields.
    pub fn get_all(&self, filters: Option<ProductFilters>) -> (req: HttpRequest)
        ensures
            is_get(req, self.api.key@, products_path(filters)),
    {
        let pairs: Vec<(String, String)> = match &filters {
            Option::Some(f) => f.pairs(),
            Option::None => Vec::new(),
        };
        proof {
            if filters is None {
                assert(pairs.deep_view() =~= Seq::<(Seq<char>, Seq<char>)>::empty());
            }
        }
        let mut url = String::from_str("/v1/products");
        let q = build_query(&pairs);
        url.append(q.as_str());
        self.api.get(url.as_str())
    }
}

} // verus!
