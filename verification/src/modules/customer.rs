use vstd::prelude::*;

use crate::json::JVal;
use crate::query::{
    build_query, opt_int_pair, opt_str_pair, push_opt_int_pair, push_opt_str_pair, query_string,
};
use crate::request::{is_get, HttpRequest};
use crate::text::dec_str;
use crate::LemonSqueezy;

verus! {

/// A customer's attributes as the API returns them.
pub struct CustomerResponse {
    pub store_id: i64,
    pub name: String,
    pub email: String,
    pub status: String,
    pub city: JVal,
    pub region: JVal,
    pub country: String,
    pub total_revenue_currency: i64,
    pub mrr: i64,
    pub status_formatted: String,
    pub country_formatted: String,
    pub total_revenue_currency_formatted: String,
    pub mrr_formatted: String,
    pub created_at: String,
    pub updated_at: String,
    pub test_mode: bool,
}

/// Which customers to list; present fields become filters, in this order.
pub struct CustomerFilters {
    pub store_id: Option<i64>,
    pub email: Option<String>,
}

/// The query pairs a customer filter emits: `store_id`, then `email`.
pub open spec fn customer_filter_pairs(f: CustomerFilters) -> Seq<(Seq<char>, Seq<char>)> {
    opt_int_pair("store_id"@, f.store_id) + opt_str_pair("email"@, f.email)
}

impl CustomerFilters {
    /// The present filters as `(name, value)` pairs, in declared order.
    pub fn pairs(&self) -> (pairs: Vec<(String, String)>)
        ensures
            pairs.deep_view() == customer_filter_pairs(*self),
    {
        let mut v: Vec<(String, String)> = Vec::new();
        proof {
            assert(v.deep_view() =~= Seq::<(Seq<char>, Seq<char>)>::empty());
        }
        push_opt_int_pair(&mut v, "store_id", &self.store_id);
        push_opt_str_pair(&mut v, "email", &self.email);
        proof {
            assert(v.deep_view() =~= customer_filter_pairs(*self));
        }
        v
    }
}

/// The collection path with the filters' query string appended.
pub open spec fn customers_path(filters: Option<CustomerFilters>) -> Seq<char> {
    "/v1/customers"@ + query_string(
        match filters {
            Option::None => Seq::<(Seq<char>, Seq<char>)>::empty(),
            Option::Some(f) => customer_filter_pairs(f),
        },
    )
}

/// The customers resource.
pub struct Customer {
    pub api: LemonSqueezy,
}

impl Customer {
    /// Binds the resource to a client configuration.
    pub fn build(api: LemonSqueezy) -> (s: Self)
        ensures
            s.api == api,
    {
        Customer { api }
    }

    /// Describes the GET for one customer: `/v1/customers/<id>`.
    pub fn retrieve(&self, customer_id: usize) -> (req: HttpRequest)
        ensures
            is_get(req, self.api.key@, "/v1/customers/"@ + dec_str(customer_id as nat)),
    {
        let mut url = String::from_str("/v1/customers/");
        let id = crate::text::usize_to_string(customer_id);
        url.append(id.as_str());
        self.api.get(url.as_str())
    }

    /// Describes the GET for the collection, filtered by the present fields.
    pub fn get_all(&self, filters: Option<CustomerFilters>) -> (req: HttpRequest)
        ensures
            is_get(req, self.api.key@, customers_path(filters)),
    {
        let pairs: Vec<(String, String)> = match &filters {
            Option::Some(f) => f.pairs(),
            Option::None => Vec::new(),
        };
        proof {
            if filters is None {
                assert(pairs.deep_view() =~= Seq::<(Seq<char>, Seq<char>)>::empty());
            }
        }
        let mut url = String::from_str("/v1/customers");
        let q = build_query(&pairs);
        url.append(q.as_str());
        self.api.get(url.as_str())
    }
}

} // verus!
