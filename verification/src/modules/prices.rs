use vstd::prelude::*;

use crate::json::JVal;
use crate::query::{build_query, opt_int_pair, push_opt_int_pair, query_string};
use crate::request::{is_get, HttpRequest};
use crate::text::dec_str;
use crate::LemonSqueezy;

verus! {

/// One tier of a volume price.
pub struct Tier {
    pub last_unit: Option<JVal>,
    pub unit_price: Option<i64>,
    pub fixed_fee: Option<i64>,
}

/// A price's attributes as the API returns them.
pub struct PriceResponse {
    pub variant_id: i64,
    pub category: String,
    pub scheme: String,
    pub usage_aggregation: JVal,
    pub unit_price: i64,
    pub package_size: Option<i64>,
    pub tiers: Option<Vec<Tier>>,
    pub renewal_interval_unit: Option<String>,
    pub renewal_interval_quantity: Option<i64>,
    pub trial_interval_unit: Option<String>,
    pub trial_interval_quantity: Option<i64>,
    pub min_price: Option<JVal>,
    pub suggested_price: Option<JVal>,
    pub tax_code: Option<String>,
    pub created_at: String,
    pub updated_at: String,
}

/// Which prices to list.
pub struct PriceFilters {
    pub variant_id: Option<i64>,
}

/// The query pairs a filter emits, in declared field order.
pub open spec fn price_filter_pairs(f: PriceFilters) -> Seq<(Seq<char>, Seq<char>)> {
    opt_int_pair("variant_id"@, f.variant_id)
}

impl PriceFilters {
    /// The present filters as `(name, value)` pairs, in declared order.
    pub fn pairs(&self) -> (pairs: Vec<(String, String)>)
        ensures
            pairs.deep_view() == price_filter_pairs(*self),
    {
        let mut v: Vec<(String, String)> = Vec::new();
        proof {
            assert(v.deep_view() =~= Seq::<(Seq<char>, Seq<char>)>::empty());
        }
        push_opt_int_pair(&mut v, "variant_id", &self.variant_id);
        proof {
            assert(v.deep_view() =~= price_filter_pairs(*self));
        }
        v
    }
}

/// The collection path with the filters' query string appended.
pub open spec fn prices_path(filters: Option<PriceFilters>) -> Seq<char> {
    "/v1/prices"@ + query_string(
        match filters {
            Option::None => Seq::<(Seq<char>, Seq<char>)>::empty(),
            Option::Some(f) => price_filter_pairs(f),
        },
    )
}

/// The prices resource.
pub struct Prices {
    pub api: LemonSqueezy,
}

impl Prices {
    /// Binds the resource to a client configuration.
    pub fn build(api: LemonSqueezy) -> (s: Self)
        ensures
            s.api == api,
    {
        Prices { api }
    }

    /// Describes the GET for one resource: `/v1/prices/<id>`.
    pub fn retrieve(&self, rid: usize) -> (req: HttpRequest)
        ensures
            is_get(req, self.api.key@, "/v1/prices/"@ + dec_str(rid as nat)),
    {
        let mut url = String::from_str("/v1/prices/");
        let id = crate::text::usize_to_string(rid);
        url.append(id.as_str());
        self.api.get(url.as_str())
    }

    /// Describes the GET for the collection, filtered by the present fields.
    pub fn get_all(&self, filters: Option<PriceFilters>) -> (req: HttpRequest)
        ensures
            is_get(req, self.api.key@, prices_path(filters)),
    {
        let pairs: Vec<(String, String)> = match &filters {
            Option::Some(f) => f.pairs(),
            Option::None => Vec::new(),
        };
        proof {
            if filters is None {
                assert(pairs.deep_view() =~= Seq::<(Seq<char>, Seq<char>)>::empty());
            }
        }
        let mut url = String::from_str("/v1/prices");
        let q = build_query(&pairs);
        url.append(q.as_str());
        self.api.get(url.as_str())
    }
}

} // verus!
