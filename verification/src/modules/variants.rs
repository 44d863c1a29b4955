use vstd::prelude::*;

use crate::json::JVal;
use crate::query::{build_query, opt_int_pair, push_opt_int_pair, query_string};
use crate::request::{is_get, HttpRequest};
use crate::text::dec_str;
use crate::LemonSqueezy;

verus! {

/// A variant's attributes as the API returns them.
pub struct VariantResponse {
    pub product_id: i64,
    pub name: String,
    pub slug: String,
    pub description: Option<String>,
    pub price: Option<i64>,
    pub is_subscription: Option<bool>,
    pub interval: Option<JVal>,
    pub interval_count: Option<JVal>,
    pub has_free_trial: Option<bool>,
    pub trial_interval: Option<String>,
    pub trial_interval_count: Option<i64>,
    pub pay_what_you_want: Option<bool>,
    pub min_price: Option<i64>,
    pub suggested_price: Option<i64>,
    pub has_license_keys: Option<bool>,
    pub license_activation_limit: Option<i64>,
    pub is_license_limit_unlimited: Option<bool>,
    pub license_length_value: Option<i64>,
    pub license_length_unit: Option<String>,
    pub is_license_length_unlimited: Option<bool>,
    pub sort: Option<i64>,
    pub status: Option<String>,
    pub status_formatted: Option<String>,
    pub created_at: String,
    pub updated_at: String,
}

/// Which variants to list.
pub struct VariantFilters {
    pub product_id: Option<i64>,
}

/// The query pairs a filter emits, in declared field order.
pub open spec fn variant_filter_pairs(f: VariantFilters) -> Seq<(Seq<char>, Seq<char>)> {
    opt_int_pair("product_id"@, f.product_id)
}

impl VariantFilters {
    /// The present filters as `(name, value)` pairs, in declared order.
    pub fn pairs(&self) -> (pairs: Vec<(String, String)>)
        ensures
            pairs.deep_view() == variant_filter_pairs(*self),
    {
        let mut v: Vec<(String, String)> = Vec::new();
        proof {
            assert(v.deep_view() =~= Seq::<(Seq<char>, Seq<char>)>::empty());
        }
        push_opt_int_pair(&mut v, "product_id", &self.product_id);
        proof {
            assert(v.deep_view() =~= variant_filter_pairs(*self));
        }
        v
    }
}

/// The collection path with the filters' query string appended.
pub open spec fn variants_path(filters: Option<VariantFilters>) -> Seq<char> {
    "/v1/variants"@ + query_string(
        match filters {
            Option::None => Seq::<(Seq<char>, Seq<char>)>::empty(),
            Option::Some(f) => variant_filter_pairs(f),
        },
    )
}

/// The variants resource.
pub struct Variant {
    pub api: LemonSqueezy,
}

impl Variant {
    /// Binds the resource to a client configuration.
    pub fn build(api: LemonSqueezy) -> (s: Self)
        ensures
            s.api == api,
    {
        Variant { api }
    }

    /// Describes the GET for one resource: `/v1/variants/<id>`.
    pub fn retrieve(&self, rid: usize) -> (req: HttpRequest)
        ensures
            is_get(req, self.api.key@, "/v1/variants/"@ + dec_str(rid as nat)),
    {
        let mut url = String::from_str("/v1/variants/");
        let id = crate::text::usize_to_string(rid);
        url.append(id.as_str());
        self.api.get(url.as_str())
    }

    /// Describes the GET for the collection, filtered by the present fields.
    pub fn get_all(&self, filters: Option<VariantFilters>) -> (req: HttpRequest)
        ensures
            is_get(req, self.api.key@, variants_path(filters)),
    {
        let pairs: Vec<(String, String)> = match &filters {
            Option::Some(f) => f.pairs(),
            Option::None => Vec::new(),
        };
        proof {
            if filters is None {
                assert(pairs.deep_view() =~= Seq::<(Seq<char>, Seq<char>)>::empty());
            }
        }
        let mut url = String::from_str("/v1/variants");
        let q = build_query(&pairs);
        url.append(q.as_str());
        self.api.get(url.as_str())
    }
}

} // verus!
