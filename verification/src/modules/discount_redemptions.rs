use vstd::prelude::*;

use crate::query::{build_query, opt_int_pair, push_opt_int_pair, query_string};
use crate::request::{is_get, HttpRequest};
use crate::text::dec_str;
use crate::LemonSqueezy;

verus! {

/// A discount redemption's attributes as the API returns them.
pub struct DiscountRedemptionsResponse {
    pub discount_id: i64,
    pub order_id: i64,
    pub discount_name: String,
    pub discount_code: String,
    pub discount_amount: i64,
    pub discount_amount_type: String,
    pub amount: i64,
    pub created_at: String,
    pub updated_at: String,
}

/// Which redemptions to list.
pub struct DiscountRedemptionsFilters {
    pub order_id: Option<i64>,
    pub discount_id: Option<i64>,
}

/// The query pairs a filter emits, in declared field order.
pub open spec fn discount_redemption_filter_pairs(f: DiscountRedemptionsFilters) -> Seq<
    (Seq<char>, Seq<char>),
> {
    opt_int_pair("order_id"@, f.order_id) + opt_int_pair("discount_id"@, f.discount_id)
}

impl DiscountRedemptionsFilters {
    /// The present filters as `(name, value)` pairs, in declared order.
    pub fn pairs(&self) -> (pairs: Vec<(String, String)>)
        ensures
            pairs.deep_view() == discount_redemption_filter_pairs(*self),
    {
        let mut v: Vec<(String, String)> = Vec::new();
        proof {
            assert(v.deep_view() =~= Seq::<(Seq<char>, Seq<char>)>::empty());
        }
        push_opt_int_pair(&mut v, "order_id", &self.order_id);
        push_opt_int_pair(&mut v, "discount_id", &self.discount_id);
        proof {
            assert(v.deep_view() =~= discount_redemption_filter_pairs(*self));
        }
        v
    }
}

/// The collection path with the filters' query string appended.
pub open spec fn discount_redemptions_path(
    filters: Option<DiscountRedemptionsFilters>,
) -> Seq<char> {
    "/v1/discount-redemptions"@ + query_string(
        match filters {
            Option::None => Seq::<(Seq<char>, Seq<char>)>::empty(),
            Option::Some(f) => discount_redemption_filter_pairs(f),
        },
    )
}

/// The discount redemptions resource.
pub struct DiscountRedemptions {
    pub api: LemonSqueezy,
}

impl DiscountRedemptions {
    /// Binds the resource to a client configuration.
    pub fn build(api: LemonSqueezy) -> (s: Self)
        ensures
            s.api == api,
    {
        DiscountRedemptions { api }
    }

    /// Describes the GET for one resource: `/v1/discount-redemptions/<id>`.
    pub fn retrieve(&self, rid: usize) -> (req: HttpRequest)
        ensures
            is_get(req, self.api.key@, "/v1/discount-redemptions/"@ + dec_str(rid as nat)),
    {
        let mut url = String::from_str("/v1/discount-redemptions/");
        let id = crate::text::usize_to_string(rid);
        url.append(id.as_str());
        self.api.get(url.as_str())
    }

    /// Describes the GET for the collection, filtered by the present fields.
    pub fn get_all(&self, filters: Option<DiscountRedemptionsFilters>) -> (req: HttpRequest)
        ensures
            is_get(req, self.api.key@, discount_redemptions_path(filters)),
    {
        let pairs: Vec<(String, String)> = match &filters {
            Option::Some(f) => f.pairs(),
            Option::None => Vec::new(),
        };
        proof {
            if filters is None {
                assert(pairs.deep_view() =~= Seq::<(Seq<char>, Seq<char>)>::empty());
            }
        }
        let mut url = String::from_str("/v1/discount-redemptions");
        let q = build_query(&pairs);
        url.append(q.as_str());
        self.api.get(url.as_str())
    }
}

} // verus!
