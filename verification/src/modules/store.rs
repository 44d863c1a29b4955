use vstd::prelude::*;

use crate::request::{is_get, HttpRequest};
use crate::text::dec_str;
use crate::LemonSqueezy;

verus! {

/// A store's attributes as the API returns them.
pub struct StoreResponse {
    pub name: String,
    pub slug: String,
    pub domain: String,
    pub url: String,
    pub avatar_url: String,
    pub plan: String,
    pub country: String,
    pub country_nicename: String,
    pub currency: String,
    pub total_sales: i64,
    pub total_revenue: i64,
    pub thirty_day_sales: i64,
    pub thirty_day_revenue: i64,
    pub created_at: String,
    pub updated_at: String,
}

/// The stores resource.
pub struct Store {
    pub api: LemonSqueezy,
}

impl Store {
    /// Binds the resource to a client configuration.
    pub fn build(api: LemonSqueezy) -> (s: Self)
        ensures
            s.api == api,
    {
        Store { api }
    }

    /// Describes the GET for one store: `/v1/stores/<id>`.
    pub fn retrieve(&self, store_id: usize) -> (req: HttpRequest)
        ensures
            is_get(req, self.api.key@, "/v1/stores/"@ + dec_str(store_id as nat)),
    {
        let mut url = String::from_str("/v1/stores/");
        let id = crate::text::usize_to_string(store_id);
        url.append(id.as_str());
        self.api.get(url.as_str())
    }

    /// Describes the GET for every store; stores take no filters.
    pub fn get_all(&self) -> (req: HttpRequest)
        ensures
            is_get(req, self.api.key@, "/v1/stores"@),
    {
        self.api.get("/v1/stores")
    }
}

} // verus!
