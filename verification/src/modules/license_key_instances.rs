use vstd::prelude::*;

use crate::query::{
    build_query, lemma_opt_usize_pair_clean, lemma_query_string_empty,
    lemma_query_string_single, opt_usize_pair, push_opt_usize_pair, query_string, qunit,
};
use crate::text::count_char;
use crate::request::{is_get, HttpRequest};
use crate::text::dec_str;
use crate::LemonSqueezy;

verus! {

/// A license key instance's attributes as the API returns them.
pub struct LicenseKeyInstancesResponse {
    pub license_key_id: i64,
    pub identifier: String,
    pub name: String,
    pub created_at: String,
    pub updated_at: String,
}

/// Which license key instances to list.
pub struct LicenseKeyInstancesFilters {
    pub license_key_id: Option<usize>,
}

/// The query pairs a filter emits, in declared field order.
pub open spec fn license_key_instance_filter_pairs(f: LicenseKeyInstancesFilters) -> Seq<
    (Seq<char>, Seq<char>),
> {
    opt_usize_pair("license_key_id"@, f.license_key_id)
}

impl LicenseKeyInstancesFilters {
    /// The present filters as `(name, value)` pairs, in declared order.
    pub fn pairs(&self) -> (pairs: Vec<(String, String)>)
        ensures
            pairs.deep_view() == license_key_instance_filter_pairs(*self),
    {
        let mut v: Vec<(String, String)> = Vec::new();
        proof {
            assert(v.deep_view() =~= Seq::<(Seq<char>, Seq<char>)>::empty());
        }
        push_opt_usize_pair(&mut v, "license_key_id", &self.license_key_id);
        proof {
            assert(v.deep_view() =~= license_key_instance_filter_pairs(*self));
        }
        v
    }
}

/// The collection path with the filters' query string appended.
pub open spec fn license_key_instances_path(
    filters: Option<LicenseKeyInstancesFilters>,
) -> Seq<char> {
    "/v1/license-key-instances"@ + query_string(
        match filters {
            Option::None => Seq::<(Seq<char>, Seq<char>)>::empty(),
            Option::Some(f) => license_key_instance_filter_pairs(f),
        },
    )
}

/// Law: with no filter set the query string is empty; with the one filter
/// set it is exactly `?filter[license_key_id]=<id>`, with no `&` in it.
pub proof fn lemma_license_key_instance_query(f: LicenseKeyInstancesFilters)
    ensures
        f.license_key_id is None ==> query_string(license_key_instance_filter_pairs(f))
            == Seq::<char>::empty(),
        f.license_key_id matches Some(id) ==> query_string(license_key_instance_filter_pairs(f))
            == seq!['?'] + qunit("license_key_id"@, dec_str(id as nat)) && count_char(
            query_string(license_key_instance_filter_pairs(f)),
            '&',
        ) == 0,
{
    let pairs = license_key_instance_filter_pairs(f);
    reveal_strlit("license_key_id");
    match f.license_key_id {
        Option::None => {
            lemma_query_string_empty(pairs);
        },
        Option::Some(id) => {
            lemma_opt_usize_pair_clean("license_key_id"@, f.license_key_id, '&');
            lemma_query_string_single(pairs);
        },
    }
}

/// The license key instances resource.
pub struct LicenseKeyInstances {
    pub api: LemonSqueezy,
}

impl LicenseKeyInstances {
    /// Binds the resource to a client configuration.
    pub fn build(api: LemonSqueezy) -> (s: Self)
        ensures
            s.api == api,
    {
        LicenseKeyInstances { api }
    }

    /// Describes the GET for one resource: `/v1/license-key-instances/<id>`.
    pub fn retrieve(&self, rid: usize) -> (req: HttpRequest)
        ensures
            is_get(req, self.api.key@, "/v1/license-key-instances/"@ + dec_str(rid as nat)),
    {
        let mut url = String::from_str("/v1/license-key-instances/");
        let id = crate::text::usize_to_string(rid);
        url.append(id.as_str());
        self.api.get(url.as_str())
    }

    /// Describes the GET for the collection, filtered by the present fields.
    pub fn get_all(&self, filters: Option<LicenseKeyInstancesFilters>) -> (req: HttpRequest)
        ensures
            is_get(req, self.api.key@, license_key_instances_path(filters)),
    {
        let pairs: Vec<(String, String)> = match &filters {
            Option::Some(f) => f.pairs(),
            Option::None => Vec::new(),
        };
        proof {
            if filters is None {
                assert(pairs.deep_view() =~= Seq::<(Seq<char>, Seq<char>)>::empty());
            }
        }
        let mut url = String::from_str("/v1/license-key-instances");
        let q = build_query(&pairs);
        url.append(q.as_str());
        self.api.get(url.as_str())
    }
}

} // verus!
