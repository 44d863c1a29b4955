use vstd::prelude::*;

use crate::json::JVal;
use crate::query::{
    build_query, lemma_opt_int_pair_clean, lemma_pairs_free_of_concat,
    lemma_query_string_counts, lemma_query_string_empty, opt_int_pair, pairs_free_of,
    push_opt_int_pair, query_string,
};
use crate::text::count_char;
use crate::request::{is_form_post, is_get, HttpRequest};
use crate::text::dec_str;
use crate::LemonSqueezy;

verus! {

/// A license key's attributes as the API returns them.
pub struct LicenseKeyResponse {
    pub store_id: i64,
    pub customer_id: i64,
    pub order_id: i64,
    pub order_item_id: i64,
    pub product_id: i64,
    pub user_name: String,
    pub user_email: String,
    pub key: String,
    pub key_short: String,
    pub activation_limit: Option<i64>,
    pub instances_count: i64,
    pub disabled: bool,
    pub status: String,
    pub status_formatted: String,
    pub expires_at: Option<JVal>,
    pub created_at: String,
    pub updated_at: String,
}

/// Which license keys to list.
pub struct LicenseKeyFilters {
    pub store_id: Option<i64>,
    pub order_id: Option<i64>,
    pub order_item_id: Option<i64>,
    pub product_id: Option<i64>,
}

/// The order, product and customer a license operation reports on.
pub struct LicenseActivationMeta {
    pub store_id: i64,
    pub order_id: i64,
    pub order_item_id: i64,
    pub product_id: i64,
    pub product_name: String,
    pub variant_id: i64,
    pub variant_name: String,
    pub customer_id: i64,
    pub customer_name: String,
    pub customer_email: String,
}

/// One activated instance of a license key.
pub struct LicenseActivationInstance {
    pub id: String,
    pub name: String,
    pub created_at: String,
}

/// The license key a license operation echoes back.
pub struct LicenseActivationKey {
    pub id: i64,
    pub status: String,
    pub key: String,
    pub activation_limit: Option<i64>,
    pub activation_usage: i64,
    pub created_at: String,
    pub expires_at: Option<String>,
}

/// What an activation returns: semantic failure stays in `activated` and
/// `error`, not in the transport error.
pub struct LicenseActivationResponse {
    pub activated: bool,
    pub error: Option<String>,
    pub license_key: Option<LicenseActivationKey>,
    pub instance: Option<LicenseActivationInstance>,
    pub meta: Option<LicenseActivationMeta>,
}

/// What a validation returns.
pub struct LicenseValidationResponse {
    pub valid: bool,
    pub error: Option<String>,
    pub license_key: Option<LicenseActivationKey>,
    pub instance: Option<LicenseActivationInstance>,
    pub meta: Option<LicenseActivationMeta>,
}

/// What a deactivation returns.
pub struct LicenseDeactivationResponse {
    pub deactivated: bool,
    pub error: Option<String>,
    pub license_key: Option<LicenseActivationKey>,
    pub instance: Option<LicenseActivationInstance>,
    pub meta: Option<LicenseActivationMeta>,
}

/// The query pairs a filter emits, in declared field order.
pub open spec fn license_key_filter_pairs(f: LicenseKeyFilters) -> Seq<(Seq<char>, Seq<char>)> {
    opt_int_pair("store_id"@, f.store_id)
        + opt_int_pair("order_id"@, f.order_id)
        + opt_int_pair("order_item_id"@, f.order_item_id)
        + opt_int_pair("product_id"@, f.product_id)
}

impl LicenseKeyFilters {
    /// The present filters as `(name, value)` pairs, in declared order.
    pub fn pairs(&self) -> (pairs: Vec<(String, String)>)
        ensures
            pairs.deep_view() == license_key_filter_pairs(*self),
    {
        let mut v: Vec<(String, String)> = Vec::new();
        proof {
            assert(v.deep_view() =~= Seq::<(Seq<char>, Seq<char>)>::empty());
        }
        push_opt_int_pair(&mut v, "store_id", &self.store_id);
        push_opt_int_pair(&mut v, "order_id", &self.order_id);
        push_opt_int_pair(&mut v, "order_item_id", &self.order_item_id);
        push_opt_int_pair(&mut v, "product_id", &self.product_id);
        proof {
            assert(v.deep_view() =~= license_key_filter_pairs(*self));
        }
        v
    }
}

/// The collection path with the filters' query string appended.
pub open spec fn license_keys_path(filters: Option<LicenseKeyFilters>) -> Seq<char> {
    "/v1/license-keys"@ + query_string(
        match filters {
            Option::None => Seq::<(Seq<char>, Seq<char>)>::empty(),
            Option::Some(f) => license_key_filter_pairs(f),
        },
    )
}

/// Law: however many of the four filters are set, the emitted query string
/// is empty when none is, and otherwise holds exactly one `?` and one `&`
/// fewer than there are set filters.
pub proof fn lemma_license_key_query_counts(f: LicenseKeyFilters)
    ensures
        license_key_filter_pairs(f).len() == 0 ==> query_string(license_key_filter_pairs(f))
            == Seq::<char>::empty(),
        license_key_filter_pairs(f).len() >= 1 ==> count_char(
            query_string(license_key_filter_pairs(f)),
            '?',
        ) == 1 && count_char(query_string(license_key_filter_pairs(f)), '&')
            == license_key_filter_pairs(f).len() - 1,
{
    let pairs = license_key_filter_pairs(f);
    reveal_strlit("store_id");
    reveal_strlit("order_id");
    reveal_strlit("order_item_id");
    reveal_strlit("product_id");
    let s0 = opt_int_pair("store_id"@, f.store_id);
    let s1 = opt_int_pair("order_id"@, f.order_id);
    let s2 = opt_int_pair("order_item_id"@, f.order_item_id);
    let s3 = opt_int_pair("product_id"@, f.product_id);
    assert(pairs_free_of(pairs, '&')) by {
        lemma_opt_int_pair_clean("store_id"@, f.store_id, '&');
        lemma_opt_int_pair_clean("order_id"@, f.order_id, '&');
        lemma_opt_int_pair_clean("order_item_id"@, f.order_item_id, '&');
        lemma_opt_int_pair_clean("product_id"@, f.product_id, '&');
        lemma_pairs_free_of_concat(s0, s1, '&');
        lemma_pairs_free_of_concat(s0 + s1, s2, '&');
        lemma_pairs_free_of_concat((s0 + s1) + s2, s3, '&');
    }
    assert(pairs_free_of(pairs, '?')) by {
        lemma_opt_int_pair_clean("store_id"@, f.store_id, '?');
        lemma_opt_int_pair_clean("order_id"@, f.order_id, '?');
        lemma_opt_int_pair_clean("order_item_id"@, f.order_item_id, '?');
        lemma_opt_int_pair_clean("product_id"@, f.product_id, '?');
        lemma_pairs_free_of_concat(s0, s1, '?');
        lemma_pairs_free_of_concat(s0 + s1, s2, '?');
        lemma_pairs_free_of_concat((s0 + s1) + s2, s3, '?');
    }
    if pairs.len() == 0 {
        lemma_query_string_empty(pairs);
    } else {
        lemma_query_string_counts(pairs);
    }
}

/// The headers the license endpoints take: plain JSON, no JSON:API type.
pub open spec fn license_headers() -> Seq<(Seq<char>, Seq<char>)> {
    seq![("Accept"@, "application/json"@)]
}

fn license_header_vec() -> (h: Vec<(String, String)>)
    ensures
        h.deep_view() == license_headers(),
{
    let mut h: Vec<(String, String)> = Vec::new();
    h.push((String::from_str("Accept"), String::from_str("application/json")));
    proof {
        assert(h.deep_view() =~= license_headers());
    }
    h
}

/// The license keys resource, with its form-encoded operations.
pub struct LicenseKey {
    pub api: LemonSqueezy,
}

impl LicenseKey {
    /// Binds the resource to a client configuration.
    pub fn build(api: LemonSqueezy) -> (s: Self)
        ensures
            s.api == api,
    {
        LicenseKey { api }
    }

    /// Describes the form POST that activates a key for a new instance:
    /// fields `license_key` and `instance_name`.
    pub fn activate(&self, license_key: &str, instance_name: &str) -> (req: HttpRequest)
        ensures
            is_form_post(
                req,
                "/v1/licenses/activate"@,
                license_headers(),
                seq![("license_key"@, license_key@), ("instance_name"@, instance_name@)],
            ),
    {
        let headers = license_header_vec();
        let mut form: Vec<(String, String)> = Vec::new();
        form.push((String::from_str("license_key"), String::from_str(license_key)));
        form.push((String::from_str("instance_name"), String::from_str(instance_name)));
        proof {
            assert(form.deep_view() =~= seq![
                ("license_key"@, license_key@),
                ("instance_name"@, instance_name@),
            ]);
        }
        self.api.post_form("/v1/licenses/activate", headers, form)
    }

    /// Describes the form POST that deactivates one instance of a key:
    /// fields `license_key` and `instance_id`.
    pub fn deactivate(&self, license_key: &str, instance_id: &str) -> (req: HttpRequest)
        ensures
            is_form_post(
                req,
                "/v1/licenses/deactivate"@,
                license_headers(),
                seq![("license_key"@, license_key@), ("instance_id"@, instance_id@)],
            ),
    {
        let headers = license_header_vec();
        let mut form: Vec<(String, String)> = Vec::new();
        form.push((String::from_str("license_key"), String::from_str(license_key)));
        form.push((String::from_str("instance_id"), String::from_str(instance_id)));
        proof {
            assert(form.deep_view() =~= seq![
                ("license_key"@, license_key@),
                ("instance_id"@, instance_id@),
            ]);
        }
        self.api.post_form("/v1/licenses/deactivate", headers, form)
    }

    /// Describes the form POST that validates a key, against one instance
    /// when an instance id is given.
    pub fn validate(&self, license_key: &str, instance_id: Option<&str>) -> (req: HttpRequest)
        ensures
            is_form_post(
                req,
                "/v1/licenses/validate"@,
                license_headers(),
                seq![("license_key"@, license_key@)] + (match instance_id {
                    Option::None => Seq::<(Seq<char>, Seq<char>)>::empty(),
                    Option::Some(id) => seq![("instance_id"@, id@)],
                }),
            ),
    {
        let headers = license_header_vec();
        let mut form: Vec<(String, String)> = Vec::new();
        form.push((String::from_str("license_key"), String::from_str(license_key)));
        match instance_id {
            Option::Some(id) => {
                form.push((String::from_str("instance_id"), String::from_str(id)));
            },
            Option::None => {},
        }
        proof {
            assert(form.deep_view() =~= seq![("license_key"@, license_key@)] + (
            match instance_id {
                Option::None => Seq::<(Seq<char>, Seq<char>)>::empty(),
                Option::Some(id) => seq![("instance_id"@, id@)],
            }));
        }
        self.api.post_form("/v1/licenses/validate", headers, form)
    }

    /// Describes the GET for one resource: `/v1/license-keys/<id>`.
    pub fn retrieve(&self, rid: usize) -> (req: HttpRequest)
        ensures
            is_get(req, self.api.key@, "/v1/license-keys/"@ + dec_str(rid as nat)),
    {
        let mut url = String::from_str("/v1/license-keys/");
        let id = crate::text::usize_to_string(rid);
        url.append(id.as_str());
        self.api.get(url.as_str())
    }

    /// Describes the GET for the collection, filtered by the present fields.
    pub fn get_all(&self, filters: Option<LicenseKeyFilters>) -> (req: HttpRequest)
        ensures
            is_get(req, self.api.key@, license_keys_path(filters)),
    {
        let pairs: Vec<(String, String)> = match &filters {
            Option::Some(f) => f.pairs(),
            Option::None => Vec::new(),
        };
        proof {
            if filters is None {
                assert(pairs.deep_view() =~= Seq::<(Seq<char>, Seq<char>)>::empty());
            }
        }
        let mut url = String::from_str("/v1/license-keys");
        let q = build_query(&pairs);
        url.append(q.as_str());
        self.api.get(url.as_str())
    }

}

} // verus!
