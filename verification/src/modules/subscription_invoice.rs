use vstd::prelude::*;

use crate::json::JVal;
use crate::query::{
    build_query, lemma_opt_bool_pair_clean, lemma_opt_int_pair_clean, lemma_opt_str_pair_clean,
    lemma_pairs_free_of_concat, lemma_query_string_counts, lemma_query_string_empty,
    opt_bool_pair, opt_int_pair, opt_str_pair, pairs_free_of, push_opt_bool_pair,
    push_opt_int_pair, push_opt_str_pair, query_string,
};
use crate::text::{count_char, free_of};
use crate::request::{is_get, HttpRequest};
use crate::text::dec_str;
use crate::LemonSqueezy;

verus! {

/// A subscription invoice's attributes as the API returns them.
pub struct SubscriptionInvoiceResponse {
    pub store_id: i64,
    pub subscription_id: i64,
    pub customer_id: i64,
    pub user_name: String,
    pub user_email: String,
    pub billing_reason: String,
    pub card_brand: String,
    pub card_last_four: String,
    pub currency: String,
    pub currency_rate: String,
    pub subtotal: i64,
    pub discount_total: i64,
    pub tax: i64,
    pub total: i64,
    pub subtotal_usd: i64,
    pub discount_total_usd: i64,
    pub tax_usd: i64,
    pub total_usd: i64,
    pub status: String,
    pub status_formatted: String,
    pub refunded: bool,
    pub refunded_at: Option<JVal>,
    pub subtotal_formatted: String,
    pub discount_total_formatted: String,
    pub tax_formatted: String,
    pub total_formatted: String,
    pub urls: Urls,
    pub created_at: String,
    pub updated_at: String,
    pub test_mode: bool,
}

/// Links that come with an invoice.
pub struct Urls {
    pub invoice_url: String,
}

/// Which invoices to list.
pub struct SubscriptionInvoiceFilter {
    pub store_id: Option<i64>,
    pub status: Option<String>,
    pub refunded: Option<bool>,
    pub subscription_id: Option<i64>,
}

/// The query pairs a filter emits, in declared field order.
pub open spec fn subscription_invoice_filter_pairs(f: SubscriptionInvoiceFilter) -> Seq<
    (Seq<char>, Seq<char>),
> {
    opt_int_pair("store_id"@, f.store_id)
        + opt_str_pair("status"@, f.status)
        + opt_bool_pair("refunded"@, f.refunded)
        + opt_int_pair("subscription_id"@, f.subscription_id)
}

impl SubscriptionInvoiceFilter {
    /// The present filters as `(name, value)` pairs, in declared order.
    pub fn pairs(&self) -> (pairs: Vec<(String, String)>)
        ensures
            pairs.deep_view() == subscription_invoice_filter_pairs(*self),
    {
        let mut v: Vec<(String, String)> = Vec::new();
        proof {
            assert(v.deep_view() =~= Seq::<(Seq<char>, Seq<char>)>::empty());
        }
        push_opt_int_pair(&mut v, "store_id", &self.store_id);
        push_opt_str_pair(&mut v, "status", &self.status);
        push_opt_bool_pair(&mut v, "refunded", &self.refunded);
        push_opt_int_pair(&mut v, "subscription_id", &self.subscription_id);
        proof {
            assert(v.deep_view() =~= subscription_invoice_filter_pairs(*self));
        }
        v
    }
}

/// The collection path with the filters' query string appended.
pub open spec fn subscription_invoices_path(
    filters: Option<SubscriptionInvoiceFilter>,
) -> Seq<char> {
    "/v1/subscription-invoices"@ + query_string(
        match filters {
            Option::None => Seq::<(Seq<char>, Seq<char>)>::empty(),
            Option::Some(f) => subscription_invoice_filter_pairs(f),
        },
    )
}

/// Law: for a status value without separator characters, the emitted query
/// string is empty when no filter is set, and otherwise holds exactly one
/// `?` and one `&` fewer than there are set filters.
pub proof fn lemma_subscription_invoice_query_counts(f: SubscriptionInvoiceFilter)
    requires
        f.status matches Some(s) ==> free_of(s@, '&') && free_of(s@, '?'),
    ensures
        subscription_invoice_filter_pairs(f).len() == 0 ==> query_string(
            subscription_invoice_filter_pairs(f),
        ) == Seq::<char>::empty(),
        subscription_invoice_filter_pairs(f).len() >= 1 ==> count_char(
            query_string(subscription_invoice_filter_pairs(f)),
            '?',
        ) == 1 && count_char(query_string(subscription_invoice_filter_pairs(f)), '&')
            == subscription_invoice_filter_pairs(f).len() - 1,
{
    let pairs = subscription_invoice_filter_pairs(f);
    reveal_strlit("store_id");
    reveal_strlit("status");
    reveal_strlit("refunded");
    reveal_strlit("subscription_id");
    let s0 = opt_int_pair("store_id"@, f.store_id);
    let s1 = opt_str_pair("status"@, f.status);
    let s2 = opt_bool_pair("refunded"@, f.refunded);
    let s3 = opt_int_pair("subscription_id"@, f.subscription_id);
    assert(pairs_free_of(pairs, '&')) by {
        lemma_opt_int_pair_clean("store_id"@, f.store_id, '&');
        lemma_opt_str_pair_clean("status"@, f.status, '&');
        lemma_opt_bool_pair_clean("refunded"@, f.refunded, '&');
        lemma_opt_int_pair_clean("subscription_id"@, f.subscription_id, '&');
        lemma_pairs_free_of_concat(s0, s1, '&');
        lemma_pairs_free_of_concat(s0 + s1, s2, '&');
        lemma_pairs_free_of_concat((s0 + s1) + s2, s3, '&');
    }
    assert(pairs_free_of(pairs, '?')) by {
        lemma_opt_int_pair_clean("store_id"@, f.store_id, '?');
        lemma_opt_str_pair_clean("status"@, f.status, '?');
        lemma_opt_bool_pair_clean("refunded"@, f.refunded, '?');
        lemma_opt_int_pair_clean("subscription_id"@, f.subscription_id, '?');
        lemma_pairs_free_of_concat(s0, s1, '?');
        lemma_pairs_free_of_concat(s0 + s1, s2, '?');
        lemma_pairs_free_of_concat((s0 + s1) + s2, s3, '?');
    }
    if pairs.len() == 0 {
        lemma_query_string_empty(pairs);
    } else {
        lemma_query_string_counts(pairs);
    }
}

/// The subscription invoices resource.
pub struct SubscriptionInvoice {
    pub api: LemonSqueezy,
}

impl SubscriptionInvoice {
    /// Binds the resource to a client configuration.
    pub fn build(api: LemonSqueezy) -> (s: Self)
        ensures
            s.api == api,
    {
        SubscriptionInvoice { api }
    }

    /// Describes the GET for one resource: `/v1/subscription-invoices/<id>`.
    pub fn retrieve(&self, rid: usize) -> (req: HttpRequest)
        ensures
            is_get(req, self.api.key@, "/v1/subscription-invoices/"@ + dec_str(rid as nat)),
    {
        let mut url = String::from_str("/v1/subscription-invoices/");
        let id = crate::text::usize_to_string(rid);
        url.append(id.as_str());
        self.api.get(url.as_str())
    }

    /// Describes the GET for the collection, filtered by the present fields.
    pub fn get_all(&self, filters: Option<SubscriptionInvoiceFilter>) -> (req: HttpRequest)
        ensures
            is_get(req, self.api.key@, subscription_invoices_path(filters)),
    {
        let pairs: Vec<(String, String)> = match &filters {
            Option::Some(f) => f.pairs(),
            Option::None => Vec::new(),
        };
        proof {
            if filters is None {
                assert(pairs.deep_view() =~= Seq::<(Seq<char>, Seq<char>)>::empty());
            }
        }
        let mut url = String::from_str("/v1/subscription-invoices");
        let q = build_query(&pairs);
        url.append(q.as_str());
        self.api.get(url.as_str())
    }

}

} // verus!
