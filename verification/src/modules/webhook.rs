use vstd::prelude::*;

pub use crate::modules::license_keys::LicenseKeyResponse;
pub use crate::modules::orders::OrderResponse;
pub use crate::modules::subscriptions::SubscriptionResponse;
pub use crate::types::webhook::{
    CreateWebhook, CreateWebhookAttributes, CreateWebhookRelationShipData,
    CreateWebhookRelationships, UpdateWebhook, UpdateWebhookAttributes,
    UpdateWebhookRelationShipData, UpdateWebhookRelationships,
};

use crate::json::{data_body, jdata_wrap, json_text, ToJson};
use crate::query::{build_query, opt_int_pair, push_opt_int_pair, query_string};
use crate::request::{is_delete, is_get, is_patch, is_post, HttpRequest};
use crate::text::int_str;
use crate::LemonSqueezy;

verus! {

/// A webhook event carrying an order.
pub struct WebhookOrderEvent<T> {
    pub meta: WebhookEventMeta<T>,
    pub data: WebhookOrderData,
}

/// A webhook event carrying a subscription.
pub struct WebhookSuscriptionEvent<T> {
    pub meta: WebhookEventMeta<T>,
    pub data: WebhookSubscriptionData,
}

/// A webhook event carrying a license key.
pub struct WebhookLicenseEvent<T> {
    pub meta: WebhookEventMeta<T>,
    pub data: WebhookLicenseData,
}

/// What every webhook event carries: the event's name and the custom data
/// the webhook was registered with.
pub struct WebhookEventMeta<T> {
    pub event_name: String,
    pub custom_data: T,
}

/// The order a webhook event reports.
pub struct WebhookOrderData {
    pub type_: String,
    pub id: i64,
    pub attributes: OrderResponse,
    pub relationships: WebhookRelationships,
    pub links: WebhookLinks,
}

/// The subscription a webhook event reports.
pub struct WebhookSubscriptionData {
    pub type_: String,
    pub id: i64,
    pub attributes: SubscriptionResponse,
    pub relationships: WebhookRelationships,
    pub links: WebhookLinks,
}

/// The license key a webhook event reports.
pub struct WebhookLicenseData {
    pub type_: String,
    pub id: i64,
    pub attributes: LicenseKeyResponse,
    pub relationships: WebhookRelationships,
    pub links: WebhookLinks,
}

/// The related resources a webhook event links to.
pub struct WebhookRelationships {
    pub store: RelationshipLinks,
    pub customer: RelationshipLinks,
    pub order_items: RelationshipLinks,
    pub subscriptions: RelationshipLinks,
    pub license_keys: RelationshipLinks,
    pub discount_redemptions: RelationshipLinks,
}

/// The pair of links a relationship carries.
pub struct RelationshipLinks {
    pub related: String,
    pub link_self: String,
}

/// The self link of a webhook event.
pub struct WebhookLinks {
    pub link_self: String,
}

/// Which webhooks to list.
pub struct WebhookRedemptionsFilters {
    pub order_id: Option<i64>,
    pub discount_id: Option<i64>,
}

/// A webhook's attributes as the API returns them.
pub struct WebhookResponse {
    pub store_id: i64,
    pub url: String,
    pub events: Vec<String>,
    pub last_sent_at: Option<String>,
    pub created_at: String,
    pub updated_at: String,
    pub test_mode: bool,
}

/// The query pairs a filter emits, in declared field order.
pub open spec fn webhook_filter_pairs(f: WebhookRedemptionsFilters) -> Seq<(Seq<char>, Seq<char>)> {
    opt_int_pair("order_id"@, f.order_id) + opt_int_pair("discount_id"@, f.discount_id)
}

impl WebhookRedemptionsFilters {
    /// The present filters as `(name, value)` pairs, in declared order.
    pub fn pairs(&self) -> (pairs: Vec<(String, String)>)
        ensures
            pairs.deep_view() == webhook_filter_pairs(*self),
    {
        let mut v: Vec<(String, String)> = Vec::new();
        proof {
            assert(v.deep_view() =~= Seq::<(Seq<char>, Seq<char>)>::empty());
        }
        push_opt_int_pair(&mut v, "order_id", &self.order_id);
        push_opt_int_pair(&mut v, "discount_id", &self.discount_id);
        proof {
            assert(v.deep_view() =~= webhook_filter_pairs(*self));
        }
        v
    }
}

/// The collection path with the filters' query string appended.
pub open spec fn webhooks_path(filters: Option<WebhookRedemptionsFilters>) -> Seq<char> {
    "/v1/webhooks"@ + query_string(
        match filters {
            Option::None => Seq::<(Seq<char>, Seq<char>)>::empty(),
            Option::Some(f) => webhook_filter_pairs(f),
        },
    )
}

/// The webhooks resource.
pub struct Webhook {
    pub api: LemonSqueezy,
}

impl Webhook {
    /// Binds the resource to a client configuration.
    pub fn build(api: LemonSqueezy) -> (s: Self)
        ensures
            s.api == api,
    {
        Webhook { api }
    }

    /// Describes the GET for one resource: `/v1/webhooks/<id>`.
    pub fn retrieve(&self, webhook_id: i64) -> (req: HttpRequest)
        ensures
            is_get(req, self.api.key@, "/v1/webhooks/"@ + int_str(webhook_id as int)),
    {
        let mut url = String::from_str("/v1/webhooks/");
        let id = crate::text::i64_to_string(webhook_id);
        url.append(id.as_str());
        self.api.get(url.as_str())
    }

    /// Describes the DELETE for one webhook.
    pub fn delete(&self, webhook_id: i64) -> (req: HttpRequest)
        ensures
            is_delete(req, self.api.key@, "/v1/webhooks/"@ + int_str(webhook_id as int)),
    {
        let mut url = String::from_str("/v1/webhooks/");
        let id = crate::text::i64_to_string(webhook_id);
        url.append(id.as_str());
        self.api.delete(url.as_str())
    }

    /// Describes the GET for the collection, filtered by the present fields.
    pub fn get_all(&self, filters: Option<WebhookRedemptionsFilters>) -> (req: HttpRequest)
        ensures
            is_get(req, self.api.key@, webhooks_path(filters)),
    {
        let pairs: Vec<(String, String)> = match &filters {
            Option::Some(f) => f.pairs(),
            Option::None => Vec::new(),
        };
        proof {
            if filters is None {
                assert(pairs.deep_view() =~= Seq::<(Seq<char>, Seq<char>)>::empty());
            }
        }
        let mut url = String::from_str("/v1/webhooks");
        let q = build_query(&pairs);
        url.append(q.as_str());
        self.api.get(url.as_str())
    }

    /// Describes the POST that creates a webhook: the payload wrapped as
    /// `{"data": ...}`.
    pub fn create(&self, data: CreateWebhook) -> (req: HttpRequest)
        ensures
            is_post(req, self.api.key@, "/v1/webhooks"@, json_text(jdata_wrap(data.json_of()))),
    {
        let body = data_body(&data);
        self.api.post("/v1/webhooks", body)
    }

    /// Describes the PATCH that updates a webhook, sent to the id the payload
    /// carries, with the payload wrapped as `{"data": ...}`.
    pub fn update(&self, data: UpdateWebhook) -> (req: HttpRequest)
        ensures
            is_patch(
                req,
                self.api.key@,
                "/v1/webhooks/"@ + data.id@,
                json_text(jdata_wrap(data.json_of())),
            ),
    {
        let mut url = String::from_str("/v1/webhooks/");
        url.append(data.id.as_str());
        let body = data_body(&data);
        self.api.patch(url.as_str(), body)
    }
}

} // verus!
