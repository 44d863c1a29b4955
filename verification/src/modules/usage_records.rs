use vstd::prelude::*;

use crate::json::{
    json_text, jview_obj, lemma_opt_field_key, obj_has_key, opt_field, push_opt_field,
    push_req_field, req_field, to_text, JSpec, JVal, ToJson,
};
use crate::query::{build_query, opt_int_pair, push_opt_int_pair, query_string};
use crate::request::{is_get, is_post, HttpRequest};
use crate::text::dec_str;
use crate::LemonSqueezy;

verus! {

/// A usage record's attributes as the API returns them.
pub struct UsageRecordResponse {
    pub subscription_item_id: i64,
    pub quantity: i64,
    pub created_at: String,
    pub updated_at: String,
}

/// The payload that creates a usage record; it carries its own `data`
/// wrapper.
pub struct CreateUsageRecord {
    pub data: CreateUsageRecordData,
}

/// The resource object a new usage record sends.
pub struct CreateUsageRecordData {
    pub type_: String,
    pub attributes: CreateUsageRecordAttributes,
    pub relationships: CreateUsageRecordRelationships,
}

/// How much usage to report, and how to count it.
pub struct CreateUsageRecordAttributes {
    pub quantity: i64,
    pub action: String,
}

/// The subscription item a usage record belongs to.
pub struct CreateUsageRecordRelationships {
    pub subscription_item: CreateUsageRecordSubscriptionItem,
}

/// The wrapper around the subscription item reference.
pub struct CreateUsageRecordSubscriptionItem {
    pub data: CreateUsageRecordSubscriptionItemData,
}

/// The reference to the subscription item.
pub struct CreateUsageRecordSubscriptionItemData {
    pub type_: String,
    pub id: String,
}

/// The change an update sends; `quantity` is omitted when unset.
pub struct UsageRecordPatchRequest {
    pub quantity: Option<i64>,
}

impl ToJson for CreateUsageRecordSubscriptionItemData {
    open spec fn json_of(&self) -> JSpec {
        JSpec::Obj(
            req_field("type"@, self.type_)
            + req_field("id"@, self.id),
        )
    }

    fn to_json(&self) -> (r: JVal) {
        let mut fields: Vec<(String, JVal)> = Vec::new();
        proof {
            assert(jview_obj(fields@) =~= Seq::<(Seq<char>, JSpec)>::empty());
        }
        push_req_field(&mut fields, "type", &self.type_);
        push_req_field(&mut fields, "id", &self.id);
        let r = JVal::Obj(fields);
        proof {
            assert(jview_obj(fields@) =~= (
            req_field("type"@, self.type_)
            + req_field("id"@, self.id)));
        }
        r
    }
}

impl ToJson for CreateUsageRecordSubscriptionItem {
    open spec fn json_of(&self) -> JSpec {
        JSpec::Obj(
            req_field("data"@, self.data),
        )
    }

    fn to_json(&self) -> (r: JVal) {
        let mut fields: Vec<(String, JVal)> = Vec::new();
        proof {
            assert(jview_obj(fields@) =~= Seq::<(Seq<char>, JSpec)>::empty());
        }
        push_req_field(&mut fields, "data", &self.data);
        let r = JVal::Obj(fields);
        proof {
            assert(jview_obj(fields@) =~= (
            req_field("data"@, self.data)));
        }
        r
    }
}

impl ToJson for CreateUsageRecordRelationships {
    open spec fn json_of(&self) -> JSpec {
        JSpec::Obj(
            req_field("subscription-item"@, self.subscription_item),
        )
    }

    fn to_json(&self) -> (r: JVal) {
        let mut fields: Vec<(String, JVal)> = Vec::new();
        proof {
            assert(jview_obj(fields@) =~= Seq::<(Seq<char>, JSpec)>::empty());
        }
        push_req_field(&mut fields, "subscription-item", &self.subscription_item);
        let r = JVal::Obj(fields);
        proof {
            assert(jview_obj(fields@) =~= (
            req_field("subscription-item"@, self.subscription_item)));
        }
        r
    }
}

impl ToJson for CreateUsageRecordAttributes {
    open spec fn json_of(&self) -> JSpec {
        JSpec::Obj(
            req_field("quantity"@, self.quantity)
            + req_field("action"@, self.action),
        )
    }

    fn to_json(&self) -> (r: JVal) {
        let mut fields: Vec<(String, JVal)> = Vec::new();
        proof {
            assert(jview_obj(fields@) =~= Seq::<(Seq<char>, JSpec)>::empty());
        }
        push_req_field(&mut fields, "quantity", &self.quantity);
        push_req_field(&mut fields, "action", &self.action);
        let r = JVal::Obj(fields);
        proof {
            assert(jview_obj(fields@) =~= (
            req_field("quantity"@, self.quantity)
            + req_field("action"@, self.action)));
        }
        r
    }
}

impl ToJson for CreateUsageRecordData {
    open spec fn json_of(&self) -> JSpec {
        JSpec::Obj(
            req_field("type"@, self.type_)
            + req_field("attributes"@, self.attributes)
            + req_field("relationships"@, self.relationships),
        )
    }

    fn to_json(&self) -> (r: JVal) {
        let mut fields: Vec<(String, JVal)> = Vec::new();
        proof {
            assert(jview_obj(fields@) =~= Seq::<(Seq<char>, JSpec)>::empty());
        }
        push_req_field(&mut fields, "type", &self.type_);
        push_req_field(&mut fields, "attributes", &self.attributes);
        push_req_field(&mut fields, "relationships", &self.relationships);
        let r = JVal::Obj(fields);
        proof {
            assert(jview_obj(fields@) =~= (
            req_field("type"@, self.type_)
            + req_field("attributes"@, self.attributes)
            + req_field("relationships"@, self.relationships)));
        }
        r
    }
}

impl ToJson for CreateUsageRecord {
    open spec fn json_of(&self) -> JSpec {
        JSpec::Obj(
            req_field("data"@, self.data),
        )
    }

    fn to_json(&self) -> (r: JVal) {
        let mut fields: Vec<(String, JVal)> = Vec::new();
        proof {
            assert(jview_obj(fields@) =~= Seq::<(Seq<char>, JSpec)>::empty());
        }
        push_req_field(&mut fields, "data", &self.data);
        let r = JVal::Obj(fields);
        proof {
            assert(jview_obj(fields@) =~= (
            req_field("data"@, self.data)));
        }
        r
    }
}

impl ToJson for UsageRecordPatchRequest {
    open spec fn json_of(&self) -> JSpec {
        JSpec::Obj(
            opt_field("quantity"@, self.quantity),
        )
    }

    fn to_json(&self) -> (r: JVal) {
        let mut fields: Vec<(String, JVal)> = Vec::new();
        proof {
            assert(jview_obj(fields@) =~= Seq::<(Seq<char>, JSpec)>::empty());
        }
        push_opt_field(&mut fields, "quantity", &self.quantity);
        let r = JVal::Obj(fields);
        proof {
            assert(jview_obj(fields@) =~= (
            opt_field("quantity"@, self.quantity)));
        }
        r
    }
}

/// Law: the serialized change carries `quantity` exactly when it is set.
pub proof fn lemma_usage_record_patch_keys(a: UsageRecordPatchRequest, k: Seq<char>)
    ensures
        obj_has_key(a.json_of(), k) <==> ((k == "quantity"@ && a.quantity is Some)),
{
    let s0 = opt_field("quantity"@, a.quantity);
    lemma_opt_field_key("quantity"@, a.quantity, k);

}

/// Which usage records to list.
pub struct UsageRecordFilters {
    pub subscription_item_id: Option<i64>,
}

/// The query pairs a filter emits, in declared field order.
pub open spec fn usage_record_filter_pairs(f: UsageRecordFilters) -> Seq<(Seq<char>, Seq<char>)> {
    opt_int_pair("subscription_item_id"@, f.subscription_item_id)
}

impl UsageRecordFilters {
    /// The present filters as `(name, value)` pairs, in declared order.
    pub fn pairs(&self) -> (pairs: Vec<(String, String)>)
        ensures
            pairs.deep_view() == usage_record_filter_pairs(*self),
    {
        let mut v: Vec<(String, String)> = Vec::new();
        proof {
            assert(v.deep_view() =~= Seq::<(Seq<char>, Seq<char>)>::empty());
        }
        push_opt_int_pair(&mut v, "subscription_item_id", &self.subscription_item_id);
        proof {
            assert(v.deep_view() =~= usage_record_filter_pairs(*self));
        }
        v
    }
}

/// The collection path with the filters' query string appended.
pub open spec fn usage_records_path(filters: Option<UsageRecordFilters>) -> Seq<char> {
    "/v1/usage-records"@ + query_string(
        match filters {
            Option::None => Seq::<(Seq<char>, Seq<char>)>::empty(),
            Option::Some(f) => usage_record_filter_pairs(f),
        },
    )
}

/// The usage records resource.
pub struct UsageRecords {
    pub api: LemonSqueezy,
}

impl UsageRecords {
    /// Binds the resource to a client configuration.
    pub fn build(api: LemonSqueezy) -> (s: Self)
        ensures
            s.api == api,
    {
        UsageRecords { api }
    }

    /// Describes the GET for one resource: `/v1/usage-records/<id>`.
    pub fn retrieve(&self, rid: usize) -> (req: HttpRequest)
        ensures
            is_get(req, self.api.key@, "/v1/usage-records/"@ + dec_str(rid as nat)),
    {
        let mut url = String::from_str("/v1/usage-records/");
        let id = crate::text::usize_to_string(rid);
        url.append(id.as_str());
        self.api.get(url.as_str())
    }

    /// Describes the GET for the collection, filtered by the present fields.
    pub fn get_all(&self, filters: Option<UsageRecordFilters>) -> (req: HttpRequest)
        ensures
            is_get(req, self.api.key@, usage_records_path(filters)),
    {
        let pairs: Vec<(String, String)> = match &filters {
            Option::Some(f) => f.pairs(),
            Option::None => Vec::new(),
        };
        proof {
            if filters is None {
                assert(pairs.deep_view() =~= Seq::<(Seq<char>, Seq<char>)>::empty());
            }
        }
        let mut url = String::from_str("/v1/usage-records");
        let q = build_query(&pairs);
        url.append(q.as_str());
        self.api.get(url.as_str())
    }

    /// Describes the POST that creates a usage record. The payload already
    /// carries its `data` wrapper, so it is sent as it stands.
    pub fn create(&self, data: CreateUsageRecord) -> (req: HttpRequest)
        ensures
            is_post(req, self.api.key@, "/v1/usage-records"@, json_text(data.json_of())),
    {
        let v = data.to_json();
        let body = to_text(&v);
        self.api.post("/v1/usage-records", body)
    }
}

} // verus!
