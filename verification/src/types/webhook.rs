use vstd::prelude::*;

use crate::json::{
    jview_obj, lemma_fields_have_key_concat, lemma_opt_field_key, lemma_req_field_key,
    null_or_field, obj_has_key, opt_field, push_null_or_field, push_opt_field, push_req_field,
    req_field, JSpec, JVal, ToJson,
};
use crate::types::Data;

verus! {

/// The payload that creates a webhook.
pub struct CreateWebhook {
    pub type_: String,
    pub attributes: CreateWebhookAttributes,
    pub relationships: Option<CreateWebhookRelationships>,
}

/// The attributes of a new webhook; `test_mode` is omitted when unset.
pub struct CreateWebhookAttributes {
    pub url: String,
    pub events: Vec<String>,
    pub secret: String,
    pub test_mode: Option<bool>,
}

/// The store a new webhook belongs to.
pub struct CreateWebhookRelationships {
    pub store: Data<CreateWebhookRelationShipData>,
}

/// The reference a webhook relationship carries.
pub struct CreateWebhookRelationShipData {
    pub type_: String,
    pub id: String,
}

/// The payload that updates a webhook.
pub struct UpdateWebhook {
    pub type_: String,
    pub id: String,
    pub attributes: UpdateWebhookAttributes,
    pub relationships: Option<UpdateWebhookRelationships>,
}

/// The attributes to change; every field is omitted when unset.
pub struct UpdateWebhookAttributes {
    pub url: Option<String>,
    pub events: Option<Vec<String>>,
    pub secret: Option<String>,
    pub test_mode: Option<bool>,
}

/// The store an updated webhook belongs to.
pub struct UpdateWebhookRelationships {
    pub store: Data<UpdateWebhookRelationShipData>,
}

/// The reference an update relationship carries.
pub struct UpdateWebhookRelationShipData {
    pub type_: String,
    pub id: String,
}

impl ToJson for CreateWebhookRelationShipData {
    open spec fn json_of(&self) -> JSpec {
        JSpec::Obj(
            req_field("type"@, self.type_)
            + req_field("id"@, self.id),
        )
    }

    fn to_json(&self) -> (r: JVal) {
        let mut fields: Vec<(String, JVal)> = Vec::new();
        proof {
            assert(jview_obj(fields@) =~= Seq::<(Seq<char>, JSpec)>::empty());
        }
        push_req_field(&mut fields, "type", &self.type_);
        push_req_field(&mut fields, "id", &self.id);
        let r = JVal::Obj(fields);
        proof {
            assert(jview_obj(fields@) =~= (
            req_field("type"@, self.type_)
            + req_field("id"@, self.id)));
        }
        r
    }
}

impl ToJson for CreateWebhookRelationships {
    open spec fn json_of(&self) -> JSpec {
        JSpec::Obj(
            req_field("store"@, self.store),
        )
    }

    fn to_json(&self) -> (r: JVal) {
        let mut fields: Vec<(String, JVal)> = Vec::new();
        proof {
            assert(jview_obj(fields@) =~= Seq::<(Seq<char>, JSpec)>::empty());
        }
        push_req_field(&mut fields, "store", &self.store);
        let r = JVal::Obj(fields);
        proof {
            assert(jview_obj(fields@) =~= (
            req_field("store"@, self.store)));
        }
        r
    }
}

impl ToJson for CreateWebhookAttributes {
    open spec fn json_of(&self) -> JSpec {
        JSpec::Obj(
            req_field("url"@, self.url)
            + req_field("events"@, self.events)
            + req_field("secret"@, self.secret)
            + opt_field("test_mode"@, self.test_mode),
        )
    }

    fn to_json(&self) -> (r: JVal) {
        let mut fields: Vec<(String, JVal)> = Vec::new();
        proof {
            assert(jview_obj(fields@) =~= Seq::<(Seq<char>, JSpec)>::empty());
        }
        push_req_field(&mut fields, "url", &self.url);
        push_req_field(&mut fields, "events", &self.events);
        push_req_field(&mut fields, "secret", &self.secret);
        push_opt_field(&mut fields, "test_mode", &self.test_mode);
        let r = JVal::Obj(fields);
        proof {
            assert(jview_obj(fields@) =~= (
            req_field("url"@, self.url)
            + req_field("events"@, self.events)
            + req_field("secret"@, self.secret)
            + opt_field("test_mode"@, self.test_mode)));
        }
        r
    }
}

impl ToJson for CreateWebhook {
    open spec fn json_of(&self) -> JSpec {
        JSpec::Obj(
            req_field("type"@, self.type_)
            + req_field("attributes"@, self.attributes)
            + null_or_field("relationships"@, self.relationships),
        )
    }

    fn to_json(&self) -> (r: JVal) {
        let mut fields: Vec<(String, JVal)> = Vec::new();
        proof {
            assert(jview_obj(fields@) =~= Seq::<(Seq<char>, JSpec)>::empty());
        }
        push_req_field(&mut fields, "type", &self.type_);
        push_req_field(&mut fields, "attributes", &self.attributes);
        push_null_or_field(&mut fields, "relationships", &self.relationships);
        let r = JVal::Obj(fields);
        proof {
            assert(jview_obj(fields@) =~= (
            req_field("type"@, self.type_)
            + req_field("attributes"@, self.attributes)
            + null_or_field("relationships"@, self.relationships)));
        }
        r
    }
}

impl ToJson for UpdateWebhookRelationShipData {
    open spec fn json_of(&self) -> JSpec {
        JSpec::Obj(
            req_field("type"@, self.type_)
            + req_field("id"@, self.id),
        )
    }

    fn to_json(&self) -> (r: JVal) {
        let mut fields: Vec<(String, JVal)> = Vec::new();
        proof {
            assert(jview_obj(fields@) =~= Seq::<(Seq<char>, JSpec)>::empty());
        }
        push_req_field(&mut fields, "type", &self.type_);
        push_req_field(&mut fields, "id", &self.id);
        let r = JVal::Obj(fields);
        proof {
            assert(jview_obj(fields@) =~= (
            req_field("type"@, self.type_)
            + req_field("id"@, self.id)));
        }
        r
    }
}

impl ToJson for UpdateWebhookRelationships {
    open spec fn json_of(&self) -> JSpec {
        JSpec::Obj(
            req_field("store"@, self.store),
        )
    }

    fn to_json(&self) -> (r: JVal) {
        let mut fields: Vec<(String, JVal)> = Vec::new();
        proof {
            assert(jview_obj(fields@) =~= Seq::<(Seq<char>, JSpec)>::empty());
        }
        push_req_field(&mut fields, "store", &self.store);
        let r = JVal::Obj(fields);
        proof {
            assert(jview_obj(fields@) =~= (
            req_field("store"@, self.store)));
        }
        r
    }
}

impl ToJson for UpdateWebhookAttributes {
    open spec fn json_of(&self) -> JSpec {
        JSpec::Obj(
            opt_field("url"@, self.url)
            + opt_field("events"@, self.events)
            + opt_field("secret"@, self.secret)
            + opt_field("test_mode"@, self.test_mode),
        )
    }

    fn to_json(&self) -> (r: JVal) {
        let mut fields: Vec<(String, JVal)> = Vec::new();
        proof {
            assert(jview_obj(fields@) =~= Seq::<(Seq<char>, JSpec)>::empty());
        }
        push_opt_field(&mut fields, "url", &self.url);
        push_opt_field(&mut fields, "events", &self.events);
        push_opt_field(&mut fields, "secret", &self.secret);
        push_opt_field(&mut fields, "test_mode", &self.test_mode);
        let r = JVal::Obj(fields);
        proof {
            assert(jview_obj(fields@) =~= (
            opt_field("url"@, self.url)
            + opt_field("events"@, self.events)
            + opt_field("secret"@, self.secret)
            + opt_field("test_mode"@, self.test_mode)));
        }
        r
    }
}

impl ToJson for UpdateWebhook {
    open spec fn json_of(&self) -> JSpec {
        JSpec::Obj(
            req_field("type"@, self.type_)
            + req_field("id"@, self.id)
            + req_field("attributes"@, self.attributes)
            + null_or_field("relationships"@, self.relationships),
        )
    }

    fn to_json(&self) -> (r: JVal) {
        let mut fields: Vec<(String, JVal)> = Vec::new();
        proof {
            assert(jview_obj(fields@) =~= Seq::<(Seq<char>, JSpec)>::empty());
        }
        push_req_field(&mut fields, "type", &self.type_);
        push_req_field(&mut fields, "id", &self.id);
        push_req_field(&mut fields, "attributes", &self.attributes);
        push_null_or_field(&mut fields, "relationships", &self.relationships);
        let r = JVal::Obj(fields);
        proof {
            assert(jview_obj(fields@) =~= (
            req_field("type"@, self.type_)
            + req_field("id"@, self.id)
            + req_field("attributes"@, self.attributes)
            + null_or_field("relationships"@, self.relationships)));
        }
        r
    }
}

/// Law: a new webhook's serialized attributes carry the three required keys
/// always, and `test_mode` exactly when it is set.
pub proof fn lemma_create_webhook_attrs_keys(a: CreateWebhookAttributes, k: Seq<char>)
    ensures
        obj_has_key(a.json_of(), k) <==> (k == "url"@
            || k == "events"@
            || k == "secret"@
            || (k == "test_mode"@ && a.test_mode is Some)),
{
    let s0 = req_field("url"@, a.url);
    let s1 = req_field("events"@, a.events);
    let s2 = req_field("secret"@, a.secret);
    let s3 = opt_field("test_mode"@, a.test_mode);
    lemma_req_field_key("url"@, a.url, k);
    lemma_req_field_key("events"@, a.events, k);
    lemma_req_field_key("secret"@, a.secret, k);
    lemma_opt_field_key("test_mode"@, a.test_mode, k);
    lemma_fields_have_key_concat(s0, s1, k);
    lemma_fields_have_key_concat((s0 + s1), s2, k);
    lemma_fields_have_key_concat(((s0 + s1) + s2), s3, k);
}

/// Law: an update's serialized attributes carry each key exactly when its
/// field is set.
pub proof fn lemma_update_webhook_attrs_keys(a: UpdateWebhookAttributes, k: Seq<char>)
    ensures
        obj_has_key(a.json_of(), k) <==> ((k == "url"@ && a.url is Some)
            || (k == "events"@ && a.events is Some)
            || (k == "secret"@ && a.secret is Some)
            || (k == "test_mode"@ && a.test_mode is Some)),
{
    let s0 = opt_field("url"@, a.url);
    let s1 = opt_field("events"@, a.events);
    let s2 = opt_field("secret"@, a.secret);
    let s3 = opt_field("test_mode"@, a.test_mode);
    lemma_opt_field_key("url"@, a.url, k);
    lemma_opt_field_key("events"@, a.events, k);
    lemma_opt_field_key("secret"@, a.secret, k);
    lemma_opt_field_key("test_mode"@, a.test_mode, k);
    lemma_fields_have_key_concat(s0, s1, k);
    lemma_fields_have_key_concat((s0 + s1), s2, k);
    lemma_fields_have_key_concat(((s0 + s1) + s2), s3, k);
}

} // verus!
