use vstd::prelude::*;

use crate::json::{jview_obj, push_req_field, req_field, JSpec, JVal, ToJson};
use crate::types::Data;

verus! {

/// The store and variants a new discount applies to.
pub struct CreateDiscountRelationships {
    pub store: Data<CreateDiscountRelationshipsStore>,
    pub variants: Data<Vec<CreateDiscountRelationshipsVariants>>,
}

/// The store reference a discount relationship carries.
pub struct CreateDiscountRelationshipsStore {
    pub type_: String,
    pub id: String,
}

/// One variant reference a discount relationship carries.
pub struct CreateDiscountRelationshipsVariants {
    pub type_: String,
    pub id: String,
}

impl ToJson for CreateDiscountRelationshipsStore {
    open spec fn json_of(&self) -> JSpec {
        JSpec::Obj(
            req_field("type"@, self.type_)
            + req_field("id"@, self.id),
        )
    }

    fn to_json(&self) -> (r: JVal) {
        let mut fields: Vec<(String, JVal)> = Vec::new();
        proof {
            assert(jview_obj(fields@) =~= Seq::<(Seq<char>, JSpec)>::empty());
        }
        push_req_field(&mut fields, "type", &self.type_);
        push_req_field(&mut fields, "id", &self.id);
        let r = JVal::Obj(fields);
        proof {
            assert(jview_obj(fields@) =~= (
            req_field("type"@, self.type_)
            + req_field("id"@, self.id)));
        }
        r
    }
}

impl ToJson for CreateDiscountRelationshipsVariants {
    open spec fn json_of(&self) -> JSpec {
        JSpec::Obj(
            req_field("type"@, self.type_)
            + req_field("id"@, self.id),
        )
    }

    fn to_json(&self) -> (r: JVal) {
        let mut fields: Vec<(String, JVal)> = Vec::new();
        proof {
            assert(jview_obj(fields@) =~= Seq::<(Seq<char>, JSpec)>::empty());
        }
        push_req_field(&mut fields, "type", &self.type_);
        push_req_field(&mut fields, "id", &self.id);
        let r = JVal::Obj(fields);
        proof {
            assert(jview_obj(fields@) =~= (
            req_field("type"@, self.type_)
            + req_field("id"@, self.id)));
        }
        r
    }
}

impl ToJson for CreateDiscountRelationships {
    open spec fn json_of(&self) -> JSpec {
        JSpec::Obj(
            req_field("store"@, self.store)
            + req_field("variants"@, self.variants),
        )
    }

    fn to_json(&self) -> (r: JVal) {
        let mut fields: Vec<(String, JVal)> = Vec::new();
        proof {
            assert(jview_obj(fields@) =~= Seq::<(Seq<char>, JSpec)>::empty());
        }
        push_req_field(&mut fields, "store", &self.store);
        push_req_field(&mut fields, "variants", &self.variants);
        let r = JVal::Obj(fields);
        proof {
            assert(jview_obj(fields@) =~= (
            req_field("store"@, self.store)
            + req_field("variants"@, self.variants)));
        }
        r
    }
}

} // verus!
