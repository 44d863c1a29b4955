pub mod checkout;
pub mod discount;
pub mod webhook;

use vstd::prelude::*;

use crate::json::{jview_obj, req_field, JSpec, JVal, ToJson};

verus! {

/// A one-field wrapper: `{"data": <value>}`, as relationships carry their
/// targets on the wire.
pub struct Data<T> {
    pub data: T,
}

impl<T: ToJson> ToJson for Data<T> {
    open spec fn json_of(&self) -> JSpec {
        JSpec::Obj(req_field("data"@, self.data))
    }

    fn to_json(&self) -> (r: JVal) {
        let mut fields: Vec<(String, JVal)> = Vec::new();
        proof {
            assert(jview_obj(fields@) =~= Seq::<(Seq<char>, JSpec)>::empty());
        }
        crate::json::push_req_field(&mut fields, "data", &self.data);
        let r = JVal::Obj(fields);
        proof {
            assert(jview_obj(fields@) =~= req_field("data"@, self.data));
        }
        r
    }
}

} // verus!
