use vstd::prelude::*;

use crate::json::{
    jopt, jopt_str, jview_obj, lemma_jview_obj, opt_str_to_json, opt_to_json, JSpec, JVal,
    ToJson,
};

verus! {

/// The version tag a response may carry.
pub struct JsonAPI {
    pub version: String,
}

/// Pagination and self links, each optional.
pub struct Links {
    pub first: Option<String>,
    pub last: Option<String>,
    pub next: Option<String>,
    pub prev: Option<String>,
    pub _self: Option<String>,
}

/// One direction of a relationship: links to the related resource and to the
/// relationship itself.
pub struct RelationShip {
    pub related: Option<String>,
    pub _self: Option<String>,
}

/// The resource object: the unit every response is built from. `id` is a
/// string on the wire even when it reads as a number.
pub struct ResponseData<T> {
    pub type_: String,
    pub id: String,
    pub relationships: Option<Vec<(String, RelationShip)>>,
    pub attributes: T,
    pub links: Option<Links>,
}

/// A response carrying one resource object, or none.
pub struct Response<T> {
    pub jsonapi: Option<JsonAPI>,
    pub links: Option<Links>,
    pub data: Option<ResponseData<T>>,
}

/// A response carrying a collection, in the order the server returned it.
pub struct VecResponse<T> {
    pub jsonapi: Option<JsonAPI>,
    pub links: Option<Links>,
    pub data: T,
}

/// A response carrying only a meta object.
pub struct ResponseMeta<T> {
    pub jsonapi: Option<JsonAPI>,
    pub meta: T,
}

impl<T> Response<T> {
    /// The attributes of the carried resource object, when one is there.
    pub fn get_inner_response(&self) -> (r: Option<&T>)
        ensures
            r is Some <==> self.data is Some,
            r matches Some(a) ==> self.data matches Some(d) && *a == d.attributes,
    {
        match &self.data {
            Option::Some(d) => Option::Some(&d.attributes),
            Option::None => Option::None,
        }
    }
}

/// The fields of a serialized link object, in order.
pub open spec fn jlinks_fields(l: Links) -> Seq<(Seq<char>, JSpec)> {
    seq![
        ("first"@, jopt_str(l.first)),
        ("last"@, jopt_str(l.last)),
        ("next"@, jopt_str(l.next)),
        ("prev"@, jopt_str(l.prev)),
        ("self"@, jopt_str(l._self)),
    ]
}

impl ToJson for Links {
    open spec fn json_of(&self) -> JSpec {
        JSpec::Obj(jlinks_fields(*self))
    }

    fn to_json(&self) -> (r: JVal) {
        let mut fields: Vec<(String, JVal)> = Vec::new();
        fields.push((String::from_str("first"), opt_str_to_json(&self.first)));
        fields.push((String::from_str("last"), opt_str_to_json(&self.last)));
        fields.push((String::from_str("next"), opt_str_to_json(&self.next)));
        fields.push((String::from_str("prev"), opt_str_to_json(&self.prev)));
        fields.push((String::from_str("self"), opt_str_to_json(&self._self)));
        let r = JVal::Obj(fields);
        proof {
            lemma_jview_obj(fields@);
            assert(jview_obj(fields@) =~= jlinks_fields(*self));
        }
        r
    }
}

/// The fields of a serialized relationship-link object, in order.
pub open spec fn jrelationship_fields(r: RelationShip) -> Seq<(Seq<char>, JSpec)> {
    seq![("related"@, jopt_str(r.related)), ("self"@, jopt_str(r._self))]
}

impl ToJson for RelationShip {
    open spec fn json_of(&self) -> JSpec {
        JSpec::Obj(jrelationship_fields(*self))
    }

    fn to_json(&self) -> (r: JVal) {
        let mut fields: Vec<(String, JVal)> = Vec::new();
        fields.push((String::from_str("related"), opt_str_to_json(&self.related)));
        fields.push((String::from_str("self"), opt_str_to_json(&self._self)));
        let r = JVal::Obj(fields);
        proof {
            lemma_jview_obj(fields@);
            assert(jview_obj(fields@) =~= jrelationship_fields(*self));
        }
        r
    }
}

/// The model of a relationship map: one object field per named relationship,
/// in the order they are held.
pub open spec fn jrelationships(rels: Seq<(String, RelationShip)>) -> Seq<(Seq<char>, JSpec)> {
    rels.map(|i: int, p: (String, RelationShip)| (p.0@, p.1.json_of()))
}

/// The fields of a serialized resource object, in order: `type`, `id`,
/// `relationships`, `attributes`, `links`; the optional members as `null`
/// when unset.
pub open spec fn jresource_fields<T: ToJson>(d: ResponseData<T>) -> Seq<(Seq<char>, JSpec)> {
    seq![
        ("type"@, JSpec::Str(d.type_@)),
        ("id"@, JSpec::Str(d.id@)),
        (
            "relationships"@,
            match d.relationships {
                Option::None => JSpec::Null,
                Option::Some(rels) => JSpec::Obj(jrelationships(rels@)),
            },
        ),
        ("attributes"@, d.attributes.json_of()),
        ("links"@, jopt(d.links)),
    ]
}

impl<T: ToJson> ToJson for ResponseData<T> {
    open spec fn json_of(&self) -> JSpec {
        JSpec::Obj(jresource_fields(*self))
    }

    fn to_json(&self) -> (r: JVal) {
        let rels_json: JVal = match &self.relationships {
            Option::None => JVal::Null,
            Option::Some(rels) => {
                let mut entries: Vec<(String, JVal)> = Vec::new();
                let mut i: usize = 0;
                while i < rels.len()
                    invariant
                        i <= rels@.len(),
                        entries@.len() == i,
                        forall|k: int|
                            0 <= k < i ==> (#[trigger] entries@[k]).0@ == rels@[k].0@
                                && entries@[k].1@ == rels@[k].1.json_of(),
                    decreases rels@.len() - i,
                {
                    let name = rels[i].0.clone();
                    let rel_json = rels[i].1.to_json();
                    entries.push((name, rel_json));
                    i = i + 1;
                }
                let o = JVal::Obj(entries);
                proof {
                    lemma_jview_obj(entries@);
                    assert(jview_obj(entries@) =~= jrelationships(rels@));
                }
                o
            },
        };
        let mut fields: Vec<(String, JVal)> = Vec::new();
        fields.push((String::from_str("type"), JVal::Str(self.type_.clone())));
        fields.push((String::from_str("id"), JVal::Str(self.id.clone())));
        fields.push((String::from_str("relationships"), rels_json));
        fields.push((String::from_str("attributes"), self.attributes.to_json()));
        fields.push((String::from_str("links"), opt_to_json(&self.links)));
        let r = JVal::Obj(fields);
        proof {
            lemma_jview_obj(fields@);
            assert(jview_obj(fields@) =~= jresource_fields(*self));
        }
        r
    }
}

} // verus!
