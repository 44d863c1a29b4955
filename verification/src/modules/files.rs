use vstd::prelude::*;

use crate::query::{build_query, opt_int_pair, push_opt_int_pair, query_string};
use crate::request::{is_get, HttpRequest};
use crate::text::dec_str;
use crate::LemonSqueezy;

verus! {

/// A file's attributes as the API returns them.
pub struct FileResponse {
    pub variant_id: i64,
    pub identifier: String,
    pub name: String,
    pub extension: String,
    pub download_url: String,
    pub size: i64,
    pub size_formatted: Option<String>,
    pub version: Option<String>,
    pub sort: Option<i64>,
    pub status: Option<String>,
    pub created_at: String,
    pub updated_at: String,
}

/// Which files to list.
pub struct FileFilters {
    pub variant_id: Option<i64>,
}

/// The query pairs a filter emits, in declared field order.
pub open spec fn file_filter_pairs(f: FileFilters) -> Seq<(Seq<char>, Seq<char>)> {
    opt_int_pair("variant_id"@, f.variant_id)
}

impl FileFilters {
    /// The present filters as `(name, value)` pairs, in declared order.
    pub fn pairs(&self) -> (pairs: Vec<(String, String)>)
        ensures
            pairs.deep_view() == file_filter_pairs(*self),
    {
        let mut v: Vec<(String, String)> = Vec::new();
        proof {
            assert(v.deep_view() =~= Seq::<(Seq<char>, Seq<char>)>::empty());
        }
        push_opt_int_pair(&mut v, "variant_id", &self.variant_id);
        proof {
            assert(v.deep_view() =~= file_filter_pairs(*self));
        }
        v
    }
}

/// The collection path with the filters' query string appended.
pub open spec fn files_path(filters: Option<FileFilters>) -> Seq<char> {
    "/v1/files"@ + query_string(
        match filters {
            Option::None => Seq::<(Seq<char>, Seq<char>)>::empty(),
            Option::Some(f) => file_filter_pairs(f),
        },
    )
}

/// The files resource.
pub struct Files {
    pub api: LemonSqueezy,
}

impl Files {
    /// Binds the resource to a client configuration.
    pub fn build(api: LemonSqueezy) -> (s: Self)
        ensures
            s.api == api,
    {
        Files { api }
    }

    /// Describes the GET for one resource: `/v1/files/<id>`.
    pub fn retrieve(&self, rid: usize) -> (req: HttpRequest)
        ensures
            is_get(req, self.api.key@, "/v1/files/"@ + dec_str(rid as nat)),
    {
        let mut url = String::from_str("/v1/files/");
        let id = crate::text::usize_to_string(rid);
        url.append(id.as_str());
        self.api.get(url.as_str())
    }

    /// Describes the GET for the collection, filtered by the present fields.
    pub fn get_all(&self, filters: Option<FileFilters>) -> (req: HttpRequest)
        ensures
            is_get(req, self.api.key@, files_path(filters)),
    {
        let pairs: Vec<(String, String)> = match &filters {
            Option::Some(f) => f.pairs(),
            Option::None => Vec::new(),
        };
        proof {
            if filters is None {
                assert(pairs.deep_view() =~= Seq::<(Seq<char>, Seq<char>)>::empty());
            }
        }
        let mut url = String::from_str("/v1/files");
        let q = build_query(&pairs);
        url.append(q.as_str());
        self.api.get(url.as_str())
    }
}

} // verus!
