use vstd::prelude::*;

use crate::request::{is_get, HttpRequest};
use crate::LemonSqueezy;

verus! {

/// The authenticated user's attributes as the API returns them.
pub struct UserResponse {
    pub name: String,
    pub email: String,
    pub color: String,
    pub avatar_url: String,
    pub has_custom_avatar: bool,
    pub created_at: String,
    pub updated_at: String,
}

/// The users resource: only the authenticated user can be read.
pub struct User {
    pub api: LemonSqueezy,
}

impl User {
    /// Binds the resource to a client configuration.
    pub fn build(api: LemonSqueezy) -> (s: Self)
        ensures
            s.api == api,
    {
        User { api }
    }

    /// Describes the GET for the authenticated user: `/v1/users/me`.
    pub fn retrieve(&self) -> (req: HttpRequest)
        ensures
            is_get(req, self.api.key@, "/v1/users/me"@),
    {
        self.api.get("/v1/users/me")
    }
}

} // verus!
