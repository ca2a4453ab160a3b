use vstd::prelude::*;

use crate::middleware::Request;

verus! {

/// The user information that authentication attaches to a request.
#[derive(Debug)]
pub struct UserInfo {
    pub user_id: u32,
    pub username: String,
    pub role: String,
}

impl Clone for UserInfo {
    fn clone(&self) -> (res: Self)
        ensures
            res == *self,
    {
        UserInfo {
            user_id: self.user_id,
            username: self.username.clone(),
            role: self.role.clone(),
        }
    }
}

/// The per-request context the middleware chain attaches: who is
/// making the request, if anyone.  `None` means no user is attached.
#[derive(Debug)]
pub struct RequestContext {
    pub user_info: Option<UserInfo>,
}

impl Clone for RequestContext {
    fn clone(&self) -> (res: Self)
        ensures
            res == *self,
    {
        RequestContext {
            user_info: match &self.user_info {
                Some(u) => Some(u.clone()),
                None => None,
            },
        }
    }
}

/// The request context attached by the middleware chain, if any.
pub fn get_request_context(req: &Request) -> (r: Option<&RequestContext>)
    ensures
        r is Some <==> req.context is Some,
        r matches Some(c) ==> *c == req.context.unwrap(),
{
    match &req.context {
        Some(c) => Some(c),
        None => None,
    }
}

} // verus!
