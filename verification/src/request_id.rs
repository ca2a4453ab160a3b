use vstd::prelude::*;

use crate::text::{lemma_spec_dec, spec_is_digit};

verus! {

/// The per-request data the request-id middleware attaches: an
/// optional user id and a correlation id for debugging.
#[derive(Debug)]
pub struct SharedData {
    pub user_id: Option<String>,
    pub request_id: String,
}

impl Clone for SharedData {
    fn clone(&self) -> (res: Self)
        ensures
            res == *self,
    {
        SharedData {
            user_id: match &self.user_id {
                Some(u) => Some(u.clone()),
                None => None,
            },
            request_id: self.request_id.clone(),
        }
    }
}

impl SharedData {
    /// Fresh per-request data: no user, and a request id drawn from the
    /// high-resolution clock, rendered in decimal.  The id is practically
    /// unique within the process, which is all correlation needs.
    pub fn new() -> (r: Self)
        ensures
            r.user_id is None,
            r.request_id@.len() >= 1,
            forall|i: int|
                0 <= i < r.request_id@.len() ==> spec_is_digit(#[trigger] r.request_id@[i]),
    {
        let nanos = crate::clock::nanos_since_unix_epoch();
        let request_id = crate::text::dec_string_u128(nanos);
        proof {
            lemma_spec_dec(nanos as int);
        }
        SharedData { user_id: None, request_id }
    }
}

impl Default for SharedData {
    fn default() -> (r: Self)
        ensures
            r.user_id is None,
    {
        Self::new()
    }
}

/// The request-id middleware as a service wrapper: holds the inner
/// service it forwards to.  Its per-request behaviour is modelled by
/// the chain unit that attaches `SharedData` and stamps the response.
#[derive(Clone)]
pub struct LoggingService<S> {
    inner: S,
}

impl<S> LoggingService<S> {
    /// The wrapped service.
    pub closed spec fn spec_inner(&self) -> &S {
        &self.inner
    }

    /// Wraps a further service in the same middleware.
    pub fn layer<T>(&self, inner: T) -> (r: LoggingService<T>)
        ensures
            *r.spec_inner() == inner,
    {
        LoggingService { inner }
    }
}

/// The layer that installs the request-id middleware.
#[derive(Clone)]
pub struct LoggingLayer;

impl LoggingLayer {
    pub fn new() -> Self {
        Self
    }

    /// Wraps a service in the request-id middleware.
    pub fn layer<S>(&self, inner: S) -> (r: LoggingService<S>)
        ensures
            *r.spec_inner() == inner,
    {
        LoggingService { inner }
    }
}

} // verus!
