use vstd::prelude::*;

verus! {

/// The authorization-logging middleware as a service wrapper: holds
/// the inner service it forwards to.  Its per-request behaviour — it
/// observes the authorization headers and forwards the request
/// unchanged — is modelled by the pass-through chain unit.
#[derive(Clone)]
pub struct LoggingService<S> {
    inner: S,
}

impl<S> LoggingService<S> {
    /// The wrapped service.
    pub closed spec fn spec_inner(&self) -> &S {
        &self.inner
    }

    /// Wraps a further service in the same middleware.
    pub fn layer<T>(&self, inner: T) -> (r: LoggingService<T>)
        ensures
            *r.spec_inner() == inner,
    {
        LoggingService { inner }
    }
}

/// The layer that installs the authorization-logging middleware.
#[derive(Clone)]
pub struct LoggingLayer;

impl LoggingLayer {
    pub fn new() -> Self {
        Self
    }

    /// Wraps a service in the authorization-logging middleware.
    pub fn layer<S>(&self, inner: S) -> (r: LoggingService<S>)
        ensures
            *r.spec_inner() == inner,
    {
        LoggingService { inner }
    }
}

} // verus!
