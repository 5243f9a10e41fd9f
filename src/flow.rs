//! Flow-control wrappers around an inner service: batching and a limit on
//! the recursion depth of requests.

use vstd::prelude::*;

verus! {

/// Groups the requests to an inner service in batches of a fixed size.
#[derive(Debug, Clone)]
pub struct InBatch<S> {
    inner: S,
    batch: usize,
}

impl<S> InBatch<S> {
    /// The wrapped service.
    pub closed spec fn inner_spec(&self) -> S {
        self.inner
    }

    /// The batch size.
    pub closed spec fn batch_spec(&self) -> usize {
        self.batch
    }

    /// Wraps `inner` with batches of `batch` requests.
    pub fn new(inner: S, batch: usize) -> (r: InBatch<S>)
        ensures
            r.inner_spec() == inner,
            r.batch_spec() == batch,
    {
        InBatch { inner, batch }
    }
}

/// A request that knows how deep in a crawl it was found.
pub trait Depth {
    fn depth(&self) -> usize;
}

/// Produces [`DepthLimit`] services with a given depth.
#[derive(Debug, Clone, Default)]
pub struct DepthLimitLayer {
    depth: Option<usize>,
}

impl DepthLimitLayer {
    /// The depth limit, if one is set; never zero.
    pub closed spec fn depth_spec(&self) -> Option<usize> {
        self.depth
    }

    /// A layer with the depth limit `depth`, which may not be zero.
    pub fn new(depth: usize) -> (r: DepthLimitLayer)
        requires
            depth != 0,
        ensures
            r.depth_spec() == Some(depth),
    {
        DepthLimitLayer { depth: Some(depth) }
    }
}

/// Filters out requests with a recursion depth over the limit.
#[derive(Debug, Clone)]
pub struct DepthLimit<S> {
    inner: S,
    depth: usize,
}

impl<S> DepthLimit<S> {
    /// The wrapped service.
    pub closed spec fn inner_spec(&self) -> S {
        self.inner
    }

    /// The depth limit.
    pub closed spec fn depth_spec(&self) -> usize {
        self.depth
    }

    /// Wraps `inner` with the depth limit `depth`, which may not be zero.
    pub fn new(inner: S, depth: usize) -> (r: DepthLimit<S>)
        requires
            depth != 0,
        ensures
            r.inner_spec() == inner,
            r.depth_spec() == depth,
    {
        DepthLimit { inner, depth }
    }

    /// The wrapped service.
    pub fn get_ref(&self) -> (r: &S)
        ensures
            *r == self.inner_spec(),
    {
        &self.inner
    }

    /// The wrapped service, to change.
    pub fn get_mut(&mut self) -> (r: &mut S)
        ensures
            *r == old(self).inner_spec(),
    {
        &mut self.inner
    }

    /// Consumes the wrapper, returning the wrapped service.
    pub fn into_inner(self) -> (r: S)
        ensures
            r == self.inner_spec(),
    {
        self.inner
    }
}

} // verus!
