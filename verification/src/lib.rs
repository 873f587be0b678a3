//! A request-dispatch combinator: given an incoming request, decide --
//! synchronously or through a suspension-aware predicate -- whether to route
//! the request to a primary handler or to fall through to a secondary one,
//! and produce exactly one handler's result.
//!
//! The dispatchers are pure routers: they evaluate the predicate once per
//! request, hand the request to exactly one of the two handlers, and
//! propagate that handler's response or failure verbatim. No failure
//! originates in a dispatcher itself.

use vstd::prelude::*;
use core::marker::PhantomData;
use crate::futures::ResultFuture;
use crate::service::{Readiness, Service};

pub mod async_feature;
pub mod futures;
pub mod service;
pub mod test_util;

verus! {

/// A predicate over requests whose verdict is instantaneous: it inspects
/// the request by reference -- never consuming or mutating it -- and
/// answers at once. A predicate cannot fail; "unknown" must be encoded as
/// a verdict by the implementer.
pub trait Filter<T>: Sized {
    /// The verdict this predicate gives for `item`.
    spec fn spec_matches(&self, item: T) -> bool;

    /// Whether the primary handler should take `item`; `false` means fall
    /// through to the secondary one.
    fn matches(&self, item: &T) -> (verdict: bool)
        ensures
            verdict == self.spec_matches(*item),
    ;

    /// A fresh logical copy that gives the same verdicts, so the same
    /// predicate can serve concurrent independent dispatches.
    fn duplicate(&self) -> (copy: Self)
        ensures
            forall|item: T| #[trigger] copy.spec_matches(item) == self.spec_matches(item),
    ;
}

/// A reusable builder holding the predicate and the primary handler; each
/// combination with a secondary handler yields a dispatcher wired to the
/// three. Pure glue: it carries no contract beyond the wiring.
pub struct FilterLayer<F, S, T, R, E> {
    pub filter: F,
    pub service: S,
    pub _marker: PhantomData<(T, R, E)>,
}

impl<F, S, T, R, E> FilterLayer<F, S, T, R, E> where
    F: Filter<T>,
    S: Service<T, R, E>,
 {
    /// Creates a new `FilterLayer` given a predicate and the primary
    /// handler. The two have to operate on the same request type.
    pub fn new(filter: F, service: S) -> (layer: Self)
        ensures
            layer.filter == filter,
            layer.service == service,
    {
        FilterLayer { filter, service, _marker: PhantomData }
    }

    /// A fresh logical copy: same verdicts, same accepted-request log,
    /// same behaviour.
    pub fn duplicate(&self) -> (copy: Self)
        ensures
            forall|item: T| #[trigger] copy.filter.spec_matches(item)
                == self.filter.spec_matches(item),
            copy.service.log() == self.service.log(),
            copy.service.spec_ready() == self.service.spec_ready(),
            forall|req: T| #[trigger] copy.service.spec_response(req)
                == self.service.spec_response(req),
    {
        FilterLayer {
            filter: self.filter.duplicate(),
            service: self.service.duplicate(),
            _marker: PhantomData,
        }
    }

    /// Combine with a secondary handler, yielding the dispatcher.
    pub fn layer<I: Service<T, R, E>>(&self, inner_service: I) -> (svc: FilterService<
        F,
        S,
        I,
        T,
        R,
        E,
    >)
        ensures
            forall|item: T| #[trigger] svc.filter.spec_matches(item)
                == self.filter.spec_matches(item),
            svc.service.log() == self.service.log(),
            svc.service.spec_ready() == self.service.spec_ready(),
            forall|req: T| #[trigger] svc.service.spec_response(req)
                == self.service.spec_response(req),
            svc.inner == inner_service,
    {
        let filter = self.filter.duplicate();
        let filtered_service = self.service.duplicate();
        FilterService { filter, service: filtered_service, inner: inner_service, _marker: PhantomData }
    }
}

/// The synchronous dispatcher: evaluates the predicate once per request
/// and immediately invokes exactly one of the two handlers. `filter`
/// decides, `service` is the primary handler, `inner` the secondary one.
pub struct FilterService<F, S, I, T, R, E> {
    pub filter: F,
    pub service: S,
    pub inner: I,
    pub _marker: PhantomData<(T, R, E)>,
}

impl<F, S, I, T, R, E> FilterService<F, S, I, T, R, E> where
    F: Filter<T>,
    S: Service<T, R, E>,
    I: Service<T, R, E>,
 {
    /// Conservative readiness: report ready only when both handlers do,
    /// so that a not-yet-ready handler is never invoked, whichever one the
    /// predicate later selects. The secondary handler is queried only once
    /// the primary one reported ready. No request is accepted here.
    pub fn poll_ready(&mut self) -> (r: Readiness<E>)
        ensures
            final(self).filter == old(self).filter,
            final(self).service.log() == old(self).service.log(),
            final(self).inner.log() == old(self).inner.log(),
            r == (if old(self).service.spec_ready() is Ready {
                old(self).inner.spec_ready()
            } else {
                old(self).service.spec_ready()
            }),
            !(old(self).service.spec_ready() is Ready) ==> final(self).inner == old(self).inner,
    {
        match self.service.poll_ready() {
            Readiness::Ready => self.inner.poll_ready(),
            other => other,
        }
    }

    /// Dispatch: evaluate the predicate once; on `true` transfer the
    /// request to the primary handler, on `false` to the secondary one,
    /// and return that handler's own pending computation behind the
    /// matching tag. Exactly one handler accepts the request, exactly
    /// once, unchanged; the other is not invoked at all, and the returned
    /// computation is precisely the one the chosen handler produced.
    pub fn call(&mut self, req: T) -> (fut: ResultFuture<R, E>)
        ensures
            final(self).filter == old(self).filter,
            fut.pending() is Queued,
            old(self).filter.spec_matches(req) ==> fut
                == ResultFuture::<R, E>::Primary(old(self).service.spec_response(req))
                && final(self).service.log() == old(self).service.log().push(req)
                && final(self).inner == old(self).inner,
            !old(self).filter.spec_matches(req) ==> fut
                == ResultFuture::<R, E>::Secondary(old(self).inner.spec_response(req))
                && final(self).inner.log() == old(self).inner.log().push(req)
                && final(self).service == old(self).service,
    {
        if self.filter.matches(&req) {
            ResultFuture::Primary(self.service.call(req))
        } else {
            ResultFuture::Secondary(self.inner.call(req))
        }
    }

    /// A fresh logical copy: same verdicts, same accepted-request logs,
    /// same behaviour.
    pub fn duplicate(&self) -> (copy: Self)
        ensures
            forall|item: T| #[trigger] copy.filter.spec_matches(item)
                == self.filter.spec_matches(item),
            copy.service.log() == self.service.log(),
            copy.inner.log() == self.inner.log(),
            copy.service.spec_ready() == self.service.spec_ready(),
            copy.inner.spec_ready() == self.inner.spec_ready(),
            forall|req: T| #[trigger] copy.service.spec_response(req)
                == self.service.spec_response(req),
            forall|req: T| #[trigger] copy.inner.spec_response(req)
                == self.inner.spec_response(req),
    {
        FilterService {
            filter: self.filter.duplicate(),
            service: self.service.duplicate(),
            inner: self.inner.duplicate(),
            _marker: PhantomData,
        }
    }
}

} // verus!
