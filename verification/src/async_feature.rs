//! The asynchronous dispatcher: the predicate's verdict is itself a
//! pending computation, so dispatch returns the three-phase select state
//! machine instead of invoking a handler at once.

use vstd::prelude::*;
use core::marker::PhantomData;
use crate::futures::{BoolFuture, DispatchStart, SelectServiceAndCallFut, SelectState};
use crate::service::{Readiness, Service};

verus! {

/// A predicate over requests whose verdict may suspend: asked about a
/// request -- inspected by reference, never consumed, since it must still
/// be available for the handler afterwards -- it hands back a pending
/// boolean computation. A predicate cannot fail.
pub trait AsyncFilter<T>: Sized {
    /// The verdict the pending computation will resolve to for `item`.
    spec fn spec_matches(&self, item: T) -> bool;

    /// How many polls the pending computation suspends for before the
    /// verdict for `item` resolves.
    spec fn spec_delay(&self, item: T) -> u64;

    /// Ask about `item`: the returned computation suspends
    /// `spec_delay(item)` times, then resolves to `spec_matches(item)`.
    fn matches(&self, item: &T) -> (fut: BoolFuture)
        ensures
            fut == (BoolFuture {
                turns_left: self.spec_delay(*item),
                verdict: self.spec_matches(*item),
            }),
    ;

    /// A fresh logical copy that gives the same verdicts with the same
    /// delays, so the same predicate can serve concurrent independent
    /// dispatches.
    fn duplicate(&self) -> (copy: Self)
        ensures
            forall|item: T| #[trigger] copy.spec_matches(item) == self.spec_matches(item),
            forall|item: T| #[trigger] copy.spec_delay(item) == self.spec_delay(item),
    ;
}

/// A reusable builder holding the suspension-aware predicate and the
/// primary handler; each combination with a secondary handler yields the
/// asynchronous dispatcher. Pure glue.
pub struct AsyncFilterLayer<F, S, T, R, E> {
    pub filter: F,
    pub service: S,
    pub _marker: PhantomData<(T, R, E)>,
}

impl<F, S, T, R, E> AsyncFilterLayer<F, S, T, R, E> where
    F: AsyncFilter<T>,
    S: Service<T, R, E>,
 {
    /// Creates a new `AsyncFilterLayer` given a predicate and the primary
    /// handler. The two have to operate on the same request type.
    pub fn new(filter: F, service: S) -> (layer: Self)
        ensures
            layer.filter == filter,
            layer.service == service,
    {
        AsyncFilterLayer { filter, service, _marker: PhantomData }
    }

    /// A fresh logical copy: same verdicts and delays, same log, same
    /// behaviour.
    pub fn duplicate(&self) -> (copy: Self)
        ensures
            forall|item: T| #[trigger] copy.filter.spec_matches(item)
                == self.filter.spec_matches(item),
            forall|item: T| #[trigger] copy.filter.spec_delay(item)
                == self.filter.spec_delay(item),
            copy.service.log() == self.service.log(),
            copy.service.spec_ready() == self.service.spec_ready(),
            forall|req: T| #[trigger] copy.service.spec_response(req)
                == self.service.spec_response(req),
    {
        AsyncFilterLayer {
            filter: self.filter.duplicate(),
            service: self.service.duplicate(),
            _marker: PhantomData,
        }
    }

    /// Combine with a secondary handler, yielding the dispatcher.
    pub fn layer<I: Service<T, R, E>>(&self, inner_service: I) -> (svc: AsyncFilterService<
        F,
        S,
        I,
        T,
        R,
        E,
    >)
        ensures
            forall|item: T| #[trigger] svc.filter.spec_matches(item)
                == self.filter.spec_matches(item),
            forall|item: T| #[trigger] svc.filter.spec_delay(item)
                == self.filter.spec_delay(item),
            svc.service.log() == self.service.log(),
            svc.service.spec_ready() == self.service.spec_ready(),
            forall|req: T| #[trigger] svc.service.spec_response(req)
                == self.service.spec_response(req),
            svc.inner == inner_service,
    {
        let filter = self.filter.duplicate();
        let filtered_service = self.service.duplicate();
        AsyncFilterService {
            filter,
            service: filtered_service,
            inner: inner_service,
            _marker: PhantomData,
        }
    }
}

/// The asynchronous dispatcher: same shape as the synchronous one, but the
/// predicate's verdict arrives through a pending computation, so dispatch
/// hands back the select state machine and invocation happens lazily, on
/// the poll in which the verdict resolves.
pub struct AsyncFilterService<F, S, I, T, R, E> {
    pub filter: F,
    pub service: S,
    pub inner: I,
    pub _marker: PhantomData<(T, R, E)>,
}

impl<F, S, I, T, R, E> AsyncFilterService<F, S, I, T, R, E> where
    F: AsyncFilter<T>,
    S: Service<T, R, E>,
    I: Service<T, R, E>,
 {
    /// Conservative readiness: report ready only when both handlers do,
    /// exactly as in the synchronous dispatcher. No request is accepted
    /// here.
    pub fn poll_ready(&mut self) -> (r: Readiness<E>)
        ensures
            final(self).filter == old(self).filter,
            final(self).service.log() == old(self).service.log(),
            final(self).inner.log() == old(self).inner.log(),
            r == (if old(self).service.spec_ready() is Ready {
                old(self).inner.spec_ready()
            } else {
                old(self).service.spec_ready()
            }),
            !(old(self).service.spec_ready() is Ready) ==> final(self).inner == old(self).inner,
    {
        match self.service.poll_ready() {
            Readiness::Ready => self.inner.poll_ready(),
            other => other,
        }
    }

    /// Dispatch: ask the predicate about the request and construct the
    /// state machine in its initial phase, holding the pending verdict,
    /// the request, and fresh copies of both handlers. Neither handler is
    /// invoked yet; construction never suspends, and the dispatcher itself
    /// is left untouched.
    pub fn call(&mut self, req: T) -> (fut: SelectServiceAndCallFut<S, I, T, R, E>)
        ensures
            *final(self) == *old(self),
            fut.wf(),
            fut.record@ is None,
            fut.state matches SelectState::AwaitingPredicate { condition, value, primary, secondary }
                && condition == (BoolFuture {
                    turns_left: old(self).filter.spec_delay(req),
                    verdict: old(self).filter.spec_matches(req),
                })
                && value == req
                && primary.log() == old(self).service.log()
                && primary.spec_ready() == old(self).service.spec_ready()
                && (forall|q: T| #[trigger] primary.spec_response(q)
                    == old(self).service.spec_response(q))
                && secondary.log() == old(self).inner.log()
                && secondary.spec_ready() == old(self).inner.spec_ready()
                && (forall|q: T| #[trigger] secondary.spec_response(q)
                    == old(self).inner.spec_response(q)),
            fut.start@ == (DispatchStart {
                request: req,
                primary_log: old(self).service.log(),
                secondary_log: old(self).inner.log(),
            }),
    {
        let condition = self.filter.matches(&req);
        let service = self.service.duplicate();
        let inner = self.inner.duplicate();
        SelectServiceAndCallFut::new(condition, req, service, inner)
    }

    /// A fresh logical copy: same verdicts and delays, same
    /// accepted-request logs, same behaviour.
    pub fn duplicate(&self) -> (copy: Self)
        ensures
            forall|item: T| #[trigger] copy.filter.spec_matches(item)
                == self.filter.spec_matches(item),
            forall|item: T| #[trigger] copy.filter.spec_delay(item)
                == self.filter.spec_delay(item),
            copy.service.log() == self.service.log(),
            copy.inner.log() == self.inner.log(),
            copy.service.spec_ready() == self.service.spec_ready(),
            copy.inner.spec_ready() == self.inner.spec_ready(),
            forall|req: T| #[trigger] copy.service.spec_response(req)
                == self.service.spec_response(req),
            forall|req: T| #[trigger] copy.inner.spec_response(req)
                == self.inner.spec_response(req),
    {
        AsyncFilterService {
            filter: self.filter.duplicate(),
            service: self.service.duplicate(),
            inner: self.inner.duplicate(),
            _marker: PhantomData,
        }
    }
}

} // verus!
