//! The downstream handler capability: a duplicable handle that answers a
//! readiness query and accepts ownership of a request, handing back a
//! pending computation that resolves to a response or a failure.

use vstd::prelude::*;
use crate::futures::ResponseFuture;

verus! {

/// The answer to a readiness query. A handler that is `Ready` can accept a
/// request without misbehaving; `Pending` asks the caller to try again
/// later; `Failed` reports that the handler is broken.
pub enum Readiness<E> {
    Ready,
    Pending,
    Failed(E),
}

/// A handler for requests of type `T`, producing responses of type `R` or
/// failures of type `E`.
///
/// Three spec functions model the handler: `log()` records, in order,
/// every request it has accepted; `spec_ready()` is the answer its next
/// readiness query gives; `spec_response(req)` is the pending computation
/// a call on `req` hands back. The contracts pin the executable methods to
/// this model: a readiness query never accepts a request, `call` accepts
/// exactly the one request it is given and returns exactly the modelled
/// computation, and a duplicate starts from the same log with the same
/// behaviour. On these facts rest the dispatchers' exclusivity,
/// conservation and propagation guarantees.
pub trait Service<T, R, E>: Sized {
    /// The requests this handler has accepted so far, in order.
    spec fn log(&self) -> Seq<T>;

    /// The answer the next readiness query gives in this state.
    spec fn spec_ready(&self) -> Readiness<E>;

    /// The pending computation a call on `req` hands back in this state.
    spec fn spec_response(&self, req: T) -> ResponseFuture<R, E>;

    /// Readiness query, independent of any particular request. It must
    /// not accept a request, and it answers as the model says; it may
    /// update the handler's own state (a handler can become ready later).
    fn poll_ready(&mut self) -> (r: Readiness<E>)
        ensures
            final(self).log() == old(self).log(),
            r == old(self).spec_ready(),
    ;

    /// Accept ownership of `req` and hand back the modelled, not yet
    /// finished pending computation that will resolve to the response or
    /// the failure.
    fn call(&mut self, req: T) -> (fut: ResponseFuture<R, E>)
        ensures
            final(self).log() == old(self).log().push(req),
            fut == old(self).spec_response(req),
            fut is Queued,
    ;

    /// A fresh logical copy for one invocation, so that concurrent
    /// in-flight calls do not interfere. The copy answers for the same
    /// accepted requests and shows the same readiness and responses.
    fn duplicate(&self) -> (copy: Self)
        ensures
            copy.log() == self.log(),
            copy.spec_ready() == self.spec_ready(),
            forall|req: T| #[trigger] copy.spec_response(req) == self.spec_response(req),
    ;
}

} // verus!
