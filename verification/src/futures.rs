//! The model of pending computations: values that are queried ("polled")
//! repeatedly until they deliver a final result, without blocking.
//!
//! A deterministic pending computation is characterized by how many polls
//! report "not yet done" before the result comes, and by the result itself;
//! the types here carry exactly those two pieces of data.

use vstd::prelude::*;
use crate::service::Service;

verus! {

/// The pending form of a predicate's yes/no answer: it suspends for
/// `turns_left` polls, then every further poll yields `verdict`.
#[derive(Clone, Copy)]
pub struct BoolFuture {
    pub turns_left: u64,
    pub verdict: bool,
}

impl BoolFuture {
    /// A pending verdict that suspends `turns_left` times before it
    /// resolves to `verdict`.
    pub fn new(turns_left: u64, verdict: bool) -> (fut: Self)
        ensures
            fut == (BoolFuture { turns_left, verdict }),
    {
        BoolFuture { turns_left, verdict }
    }

    /// An already-resolved verdict.
    pub fn ready(verdict: bool) -> (fut: Self)
        ensures
            fut == (BoolFuture { turns_left: 0u64, verdict }),
    {
        BoolFuture { turns_left: 0, verdict }
    }

    /// Make progress: either report "not yet done" and count the turn off,
    /// or deliver the verdict.
    pub fn poll(&mut self) -> (r: Option<bool>)
        ensures
            old(self).turns_left > 0 ==> r is None
                && *final(self) == (BoolFuture {
                    turns_left: (old(self).turns_left - 1) as u64,
                    verdict: old(self).verdict,
                }),
            old(self).turns_left == 0 ==> r == Some(old(self).verdict)
                && *final(self) == *old(self),
    {
        if self.turns_left > 0 {
            self.turns_left = self.turns_left - 1;
            None
        } else {
            Some(self.verdict)
        }
    }
}

/// A handler's pending computation: after `turns_left` polls that report
/// "not yet done", the next poll delivers `output` and the computation is
/// finished. Polling a finished computation is a caller error, ruled out
/// by `poll`'s precondition.
pub enum ResponseFuture<R, E> {
    Queued { turns_left: u64, output: Result<R, E> },
    Finished,
}

impl<R, E> ResponseFuture<R, E> {
    /// A pending computation that suspends `turns_left` times before
    /// delivering `output`.
    pub fn new(turns_left: u64, output: Result<R, E>) -> (fut: Self)
        ensures
            fut == (ResponseFuture::Queued { turns_left, output }),
    {
        ResponseFuture::Queued { turns_left, output }
    }

    /// A pending computation that delivers `output` on the first poll.
    pub fn ready(output: Result<R, E>) -> (fut: Self)
        ensures
            fut == (ResponseFuture::Queued { turns_left: 0u64, output }),
    {
        ResponseFuture::Queued { turns_left: 0, output }
    }

    /// Make progress: either report "not yet done" and count the turn off,
    /// or deliver the output and become finished.
    pub fn poll(&mut self) -> (r: Option<Result<R, E>>)
        requires
            *old(self) is Queued,
        ensures
            (*old(self))->turns_left > 0 ==> r is None
                && *final(self) == (ResponseFuture::Queued {
                    turns_left: ((*old(self))->turns_left - 1) as u64,
                    output: (*old(self))->output,
                }),
            (*old(self))->turns_left == 0 ==> r == Some((*old(self))->output)
                && *final(self) == ResponseFuture::<R, E>::Finished,
    {
        let mut taken = ResponseFuture::Finished;
        core::mem::swap(self, &mut taken);
        match taken {
            ResponseFuture::Queued { turns_left, output } => {
                if turns_left > 0 {
                    *self = ResponseFuture::Queued { turns_left: turns_left - 1, output };
                    None
                } else {
                    Some(output)
                }
            },
            ResponseFuture::Finished => vstd::pervasive::unreached(),
        }
    }
}

/// The tagged union over "pending-primary" / "pending-secondary": whichever
/// handler's pending computation was chosen, observed uniformly through one
/// poll contract. The tag never changes, and the chosen computation's
/// result -- response or failure -- is propagated verbatim.
pub enum ResultFuture<R, E> {
    Primary(ResponseFuture<R, E>),
    Secondary(ResponseFuture<R, E>),
}

impl<R, E> ResultFuture<R, E> {
    /// The pending computation behind the tag.
    pub open spec fn pending(&self) -> ResponseFuture<R, E> {
        match *self {
            ResultFuture::Primary(fut) => fut,
            ResultFuture::Secondary(fut) => fut,
        }
    }

    /// Poll the chosen computation and propagate its progress unchanged.
    pub fn poll(&mut self) -> (r: Option<Result<R, E>>)
        requires
            old(self).pending() is Queued,
        ensures
            *final(self) is Primary <==> *old(self) is Primary,
            old(self).pending()->turns_left > 0 ==> r is None
                && final(self).pending() == (ResponseFuture::Queued {
                    turns_left: (old(self).pending()->turns_left - 1) as u64,
                    output: old(self).pending()->output,
                }),
            old(self).pending()->turns_left == 0 ==> r == Some(old(self).pending()->output)
                && final(self).pending() is Finished,
    {
        match self {
            ResultFuture::Primary(fut) => fut.poll(),
            ResultFuture::Secondary(fut) => fut.poll(),
        }
    }
}

/// What a dispatch was started with: the request, and the two handler
/// copies' accepted-request logs at construction time. Ghost bookkeeping
/// against which the machine's guarantees are stated.
#[verifier::reject_recursive_types(T)]
pub struct DispatchStart<T> {
    pub request: T,
    pub primary_log: Seq<T>,
    pub secondary_log: Seq<T>,
}

/// Ghost record of the single invocation a dispatch performs: which handler
/// was chosen, the chosen copy's log after it accepted the request, and the
/// discarded copy's log, untouched.
#[verifier::reject_recursive_types(T)]
pub struct DispatchRecord<T> {
    pub chose_primary: bool,
    pub invoked_log: Seq<T>,
    pub discarded_log: Seq<T>,
}

/// Exactly one of the two handler copies accepted the dispatched request,
/// exactly once, and the other accepted nothing.
pub open spec fn exclusive_invocation<T>(start: DispatchStart<T>, rec: DispatchRecord<T>) -> bool {
    if rec.chose_primary {
        &&& rec.invoked_log == start.primary_log.push(start.request)
        &&& rec.discarded_log == start.secondary_log
    } else {
        &&& rec.invoked_log == start.secondary_log.push(start.request)
        &&& rec.discarded_log == start.primary_log
    }
}

/// The three phases of a dispatch whose predicate verdict is itself a
/// pending computation. Transitions move the owned fields out of the old
/// phase and into the next one; the non-selected handler copy is discarded
/// at the moment of selection.
pub enum SelectState<A, B, T, R, E> {
    /// Initial: the verdict is still pending; the request is still owned
    /// here, together with fresh copies of both handlers.
    AwaitingPredicate { condition: BoolFuture, value: T, primary: A, secondary: B },
    /// The verdict resolved and the chosen handler was invoked; only its
    /// pending computation is held. This phase never branches again.
    AwaitingHandler { future: ResultFuture<R, E> },
    /// Terminal: a result has been produced. Polling again is a caller
    /// error, ruled out by `poll`'s precondition.
    Done,
}

/// The dispatch state machine: polls the predicate's pending verdict to
/// completion, then -- in the same turn the verdict resolves -- hands the
/// request to the chosen handler and propagates that handler's pending
/// result verbatim. No failure originates here.
#[verifier::reject_recursive_types(T)]
pub struct SelectServiceAndCallFut<A, B, T, R, E> {
    pub state: SelectState<A, B, T, R, E>,
    /// What the dispatch was started with (ghost).
    pub start: Ghost<DispatchStart<T>>,
    /// The invocation performed so far: `None` while the verdict is
    /// pending, then `Some` forever (ghost).
    pub record: Ghost<Option<DispatchRecord<T>>>,
}

impl<A, B, T, R, E> SelectServiceAndCallFut<A, B, T, R, E> where
    A: Service<T, R, E>,
    B: Service<T, R, E>,
 {
    /// Internal consistency, established by `new` and preserved by every
    /// poll: while the verdict is pending nothing has been invoked and the
    /// request is intact; from the moment of selection on, exactly one
    /// handler copy has accepted exactly the dispatched request.
    pub open spec fn wf(&self) -> bool {
        match self.state {
            SelectState::AwaitingPredicate { condition: _, value, primary, secondary } => {
                &&& self.record@ is None
                &&& value == self.start@.request
                &&& primary.log() == self.start@.primary_log
                &&& secondary.log() == self.start@.secondary_log
            },
            SelectState::AwaitingHandler { future } => {
                &&& future.pending() is Queued
                &&& self.record@ matches Some(rec) && exclusive_invocation(self.start@, rec)
                    && (future is Primary <==> rec.chose_primary)
            },
            SelectState::Done => {
                self.record@ matches Some(rec) && exclusive_invocation(self.start@, rec)
            },
        }
    }

    /// Start a dispatch: hold the pending verdict, the request and both
    /// handler copies. Neither handler is invoked yet -- invocation happens
    /// lazily, on the poll in which the verdict resolves. Never suspends.
    pub fn new(condition: BoolFuture, value: T, service_a: A, service_b: B) -> (fut: Self)
        ensures
            fut.state == (SelectState::<A, B, T, R, E>::AwaitingPredicate {
                condition,
                value,
                primary: service_a,
                secondary: service_b,
            }),
            fut.start@ == (DispatchStart {
                request: value,
                primary_log: service_a.log(),
                secondary_log: service_b.log(),
            }),
            fut.record@ is None,
            fut.wf(),
    {
        let ghost start = DispatchStart {
            request: value,
            primary_log: service_a.log(),
            secondary_log: service_b.log(),
        };
        SelectServiceAndCallFut {
            state: SelectState::AwaitingPredicate {
                condition,
                value,
                primary: service_a,
                secondary: service_b,
            },
            start: Ghost(start),
            record: Ghost(None),
        }
    }

    /// Make progress on the dispatch.
    ///
    /// While the verdict is pending: suspend, count one turn off the
    /// verdict's delay, and invoke nothing. On the poll in which the
    /// verdict resolves: hand the request to the chosen handler, discard
    /// the other copy, and poll the chosen computation in the same turn.
    /// Afterwards: propagate the chosen computation's progress verbatim.
    pub fn poll(&mut self) -> (r: Option<Result<R, E>>)
        requires
            old(self).wf(),
            !(old(self).state is Done),
        ensures
            final(self).wf(),
            final(self).start == old(self).start,
            old(self).state matches SelectState::AwaitingPredicate {
                condition, value, primary, secondary } ==> ({
                if condition.turns_left > 0 {
                    &&& r is None
                    &&& final(self).record@ is None
                    &&& final(self).state == (SelectState::<A, B, T, R, E>::AwaitingPredicate {
                        condition: (BoolFuture {
                            turns_left: (condition.turns_left - 1) as u64,
                            verdict: condition.verdict,
                        }),
                        value,
                        primary,
                        secondary,
                    })
                } else {
                    let chosen = if condition.verdict {
                        primary.spec_response(value)
                    } else {
                        secondary.spec_response(value)
                    };
                    &&& final(self).record@ matches Some(rec)
                        && rec.chose_primary == condition.verdict
                    &&& chosen->turns_left > 0 ==> (final(self).state matches
                        SelectState::AwaitingHandler { future }
                        && r is None
                        && (future is Primary <==> condition.verdict)
                        && future.pending() == (ResponseFuture::Queued {
                            turns_left: (chosen->turns_left - 1) as u64,
                            output: chosen->output,
                        }))
                    &&& chosen->turns_left == 0 ==> r == Some(chosen->output)
                        && final(self).state is Done
                }
            }),
            old(self).state matches SelectState::AwaitingHandler { future } ==> ({
                &&& final(self).record == old(self).record
                &&& future.pending()->turns_left > 0 ==> (final(self).state matches
                    SelectState::AwaitingHandler { future: f2 }
                    && r is None
                    && (f2 is Primary <==> future is Primary)
                    && f2.pending() == (ResponseFuture::Queued {
                        turns_left: (future.pending()->turns_left - 1) as u64,
                        output: future.pending()->output,
                    }))
                &&& future.pending()->turns_left == 0 ==> r == Some(future.pending()->output)
                    && final(self).state is Done
            }),
    {
        let mut taken: SelectState<A, B, T, R, E> = SelectState::Done;
        core::mem::swap(&mut self.state, &mut taken);
        match taken {
            SelectState::AwaitingHandler { mut future } => {
                let res = future.poll();
                match res {
                    Some(out) => Some(out),
                    None => {
                        self.state = SelectState::AwaitingHandler { future };
                        None
                    },
                }
            },
            SelectState::AwaitingPredicate { mut condition, value, mut primary, mut secondary } => {
                match condition.poll() {
                    None => {
                        self.state = SelectState::AwaitingPredicate {
                            condition,
                            value,
                            primary,
                            secondary,
                        };
                        None
                    },
                    Some(select) => {
                        let mut future = if select {
                            ResultFuture::Primary(primary.call(value))
                        } else {
                            ResultFuture::Secondary(secondary.call(value))
                        };
                        self.record = Ghost(Some(DispatchRecord {
                            chose_primary: select,
                            invoked_log: if select { primary.log() } else { secondary.log() },
                            discarded_log: if select { secondary.log() } else { primary.log() },
                        }));
                        let res = future.poll();
                        match res {
                            Some(out) => Some(out),
                            None => {
                                self.state = SelectState::AwaitingHandler { future };
                                None
                            },
                        }
                    },
                }
            },
            SelectState::Done => vstd::pervasive::unreached(),
        }
    }
}

/// The exclusivity law: for every dispatch and every predicate outcome,
/// once the machine has left its initial phase, exactly one of the two
/// handler copies has accepted the dispatched request, exactly once, and
/// the other has accepted nothing.
pub proof fn lemma_exclusive_invocation<A, B, T, R, E>(fut: SelectServiceAndCallFut<A, B, T, R, E>)
    where
        A: Service<T, R, E>,
        B: Service<T, R, E>,
    requires
        fut.wf(),
        !(fut.state is AwaitingPredicate),
    ensures
        fut.record@ matches Some(rec) && exclusive_invocation(fut.start@, rec),
{
}

} // verus!
