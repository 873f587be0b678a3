//! Ready-made predicates and handlers: constant and delayed verdicts, a
//! substring predicate over textual requests, and a handler that answers
//! every request with a fixed response.

use vstd::prelude::*;
use vstd::string::StrSliceExecFns;
use crate::Filter;
use crate::async_feature::AsyncFilter;
use crate::futures::{BoolFuture, ResponseFuture};
use crate::service::{Readiness, Service};

verus! {

/// A predicate with a constant verdict. It serves both as an
/// instantaneous predicate and as a suspension-aware one whose verdict
/// resolves on the first poll.
#[derive(Clone, Copy)]
pub struct TestFilter(pub bool);

impl<T> Filter<T> for TestFilter {
    open spec fn spec_matches(&self, item: T) -> bool {
        self.0
    }

    fn matches(&self, item: &T) -> (verdict: bool) {
        self.0
    }

    fn duplicate(&self) -> (copy: Self) {
        TestFilter(self.0)
    }
}

impl<T> AsyncFilter<T> for TestFilter {
    open spec fn spec_matches(&self, item: T) -> bool {
        self.0
    }

    open spec fn spec_delay(&self, item: T) -> u64 {
        0
    }

    fn matches(&self, item: &T) -> (fut: BoolFuture) {
        BoolFuture::ready(self.0)
    }

    fn duplicate(&self) -> (copy: Self) {
        TestFilter(self.0)
    }
}

/// A suspension-aware predicate with a constant verdict that resolves
/// only after a fixed number of scheduler turns.
#[derive(Clone, Copy)]
pub struct DelayedFilter(pub bool, pub u64);

impl<T> AsyncFilter<T> for DelayedFilter {
    open spec fn spec_matches(&self, item: T) -> bool {
        self.0
    }

    open spec fn spec_delay(&self, item: T) -> u64 {
        self.1
    }

    fn matches(&self, item: &T) -> (fut: BoolFuture) {
        BoolFuture::new(self.1, self.0)
    }

    fn duplicate(&self) -> (copy: Self) {
        DelayedFilter(self.0, self.1)
    }
}

/// A handler that is always ready, never fails, and answers every request
/// with a fixed response, delivered on the first poll.
#[verifier::reject_recursive_types(T)]
pub struct TestService<T, R> {
    pub response: R,
    /// The requests accepted so far (ghost).
    pub accepted: Ghost<Seq<T>>,
}

impl<T, R: Copy> TestService<T, R> {
    /// A handler answering every request with `response`.
    pub fn new(response: R) -> (svc: Self)
        ensures
            svc.response == response,
            svc.accepted@ == Seq::<T>::empty(),
    {
        TestService { response, accepted: Ghost(Seq::empty()) }
    }
}

impl<T, R: Copy> Service<T, R, &'static str> for TestService<T, R> {
    open spec fn log(&self) -> Seq<T> {
        self.accepted@
    }

    open spec fn spec_ready(&self) -> Readiness<&'static str> {
        Readiness::Ready
    }

    open spec fn spec_response(&self, req: T) -> ResponseFuture<R, &'static str> {
        ResponseFuture::Queued { turns_left: 0u64, output: Ok(self.response) }
    }

    fn poll_ready(&mut self) -> (r: Readiness<&'static str>) {
        Readiness::Ready
    }

    fn call(&mut self, req: T) -> (fut: ResponseFuture<R, &'static str>) {
        self.accepted = Ghost(self.accepted@.push(req));
        ResponseFuture::ready(Ok(self.response))
    }

    fn duplicate(&self) -> (copy: Self) {
        TestService { response: self.response, accepted: self.accepted }
    }
}

/// A handler that is always ready but answers every request with a fixed
/// failure, delivered on the first poll.
#[verifier::reject_recursive_types(T)]
pub struct FailingService<T, E> {
    pub error: E,
    /// The requests accepted so far (ghost).
    pub accepted: Ghost<Seq<T>>,
}

impl<T, E: Copy> FailingService<T, E> {
    /// A handler failing every request with `error`.
    pub fn new(error: E) -> (svc: Self)
        ensures
            svc.error == error,
            svc.accepted@ == Seq::<T>::empty(),
    {
        FailingService { error, accepted: Ghost(Seq::empty()) }
    }
}

impl<T, R, E: Copy> Service<T, R, E> for FailingService<T, E> {
    open spec fn log(&self) -> Seq<T> {
        self.accepted@
    }

    open spec fn spec_ready(&self) -> Readiness<E> {
        Readiness::Failed(self.error)
    }

    open spec fn spec_response(&self, req: T) -> ResponseFuture<R, E> {
        ResponseFuture::Queued { turns_left: 0u64, output: Err(self.error) }
    }

    fn poll_ready(&mut self) -> (r: Readiness<E>) {
        Readiness::Failed(self.error)
    }

    fn call(&mut self, req: T) -> (fut: ResponseFuture<R, E>) {
        self.accepted = Ghost(self.accepted@.push(req));
        ResponseFuture::ready(Err(self.error))
    }

    fn duplicate(&self) -> (copy: Self) {
        FailingService { error: self.error, accepted: self.accepted }
    }
}

/// A handler that never becomes ready; its readiness query always asks
/// the caller to try again later.
#[verifier::reject_recursive_types(T)]
pub struct BusyService<T, R> {
    pub response: R,
    /// The requests accepted so far (ghost).
    pub accepted: Ghost<Seq<T>>,
}

impl<T, R: Copy> BusyService<T, R> {
    /// A never-ready handler that would answer with `response`.
    pub fn new(response: R) -> (svc: Self)
        ensures
            svc.response == response,
            svc.accepted@ == Seq::<T>::empty(),
    {
        BusyService { response, accepted: Ghost(Seq::empty()) }
    }
}

impl<T, R: Copy> Service<T, R, &'static str> for BusyService<T, R> {
    open spec fn log(&self) -> Seq<T> {
        self.accepted@
    }

    open spec fn spec_ready(&self) -> Readiness<&'static str> {
        Readiness::Pending
    }

    open spec fn spec_response(&self, req: T) -> ResponseFuture<R, &'static str> {
        ResponseFuture::Queued { turns_left: 0u64, output: Ok(self.response) }
    }

    fn poll_ready(&mut self) -> (r: Readiness<&'static str>) {
        Readiness::Pending
    }

    fn call(&mut self, req: T) -> (fut: ResponseFuture<R, &'static str>) {
        self.accepted = Ghost(self.accepted@.push(req));
        ResponseFuture::ready(Ok(self.response))
    }

    fn duplicate(&self) -> (copy: Self) {
        BusyService { response: self.response, accepted: self.accepted }
    }
}

/// A handler that is always ready but whose pending computation suspends
/// a fixed number of turns before it delivers the response.
#[verifier::reject_recursive_types(T)]
pub struct SlowService<T, R> {
    pub response: R,
    pub delay: u64,
    /// The requests accepted so far (ghost).
    pub accepted: Ghost<Seq<T>>,
}

impl<T, R: Copy> SlowService<T, R> {
    /// A handler answering every request with `response` after `delay`
    /// suspensions.
    pub fn new(response: R, delay: u64) -> (svc: Self)
        ensures
            svc.response == response,
            svc.delay == delay,
            svc.accepted@ == Seq::<T>::empty(),
    {
        SlowService { response, delay, accepted: Ghost(Seq::empty()) }
    }
}

impl<T, R: Copy> Service<T, R, &'static str> for SlowService<T, R> {
    open spec fn log(&self) -> Seq<T> {
        self.accepted@
    }

    open spec fn spec_ready(&self) -> Readiness<&'static str> {
        Readiness::Ready
    }

    open spec fn spec_response(&self, req: T) -> ResponseFuture<R, &'static str> {
        ResponseFuture::Queued { turns_left: self.delay, output: Ok(self.response) }
    }

    fn poll_ready(&mut self) -> (r: Readiness<&'static str>) {
        Readiness::Ready
    }

    fn call(&mut self, req: T) -> (fut: ResponseFuture<R, &'static str>) {
        self.accepted = Ghost(self.accepted@.push(req));
        ResponseFuture::new(self.delay, Ok(self.response))
    }

    fn duplicate(&self) -> (copy: Self) {
        SlowService { response: self.response, delay: self.delay, accepted: self.accepted }
    }
}

/// A handler that answers every request with the request itself,
/// delivered on the first poll; it makes visible, at run time, that the
/// dispatched request reaches the chosen handler unchanged.
#[verifier::reject_recursive_types(T)]
pub struct EchoService<T> {
    /// The requests accepted so far (ghost).
    pub accepted: Ghost<Seq<T>>,
}

impl<T: Copy> EchoService<T> {
    /// A handler echoing every request back.
    pub fn new() -> (svc: Self)
        ensures
            svc.accepted@ == Seq::<T>::empty(),
    {
        EchoService { accepted: Ghost(Seq::empty()) }
    }
}

impl<T: Copy> Service<T, T, &'static str> for EchoService<T> {
    open spec fn log(&self) -> Seq<T> {
        self.accepted@
    }

    open spec fn spec_ready(&self) -> Readiness<&'static str> {
        Readiness::Ready
    }

    open spec fn spec_response(&self, req: T) -> ResponseFuture<T, &'static str> {
        ResponseFuture::Queued { turns_left: 0u64, output: Ok(req) }
    }

    fn poll_ready(&mut self) -> (r: Readiness<&'static str>) {
        Readiness::Ready
    }

    fn call(&mut self, req: T) -> (fut: ResponseFuture<T, &'static str>) {
        self.accepted = Ghost(self.accepted@.push(req));
        ResponseFuture::ready(Ok(req))
    }

    fn duplicate(&self) -> (copy: Self) {
        EchoService { accepted: self.accepted }
    }
}

/// Does `needle` occur in `hay` starting at position `i`?
pub open spec fn match_at(hay: Seq<char>, needle: Seq<char>, i: int) -> bool {
    hay.subrange(i, i + needle.len()) == needle
}

/// Does `needle` occur anywhere in `hay` as a contiguous run?
pub open spec fn contains_seq(hay: Seq<char>, needle: Seq<char>) -> bool {
    exists|i: int| 0 <= i <= hay.len() - needle.len() && match_at(hay, needle, i)
}

/// Substring search, character by character.
pub fn contains_substr(hay: &str, needle: &str) -> (found: bool)
    ensures
        found == contains_seq(hay@, needle@),
{
    let hay_len = hay.unicode_len();
    let needle_len = needle.unicode_len();
    if needle_len > hay_len {
        return false;
    }
    let mut i: usize = 0;
    while i <= hay_len - needle_len
        invariant
            hay_len == hay@.len(),
            needle_len == needle@.len(),
            needle_len <= hay_len,
            i <= hay_len - needle_len + 1,
            forall|j: int| 0 <= j < i ==> !match_at(hay@, needle@, j),
        decreases hay_len - needle_len + 1 - i,
    {
        let mut k: usize = 0;
        let mut matched = true;
        while k < needle_len
            invariant
                hay_len == hay@.len(),
                needle_len == needle@.len(),
                i + needle_len <= hay_len,
                k <= needle_len,
                matched == (forall|m: int| 0 <= m < k ==> hay@[i + m] == needle@[m]),
            decreases needle_len - k,
        {
            let hc = hay.get_char(i + k);
            let nc = needle.get_char(k);
            if hc != nc {
                matched = false;
            }
            k = k + 1;
        }
        proof {
            if matched {
                assert(hay@.subrange(i as int, i + needle@.len()) =~= needle@);
                assert(match_at(hay@, needle@, i as int));
                assert(contains_seq(hay@, needle@));
            } else {
                if match_at(hay@, needle@, i as int) {
                    assert forall|m: int| 0 <= m < needle@.len() implies hay@[i + m]
                        == needle@[m] by {
                        assert(hay@.subrange(i as int, i + needle@.len())[m] == hay@[i + m]);
                    }
                    assert(false);
                }
            }
        }
        if matched {
            return true;
        }
        i = i + 1;
    }
    false
}

/// An instantaneous predicate over textual requests: matches when the
/// pattern occurs in the request as a contiguous substring.
pub struct SubstringFilter {
    pub pattern: String,
}

impl SubstringFilter {
    /// A predicate matching requests that contain `pattern`.
    pub fn new(pattern: String) -> (filter: Self)
        ensures
            filter.pattern == pattern,
    {
        SubstringFilter { pattern }
    }
}

impl Filter<String> for SubstringFilter {
    open spec fn spec_matches(&self, item: String) -> bool {
        contains_seq(item@, self.pattern@)
    }

    fn matches(&self, item: &String) -> (verdict: bool) {
        contains_substr(item.as_str(), self.pattern.as_str())
    }

    fn duplicate(&self) -> (copy: Self) {
        SubstringFilter { pattern: self.pattern.clone() }
    }
}

} // verus!
