//! The domain state engine: what a session's state is, how a request
//! mutates it, and how it is replayed to a newly attached connection.
//!
//! The domain here is a signed 64-bit counter. `Increment` and
//! `Decrement` wrap at the ends of the range, so every request is total:
//! applying one can never fail or panic.

use vstd::prelude::*;

verus! {

/// A request a client may send to a session: the closed set of operations
/// on the counter domain. Arrives over the inbound queue in FIFO order.
#[derive(Clone, Copy, PartialEq, Eq, Structural, Debug)]
pub enum Request {
    Increment(),
    Decrement(),
    Reset(),
}

/// A response broadcast to every attached connection. `Counter` carries the
/// counter value after the update that produced it.
#[derive(Clone, Copy, PartialEq, Eq, Structural, Debug)]
pub enum Response {
    Counter(i64),
}

/// One session's domain state: exclusively owned and mutated by exactly one
/// session actor.
#[derive(Clone, Copy, PartialEq, Eq, Structural, Debug)]
pub struct SessionState {
    pub value: i64,
}

/// The counter value after applying one request, wrapping at the ends of
/// the `i64` range.
pub open spec fn apply_request(v: i64, req: Request) -> i64 {
    match req {
        Request::Increment() => if v == i64::MAX { i64::MIN } else { (v + 1) as i64 },
        Request::Decrement() => if v == i64::MIN { i64::MAX } else { (v - 1) as i64 },
        Request::Reset() => 0,
    }
}

/// The left-fold of a whole request sequence over `apply_request`, starting
/// from `init`: the value a session holds after processing the sequence.
pub open spec fn fold_requests(init: i64, reqs: Seq<Request>) -> i64
    decreases reqs.len(),
{
    if reqs.len() == 0 {
        init
    } else {
        apply_request(fold_requests(init, reqs.drop_last()), reqs.last())
    }
}

/// The responses one request yields: exactly one, carrying the new value.
pub open spec fn update_responses(v: i64, req: Request) -> Seq<Response> {
    seq![Response::Counter(apply_request(v, req))]
}

/// The snapshot replay of a state: one response carrying the current value,
/// equivalent to replaying history from empty to current.
pub open spec fn dump_responses(v: i64) -> Seq<Response> {
    seq![Response::Counter(v)]
}

/// Every response a session starting at `init` has broadcast after
/// processing `reqs`, in production order.
pub open spec fn history_of(init: i64, reqs: Seq<Request>) -> Seq<Response>
    decreases reqs.len(),
{
    if reqs.len() == 0 {
        seq![]
    } else {
        history_of(init, reqs.drop_last())
            + update_responses(fold_requests(init, reqs.drop_last()), reqs.last())
    }
}

/// The pluggable domain engine: how requests mutate state and how state is
/// snapshotted. A session actor is written against this contract alone.
pub trait State: Sized {
    /// The state after applying `req` in state `pre`.
    spec fn next_spec(pre: Self, req: Request) -> Self;

    /// The responses that applying `req` in state `pre` broadcasts.
    spec fn responses_spec(pre: Self, req: Request) -> Seq<Response>;

    /// The responses that replay this state to a fresh connection.
    spec fn dump_spec(self) -> Seq<Response>;

    /// Apply one request in place, yielding the responses to broadcast.
    fn update(&mut self, req: Request) -> (out: Vec<Response>)
        ensures
            *final(self) == Self::next_spec(*old(self), req),
            out@ == Self::responses_spec(*old(self), req),
    ;

    /// Replay the current state as a sequence of responses: what a newly
    /// attached connection receives before any incremental update.
    fn dump(&self) -> (out: Vec<Response>)
        ensures
            out@ == self.dump_spec(),
    ;
}

impl State for SessionState {
    open spec fn next_spec(pre: Self, req: Request) -> Self {
        SessionState { value: apply_request(pre.value, req) }
    }

    open spec fn responses_spec(pre: Self, req: Request) -> Seq<Response> {
        update_responses(pre.value, req)
    }

    open spec fn dump_spec(self) -> Seq<Response> {
        dump_responses(self.value)
    }

    fn update(&mut self, req: Request) -> (out: Vec<Response>) {
        match req {
            Request::Increment() => {
                self.value = if self.value == i64::MAX { i64::MIN } else { self.value + 1 };
            },
            Request::Decrement() => {
                self.value = if self.value == i64::MIN { i64::MAX } else { self.value - 1 };
            },
            Request::Reset() => {
                self.value = 0;
            },
        }
        let mut out: Vec<Response> = Vec::new();
        out.push(Response::Counter(self.value));
        out
    }

    fn dump(&self) -> (out: Vec<Response>) {
        let mut out: Vec<Response> = Vec::new();
        out.push(Response::Counter(self.value));
        out
    }
}

impl Default for SessionState {
    /// A fresh session starts at zero.
    fn default() -> (s: Self)
        ensures
            s.value == 0,
    {
        SessionState { value: 0 }
    }
}

} // verus!
