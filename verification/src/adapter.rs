//! The connection adapter: the decisions of the reader/writer task pair
//! that bridges one attached socket to the session actor.
//!
//! The reader task repeatedly waits for the next inbound frame, an
//! inactivity timeout, or the pair's cancellation signal, and asks
//! [`reader_step`] what to do; the writer task replays the snapshot frames
//! from [`encode_snapshot`] and then relays every subsequently broadcast
//! response. The shared cancellation signal, the timers and the sockets
//! stay in the shell: once either half decides `Stop`, the shell signals
//! the pair's token and both halves stop within one cycle.
//!
//! [`SubscriberModel`] is the observation model of one subscribed
//! connection: what the bounded multi-subscriber broadcast channel lets a
//! connection see of the actor's response history. Receiving delivers the
//! next response in production order; a writer that falls behind has the
//! oldest unread responses evicted from its view (the lagging-subscriber
//! drop policy) rather than stalling the session. The order-consistency
//! law at the bottom holds of every interleaving of those two moves.

use vstd::prelude::*;

use crate::codec::{encode_response, parse_request, request_of_frame, response_frame};
use crate::domain::{Request, Response};

verus! {

/// What the reader task of one connection wakes on.
pub enum ReaderEvent {
    /// A text frame arrived, holding these bytes.
    Frame(Vec<u8>),
    /// Something other than a text frame arrived (control frame, binary
    /// frame, or a receive error local to this socket).
    NonText,
    /// The socket's inbound stream ended: the peer is gone.
    Closed,
    /// No inbound frame arrived within the inactivity timeout.
    InactivityTimeout,
    /// The pair's cancellation signal fired (the writer half stopped).
    Cancelled,
}

/// What the reader task does next.
#[derive(Clone, Copy, PartialEq, Eq, Structural, Debug)]
pub enum ReaderAction {
    /// Forward this request into the session's inbound queue, suspending
    /// while the queue is full.
    Forward(Request),
    /// Drop the frame and keep reading. A malformed or non-text frame is
    /// a connection-local protocol error, never a session-wide fault.
    Ignore,
    /// Stop reading and signal the pair's cancellation token, so the
    /// writer half stops within one cycle too.
    Stop,
}

/// The reader's decision for one event.
pub open spec fn reader_decision(ev: ReaderEvent) -> ReaderAction {
    match ev {
        ReaderEvent::Frame(bytes) => match request_of_frame(bytes@) {
            Some(req) => ReaderAction::Forward(req),
            None => ReaderAction::Ignore,
        },
        ReaderEvent::NonText => ReaderAction::Ignore,
        ReaderEvent::Closed => ReaderAction::Stop,
        ReaderEvent::InactivityTimeout => ReaderAction::Stop,
        ReaderEvent::Cancelled => ReaderAction::Stop,
    }
}

/// Decide the reader task's next move for one event: forward exactly the
/// well-formed request frames, drop everything else frame-local, stop on
/// closure, inactivity or cancellation.
pub fn reader_step(ev: &ReaderEvent) -> (act: ReaderAction)
    ensures
        act == reader_decision(*ev),
{
    match ev {
        ReaderEvent::Frame(bytes) => match parse_request(bytes.as_slice()) {
            Some(req) => ReaderAction::Forward(req),
            None => ReaderAction::Ignore,
        },
        ReaderEvent::NonText => ReaderAction::Ignore,
        ReaderEvent::Closed => ReaderAction::Stop,
        ReaderEvent::InactivityTimeout => ReaderAction::Stop,
        ReaderEvent::Cancelled => ReaderAction::Stop,
    }
}

/// Encode a snapshot replay as wire frames, one per response, in order:
/// what the writer task sends to a newly attached connection before any
/// later broadcast.
pub fn encode_snapshot(snapshot: &Vec<Response>) -> (frames: Vec<Vec<u8>>)
    ensures
        frames@.len() == snapshot@.len(),
        forall|i: int|
            0 <= i < snapshot@.len() ==> frames@[i]@ == response_frame(#[trigger] snapshot@[i]),
{
    let mut frames: Vec<Vec<u8>> = Vec::new();
    let mut i: usize = 0;
    while i < snapshot.len()
        invariant
            i <= snapshot@.len(),
            frames@.len() == i,
            forall|j: int|
                0 <= j < i ==> frames@[j]@ == response_frame(#[trigger] snapshot@[j]),
        decreases snapshot@.len() - i,
    {
        frames.push(encode_response(&snapshot[i]));
        i += 1;
    }
    frames
}

/// Whether `a` occurs inside `b` in order: `a` can be obtained from `b`
/// by deleting elements without reordering.
pub open spec fn is_subsequence<T>(a: Seq<T>, b: Seq<T>) -> bool
    decreases b.len(),
{
    if a.len() == 0 {
        true
    } else if b.len() == 0 {
        false
    } else if a.last() == b.last() {
        is_subsequence(a.drop_last(), b.drop_last())
    } else {
        is_subsequence(a, b.drop_last())
    }
}

/// Whether `a` occurs inside `b` in order: the executable face of
/// [`is_subsequence`], for checking that one connection's observed
/// response stream is order-consistent with another's.
pub fn subsequence_of(a: &[Response], b: &[Response]) -> (r: bool)
    ensures
        r == is_subsequence(a@, b@),
    decreases b@.len(),
{
    if a.len() == 0 {
        true
    } else if b.len() == 0 {
        false
    } else if a[a.len() - 1] == b[b.len() - 1] {
        let r = subsequence_of(&a[0..a.len() - 1], &b[0..b.len() - 1]);
        proof {
            assert(a@.subrange(0, a@.len() - 1) =~= a@.drop_last());
            assert(b@.subrange(0, b@.len() - 1) =~= b@.drop_last());
        }
        r
    } else {
        let r = subsequence_of(a, &b[0..b.len() - 1]);
        proof {
            assert(b@.subrange(0, b@.len() - 1) =~= b@.drop_last());
        }
        r
    }
}

/// A subsequence of `b` stays one after dropping its own last element.
pub proof fn lemma_subsequence_drop_last<T>(a: Seq<T>, b: Seq<T>)
    requires
        is_subsequence(a, b),
        a.len() > 0,
    ensures
        is_subsequence(a.drop_last(), b),
    decreases b.len(),
{
    let ad = a.drop_last();
    if ad.len() > 0 {
        let bd = b.drop_last();
        if a.last() == b.last() {
            if ad.last() == b.last() {
                lemma_subsequence_drop_last(ad, bd);
            }
        } else {
            lemma_subsequence_drop_last(a, bd);
            if ad.last() == b.last() {
                lemma_subsequence_drop_last(ad, bd);
            }
        }
    }
}

/// A subsequence of `b` is a subsequence of `b` extended by one element.
pub proof fn lemma_subsequence_extend<T>(a: Seq<T>, b: Seq<T>, x: T)
    requires
        is_subsequence(a, b),
    ensures
        is_subsequence(a, b.push(x)),
{
    if a.len() > 0 {
        assert(b.push(x).drop_last() =~= b);
        if a.last() == x {
            lemma_subsequence_drop_last(a, b);
        }
    }
}

/// A subsequence of `b` is a subsequence of `b` extended by any suffix.
pub proof fn lemma_subsequence_concat<T>(a: Seq<T>, b: Seq<T>, ext: Seq<T>)
    requires
        is_subsequence(a, b),
    ensures
        is_subsequence(a, b + ext),
    decreases ext.len(),
{
    if ext.len() == 0 {
        assert(b + ext =~= b);
    } else {
        lemma_subsequence_concat(a, b, ext.drop_last());
        lemma_subsequence_extend(a, b + ext.drop_last(), ext.last());
        assert((b + ext.drop_last()).push(ext.last()) =~= b + ext);
    }
}

/// A subsequence of `b` is a subsequence of `b` preceded by any prefix.
pub proof fn lemma_subsequence_prepend<T>(a: Seq<T>, c: Seq<T>, b: Seq<T>)
    requires
        is_subsequence(a, b),
    ensures
        is_subsequence(a, c + b),
    decreases b.len(),
{
    if a.len() > 0 {
        let cb = c + b;
        assert(b.len() > 0);
        assert(cb.last() == b.last());
        assert(cb.drop_last() =~= c + b.drop_last());
        if a.last() == b.last() {
            lemma_subsequence_prepend(a.drop_last(), c, b.drop_last());
        } else {
            lemma_subsequence_prepend(a, c, b.drop_last());
        }
    } else {
        if (c + b).len() == 0 {
        }
    }
}

/// The observation state of one connection subscribed to a session's
/// broadcast output. `start` is the history length at subscription (the
/// point whose snapshot the connection was replayed), `cursor` the
/// position of the next response it would receive, `seen` the responses
/// actually relayed to it, in relay order.
pub struct SubscriberModel {
    pub start: int,
    pub cursor: int,
    pub seen: Seq<Response>,
}

/// A connection subscribing while the broadcast history is `h` starts at
/// its end and has seen nothing.
pub open spec fn sub_attach(h: Seq<Response>) -> SubscriberModel {
    SubscriberModel { start: h.len() as int, cursor: h.len() as int, seen: Seq::empty() }
}

/// The channel delivers the next undelivered response, in production
/// order.
pub open spec fn sub_recv(s: SubscriberModel, h: Seq<Response>) -> SubscriberModel {
    SubscriberModel { start: s.start, cursor: s.cursor + 1, seen: s.seen.push(h[s.cursor]) }
}

/// The bounded channel evicts the `k` oldest unread responses from a
/// lagging subscriber's view: they are skipped, not reordered.
pub open spec fn sub_lag(s: SubscriberModel, k: int) -> SubscriberModel {
    SubscriberModel { start: s.start, cursor: s.cursor + k, seen: s.seen }
}

/// A subscriber's view is sound for history `h`: its cursor lies between
/// its attach point and the end, and what it has seen is an in-order
/// subsequence of the responses produced since it attached.
pub open spec fn sub_wf(s: SubscriberModel, h: Seq<Response>) -> bool {
    &&& 0 <= s.start <= s.cursor <= h.len()
    &&& is_subsequence(s.seen, h.subrange(s.start, s.cursor))
}

/// A fresh subscription is sound.
pub proof fn lemma_attach_wf(h: Seq<Response>)
    ensures
        sub_wf(sub_attach(h), h),
{
}

/// Receiving the next response keeps a subscriber sound.
pub proof fn lemma_recv_wf(s: SubscriberModel, h: Seq<Response>)
    requires
        sub_wf(s, h),
        s.cursor < h.len(),
    ensures
        sub_wf(sub_recv(s, h), h),
{
    let before = h.subrange(s.start, s.cursor);
    let after = h.subrange(s.start, s.cursor + 1);
    assert(after =~= before.push(h[s.cursor]));
    assert(is_subsequence(s.seen.push(h[s.cursor]), before.push(h[s.cursor]))) by {
        assert(s.seen.push(h[s.cursor]).drop_last() =~= s.seen);
        assert(before.push(h[s.cursor]).drop_last() =~= before);
    }
}

/// Being lagged past `k` responses keeps a subscriber sound: the evicted
/// responses are skipped, and what was seen stays in order.
pub proof fn lemma_lag_wf(s: SubscriberModel, h: Seq<Response>, k: int)
    requires
        sub_wf(s, h),
        0 <= k,
        s.cursor + k <= h.len(),
    ensures
        sub_wf(sub_lag(s, k), h),
{
    let before = h.subrange(s.start, s.cursor);
    let skipped = h.subrange(s.cursor, s.cursor + k);
    lemma_subsequence_concat(s.seen, before, skipped);
    assert(before + skipped =~= h.subrange(s.start, s.cursor + k));
}

/// The actor broadcasting further responses keeps every subscriber sound.
pub proof fn lemma_history_grows_wf(s: SubscriberModel, h: Seq<Response>, ext: Seq<Response>)
    requires
        sub_wf(s, h),
    ensures
        sub_wf(s, h + ext),
{
    assert((h + ext).subrange(s.start, s.cursor) =~= h.subrange(s.start, s.cursor));
}

/// Any actor transition keeps every subscriber sound: a step only
/// appends to the broadcast history.
pub proof fn lemma_actor_step_keeps_subscribers(
    s: SubscriberModel,
    m: crate::actor::ActorModel,
    ev: crate::actor::Event,
)
    requires
        sub_wf(s, m.history),
    ensures
        sub_wf(s, crate::actor::actor_next(m, ev).history),
{
    let h2 = crate::actor::actor_next(m, ev).history;
    crate::actor::lemma_history_append_only(m, ev);
    let ext = h2.subrange(m.history.len() as int, h2.len() as int);
    assert(m.history + ext =~= h2);
    lemma_history_grows_wf(s, m.history, ext);
}

/// A sound subscriber's whole view is an in-order subsequence of the
/// session's broadcast history.
pub proof fn lemma_seen_subsequence_of_history(s: SubscriberModel, h: Seq<Response>)
    requires
        sub_wf(s, h),
    ensures
        is_subsequence(s.seen, h),
{
    let pre = h.subrange(0, s.start);
    let mid = h.subrange(s.start, s.cursor);
    let post = h.subrange(s.cursor, h.len() as int);
    lemma_subsequence_prepend(s.seen, pre, mid);
    assert(pre + mid =~= h.subrange(0, s.cursor));
    lemma_subsequence_concat(s.seen, pre + mid, post);
    assert((pre + mid) + post =~= h);
}

/// Two connections attached to the same session observe response
/// sequences that are order-consistent subsequences of the same
/// underlying broadcast sequence: each connection's view is an in-order
/// subsequence of the one history, so neither ever sees responses the
/// other saw in a different order.
pub proof fn lemma_order_consistent(s1: SubscriberModel, s2: SubscriberModel, h: Seq<Response>)
    requires
        sub_wf(s1, h),
        sub_wf(s2, h),
    ensures
        is_subsequence(s1.seen, h),
        is_subsequence(s2.seen, h),
{
    lemma_seen_subsequence_of_history(s1, h);
    lemma_seen_subsequence_of_history(s2, h);
}

} // verus!
