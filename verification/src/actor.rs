//! The session actor: the single-writer state machine that owns one
//! session's state and serializes every mutation to it.
//!
//! The asynchronous shell runs the actor's event loop: it races the inbound
//! request queue, the connection-delivery channel, the set of spawned
//! adapter tasks and the idle grace timer, and hands exactly one ready
//! event per iteration to the methods below. Each method is one transition
//! of the model [`actor_next`] / [`actor_actions`]; everything the loop may
//! do to the session is captured by that transition function, so the
//! ordering and lifecycle laws proved here hold of any run of the loop.

use vstd::prelude::*;

use crate::domain::{
    apply_request, dump_responses, fold_requests, history_of, update_responses, Request, Response,
    SessionState, State,
};

verus! {

/// One occurrence the actor's event loop can wake on. Exactly one ready
/// event is handled per loop iteration.
#[derive(Clone, Copy, PartialEq, Eq, Structural, Debug)]
pub enum Event {
    /// The next request popped from the inbound queue.
    Inbound(Request),
    /// A newly accepted connection was delivered for attachment.
    NewConnection,
    /// The set of spawned connection-adapter tasks became empty: the last
    /// connection detached. Only raced while established and not exiting.
    AdaptersDone,
    /// The idle grace timer fired. Only raced while exiting.
    IdleTimeout,
    /// The inbound queue or the connection-delivery channel closed: the
    /// registry dropped the last handle. Drains the actor like idleness.
    SourceClosed,
}

/// What handling one event made the actor do, beyond updating its own
/// state. The shell performs these effects in order.
#[verifier::ext_equal]
pub enum Action {
    /// Broadcast these responses, in order, to every subscribed
    /// connection. Delivery failure is non-fatal: an undelivered response
    /// is simply unobserved.
    Broadcast(Seq<Response>),
    /// Subscribe the new connection to the broadcast output and replay
    /// this snapshot to it before any later response.
    Attach(Seq<Response>),
    /// The actor is terminated: hand this final value to the persistence
    /// supervisor.
    Persist(i64),
}

/// The mathematical state of one session actor: the counter value, the
/// lifecycle flags, and the full record of what it has processed and
/// broadcast since creation.
#[verifier::ext_equal]
pub struct ActorModel {
    /// Current domain state.
    pub value: i64,
    /// Whether any connection has ever attached.
    pub established: bool,
    /// Whether the idle grace timer is running (last connection detached).
    pub exiting: bool,
    /// Whether the actor has terminated and handed off its state.
    pub terminated: bool,
    /// The value the actor was created with (loaded or default).
    pub init_value: i64,
    /// Every request applied so far, in application order.
    pub processed: Seq<Request>,
    /// Every response broadcast so far, in production order.
    pub history: Seq<Response>,
}

/// The model of a freshly created actor owning value `v`.
pub open spec fn initial_model(v: i64) -> ActorModel {
    ActorModel {
        value: v,
        established: false,
        exiting: false,
        terminated: false,
        init_value: v,
        processed: Seq::empty(),
        history: Seq::empty(),
    }
}

/// The actor's transition function: its state after handling one event.
/// A terminated actor accepts no further work and never changes again.
pub open spec fn actor_next(pre: ActorModel, ev: Event) -> ActorModel {
    if pre.terminated {
        pre
    } else {
        match ev {
            Event::Inbound(req) => ActorModel {
                value: apply_request(pre.value, req),
                processed: pre.processed.push(req),
                history: pre.history + update_responses(pre.value, req),
                ..pre
            },
            Event::NewConnection => ActorModel { established: true, exiting: false, ..pre },
            Event::AdaptersDone => if pre.established && !pre.exiting {
                ActorModel { exiting: true, ..pre }
            } else {
                pre
            },
            Event::IdleTimeout => if pre.exiting {
                ActorModel { terminated: true, ..pre }
            } else {
                pre
            },
            Event::SourceClosed => ActorModel { terminated: true, ..pre },
        }
    }
}

/// The effects handling one event produces, in order.
pub open spec fn actor_actions(pre: ActorModel, ev: Event) -> Seq<Action> {
    if pre.terminated {
        seq![]
    } else {
        match ev {
            Event::Inbound(req) => seq![Action::Broadcast(update_responses(pre.value, req))],
            Event::NewConnection => seq![Action::Attach(dump_responses(pre.value))],
            Event::AdaptersDone => seq![],
            Event::IdleTimeout => if pre.exiting {
                seq![Action::Persist(pre.value)]
            } else {
                seq![]
            },
            Event::SourceClosed => seq![Action::Persist(pre.value)],
        }
    }
}

/// The actor's state after handling a whole event sequence, first to last.
pub open spec fn run(m: ActorModel, evs: Seq<Event>) -> ActorModel
    decreases evs.len(),
{
    if evs.len() == 0 {
        m
    } else {
        run(actor_next(m, evs.first()), evs.drop_first())
    }
}

/// How many `Persist` actions a step's action sequence holds.
pub open spec fn persist_count(acts: Seq<Action>) -> nat
    decreases acts.len(),
{
    if acts.len() == 0 {
        0
    } else {
        (if acts.first() is Persist {
            1nat
        } else {
            0nat
        }) + persist_count(acts.drop_first())
    }
}

/// How many `Persist` actions a whole run emits.
pub open spec fn run_persist_count(m: ActorModel, evs: Seq<Event>) -> nat
    decreases evs.len(),
{
    if evs.len() == 0 {
        0
    } else {
        persist_count(actor_actions(m, evs.first())) + run_persist_count(
            actor_next(m, evs.first()),
            evs.drop_first(),
        )
    }
}

/// The actor's record is internally consistent: its value is the fold of
/// exactly the requests it has processed, and its broadcast history is the
/// response trace of that same sequence.
pub open spec fn consistent(m: ActorModel) -> bool {
    &&& m.value == fold_requests(m.init_value, m.processed)
    &&& m.history == history_of(m.init_value, m.processed)
}

/// The session actor. The shell owns exactly one per live session and is
/// its only caller, so every mutation of the session's state goes through
/// `handle_request` on this one value: mutations are totally ordered.
pub struct SessionActor {
    /// The session's domain state, exclusively owned by this actor.
    pub state: SessionState,
    /// Whether any connection has ever attached.
    pub established: bool,
    /// Whether the idle grace timer is running.
    pub exiting: bool,
    /// Whether the actor has terminated.
    pub terminated: bool,
    /// The value the actor was created with.
    pub init_value: Ghost<i64>,
    /// Every request applied so far.
    pub processed: Ghost<Seq<Request>>,
    /// Every response broadcast so far.
    pub history: Ghost<Seq<Response>>,
}

impl View for SessionActor {
    type V = ActorModel;

    open spec fn view(&self) -> ActorModel {
        ActorModel {
            value: self.state.value,
            established: self.established,
            exiting: self.exiting,
            terminated: self.terminated,
            init_value: self.init_value@,
            processed: self.processed@,
            history: self.history@,
        }
    }
}

impl SessionActor {
    /// Create the actor for one session, owning `state` (the loaded or
    /// default value decided by the registry).
    pub fn new(state: SessionState) -> (actor: Self)
        ensures
            actor@ == initial_model(state.value),
            consistent(actor@),
    {
        let actor = SessionActor {
            state,
            established: false,
            exiting: false,
            terminated: false,
            init_value: Ghost(state.value),
            processed: Ghost(Seq::empty()),
            history: Ghost(Seq::empty()),
        };
        proof {
            assert(actor@ =~= initial_model(state.value));
        }
        actor
    }

    /// Apply one inbound request and return the responses to broadcast to
    /// every subscribed connection. The caller must not interleave any
    /// snapshot or attach between the update and the broadcast. Failure to
    /// deliver a response is non-fatal: no one observed it.
    pub fn handle_request(&mut self, req: Request) -> (resp: Vec<Response>)
        ensures
            final(self)@ == actor_next(old(self)@, Event::Inbound(req)),
            resp@ == if old(self)@.terminated {
                Seq::<Response>::empty()
            } else {
                update_responses(old(self)@.value, req)
            },
    {
        if self.terminated {
            let resp: Vec<Response> = Vec::new();
            proof {
                assert(resp@ =~= Seq::<Response>::empty());
            }
            return resp;
        }
        let ghost pre = self@;
        let resp = self.state.update(req);
        self.processed = Ghost(self.processed@.push(req));
        self.history = Ghost(self.history@ + resp@);
        proof {
            assert(self@ =~= actor_next(pre, Event::Inbound(req)));
        }
        resp
    }

    /// Attach one newly delivered connection: the session becomes
    /// established and any pending exit is cancelled. Returns the snapshot
    /// replay for the new connection. The caller subscribes the connection
    /// to the broadcast output and replays this snapshot to it before any
    /// later response, with no other actor work in between: the snapshot
    /// therefore reflects exactly one point of the mutation order.
    pub fn handle_websocket(&mut self) -> (snapshot: Vec<Response>)
        ensures
            final(self)@ == actor_next(old(self)@, Event::NewConnection),
            snapshot@ == if old(self)@.terminated {
                Seq::<Response>::empty()
            } else {
                dump_responses(old(self)@.value)
            },
    {
        if self.terminated {
            let snapshot: Vec<Response> = Vec::new();
            proof {
                assert(snapshot@ =~= Seq::<Response>::empty());
            }
            return snapshot;
        }
        let ghost pre = self@;
        self.established = true;
        self.exiting = false;
        let snapshot = self.state.dump();
        proof {
            assert(self@ =~= actor_next(pre, Event::NewConnection));
        }
        snapshot
    }

    /// Note that the set of adapter tasks became empty: the last connection
    /// detached. If the session was established and not already exiting,
    /// it starts exiting and the caller starts the idle grace timer.
    pub fn note_adapters_done(&mut self)
        ensures
            final(self)@ == actor_next(old(self)@, Event::AdaptersDone),
    {
        let ghost pre = self@;
        if !self.terminated && self.established && !self.exiting {
            self.exiting = true;
        }
        proof {
            assert(self@ =~= actor_next(pre, Event::AdaptersDone));
        }
    }

    /// Note that the idle grace timer fired. If the session was still
    /// exiting, the actor terminates and returns its final state, which
    /// the caller hands to the persistence supervisor; the actor accepts
    /// no further work afterwards.
    pub fn note_idle_timeout(&mut self) -> (fin: Option<SessionState>)
        ensures
            final(self)@ == actor_next(old(self)@, Event::IdleTimeout),
            fin == if !old(self)@.terminated && old(self)@.exiting {
                Some(old(self).state)
            } else {
                None::<SessionState>
            },
    {
        let ghost pre = self@;
        if !self.terminated && self.exiting {
            self.terminated = true;
            proof {
                assert(self@ =~= actor_next(pre, Event::IdleTimeout));
            }
            Some(self.state)
        } else {
            proof {
                assert(self@ =~= actor_next(pre, Event::IdleTimeout));
            }
            None
        }
    }

    /// Note that the inbound queue or the connection-delivery channel
    /// closed: the registry dropped the last handle. The actor drains the
    /// same way idleness does, returning its final state for persistence.
    pub fn note_source_closed(&mut self) -> (fin: Option<SessionState>)
        ensures
            final(self)@ == actor_next(old(self)@, Event::SourceClosed),
            fin == if !old(self)@.terminated {
                Some(old(self).state)
            } else {
                None::<SessionState>
            },
    {
        let ghost pre = self@;
        if !self.terminated {
            self.terminated = true;
            proof {
                assert(self@ =~= actor_next(pre, Event::SourceClosed));
            }
            Some(self.state)
        } else {
            proof {
                assert(self@ =~= actor_next(pre, Event::SourceClosed));
            }
            None
        }
    }
}

/// A terminated actor never changes again and emits no further action:
/// termination happens at most once in any run.
pub proof fn lemma_terminated_absorbing(m: ActorModel, ev: Event)
    requires
        m.terminated,
    ensures
        actor_next(m, ev) == m,
        actor_actions(m, ev) =~= Seq::<Action>::empty(),
{
}

/// Each transition keeps the actor's record consistent: the value stays
/// the fold of the processed requests and the history stays their
/// response trace.
pub proof fn lemma_step_consistent(m: ActorModel, ev: Event)
    requires
        consistent(m),
    ensures
        consistent(actor_next(m, ev)),
{
    if !m.terminated {
        match ev {
            Event::Inbound(req) => {
                let p2 = m.processed.push(req);
                assert(p2.drop_last() =~= m.processed);
                assert(p2.last() == req);
                assert(fold_requests(m.init_value, p2) == apply_request(m.value, req));
                assert(history_of(m.init_value, p2) =~= m.history + update_responses(
                    m.value,
                    req,
                ));
            },
            _ => {},
        }
    }
}

/// A whole run keeps the actor's record consistent.
pub proof fn lemma_run_consistent(m: ActorModel, evs: Seq<Event>)
    requires
        consistent(m),
    ensures
        consistent(run(m, evs)),
    decreases evs.len(),
{
    if evs.len() > 0 {
        lemma_step_consistent(m, evs.first());
        lemma_run_consistent(actor_next(m, evs.first()), evs.drop_first());
    }
}

/// The event sequence of feeding each request of `reqs`, in order, to the
/// actor's inbound queue.
pub open spec fn inbound_events(reqs: Seq<Request>) -> Seq<Event> {
    reqs.map_values(|r: Request| Event::Inbound(r))
}

/// Feeding only requests never terminates the actor and applies exactly
/// those requests, in order, after whatever was already processed.
pub proof fn lemma_inbound_run(m: ActorModel, reqs: Seq<Request>)
    requires
        !m.terminated,
    ensures
        !run(m, inbound_events(reqs)).terminated,
        run(m, inbound_events(reqs)).processed =~= m.processed + reqs,
        run(m, inbound_events(reqs)).init_value == m.init_value,
    decreases reqs.len(),
{
    if reqs.len() == 0 {
        assert(m.processed + reqs =~= m.processed);
    } else {
        let evs = inbound_events(reqs);
        assert(evs.first() == Event::Inbound(reqs.first()));
        let m1 = actor_next(m, evs.first());
        assert(evs.drop_first() =~= inbound_events(reqs.drop_first()));
        lemma_inbound_run(m1, reqs.drop_first());
        assert(m1.processed + reqs.drop_first() =~= m.processed + reqs);
    }
}

/// For any sequence of requests applied to one session starting from
/// value `v0`, the state the actor reaches is the deterministic left-fold
/// of that sequence: a pure function of the initial value and the
/// requests.
pub proof fn lemma_fold_of_requests(v0: i64, reqs: Seq<Request>)
    ensures
        run(initial_model(v0), inbound_events(reqs)).value == fold_requests(v0, reqs),
{
    let m0 = initial_model(v0);
    lemma_run_consistent(m0, inbound_events(reqs));
    lemma_inbound_run(m0, reqs);
    assert(Seq::<Request>::empty() + reqs =~= reqs);
    assert(run(m0, inbound_events(reqs)).processed == reqs);
}

/// A connection attaching at any point receives a snapshot equal to the
/// domain state at exactly one point of the actual mutation order: the
/// fold of precisely the requests processed so far — never a state that
/// was not reached, and never missing the update immediately preceding
/// attachment.
pub proof fn lemma_snapshot_at_attach(m: ActorModel)
    requires
        consistent(m),
        !m.terminated,
    ensures
        actor_actions(m, Event::NewConnection) =~= seq![
            Action::Attach(dump_responses(fold_requests(m.init_value, m.processed))),
        ],
{
}

/// No transition changes the value an actor was created with.
pub proof fn lemma_run_init_value(m: ActorModel, evs: Seq<Event>)
    ensures
        run(m, evs).init_value == m.init_value,
    decreases evs.len(),
{
    if evs.len() > 0 {
        lemma_run_init_value(actor_next(m, evs.first()), evs.drop_first());
    }
}

/// The snapshot law along a whole run from creation: wherever a connection
/// attaches mid-sequence, its snapshot is the dump of the fold of exactly
/// the requests the actor has applied by then.
pub proof fn lemma_snapshot_mid_sequence(v0: i64, evs: Seq<Event>)
    requires
        !run(initial_model(v0), evs).terminated,
    ensures
        actor_actions(run(initial_model(v0), evs), Event::NewConnection) =~= seq![
            Action::Attach(
                dump_responses(fold_requests(v0, run(initial_model(v0), evs).processed)),
            ),
        ],
{
    lemma_run_consistent(initial_model(v0), evs);
    lemma_run_init_value(initial_model(v0), evs);
    lemma_snapshot_at_attach(run(initial_model(v0), evs));
}

/// The broadcast history is append-only: no transition rewrites or drops
/// a response already produced, so anything a connection has observed
/// stays a prefix-region of the history forever.
pub proof fn lemma_history_append_only(m: ActorModel, ev: Event)
    ensures
        actor_next(m, ev).history.subrange(0, m.history.len() as int) == m.history,
        m.history.len() <= actor_next(m, ev).history.len(),
{
    let h2 = actor_next(m, ev).history;
    assert(h2.subrange(0, m.history.len() as int) =~= m.history);
}

/// A terminated actor stays terminated and emits nothing for the rest of
/// any run.
pub proof fn lemma_terminated_run(m: ActorModel, evs: Seq<Event>)
    requires
        m.terminated,
    ensures
        run(m, evs) == m,
        run_persist_count(m, evs) == 0,
    decreases evs.len(),
{
    if evs.len() > 0 {
        lemma_terminated_absorbing(m, evs.first());
        assert(persist_count(Seq::<Action>::empty()) == 0);
        lemma_terminated_run(m, evs.drop_first());
    }
}

/// An actor terminates at most once and persists its state exactly once
/// when it does: over any run from a live actor, the number of `Persist`
/// actions is one if the run ends terminated and zero otherwise.
pub proof fn lemma_persist_exactly_once(m: ActorModel, evs: Seq<Event>)
    requires
        !m.terminated,
    ensures
        run_persist_count(m, evs) == if run(m, evs).terminated {
            1nat
        } else {
            0nat
        },
    decreases evs.len(),
{
    if evs.len() > 0 {
        let ev = evs.first();
        let m1 = actor_next(m, ev);
        let acts = actor_actions(m, ev);
        assert(persist_count(acts) == if m1.terminated {
            1nat
        } else {
            0nat
        }) by {
            if acts.len() > 0 {
                assert(acts.drop_first() =~= Seq::<Action>::empty());
                assert(persist_count(acts.drop_first()) == 0);
            }
        }
        if m1.terminated {
            lemma_terminated_run(m1, evs.drop_first());
        } else {
            lemma_persist_exactly_once(m1, evs.drop_first());
        }
    }
}

/// Idle-driven termination: once the last connection of an established
/// session detaches and the idle grace period then elapses, the actor is
/// terminated and hands over exactly its current value.
pub proof fn lemma_idle_termination(m: ActorModel)
    requires
        !m.terminated,
        m.established,
        !m.exiting,
    ensures
        ({
            let m1 = actor_next(m, Event::AdaptersDone);
            let m2 = actor_next(m1, Event::IdleTimeout);
            &&& m1.exiting
            &&& m2.terminated
            &&& m2.value == m.value
            &&& actor_actions(m1, Event::IdleTimeout) =~= seq![Action::Persist(m.value)]
        }),
{
}

} // verus!
