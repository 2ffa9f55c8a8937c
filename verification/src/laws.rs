//! Properties of the request host over whole runs.
use vstd::prelude::*;

use crate::host::{accepts, spec_step, HostAction, HostEvent, HostState};
use crate::Async;

verus! {

/// The host run from state `s` over the events `evs`, one step each: the
/// final state and the actions taken, or `None` when some event is not one
/// the host expects at that point.
pub open spec fn run<Req, K, F, R, E>(
    s: HostState<F, K>,
    evs: Seq<HostEvent<Req, K, F, R, E>>,
) -> Option<(HostState<F, K>, Seq<HostAction<Req, K, F, R, E>>)>
    decreases evs.len(),
{
    if evs.len() == 0 {
        Some((s, Seq::empty()))
    } else if !accepts(s, evs[0]) {
        None
    } else {
        let (s1, a) = spec_step(s, evs[0]);
        match run(s1, evs.drop_first()) {
            Some((s2, acts)) => Some((s2, seq![a] + acts)),
            None => None,
        }
    }
}

/// The completion of the request that state `s` is serving, if any.
pub open spec fn in_flight<F, K>(s: HostState<F, K>) -> Seq<K> {
    match s {
        HostState::Idle => Seq::empty(),
        HostState::Blocked(_, k) => seq![k],
        HostState::Dispatching(k) => seq![k],
        HostState::Polling(k) => seq![k],
    }
}

/// The completions of the requests taken off the channel in `evs`, in order.
pub open spec fn received<Req, K, F, R, E>(evs: Seq<HostEvent<Req, K, F, R, E>>) -> Seq<K>
    decreases evs.len(),
{
    if evs.len() == 0 {
        Seq::empty()
    } else {
        let rest = received(evs.drop_first());
        match evs[0] {
            HostEvent::Received(Async::Ready(Some((_, k)))) => seq![k] + rest,
            _ => rest,
        }
    }
}

/// The completions delivered by the actions `acts`, in order.
pub open spec fn completed<Req, K, F, R, E>(acts: Seq<HostAction<Req, K, F, R, E>>) -> Seq<K>
    decreases acts.len(),
{
    if acts.len() == 0 {
        Seq::empty()
    } else {
        let rest = completed(acts.drop_first());
        match acts[0] {
            HostAction::Complete(k, _) => seq![k] + rest,
            _ => rest,
        }
    }
}

/// The requests taken off the channel in `evs`, in order.
pub open spec fn received_requests<Req, K, F, R, E>(evs: Seq<HostEvent<Req, K, F, R, E>>) -> Seq<Req>
    decreases evs.len(),
{
    if evs.len() == 0 {
        Seq::empty()
    } else {
        let rest = received_requests(evs.drop_first());
        match evs[0] {
            HostEvent::Received(Async::Ready(Some((req, _)))) => seq![req] + rest,
            _ => rest,
        }
    }
}

/// The requests handed to the service by the actions `acts`, in order.
pub open spec fn called<Req, K, F, R, E>(acts: Seq<HostAction<Req, K, F, R, E>>) -> Seq<Req>
    decreases acts.len(),
{
    if acts.len() == 0 {
        Seq::empty()
    } else {
        let rest = called(acts.drop_first());
        match acts[0] {
            HostAction::Call(req) => seq![req] + rest,
            _ => rest,
        }
    }
}

/// Whether `ev` is an outcome of performing the action `a`.
pub open spec fn answers<Req, K, F, R, E>(
    a: HostAction<Req, K, F, R, E>,
    ev: HostEvent<Req, K, F, R, E>,
) -> bool {
    match a {
        HostAction::PollRequests => ev is Received,
        HostAction::Call(_) => ev is Called,
        HostAction::Poll(_) => ev is Resolved || ev is Failed || ev is Pending,
        HostAction::Complete(_, _) => ev is Resume,
        HostAction::Yield => ev is Resume,
        HostAction::Finish => ev is Resume,
    }
}

/// Whether `s` is a state in which polling the host can return: nothing is
/// out with the driver.
pub open spec fn resting<F, K>(s: HostState<F, K>) -> bool {
    s is Idle || s is Blocked
}

/// Every request is answered once, in the order received: over any run, the
/// request in flight at the start followed by the requests taken off the
/// channel are exactly the completions delivered followed by the request in
/// flight at the end.
pub proof fn lemma_requests_answered_in_order<Req, K, F, R, E>(
    s: HostState<F, K>,
    evs: Seq<HostEvent<Req, K, F, R, E>>,
)
    requires
        run(s, evs) is Some,
    ensures
        in_flight(s) + received(evs) == completed(run(s, evs)->Some_0.1) + in_flight(
            run(s, evs)->Some_0.0,
        ),
    decreases evs.len(),
{
    if evs.len() > 0 {
        let (s1, a) = spec_step(s, evs[0]);
        let tail = evs.drop_first();
        lemma_requests_answered_in_order(s1, tail);
        let (s2, acts) = run(s1, tail)->Some_0;
        assert((seq![a] + acts).drop_first() =~= acts);
        assert((seq![a] + acts)[0] == a);
        assert(in_flight(s) + received(evs) =~= completed(seq![a] + acts) + in_flight(s2));
    } else {
        assert(in_flight(s) + received(evs) =~= completed(run(s, evs)->Some_0.1) + in_flight(s));
    }
}

/// A host that starts idle holds at most one request at a time: after any
/// run, every request taken off the channel has been answered, in order,
/// except at most the one still in flight.
pub proof fn lemma_one_request_in_flight<Req, K, F, R, E>(evs: Seq<HostEvent<Req, K, F, R, E>>)
    requires
        run(HostState::<F, K>::Idle, evs) is Some,
    ensures
        ({
            let (s, acts) = run(HostState::<F, K>::Idle, evs)->Some_0;
            &&& received(evs) == completed(acts) + in_flight(s)
            &&& in_flight(s).len() <= 1
            &&& s is Idle ==> received(evs) == completed(acts)
        }),
{
    lemma_requests_answered_in_order(HostState::<F, K>::Idle, evs);
    let (s, acts) = run(HostState::<F, K>::Idle, evs)->Some_0;
    assert(in_flight(HostState::<F, K>::Idle) + received(evs) =~= received(evs));
    if s is Idle {
        assert(completed(acts) + in_flight(s) =~= completed(acts));
    }
}

/// The host never asks for what it cannot take back: whatever an accepted
/// step asks its driver to do, every outcome of doing it is an event the host
/// then expects; and when it asks to return from polling, it rests, ready to
/// be polled again.
pub proof fn lemma_actions_lead_to_expected_events<Req, K, F, R, E>(
    s: HostState<F, K>,
    ev: HostEvent<Req, K, F, R, E>,
    next: HostEvent<Req, K, F, R, E>,
)
    requires
        accepts(s, ev),
        answers(spec_step(s, ev).1, next),
    ensures
        accepts(spec_step(s, ev).0, next),
        (spec_step(s, ev).1 is Yield || spec_step(s, ev).1 is Finish) ==> resting(
            spec_step(s, ev).0,
        ),
{
}

/// What each kind of action follows from: a request is dispatched only from
/// an idle host and only the one just received; a completion goes to the
/// request being polled and carries exactly what its response future gave;
/// the host finishes only when idle and every sender is gone.
pub proof fn lemma_actions_follow_their_causes<Req, K, F, R, E>(
    s: HostState<F, K>,
    ev: HostEvent<Req, K, F, R, E>,
)
    requires
        accepts(s, ev),
    ensures
        spec_step(s, ev).1 matches HostAction::Call(req) ==> s is Idle && exists|k: K|
            ev == HostEvent::<Req, K, F, R, E>::Received(Async::Ready(Some((req, k))))
                && spec_step(s, ev).0 == HostState::<F, K>::Dispatching(k),
        spec_step(s, ev).1 matches HostAction::Complete(k, res) ==> s == HostState::<F, K>::Polling(
            k,
        ) && match res {
            Ok(r) => ev == HostEvent::<Req, K, F, R, E>::Resolved(r),
            Err(e) => ev == HostEvent::<Req, K, F, R, E>::Failed(e),
        },
        spec_step(s, ev).1 is Finish ==> s is Idle && ev == HostEvent::<Req, K, F, R, E>::Received(
            Async::Ready(None),
        ),
{
    if let HostAction::Call(req) = spec_step(s, ev).1 {
        if let HostEvent::Received(Async::Ready(Some((q, k)))) = ev {
            assert(ev == HostEvent::<Req, K, F, R, E>::Received(Async::Ready(Some((req, k)))));
        }
    }
}

/// The service gets every request taken off the channel, once each and in
/// the order received: over any run, the requests in the `Call` actions are
/// exactly the requests received. (A request is handed to the service in the
/// very step that receives it, so none is left over in the state.)
pub proof fn lemma_service_called_in_order<Req, K, F, R, E>(
    s: HostState<F, K>,
    evs: Seq<HostEvent<Req, K, F, R, E>>,
)
    requires
        run(s, evs) is Some,
    ensures
        called(run(s, evs)->Some_0.1) == received_requests(evs),
    decreases evs.len(),
{
    if evs.len() > 0 {
        let (s1, a) = spec_step(s, evs[0]);
        let tail = evs.drop_first();
        lemma_service_called_in_order(s1, tail);
        let (s2, acts) = run(s1, tail)->Some_0;
        assert((seq![a] + acts).drop_first() =~= acts);
        assert((seq![a] + acts)[0] == a);
        assert(called(seq![a] + acts) =~= received_requests(evs));
    } else {
        assert(called(run(s, evs)->Some_0.1) =~= received_requests(evs));
    }
}

/// At most one service call is outstanding: in any run of a host that starts
/// idle, the service has been called at most once more than completions have
/// been delivered, and exactly as often once the host is idle again.
pub proof fn lemma_one_service_call_outstanding<Req, K, F, R, E>(
    evs: Seq<HostEvent<Req, K, F, R, E>>,
)
    requires
        run(HostState::<F, K>::Idle, evs) is Some,
    ensures
        ({
            let (s, acts) = run(HostState::<F, K>::Idle, evs)->Some_0;
            &&& called(acts).len() <= completed(acts).len() + 1
            &&& s is Idle ==> called(acts).len() == completed(acts).len()
        }),
{
    lemma_service_called_in_order(HostState::<F, K>::Idle, evs);
    lemma_one_request_in_flight(evs);
    lemma_received_counts_agree(evs);
}

/// Each request taken off the channel comes with its completion, so the two
/// records of what was received have the same length.
pub proof fn lemma_received_counts_agree<Req, K, F, R, E>(evs: Seq<HostEvent<Req, K, F, R, E>>)
    ensures
        received_requests(evs).len() == received(evs).len(),
    decreases evs.len(),
{
    if evs.len() > 0 {
        lemma_received_counts_agree(evs.drop_first());
    }
}

} // verus!
