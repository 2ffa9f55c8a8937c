//! The request host: it takes requests off a channel one at a time, hands each
//! to a service, waits for the service's response and delivers it to the
//! completion that came with the request.
//!
//! The host's decisions are a state machine: `Host::step` takes the event that
//! the previous action produced and returns the next action. Whoever drives
//! the host performs the action (calling the service, polling a response,
//! delivering a completion) and hands the outcome back as the next event.
use vstd::prelude::*;

use crate::mpsc::{MpscReceiver, MpscSender, SendError};
use crate::Async;

verus! {

/// Where the host stands with the request it is serving.
#[derive(Debug)]
pub enum HostState<F, K> {
    /// No request is being served.
    Idle,
    /// The response `F` to the request with completion `K` was not ready when
    /// last polled.
    Blocked(F, K),
    /// The service is being handed the request with completion `K`.
    Dispatching(K),
    /// The response to the request with completion `K` is out being polled.
    Polling(K),
}

/// What the driver hands back to the host.
#[derive(Debug)]
pub enum HostEvent<Req, K, F, R, E> {
    /// The host is polled, or a completion was just delivered.
    Resume,
    /// What polling the request channel gave.
    Received(Async<Option<(Req, K)>>),
    /// The response future that the service returned for the request.
    Called(F),
    /// The response future resolved to a response.
    Resolved(R),
    /// The response future failed.
    Failed(E),
    /// The response future is not ready yet; it is handed back.
    Pending(F),
}

/// What the host asks its driver to do next.
#[derive(Debug)]
pub enum HostAction<Req, K, F, R, E> {
    /// Poll the request channel and hand back `Received`.
    PollRequests,
    /// Call the service with the request and hand back `Called`.
    Call(Req),
    /// Poll the response future and hand back `Resolved`, `Failed` or `Pending`.
    Poll(F),
    /// Deliver the outcome to the completion and hand back `Resume`.
    Complete(K, Result<R, E>),
    /// Return from polling the host: not ready yet.
    Yield,
    /// Return from polling the host: every sender is gone and nothing is in
    /// flight, the host is done.
    Finish,
}

/// Whether the host, standing at `s`, expects the event `ev`.
pub open spec fn accepts<Req, K, F, R, E>(s: HostState<F, K>, ev: HostEvent<Req, K, F, R, E>) -> bool {
    match s {
        HostState::Idle => ev is Resume || ev is Received,
        HostState::Blocked(_, _) => ev is Resume,
        HostState::Dispatching(_) => ev is Called,
        HostState::Polling(_) => ev is Resolved || ev is Failed || ev is Pending,
    }
}

/// The host's transition: from state `s` and event `ev`, the next state and
/// the action. (On an event that `s` does not accept the host stays put and
/// yields; `Host::step` is never asked that.)
pub open spec fn spec_step<Req, K, F, R, E>(
    s: HostState<F, K>,
    ev: HostEvent<Req, K, F, R, E>,
) -> (HostState<F, K>, HostAction<Req, K, F, R, E>) {
    match (s, ev) {
        (HostState::Idle, HostEvent::Resume) => (HostState::Idle, HostAction::PollRequests),
        (HostState::Idle, HostEvent::Received(Async::Ready(Some((req, k))))) => (
            HostState::Dispatching(k),
            HostAction::Call(req),
        ),
        (HostState::Idle, HostEvent::Received(Async::Ready(None))) => (
            HostState::Idle,
            HostAction::Finish,
        ),
        (HostState::Idle, HostEvent::Received(Async::NotReady)) => (
            HostState::Idle,
            HostAction::Yield,
        ),
        (HostState::Blocked(f, k), HostEvent::Resume) => (HostState::Polling(k), HostAction::Poll(f)),
        (HostState::Dispatching(k), HostEvent::Called(f)) => (
            HostState::Polling(k),
            HostAction::Poll(f),
        ),
        (HostState::Polling(k), HostEvent::Resolved(r)) => (
            HostState::Idle,
            HostAction::Complete(k, Ok(r)),
        ),
        (HostState::Polling(k), HostEvent::Failed(e)) => (
            HostState::Idle,
            HostAction::Complete(k, Err(e)),
        ),
        (HostState::Polling(k), HostEvent::Pending(f)) => (
            HostState::Blocked(f, k),
            HostAction::Yield,
        ),
        _ => (s, HostAction::Yield),
    }
}

/// The host: a service, the request it is serving, and the channel that
/// requests, each with its completion, arrive on.
#[verifier::reject_recursive_types(Req)]
#[verifier::reject_recursive_types(K)]
pub struct Host<S, Req, F, K> {
    service: S,
    state: HostState<F, K>,
    rx: MpscReceiver<(Req, K)>,
}

/// The sending side of a host: requests sent here are served by the host in
/// the order they are sent.
#[verifier::reject_recursive_types(Req)]
#[verifier::reject_recursive_types(K)]
pub struct Handle<Req, K> {
    tx: MpscSender<(Req, K)>,
}

impl<Req, K> Handle<Req, K> {
    /// The label of the channel this handle sends requests into.
    pub closed spec fn chan(&self) -> int {
        self.tx.chan()
    }

    /// Queues a request with the completion its response goes to. Fails,
    /// giving both back, when the host is gone.
    pub fn send_request(&self, req: Req, k: K) -> (r: Result<(), SendError<(Req, K)>>)
        ensures
            r matches Err(e) ==> e.0 == (req, k),
    {
        self.tx.send((req, k))
    }
}

impl<S, Req, F, K> Host<S, Req, F, K> {
    /// The state of the request that is being served.
    pub closed spec fn phase(&self) -> HostState<F, K> {
        self.state
    }

    /// The service that answers the requests.
    pub closed spec fn spec_service(&self) -> S {
        self.service
    }

    /// The label of the channel the host takes requests from.
    pub closed spec fn chan(&self) -> int {
        self.rx.chan()
    }

    /// A host for service `s`, idle, with the handle that feeds it.
    pub fn build(s: S) -> (r: (Handle<Req, K>, Host<S, Req, F, K>))
        ensures
            r.1.phase() is Idle,
            r.1.spec_service() == s,
            r.0.chan() == r.1.chan(),
    {
        let (tx, rx) = MpscReceiver::pair();
        let handle = Handle { tx: tx.clone() };
        let host = Host { service: s, state: HostState::Idle, rx: rx };
        (handle, host)
    }

    /// The service that answers the requests.
    pub fn service(&self) -> (s: &S)
        ensures
            *s == self.spec_service(),
    {
        &self.service
    }

    /// Whether the host, as it stands, expects the event `ev`.
    pub fn expects<R, E>(&self, ev: &HostEvent<Req, K, F, R, E>) -> (b: bool)
        ensures
            b == accepts(self.phase(), *ev),
    {
        match &self.state {
            HostState::Idle => match ev {
                HostEvent::Resume => true,
                HostEvent::Received(_) => true,
                _ => false,
            },
            HostState::Blocked(_, _) => match ev {
                HostEvent::Resume => true,
                _ => false,
            },
            HostState::Dispatching(_) => match ev {
                HostEvent::Called(_) => true,
                _ => false,
            },
            HostState::Polling(_) => match ev {
                HostEvent::Resolved(_) => true,
                HostEvent::Failed(_) => true,
                HostEvent::Pending(_) => true,
                _ => false,
            },
        }
    }

    /// Polls the request channel without blocking (the `PollRequests`
    /// action). The host's state and service are left as they are.
    pub fn poll_requests(&mut self) -> (r: Async<Option<(Req, K)>>)
        ensures
            final(self).phase() == old(self).phase(),
            final(self).spec_service() == old(self).spec_service(),
            final(self).chan() == old(self).chan(),
    {
        self.rx.poll().unwrap()
    }

    /// Takes the event that the previous action produced and decides the
    /// next action, moving to the next state.
    pub fn step<R, E>(&mut self, ev: HostEvent<Req, K, F, R, E>) -> (a: HostAction<Req, K, F, R, E>)
        requires
            accepts(old(self).phase(), ev),
        ensures
            (final(self).phase(), a) == spec_step(old(self).phase(), ev),
            final(self).spec_service() == old(self).spec_service(),
            final(self).chan() == old(self).chan(),
    {
        let mut state = HostState::Idle;
        std::mem::swap(&mut state, &mut self.state);
        let (next, action) = match state {
            HostState::Idle => match ev {
                HostEvent::Resume => (HostState::Idle, HostAction::PollRequests),
                HostEvent::Received(Async::Ready(Some((req, k)))) => (
                    HostState::Dispatching(k),
                    HostAction::Call(req),
                ),
                HostEvent::Received(Async::Ready(None)) => (HostState::Idle, HostAction::Finish),
                HostEvent::Received(Async::NotReady) => (HostState::Idle, HostAction::Yield),
                _ => (HostState::Idle, HostAction::Yield),
            },
            HostState::Blocked(f, k) => (HostState::Polling(k), HostAction::Poll(f)),
            HostState::Dispatching(k) => match ev {
                HostEvent::Called(f) => (HostState::Polling(k), HostAction::Poll(f)),
                _ => (HostState::Dispatching(k), HostAction::Yield),
            },
            HostState::Polling(k) => match ev {
                HostEvent::Resolved(r) => (HostState::Idle, HostAction::Complete(k, Ok(r))),
                HostEvent::Failed(e) => (HostState::Idle, HostAction::Complete(k, Err(e))),
                HostEvent::Pending(f) => (HostState::Blocked(f, k), HostAction::Yield),
                _ => (HostState::Polling(k), HostAction::Yield),
            },
        };
        self.state = next;
        action
    }
}

} // verus!
