use sexp_proto_tokio::host::{Host, HostAction, HostEvent};
use sexp_proto_tokio::Async;

type Ev = HostEvent<u64, u32, u64, u64, String>;
type Act = HostAction<u64, u32, u64, u64, String>;

/// Drives one poll of the host, as a driver does: the "service" answers a
/// request `n` with the future value `n`, and `resolve` says how a polled
/// future turns out. Returns the completions delivered and whether the host
/// finished.
fn drive(
    host: &mut Host<(), u64, u64, u32>,
    resolve: &dyn Fn(u64) -> Option<Result<u64, String>>,
) -> (Vec<(u32, Result<u64, String>)>, bool) {
    let mut done = Vec::new();
    let mut ev: Ev = HostEvent::Resume;
    loop {
        assert!(host.expects(&ev));
        let a: Act = host.step(ev);
        ev = match a {
            HostAction::PollRequests => HostEvent::Received(host.poll_requests()),
            HostAction::Call(req) => HostEvent::Called(req),
            HostAction::Poll(f) => match resolve(f) {
                Some(Ok(r)) => HostEvent::Resolved(r),
                Some(Err(e)) => HostEvent::Failed(e),
                None => HostEvent::Pending(f),
            },
            HostAction::Complete(k, res) => {
                done.push((k, res));
                HostEvent::Resume
            }
            HostAction::Yield => return (done, false),
            HostAction::Finish => return (done, true),
        };
    }
}

#[test]
fn requests_are_answered_in_order() {
    let (handle, mut host) = Host::<(), u64, u64, u32>::build(());
    assert!(handle.send_request(10, 1).is_ok());
    assert!(handle.send_request(20, 2).is_ok());
    assert!(handle.send_request(30, 3).is_ok());
    let (done, finished) = drive(&mut host, &|f| Some(Ok(f + 1)));
    assert!(!finished);
    assert_eq!(done, vec![(1, Ok(11)), (2, Ok(21)), (3, Ok(31))]);
    drop(handle);
    let (done, finished) = drive(&mut host, &|f| Some(Ok(f)));
    assert!(done.is_empty());
    assert!(finished);
}

#[test]
fn failures_go_to_their_request() {
    let (handle, mut host) = Host::<(), u64, u64, u32>::build(());
    assert!(handle.send_request(1, 5).is_ok());
    assert!(handle.send_request(2, 6).is_ok());
    let (done, _) = drive(&mut host, &|f| if f == 1 { Some(Err("bad".to_string())) } else { Some(Ok(f)) });
    assert_eq!(done, vec![(5, Err("bad".to_string())), (6, Ok(2))]);
}

#[test]
fn a_pending_response_blocks_the_next_request() {
    let (handle, mut host) = Host::<(), u64, u64, u32>::build(());
    assert!(handle.send_request(1, 1).is_ok());
    assert!(handle.send_request(2, 2).is_ok());
    let (done, finished) = drive(&mut host, &|_| None);
    assert!(done.is_empty());
    assert!(!finished);
    // Once the response is ready, the blocked request completes first.
    let (done, _) = drive(&mut host, &|f| Some(Ok(f * 100)));
    assert_eq!(done, vec![(1, Ok(100)), (2, Ok(200))]);
}

#[test]
fn a_host_whose_handle_is_gone_finishes() {
    let (handle, mut host) = Host::<(), u64, u64, u32>::build(());
    drop(handle);
    let (done, finished) = drive(&mut host, &|f| Some(Ok(f)));
    assert!(done.is_empty());
    assert!(finished);
}

#[test]
fn each_step_of_the_machine() {
    let (handle, mut host) = Host::<(), u64, u64, u32>::build(());
    assert!(handle.send_request(4, 9).is_ok());
    assert!(!host.expects(&Ev::Called(0)));
    assert!(matches!(host.step(Ev::Resume), HostAction::PollRequests));
    assert!(matches!(host.step(Ev::Received(Async::Ready(Some((4, 9))))), HostAction::Call(4)));
    assert!(host.expects(&Ev::Called(0)));
    assert!(!host.expects(&Ev::Resume));
    assert!(matches!(host.step(Ev::Called(40)), HostAction::Poll(40)));
    assert!(matches!(host.step(Ev::Pending(40)), HostAction::Yield));
    assert!(host.expects(&Ev::Resume));
    assert!(!host.expects(&Ev::Received(Async::NotReady)));
    assert!(matches!(host.step(Ev::Resume), HostAction::Poll(40)));
    assert!(matches!(host.step(Ev::Resolved(41)), HostAction::Complete(9, Ok(41))));
    assert!(matches!(host.step(Ev::Resume), HostAction::PollRequests));
    assert!(matches!(host.step(Ev::Received(Async::NotReady)), HostAction::Yield));
    assert!(matches!(host.step(Ev::Received(Async::Ready(None))), HostAction::Finish));
    assert_eq!(*host.service(), ());
}

#[test]
fn the_service_gets_each_request_once_in_order() {
    let (handle, mut host) = Host::<(), u64, u64, u32>::build(());
    for (req, k) in [(7u64, 1u32), (8, 2), (9, 3)] {
        assert!(handle.send_request(req, k).is_ok());
    }
    drop(handle);
    let mut calls = Vec::new();
    let mut completions = 0;
    let mut ev: Ev = HostEvent::Resume;
    loop {
        let a: Act = host.step(ev);
        ev = match a {
            HostAction::PollRequests => HostEvent::Received(host.poll_requests()),
            HostAction::Call(req) => {
                // At most one call is outstanding.
                assert_eq!(calls.len(), completions);
                calls.push(req);
                HostEvent::Called(req)
            }
            HostAction::Poll(f) => HostEvent::Resolved(f),
            HostAction::Complete(_, _) => {
                completions += 1;
                HostEvent::Resume
            }
            HostAction::Yield => panic!("nothing here is ever pending"),
            HostAction::Finish => break,
        };
    }
    assert_eq!(calls, vec![7, 8, 9]);
    assert_eq!(completions, 3);
}
