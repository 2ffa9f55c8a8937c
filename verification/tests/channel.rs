use sexp_proto_tokio::mpsc::{poll_outcome, MpscReceiver, MpscSender, TryRecv};
use sexp_proto_tokio::Async;

#[test]
fn values_come_out_in_the_order_sent() {
    let (tx, mut rx) = MpscReceiver::<u32>::pair();
    assert!(tx.send(1).is_ok());
    assert!(tx.send(2).is_ok());
    assert!(matches!(rx.poll(), Ok(Async::Ready(Some(1)))));
    assert!(matches!(rx.poll(), Ok(Async::Ready(Some(2)))));
    assert!(matches!(rx.poll(), Ok(Async::NotReady)));
}

#[test]
fn receiver_ends_when_every_sender_is_gone() {
    let (tx, mut rx) = MpscReceiver::<u32>::pair();
    let tx2: MpscSender<u32> = tx.clone();
    drop(tx);
    assert!(tx2.send(7).is_ok());
    drop(tx2);
    assert!(matches!(rx.poll(), Ok(Async::Ready(Some(7)))));
    assert!(matches!(rx.poll(), Ok(Async::Ready(None))));
}

#[test]
fn send_to_a_gone_receiver_gives_the_value_back() {
    let (tx, rx) = MpscReceiver::<String>::pair();
    drop(rx);
    match tx.send("lost".to_string()) {
        Err(e) => assert_eq!(e.0, "lost"),
        Ok(()) => panic!("send succeeded without a receiver"),
    }
}

#[test]
fn receive_outcomes_map_to_stream_items() {
    assert!(matches!(poll_outcome(TryRecv::Item(3u8)), Async::Ready(Some(3))));
    assert!(matches!(poll_outcome(TryRecv::<u8>::Empty), Async::NotReady));
    assert!(matches!(poll_outcome(TryRecv::<u8>::Disconnected), Async::Ready(None)));
}
