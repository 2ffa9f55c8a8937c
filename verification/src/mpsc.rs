//! The two ends of an unbounded first-in first-out channel, as the request
//! host reads them: a receiver that is polled without blocking.
use vstd::prelude::*;

use crate::{Async, Empty};
use std::sync::mpsc::{Receiver, Sender};

verus! {

#[verifier::external_type_specification]
#[verifier::external_body]
#[verifier::reject_recursive_types(T)]
pub struct ExSender<T>(Sender<T>);

#[verifier::external_type_specification]
#[verifier::external_body]
#[verifier::reject_recursive_types(T)]
pub struct ExReceiver<T>(Receiver<T>);

/// What one non-blocking receive found on the channel.
#[derive(Debug)]
pub enum TryRecv<T> {
    /// The oldest value that was sent and not yet received.
    Item(T),
    /// Nothing is queued, and some sender still exists.
    Empty,
    /// Nothing is queued, and every sender is gone.
    Disconnected,
}

/// A send that found the receiving end gone; it hands the value back.
#[derive(Debug)]
pub struct SendError<T>(pub T);

/// The sending end of a channel.
#[verifier::reject_recursive_types(T)]
pub struct MpscSender<T> {
    tx: Sender<T>,
    chan: Ghost<int>,
}

/// The receiving end of a channel.
#[verifier::reject_recursive_types(T)]
pub struct MpscReceiver<T> {
    rx: Receiver<T>,
    chan: Ghost<int>,
}

/// `std::sync::mpsc::channel`: a new channel, as its two ends. Nothing is
/// claimed of the result.
#[verifier::external_body]
fn std_channel<T>() -> (Sender<T>, Receiver<T>) {
    std::sync::mpsc::channel()
}

/// `std::sync::mpsc::Sender::send`: queues the value unless the receiver is
/// gone. Claimed: a failed send gives back the very value it was handed (its
/// `SendError` holds the data that could not be sent). Whether it fails
/// depends on the other end and is not claimed.
#[verifier::external_body]
fn std_send<T>(tx: &Sender<T>, val: T) -> (r: Result<(), T>)
    ensures
        r matches Err(v) ==> v == val,
{
    tx.send(val).map_err(|e| e.0)
}

/// `std::sync::mpsc::Sender::clone`: another sending end of the same
/// channel. Nothing is claimed of the result.
#[verifier::external_body]
fn std_sender_clone<T>(tx: &Sender<T>) -> Sender<T> {
    tx.clone()
}

/// `std::sync::mpsc::Receiver::try_recv`, its three outcomes told apart.
/// What it finds depends on the other ends and is not claimed.
#[verifier::external_body]
fn std_try_recv<T>(rx: &Receiver<T>) -> TryRecv<T> {
    match rx.try_recv() {
        Ok(v) => TryRecv::Item(v),
        Err(std::sync::mpsc::TryRecvError::Empty) => TryRecv::Empty,
        Err(std::sync::mpsc::TryRecvError::Disconnected) => TryRecv::Disconnected,
    }
}

/// The stream item that a receive outcome stands for: a value is ready, an
/// empty channel is not ready yet, a disconnected one has ended.
pub open spec fn spec_poll_outcome<T>(t: TryRecv<T>) -> Async<Option<T>> {
    match t {
        TryRecv::Item(v) => Async::Ready(Some(v)),
        TryRecv::Empty => Async::NotReady,
        TryRecv::Disconnected => Async::Ready(None),
    }
}

/// Maps a receive outcome to the stream item it stands for.
pub fn poll_outcome<T>(t: TryRecv<T>) -> (r: Async<Option<T>>)
    ensures
        r == spec_poll_outcome(t),
{
    match t {
        TryRecv::Item(v) => Async::Ready(Some(v)),
        TryRecv::Empty => Async::NotReady,
        TryRecv::Disconnected => Async::Ready(None),
    }
}

impl<T> MpscSender<T> {
    /// The label of the channel this end sends into: ends made by one `pair`,
    /// and their clones, carry the same label.
    pub closed spec fn chan(&self) -> int {
        self.chan@
    }

    /// Queues `val` for the receiver. Fails, giving `val` back, when the
    /// receiving end is gone.
    pub fn send(&self, val: T) -> (r: Result<(), SendError<T>>)
        ensures
            r matches Err(e) ==> e.0 == val,
    {
        match std_send(&self.tx, val) {
            Ok(()) => Ok(()),
            Err(v) => Err(SendError(v)),
        }
    }
}

impl<T> Clone for MpscSender<T> {
    /// Another sending end of the same channel.
    fn clone(&self) -> (r: Self)
        ensures
            r.chan() == self.chan(),
    {
        MpscSender { tx: std_sender_clone(&self.tx), chan: self.chan }
    }
}

impl<T> MpscReceiver<T> {
    /// The label of the channel this end receives from.
    pub closed spec fn chan(&self) -> int {
        self.chan@
    }

    /// A new channel, as its sending and its receiving end: both ends of
    /// the one channel that `std::sync::mpsc::channel` made, so they carry
    /// the same label.
    pub fn pair() -> (r: (MpscSender<T>, Self))
        ensures
            r.0.chan() == r.1.chan(),
    {
        let (tx, rx) = std_channel();
        let ghost label: int = arbitrary();
        let recv = MpscReceiver { rx: rx, chan: Ghost(label) };
        let send = MpscSender { tx: tx, chan: Ghost(label) };
        (send, recv)
    }

    /// Takes the next value without blocking: ready with it, not ready when
    /// the channel is empty, ready with nothing once every sender is gone.
    /// Polling never fails.
    pub fn poll(&mut self) -> (r: Result<Async<Option<T>>, Empty>)
        ensures
            r is Ok,
            final(self).chan() == old(self).chan(),
    {
        Ok(poll_outcome(std_try_recv(&self.rx)))
    }
}

} // verus!
