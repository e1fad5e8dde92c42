use vstd::prelude::*;
use tokio::sync::broadcast::{Receiver, Sender};

verus! {

#[verifier::external_type_specification]
#[verifier::external_body]
#[verifier::reject_recursive_types(T)]
pub struct ExBroadcastSender<T>(Sender<T>);

#[verifier::external_type_specification]
#[verifier::external_body]
#[verifier::reject_recursive_types(T)]
pub struct ExBroadcastReceiver<T>(Receiver<T>);

/// Frames buffered for each subscriber before its oldest unread ones are dropped.
pub const BUS_CAPACITY: usize = 1024;

/// What a subscriber finds when it looks for its next frame.
#[derive(Debug)]
pub enum Received {
    /// The next frame, in publishing order.
    Frame(Vec<u8>),
    /// Nothing new has been published.
    Empty,
    /// This many frames were dropped before the next one that is still held.
    Lagged(u64),
    /// The bus is gone and every frame has been read.
    Closed,
}

/// Relies on tokio's `broadcast::channel`, which panics on a capacity of zero
/// or above `usize::MAX / 2`; its first receiver is dropped.
#[verifier::external_body]
fn broadcast_sender(capacity: usize) -> (r: Sender<Vec<u8>>)
    requires
        0 < capacity <= usize::MAX / 2,
{
    tokio::sync::broadcast::channel(capacity).0
}

/// Relies on tokio's `Sender::send`: `Ok` with the number of receivers,
/// which is never zero, or an error when there is no receiver.
#[verifier::external_body]
fn broadcast_send(tx: &Sender<Vec<u8>>, frame: Vec<u8>) -> (r: Option<usize>)
    ensures
        r matches Some(n) ==> n > 0,
{
    tx.send(frame).ok()
}

/// Relies on tokio's `Sender::subscribe`: a receiver of the values sent
/// from then on.
#[verifier::external_body]
fn broadcast_subscribe(tx: &Sender<Vec<u8>>) -> (r: Receiver<Vec<u8>>) {
    tx.subscribe()
}

/// Relies on tokio's `Receiver::try_recv`, its error variants told apart;
/// a lag it reports is never of zero frames.
#[verifier::external_body]
fn broadcast_try_recv(rx: &mut Receiver<Vec<u8>>) -> (r: Received)
    ensures
        r matches Received::Lagged(n) ==> n > 0,
{
    match rx.try_recv() {
        Ok(frame) => Received::Frame(frame),
        Err(tokio::sync::broadcast::error::TryRecvError::Empty) => Received::Empty,
        Err(tokio::sync::broadcast::error::TryRecvError::Closed) => Received::Closed,
        Err(tokio::sync::broadcast::error::TryRecvError::Lagged(n)) => Received::Lagged(n),
    }
}

/// Fan-out of encoded frames to any number of subscribers; publishing never
/// waits for a subscriber.
pub struct DistributionBus {
    tx: Sender<Vec<u8>>,
    capacity: usize,
}

/// One subscriber's reading position on a bus.
pub struct Subscriber {
    rx: Receiver<Vec<u8>>,
}

impl DistributionBus {
    /// The number of frames buffered for each subscriber.
    pub closed spec fn capacity_spec(&self) -> usize {
        self.capacity
    }

    /// A bus that buffers up to `capacity` frames for each subscriber.
    pub fn new(capacity: usize) -> (r: DistributionBus)
        requires
            0 < capacity <= usize::MAX / 2,
        ensures
            r.capacity_spec() == capacity,
    {
        DistributionBus { tx: broadcast_sender(capacity), capacity }
    }

    pub fn capacity(&self) -> (r: usize)
        ensures
            r == self.capacity_spec(),
    {
        self.capacity
    }

    /// A subscriber that receives the frames published from now on.
    pub fn subscribe(&self) -> (r: Subscriber) {
        Subscriber { rx: broadcast_subscribe(&self.tx) }
    }

    /// Hands `frame` to every subscriber and returns how many there were;
    /// with none the frame is dropped.
    pub fn publish(&self, frame: Vec<u8>) -> (r: usize) {
        match broadcast_send(&self.tx, frame) {
            Some(n) => n,
            None => 0,
        }
    }
}

impl Subscriber {
    /// The next frame for this subscriber, without waiting.
    pub fn receive(&mut self) -> (r: Received)
        ensures
            r matches Received::Lagged(n) ==> n > 0,
    {
        broadcast_try_recv(&mut self.rx)
    }
}

} // verus!
