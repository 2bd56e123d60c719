use vstd::prelude::*;
use tokio::sync::broadcast::error::SendError;
use tokio::sync::broadcast::{Receiver, Sender};

verus! {

/// The sending half of tokio's broadcast channel, carried through opaquely.
#[verifier::external_type_specification]
#[verifier::external_body]
#[verifier::reject_recursive_types(T)]
pub struct ExSender<T>(Sender<T>);

/// A subscriber of tokio's broadcast channel, handed to the caller opaquely.
#[verifier::external_type_specification]
#[verifier::external_body]
#[verifier::reject_recursive_types(T)]
pub struct ExReceiver<T>(Receiver<T>);

/// The error of tokio's `Sender::send` when nobody listens; only told apart from success.
#[verifier::external_type_specification]
#[verifier::external_body]
#[verifier::reject_recursive_types(T)]
pub struct ExSendError<T>(SendError<T>);

/// Relies on `Sender::new`, which panics on a capacity of zero or
/// above half the address space.
#[verifier::external_body]
fn new_sender<T: Clone>(capacity: usize) -> (r: Sender<T>)
    requires
        0 < capacity <= usize::MAX / 2,
{
    Sender::new(capacity)
}

/// Relies on `Sender::send`: on success it returns the number of
/// subscribers, which is never zero (with none it fails).
#[verifier::external_body]
fn send_value<T>(s: &Sender<T>, value: T) -> (r: Result<
    usize,
    SendError<T>,
>)
    ensures
        r matches Ok(n) ==> n > 0,
{
    s.send(value)
}

/// Relies on `Sender::subscribe`: a receiver of what is sent from
/// now on.
#[verifier::external_body]
fn subscribe_to<T>(s: &Sender<T>) -> (r: Receiver<T>) {
    s.subscribe()
}

/// Relies on `Sender::receiver_count`: the number of live receivers.
#[verifier::external_body]
fn count_receivers<T>(s: &Sender<T>) -> (r: usize) {
    s.receiver_count()
}

/// An event that every worker hears.
#[derive(Debug, Clone, Copy, PartialEq, Eq, Structural)]
pub enum Event {
    /// The daemon is shutting down.
    Shutdown,
}

/// Why a message went unheard.
#[derive(Debug, Clone, Copy, PartialEq, Eq, Structural)]
pub enum BusError {
    /// No subscriber was listening.
    NoReceivers,
}

/// A broadcast channel of bounded capacity `CAP`.
#[derive(Debug)]
#[verifier::reject_recursive_types(T)]
pub struct EventChannel<T, const CAP: usize> {
    channel: Sender<T>,
}

impl<T: Clone, const CAP: usize> EventChannel<T, CAP> {
    /// A channel with no subscribers yet.
    pub fn new() -> (r: Self)
        requires
            0 < CAP <= usize::MAX / 2,
    {
        EventChannel { channel: new_sender(CAP) }
    }

    /// Sends to every current subscriber; fails when there is none.
    pub fn send(&self, msg: T) -> (r: Result<usize, BusError>)
        ensures
            r matches Ok(n) ==> n > 0,
            r is Err ==> r == Err::<usize, BusError>(BusError::NoReceivers),
    {
        match send_value(&self.channel, msg) {
            Ok(n) => Ok(n),
            Err(_) => Err(BusError::NoReceivers),
        }
    }

    /// A new subscriber.
    pub fn subscribe(&self) -> Receiver<T> {
        subscribe_to(&self.channel)
    }

    /// The number of subscribers now.
    pub fn receiver_count(&self) -> usize {
        count_receivers(&self.channel)
    }

    /// Whether anyone is subscribed now.
    pub fn has_receivers(&self) -> (r: bool) {
        count_receivers(&self.channel) > 0
    }
}

/// Room for events not yet read by the slowest subscriber.
pub const BUS_CAPACITY: usize = 24;

/// The process-wide event bus.
pub type EventBus = EventChannel<Event, BUS_CAPACITY>;

/// A new event bus.
pub fn new_bus() -> EventBus {
    EventChannel::new()
}

/// Sends an event to every subscriber of the bus.
pub fn broadcast(bus: &EventBus, event: Event) -> (r: Result<usize, BusError>)
    ensures
        r matches Ok(n) ==> n > 0,
        r is Err ==> r == Err::<usize, BusError>(BusError::NoReceivers),
{
    bus.send(event)
}

/// A new subscriber of the bus.
pub fn subscribe(bus: &EventBus) -> Receiver<Event> {
    bus.subscribe()
}

/// The number of subscribers of the bus now.
pub fn receiver_count(bus: &EventBus) -> usize {
    bus.receiver_count()
}

} // verus!
