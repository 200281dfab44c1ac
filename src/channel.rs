//! Typed endpoints of the in-thread transport that carries control messages
//! to a worker and replies back to callers.
use vstd::prelude::*;

verus! {

#[verifier::external_type_specification]
#[verifier::external_body]
#[verifier::reject_recursive_types(T)]
pub struct ExSender<T>(std::sync::mpsc::Sender<T>);

#[verifier::external_type_specification]
#[verifier::external_body]
#[verifier::reject_recursive_types(T)]
pub struct ExReceiver<T>(std::sync::mpsc::Receiver<T>);

#[verifier::external_type_specification]
#[verifier::external_body]
#[verifier::reject_recursive_types(T)]
pub struct ExSendError<T>(std::sync::mpsc::SendError<T>);

#[verifier::external_type_specification]
#[verifier::external_body]
pub struct ExRecvError(std::sync::mpsc::RecvError);

/// Relies on `std::sync::mpsc::channel`: it opens an unbounded queue and never fails.
pub assume_specification<T>[ std::sync::mpsc::channel::<T> ]() -> (std::sync::mpsc::Sender<T>, std::sync::mpsc::Receiver<T>);

/// Relies on `Sender::send`: it enqueues the value, or fails when the receiving
/// half is gone; it never blocks.
pub assume_specification<T>[ std::sync::mpsc::Sender::<T>::send ](s: &std::sync::mpsc::Sender<T>, t: T) -> Result<(), std::sync::mpsc::SendError<T>>;

/// Relies on `Receiver::recv`: it blocks until a value arrives, or fails once
/// every sender is gone and the queue is empty.
pub assume_specification<T>[ std::sync::mpsc::Receiver::<T>::recv ](r: &std::sync::mpsc::Receiver<T>) -> Result<T, std::sync::mpsc::RecvError>;

/// Relies on `Sender::clone`: the copy feeds the same queue.
pub assume_specification<T>[ <std::sync::mpsc::Sender<T> as core::clone::Clone>::clone ](s: &std::sync::mpsc::Sender<T>) -> std::sync::mpsc::Sender<T>;

/// Sending half of a channel; cloned freely, one per producer.
#[verifier::reject_recursive_types(T)]
pub struct WebGLSender<T>(pub std::sync::mpsc::Sender<T>);

impl<T> Clone for WebGLSender<T> {
    /// Another sender into the same queue, whatever the values it carries.
    fn clone(&self) -> Self {
        WebGLSender(self.0.clone())
    }
}

/// Receiving half of a channel, owned by the single consumer.
#[verifier::reject_recursive_types(T)]
pub struct WebGLReceiver<T>(pub std::sync::mpsc::Receiver<T>);

impl<T> WebGLSender<T> {
    /// Queues `data` for the receiver; fails only when the receiver is gone.
    pub fn send(&self, data: T) -> Result<(), std::sync::mpsc::SendError<T>> {
        self.0.send(data)
    }
}

impl<T> WebGLReceiver<T> {
    /// Waits for the next value; fails once no sender is left and the queue is empty.
    pub fn recv(&self) -> Result<T, std::sync::mpsc::RecvError> {
        self.0.recv()
    }
}

/// Opens a new channel. The in-thread transport cannot run out of channels,
/// so this always succeeds.
pub fn webgl_channel<T>() -> (r: Result<(WebGLSender<T>, WebGLReceiver<T>), ()>)
    ensures
        r is Ok,
{
    let (sender, receiver) = std::sync::mpsc::channel();
    Ok((WebGLSender(sender), WebGLReceiver(receiver)))
}

} // verus!
