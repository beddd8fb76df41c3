//! Shutdown coordination: a many-to-one channel carrying a static reason.
//!
//! The channel is created once at controller startup and split into a
//! cloneable sender, handed to every component that might need to trigger
//! shutdown, and a single receiver held by the controller's main wait loop.
//! Only the first reason observed by the receiver matters; when every sender
//! is dropped without sending, the receiver resolves with a sentinel reason
//! instead of waiting forever.

use vstd::prelude::*;

verus! {

/// Message used for shutdown synchronization.
pub type ShutdownMsg = &'static str;

#[verifier::external_type_specification]
#[verifier::external_body]
#[verifier::reject_recursive_types(T)]
pub struct ExUnboundedSender<T>(futures::channel::mpsc::UnboundedSender<T>);

#[verifier::external_type_specification]
#[verifier::external_body]
#[verifier::reject_recursive_types(T)]
pub struct ExUnboundedReceiver<T>(futures::channel::mpsc::UnboundedReceiver<T>);

/// Relies on the `Clone` impl of
/// `futures::channel::mpsc::UnboundedSender`: a clone is another sender
/// handle on the same channel.
pub assume_specification<T>[ <futures::channel::mpsc::UnboundedSender<T> as Clone>::clone ](
    s: &futures::channel::mpsc::UnboundedSender<T>,
) -> futures::channel::mpsc::UnboundedSender<T>;

/// Sender side of shutdown messenger.
#[derive(Clone)]
pub struct ShutdownSender(futures::channel::mpsc::UnboundedSender<ShutdownMsg>);

impl ShutdownSender {
    /// Requests an orderly shutdown for the given reason; fire-and-forget
    /// and non-blocking. Relies on
    /// `futures::channel::mpsc::UnboundedSender::unbounded_send`: queueing on
    /// an unbounded channel never blocks and fails only once the receiver is
    /// gone. That failure is discarded: a receiver already torn down means
    /// the shutdown this call would have requested is under way or moot, and
    /// no acknowledgement is owed to the sender.
    #[verifier::external_body]
    pub fn send(&self, msg: ShutdownMsg) {
        let _ = self.0.unbounded_send(msg);
    }
}

/// Receiver side of shutdown messenger.
pub struct ShutdownReceiver(futures::channel::mpsc::UnboundedReceiver<ShutdownMsg>);

/// The sentinel reason delivered when every sender was dropped without
/// a shutdown request ever being sent.
pub fn all_chains_ended_reason() -> (msg: ShutdownMsg)
    ensures
        msg@ == "all hchains died"@,
{
    "all hchains died"
}

/// Turns what the channel delivered into the reason the wait loop acts on:
/// the first message when one arrived, the sentinel when the channel closed
/// because every sender was dropped without sending.
pub fn resolve_shutdown_reply(reply: Option<ShutdownMsg>) -> (msg: ShutdownMsg)
    ensures
        reply is Some ==> msg == reply->0,
        reply is None ==> msg@ == "all hchains died"@,
{
    match reply {
        Some(m) => m,
        None => all_chains_ended_reason(),
    }
}

impl ShutdownReceiver {
    /// The next message the channel delivers, or nothing once the channel
    /// has closed. Relies on `futures::stream::StreamExt::next` on an
    /// `UnboundedReceiver` (driven by `futures::executor::block_on`): waits
    /// for a message, returns `Some` with the earliest one still queued and
    /// `None` exactly when every sender is dropped and the queue is drained.
    #[verifier::external_body]
    fn receive_reply(&mut self) -> (reply: Option<ShutdownMsg>) {
        futures::executor::block_on(futures::stream::StreamExt::next(&mut self.0))
    }

    /// Waits for the first shutdown reason. What comes back is the earliest
    /// reason any component sent; when every sender ended without sending,
    /// the sentinel reason is returned instead of waiting forever.
    pub fn receive(&mut self) -> (msg: ShutdownMsg) {
        let reply = self.receive_reply();
        resolve_shutdown_reply(reply)
    }
}

/// Shutdown messenger constructor & splitter.
pub struct Shutdown(pub ShutdownSender, pub ShutdownReceiver);

impl Shutdown {
    /// A fresh shutdown messenger: one cloneable sender connected to one
    /// receiver. Relies on `futures::channel::mpsc::unbounded`: the pair it
    /// returns forms one connected channel.
    #[verifier::external_body]
    pub fn new() -> Self {
        let (shutdown_tx, shutdown_rx) = futures::channel::mpsc::unbounded();
        Self(ShutdownSender(shutdown_tx), ShutdownReceiver(shutdown_rx))
    }

    /// Hands the sender and the receiver to their owners.
    pub fn split(self) -> (r: (ShutdownSender, ShutdownReceiver))
        ensures
            r == (self.0, self.1),
    {
        (self.0, self.1)
    }
}

} // verus!
