//! Minimal actor runtime model: an ordered mailbox with a published
//! run-state, and the context that owns its consuming end.
//!
//! Messages from one sender to one receiver keep their send order; a closed
//! mailbox refuses every further send with `ActorStopped` while messages
//! already enqueued may still be drained.

use vstd::prelude::*;

verus! {

/// Run-state published beside a mailbox, observable without consuming
/// messages.
#[derive(Clone, Copy, PartialEq, Eq, Structural, Debug)]
pub enum ActorState {
    Active,
    Stopped,
}

/// Failure of a send: the recipient is gone, not a transient fault.
#[derive(Clone, Copy, PartialEq, Eq, Structural, Debug)]
pub enum SendError {
    ActorStopped,
}

/// What `send` does to a mailbox: enqueue while the actor is active,
/// refuse with `ActorStopped` once it has stopped.
pub open spec fn spec_send<M>(queue: Seq<M>, state: ActorState, msg: M) -> (Seq<M>, Result<
    (),
    SendError,
>) {
    if state == ActorState::Active {
        (queue.push(msg), Ok(()))
    } else {
        (queue, Err(SendError::ActorStopped))
    }
}

/// An ordered multi-producer single-consumer message queue with its
/// published run-state.
pub struct Mailbox<M> {
    pub queue: Vec<M>,
    pub state: ActorState,
}

impl<M> Mailbox<M> {
    pub open spec fn spec_queue(&self) -> Seq<M> {
        self.queue@
    }

    pub open spec fn spec_state(&self) -> ActorState {
        self.state
    }

    pub fn new() -> (m: Mailbox<M>)
        ensures
            m.spec_queue() == Seq::<M>::empty(),
            m.spec_state() == ActorState::Active,
    {
        Mailbox { queue: Vec::new(), state: ActorState::Active }
    }

    /// Enqueues a message in FIFO order; never blocks.  Sending to a
    /// stopped actor is reported, never silently dropped.
    pub fn send(&mut self, msg: M) -> (r: Result<(), SendError>)
        ensures
            (final(self).spec_queue(), r) == spec_send(
                old(self).spec_queue(),
                old(self).spec_state(),
                msg,
            ),
            final(self).spec_state() == old(self).spec_state(),
    {
        match self.state {
            ActorState::Active => {
                self.queue.push(msg);
                Ok(())
            },
            ActorState::Stopped => Err(SendError::ActorStopped),
        }
    }

    /// Closes the mailbox: all later sends fail immediately, while already
    /// enqueued messages stay drainable.  Idempotent.
    pub fn close(&mut self)
        ensures
            final(self).spec_state() == ActorState::Stopped,
            final(self).spec_queue() == old(self).spec_queue(),
    {
        self.state = ActorState::Stopped;
    }

    /// Observes the published run-state without consuming messages.
    pub fn run_state(&self) -> (r: ActorState)
        ensures
            r == self.spec_state(),
    {
        self.state
    }

    /// Takes the next message in send order; `None` is end-of-stream once
    /// the queue has drained.
    pub fn recv(&mut self) -> (r: Option<M>)
        ensures
            old(self).spec_queue().len() > 0 ==> r is Some && r->0 == old(self).spec_queue()[0]
                && final(self).spec_queue() == old(self).spec_queue().drop_first(),
            old(self).spec_queue().len() == 0 ==> r is None && final(self).spec_queue() == old(
                self,
            ).spec_queue(),
            final(self).spec_state() == old(self).spec_state(),
    {
        if self.queue.len() > 0 {
            let m = self.queue.remove(0);
            assert(final(self).queue@ =~= old(self).queue@.drop_first());
            Some(m)
        } else {
            None
        }
    }
}

/// The sending-side view of an actor: its published run-state.  The queue
/// endpoint itself stays with the owning context in this sequential model.
#[derive(Clone, Copy, PartialEq, Eq, Structural, Debug)]
pub struct Address {
    pub state: ActorState,
}

/// Owns the consuming end of a mailbox and drives one actor's message
/// loop.
pub struct ActorContext<M> {
    pub mailbox: Mailbox<M>,
}

impl<M> ActorContext<M> {
    pub open spec fn spec_queue(&self) -> Seq<M> {
        self.mailbox.spec_queue()
    }

    pub open spec fn spec_state(&self) -> ActorState {
        self.mailbox.spec_state()
    }

    /// Builds the context together with an active mailbox.
    pub fn new() -> (c: ActorContext<M>)
        ensures
            c.spec_queue() == Seq::<M>::empty(),
            c.spec_state() == ActorState::Active,
    {
        ActorContext { mailbox: Mailbox::new() }
    }

    /// A snapshot of the published run-state, as any address holder
    /// observes it.
    pub fn address(&self) -> (a: Address)
        ensures
            a.state == self.spec_state(),
    {
        Address { state: self.mailbox.run_state() }
    }

    /// The consuming end, for the actor's own receive loop.
    pub fn joint(&mut self) -> (m: &mut Mailbox<M>)
        ensures
            *m == old(self).mailbox,
            final(self).mailbox == *final(m),
    {
        &mut self.mailbox
    }

    /// Schedules the next action for this actor by sending to itself.
    pub fn do_next(&mut self, action: M) -> (r: Result<(), SendError>)
        ensures
            (final(self).spec_queue(), r) == spec_send(
                old(self).spec_queue(),
                old(self).spec_state(),
                action,
            ),
            final(self).spec_state() == old(self).spec_state(),
    {
        self.mailbox.send(action)
    }

    /// The only sanctioned way to end the message loop: closes the mailbox
    /// and flips the published run-state.  Idempotent; enqueued messages
    /// may still be drained, but no new ones are accepted.
    pub fn shutdown(&mut self)
        ensures
            final(self).spec_state() == ActorState::Stopped,
            final(self).spec_queue() == old(self).spec_queue(),
    {
        self.mailbox.close();
    }
}

/// Law: once an actor has stopped, every subsequent send returns
/// `ActorStopped` and leaves the mailbox unchanged, so the stopped state is
/// absorbing.
pub proof fn lemma_send_after_stop<M>(queue: Seq<M>, msg: M)
    ensures
        spec_send(queue, ActorState::Stopped, msg) == (
            queue,
            Err::<(), SendError>(SendError::ActorStopped),
        ),
{
}

} // verus!
