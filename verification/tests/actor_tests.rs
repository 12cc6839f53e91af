use launchpad::actors::ActorContext;
use launchpad::actors::ActorState;
use launchpad::actors::Mailbox;
use launchpad::actors::SendError;

#[test]
fn mailbox_keeps_fifo_order() {
    let mut mb: Mailbox<u32> = Mailbox::new();
    mb.send(1).unwrap();
    mb.send(2).unwrap();
    mb.send(3).unwrap();
    assert_eq!(mb.recv(), Some(1));
    assert_eq!(mb.recv(), Some(2));
    assert_eq!(mb.recv(), Some(3));
    assert_eq!(mb.recv(), None);
}

#[test]
fn send_after_close_returns_actor_stopped_every_time() {
    let mut mb: Mailbox<u32> = Mailbox::new();
    mb.send(7).unwrap();
    mb.close();
    assert_eq!(mb.send(8), Err(SendError::ActorStopped));
    assert_eq!(mb.send(9), Err(SendError::ActorStopped));
    assert_eq!(mb.send(10), Err(SendError::ActorStopped));
}

#[test]
fn close_keeps_enqueued_messages_drainable() {
    let mut mb: Mailbox<u32> = Mailbox::new();
    mb.send(1).unwrap();
    mb.send(2).unwrap();
    mb.close();
    assert_eq!(mb.recv(), Some(1));
    assert_eq!(mb.recv(), Some(2));
    assert_eq!(mb.recv(), None);
}

#[test]
fn close_is_idempotent() {
    let mut mb: Mailbox<u32> = Mailbox::new();
    mb.close();
    mb.close();
    assert_eq!(mb.run_state(), ActorState::Stopped);
    assert_eq!(mb.send(1), Err(SendError::ActorStopped));
}

#[test]
fn context_address_publishes_run_state() {
    let mut ctx: ActorContext<u32> = ActorContext::new();
    assert_eq!(ctx.address().state, ActorState::Active);
    ctx.shutdown();
    assert_eq!(ctx.address().state, ActorState::Stopped);
}

#[test]
fn context_do_next_after_shutdown_fails() {
    let mut ctx: ActorContext<u32> = ActorContext::new();
    ctx.do_next(1).unwrap();
    ctx.shutdown();
    ctx.shutdown();
    assert_eq!(ctx.do_next(2), Err(SendError::ActorStopped));
    assert_eq!(ctx.do_next(3), Err(SendError::ActorStopped));
    // The message accepted before shutdown still drains.
    assert_eq!(ctx.joint().recv(), Some(1));
    assert_eq!(ctx.joint().recv(), None);
}
