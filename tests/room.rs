use spire::room::{
    handle_in_message, handle_room_message, HandlerDispatch, InMessageHandleResult, RoomAction,
    RoomBuildError, RoomBuilder, RoomEvent, RoomLoop, RoomMessageHandleResult,
    DEFAULT_IN_MESSAGE_BUFFER_SIZE, DEFAULT_ROOM_MESSAGE_BUFFER_SIZE,
};
use InMessageHandleResult::{Break, Continue, Pass};

#[test]
fn break_stops_dispatch() {
    let d = handle_in_message(&vec![Pass, Break, Continue]);
    assert_eq!(d, HandlerDispatch { handled: true, stopped: true, offered: 2 });
}

#[test]
fn continue_keeps_offering() {
    let d = handle_in_message(&vec![Continue, Pass, Continue]);
    assert_eq!(d, HandlerDispatch { handled: true, stopped: false, offered: 3 });
}

#[test]
fn unclaimed_message_is_unhandled() {
    assert_eq!(
        handle_in_message(&vec![Pass, Pass]),
        HandlerDispatch { handled: false, stopped: false, offered: 2 }
    );
    assert_eq!(handle_in_message(&vec![]), HandlerDispatch { handled: false, stopped: false, offered: 0 });
}

#[test]
fn room_message_dispatch() {
    let d = handle_room_message(&vec![RoomMessageHandleResult::Pass, RoomMessageHandleResult::Break]);
    assert_eq!(d, HandlerDispatch { handled: true, stopped: true, offered: 2 });
}

#[test]
fn offer_step_by_step() {
    let mut d = HandlerDispatch::new();
    d.offer(Pass);
    assert!(!d.handled);
    d.offer_room(RoomMessageHandleResult::Continue);
    assert!(d.handled && !d.stopped);
    d.offer(Break);
    assert!(d.stopped);
    assert_eq!(d.offered, 3);
}

fn noop(_: &u8) -> InMessageHandleResult {
    Pass
}

#[test]
fn builder_defaults_and_check() {
    let b: RoomBuilder<fn(&u8) -> InMessageHandleResult, u8> = RoomBuilder::default();
    assert_eq!(b.in_message_buffer_size, DEFAULT_IN_MESSAGE_BUFFER_SIZE);
    assert_eq!(b.room_message_buffer_size, DEFAULT_ROOM_MESSAGE_BUFFER_SIZE);
    assert_eq!(b.in_message_buffer_size, 256);
    assert_eq!(b.room_message_buffer_size, 64);
    assert_eq!(b.check(), Err(RoomBuildError::NoInMessageHandlers));
    let b = b.add_in_message_handler(noop);
    assert_eq!(b.check(), Err(RoomBuildError::NoRoomMessageHandlers));
    let b = b.add_room_message_handler(1u8).set_update_interval(100);
    assert_eq!(b.check(), Ok(()));
    assert_eq!(b.update_interval, Some(100));
    let b = b.set_in_message_buffer_size(0);
    assert_eq!(b.check(), Err(RoomBuildError::ZeroBufferSize));
    let b = b.set_in_message_buffer_size(8).set_room_message_buffer_size(4);
    assert_eq!((b.in_message_buffer_size, b.room_message_buffer_size), (8, 4));
    assert_eq!(b.in_message_handlers.len(), 1);
}

#[test]
fn new_builder_is_empty() {
    let b: RoomBuilder<u8, u8> = RoomBuilder::new();
    assert_eq!(b.in_message_buffer_size, 0);
    assert_eq!(b.update_interval, None);
}

#[test]
fn room_loop_events() {
    let mut l = RoomLoop::new(true, 1000);
    assert_eq!(l.step(RoomEvent::InMessages(3)), RoomAction::DispatchIn(3));
    assert_eq!(l.step(RoomEvent::RoomMessages(2)), RoomAction::DispatchRoom(2));
    assert_eq!(l.step(RoomEvent::Tick(1100)), RoomAction::Update(100));
    assert_eq!(l.step(RoomEvent::Tick(1050)), RoomAction::Update(0));
    assert_eq!(l.last_tick, 1050);
    assert!(l.running);
    assert_eq!(l.step(RoomEvent::InMessages(0)), RoomAction::Exit);
    assert!(!l.running);
}

#[test]
fn room_without_tick_ignores_timer() {
    let mut l = RoomLoop::new(false, 0);
    assert_eq!(l.step(RoomEvent::Tick(5)), RoomAction::Idle);
    assert_eq!(l.step(RoomEvent::RoomMessages(0)), RoomAction::Exit);
}

#[test]
fn shutdown_ends_room_and_session() {
    let mut l = RoomLoop::new(true, 0);
    assert_eq!(l.step(RoomEvent::Shutdown), RoomAction::Exit);
    assert!(!l.running);
    let mut s = spire::session::SessionLifecycle::new();
    assert!(s.close(spire::session::CloseTrigger::Shutdown));
    assert!(!s.is_open());
}

#[test]
fn full_mailbox_refuses_without_growing() {
    let b: RoomBuilder<u8, u8> = RoomBuilder::default().set_in_message_buffer_size(2);
    let (tx, mut rx) = tokio::sync::mpsc::channel::<u32>(b.in_message_buffer_size);
    tx.try_send(1).unwrap();
    tx.try_send(2).unwrap();
    assert!(matches!(tx.try_send(3), Err(tokio::sync::mpsc::error::TrySendError::Full(3))));
    assert_eq!(rx.try_recv().unwrap(), 1);
    assert_eq!(rx.try_recv().unwrap(), 2);
    assert!(rx.try_recv().is_err());
}
