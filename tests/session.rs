use spire::codec::{ProtocolCategory, HEADER_SIZE};
use spire::session::{CloseTrigger, RecvAction, RecvPhase, Receiver, SessionLifecycle, SessionState};

#[test]
fn session_closes_exactly_once() {
    let mut s = SessionLifecycle::new();
    assert!(s.is_open());
    assert!(!s.is_closed());
    assert!(s.close(CloseTrigger::PeerEof));
    assert!(!s.close(CloseTrigger::Shutdown));
    assert!(!s.close(CloseTrigger::CloseCommand));
    assert!(!s.is_open());
    assert_eq!(s.state(), SessionState::Closing);
    s.finish();
    assert_eq!(s.state(), SessionState::Closed);
    assert!(!s.close(CloseTrigger::WriteFailed));
    assert_eq!(s.state(), SessionState::Closed);
}

#[test]
fn finish_leaves_open_session_open() {
    let mut s = SessionLifecycle::new();
    s.finish();
    assert_eq!(s.state(), SessionState::Open);
}

fn deliver_one(r: &mut Receiver<&'static str>, tag: u8, body: Vec<u8>) -> (&'static str, ProtocolCategory, Vec<u8>) {
    let len = body.len() as u32;
    let header = [tag, (len >> 24) as u8, (len >> 16) as u8, (len >> 8) as u8, len as u8];
    match r.on_header(&header) {
        RecvAction::ReadBody(n) => assert_eq!(n, body.len()),
        other => panic!("unexpected {:?}", other),
    }
    let target = *r.target();
    match r.on_body(body) {
        RecvAction::Deliver(f) => (target, f.category, f.payload),
        other => panic!("unexpected {:?}", other),
    }
}

#[test]
fn retarget_moves_later_frames_only() {
    let mut r = Receiver::new("auth", 1024);
    let first = deliver_one(&mut r, 1, vec![1]);
    assert_eq!(first, ("auth", ProtocolCategory::Auth, vec![1]));
    r.retarget("station");
    let second = deliver_one(&mut r, 2, vec![2, 2]);
    let third = deliver_one(&mut r, 2, vec![3]);
    assert_eq!(second, ("station", ProtocolCategory::Net, vec![2, 2]));
    assert_eq!(third, ("station", ProtocolCategory::Net, vec![3]));
}

#[test]
fn retarget_between_header_and_body_goes_to_new_target() {
    let mut r = Receiver::new("auth", 1024);
    assert!(matches!(r.on_header(&[1, 0, 0, 0, 1]), RecvAction::ReadBody(1)));
    r.retarget("game");
    assert_eq!(*r.target(), "game");
    match r.on_body(vec![9]) {
        RecvAction::Deliver(f) => assert_eq!(f.payload, vec![9]),
        other => panic!("unexpected {:?}", other),
    }
    assert_eq!(r.phase, RecvPhase::AwaitHeader);
}

#[test]
fn unknown_category_header_closes_before_body() {
    let mut r = Receiver::new(0u64, 1024);
    let header = [7u8, 0, 0, 0, 4];
    assert_eq!(header.len(), HEADER_SIZE);
    assert!(matches!(r.on_header(&header), RecvAction::Close(CloseTrigger::UnknownCategory)));
    assert_eq!(r.phase, RecvPhase::Closed);
}

#[test]
fn oversized_header_closes() {
    let mut r = Receiver::new(0u64, 8);
    assert!(matches!(r.on_header(&[3, 0, 0, 0, 9]), RecvAction::Close(CloseTrigger::FrameTooLong)));
    assert_eq!(r.phase, RecvPhase::Closed);
}

#[test]
fn eof_and_read_failure_close() {
    let mut r = Receiver::new(0u64, 8);
    assert!(matches!(r.on_read_end(false), RecvAction::Close(CloseTrigger::PeerEof)));
    let mut r = Receiver::new(0u64, 8);
    assert!(matches!(r.on_header(&[3, 0, 0, 0, 2]), RecvAction::ReadBody(2)));
    assert!(matches!(r.on_read_end(true), RecvAction::Close(CloseTrigger::ReadFailed)));
    assert_eq!(r.phase, RecvPhase::Closed);
}
