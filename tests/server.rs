use spire::auth::{Account, Privilege};
use spire::server::{Dispatcher, ServerAction, ServerMessage, ServerRunOptions};

fn account(character_id: u64) -> Account {
    Account { account_id: 1, character_id, privilege: Privilege::Basic }
}

#[test]
fn transfer_to_unknown_room_is_rejected() {
    let mut d: Dispatcher<&str, &str> = Dispatcher::new();
    d.register_room(1, "station");
    match d.handle(ServerMessage::<&str, &str>::RoomTransferBegin { bundle: "player", target: 9 }, true) {
        ServerAction::Rejected(b) => assert_eq!(b, "player"),
        _ => panic!("transfer to an unknown room must be rejected"),
    }
    assert_eq!(d.room(1), Some(&"station"));
    assert_eq!(d.room(9), None);
}

#[test]
fn transfer_to_known_room_is_accepted() {
    let mut d: Dispatcher<&str, &str> = Dispatcher::new();
    d.register_room(0, "station");
    match d.handle(ServerMessage::<&str, &str>::RoomTransferBegin { bundle: "player", target: 0 }, true) {
        ServerAction::Transfer { bundle, target } => assert_eq!((bundle, target), ("player", 0)),
        _ => panic!("transfer to a known room must go ahead"),
    }
}

#[test]
fn transfer_of_closed_session_is_rejected() {
    let mut d: Dispatcher<&str, &str> = Dispatcher::new();
    d.register_room(0, "station");
    assert!(matches!(
        d.handle(ServerMessage::<&str, &str>::RoomTransferBegin { bundle: "p", target: 0 }, false),
        ServerAction::Rejected("p")
    ));
}

#[test]
fn authenticated_session_is_registered_until_closed() {
    let mut d: Dispatcher<&str, &str> = Dispatcher::new();
    match d.handle(ServerMessage::<&str, &str>::SessionAuthenticated { session: "s1", session_id: 1, account: account(5) }, true) {
        ServerAction::LoadPlayer { character_id, account: a } => {
            assert_eq!(character_id, 5);
            assert_eq!(a, account(5));
        }
        _ => panic!("expected LoadPlayer"),
    }
    assert_eq!(d.session(5), Some(&"s1"));
    assert_eq!(d.session_count(), 1);
    assert!(matches!(
        d.handle(ServerMessage::<&str, &str>::SessionClosed { session_id: 1, character_id: Some(5) }, false),
        ServerAction::Ignored
    ));
    assert_eq!(d.session(5), None);
    assert_eq!(d.session_count(), 0);
}

#[test]
fn authentication_of_closed_session_is_dropped() {
    let mut d: Dispatcher<&str, &str> = Dispatcher::new();
    assert!(matches!(
        d.handle(ServerMessage::<&str, &str>::SessionAuthenticated { session: "s", session_id: 2, account: account(3) }, false),
        ServerAction::Ignored
    ));
    assert_eq!(d.session_count(), 0);
}

#[test]
fn closing_unauthenticated_session_changes_nothing() {
    let mut d: Dispatcher<&str, &str> = Dispatcher::new();
    d.handle(ServerMessage::<&str, &str>::SessionAuthenticated { session: "s", session_id: 2, account: account(3) }, true);
    d.handle(ServerMessage::<&str, &str>::SessionClosed { session_id: 2, character_id: None }, true);
    assert_eq!(d.session_count(), 1);
}

#[test]
fn broadcast_fans_out_to_rooms() {
    let mut d: Dispatcher<&str, &str> = Dispatcher::new();
    d.register_room(0, "a");
    d.register_room(1, "b");
    match d.handle(ServerMessage::<&str, &str>::Broadcast(vec![1, 2]), true) {
        ServerAction::FanOut(p) => assert_eq!(p, vec![1, 2]),
        _ => panic!("expected FanOut"),
    }
    let mut names: Vec<&str> = d.rooms().values().copied().collect();
    names.sort();
    assert_eq!(names, vec!["a", "b"]);
}

#[test]
fn transfer_commit_is_ignored() {
    let mut d: Dispatcher<&str, &str> = Dispatcher::new();
    assert!(matches!(
        d.handle(ServerMessage::<&str, &str>::RoomTransferCommit { bundle: "p", target: 0 }, true),
        ServerAction::Ignored
    ));
    let o = ServerRunOptions { dry_run: true };
    assert!(o.dry_run);
}

#[test]
fn closing_older_session_keeps_newer_login() {
    let mut d: Dispatcher<&str, &str> = Dispatcher::new();
    d.handle(ServerMessage::<&str, &str>::SessionAuthenticated { session: "old", session_id: 1, account: account(8) }, true);
    d.handle(ServerMessage::<&str, &str>::SessionAuthenticated { session: "new", session_id: 2, account: account(8) }, true);
    assert_eq!(d.session(8), Some(&"new"));
    d.handle(ServerMessage::<&str, &str>::SessionClosed { session_id: 1, character_id: Some(8) }, true);
    assert_eq!(d.session(8), Some(&"new"));
    d.handle(ServerMessage::<&str, &str>::SessionClosed { session_id: 2, character_id: Some(8) }, true);
    assert_eq!(d.session(8), None);
}
