//! The server dispatcher: the one owner of the session and room registries,
//! which handles cross-cutting events one at a time, in arrival order.
use crate::auth::Account;
use std::collections::HashMap;
use vstd::prelude::*;

verus! {

broadcast use vstd::std_specs::hash::group_hash_axioms;

/// Options of a server run.
#[derive(Clone, Copy, Debug, PartialEq, Eq, Structural)]
pub struct ServerRunOptions {
    /// Start up, check the resources, and stop before listening.
    pub dry_run: bool,
}

/// An event for the dispatcher. `S` is a session handle and `B` the bundle
/// of a player's loaded state, which carries its session.
pub enum ServerMessage<S, B> {
    /// Bytes to fan out to every known room.
    Broadcast(Vec<u8>),
    /// A session, with its unique id, passed login with this account.
    SessionAuthenticated { session: S, session_id: u64, account: Account },
    /// The session with this id ended; `character_id` is its character, if
    /// it had logged in.
    SessionClosed { session_id: u64, character_id: Option<u64> },
    /// Move a player's session to room `target`.
    RoomTransferBegin { bundle: B, target: u64 },
    /// The target room has taken the player in.
    RoomTransferCommit { bundle: B, target: u64 },
}

/// What the dispatcher asks its caller to do after an event.
pub enum ServerAction<B> {
    /// Send these bytes to every room's control mailbox; failures are skipped.
    FanOut(Vec<u8>),
    /// Resolve the player's state for the session registered under this
    /// character, then send `RoomTransferBegin` for it.
    LoadPlayer { character_id: u64, account: Account },
    /// Point the bundle's session at room `target`'s inbound mailbox, and
    /// hand the bundle to that room's control mailbox.
    Transfer { bundle: B, target: u64 },
    /// The transfer is refused: the bundle is dropped, the session is left
    /// as it is.
    Rejected(B),
    /// Nothing to do.
    Ignored,
}

/// The registries as maps: sessions (with their session ids) by character
/// id, rooms by room id.
pub struct Registry<S, R> {
    pub sessions: Map<u64, (u64, S)>,
    pub rooms: Map<u64, R>,
}

/// The registries after one event, given whether the event's session was
/// still open when the event was drawn, and the action asked for.
pub open spec fn server_step<S, R, B>(reg: Registry<S, R>, m: ServerMessage<S, B>, open: bool) -> (
    Registry<S, R>,
    ServerAction<B>,
) {
    match m {
        ServerMessage::Broadcast(p) => (reg, ServerAction::FanOut(p)),
        ServerMessage::SessionAuthenticated { session, session_id, account } => if open {
            (
                Registry {
                    sessions: reg.sessions.insert(account.character_id, (session_id, session)),
                    ..reg
                },
                ServerAction::LoadPlayer { character_id: account.character_id, account },
            )
        } else {
            (reg, ServerAction::Ignored)
        },
        ServerMessage::SessionClosed { session_id, character_id } => match character_id {
            Some(c) => if reg.sessions.contains_key(c) && reg.sessions[c].0 == session_id {
                (Registry { sessions: reg.sessions.remove(c), ..reg }, ServerAction::Ignored)
            } else {
                (reg, ServerAction::Ignored)
            },
            None => (reg, ServerAction::Ignored),
        },
        ServerMessage::RoomTransferBegin { bundle, target } => if open && reg.rooms.contains_key(
            target,
        ) {
            (reg, ServerAction::Transfer { bundle, target })
        } else {
            (reg, ServerAction::Rejected(bundle))
        },
        ServerMessage::RoomTransferCommit { .. } => (reg, ServerAction::Ignored),
    }
}

/// The dispatcher's state: live sessions that have logged in, keyed by
/// character id, and live rooms, keyed by room id.
pub struct Dispatcher<S, R> {
    sessions: HashMap<u64, (u64, S)>,
    rooms: HashMap<u64, R>,
}

impl<S, R> View for Dispatcher<S, R> {
    type V = Registry<S, R>;

    closed spec fn view(&self) -> Registry<S, R> {
        Registry { sessions: self.sessions@, rooms: self.rooms@ }
    }
}

impl<S, R> Dispatcher<S, R> {
    pub fn new() -> (r: Dispatcher<S, R>)
        ensures
            r@.sessions == Map::<u64, (u64, S)>::empty(),
            r@.rooms == Map::<u64, R>::empty(),
    {
        Dispatcher { sessions: HashMap::new(), rooms: HashMap::new() }
    }

    /// Makes room `id` a transfer target, replacing any earlier room there.
    pub fn register_room(&mut self, id: u64, room: R)
        ensures
            final(self)@.rooms == old(self)@.rooms.insert(id, room),
            final(self)@.sessions == old(self)@.sessions,
    {
        self.rooms.insert(id, room);
    }

    /// The room registered under `id`.
    pub fn room(&self, id: u64) -> (r: Option<&R>)
        ensures
            match r {
                Some(x) => self@.rooms.contains_key(id) && *x == self@.rooms[id],
                None => !self@.rooms.contains_key(id),
            },
    {
        self.rooms.get(&id)
    }

    /// The session registered under character `id`.
    pub fn session(&self, id: u64) -> (r: Option<&S>)
        ensures
            match r {
                Some(x) => self@.sessions.contains_key(id) && *x == self@.sessions[id].1,
                None => !self@.sessions.contains_key(id),
            },
    {
        match self.sessions.get(&id) {
            Some(entry) => Some(&entry.1),
            None => None,
        }
    }

    /// Every room, for fan-out.
    pub fn rooms(&self) -> (r: &HashMap<u64, R>)
        ensures
            r@ == self@.rooms,
    {
        &self.rooms
    }

    /// How many logged-in sessions are live.
    pub fn session_count(&self) -> (r: usize)
        ensures
            r == self@.sessions.len(),
    {
        self.sessions.len()
    }

    /// Handles one event. `open` is whether the event's session was still
    /// open when the event was drawn; events for a closed session are
    /// dropped.
    pub fn handle<B>(&mut self, message: ServerMessage<S, B>, open: bool) -> (a: ServerAction<B>)
        ensures
            (final(self)@, a) == server_step(old(self)@, message, open),
    {
        match message {
            ServerMessage::Broadcast(p) => ServerAction::FanOut(p),
            ServerMessage::SessionAuthenticated { session, session_id, account } => {
                if open {
                    self.sessions.insert(account.character_id, (session_id, session));
                    ServerAction::LoadPlayer { character_id: account.character_id, account }
                } else {
                    ServerAction::Ignored
                }
            },
            ServerMessage::SessionClosed { session_id, character_id } => {
                match character_id {
                    Some(c) => {
                        let owned = match self.sessions.get(&c) {
                            Some(entry) => entry.0 == session_id,
                            None => false,
                        };
                        if owned {
                            self.sessions.remove(&c);
                        }
                    },
                    None => {},
                }
                ServerAction::Ignored
            },
            ServerMessage::RoomTransferBegin { bundle, target } => {
                if open && self.rooms.contains_key(&target) {
                    ServerAction::Transfer { bundle, target }
                } else {
                    ServerAction::Rejected(bundle)
                }
            },
            ServerMessage::RoomTransferCommit { .. } => ServerAction::Ignored,
        }
    }
}

/// A transfer to a room the registry does not hold is refused: the
/// registries stay as they were and the session is neither moved nor closed.
pub proof fn lemma_unknown_room_transfer<S, R, B>(
    reg: Registry<S, R>,
    bundle: B,
    target: u64,
    open: bool,
)
    requires
        !reg.rooms.contains_key(target),
    ensures
        server_step(reg, ServerMessage::RoomTransferBegin { bundle, target }, open) == (
            reg,
            ServerAction::Rejected(bundle),
        ),
{
}

/// A session is registered under its character after logging in while open,
/// and is gone once its own closure has been handled.
pub proof fn lemma_registry_follows_sessions<S, R, B>(
    reg: Registry<S, R>,
    session: S,
    session_id: u64,
    account: Account,
)
    ensures
        ({
            let (after_login, _) = server_step(
                reg,
                ServerMessage::<S, B>::SessionAuthenticated { session, session_id, account },
                true,
            );
            let (after_close, _) = server_step(
                after_login,
                ServerMessage::<S, B>::SessionClosed {
                    session_id,
                    character_id: Some(account.character_id),
                },
                true,
            );
            &&& after_login.sessions.contains_key(account.character_id)
            &&& after_login.sessions[account.character_id] == (session_id, session)
            &&& !after_close.sessions.contains_key(account.character_id)
            &&& after_close.rooms == reg.rooms
        }),
{
}

/// The closure of one session never removes the entry of another: when a
/// character has logged in again, closing its older session leaves the
/// newer one registered.
pub proof fn lemma_stale_close_keeps_entry<S, R, B>(
    reg: Registry<S, R>,
    session_id: u64,
    character_id: u64,
)
    requires
        reg.sessions.contains_key(character_id),
        reg.sessions[character_id].0 != session_id,
    ensures
        server_step(
            reg,
            ServerMessage::<S, B>::SessionClosed { session_id, character_id: Some(character_id) },
            true,
        ).0 == reg,
{
}

} // verus!
