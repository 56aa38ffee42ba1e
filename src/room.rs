//! The room runtime: how a message is offered to a room's handlers, how a
//! room is configured, and what its loop does with each event.
use crate::session::{close_step, SessionState};
use vstd::prelude::*;

verus! {

/// A handler's answer to an inbound protocol message.
#[derive(Clone, Copy, Debug, PartialEq, Eq, Structural)]
pub enum InMessageHandleResult {
    /// Handled; offer the message to no later handler.
    Break,
    /// Handled; keep offering it to later handlers.
    Continue,
    /// Not this handler's message.
    Pass,
}

/// A handler's answer to a room-control message.
#[derive(Clone, Copy, Debug, PartialEq, Eq, Structural)]
pub enum RoomMessageHandleResult {
    Break,
    Continue,
    Pass,
}

/// The progress of offering one message to a room's handlers, in
/// registration order.
#[derive(Clone, Copy, Debug, PartialEq, Eq, Structural)]
pub struct HandlerDispatch {
    /// Some handler has claimed the message.
    pub handled: bool,
    /// A handler answered `Break`: no later handler sees the message.
    pub stopped: bool,
    /// How many handlers the message has been offered to.
    pub offered: usize,
}

/// Offering a message to handlers that answer `answers`, in order, until one
/// answers `Break`.
pub open spec fn dispatch_of(answers: Seq<InMessageHandleResult>) -> HandlerDispatch
    decreases answers.len(),
{
    if answers.len() == 0 {
        HandlerDispatch { handled: false, stopped: false, offered: 0 }
    } else {
        let d = dispatch_of(answers.drop_last());
        if d.stopped {
            d
        } else {
            let a = answers.last();
            HandlerDispatch {
                handled: d.handled || a != InMessageHandleResult::Pass,
                stopped: a == InMessageHandleResult::Break,
                offered: (d.offered + 1) as usize,
            }
        }
    }
}

/// The same as a room-message answer.
pub open spec fn as_in_result(a: RoomMessageHandleResult) -> InMessageHandleResult {
    match a {
        RoomMessageHandleResult::Break => InMessageHandleResult::Break,
        RoomMessageHandleResult::Continue => InMessageHandleResult::Continue,
        RoomMessageHandleResult::Pass => InMessageHandleResult::Pass,
    }
}

impl HandlerDispatch {
    pub fn new() -> (r: HandlerDispatch)
        ensures
            r == dispatch_of(Seq::empty()),
    {
        HandlerDispatch { handled: false, stopped: false, offered: 0 }
    }

    /// Records the answer of the next handler. Call it only while the
    /// message has not been stopped.
    pub fn offer(&mut self, answer: InMessageHandleResult)
        requires
            !old(self).stopped,
            old(self).offered < usize::MAX,
        ensures
            final(self).handled == (old(self).handled || answer != InMessageHandleResult::Pass),
            final(self).stopped == (answer == InMessageHandleResult::Break),
            final(self).offered == old(self).offered + 1,
    {
        self.handled = self.handled || !matches!(answer, InMessageHandleResult::Pass);
        self.stopped = matches!(answer, InMessageHandleResult::Break);
        self.offered = self.offered + 1;
    }

    /// Records the answer of the next room-message handler.
    pub fn offer_room(&mut self, answer: RoomMessageHandleResult)
        requires
            !old(self).stopped,
            old(self).offered < usize::MAX,
        ensures
            final(self).handled == (old(self).handled || answer != RoomMessageHandleResult::Pass),
            final(self).stopped == (answer == RoomMessageHandleResult::Break),
            final(self).offered == old(self).offered + 1,
    {
        self.handled = self.handled || !matches!(answer, RoomMessageHandleResult::Pass);
        self.stopped = matches!(answer, RoomMessageHandleResult::Break);
        self.offered = self.offered + 1;
    }
}

/// Offers a message to handlers whose answers are `answers`, stopping at
/// the first `Break`. A result with `handled` false is the reportable
/// "unhandled message" condition.
pub fn handle_in_message(answers: &Vec<InMessageHandleResult>) -> (r: HandlerDispatch)
    ensures
        r == dispatch_of(answers@),
{
    let mut d = HandlerDispatch::new();
    let mut i: usize = 0;
    while i < answers.len()
        invariant
            i <= answers@.len(),
            d == dispatch_of(answers@.subrange(0, i as int)),
            d.offered <= i,
        decreases answers@.len() - i,
    {
        let ghost pre = answers@.subrange(0, i as int);
        assert(answers@.subrange(0, i + 1).drop_last() =~= pre);
        if !d.stopped {
            d.offer(answers[i]);
        }
        i += 1;
    }
    assert(answers@.subrange(0, i as int) =~= answers@);
    d
}

/// Offers a room-control message to handlers whose answers are `answers`.
pub fn handle_room_message(answers: &Vec<RoomMessageHandleResult>) -> (r: HandlerDispatch)
    ensures
        r == dispatch_of(answers@.map_values(|a: RoomMessageHandleResult| as_in_result(a))),
{
    let ghost m = answers@.map_values(|a: RoomMessageHandleResult| as_in_result(a));
    let mut d = HandlerDispatch::new();
    let mut i: usize = 0;
    while i < answers.len()
        invariant
            i <= answers@.len(),
            m == answers@.map_values(|a: RoomMessageHandleResult| as_in_result(a)),
            d == dispatch_of(m.subrange(0, i as int)),
            d.offered <= i,
        decreases answers@.len() - i,
    {
        let ghost pre = m.subrange(0, i as int);
        assert(m.subrange(0, i + 1).drop_last() =~= pre);
        assert(m.subrange(0, i + 1).last() == as_in_result(answers@[i as int]));
        if !d.stopped {
            d.offer_room(answers[i]);
        }
        i += 1;
    }
    assert(m.subrange(0, i as int) =~= m);
    d
}

/// Why a room configuration cannot run.
#[derive(Clone, Copy, Debug, PartialEq, Eq, Structural)]
pub enum RoomBuildError {
    NoInMessageHandlers,
    NoRoomMessageHandlers,
    /// A mailbox capacity of zero.
    ZeroBufferSize,
}

/// The configuration of a room: its handlers (`I` for inbound protocol
/// messages, `R` for room-control messages, in registration order), the
/// capacity of each mailbox, and the optional tick interval in milliseconds.
pub struct RoomBuilder<I, R> {
    pub in_message_handlers: Vec<I>,
    pub in_message_buffer_size: usize,
    pub room_message_handlers: Vec<R>,
    pub room_message_buffer_size: usize,
    pub update_interval: Option<u64>,
}

pub const DEFAULT_IN_MESSAGE_BUFFER_SIZE: usize = 256;

pub const DEFAULT_ROOM_MESSAGE_BUFFER_SIZE: usize = 64;

impl<I, R> RoomBuilder<I, R> {
    /// No handlers, zero capacities and no tick.
    pub fn new() -> (r: Self)
        ensures
            r.in_message_handlers@.len() == 0,
            r.in_message_buffer_size == 0,
            r.room_message_handlers@.len() == 0,
            r.room_message_buffer_size == 0,
            r.update_interval is None,
    {
        RoomBuilder {
            in_message_handlers: Vec::new(),
            in_message_buffer_size: 0,
            room_message_handlers: Vec::new(),
            room_message_buffer_size: 0,
            update_interval: None,
        }
    }

    pub fn add_in_message_handler(self, handler: I) -> (r: Self)
        ensures
            r.in_message_handlers@ == self.in_message_handlers@.push(handler),
            r.in_message_buffer_size == self.in_message_buffer_size,
            r.room_message_handlers@ == self.room_message_handlers@,
            r.room_message_buffer_size == self.room_message_buffer_size,
            r.update_interval == self.update_interval,
    {
        let mut b = self;
        b.in_message_handlers.push(handler);
        b
    }

    pub fn set_in_message_buffer_size(self, size: usize) -> (r: Self)
        ensures
            r.in_message_handlers@ == self.in_message_handlers@,
            r.in_message_buffer_size == size,
            r.room_message_handlers@ == self.room_message_handlers@,
            r.room_message_buffer_size == self.room_message_buffer_size,
            r.update_interval == self.update_interval,
    {
        let mut b = self;
        b.in_message_buffer_size = size;
        b
    }

    pub fn add_room_message_handler(self, handler: R) -> (r: Self)
        ensures
            r.in_message_handlers@ == self.in_message_handlers@,
            r.in_message_buffer_size == self.in_message_buffer_size,
            r.room_message_handlers@ == self.room_message_handlers@.push(handler),
            r.room_message_buffer_size == self.room_message_buffer_size,
            r.update_interval == self.update_interval,
    {
        let mut b = self;
        b.room_message_handlers.push(handler);
        b
    }

    pub fn set_room_message_buffer_size(self, size: usize) -> (r: Self)
        ensures
            r.in_message_handlers@ == self.in_message_handlers@,
            r.in_message_buffer_size == self.in_message_buffer_size,
            r.room_message_handlers@ == self.room_message_handlers@,
            r.room_message_buffer_size == size,
            r.update_interval == self.update_interval,
    {
        let mut b = self;
        b.room_message_buffer_size = size;
        b
    }

    /// Runs the update hook every `interval_ms` milliseconds.
    pub fn set_update_interval(self, interval_ms: u64) -> (r: Self)
        ensures
            r.in_message_handlers@ == self.in_message_handlers@,
            r.in_message_buffer_size == self.in_message_buffer_size,
            r.room_message_handlers@ == self.room_message_handlers@,
            r.room_message_buffer_size == self.room_message_buffer_size,
            r.update_interval == Some(interval_ms),
    {
        let mut b = self;
        b.update_interval = Some(interval_ms);
        b
    }

    /// Whether the room can run: both handler lists non-empty and both
    /// capacities positive.
    pub fn check(&self) -> (r: Result<(), RoomBuildError>)
        ensures
            r == (if self.in_message_handlers@.len() == 0 {
                Err(RoomBuildError::NoInMessageHandlers)
            } else if self.room_message_handlers@.len() == 0 {
                Err(RoomBuildError::NoRoomMessageHandlers)
            } else if self.in_message_buffer_size == 0 || self.room_message_buffer_size == 0 {
                Err(RoomBuildError::ZeroBufferSize)
            } else {
                Ok(())
            }),
    {
        if self.in_message_handlers.len() == 0 {
            Err(RoomBuildError::NoInMessageHandlers)
        } else if self.room_message_handlers.len() == 0 {
            Err(RoomBuildError::NoRoomMessageHandlers)
        } else if self.in_message_buffer_size == 0 || self.room_message_buffer_size == 0 {
            Err(RoomBuildError::ZeroBufferSize)
        } else {
            Ok(())
        }
    }
}

impl<I, R> Default for RoomBuilder<I, R> {
    /// No handlers, default capacities and no tick.
    fn default() -> (r: Self)
        ensures
            r.in_message_handlers@.len() == 0,
            r.in_message_buffer_size == DEFAULT_IN_MESSAGE_BUFFER_SIZE,
            r.room_message_handlers@.len() == 0,
            r.room_message_buffer_size == DEFAULT_ROOM_MESSAGE_BUFFER_SIZE,
            r.update_interval is None,
    {
        let mut builder = RoomBuilder::new();
        builder.in_message_buffer_size = DEFAULT_IN_MESSAGE_BUFFER_SIZE;
        builder.room_message_buffer_size = DEFAULT_ROOM_MESSAGE_BUFFER_SIZE;
        builder
    }
}

/// What a room's loop observed: a batch drained from one of its mailboxes
/// (zero when no sender remains), a timer tick at a time in milliseconds,
/// or the shutdown signal.
#[derive(Clone, Copy, Debug, PartialEq, Eq, Structural)]
pub enum RoomEvent {
    InMessages(usize),
    RoomMessages(usize),
    Tick(u64),
    Shutdown,
}

/// What the room's loop does next.
#[derive(Clone, Copy, Debug, PartialEq, Eq, Structural)]
pub enum RoomAction {
    /// Offer each of this many inbound messages to the handlers.
    DispatchIn(usize),
    /// Offer each of this many room-control messages to the handlers.
    DispatchRoom(usize),
    /// Run the update hook with this elapsed time in milliseconds.
    Update(u64),
    /// Nothing to do for this event.
    Idle,
    /// Leave the loop for good.
    Exit,
}

/// The state of a room's loop.
#[derive(Clone, Copy, Debug, PartialEq, Eq, Structural)]
pub struct RoomLoop {
    pub running: bool,
    pub update_enabled: bool,
    /// When the update hook last ran, in milliseconds.
    pub last_tick: u64,
}

/// Elapsed time between two clock readings; zero if the clock went back.
pub open spec fn elapsed(since: u64, now: u64) -> u64 {
    if now >= since {
        (now - since) as u64
    } else {
        0
    }
}

/// The loop after one event, and its action.
pub open spec fn room_step(s: RoomLoop, e: RoomEvent) -> (RoomLoop, RoomAction) {
    match e {
        RoomEvent::InMessages(n) => if n == 0 {
            (RoomLoop { running: false, ..s }, RoomAction::Exit)
        } else {
            (s, RoomAction::DispatchIn(n))
        },
        RoomEvent::RoomMessages(n) => if n == 0 {
            (RoomLoop { running: false, ..s }, RoomAction::Exit)
        } else {
            (s, RoomAction::DispatchRoom(n))
        },
        RoomEvent::Tick(now) => if s.update_enabled {
            (RoomLoop { last_tick: now, ..s }, RoomAction::Update(elapsed(s.last_tick, now)))
        } else {
            (s, RoomAction::Idle)
        },
        RoomEvent::Shutdown => (RoomLoop { running: false, ..s }, RoomAction::Exit),
    }
}

impl RoomLoop {
    /// A running loop, started at time `now` (milliseconds).
    pub fn new(update_enabled: bool, now: u64) -> (r: RoomLoop)
        ensures
            r == (RoomLoop { running: true, update_enabled, last_tick: now }),
    {
        RoomLoop { running: true, update_enabled, last_tick: now }
    }

    /// Decides what the loop does with one event. A closed mailbox or the
    /// shutdown signal ends the room; it is never restarted.
    pub fn step(&mut self, e: RoomEvent) -> (a: RoomAction)
        requires
            old(self).running,
        ensures
            (*final(self), a) == room_step(*old(self), e),
    {
        match e {
            RoomEvent::InMessages(n) => {
                if n == 0 {
                    self.running = false;
                    RoomAction::Exit
                } else {
                    RoomAction::DispatchIn(n)
                }
            },
            RoomEvent::RoomMessages(n) => {
                if n == 0 {
                    self.running = false;
                    RoomAction::Exit
                } else {
                    RoomAction::DispatchRoom(n)
                }
            },
            RoomEvent::Tick(now) => {
                if self.update_enabled {
                    let dt = if now >= self.last_tick {
                        now - self.last_tick
                    } else {
                        0
                    };
                    self.last_tick = now;
                    RoomAction::Update(dt)
                } else {
                    RoomAction::Idle
                }
            },
            RoomEvent::Shutdown => {
                self.running = false;
                RoomAction::Exit
            },
        }
    }
}

/// The shutdown signal ends every task that observes it: a room's loop
/// stops and asks to exit at once, whatever its state, and a session
/// leaves `Open` (or has already left it).
pub proof fn lemma_shutdown_ends_tasks(room: RoomLoop, session: SessionState)
    ensures
        room_step(room, RoomEvent::Shutdown) == (RoomLoop { running: false, ..room }, RoomAction::Exit),
        close_step(session).0 != SessionState::Open,
{
}

} // verus!
