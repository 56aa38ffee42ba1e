//! One connection: its liveness state machine and the decisions of its
//! receive loop, including where each complete frame is delivered.
use crate::codec::{decode_header, header_of, Frame, Header, ProtocolCategory, HEADER_SIZE};
use vstd::prelude::*;

verus! {

/// What ends a session. Whichever comes first wins; the rest are no-ops.
#[derive(Clone, Copy, Debug, PartialEq, Eq, Structural)]
pub enum CloseTrigger {
    /// The peer closed the connection (zero bytes read).
    PeerEof,
    /// Reading from the socket failed.
    ReadFailed,
    /// A header named no known category.
    UnknownCategory,
    /// A header announced a body longer than the configured maximum.
    FrameTooLong,
    /// Writing to the socket failed.
    WriteFailed,
    /// The outbound queue has no producers left.
    OutboundClosed,
    /// A close command arrived for this session.
    CloseCommand,
    /// The server-wide shutdown signal fired.
    Shutdown,
}

/// The liveness of a session: `Open`, then `Closing` once a trigger fired,
/// then `Closed` once both I/O loops have exited.
#[derive(Clone, Copy, Debug, PartialEq, Eq, Structural)]
pub enum SessionState {
    Open,
    Closing,
    Closed,
}

/// What one close attempt does to the state, and whether it performed the
/// transition out of `Open`.
pub open spec fn close_step(s: SessionState) -> (SessionState, bool) {
    if s == SessionState::Open {
        (SessionState::Closing, true)
    } else {
        (s, false)
    }
}

/// The state after a run of close attempts, and how many of them performed
/// the transition.
pub open spec fn close_all(s: SessionState, triggers: Seq<CloseTrigger>) -> (SessionState, nat)
    decreases triggers.len(),
{
    if triggers.len() == 0 {
        (s, 0)
    } else {
        let (s1, done) = close_step(s);
        let (s2, n) = close_all(s1, triggers.drop_first());
        (s2, n + if done {
            1nat
        } else {
            0nat
        })
    }
}

/// The liveness flag of a session. It leaves `Open` exactly once.
pub struct SessionLifecycle {
    state: SessionState,
}

impl View for SessionLifecycle {
    type V = SessionState;

    closed spec fn view(&self) -> SessionState {
        self.state
    }
}

impl SessionLifecycle {
    pub fn new() -> (r: SessionLifecycle)
        ensures
            r@ == SessionState::Open,
    {
        SessionLifecycle { state: SessionState::Open }
    }

    pub fn state(&self) -> (r: SessionState)
        ensures
            r == self@,
    {
        self.state
    }

    /// Whether deliveries to this session should still be attempted.
    pub fn is_open(&self) -> (r: bool)
        ensures
            r == (self@ == SessionState::Open),
    {
        self.state == SessionState::Open
    }

    /// Whether the session has left `Open`.
    pub fn is_closed(&self) -> (r: bool)
        ensures
            r == (self@ != SessionState::Open),
    {
        self.state != SessionState::Open
    }

    /// A close attempt. Returns true for the one attempt that moved the
    /// session out of `Open`: that caller cancels the sibling loop and
    /// reports the closure. Every later attempt returns false.
    pub fn close(&mut self, trigger: CloseTrigger) -> (r: bool)
        ensures
            (final(self)@, r) == close_step(old(self)@),
    {
        if self.state == SessionState::Open {
            self.state = SessionState::Closing;
            true
        } else {
            false
        }
    }

    /// Both I/O loops have exited: a closing session becomes `Closed`.
    pub fn finish(&mut self)
        ensures
            final(self)@ == (if old(self)@ == SessionState::Closing {
                SessionState::Closed
            } else {
                old(self)@
            }),
    {
        if self.state == SessionState::Closing {
            self.state = SessionState::Closed;
        }
    }
}

/// However many close triggers race, an open session leaves `Open` exactly
/// once, and a session that already left it is not moved again.
pub proof fn lemma_close_once(s: SessionState, triggers: Seq<CloseTrigger>)
    ensures
        s == SessionState::Open && triggers.len() > 0 ==> close_all(s, triggers) == (
            SessionState::Closing,
            1nat,
        ),
        s != SessionState::Open ==> close_all(s, triggers) == (s, 0nat),
    decreases triggers.len(),
{
    if triggers.len() > 0 {
        let (s1, _) = close_step(s);
        lemma_close_once(s1, triggers.drop_first());
        if s == SessionState::Open && triggers.len() == 1 {
            assert(triggers.drop_first().len() == 0);
        }
    }
}

/// Where the receive loop stands.
#[derive(Clone, Copy, Debug, PartialEq, Eq, Structural)]
pub enum RecvPhase {
    /// Waiting for the next `HEADER_SIZE` bytes.
    AwaitHeader,
    /// Waiting for the body that this header announced.
    AwaitBody(Header),
    /// The loop has ended.
    Closed,
}

/// What the receive loop does next.
#[derive(Debug)]
pub enum RecvAction {
    /// Read exactly this many body bytes.
    ReadBody(usize),
    /// Push this frame into the currently targeted inbound mailbox, then read
    /// the next header.
    Deliver(Frame),
    /// Stop reading: the session is closing for this reason.
    Close(CloseTrigger),
}

/// The receive side of a session: the read phase, the inbound mailbox that
/// complete frames go to (`T`, a handle), and the largest body accepted.
pub struct Receiver<T> {
    pub phase: RecvPhase,
    pub target: T,
    pub max_length: u32,
}

/// One thing that happens to the receive loop.
pub enum RecvInput<T> {
    Header(Seq<u8>),
    Body(Seq<u8>),
    Eof,
    ReadFailed,
    Retarget(T),
}

/// A frame handed to a mailbox.
pub struct Delivery<T> {
    pub target: T,
    pub category: ProtocolCategory,
    pub payload: Seq<u8>,
}

/// The receiver after one input, and the frame it delivers, if any.
pub open spec fn recv_step<T>(r: Receiver<T>, input: RecvInput<T>) -> (Receiver<T>, Option<
    Delivery<T>,
>) {
    match input {
        RecvInput::Retarget(t) => (Receiver { target: t, ..r }, None),
        RecvInput::Eof | RecvInput::ReadFailed => (Receiver { phase: RecvPhase::Closed, ..r }, None),
        RecvInput::Header(b) => {
            if r.phase == RecvPhase::AwaitHeader && b.len() == HEADER_SIZE {
                let h = header_of(b);
                if h.category == ProtocolCategory::Unknown || h.length > r.max_length {
                    (Receiver { phase: RecvPhase::Closed, ..r }, None)
                } else {
                    (Receiver { phase: RecvPhase::AwaitBody(h), ..r }, None)
                }
            } else {
                (r, None)
            }
        },
        RecvInput::Body(b) => match r.phase {
            RecvPhase::AwaitBody(h) => (
                Receiver { phase: RecvPhase::AwaitHeader, ..r },
                Some(Delivery { target: r.target, category: h.category, payload: b }),
            ),
            _ => (r, None),
        },
    }
}

/// The receiver after a run of inputs, and the frames delivered, in order.
pub open spec fn recv_run<T>(r: Receiver<T>, inputs: Seq<RecvInput<T>>) -> (Receiver<T>, Seq<
    Delivery<T>,
>)
    decreases inputs.len(),
{
    if inputs.len() == 0 {
        (r, Seq::empty())
    } else {
        let (r1, d) = recv_step(r, inputs[0]);
        let (r2, ds) = recv_run(r1, inputs.drop_first());
        let first = match d {
            Some(x) => seq![x],
            None => Seq::empty(),
        };
        (r2, first + ds)
    }
}

impl<T> Receiver<T> {
    pub fn new(target: T, max_length: u32) -> (r: Receiver<T>)
        ensures
            r.phase == RecvPhase::AwaitHeader,
            r.target == target,
            r.max_length == max_length,
    {
        Receiver { phase: RecvPhase::AwaitHeader, target, max_length }
    }

    /// The mailbox that the next complete frame goes to.
    pub fn target(&self) -> (r: &T)
        ensures
            *r == self.target,
    {
        &self.target
    }

    /// Room transfer: frames completed from now on go to `target`.
    pub fn retarget(&mut self, target: T)
        ensures
            *final(self) == recv_step(*old(self), RecvInput::Retarget(target)).0,
    {
        self.target = target;
    }

    /// A header has been read. An unknown category or an oversized length
    /// closes the session before any body is read.
    pub fn on_header(&mut self, bytes: &[u8]) -> (a: RecvAction)
        requires
            old(self).phase == RecvPhase::AwaitHeader,
            bytes@.len() == HEADER_SIZE,
        ensures
            *final(self) == recv_step(*old(self), RecvInput::Header(bytes@)).0,
            header_of(bytes@).category == ProtocolCategory::Unknown ==> a == RecvAction::Close(
                CloseTrigger::UnknownCategory,
            ),
            header_of(bytes@).category != ProtocolCategory::Unknown && header_of(bytes@).length
                > old(self).max_length ==> a == RecvAction::Close(CloseTrigger::FrameTooLong),
            final(self).phase != RecvPhase::Closed ==> a == RecvAction::ReadBody(
                header_of(bytes@).length as usize,
            ),
    {
        let h = decode_header(bytes);
        if h.category == ProtocolCategory::Unknown {
            self.phase = RecvPhase::Closed;
            RecvAction::Close(CloseTrigger::UnknownCategory)
        } else if h.length > self.max_length {
            self.phase = RecvPhase::Closed;
            RecvAction::Close(CloseTrigger::FrameTooLong)
        } else {
            self.phase = RecvPhase::AwaitBody(h);
            RecvAction::ReadBody(h.length as usize)
        }
    }

    /// The announced body has been read in full: it is delivered, as one
    /// frame, to the current target.
    pub fn on_body(&mut self, body: Vec<u8>) -> (a: RecvAction)
        requires
            old(self).phase matches RecvPhase::AwaitBody(h) && body@.len() == h.length,
        ensures
            *final(self) == recv_step(*old(self), RecvInput::Body(body@)).0,
            a matches RecvAction::Deliver(f) && recv_step(*old(self), RecvInput::Body(body@)).1
                == Some(
                Delivery { target: old(self).target, category: f.category, payload: f.payload@ },
            ),
    {
        let category = match self.phase {
            RecvPhase::AwaitBody(h) => h.category,
            _ => ProtocolCategory::Unknown,
        };
        self.phase = RecvPhase::AwaitHeader;
        RecvAction::Deliver(Frame { category, payload: body })
    }

    /// The peer closed the connection, or reading failed.
    pub fn on_read_end(&mut self, failed: bool) -> (a: RecvAction)
        ensures
            *final(self) == recv_step(
                *old(self),
                if failed {
                    RecvInput::ReadFailed
                } else {
                    RecvInput::Eof
                },
            ).0,
            a == RecvAction::Close(
                if failed {
                    CloseTrigger::ReadFailed
                } else {
                    CloseTrigger::PeerEof
                },
            ),
    {
        self.phase = RecvPhase::Closed;
        if failed {
            RecvAction::Close(CloseTrigger::ReadFailed)
        } else {
            RecvAction::Close(CloseTrigger::PeerEof)
        }
    }
}

/// Running two input runs one after the other is running their
/// concatenation.
pub proof fn lemma_recv_run_append<T>(r: Receiver<T>, a: Seq<RecvInput<T>>, b: Seq<RecvInput<T>>)
    ensures
        recv_run(r, a + b) == (recv_run(recv_run(r, a).0, b).0, recv_run(r, a).1 + recv_run(
            recv_run(r, a).0,
            b,
        ).1),
    decreases a.len(),
{
    if a.len() == 0 {
        assert(a + b =~= b);
    } else {
        let (r1, d) = recv_step(r, a[0]);
        assert((a + b).drop_first() =~= a.drop_first() + b);
        assert((a + b)[0] == a[0]);
        lemma_recv_run_append(r1, a.drop_first(), b);
        let first = match d {
            Some(x) => seq![x],
            None => Seq::<Delivery<T>>::empty(),
        };
        let mid = recv_run(r1, a.drop_first());
        assert(first + (mid.1 + recv_run(mid.0, b).1) =~= (first + mid.1) + recv_run(mid.0, b).1);
    }
}

/// Without a retarget among the inputs, every frame goes to the target the
/// receiver started with, and the target stays.
pub proof fn lemma_recv_run_keeps_target<T>(r: Receiver<T>, inputs: Seq<RecvInput<T>>)
    requires
        forall|i: int| 0 <= i < inputs.len() ==> !(#[trigger] inputs[i] is Retarget),
    ensures
        recv_run(r, inputs).0.target == r.target,
        forall|i: int|
            0 <= i < recv_run(r, inputs).1.len() ==> (#[trigger] recv_run(r, inputs).1[i]).target
                == r.target,
    decreases inputs.len(),
{
    if inputs.len() > 0 {
        let (r1, d) = recv_step(r, inputs[0]);
        let rest = inputs.drop_first();
        assert(forall|i: int| 0 <= i < rest.len() ==> rest[i] == inputs[i + 1]);
        lemma_recv_run_keeps_target(r1, rest);
        assert(r1.target == r.target);
        let first = match d {
            Some(x) => seq![x],
            None => Seq::<Delivery<T>>::empty(),
        };
        let all = recv_run(r, inputs).1;
        assert(all == first + recv_run(r1, rest).1);
        assert forall|i: int| 0 <= i < all.len() implies (#[trigger] all[i]).target == r.target by {
            if i < first.len() {
                assert(all[i] == first[i]);
            } else {
                assert(all[i] == recv_run(r1, rest).1[i - first.len()]);
            }
        }
    }
}

/// Room transfer cuts over exactly: frames completed before the retarget are
/// those the earlier inputs deliver, to their earlier targets, and every
/// frame completed after it, up to any further transfer, goes to the new
/// target. No frame is delivered twice or dropped.
pub proof fn lemma_transfer_cutover<T>(
    r: Receiver<T>,
    before: Seq<RecvInput<T>>,
    target: T,
    after: Seq<RecvInput<T>>,
)
    requires
        forall|i: int| 0 <= i < after.len() ==> !(#[trigger] after[i] is Retarget),
    ensures
        ({
            let mid = recv_run(r, before).0;
            let moved = Receiver { target, ..mid };
            let all = recv_run(r, before + seq![RecvInput::Retarget(target)] + after).1;
            &&& all == recv_run(r, before).1 + recv_run(moved, after).1
            &&& forall|i: int|
                0 <= i < recv_run(moved, after).1.len() ==> (#[trigger] recv_run(
                    moved,
                    after,
                ).1[i]).target == target
        }),
{
    let mid = recv_run(r, before).0;
    let moved = Receiver { target, ..mid };
    let switch = seq![RecvInput::Retarget(target)];
    lemma_recv_run_append(r, before + switch, after);
    lemma_recv_run_append(r, before, switch);
    assert(switch.drop_first() =~= Seq::<RecvInput<T>>::empty());
    assert(switch[0] == RecvInput::Retarget(target));
    assert(recv_step(mid, switch[0]).0 == moved);
    assert(recv_run(moved, switch.drop_first()) == (moved, Seq::<Delivery<T>>::empty()));
    assert(recv_run(mid, switch).0 == moved);
    assert(recv_run(mid, switch).1 =~= Seq::<Delivery<T>>::empty());
    assert(recv_run(r, before + switch).1 =~= recv_run(r, before).1);
    lemma_recv_run_keeps_target(moved, after);
}

/// A header whose tag names no category ends the loop: no body is read and
/// nothing is delivered, whatever inputs follow.
pub proof fn lemma_unknown_category_closes<T>(r: Receiver<T>, b: Seq<u8>, rest: Seq<RecvInput<T>>)
    requires
        r.phase == RecvPhase::AwaitHeader,
        b.len() == HEADER_SIZE,
        header_of(b).category == ProtocolCategory::Unknown,
    ensures
        recv_step(r, RecvInput::Header(b)).0.phase == RecvPhase::Closed,
        recv_run(recv_step(r, RecvInput::Header(b)).0, rest).1.len() == 0,
{
    lemma_closed_delivers_nothing(recv_step(r, RecvInput::Header(b)).0, rest);
}

/// A closed receiver delivers nothing more.
pub proof fn lemma_closed_delivers_nothing<T>(r: Receiver<T>, inputs: Seq<RecvInput<T>>)
    requires
        r.phase == RecvPhase::Closed,
    ensures
        recv_run(r, inputs).1.len() == 0,
    decreases inputs.len(),
{
    if inputs.len() > 0 {
        let (r1, d) = recv_step(r, inputs[0]);
        assert(r1.phase == RecvPhase::Closed);
        assert(d is None);
        lemma_closed_delivers_nothing(r1, inputs.drop_first());
    }
}

} // verus!
