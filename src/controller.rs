//! The controller: the caller's side of the command/response protocol. It
//! builds the commands to send, lets at most one size query wait for its
//! reply, matches the reply to the query, and remembers a broken channel.

use vstd::prelude::*;

use crate::error::RelayError;
use crate::loop_owner::{
    response_of, system_step, user_step, ActionView, AppView, SystemEvent, WindowView,
};
use crate::message::{DummyEvent, DummyResponse, EventView, ResponseView};

verus! {

/// Where a controller stands in the protocol.
#[derive(Debug, Clone, Copy, PartialEq, Eq, Structural)]
pub enum Phase {
    /// Commands can be sent; no query is waiting.
    Ready,
    /// A size query was sent and its reply has not come yet.
    AwaitingSize,
    /// The channel to the loop owner broke.
    Disconnected,
    /// The loop owner broke the protocol.
    Aborted,
}

/// The error that every operation meets in a phase where the relay is dead.
pub open spec fn blocked(p: Phase) -> Option<RelayError> {
    match p {
        Phase::Disconnected => Some(RelayError::ChannelDisconnected),
        Phase::Aborted => Some(RelayError::ProtocolViolation),
        _ => None,
    }
}

/// How the controller handles a request to send `cmd`: its next phase and the
/// command to send, or the error. A size query waits for its reply, so a
/// second one is refused until the first is answered.
pub open spec fn send_step(p: Phase, cmd: EventView) -> (Phase, Result<EventView, RelayError>) {
    match blocked(p) {
        Some(e) => (p, Err(e)),
        None => if cmd is GetWindowSize {
            if p is AwaitingSize {
                (p, Err(RelayError::QueryPending))
            } else {
                (Phase::AwaitingSize, Ok(cmd))
            }
        } else {
            (p, Ok(cmd))
        },
    }
}

/// How the controller handles the outcome of waiting for a size reply:
/// `None` when the channel broke while waiting. Only a `WindowSize` reply to a
/// waiting query is accepted; any other message is a protocol violation.
pub open spec fn reply_step(p: Phase, reply: Option<ResponseView>) -> (Phase, Result<
    (u32, u32),
    RelayError,
>) {
    match blocked(p) {
        Some(e) => (p, Err(e)),
        None => if p is AwaitingSize {
            match reply {
                None => (Phase::Disconnected, Err(RelayError::ChannelDisconnected)),
                Some(ResponseView::WindowSize { width, height }) => (Phase::Ready, Ok((width, height))),
                Some(ResponseView::Connect { .. }) => (
                    Phase::Aborted,
                    Err(RelayError::ProtocolViolation),
                ),
            }
        } else {
            (Phase::Aborted, Err(RelayError::ProtocolViolation))
        },
    }
}

pub open spec fn command_view(r: Result<DummyEvent, RelayError>) -> Result<EventView, RelayError> {
    match r {
        Ok(c) => Ok(c@),
        Err(e) => Err(e),
    }
}

pub open spec fn reply_view(r: Option<DummyResponse>) -> Option<ResponseView> {
    match r {
        Some(m) => Some(m@),
        None => None,
    }
}

/// The caller's handle on one relay, once the channel to the loop owner is up.
pub struct Controller {
    phase: Phase,
}

impl View for Controller {
    type V = Phase;

    closed spec fn view(&self) -> Phase {
        self.phase
    }
}

impl Controller {
    /// A controller over a channel that was just established.
    pub fn new() -> (c: Controller)
        ensures
            c@ == Phase::Ready,
    {
        Controller { phase: Phase::Ready }
    }

    /// The phase the controller is in.
    pub fn phase(&self) -> (p: Phase)
        ensures
            p == self@,
    {
        self.phase
    }

    fn check_alive(&self) -> (r: Result<(), RelayError>)
        ensures
            match blocked(self@) {
                Some(e) => r == Err::<(), RelayError>(e),
                None => r is Ok,
            },
    {
        match self.phase {
            Phase::Disconnected => Err(RelayError::ChannelDisconnected),
            Phase::Aborted => Err(RelayError::ProtocolViolation),
            _ => Ok(()),
        }
    }

    /// The command that opens a window with this title, replacing any open one.
    pub fn open_window(&mut self, title: &str) -> (r: Result<DummyEvent, RelayError>)
        ensures
            send_step(old(self)@, EventView::NewWindow { title: title@ }) == (
                final(self)@,
                command_view(r),
            ),
    {
        self.check_alive()?;
        Ok(DummyEvent::NewWindow { title: title.to_owned() })
    }

    /// The command that closes the window, if one is open.
    pub fn close_window(&mut self) -> (r: Result<DummyEvent, RelayError>)
        ensures
            send_step(old(self)@, EventView::CloseWindow) == (final(self)@, command_view(r)),
    {
        self.check_alive()?;
        Ok(DummyEvent::CloseWindow)
    }

    /// The command that asks for the window's size; the controller then waits
    /// for the reply.
    pub fn request_window_size(&mut self) -> (r: Result<DummyEvent, RelayError>)
        ensures
            send_step(old(self)@, EventView::GetWindowSize) == (final(self)@, command_view(r)),
    {
        self.check_alive()?;
        if self.phase == Phase::AwaitingSize {
            return Err(RelayError::QueryPending);
        }
        self.phase = Phase::AwaitingSize;
        Ok(DummyEvent::GetWindowSize)
    }

    /// Takes what came back while waiting for a size reply (`None`: the
    /// channel broke) and gives the width and height.
    pub fn window_size_reply(&mut self, reply: Option<DummyResponse>) -> (r: Result<
        (u32, u32),
        RelayError,
    >)
        ensures
            reply_step(old(self)@, reply_view(reply)) == (final(self)@, r),
    {
        self.check_alive()?;
        if self.phase != Phase::AwaitingSize {
            self.phase = Phase::Aborted;
            return Err(RelayError::ProtocolViolation);
        }
        match reply {
            None => {
                self.phase = Phase::Disconnected;
                Err(RelayError::ChannelDisconnected)
            },
            Some(DummyResponse::WindowSize { width, height }) => {
                self.phase = Phase::Ready;
                Ok((width, height))
            },
            Some(DummyResponse::Connect { .. }) => {
                self.phase = Phase::Aborted;
                Err(RelayError::ProtocolViolation)
            },
        }
    }

    /// Records that a command could not be sent because the channel broke.
    pub fn send_failed(&mut self) -> (e: RelayError)
        ensures
            final(self)@ == Phase::Disconnected,
            e == RelayError::ChannelDisconnected,
    {
        self.phase = Phase::Disconnected;
        RelayError::ChannelDisconnected
    }
}

/// Once a window is open and the window system has reported its inner size, a
/// size query from a fresh controller gives that size, a width and a height of
/// at least zero, and leaves the controller ready.
pub proof fn lemma_size_after_open(s: AppView, title: Seq<char>, width: u32, height: u32)
    ensures
        ({
            let (p1, c1) = send_step(Phase::Ready, EventView::NewWindow { title });
            let (s1, a1) = user_step(s, c1->Ok_0);
            let (s2, a2) = system_step(s1, SystemEvent::Resized { width, height });
            let (p2, c2) = send_step(p1, EventView::GetWindowSize);
            let (s3, a3) = user_step(s2, c2->Ok_0);
            let (p3, r) = reply_step(p2, response_of(a3));
            &&& c1 is Ok && a1 is Ok && c2 is Ok
            &&& r == Ok::<(u32, u32), RelayError>((width, height))
            &&& r->Ok_0.0 >= 0 && r->Ok_0.1 >= 0
            &&& p3 == Phase::Ready
        }),
{
}

/// Closing while no window is open is a no-op: a controller whose channel is
/// intact sends `CloseWindow` without error and stays as it was, and the idle
/// loop owner stays idle and asks for nothing.
pub proof fn lemma_close_when_idle(p: Phase)
    requires
        blocked(p) is None,
    ensures
        send_step(p, EventView::CloseWindow) == (p, Ok::<EventView, RelayError>(
            EventView::CloseWindow,
        )),
        user_step(None, EventView::CloseWindow) == (None::<WindowView>, Ok::<
            Option<ActionView>,
            RelayError,
        >(None)),
{
}

/// A size query while no window was ever opened gives zero by zero.
pub proof fn lemma_idle_size_is_zero()
    ensures
        ({
            let (p1, c1) = send_step(Phase::Ready, EventView::GetWindowSize);
            let (s1, a1) = user_step(None, c1->Ok_0);
            &&& s1 is None
            &&& reply_step(p1, response_of(a1)) == (Phase::Ready, Ok::<(u32, u32), RelayError>(
                (0, 0),
            ))
        }),
{
}

} // verus!
