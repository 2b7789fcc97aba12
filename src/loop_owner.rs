//! The loop owner: the state machine that runs inside the GUI event loop,
//! holds at most one window, and turns commands and window-system events into
//! window operations and responses.

use vstd::prelude::*;

use crate::error::RelayError;
use crate::message::{DummyEvent, DummyResponse, EventView, ResponseView};

verus! {

/// What the window system reports about the window that the loop owner holds.
#[derive(Debug, Clone, Copy, PartialEq, Eq, Structural)]
pub enum SystemEvent {
    /// The user asked to close the window.
    CloseRequested,
    /// The window system asked for the window to be redrawn.
    RedrawRequested,
    /// The window's inner size is now this, in physical pixels.
    Resized { width: u32, height: u32 },
    /// The window that the last action asked for could not be created.
    CreationFailed,
    /// Anything else; it changes nothing.
    Other,
}

/// A window operation or a response that the loop owner asks for.
#[derive(Debug, Clone, PartialEq, Eq)]
pub enum LoopAction {
    /// Create a window with this title; no window exists.
    CreateWindow { title: String },
    /// Destroy the live window, then create one with this title.
    ReplaceWindow { title: String },
    /// Destroy the live window.
    DestroyWindow,
    /// Ask the window system to redraw the live window again.
    RequestRedraw,
    /// Send this response to the controller.
    Respond(DummyResponse),
}

/// The mathematical value of an action.
pub enum ActionView {
    CreateWindow { title: Seq<char> },
    ReplaceWindow { title: Seq<char> },
    DestroyWindow,
    RequestRedraw,
    Respond(ResponseView),
}

impl View for LoopAction {
    type V = ActionView;

    open spec fn view(&self) -> ActionView {
        match self {
            LoopAction::CreateWindow { title } => ActionView::CreateWindow { title: title@ },
            LoopAction::ReplaceWindow { title } => ActionView::ReplaceWindow { title: title@ },
            LoopAction::DestroyWindow => ActionView::DestroyWindow,
            LoopAction::RequestRedraw => ActionView::RequestRedraw,
            LoopAction::Respond(r) => ActionView::Respond(r@),
        }
    }
}

/// The window that the loop owner holds, as it knows it: its title and the
/// last inner size that the window system reported (zero until then).
pub struct WindowView {
    pub title: Seq<char>,
    pub width: u32,
    pub height: u32,
}

/// The loop owner's state: `None` while idle, the window while one is open.
pub type AppView = Option<WindowView>;

pub open spec fn opt_action_view(a: Option<LoopAction>) -> Option<ActionView> {
    match a {
        Some(a) => Some(a@),
        None => None,
    }
}

pub open spec fn outcome_view(r: Result<Option<LoopAction>, RelayError>) -> Result<
    Option<ActionView>,
    RelayError,
> {
    match r {
        Ok(a) => Ok(opt_action_view(a)),
        Err(e) => Err(e),
    }
}

/// The reply to a size query: the window's last reported inner size, or zero
/// by zero while no window is open.
pub open spec fn size_reply(s: AppView) -> ResponseView {
    match s {
        Some(w) => ResponseView::WindowSize { width: w.width, height: w.height },
        None => ResponseView::WindowSize { width: 0, height: 0 },
    }
}

/// How the loop owner handles a command: its next state and what it asks for.
/// A handshake-only command is a protocol violation and changes nothing.
pub open spec fn user_step(s: AppView, e: EventView) -> (AppView, Result<
    Option<ActionView>,
    RelayError,
>) {
    match e {
        EventView::NewWindow { title } => (
            Some(WindowView { title, width: 0, height: 0 }),
            Ok(
                Some(
                    if s is Some {
                        ActionView::ReplaceWindow { title }
                    } else {
                        ActionView::CreateWindow { title }
                    },
                ),
            ),
        ),
        EventView::GetWindowSize => (s, Ok(Some(ActionView::Respond(size_reply(s))))),
        EventView::CloseWindow => (
            None,
            Ok(
                if s is Some {
                    Some(ActionView::DestroyWindow)
                } else {
                    None
                },
            ),
        ),
        EventView::Connect { .. } | EventView::ConnectionReady => (
            s,
            Err(RelayError::ProtocolViolation),
        ),
    }
}

/// The response that a step sends back to the controller, if any.
pub open spec fn response_of(r: Result<Option<ActionView>, RelayError>) -> Option<ResponseView> {
    match r {
        Ok(Some(ActionView::Respond(m))) => Some(m),
        _ => None,
    }
}

/// How the loop owner handles a window-system event: its next state and what
/// it asks for. While idle every such event is ignored.
pub open spec fn system_step(s: AppView, ev: SystemEvent) -> (AppView, Option<ActionView>) {
    match s {
        None => (None, None),
        Some(w) => match ev {
            SystemEvent::CloseRequested => (None, Some(ActionView::DestroyWindow)),
            SystemEvent::RedrawRequested => (s, Some(ActionView::RequestRedraw)),
            SystemEvent::Resized { width, height } => (
                Some(WindowView { title: w.title, width, height }),
                None,
            ),
            SystemEvent::CreationFailed => (None, None),
            SystemEvent::Other => (s, None),
        },
    }
}

/// The title of the window that a state holds, if any.
pub open spec fn live_title(s: AppView) -> Option<Seq<char>> {
    match s {
        Some(w) => Some(w.title),
        None => None,
    }
}

/// The window that the window system holds once it has carried out `action`,
/// starting from `live` (the title of its window; `None` for no window). The
/// outer `None` means the action does not fit: a window created beside a live
/// one, or an operation on a window that does not exist.
pub open spec fn carry_out(live: Option<Seq<char>>, action: Option<ActionView>) -> Option<
    Option<Seq<char>>,
> {
    match action {
        None => Some(live),
        Some(ActionView::CreateWindow { title }) => if live is None {
            Some(Some(title))
        } else {
            None
        },
        Some(ActionView::ReplaceWindow { title }) => if live is Some {
            Some(Some(title))
        } else {
            None
        },
        Some(ActionView::DestroyWindow) => if live is Some {
            Some(None)
        } else {
            None
        },
        Some(ActionView::RequestRedraw) => if live is Some {
            Some(live)
        } else {
            None
        },
        Some(ActionView::Respond(_)) => Some(live),
    }
}

/// Every command that the loop owner accepts asks for exactly the operations
/// that take the window system from the window the loop owner held to the one
/// it holds now, so there is never more than one window; a command that it
/// refuses changes nothing.
pub proof fn lemma_commands_track_window(s: AppView, e: EventView)
    ensures
        user_step(s, e).1 matches Ok(a) ==> carry_out(live_title(s), a) == Some(
            live_title(user_step(s, e).0),
        ),
        user_step(s, e).1 is Err ==> user_step(s, e).0 == s,
{
}

/// Every window-system event is handled in the same way. A failed creation
/// means that the window system holds no window, and the loop owner then holds
/// none either.
pub proof fn lemma_system_events_track_window(s: AppView, ev: SystemEvent)
    ensures
        ev != SystemEvent::CreationFailed ==> carry_out(live_title(s), system_step(s, ev).1)
            == Some(live_title(system_step(s, ev).0)),
        ev == SystemEvent::CreationFailed ==> system_step(s, ev) == (None::<WindowView>, None::<
            ActionView,
        >),
{
}

/// Two `NewWindow` commands in a row leave one window alive, titled after the
/// second: the second replaces the first, and no step creates a window beside
/// a live one.
pub proof fn lemma_second_open_replaces_first(s: AppView, a: Seq<char>, b: Seq<char>)
    ensures
        ({
            let (s1, r1) = user_step(s, EventView::NewWindow { title: a });
            let (s2, r2) = user_step(s1, EventView::NewWindow { title: b });
            &&& r1 is Ok && r2 is Ok
            &&& live_title(s2) == Some(b)
            &&& carry_out(live_title(s), r1->Ok_0) == Some(Some(a))
            &&& carry_out(Some(a), r2->Ok_0) == Some(Some(b))
        }),
{
}

struct LiveWindow {
    title: String,
    width: u32,
    height: u32,
}

/// The loop owner. It holds the model of the single window; the window itself
/// lives with whoever carries out the actions.
pub struct App {
    window: Option<LiveWindow>,
}

impl View for App {
    type V = AppView;

    closed spec fn view(&self) -> AppView {
        match self.window {
            Some(w) => Some(WindowView { title: w.title@, width: w.width, height: w.height }),
            None => None,
        }
    }
}

impl App {
    /// A loop owner in the idle state.
    pub fn new() -> (a: App)
        ensures
            a@ is None,
    {
        App { window: None }
    }

    /// Whether a window is open.
    pub fn has_window(&self) -> (r: bool)
        ensures
            r == self@ is Some,
    {
        self.window.is_some()
    }

    fn close_window(&mut self)
        ensures
            final(self)@ is None,
    {
        self.window = None;
    }

    fn size_response(&self) -> (r: DummyResponse)
        ensures
            r@ == size_reply(self@),
    {
        match &self.window {
            Some(w) => DummyResponse::WindowSize { width: w.width, height: w.height },
            None => DummyResponse::WindowSize { width: 0, height: 0 },
        }
    }

    /// Handles a command that arrived from the controller.
    pub fn user_event(&mut self, event: DummyEvent) -> (r: Result<Option<LoopAction>, RelayError>)
        ensures
            user_step(old(self)@, event@) == (final(self)@, outcome_view(r)),
    {
        match event {
            DummyEvent::NewWindow { title } => {
                let had_window = self.window.is_some();
                let action = if had_window {
                    LoopAction::ReplaceWindow { title: title.clone() }
                } else {
                    LoopAction::CreateWindow { title: title.clone() }
                };
                self.window = Some(LiveWindow { title, width: 0, height: 0 });
                Ok(Some(action))
            },
            DummyEvent::GetWindowSize => Ok(Some(LoopAction::Respond(self.size_response()))),
            DummyEvent::CloseWindow => {
                let had_window = self.window.is_some();
                self.close_window();
                if had_window {
                    Ok(Some(LoopAction::DestroyWindow))
                } else {
                    Ok(None)
                }
            },
            DummyEvent::Connect { .. } | DummyEvent::ConnectionReady => Err(
                RelayError::ProtocolViolation,
            ),
        }
    }

    /// Handles an event that the window system delivered.
    pub fn window_event(&mut self, event: SystemEvent) -> (r: Option<LoopAction>)
        ensures
            system_step(old(self)@, event) == (final(self)@, opt_action_view(r)),
    {
        if self.window.is_none() {
            return None;
        }
        match event {
            SystemEvent::CloseRequested => {
                self.close_window();
                Some(LoopAction::DestroyWindow)
            },
            SystemEvent::RedrawRequested => Some(LoopAction::RequestRedraw),
            SystemEvent::Resized { width, height } => {
                if let Some(w) = &mut self.window {
                    w.width = width;
                    w.height = height;
                }
                None
            },
            SystemEvent::CreationFailed => {
                self.close_window();
                None
            },
            SystemEvent::Other => None,
        }
    }
}

} // verus!
