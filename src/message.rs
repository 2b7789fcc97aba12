//! The commands that a controller sends to the loop owner and the responses
//! that come back.

use vstd::prelude::*;

verus! {

/// A command for the loop owner. `Connect` and `ConnectionReady` belong to
/// the handshake; the others manage the window.
#[derive(Debug, Clone, PartialEq, Eq)]
pub enum DummyEvent {
    NewWindow { title: String },
    GetWindowSize,
    CloseWindow,
    Connect { server_name: String },
    ConnectionReady,
}

/// A response of the loop owner: `Connect` during the handshake, and
/// `WindowSize` in reply to `GetWindowSize`, in physical pixels.
#[derive(Debug, Clone, PartialEq, Eq)]
pub enum DummyResponse {
    Connect { server_name: String },
    WindowSize { width: u32, height: u32 },
}

/// The mathematical value of a command.
pub enum EventView {
    NewWindow { title: Seq<char> },
    GetWindowSize,
    CloseWindow,
    Connect { server_name: Seq<char> },
    ConnectionReady,
}

/// The mathematical value of a response.
pub enum ResponseView {
    Connect { server_name: Seq<char> },
    WindowSize { width: u32, height: u32 },
}

impl View for DummyEvent {
    type V = EventView;

    open spec fn view(&self) -> EventView {
        match self {
            DummyEvent::NewWindow { title } => EventView::NewWindow { title: title@ },
            DummyEvent::GetWindowSize => EventView::GetWindowSize,
            DummyEvent::CloseWindow => EventView::CloseWindow,
            DummyEvent::Connect { server_name } => EventView::Connect { server_name: server_name@ },
            DummyEvent::ConnectionReady => EventView::ConnectionReady,
        }
    }
}

impl View for DummyResponse {
    type V = ResponseView;

    open spec fn view(&self) -> ResponseView {
        match self {
            DummyResponse::Connect { server_name } => ResponseView::Connect {
                server_name: server_name@,
            },
            DummyResponse::WindowSize { width, height } => ResponseView::WindowSize {
                width: *width,
                height: *height,
            },
        }
    }
}

impl EventView {
    /// Whether the command only has a meaning during the handshake.
    pub open spec fn is_handshake_only(self) -> bool {
        self is Connect || self is ConnectionReady
    }
}

impl DummyEvent {
    /// Whether the command only has a meaning during the handshake.
    pub fn is_handshake_only(&self) -> (r: bool)
        ensures
            r == self@.is_handshake_only(),
    {
        match self {
            DummyEvent::Connect { .. } | DummyEvent::ConnectionReady => true,
            _ => false,
        }
    }
}

} // verus!
