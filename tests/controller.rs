use window_relay::controller::{Controller, Phase};
use window_relay::loop_owner::{App, LoopAction, SystemEvent};
use window_relay::{DummyEvent, DummyResponse, RelayError};

/// Carries a command to the loop owner and, for a query, its reply back.
fn deliver(app: &mut App, cmd: DummyEvent) -> Option<DummyResponse> {
    match app.user_event(cmd).unwrap() {
        Some(LoopAction::Respond(r)) => Some(r),
        _ => None,
    }
}

fn get_size(c: &mut Controller, app: &mut App) -> Result<(u32, u32), RelayError> {
    let q = c.request_window_size()?;
    let reply = deliver(app, q);
    c.window_size_reply(reply)
}

#[test]
fn open_builds_new_window_command() {
    let mut c = Controller::new();
    assert_eq!(c.open_window("T"), Ok(DummyEvent::NewWindow { title: "T".to_string() }));
    assert_eq!(c.phase(), Phase::Ready);
}

#[test]
fn open_then_size_after_realized() {
    let mut c = Controller::new();
    let mut app = App::new();
    let cmd = c.open_window("T").unwrap();
    deliver(&mut app, cmd);
    app.window_event(SystemEvent::Resized { width: 640, height: 480 });
    assert_eq!(get_size(&mut c, &mut app), Ok((640, 480)));
    assert_eq!(c.phase(), Phase::Ready);
}

#[test]
fn close_on_idle_controller_is_ok() {
    let mut c = Controller::new();
    let mut app = App::new();
    let cmd = c.close_window().unwrap();
    assert_eq!(cmd, DummyEvent::CloseWindow);
    assert_eq!(app.user_event(cmd), Ok(None));
    assert_eq!(c.phase(), Phase::Ready);
}

#[test]
fn two_opens_leave_one_window_titled_b() {
    let mut c = Controller::new();
    let mut app = App::new();
    let a = c.open_window("A").unwrap();
    let b = c.open_window("B").unwrap();
    assert_eq!(app.user_event(a), Ok(Some(LoopAction::CreateWindow { title: "A".to_string() })));
    assert_eq!(app.user_event(b), Ok(Some(LoopAction::ReplaceWindow { title: "B".to_string() })));
    assert!(app.has_window());
}

#[test]
fn size_while_idle_is_zero_by_zero() {
    let mut c = Controller::new();
    let mut app = App::new();
    assert_eq!(get_size(&mut c, &mut app), Ok((0, 0)));
}

#[test]
fn second_query_while_waiting_is_refused() {
    let mut c = Controller::new();
    assert_eq!(c.request_window_size(), Ok(DummyEvent::GetWindowSize));
    assert_eq!(c.phase(), Phase::AwaitingSize);
    assert_eq!(c.request_window_size(), Err(RelayError::QueryPending));
    assert_eq!(c.open_window("T"), Ok(DummyEvent::NewWindow { title: "T".to_string() }));
    assert_eq!(
        c.window_size_reply(Some(DummyResponse::WindowSize { width: 1, height: 2 })),
        Ok((1, 2))
    );
    assert_eq!(c.request_window_size(), Ok(DummyEvent::GetWindowSize));
}

#[test]
fn broken_channel_while_waiting_disconnects() {
    let mut c = Controller::new();
    c.request_window_size().unwrap();
    assert_eq!(c.window_size_reply(None), Err(RelayError::ChannelDisconnected));
    assert_eq!(c.phase(), Phase::Disconnected);
    assert_eq!(c.open_window("T"), Err(RelayError::ChannelDisconnected));
    assert_eq!(c.close_window(), Err(RelayError::ChannelDisconnected));
    assert_eq!(c.request_window_size(), Err(RelayError::ChannelDisconnected));
}

#[test]
fn failed_send_disconnects() {
    let mut c = Controller::new();
    assert_eq!(c.send_failed(), RelayError::ChannelDisconnected);
    assert_eq!(c.phase(), Phase::Disconnected);
    assert_eq!(c.close_window(), Err(RelayError::ChannelDisconnected));
}

#[test]
fn handshake_reply_to_query_aborts() {
    let mut c = Controller::new();
    c.request_window_size().unwrap();
    assert_eq!(
        c.window_size_reply(Some(DummyResponse::Connect { server_name: "e".to_string() })),
        Err(RelayError::ProtocolViolation)
    );
    assert_eq!(c.phase(), Phase::Aborted);
    assert_eq!(c.open_window("T"), Err(RelayError::ProtocolViolation));
}

#[test]
fn reply_without_query_aborts() {
    let mut c = Controller::new();
    assert_eq!(
        c.window_size_reply(Some(DummyResponse::WindowSize { width: 1, height: 1 })),
        Err(RelayError::ProtocolViolation)
    );
    assert_eq!(c.phase(), Phase::Aborted);
}
