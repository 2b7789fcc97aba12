use window_relay::controller::Controller;
use window_relay::handshake::{Dial, Initiator, Responder};
use window_relay::loop_owner::{App, LoopAction};
use window_relay::{DummyEvent, DummyResponse, RelayError};

#[test]
fn handshake_completes_in_four_steps() {
    let mut a = Initiator::new();
    let mut b = Responder::new();

    // 1: A listens on its endpoint and starts B with the address
    let arg = a.listening("endpoint-a".to_string()).unwrap();
    assert_eq!(arg, "endpoint-a");
    assert!(!a.is_established());

    // 2: B opens its endpoint and dials A with `Connect`
    let to_a = b.started(arg, "endpoint-b".to_string()).unwrap();
    assert_eq!(
        to_a,
        Dial {
            endpoint: "endpoint-a".to_string(),
            message: DummyResponse::Connect { server_name: "endpoint-b".to_string() },
        }
    );
    assert!(!b.is_established());

    // 3: A accepts it and dials B with `ConnectionReady`
    let to_b = a.accepted(to_a.message).unwrap();
    assert_eq!(
        to_b,
        Dial { endpoint: "endpoint-b".to_string(), message: DummyEvent::ConnectionReady }
    );
    assert!(a.is_established());
    assert!(!b.is_established());

    // 4: B accepts `ConnectionReady`
    assert_eq!(b.accepted(to_b.message), Ok(()));
    assert!(b.is_established());

    // a size query right after round-trips to a matching reply
    let mut c = Controller::new();
    let mut app = App::new();
    let q = c.request_window_size().unwrap();
    let reply = match app.user_event(q).unwrap() {
        Some(LoopAction::Respond(r)) => Some(r),
        _ => None,
    };
    assert_eq!(c.window_size_reply(reply), Ok((0, 0)));
}

#[test]
fn initiator_refuses_unexpected_first_message() {
    let mut a = Initiator::new();
    a.listening("e".to_string()).unwrap();
    assert_eq!(
        a.accepted(DummyResponse::WindowSize { width: 1, height: 1 }),
        Err(RelayError::ProtocolViolation)
    );
    assert!(!a.is_established());
    // no retry once failed
    assert_eq!(
        a.accepted(DummyResponse::Connect { server_name: "b".to_string() }),
        Err(RelayError::ProtocolViolation)
    );
    assert!(!a.is_established());
}

#[test]
fn initiator_refuses_accept_before_listening() {
    let mut a = Initiator::new();
    assert_eq!(
        a.accepted(DummyResponse::Connect { server_name: "b".to_string() }),
        Err(RelayError::ProtocolViolation)
    );
    assert_eq!(a.listening("e".to_string()), Err(RelayError::ProtocolViolation));
}

#[test]
fn initiator_listens_once() {
    let mut a = Initiator::new();
    assert_eq!(a.listening("e".to_string()), Ok("e".to_string()));
    assert_eq!(a.listening("f".to_string()), Err(RelayError::ProtocolViolation));
}

#[test]
fn responder_refuses_unexpected_first_message() {
    let mut b = Responder::new();
    b.started("a".to_string(), "b".to_string()).unwrap();
    assert_eq!(b.accepted(DummyEvent::GetWindowSize), Err(RelayError::ProtocolViolation));
    assert!(!b.is_established());
    assert_eq!(b.accepted(DummyEvent::ConnectionReady), Err(RelayError::ProtocolViolation));
}

#[test]
fn responder_refuses_ready_before_start() {
    let mut b = Responder::new();
    assert_eq!(b.accepted(DummyEvent::ConnectionReady), Err(RelayError::ProtocolViolation));
    assert_eq!(b.started("a".to_string(), "b".to_string()), Err(RelayError::ProtocolViolation));
}

#[test]
fn io_failure_is_a_construction_error() {
    let mut a = Initiator::new();
    a.listening("e".to_string()).unwrap();
    assert_eq!(a.io_failed(), RelayError::Construction);
    assert_eq!(
        a.accepted(DummyResponse::Connect { server_name: "b".to_string() }),
        Err(RelayError::ProtocolViolation)
    );
    let mut b = Responder::new();
    assert_eq!(b.io_failed(), RelayError::Construction);
    assert!(!b.is_established());
}
