//! The rendezvous handshake that builds a two-way channel out of two one-way,
//! single-use endpoints.
//!
//! Party A (the initiator) opens a listening endpoint and starts party B (the
//! responder, which owns the event loop) with its address. B opens its own
//! endpoint, dials A and sends `Connect` with that address. A accepts it, dials
//! B and sends `ConnectionReady`. B accepts that, and both hold one channel in
//! each direction. Any step that fails, or any unexpected message, ends the
//! handshake for good.

use vstd::prelude::*;

use crate::controller::{reply_step, send_step, Phase};
use crate::error::RelayError;
use crate::loop_owner::{response_of, size_reply, user_step, AppView};
use crate::message::{DummyEvent, DummyResponse, EventView, ResponseView};

verus! {

/// A connection to make: dial `endpoint`, then send `message` on it.
#[derive(Debug, Clone, PartialEq, Eq)]
pub struct Dial<M> {
    pub endpoint: String,
    pub message: M,
}

/// The mathematical value of a dial.
pub struct DialView<V> {
    pub endpoint: Seq<char>,
    pub message: V,
}

impl<M: View> View for Dial<M> {
    type V = DialView<M::V>;

    open spec fn view(&self) -> DialView<M::V> {
        DialView { endpoint: self.endpoint@, message: self.message@ }
    }
}

/// Where the initiator stands in the handshake.
#[derive(Debug, Clone, Copy, PartialEq, Eq, Structural)]
pub enum InitiatorState {
    Start,
    AwaitingConnect,
    Established,
    Failed,
}

/// Where the responder stands in the handshake.
#[derive(Debug, Clone, Copy, PartialEq, Eq, Structural)]
pub enum ResponderState {
    Start,
    AwaitingReady,
    Established,
    Failed,
}

/// The initiator opened its listening endpoint `own`: it waits for the
/// responder, which is to be started with that address.
pub open spec fn initiator_listen_step(s: InitiatorState, own: Seq<char>) -> (
    InitiatorState,
    Result<Seq<char>, RelayError>,
) {
    if s is Start {
        (InitiatorState::AwaitingConnect, Ok(own))
    } else {
        (InitiatorState::Failed, Err(RelayError::ProtocolViolation))
    }
}

/// The initiator accepted the first message on its endpoint: a `Connect` names
/// the responder's endpoint, which the initiator dials to send
/// `ConnectionReady`.
pub open spec fn initiator_accept_step(s: InitiatorState, first: ResponseView) -> (
    InitiatorState,
    Result<DialView<EventView>, RelayError>,
) {
    match (s, first) {
        (InitiatorState::AwaitingConnect, ResponseView::Connect { server_name }) => (
            InitiatorState::Established,
            Ok(DialView { endpoint: server_name, message: EventView::ConnectionReady }),
        ),
        _ => (InitiatorState::Failed, Err(RelayError::ProtocolViolation)),
    }
}

/// The responder was started with the initiator's endpoint `peer` and opened
/// its own endpoint `own`: it dials `peer` to send `Connect` with `own`.
pub open spec fn responder_start_step(s: ResponderState, peer: Seq<char>, own: Seq<char>) -> (
    ResponderState,
    Result<DialView<ResponseView>, RelayError>,
) {
    if s is Start {
        (
            ResponderState::AwaitingReady,
            Ok(DialView { endpoint: peer, message: ResponseView::Connect { server_name: own } }),
        )
    } else {
        (ResponderState::Failed, Err(RelayError::ProtocolViolation))
    }
}

/// The responder accepted the first message on its endpoint, which must be
/// `ConnectionReady`.
pub open spec fn responder_accept_step(s: ResponderState, first: EventView) -> (
    ResponderState,
    Result<(), RelayError>,
) {
    if s is AwaitingReady && first is ConnectionReady {
        (ResponderState::Established, Ok(()))
    } else {
        (ResponderState::Failed, Err(RelayError::ProtocolViolation))
    }
}

pub open spec fn dial_result_view<M: View>(r: Result<Dial<M>, RelayError>) -> Result<
    DialView<M::V>,
    RelayError,
> {
    match r {
        Ok(d) => Ok(d@),
        Err(e) => Err(e),
    }
}

pub open spec fn string_result_view(r: Result<String, RelayError>) -> Result<Seq<char>, RelayError> {
    match r {
        Ok(s) => Ok(s@),
        Err(e) => Err(e),
    }
}

/// Party A of the handshake: the side that starts the loop owner.
pub struct Initiator {
    state: InitiatorState,
}

impl View for Initiator {
    type V = InitiatorState;

    closed spec fn view(&self) -> InitiatorState {
        self.state
    }
}

impl Initiator {
    pub fn new() -> (i: Initiator)
        ensures
            i@ == InitiatorState::Start,
    {
        Initiator { state: InitiatorState::Start }
    }

    /// Gives the address that the responder is to be started with.
    pub fn listening(&mut self, own_endpoint: String) -> (r: Result<String, RelayError>)
        ensures
            initiator_listen_step(old(self)@, own_endpoint@) == (
                final(self)@,
                string_result_view(r),
            ),
    {
        if self.state == InitiatorState::Start {
            self.state = InitiatorState::AwaitingConnect;
            Ok(own_endpoint)
        } else {
            self.state = InitiatorState::Failed;
            Err(RelayError::ProtocolViolation)
        }
    }

    /// Takes the first message accepted on the initiator's endpoint and gives
    /// the connection that completes the initiator's half.
    pub fn accepted(&mut self, first: DummyResponse) -> (r: Result<Dial<DummyEvent>, RelayError>)
        ensures
            initiator_accept_step(old(self)@, first@) == (final(self)@, dial_result_view(r)),
    {
        if self.state != InitiatorState::AwaitingConnect {
            self.state = InitiatorState::Failed;
            return Err(RelayError::ProtocolViolation);
        }
        match first {
            DummyResponse::Connect { server_name } => {
                self.state = InitiatorState::Established;
                Ok(Dial { endpoint: server_name, message: DummyEvent::ConnectionReady })
            },
            DummyResponse::WindowSize { .. } => {
                self.state = InitiatorState::Failed;
                Err(RelayError::ProtocolViolation)
            },
        }
    }

    /// Records that opening, dialing, sending or accepting failed: the relay
    /// cannot be built.
    pub fn io_failed(&mut self) -> (e: RelayError)
        ensures
            final(self)@ == InitiatorState::Failed,
            e == RelayError::Construction,
    {
        self.state = InitiatorState::Failed;
        RelayError::Construction
    }

    pub fn is_established(&self) -> (r: bool)
        ensures
            r == (self@ == InitiatorState::Established),
    {
        self.state == InitiatorState::Established
    }
}

/// Party B of the handshake: the side that owns the event loop.
pub struct Responder {
    state: ResponderState,
}

impl View for Responder {
    type V = ResponderState;

    closed spec fn view(&self) -> ResponderState {
        self.state
    }
}

impl Responder {
    pub fn new() -> (r: Responder)
        ensures
            r@ == ResponderState::Start,
    {
        Responder { state: ResponderState::Start }
    }

    /// Takes the initiator's address, given at startup, and the responder's own
    /// fresh endpoint, and gives the connection that announces the latter.
    pub fn started(&mut self, peer_endpoint: String, own_endpoint: String) -> (r: Result<
        Dial<DummyResponse>,
        RelayError,
    >)
        ensures
            responder_start_step(old(self)@, peer_endpoint@, own_endpoint@) == (
                final(self)@,
                dial_result_view(r),
            ),
    {
        if self.state == ResponderState::Start {
            self.state = ResponderState::AwaitingReady;
            Ok(
                Dial {
                    endpoint: peer_endpoint,
                    message: DummyResponse::Connect { server_name: own_endpoint },
                },
            )
        } else {
            self.state = ResponderState::Failed;
            Err(RelayError::ProtocolViolation)
        }
    }

    /// Takes the first message accepted on the responder's endpoint.
    pub fn accepted(&mut self, first: DummyEvent) -> (r: Result<(), RelayError>)
        ensures
            responder_accept_step(old(self)@, first@) == (final(self)@, r),
    {
        if self.state == ResponderState::AwaitingReady {
            if let DummyEvent::ConnectionReady = first {
                self.state = ResponderState::Established;
                return Ok(());
            }
        }
        self.state = ResponderState::Failed;
        Err(RelayError::ProtocolViolation)
    }

    /// Records that opening, dialing, sending or accepting failed.
    pub fn io_failed(&mut self) -> (e: RelayError)
        ensures
            final(self)@ == ResponderState::Failed,
            e == RelayError::Construction,
    {
        self.state = ResponderState::Failed;
        RelayError::Construction
    }

    pub fn is_established(&self) -> (r: bool)
        ensures
            r == (self@ == ResponderState::Established),
    {
        self.state == ResponderState::Established
    }
}

/// With both parties following the protocol, the handshake completes in four
/// steps: A listens, B dials A with `Connect`, A dials B with
/// `ConnectionReady`, B accepts it. Neither party is established before its
/// last step, and each dial reaches the endpoint that the other party opened.
/// On the channel pair that results, a size query sent first thing comes back
/// as the matching `WindowSize` reply, and neither end takes a handshake
/// message for a command or a reply.
pub proof fn lemma_handshake_completes(e_a: Seq<char>, e_b: Seq<char>, s: AppView)
    ensures
        ({
            let (a1, r1) = initiator_listen_step(InitiatorState::Start, e_a);
            let (b1, r2) = responder_start_step(ResponderState::Start, r1->Ok_0, e_b);
            let (a2, r3) = initiator_accept_step(a1, r2->Ok_0.message);
            let (b2, r4) = responder_accept_step(b1, r3->Ok_0.message);
            &&& r1 == Ok::<Seq<char>, RelayError>(e_a) && a1 == InitiatorState::AwaitingConnect
            &&& r2 is Ok && r2->Ok_0.endpoint == e_a && b1 == ResponderState::AwaitingReady
            &&& r3 is Ok && r3->Ok_0.endpoint == e_b && a2 == InitiatorState::Established
            &&& r4 is Ok && b2 == ResponderState::Established
        }),
        ({
            let (p1, c1) = send_step(Phase::Ready, EventView::GetWindowSize);
            let (s1, a1) = user_step(s, c1->Ok_0);
            let (p2, r) = reply_step(p1, response_of(a1));
            &&& c1 is Ok && s1 == s && p2 == Phase::Ready
            &&& response_of(a1) == Some(size_reply(s))
            &&& r is Ok
        }),
        user_step(s, EventView::ConnectionReady).1 is Err,
        forall|n: Seq<char>|
            #![auto]
            reply_step(Phase::AwaitingSize, Some(ResponseView::Connect { server_name: n })).1 is Err,
{
}

} // verus!
