//! A relay between a caller and a GUI event loop that runs elsewhere: on the
//! calling thread, on a spawned thread, or in a child process.
//!
//! The library holds the relay's decisions as verified state machines: the
//! loop owner that keeps at most one window, the two parties of the
//! rendezvous handshake, the controller that correlates size queries with
//! their replies, the child process's lifecycle and the registry of a shared
//! loop. Sending, receiving and the window system itself are driven by the
//! caller, which hands each machine the events it observed and carries out
//! the actions it gets back.

pub mod controller;
pub mod error;
pub mod handshake;
pub mod lifecycle;
pub mod loop_owner;
pub mod message;
pub mod registry;

pub use controller::Controller;
pub use error::RelayError;
pub use loop_owner::App;
pub use message::{DummyEvent, DummyResponse};
