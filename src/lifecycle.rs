//! The lifecycle of the child process that hosts a loop owner: it is killed
//! when the relay is disposed of, once, however often disposal is asked for.

use vstd::prelude::*;

verus! {

/// What the relay knows of its child process.
#[derive(Debug, Clone, Copy, PartialEq, Eq, Structural)]
pub enum ChildState {
    /// The loop owner was started by hand; the relay owns no process.
    NoChild,
    /// The relay started the process and has not killed it.
    Running,
    /// The relay has killed the process.
    Terminated,
}

/// Disposing of the relay: the next state, and whether the process is to be
/// killed now.
pub open spec fn dispose_step(s: ChildState) -> (ChildState, bool) {
    match s {
        ChildState::Running => (ChildState::Terminated, true),
        _ => (s, false),
    }
}

/// The relay's hold on its child process.
pub struct ChildLifecycle {
    state: ChildState,
}

impl View for ChildLifecycle {
    type V = ChildState;

    closed spec fn view(&self) -> ChildState {
        self.state
    }
}

impl ChildLifecycle {
    /// The hold on a child process that the relay just started, or on none
    /// where the loop owner was started by hand.
    pub fn new(spawned: bool) -> (c: ChildLifecycle)
        ensures
            c@ == (if spawned {
                ChildState::Running
            } else {
                ChildState::NoChild
            }),
    {
        if spawned {
            ChildLifecycle { state: ChildState::Running }
        } else {
            ChildLifecycle { state: ChildState::NoChild }
        }
    }

    pub fn state(&self) -> (s: ChildState)
        ensures
            s == self@,
    {
        self.state
    }

    /// Disposes of the relay; the result says whether the process must be
    /// killed now.
    pub fn dispose(&mut self) -> (kill: bool)
        ensures
            dispose_step(old(self)@) == (final(self)@, kill),
    {
        if self.state == ChildState::Running {
            self.state = ChildState::Terminated;
            true
        } else {
            false
        }
    }
}

/// Disposing twice is harmless: the first disposal of a running child kills it
/// once, the second asks for nothing and leaves the state as it was, and no
/// disposal leaves the child running.
pub proof fn lemma_dispose_twice(s: ChildState)
    ensures
        ({
            let (s1, kill1) = dispose_step(s);
            let (s2, kill2) = dispose_step(s1);
            &&& kill1 == (s == ChildState::Running)
            &&& !kill2
            &&& s2 == s1
            &&& s1 != ChildState::Running
        }),
{
}

} // verus!
