//! The registry of a loop owner that runs on a spawned thread and is shared by
//! every controller of the process: the first caller starts it and installs
//! its handle, later callers reuse the handle.

use vstd::prelude::*;

use crate::error::RelayError;

verus! {

/// Holds the handle of the shared loop owner once it runs.
pub struct LoopRegistry<H> {
    handle: Option<H>,
}

impl<H> View for LoopRegistry<H> {
    type V = Option<H>;

    closed spec fn view(&self) -> Option<H> {
        self.handle
    }
}

impl<H> LoopRegistry<H> {
    /// A registry with no loop owner.
    pub fn new() -> (r: LoopRegistry<H>)
        ensures
            r@ is None,
    {
        LoopRegistry { handle: None }
    }

    /// Whether the loop owner has been started and its handle installed.
    pub fn is_started(&self) -> (r: bool)
        ensures
            r == self@ is Some,
    {
        self.handle.is_some()
    }

    /// Installs the handle of a loop owner that was just started. A registry
    /// keeps its first handle: a later one is handed back.
    pub fn install(&mut self, handle: H) -> (r: Result<(), H>)
        ensures
            old(self)@ is None ==> r is Ok && final(self)@ == Some(handle),
            old(self)@ is Some ==> r == Err::<(), H>(handle) && final(self)@ == old(self)@,
    {
        if self.handle.is_some() {
            Err(handle)
        } else {
            self.handle = Some(handle);
            Ok(())
        }
    }

    /// The handle of the shared loop owner; an error while none is installed.
    pub fn handle(&self) -> (r: Result<&H, RelayError>)
        ensures
            match self@ {
                Some(h) => r matches Ok(x) && *x == h,
                None => r == Err::<&H, RelayError>(RelayError::Construction),
            },
    {
        match &self.handle {
            Some(h) => Ok(h),
            None => Err(RelayError::Construction),
        }
    }
}

} // verus!
