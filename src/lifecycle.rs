//! The start/stop lifecycle of a background service.
use vstd::prelude::*;

verus! {

/// Where a service stands, with the handle of its background task while it runs.
#[derive(Debug)]
pub enum Lifecycle<H> {
    NotStarted,
    Running(H),
    Stopped,
}

impl<H> Lifecycle<H> {
    pub fn new() -> (r: Self)
        ensures
            r is NotStarted,
    {
        Lifecycle::NotStarted
    }

    pub fn is_running(&self) -> (r: bool)
        ensures
            r <==> *self is Running,
    {
        match self {
            Lifecycle::Running(_) => true,
            _ => false,
        }
    }

    /// Records the handle of a freshly started task. Starting is idempotent: the
    /// caller starts a task only while none runs.
    pub fn start(&mut self, handle: H)
        requires
            !(*old(self) is Running),
        ensures
            *final(self) == Lifecycle::Running(handle),
    {
        *self = Lifecycle::Running(handle);
    }

    /// Stops a running service and hands back its task's handle; a service that
    /// does not run is left as it is and yields nothing.
    pub fn stop(&mut self) -> (r: Option<H>)
        ensures
            match *old(self) {
                Lifecycle::Running(h) => r == Some(h) && *final(self) is Stopped,
                _ => r is None && *final(self) == *old(self),
            },
    {
        if !self.is_running() {
            return None;
        }
        let mut current = Lifecycle::Stopped;
        std::mem::swap(self, &mut current);
        match current {
            Lifecycle::Running(h) => Some(h),
            _ => None,
        }
    }
}

} // verus!
