//! The executable supervisor: a single-owner cell for the backend handle.
//!
//! The handle type is left to the caller; a process handle in a shell, a plain
//! identifier in a test. Launching and killing are the caller's part: the
//! supervisor decides what is kept and what is handed out for termination.
use vstd::prelude::*;
use crate::lifecycle::{
    Phase,
    WindowEvent,
    SupervisorModel,
    initial,
    spawn_outcome,
    after_startup,
    after_close,
    step,
    to_terminate,
};

verus! {

/// Holds the backend's handle, if one was spawned, until the close request
/// takes it out.
pub struct Supervisor<H> {
    phase: Phase,
    handle: Option<H>,
}

impl<H> View for Supervisor<H> {
    type V = SupervisorModel<H>;

    closed spec fn view(&self) -> SupervisorModel<H> {
        SupervisorModel { phase: self.phase, handle: self.handle }
    }
}

impl<H> Supervisor<H> {
    #[verifier::type_invariant]
    spec fn inv(self) -> bool {
        self@.wf()
    }

    /// A supervisor at the start of a run, holding nothing.
    pub fn new() -> (s: Self)
        ensures
            s@ == initial::<H>(),
            s@.wf(),
    {
        Supervisor { phase: Phase::Init, handle: None }
    }

    /// Where the run stands.
    pub fn phase(&self) -> (p: Phase)
        ensures
            p == self@.phase,
    {
        self.phase
    }

    /// Whether a backend handle is held.
    pub fn is_tracking(&self) -> (b: bool)
        ensures
            b == (self@.handle is Some),
    {
        self.handle.is_some()
    }

    /// Records the outcome of the one spawn attempt made at startup. A
    /// failure of any kind is absorbed: the run goes on without a backend.
    pub fn on_startup<E>(&mut self, spawned: Result<H, E>)
        requires
            old(self)@.phase == Phase::Init,
        ensures
            final(self)@ == after_startup(spawn_outcome(spawned)),
            final(self)@.wf(),
    {
        match spawned {
            Ok(h) => {
                *self = Supervisor { phase: Phase::Tracking, handle: Some(h) };
            },
            Err(_) => {
                *self = Supervisor { phase: Phase::NoBackend, handle: None };
            },
        }
    }

    /// Handles a close request: takes the handle out, if one is held, and
    /// hands it back for termination. Later calls find nothing.
    pub fn on_close_requested(&mut self) -> (taken: Option<H>)
        ensures
            final(self)@ == after_close(old(self)@),
            taken == old(self)@.handle,
            final(self)@.wf(),
    {
        let mut before = Supervisor { phase: Phase::Terminated, handle: None };
        std::mem::swap(self, &mut before);
        before.handle
    }

    /// Handles a window event: a close request takes the handle out, any
    /// other event leaves the supervisor as it is.
    pub fn on_window_event(&mut self, event: WindowEvent) -> (taken: Option<H>)
        ensures
            final(self)@ == step(old(self)@, event),
            taken == to_terminate(old(self)@, event),
            old(self)@.wf(),
            final(self)@.wf(),
    {
        proof {
            use_type_invariant(&*self);
        }
        match event {
            WindowEvent::CloseRequested => self.on_close_requested(),
            WindowEvent::Other => None,
        }
    }
}

} // verus!
