//! The supervision lifecycle as a mathematical state machine.
//!
//! A run starts in [`Phase::Init`], records the outcome of the one spawn
//! attempt, and ends in [`Phase::Terminated`] at the first close request.
//! The laws at the end of this module are stated over these spec functions,
//! which the executable supervisor follows exactly.
use vstd::prelude::*;

verus! {

/// Where a supervisor stands in its run.
#[derive(Clone, Copy, Debug, PartialEq, Eq, Structural)]
pub enum Phase {
    /// Created, startup not yet handled.
    Init,
    /// A backend was spawned and its handle is held.
    Tracking,
    /// The spawn attempt failed; the shell runs without a backend.
    NoBackend,
    /// The close request was handled; nothing is held any more.
    Terminated,
}

/// The window events that the supervisor distinguishes.
#[derive(Clone, Copy, Debug, PartialEq, Eq, Structural)]
pub enum WindowEvent {
    /// The user asked to close the main window.
    CloseRequested,
    /// Any other window event; the supervisor ignores it.
    Other,
}

/// Abstract state of a supervisor: its phase and the handle it holds, if any.
pub struct SupervisorModel<H> {
    pub phase: Phase,
    pub handle: Option<H>,
}

impl<H> SupervisorModel<H> {
    /// A handle is held exactly while a backend is tracked.
    pub open spec fn wf(self) -> bool {
        self.handle is Some <==> self.phase == Phase::Tracking
    }
}

/// The state in which every run begins.
pub open spec fn initial<H>() -> SupervisorModel<H> {
    SupervisorModel { phase: Phase::Init, handle: None }
}

/// What a spawn attempt leaves behind: the handle on success, nothing on any
/// failure.
pub open spec fn spawn_outcome<H, E>(spawned: Result<H, E>) -> Option<H> {
    match spawned {
        Ok(h) => Some(h),
        Err(_) => None,
    }
}

/// The state after startup has recorded the outcome of the spawn attempt.
pub open spec fn after_startup<H>(spawned: Option<H>) -> SupervisorModel<H> {
    match spawned {
        Some(h) => SupervisorModel { phase: Phase::Tracking, handle: Some(h) },
        None => SupervisorModel { phase: Phase::NoBackend, handle: None },
    }
}

/// The state after a close request: the handle has been taken out.
pub open spec fn after_close<H>(m: SupervisorModel<H>) -> SupervisorModel<H> {
    SupervisorModel { phase: Phase::Terminated, handle: None }
}

/// The state after a window event.
pub open spec fn step<H>(m: SupervisorModel<H>, e: WindowEvent) -> SupervisorModel<H> {
    match e {
        WindowEvent::CloseRequested => after_close(m),
        WindowEvent::Other => m,
    }
}

/// The handle that a window event hands out for termination, if any.
pub open spec fn to_terminate<H>(m: SupervisorModel<H>, e: WindowEvent) -> Option<H> {
    match e {
        WindowEvent::CloseRequested => m.handle,
        WindowEvent::Other => None,
    }
}

/// The state after a sequence of window events.
pub open spec fn replay<H>(m: SupervisorModel<H>, events: Seq<WindowEvent>) -> SupervisorModel<H>
    decreases events.len(),
{
    if events.len() == 0 {
        m
    } else {
        replay(step(m, events[0]), events.drop_first())
    }
}

/// The handles handed out for termination over a sequence of window events,
/// in order.
pub open spec fn terminations<H>(m: SupervisorModel<H>, events: Seq<WindowEvent>) -> Seq<H>
    decreases events.len(),
{
    if events.len() == 0 {
        Seq::empty()
    } else {
        let rest = terminations(step(m, events[0]), events.drop_first());
        match to_terminate(m, events[0]) {
            Some(h) => seq![h] + rest,
            None => rest,
        }
    }
}

/// Every transition keeps the state well formed.
pub proof fn lemma_transitions_wf<H>(m: SupervisorModel<H>, spawned: Option<H>, e: WindowEvent)
    requires
        m.wf(),
    ensures
        initial::<H>().wf(),
        after_startup(spawned).wf(),
        step(m, e).wf(),
{
}

/// A state that holds no handle hands none out, whatever events follow.
pub proof fn lemma_nothing_held_nothing_terminated<H>(m: SupervisorModel<H>, events: Seq<WindowEvent>)
    requires
        m.handle is None,
    ensures
        terminations(m, events) == Seq::<H>::empty(),
    decreases events.len(),
{
    if events.len() > 0 {
        lemma_nothing_held_nothing_terminated(step(m, events[0]), events.drop_first());
    }
}

/// A state that holds a handle hands it out exactly once if a close request
/// comes, and never otherwise.
pub proof fn lemma_held_terminated_once<H>(m: SupervisorModel<H>, h: H, events: Seq<WindowEvent>)
    requires
        m.handle == Some(h),
    ensures
        terminations(m, events) == (if events.contains(WindowEvent::CloseRequested) {
            seq![h]
        } else {
            Seq::<H>::empty()
        }),
    decreases events.len(),
{
    if events.len() > 0 {
        let rest = events.drop_first();
        match events[0] {
            WindowEvent::CloseRequested => {
                lemma_nothing_held_nothing_terminated(step(m, events[0]), rest);
                assert(events.contains(WindowEvent::CloseRequested)) by {
                    assert(events[0] == WindowEvent::CloseRequested);
                }
                assert(seq![h] + Seq::<H>::empty() =~= seq![h]);
            },
            WindowEvent::Other => {
                lemma_held_terminated_once(step(m, events[0]), h, rest);
                assert(events.contains(WindowEvent::CloseRequested) == rest.contains(
                    WindowEvent::CloseRequested,
                )) by {
                    if rest.contains(WindowEvent::CloseRequested) {
                        let i = choose|i: int| 0 <= i < rest.len() && rest[i] == WindowEvent::CloseRequested;
                        assert(events[i + 1] == WindowEvent::CloseRequested);
                    }
                    if events.contains(WindowEvent::CloseRequested) {
                        let i = choose|i: int| 0 <= i < events.len() && events[i] == WindowEvent::CloseRequested;
                        assert(i > 0);
                        assert(rest[i - 1] == WindowEvent::CloseRequested);
                    }
                }
            },
        }
    }
}

/// Once startup has run, replaying window events never returns a state to
/// `Init` and never holds a handle other than the one that was spawned.
proof fn lemma_replay_keeps_spawned<H>(m: SupervisorModel<H>, spawned: Option<H>, events: Seq<WindowEvent>)
    requires
        m.phase != Phase::Init,
        m.handle is Some ==> m.handle == spawned,
    ensures
        replay(m, events).phase != Phase::Init,
        replay(m, events).handle is Some ==> replay(m, events).handle == spawned,
    decreases events.len(),
{
    if events.len() > 0 {
        lemma_replay_keeps_spawned(step(m, events[0]), spawned, events.drop_first());
    }
}

/// A failed spawn attempt leaves the shell running without a backend: nothing
/// is tracked, and no window events, close requests included, ever hand out a
/// process to terminate.
pub proof fn lemma_failed_spawn_terminates_nothing<H, E>(err: E, events: Seq<WindowEvent>)
    ensures
        spawn_outcome::<H, E>(Err(err)) is None,
        after_startup(spawn_outcome::<H, E>(Err(err))).phase == Phase::NoBackend,
        terminations(after_startup(spawn_outcome::<H, E>(Err(err))), events) == Seq::<H>::empty(),
{
    lemma_nothing_held_nothing_terminated(after_startup(spawn_outcome::<H, E>(Err(err))), events);
}

/// A successful spawn is recorded once: startup tracks exactly the spawned
/// handle and leaves `Init` for good, so startup cannot record a second
/// process, and no later event stores any other handle.
pub proof fn lemma_spawn_recorded_once<H>(h: H, events: Seq<WindowEvent>)
    ensures
        after_startup(Some(h)).phase == Phase::Tracking,
        after_startup(Some(h)).handle == Some(h),
        replay(after_startup(Some(h)), events).phase != Phase::Init,
        replay(after_startup(Some(h)), events).handle is Some ==> replay(
            after_startup(Some(h)),
            events,
        ).handle == Some(h),
{
    lemma_replay_keeps_spawned(after_startup(Some(h)), Some(h), events);
}

/// Handling a close request a second time does nothing: it hands out no
/// process and leaves the state as the first one left it.
pub proof fn lemma_close_idempotent<H>(m: SupervisorModel<H>)
    ensures
        to_terminate(after_close(m), WindowEvent::CloseRequested) is None,
        step(after_close(m), WindowEvent::CloseRequested) == after_close(m),
{
}

/// After a successful spawn, any run of window events that contains a close
/// request hands out the spawned process for termination exactly once.
pub proof fn lemma_spawned_terminated_once<H>(h: H, events: Seq<WindowEvent>)
    requires
        events.contains(WindowEvent::CloseRequested),
    ensures
        terminations(after_startup(Some(h)), events) == seq![h],
{
    lemma_held_terminated_once(after_startup(Some(h)), h, events);
}

} // verus!
