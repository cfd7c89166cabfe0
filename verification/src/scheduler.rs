//! The scheduler state machine.
//!
//! The binary's event loop multiplexes three sources — a fixed ten-second
//! liveness timer, the configurable capture timer, and the cancellation
//! signal — and hands each occurrence to the machine, which answers with
//! the one action to perform. The machine also accounts for the
//! accessibility subsystem's lifecycle: `inits` counts its acquisitions,
//! `releases` its teardowns, and the invariant pins the release to exactly
//! one per acquisition, whichever exit path is taken — liveness failure,
//! cancellation, or the pre-flight check that never acquires at all.

use vstd::prelude::*;

verus! {

/// Lifecycle phase of the process.
#[derive(Clone, Copy, Debug, PartialEq, Eq, Structural)]
pub enum State {
    /// Before the pre-flight check; nothing acquired.
    Idle,
    /// The event loop is live and ticks are being processed.
    Running,
    /// An exit was requested; one best-effort final snapshot is owed.
    ShuttingDown,
    /// The process is done; no event is processed any more.
    Terminated,
}

/// One occurrence the event loop observed.
#[derive(Clone, Copy, Debug, PartialEq, Eq, Structural)]
pub enum Event {
    /// The ten-second liveness timer fired; carries whether the target
    /// application's window still exists.
    LivenessTick { target_running: bool },
    /// The capture timer fired.
    CaptureTick,
    /// The external cancellation signal fired.
    Cancel,
}

/// What the binary must do next.
#[derive(Clone, Copy, Debug, PartialEq, Eq, Structural)]
pub enum Action {
    /// Nothing this cycle; keep waiting.
    Continue,
    /// Acquire the accessibility subsystem and construct the engine.
    InitializeEngine,
    /// Pre-flight failed: exit cleanly, nothing was acquired, no file is
    /// touched.
    ExitWithoutEngine,
    /// Perform one capture-and-persist cycle.
    Snapshot,
    /// Perform the one best-effort final capture before exit.
    FinalSnapshot,
    /// Release the accessibility subsystem; issued exactly once.
    ReleaseProbe,
}

/// The scheduler's state together with the accessibility subsystem's
/// lifecycle accounting.
#[derive(Clone, Copy, Debug, PartialEq, Eq, Structural)]
pub struct Machine {
    /// Current lifecycle phase.
    pub state: State,
    /// How often the accessibility subsystem has been acquired.
    pub inits: u32,
    /// How often its release has been issued.
    pub releases: u32,
}

impl Machine {
    /// Holds in every machine the transition methods can produce: the
    /// subsystem is acquired at most once, released at most as often as
    /// acquired, held exactly while the loop lives, and fully released
    /// once terminated.
    pub open spec fn inv(self) -> bool {
        &&& self.inits <= 1
        &&& self.releases <= self.inits
        &&& self.state is Idle ==> self.inits == 0 && self.releases == 0
        &&& self.state is Running ==> self.inits == 1 && self.releases == 0
        &&& self.state is ShuttingDown ==> self.inits == 1 && self.releases == 0
        &&& self.state is Terminated ==> self.releases == self.inits
    }

    /// A machine before the pre-flight check.
    pub fn new() -> (m: Machine)
        ensures
            m.inv(),
            m.state is Idle,
            m.inits == 0,
            m.releases == 0,
    {
        Machine { state: State::Idle, inits: 0, releases: 0 }
    }

    /// The pre-flight check's outcome: with the target application running
    /// the subsystem is acquired and the loop starts; without it the
    /// process terminates at once, having acquired nothing and owing no
    /// snapshot and no release.
    pub fn preflight(&mut self, target_running: bool) -> (a: Action)
        requires
            old(self).inv(),
            old(self).state is Idle,
        ensures
            final(self).inv(),
            final(self).releases == 0,
            target_running ==> final(self).state is Running && final(self).inits == 1
                && a == Action::InitializeEngine,
            !target_running ==> final(self).state is Terminated && final(self).inits == 0
                && a == Action::ExitWithoutEngine,
    {
        if target_running {
            self.state = State::Running;
            self.inits = 1;
            Action::InitializeEngine
        } else {
            self.state = State::Terminated;
            Action::ExitWithoutEngine
        }
    }

    /// One event through the machine: how the state moves.
    pub open spec fn step_state(self, ev: Event) -> Machine {
        if self.state is Running && (ev matches Event::LivenessTick { target_running }
            && !target_running || ev is Cancel) {
            Machine { state: State::ShuttingDown, ..self }
        } else {
            self
        }
    }

    /// One event through the machine: which action it demands.
    pub open spec fn step_action(self, ev: Event) -> Action {
        if self.state is Running {
            match ev {
                Event::LivenessTick { target_running } => if target_running {
                    Action::Continue
                } else {
                    Action::FinalSnapshot
                },
                Event::CaptureTick => Action::Snapshot,
                Event::Cancel => Action::FinalSnapshot,
            }
        } else {
            Action::Continue
        }
    }

    /// Processes one observed event. While running: a liveness tick with
    /// the target alive does nothing, a capture tick demands a snapshot,
    /// and a dead target or a cancellation begins the shutdown with the
    /// one final snapshot. In any other phase events are ignored — in
    /// particular, no tick is processed after shutdown has begun.
    pub fn step(&mut self, ev: Event) -> (a: Action)
        requires
            old(self).inv(),
        ensures
            final(self).inv(),
            *final(self) == old(self).step_state(ev),
            a == old(self).step_action(ev),
            final(self).inits == old(self).inits,
            final(self).releases == old(self).releases,
    {
        match self.state {
            State::Running => match ev {
                Event::LivenessTick { target_running } => {
                    if target_running {
                        Action::Continue
                    } else {
                        self.state = State::ShuttingDown;
                        Action::FinalSnapshot
                    }
                },
                Event::CaptureTick => Action::Snapshot,
                Event::Cancel => {
                    self.state = State::ShuttingDown;
                    Action::FinalSnapshot
                },
            },
            _ => Action::Continue,
        }
    }

    /// Ends the shutdown after the final snapshot was attempted: the
    /// machine terminates and the one release of the accessibility
    /// subsystem is issued.
    pub fn complete_shutdown(&mut self) -> (a: Action)
        requires
            old(self).inv(),
            old(self).state is ShuttingDown,
        ensures
            final(self).inv(),
            final(self).state is Terminated,
            final(self).inits == 1,
            final(self).releases == 1,
            a == Action::ReleaseProbe,
    {
        self.state = State::Terminated;
        self.releases = 1;
        Action::ReleaseProbe
    }
}

/// The machine after a whole sequence of observed events.
pub open spec fn run_events(m: Machine, evs: Seq<Event>) -> Machine
    decreases evs.len(),
{
    if evs.len() == 0 {
        m
    } else {
        run_events(m.step_state(evs[0]), evs.subrange(1, evs.len() as int))
    }
}

/// Event handling alone never touches the subsystem's lifecycle: across
/// any sequence of observed events the invariant is preserved and the
/// acquisition and release counts are unchanged. A release can come only
/// from the single shutdown-completion transition.
pub proof fn lemma_events_never_release(m: Machine, evs: Seq<Event>)
    requires
        m.inv(),
    ensures
        run_events(m, evs).inv(),
        run_events(m, evs).inits == m.inits,
        run_events(m, evs).releases == m.releases,
    decreases evs.len(),
{
    if evs.len() > 0 {
        lemma_events_never_release(m.step_state(evs[0]), evs.subrange(1, evs.len() as int));
    }
}

/// Single teardown: in every machine the transition methods can reach, the
/// accessibility subsystem's release has been issued at most once, and a
/// terminated machine has released it exactly as often as it acquired it —
/// once on the liveness and cancellation paths, never on the pre-flight
/// path, which acquires nothing.
pub proof fn lemma_single_teardown(m: Machine)
    requires
        m.inv(),
    ensures
        m.releases <= 1,
        m.state is Terminated ==> m.releases == m.inits,
{
}

} // verus!
