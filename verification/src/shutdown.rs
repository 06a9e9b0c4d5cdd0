//! The shutdown coordinator: one trigger that every connection observes, and
//! a barrier that opens when the last registered operation has left.

use vstd::prelude::*;

verus! {

/// Where a shutdown stands.
#[derive(Clone, Copy, PartialEq, Eq, Structural, Debug)]
pub enum ShutdownState {
    /// No shutdown was asked for.
    Running,
    /// The trigger has fired; registered operations are leaving.
    ShuttingDown,
    /// The trigger has fired and no registered operation is left.
    Drained,
}

/// The mathematical value of a [`ShutdownCoordinator`].
pub ghost struct ShutdownView {
    pub state: ShutdownState,
    /// The operations that were registered and have not left yet.
    pub active: nat,
}

pub struct ShutdownCoordinator {
    state: ShutdownState,
    active: u64,
}

impl View for ShutdownCoordinator {
    type V = ShutdownView;

    closed spec fn view(&self) -> ShutdownView {
        ShutdownView { state: self.state, active: self.active as nat }
    }
}

/// The barrier is open only when nothing is registered.
pub open spec fn spec_shutdown_consistent(s: ShutdownView) -> bool {
    s.state == ShutdownState::Drained ==> s.active == 0
}

/// Whether a new operation is admitted: only while running.
pub open spec fn spec_admits(s: ShutdownView) -> bool {
    s.state == ShutdownState::Running && s.active < u64::MAX
}

pub open spec fn spec_register(s: ShutdownView) -> ShutdownView {
    if spec_admits(s) {
        ShutdownView { state: s.state, active: s.active + 1 }
    } else {
        s
    }
}

/// The trigger: a running coordinator starts to shut down; fired again, it
/// changes nothing.
pub open spec fn spec_trigger(s: ShutdownView) -> ShutdownView {
    if s.state == ShutdownState::Running {
        ShutdownView { state: ShutdownState::ShuttingDown, active: s.active }
    } else {
        s
    }
}

/// One registered operation has left.
pub open spec fn spec_complete(s: ShutdownView) -> ShutdownView {
    if s.active > 0 {
        ShutdownView { state: s.state, active: (s.active - 1) as nat }
    } else {
        s
    }
}

/// The barrier: a shutdown with nothing left to wait for is drained.
pub open spec fn spec_settle(s: ShutdownView) -> ShutdownView {
    if s.state == ShutdownState::ShuttingDown && s.active == 0 {
        ShutdownView { state: ShutdownState::Drained, active: 0 }
    } else {
        s
    }
}

impl ShutdownCoordinator {
    /// A coordinator that runs, with nothing registered.
    pub fn new() -> (res: ShutdownCoordinator)
        ensures
            res@ == (ShutdownView { state: ShutdownState::Running, active: 0 }),
    {
        ShutdownCoordinator { state: ShutdownState::Running, active: 0 }
    }

    pub fn state(&self) -> (res: ShutdownState)
        ensures
            res == self@.state,
    {
        self.state
    }

    /// The number of registered operations that have not left.
    pub fn active(&self) -> (res: u64)
        ensures
            res == self@.active,
    {
        self.active
    }

    /// Whether the trigger has fired.
    pub fn shutdown_started(&self) -> (res: bool)
        ensures
            res == (self@.state != ShutdownState::Running),
    {
        match self.state {
            ShutdownState::Running => false,
            _ => true,
        }
    }

    /// Registers an operation that the barrier will wait for. After the
    /// trigger nothing is registered any more.
    pub fn register(&mut self) -> (res: bool)
        ensures
            res == spec_admits(old(self)@),
            final(self)@ == spec_register(old(self)@),
    {
        match self.state {
            ShutdownState::Running => {
                if self.active < u64::MAX {
                    self.active = self.active + 1;
                    true
                } else {
                    false
                }
            },
            _ => false,
        }
    }

    /// Fires the trigger. Returns whether this call was the one that started
    /// the shutdown.
    pub fn shutdown(&mut self) -> (res: bool)
        ensures
            res == (old(self)@.state == ShutdownState::Running),
            final(self)@ == spec_trigger(old(self)@),
    {
        match self.state {
            ShutdownState::Running => {
                self.state = ShutdownState::ShuttingDown;
                true
            },
            _ => false,
        }
    }

    /// Records that a registered operation has left.
    pub fn complete(&mut self)
        ensures
            final(self)@ == spec_complete(old(self)@),
    {
        if self.active > 0 {
            self.active = self.active - 1;
        }
    }

    /// Asks the barrier. It opens, and stays open, once the trigger has fired
    /// and every registered operation has left.
    pub fn wait_shutdown_complete(&mut self) -> (res: bool)
        ensures
            final(self)@ == spec_settle(old(self)@),
            res == (final(self)@.state == ShutdownState::Drained),
    {
        match self.state {
            ShutdownState::Running => false,
            ShutdownState::ShuttingDown => {
                if self.active == 0 {
                    self.state = ShutdownState::Drained;
                    true
                } else {
                    false
                }
            },
            ShutdownState::Drained => true,
        }
    }
}

/// One step that a coordinator can take.
pub enum ShutdownStep {
    Register,
    Trigger,
    Complete,
    Settle,
}

pub open spec fn spec_shutdown_step(s: ShutdownView, step: ShutdownStep) -> ShutdownView {
    match step {
        ShutdownStep::Register => spec_register(s),
        ShutdownStep::Trigger => spec_trigger(s),
        ShutdownStep::Complete => spec_complete(s),
        ShutdownStep::Settle => spec_settle(s),
    }
}

/// The coordinator after a run of steps.
pub open spec fn spec_shutdown_run(s: ShutdownView, steps: Seq<ShutdownStep>) -> ShutdownView
    decreases steps.len(),
{
    if steps.len() == 0 {
        s
    } else {
        spec_shutdown_step(spec_shutdown_run(s, steps.drop_last()), steps.last())
    }
}

/// Once the trigger has fired, whatever steps follow, nothing more is
/// admitted, the number of registered operations never grows, and the
/// barrier is open only when none of them is left.
pub proof fn lemma_shutdown_is_final(s: ShutdownView, steps: Seq<ShutdownStep>)
    requires
        s.state != ShutdownState::Running,
        spec_shutdown_consistent(s),
    ensures
        spec_shutdown_run(s, steps).state != ShutdownState::Running,
        !spec_admits(spec_shutdown_run(s, steps)),
        spec_shutdown_run(s, steps).active <= s.active,
        spec_shutdown_consistent(spec_shutdown_run(s, steps)),
    decreases steps.len(),
{
    if steps.len() > 0 {
        lemma_shutdown_is_final(s, steps.drop_last());
    }
}

/// Every run of steps from a consistent coordinator leaves it consistent:
/// the barrier never opens while a registered operation is left.
pub proof fn lemma_shutdown_consistent(s: ShutdownView, steps: Seq<ShutdownStep>)
    requires
        spec_shutdown_consistent(s),
    ensures
        spec_shutdown_consistent(spec_shutdown_run(s, steps)),
    decreases steps.len(),
{
    if steps.len() > 0 {
        lemma_shutdown_consistent(s, steps.drop_last());
    }
}

} // verus!
