use vstd::prelude::*;

verus! {

/// The two states of the process-wide shutdown signal.
#[derive(Clone, Copy, Debug, PartialEq, Eq, Structural)]
pub enum ShutdownState {
    Running,
    Stopping,
}

/// The state an interrupt leaves behind: stopping, whatever it was before.
pub open spec fn interrupted(s: ShutdownState) -> ShutdownState {
    ShutdownState::Stopping
}

/// Whether an interrupt delivered in state `s` must wake the waiters.
pub open spec fn notifies(s: ShutdownState) -> bool {
    s == ShutdownState::Running
}

/// The cooperative shutdown signal shared by every subsystem and the interrupt
/// handler.
///
/// It starts out running and is monotonic: the only change it admits is the one
/// from running to stopping.
#[derive(Clone, Copy, Debug)]
pub struct ShutdownSignal {
    state: ShutdownState,
}

impl View for ShutdownSignal {
    type V = ShutdownState;

    closed spec fn view(&self) -> ShutdownState {
        self.state
    }
}

impl ShutdownSignal {
    pub fn new() -> (r: ShutdownSignal)
        ensures
            r@ == ShutdownState::Running,
    {
        ShutdownSignal { state: ShutdownState::Running }
    }

    pub fn state(&self) -> (r: ShutdownState)
        ensures
            r == self@,
    {
        self.state
    }

    /// Whether subsystems should keep running; a woken waiter that reads `false`
    /// begins its orderly exit.
    pub fn keep_running(&self) -> (r: bool)
        ensures
            r == (self@ == ShutdownState::Running),
    {
        match self.state {
            ShutdownState::Running => true,
            ShutdownState::Stopping => false,
        }
    }

    /// Delivers an interrupt. Returns whether this delivery made the transition
    /// from running to stopping, that is, whether the waiters must be notified.
    pub fn interrupt(&mut self) -> (notify: bool)
        ensures
            final(self)@ == interrupted(old(self)@),
            notify == notifies(old(self)@),
    {
        let notify = self.keep_running();
        self.state = ShutdownState::Stopping;
        notify
    }
}

/// Interrupts are idempotent: a second one leaves the signal stopping, as the
/// first did, and asks for no second notification.
pub proof fn lemma_interrupt_idempotent(s: ShutdownState)
    ensures
        interrupted(interrupted(s)) == interrupted(s),
        interrupted(s) == ShutdownState::Stopping,
        !notifies(interrupted(s)),
{
}

/// The signal is monotonic: once stopping, any number of further interrupts
/// keeps it stopping.
pub proof fn lemma_stopping_is_final(s: ShutdownState, n: nat)
    requires
        s == ShutdownState::Stopping,
    ensures
        interrupt_times(s, n) == ShutdownState::Stopping,
    decreases n,
{
    if n > 0 {
        lemma_stopping_is_final(interrupted(s), (n - 1) as nat);
    }
}

/// The state after `n` interrupts delivered in state `s`.
pub open spec fn interrupt_times(s: ShutdownState, n: nat) -> ShutdownState
    decreases n,
{
    if n == 0 {
        s
    } else {
        interrupt_times(interrupted(s), (n - 1) as nat)
    }
}

} // verus!
