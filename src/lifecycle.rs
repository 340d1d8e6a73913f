use vstd::prelude::*;

use crate::config::{BackendConfig, Config, ProviderKind, Subsystem};

verus! {

/// Why startup was abandoned before any subsystem was launched.
#[derive(Clone, Copy, Debug, PartialEq, Eq, Structural)]
pub enum StartupError {
    /// The library store could not be constructed.
    Store,
    /// The configured backend is not supported by this build.
    UnsupportedBackend,
    /// The playback backend could not be constructed.
    Backend,
    /// The application state could not be constructed.
    Application,
    /// The interrupt handler could not be registered.
    InterruptHandler,
}

/// Where the process stands in its life.
#[derive(Clone, Copy, Debug, PartialEq, Eq, Structural)]
pub enum Phase {
    /// Setting up the provider at index `next` of the registry.
    SettingUp { next: usize },
    BuildingStore,
    BuildingBackend,
    BuildingApplication,
    InstallingHandler,
    /// Launching the subsystem at index `next` of the launch plan.
    Launching { next: usize },
    /// Waiting for the subsystem handle at index `next` to terminate.
    Joining { next: usize },
    /// Every handle has been joined.
    Finished,
    /// A fatal startup error ended the process.
    Aborted { error: StartupError },
}

/// The outside work the coordinator asks for next.
#[derive(Clone, Copy, Debug, PartialEq, Eq, Structural)]
pub enum Action {
    /// Lock the provider at `index` of the registry and run its setup.
    SetupProvider { index: usize },
    /// Construct the configured library store.
    BuildStore,
    /// Construct the configured playback backend.
    BuildBackend,
    /// Construct the shared application state from store, providers and backend.
    BuildApplication,
    /// Register the interrupt handler that stops the shutdown signal.
    InstallHandler,
    /// Start `subsystem` with shared handles to the application state and the
    /// shutdown signal.
    Launch { subsystem: Subsystem },
    /// Wait for the subsystem handle at `index`, in launch order, to terminate.
    Join { index: usize },
    /// End the process, with the fatal error if there was one.
    Exit { error: Option<StartupError> },
}

/// The coordinator as mathematical values.
pub struct CoordinatorView {
    pub phase: Phase,
    pub providers: Seq<ProviderKind>,
    pub failed: Seq<ProviderKind>,
    pub subsystems: Seq<Subsystem>,
    pub backend: BackendConfig,
    pub crashed: nat,
}

/// The providers of `kinds` whose setup outcome in `oks` is a failure, in order.
pub open spec fn failed_of(kinds: Seq<ProviderKind>, oks: Seq<bool>) -> Seq<ProviderKind>
    decreases oks.len(),
{
    if oks.len() == 0 || kinds.len() == 0 {
        Seq::empty()
    } else {
        let rest = failed_of(kinds.drop_first(), oks.drop_first());
        if oks[0] {
            rest
        } else {
            seq![kinds[0]] + rest
        }
    }
}

/// How many outcomes of `oks` are failures.
pub open spec fn count_failures(oks: Seq<bool>) -> nat
    decreases oks.len(),
{
    if oks.len() == 0 {
        0
    } else {
        (if oks[0] { 0nat } else { 1nat }) + count_failures(oks.drop_first())
    }
}

/// The coordinator at the start of a process run on `config`.
pub open spec fn initial(config: Config) -> CoordinatorView {
    CoordinatorView {
        phase: if config.provider_plan().len() > 0 {
            Phase::SettingUp { next: 0 }
        } else {
            Phase::BuildingStore
        },
        providers: config.provider_plan(),
        failed: Seq::empty(),
        subsystems: config.launch_plan(),
        backend: config.backend,
        crashed: 0,
    }
}

impl CoordinatorView {
    pub open spec fn wf(self) -> bool {
        &&& self.subsystems.len() > 0
        &&& self.subsystems.len() <= usize::MAX
        &&& self.providers.len() <= usize::MAX
        &&& self.failed.len() <= self.providers.len()
        &&& self.crashed <= self.joined()
        &&& match self.phase {
            Phase::SettingUp { next } => next < self.providers.len() && self.failed.len() <= next,
            Phase::Launching { next } => next < self.subsystems.len(),
            Phase::Joining { next } => next < self.subsystems.len(),
            _ => true,
        }
    }

    /// How many subsystem handles exist.
    pub open spec fn launched(self) -> nat {
        match self.phase {
            Phase::Launching { next } => next as nat,
            Phase::Joining { .. } => self.subsystems.len(),
            Phase::Finished => self.subsystems.len(),
            _ => 0,
        }
    }

    /// How many subsystem handles have been joined.
    pub open spec fn joined(self) -> nat {
        match self.phase {
            Phase::Joining { next } => next as nat,
            Phase::Finished => self.subsystems.len(),
            _ => 0,
        }
    }

    /// The phase after the store stands: an unsupported backend ends startup.
    pub open spec fn backend_phase(self) -> Phase {
        if self.backend == BackendConfig::Rodio {
            Phase::Aborted { error: StartupError::UnsupportedBackend }
        } else {
            Phase::BuildingBackend
        }
    }

    pub open spec fn action(self) -> Action {
        match self.phase {
            Phase::SettingUp { next } => Action::SetupProvider { index: next },
            Phase::BuildingStore => Action::BuildStore,
            Phase::BuildingBackend => Action::BuildBackend,
            Phase::BuildingApplication => Action::BuildApplication,
            Phase::InstallingHandler => Action::InstallHandler,
            Phase::Launching { next } => Action::Launch { subsystem: self.subsystems[next as int] },
            Phase::Joining { next } => Action::Join { index: next },
            Phase::Finished => Action::Exit { error: None },
            Phase::Aborted { error } => Action::Exit { error: Some(error) },
        }
    }

    /// The coordinator once the pending action has come back with outcome `ok`.
    ///
    /// A provider's failed setup is recorded and startup goes on; a failed
    /// construction of store, backend, application state or interrupt handler
    /// is fatal; a launch always yields a handle; a crashed subsystem is counted
    /// and the remaining handles are still joined.
    pub open spec fn step(self, ok: bool) -> CoordinatorView {
        match self.phase {
            Phase::SettingUp { next } => CoordinatorView {
                phase: if next + 1 < self.providers.len() {
                    Phase::SettingUp { next: (next + 1) as usize }
                } else {
                    Phase::BuildingStore
                },
                failed: if ok {
                    self.failed
                } else {
                    self.failed.push(self.providers[next as int])
                },
                ..self
            },
            Phase::BuildingStore => CoordinatorView {
                phase: if ok {
                    self.backend_phase()
                } else {
                    Phase::Aborted { error: StartupError::Store }
                },
                ..self
            },
            Phase::BuildingBackend => CoordinatorView {
                phase: if ok {
                    Phase::BuildingApplication
                } else {
                    Phase::Aborted { error: StartupError::Backend }
                },
                ..self
            },
            Phase::BuildingApplication => CoordinatorView {
                phase: if ok {
                    Phase::InstallingHandler
                } else {
                    Phase::Aborted { error: StartupError::Application }
                },
                ..self
            },
            Phase::InstallingHandler => CoordinatorView {
                phase: if ok {
                    Phase::Launching { next: 0 }
                } else {
                    Phase::Aborted { error: StartupError::InterruptHandler }
                },
                ..self
            },
            Phase::Launching { next } => CoordinatorView {
                phase: if next + 1 < self.subsystems.len() {
                    Phase::Launching { next: (next + 1) as usize }
                } else {
                    Phase::Joining { next: 0 }
                },
                ..self
            },
            Phase::Joining { next } => CoordinatorView {
                phase: if next + 1 < self.subsystems.len() {
                    Phase::Joining { next: (next + 1) as usize }
                } else {
                    Phase::Finished
                },
                crashed: if ok {
                    self.crashed
                } else {
                    self.crashed + 1
                },
                ..self
            },
            Phase::Finished => self,
            Phase::Aborted { .. } => self,
        }
    }
}

/// The coordinator after the outcomes `oks` came back, one per action, in order.
pub open spec fn run(c: CoordinatorView, oks: Seq<bool>) -> CoordinatorView
    decreases oks.len(),
{
    if oks.len() == 0 {
        c
    } else {
        run(c.step(oks[0]), oks.drop_first())
    }
}

/// Every step keeps the coordinator well formed.
pub proof fn lemma_step_wf(c: CoordinatorView, ok: bool)
    requires
        c.wf(),
    ensures
        c.step(ok).wf(),
{
}

/// A finished or aborted process stays as it is, whatever comes back after.
pub proof fn lemma_terminal_stays(c: CoordinatorView, oks: Seq<bool>)
    requires
        c.phase is Finished || c.phase is Aborted,
    ensures
        run(c, oks) == c,
    decreases oks.len(),
{
    if oks.len() > 0 {
        lemma_terminal_stays(c.step(oks[0]), oks.drop_first());
    }
}

proof fn lemma_setup_from(c: CoordinatorView, oks: Seq<bool>)
    requires
        c.wf(),
        c.phase is SettingUp,
        oks.len() == c.providers.len() - c.phase->SettingUp_next,
    ensures
        run(c, oks).phase == Phase::BuildingStore,
        run(c, oks).providers == c.providers,
        run(c, oks).subsystems == c.subsystems,
        run(c, oks).backend == c.backend,
        run(c, oks).crashed == c.crashed,
        run(c, oks).failed == c.failed + failed_of(
            c.providers.subrange(c.phase->SettingUp_next as int, c.providers.len() as int),
            oks,
        ),
        run(c, oks).failed.len() == c.failed.len() + count_failures(oks),
    decreases oks.len(),
{
    let next = c.phase->SettingUp_next as int;
    let rest = c.providers.subrange(next, c.providers.len() as int);
    let c1 = c.step(oks[0]);
    assert(rest.drop_first() =~= c.providers.subrange(next + 1, c.providers.len() as int));
    lemma_step_wf(c, oks[0]);
    if next + 1 < c.providers.len() {
        lemma_setup_from(c1, oks.drop_first());
        if !oks[0] {
            assert(c1.failed + failed_of(rest.drop_first(), oks.drop_first()) =~= c.failed + (seq![
                rest[0],
            ] + failed_of(rest.drop_first(), oks.drop_first())));
        } else {
        }
    } else {
        assert(oks.drop_first().len() == 0);
        assert(rest.drop_first().len() == 0);
        assert(failed_of(rest.drop_first(), oks.drop_first()) == Seq::<ProviderKind>::empty());
        assert(count_failures(oks.drop_first()) == 0);
        assert(run(c1, oks.drop_first()) == c1);
        assert(c1.failed =~= c.failed + failed_of(rest, oks));
    }
}

/// With no provider configured the registry is empty and startup goes straight
/// to the store; the application state is then built like any other, and with
/// the default backend and every construction succeeding, launching begins.
pub proof fn lemma_no_providers(config: Config)
    requires
        config.provider_plan().len() == 0,
        config.backend == BackendConfig::GStreamer,
    ensures
        initial(config).providers.len() == 0,
        initial(config).phase == Phase::BuildingStore,
        run(initial(config), seq![true, true, true, true]).phase == (Phase::Launching { next: 0 }),
{
    reveal_with_fuel(run, 5);
    let s = seq![true, true, true, true];
    assert(s.drop_first() =~= seq![true, true, true]);
    assert(s.drop_first().drop_first() =~= seq![true, true]);
    assert(s.drop_first().drop_first().drop_first() =~= seq![true]);
    assert(s.drop_first().drop_first().drop_first().drop_first() =~= Seq::<bool>::empty());
}

/// A provider whose setup fails does not stop startup: once every provider
/// has been set up, whichever of them failed, the registry still holds every
/// configured provider in order, the failures are reported one per failed
/// provider, and the process goes on to build its store.
pub proof fn lemma_provider_failures_isolated(config: Config, oks: Seq<bool>)
    requires
        oks.len() == config.provider_plan().len(),
    ensures
        run(initial(config), oks).phase == Phase::BuildingStore,
        run(initial(config), oks).providers == config.provider_plan(),
        run(initial(config), oks).failed == failed_of(config.provider_plan(), oks),
        run(initial(config), oks).failed.len() == count_failures(oks),
{
    let c = initial(config);
    if oks.len() == 0 {
        assert(run(c, oks) == c);
    } else {
        assert(c.providers.subrange(0, c.providers.len() as int) =~= c.providers);
        assert(c.failed + failed_of(c.providers, oks) =~= failed_of(c.providers, oks));
        lemma_setup_from(c, oks);
    }
}

/// A failed store construction is fatal: whatever comes back afterwards, the
/// process exits with the store error and no subsystem handle is ever created.
pub proof fn lemma_store_failure_aborts(c: CoordinatorView, later: Seq<bool>)
    requires
        c.wf(),
        c.phase == Phase::BuildingStore,
    ensures
        run(c.step(false), later).phase == (Phase::Aborted { error: StartupError::Store }),
        run(c.step(false), later).launched() == 0,
        run(c.step(false), later).action() == (Action::Exit { error: Some(StartupError::Store) }),
{
    lemma_terminal_stays(c.step(false), later);
}

proof fn lemma_join_from(c: CoordinatorView, oks: Seq<bool>)
    requires
        c.wf(),
        c.phase is Joining,
    ensures
        c.phase->Joining_next + oks.len() < c.subsystems.len() ==> run(c, oks).phase == (
        Phase::Joining { next: (c.phase->Joining_next + oks.len()) as usize }),
        c.phase->Joining_next + oks.len() >= c.subsystems.len() ==> run(c, oks).phase
            == Phase::Finished,
        run(c, oks).subsystems == c.subsystems,
    decreases oks.len(),
{
    if oks.len() > 0 {
        let c1 = c.step(oks[0]);
        lemma_step_wf(c, oks[0]);
        if c1.phase is Finished {
            lemma_terminal_stays(c1, oks.drop_first());
        } else {
            lemma_join_from(c1, oks.drop_first());
        }
    }
}

/// The join barrier: once launching is done, every launched handle is joined in
/// launch order whatever its own outcome, and the process finishes exactly when
/// all of them have been joined, never before.
pub proof fn lemma_join_barrier(c: CoordinatorView, oks: Seq<bool>)
    requires
        c.wf(),
        c.phase == (Phase::Joining { next: 0 }),
    ensures
        oks.len() < c.subsystems.len() ==> run(c, oks).phase == (Phase::Joining {
            next: oks.len() as usize,
        }),
        oks.len() < c.subsystems.len() ==> run(c, oks).joined() == oks.len(),
        oks.len() >= c.subsystems.len() ==> run(c, oks).phase == Phase::Finished,
        oks.len() >= c.subsystems.len() ==> run(c, oks).joined() == c.launched(),
{
    lemma_join_from(c, oks);
}

/// The composition root: decides, from the configuration and the outcome of
/// each piece of outside work, what the process does next.
pub struct Coordinator {
    phase: Phase,
    providers: Vec<ProviderKind>,
    failed: Vec<ProviderKind>,
    subsystems: Vec<Subsystem>,
    backend: BackendConfig,
    crashed: usize,
}

impl View for Coordinator {
    type V = CoordinatorView;

    closed spec fn view(&self) -> CoordinatorView {
        CoordinatorView {
            phase: self.phase,
            providers: self.providers@,
            failed: self.failed@,
            subsystems: self.subsystems@,
            backend: self.backend,
            crashed: self.crashed as nat,
        }
    }
}

impl Coordinator {
    /// The coordinator for a process run on `config`: the provider registry in
    /// declaration order, nothing set up yet.
    pub fn new(config: &Config) -> (r: Coordinator)
        ensures
            r@ == initial(*config),
            r@.wf(),
    {
        let providers = config.providers();
        let phase = if providers.len() > 0 {
            Phase::SettingUp { next: 0 }
        } else {
            Phase::BuildingStore
        };
        Coordinator {
            phase,
            providers,
            failed: Vec::new(),
            subsystems: config.subsystems(),
            backend: config.backend,
            crashed: 0,
        }
    }

    pub fn phase(&self) -> (r: Phase)
        ensures
            r == self@.phase,
    {
        self.phase
    }

    /// The outside work to perform next.
    pub fn action(&self) -> (r: Action)
        requires
            self@.wf(),
        ensures
            r == self@.action(),
    {
        match self.phase {
            Phase::SettingUp { next } => Action::SetupProvider { index: next },
            Phase::BuildingStore => Action::BuildStore,
            Phase::BuildingBackend => Action::BuildBackend,
            Phase::BuildingApplication => Action::BuildApplication,
            Phase::InstallingHandler => Action::InstallHandler,
            Phase::Launching { next } => Action::Launch { subsystem: self.subsystems[next] },
            Phase::Joining { next } => Action::Join { index: next },
            Phase::Finished => Action::Exit { error: None },
            Phase::Aborted { error } => Action::Exit { error: Some(error) },
        }
    }

    /// Records that the pending action came back with outcome `ok`.
    pub fn handle(&mut self, ok: bool)
        requires
            old(self)@.wf(),
        ensures
            final(self)@ == old(self)@.step(ok),
            final(self)@.wf(),
    {
        proof {
            lemma_step_wf(self@, ok);
        }
        match self.phase {
            Phase::SettingUp { next } => {
                if !ok {
                    let kind = self.providers[next];
                    self.failed.push(kind);
                }
                if next + 1 < self.providers.len() {
                    self.phase = Phase::SettingUp { next: next + 1 };
                } else {
                    self.phase = Phase::BuildingStore;
                }
            },
            Phase::BuildingStore => {
                if !ok {
                    self.phase = Phase::Aborted { error: StartupError::Store };
                } else if self.backend == BackendConfig::Rodio {
                    self.phase = Phase::Aborted { error: StartupError::UnsupportedBackend };
                } else {
                    self.phase = Phase::BuildingBackend;
                }
            },
            Phase::BuildingBackend => {
                self.phase = if ok {
                    Phase::BuildingApplication
                } else {
                    Phase::Aborted { error: StartupError::Backend }
                };
            },
            Phase::BuildingApplication => {
                self.phase = if ok {
                    Phase::InstallingHandler
                } else {
                    Phase::Aborted { error: StartupError::Application }
                };
            },
            Phase::InstallingHandler => {
                self.phase = if ok {
                    Phase::Launching { next: 0 }
                } else {
                    Phase::Aborted { error: StartupError::InterruptHandler }
                };
            },
            Phase::Launching { next } => {
                if next + 1 < self.subsystems.len() {
                    self.phase = Phase::Launching { next: next + 1 };
                } else {
                    self.phase = Phase::Joining { next: 0 };
                }
            },
            Phase::Joining { next } => {
                if !ok {
                    self.crashed = self.crashed + 1;
                }
                if next + 1 < self.subsystems.len() {
                    self.phase = Phase::Joining { next: next + 1 };
                } else {
                    self.phase = Phase::Finished;
                }
            },
            Phase::Finished => {},
            Phase::Aborted { .. } => {},
        }
    }

    /// The providers whose setup failed, in registry order.
    pub fn failed_providers(&self) -> (r: &Vec<ProviderKind>)
        ensures
            r@ == self@.failed,
    {
        &self.failed
    }

    /// The provider registry, in registration order.
    pub fn providers(&self) -> (r: &Vec<ProviderKind>)
        ensures
            r@ == self@.providers,
    {
        &self.providers
    }

    /// The launch plan, in launch order.
    pub fn subsystems(&self) -> (r: &Vec<Subsystem>)
        ensures
            r@ == self@.subsystems,
    {
        &self.subsystems
    }

    /// How many joined subsystems ended in failure.
    pub fn crashed(&self) -> (r: usize)
        ensures
            r == self@.crashed,
    {
        self.crashed
    }

    /// How many subsystem handles exist.
    pub fn launched(&self) -> (r: usize)
        requires
            self@.wf(),
        ensures
            r == self@.launched(),
    {
        match self.phase {
            Phase::Launching { next } => next,
            Phase::Joining { .. } => self.subsystems.len(),
            Phase::Finished => self.subsystems.len(),
            _ => 0,
        }
    }
}

} // verus!
