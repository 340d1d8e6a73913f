use rustic::config::{BackendConfig, Config, LibraryConfig, ProviderKind, Subsystem};
use rustic::lifecycle::{Action, Coordinator, Phase, StartupError};
use rustic::shutdown::{ShutdownSignal, ShutdownState};

fn empty_config() -> Config {
    Config {
        mpd: None,
        http: None,
        pocketcasts: None,
        soundcloud: None,
        spotify: None,
        local: None,
        library: None,
        backend: BackendConfig::default(),
    }
}

/// Runs the coordinator to its exit, answering each action with `outcome`,
/// and returns the actions it asked for.
fn drive(c: &mut Coordinator, outcome: &dyn Fn(&Action) -> bool) -> Vec<Action> {
    let mut actions = Vec::new();
    loop {
        let a = c.action();
        actions.push(a);
        if let Action::Exit { .. } = a {
            return actions;
        }
        c.handle(outcome(&a));
    }
}

fn launches(actions: &[Action]) -> Vec<Subsystem> {
    actions
        .iter()
        .filter_map(|a| match a {
            Action::Launch { subsystem } => Some(*subsystem),
            _ => None,
        })
        .collect()
}

#[test]
fn backend_defaults_to_gstreamer() {
    assert_eq!(BackendConfig::default(), BackendConfig::GStreamer);
}

#[test]
fn store_defaults_to_memory() {
    assert_eq!(empty_config().store(), LibraryConfig::Memory);
    let mut config = empty_config();
    config.library = Some(LibraryConfig::SQLite { path: "music.db".to_string() });
    assert_eq!(config.store(), LibraryConfig::SQLite { path: "music.db".to_string() });
}

#[test]
fn providers_keep_declaration_order() {
    let mut config = empty_config();
    config.local = Some(String::new());
    config.pocketcasts = Some(String::new());
    config.spotify = Some(String::new());
    assert_eq!(
        config.providers(),
        vec![ProviderKind::Pocketcasts, ProviderKind::Spotify, ProviderKind::Local]
    );
}

#[test]
fn launch_plan_has_engines_then_frontends() {
    assert_eq!(empty_config().subsystems(), vec![Subsystem::Sync, Subsystem::Cache]);
    let mut config = empty_config();
    config.http = Some(String::new());
    config.mpd = Some(String::new());
    assert_eq!(
        config.subsystems(),
        vec![Subsystem::Sync, Subsystem::Cache, Subsystem::Mpd, Subsystem::Http]
    );
}

#[test]
fn provider_titles() {
    assert_eq!(ProviderKind::Pocketcasts.title(), "Pocketcasts");
    assert_eq!(ProviderKind::Soundcloud.title(), "Soundcloud");
    assert_eq!(ProviderKind::Spotify.title(), "Spotify");
    assert_eq!(ProviderKind::Local.title(), "Local");
}

#[test]
fn no_providers_goes_straight_to_store() {
    let c = Coordinator::new(&empty_config());
    assert!(c.providers().is_empty());
    assert_eq!(c.phase(), Phase::BuildingStore);
    assert_eq!(c.action(), Action::BuildStore);
}

#[test]
fn scenario_memory_store_no_providers_no_frontends() {
    let mut config = empty_config();
    config.library = Some(LibraryConfig::Memory);
    let mut c = Coordinator::new(&config);
    let actions = drive(&mut c, &|_| true);
    assert_eq!(
        actions,
        vec![
            Action::BuildStore,
            Action::BuildBackend,
            Action::BuildApplication,
            Action::InstallHandler,
            Action::Launch { subsystem: Subsystem::Sync },
            Action::Launch { subsystem: Subsystem::Cache },
            Action::Join { index: 0 },
            Action::Join { index: 1 },
            Action::Exit { error: None },
        ]
    );
    assert_eq!(c.phase(), Phase::Finished);
    assert_eq!(c.launched(), 2);
    assert_eq!(c.crashed(), 0);
}

#[test]
fn scenario_one_failing_provider_still_launches() {
    let mut config = empty_config();
    config.soundcloud = Some(String::new());
    let mut c = Coordinator::new(&config);
    let actions = drive(&mut c, &|a| !matches!(a, Action::SetupProvider { .. }));
    assert_eq!(actions[0], Action::SetupProvider { index: 0 });
    assert_eq!(c.failed_providers(), &vec![ProviderKind::Soundcloud]);
    assert_eq!(c.providers(), &vec![ProviderKind::Soundcloud]);
    assert_eq!(launches(&actions), vec![Subsystem::Sync, Subsystem::Cache]);
    assert_eq!(*actions.last().unwrap(), Action::Exit { error: None });
}

#[test]
fn scenario_sqlite_store_failure_aborts_before_launch() {
    let mut config = empty_config();
    config.library = Some(LibraryConfig::SQLite { path: "/nonexistent/dir/x.db".to_string() });
    let mut c = Coordinator::new(&config);
    let actions = drive(&mut c, &|a| *a != Action::BuildStore);
    assert_eq!(
        actions,
        vec![Action::BuildStore, Action::Exit { error: Some(StartupError::Store) }]
    );
    assert_eq!(c.launched(), 0);
    assert!(launches(&actions).is_empty());
    assert!(!actions.iter().any(|a| matches!(a, Action::Join { .. })));
}

#[test]
fn some_provider_failures_are_counted_and_registry_kept() {
    let mut config = empty_config();
    config.pocketcasts = Some(String::new());
    config.soundcloud = Some(String::new());
    config.spotify = Some(String::new());
    config.local = Some(String::new());
    let mut c = Coordinator::new(&config);
    for ok in [true, false, true, false] {
        c.handle(ok);
    }
    assert_eq!(c.phase(), Phase::BuildingStore);
    assert_eq!(c.providers().len(), 4);
    assert_eq!(c.failed_providers(), &vec![ProviderKind::Soundcloud, ProviderKind::Local]);
}

#[test]
fn every_provider_failing_still_reaches_launch() {
    let mut config = empty_config();
    config.pocketcasts = Some(String::new());
    config.spotify = Some(String::new());
    let mut c = Coordinator::new(&config);
    let actions = drive(&mut c, &|a| !matches!(a, Action::SetupProvider { .. }));
    assert_eq!(c.failed_providers().len(), 2);
    assert_eq!(c.providers().len(), 2);
    assert_eq!(launches(&actions).len(), 2);
}

#[test]
fn unsupported_backend_is_fatal() {
    let mut config = empty_config();
    config.backend = BackendConfig::Rodio;
    let mut c = Coordinator::new(&config);
    let actions = drive(&mut c, &|_| true);
    assert_eq!(
        actions,
        vec![Action::BuildStore, Action::Exit { error: Some(StartupError::UnsupportedBackend) }]
    );
}

#[test]
fn backend_failure_is_fatal() {
    let mut c = Coordinator::new(&empty_config());
    let actions = drive(&mut c, &|a| *a != Action::BuildBackend);
    assert_eq!(*actions.last().unwrap(), Action::Exit { error: Some(StartupError::Backend) });
    assert_eq!(c.launched(), 0);
}

#[test]
fn application_failure_is_fatal() {
    let mut c = Coordinator::new(&empty_config());
    let actions = drive(&mut c, &|a| *a != Action::BuildApplication);
    assert_eq!(*actions.last().unwrap(), Action::Exit { error: Some(StartupError::Application) });
    assert!(launches(&actions).is_empty());
}

#[test]
fn handler_failure_is_fatal() {
    let mut c = Coordinator::new(&empty_config());
    let actions = drive(&mut c, &|a| *a != Action::InstallHandler);
    assert_eq!(
        *actions.last().unwrap(),
        Action::Exit { error: Some(StartupError::InterruptHandler) }
    );
    assert!(launches(&actions).is_empty());
}

#[test]
fn join_barrier_waits_for_every_handle_and_masks_crashes() {
    let mut config = empty_config();
    config.mpd = Some(String::new());
    config.http = Some(String::new());
    let mut c = Coordinator::new(&config);
    for _ in 0..8 {
        c.handle(true);
    }
    assert_eq!(c.phase(), Phase::Joining { next: 0 });
    assert_eq!(c.launched(), 4);
    c.handle(false);
    c.handle(true);
    c.handle(false);
    assert_eq!(c.phase(), Phase::Joining { next: 3 });
    assert_eq!(c.action(), Action::Join { index: 3 });
    c.handle(true);
    assert_eq!(c.phase(), Phase::Finished);
    assert_eq!(c.crashed(), 2);
    assert_eq!(c.action(), Action::Exit { error: None });
}

#[test]
fn finished_and_aborted_stay_put() {
    let mut c = Coordinator::new(&empty_config());
    c.handle(false);
    c.handle(true);
    c.handle(true);
    assert_eq!(c.phase(), Phase::Aborted { error: StartupError::Store });
    let mut d = Coordinator::new(&empty_config());
    drive(&mut d, &|_| true);
    d.handle(false);
    assert_eq!(d.phase(), Phase::Finished);
    assert_eq!(d.crashed(), 0);
}

#[test]
fn shutdown_signal_starts_running() {
    let s = ShutdownSignal::new();
    assert!(s.keep_running());
    assert_eq!(s.state(), ShutdownState::Running);
}

#[test]
fn second_interrupt_has_no_further_effect() {
    let mut s = ShutdownSignal::new();
    assert!(s.interrupt());
    assert!(!s.keep_running());
    assert!(!s.interrupt());
    assert!(!s.keep_running());
    assert_eq!(s.state(), ShutdownState::Stopping);
}
