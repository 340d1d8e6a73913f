use vstd::prelude::*;

verus! {

/// Which library store the process runs on.
#[derive(Clone, Debug, PartialEq, Eq)]
pub enum LibraryConfig {
    /// An in-memory store, fresh on every start.
    Memory,
    /// A store kept in the SQLite file at `path`.
    SQLite { path: String },
}

/// Which playback backend the process runs on.
#[derive(Clone, Copy, Debug, PartialEq, Eq, Structural)]
pub enum BackendConfig {
    GStreamer,
    Rodio,
}

impl Default for BackendConfig {
    fn default() -> (r: BackendConfig)
        ensures
            r == BackendConfig::GStreamer,
    {
        BackendConfig::GStreamer
    }
}

/// The content providers this core knows, in the order they are registered.
#[derive(Clone, Copy, Debug, PartialEq, Eq, Structural)]
pub enum ProviderKind {
    Pocketcasts,
    Soundcloud,
    Spotify,
    Local,
}

impl ProviderKind {
    pub open spec fn spec_title(self) -> Seq<char> {
        match self {
            ProviderKind::Pocketcasts => "Pocketcasts"@,
            ProviderKind::Soundcloud => "Soundcloud"@,
            ProviderKind::Spotify => "Spotify"@,
            ProviderKind::Local => "Local"@,
        }
    }

    /// The provider's display title, used when its setup failure is reported.
    pub fn title(&self) -> (r: &'static str)
        ensures
            r@ == self.spec_title(),
    {
        match self {
            ProviderKind::Pocketcasts => "Pocketcasts",
            ProviderKind::Soundcloud => "Soundcloud",
            ProviderKind::Spotify => "Spotify",
            ProviderKind::Local => "Local",
        }
    }
}

/// The units of work launched once the application state stands, in launch order.
#[derive(Clone, Copy, Debug, PartialEq, Eq, Structural)]
pub enum Subsystem {
    Sync,
    Cache,
    Mpd,
    Http,
}

/// The process configuration.
///
/// Each frontend and provider section is present or absent; its content is the
/// section's own settings, handed on untouched to the collaborator that reads it.
#[derive(Clone, Debug, Default)]
pub struct Config {
    pub mpd: Option<String>,
    pub http: Option<String>,
    pub pocketcasts: Option<String>,
    pub soundcloud: Option<String>,
    pub spotify: Option<String>,
    pub local: Option<String>,
    pub library: Option<LibraryConfig>,
    pub backend: BackendConfig,
}

/// `s` when `present`, nothing otherwise.
pub open spec fn present_if<T>(present: bool, s: Seq<T>) -> Seq<T> {
    if present {
        s
    } else {
        Seq::empty()
    }
}

impl Config {
    /// The enabled providers, in declaration order.
    pub open spec fn provider_plan(&self) -> Seq<ProviderKind> {
        present_if(self.pocketcasts is Some, seq![ProviderKind::Pocketcasts])
            + present_if(self.soundcloud is Some, seq![ProviderKind::Soundcloud])
            + present_if(self.spotify is Some, seq![ProviderKind::Spotify])
            + present_if(self.local is Some, seq![ProviderKind::Local])
    }

    /// The subsystems to launch: the sync and cache engines, then each
    /// configured frontend.
    pub open spec fn launch_plan(&self) -> Seq<Subsystem> {
        seq![Subsystem::Sync, Subsystem::Cache]
            + present_if(self.mpd is Some, seq![Subsystem::Mpd])
            + present_if(self.http is Some, seq![Subsystem::Http])
    }

    /// The selected store: the configured one, or the in-memory store.
    pub open spec fn store_plan(&self) -> LibraryConfig {
        match self.library {
            Some(l) => l,
            None => LibraryConfig::Memory,
        }
    }

    /// The enabled providers, in the order they are registered.
    pub fn providers(&self) -> (r: Vec<ProviderKind>)
        ensures
            r@ == self.provider_plan(),
    {
        let mut r: Vec<ProviderKind> = Vec::new();
        if self.pocketcasts.is_some() {
            r.push(ProviderKind::Pocketcasts);
        }
        if self.soundcloud.is_some() {
            r.push(ProviderKind::Soundcloud);
        }
        if self.spotify.is_some() {
            r.push(ProviderKind::Spotify);
        }
        if self.local.is_some() {
            r.push(ProviderKind::Local);
        }
        assert(r@ =~= self.provider_plan());
        r
    }

    /// The subsystems to launch, in launch order.
    pub fn subsystems(&self) -> (r: Vec<Subsystem>)
        ensures
            r@ == self.launch_plan(),
    {
        let mut r: Vec<Subsystem> = vec![Subsystem::Sync, Subsystem::Cache];
        if self.mpd.is_some() {
            r.push(Subsystem::Mpd);
        }
        if self.http.is_some() {
            r.push(Subsystem::Http);
        }
        assert(r@ =~= self.launch_plan());
        r
    }

    /// The store to construct: the configured one, the in-memory store when
    /// none is configured.
    pub fn store(&self) -> (r: LibraryConfig)
        ensures
            r == self.store_plan(),
    {
        match &self.library {
            Some(LibraryConfig::SQLite { path }) => LibraryConfig::SQLite { path: path.clone() },
            _ => LibraryConfig::Memory,
        }
    }
}

} // verus!
