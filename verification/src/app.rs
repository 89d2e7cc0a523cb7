//! The coordinator: it owns the mapping and the session, starts and stops the
//! worker, and keeps the status line.
//!
//! The coordinator does no input or output. Whoever drives it shows the
//! dialogs, reads and writes the files and runs the worker's thread, and tells
//! the coordinator what came of it.

use vstd::prelude::*;
use vstd::string::StringExecFns;
use crate::config::load_config;
use crate::config::load_result;
use crate::config::render_config;
use crate::config::config_text;
use crate::errors::ConfigError;
use crate::errors::ConfigFailure;
use crate::errors::SessionError;
use crate::keys::get_valid_keys;
use crate::keys::valid_key_names;
use crate::mapping::KeyMapping;
use crate::pointer::recalled_path;
use crate::session::RunFlag;
use crate::session::SessionPhase;
use crate::session::WorkerLaunch;
use crate::shared::SharedSession;
use crate::state::AppState;
use crate::state::Tab;
use crate::views::names_text;
use crate::views::path_text;
use crate::views::read_text;
use crate::views::written_text;

verus! {

/// What a coordinator holds, as plain values.
pub struct AppModel {
    /// The session record as the coordinator last set it.
    pub state: AppState,
    pub key_mappings: Map<u8, Seq<char>>,
    pub session: SessionPhase,
    /// Whether the worker's flag says "go on".
    pub running: bool,
    pub current_tab: Tab,
    pub status_message: Seq<char>,
    pub config_dir: Seq<char>,
    pub loaded_config_path: Option<Seq<char>>,
    pub valid_keys: Seq<Seq<char>>,
}

impl AppModel {
    /// The coordinator at startup with a session record that says "inactive":
    /// no mapping, no worker, no file loaded.
    pub open spec fn initial(config_dir: Seq<char>) -> AppModel {
        AppModel {
            state: AppState { remapping_enabled: false },
            key_mappings: Map::empty(),
            session: SessionPhase::Idle,
            running: false,
            current_tab: Tab::KeyMappings,
            status_message: "Ready - No config loaded (will use default)"@,
            config_dir: config_dir,
            loaded_config_path: None,
            valid_keys: valid_key_names(),
        }
    }

    /// Whether the coordinator has a worker out.
    pub open spec fn is_active(self) -> bool {
        self.session != SessionPhase::Idle
    }

    /// Whether the session record says "active", and the worker's flag "go
    /// on", only while a worker is out.
    pub open spec fn coherent(self) -> bool {
        &&& self.state.remapping_enabled ==> self.is_active()
        &&& self.running ==> self.is_active()
    }

    /// What a request to start is answered with.
    pub open spec fn start_outcome(self) -> Result<(), SessionError> {
        if self.is_active() {
            Err(SessionError::AlreadyRunning)
        } else {
            Ok(())
        }
    }

    /// The coordinator after a request to start.
    pub open spec fn started(self) -> AppModel {
        if self.is_active() {
            AppModel { status_message: SessionError::AlreadyRunning.message_text(), ..self }
        } else {
            AppModel {
                state: AppState { remapping_enabled: true },
                session: SessionPhase::Running,
                running: true,
                status_message: "Remapping started"@,
                ..self
            }
        }
    }

    /// What a request to stop is answered with.
    pub open spec fn stop_outcome(self) -> Result<(), SessionError> {
        if self.is_active() {
            Ok(())
        } else {
            Err(SessionError::NotRunning)
        }
    }

    /// The coordinator after a request to stop.
    pub open spec fn stopped(self) -> AppModel {
        if self.is_active() {
            AppModel {
                state: AppState { remapping_enabled: false },
                session: SessionPhase::Idle,
                running: false,
                status_message: "Stopping... (press any Naga button to complete)"@,
                ..self
            }
        } else {
            AppModel { status_message: SessionError::NotRunning.message_text(), ..self }
        }
    }

    /// The coordinator after an attempt to load the file at `path`, where
    /// reading the file gave `read`. A load that fails changes the status line
    /// and nothing else.
    pub open spec fn loaded(self, path: Seq<char>, read: Result<Seq<char>, Seq<char>>) -> AppModel {
        match load_result(read) {
            Ok(mapping) => AppModel {
                key_mappings: mapping,
                status_message: "Loaded config from "@ + path,
                loaded_config_path: Some(path),
                ..self
            },
            Err(ConfigFailure::Invalid) => AppModel {
                status_message: "Error parsing config file"@,
                ..self
            },
            Err(ConfigFailure::Io(cause)) => AppModel {
                status_message: "Error loading config: "@ + cause,
                ..self
            },
        }
    }

    /// What an attempt to save is answered with, where writing the file gave
    /// `written`.
    pub open spec fn save_outcome(written: Result<(), Seq<char>>) -> Result<(), ConfigFailure> {
        match written {
            Ok(_) => Ok(()),
            Err(cause) => Err(ConfigFailure::Io(cause)),
        }
    }

    /// The coordinator after an attempt to save to the file at `path`, where
    /// writing the file gave `written`.
    pub open spec fn saved(self, path: Seq<char>, written: Result<(), Seq<char>>) -> AppModel {
        match written {
            Ok(_) => AppModel {
                status_message: "Config saved to "@ + path,
                loaded_config_path: Some(path),
                ..self
            },
            Err(cause) => AppModel { status_message: "Error saving config: "@ + cause, ..self },
        }
    }

    /// The coordinator after the path of its directory was copied out.
    pub open spec fn path_copied(self) -> AppModel {
        AppModel { status_message: "Path copied to clipboard"@, ..self }
    }

    /// The coordinator after its configuration was cleared.
    pub open spec fn cleared(self) -> AppModel {
        AppModel {
            key_mappings: Map::empty(),
            status_message: "Cleared config - will use default"@,
            loaded_config_path: None,
            ..self
        }
    }
}

/// A file that the user picked, with what reading it gave: its text, or why
/// it could not be read.
pub struct PickedFile {
    pub path: String,
    pub read: Result<String, String>,
}

/// The coordinator.
pub struct ConfigNagaGuiApp {
    /// The session record that observers on other threads read.
    pub state: SharedSession,
    pub key_mappings: KeyMapping,
    /// Where the coordinator stands with its worker.
    pub session: SessionPhase,
    /// The flag that the worker watches; lowered to make it stop.
    pub running: RunFlag,
    pub current_tab: Tab,
    pub status_message: String,
    pub config_dir: String,
    pub loaded_config_path: Option<String>,
    pub valid_keys: Vec<String>,
}

impl View for ConfigNagaGuiApp {
    type V = AppModel;

    open spec fn view(&self) -> AppModel {
        AppModel {
            state: self.state@,
            key_mappings: self.key_mappings@,
            session: self.session,
            running: self.running@,
            current_tab: self.current_tab,
            status_message: self.status_message@,
            config_dir: self.config_dir@,
            loaded_config_path: path_text(self.loaded_config_path),
            valid_keys: names_text(self.valid_keys@),
        }
    }
}

impl ConfigNagaGuiApp {
    /// A coordinator at startup. It is the writer of the session record
    /// `state`, which it leaves as it is, and keeps its files in `config_dir`.
    pub fn new(state: SharedSession, config_dir: String) -> (r: Self)
        ensures
            r@ == (AppModel { state: state@, ..AppModel::initial(config_dir@) }),
            r.state.cell() == state.cell(),
    {
        let valid_keys = get_valid_keys();
        assert(names_text(valid_keys@) =~= valid_key_names());
        ConfigNagaGuiApp {
            state,
            key_mappings: KeyMapping::new(),
            session: SessionPhase::Idle,
            running: RunFlag::lowered(),
            current_tab: Tab::KeyMappings,
            status_message: String::from_str("Ready - No config loaded (will use default)"),
            config_dir,
            loaded_config_path: None,
            valid_keys,
        }
    }

    /// The key names that a button can be mapped to.
    pub fn get_valid_keys() -> (r: Vec<String>)
        ensures
            names_text(r@) == valid_key_names(),
    {
        let keys = get_valid_keys();
        assert(names_text(keys@) =~= valid_key_names());
        keys
    }

    /// Whether the coordinator has a worker out.
    pub fn is_remapping_active(&self) -> (r: bool)
        ensures
            r == self@.is_active(),
    {
        match self.session {
            SessionPhase::Idle => false,
            _ => true,
        }
    }

    /// Asks for a worker. With no worker out, the coordinator makes a new
    /// flag set to "go on", counts the worker as running, publishes "active"
    /// and returns what the worker is to be run with: a copy of the mapping
    /// and a handle to that flag. With a worker out it
    /// reports `AlreadyRunning` and changes the status line only.
    pub fn start_remapping(&mut self) -> (r: Result<WorkerLaunch, SessionError>)
        ensures
            final(self)@ == old(self)@.started(),
            final(self).state.cell() == old(self).state.cell(),
            match r {
                Ok(launch) => old(self)@.start_outcome() is Ok && launch.mapping@ == old(
                    self,
                )@.key_mappings && launch.running == final(self).running.handle(),
                Err(e) => old(self)@.start_outcome() == Err::<(), SessionError>(e)
                    && final(self).running.handle() == old(self).running.handle(),
            },
    {
        if self.is_remapping_active() {
            self.status_message = String::from_str(SessionError::AlreadyRunning.message());
            return Err(SessionError::AlreadyRunning);
        }
        self.running = RunFlag::raised();
        let launch = WorkerLaunch {
            mapping: self.key_mappings.clone(),
            running: self.running.watch(),
        };
        self.session = SessionPhase::Running;
        self.status_message = String::from_str("Remapping started");
        let _ = self.state.set(true);
        Ok(launch)
    }

    /// Asks the worker to stop. With a worker out, the coordinator lowers
    /// the worker's flag, lets go of the worker without waiting for it, and
    /// publishes "inactive". With no worker out it reports `NotRunning` and
    /// changes the status line only.
    pub fn stop_remapping(&mut self) -> (r: Result<(), SessionError>)
        ensures
            final(self)@ == old(self)@.stopped(),
            final(self).state.cell() == old(self).state.cell(),
            final(self).running.handle() == old(self).running.handle(),
            r == old(self)@.stop_outcome(),
    {
        if !self.is_remapping_active() {
            self.status_message = String::from_str(SessionError::NotRunning.message());
            return Err(SessionError::NotRunning);
        }
        self.running.lower();
        self.session = SessionPhase::Idle;
        self.status_message = String::from_str("Stopping... (press any Naga button to complete)");
        let _ = self.state.set(false);
        Ok(())
    }

    /// To be called when the program ends: stops the worker if one is out.
    pub fn on_exit(&mut self)
        ensures
            final(self)@ == old(self)@.stopped(),
            final(self).state.cell() == old(self).state.cell(),
            final(self).running.handle() == old(self).running.handle(),
    {
        let _ = self.stop_remapping();
    }

    /// The text of the configuration file for the current mapping.
    pub fn generate_toml_config(&self) -> (r: String)
        ensures
            r@ == config_text(self@.key_mappings),
    {
        render_config(&self.key_mappings)
    }

    /// Takes in what came of loading the file at `path`: `read` is the file's
    /// text, or why it could not be read. A file that loads replaces the
    /// mapping and becomes the loaded file; one that does not leaves both as
    /// they were. Returns `Ok` exactly when the file loaded; the file at
    /// `path` is then to be remembered as the last one used.
    pub fn load_config_from_path(&mut self, path: &str, read: Result<String, String>) -> (r: Result<
        (),
        ConfigError,
    >)
        ensures
            final(self)@ == old(self)@.loaded(path@, read_text(read)),
            final(self).state.cell() == old(self).state.cell(),
            final(self).running.handle() == old(self).running.handle(),
            match r {
                Ok(_) => load_result(read_text(read)) is Ok,
                Err(e) => load_result(read_text(read)) == Err::<Map<u8, Seq<char>>, ConfigFailure>(
                    e@,
                ),
            },
    {
        match load_config(read) {
            Ok(mapping) => {
                self.key_mappings = mapping;
                self.status_message = String::from_str("Loaded config from ").concat(path);
                self.loaded_config_path = Some(String::from_str(path));
                Ok(())
            },
            Err(ConfigError::Invalid) => {
                self.status_message = String::from_str("Error parsing config file");
                Err(ConfigError::Invalid)
            },
            Err(ConfigError::Io(cause)) => {
                self.status_message = String::from_str("Error loading config: ").concat(
                    cause.as_str(),
                );
                Err(ConfigError::Io(cause))
            },
        }
    }

    /// Takes in what came of the dialog that picks a file to load: nothing was
    /// picked, or a file was picked and then read. With nothing picked,
    /// nothing changes and `None` is returned.
    pub fn browse_for_config(&mut self, picked: Option<PickedFile>) -> (r: Option<
        Result<(), ConfigError>,
    >)
        ensures
            final(self).state.cell() == old(self).state.cell(),
            final(self).running.handle() == old(self).running.handle(),
            match picked {
                Some(file) => final(self)@ == old(self)@.loaded(file.path@, read_text(file.read))
                    && r is Some && match r->Some_0 {
                    Ok(_) => load_result(read_text(file.read)) is Ok,
                    Err(e) => load_result(read_text(file.read)) == Err::<
                        Map<u8, Seq<char>>,
                        ConfigFailure,
                    >(e@),
                },
                None => final(self)@ == old(self)@ && r is None,
            },
    {
        match picked {
            Some(file) => Some(self.load_config_from_path(file.path.as_str(), file.read)),
            None => None,
        }
    }

    /// Takes in what came of writing the configuration to the file at `path`:
    /// `written` is `Ok`, or why the file could not be written. A file that
    /// was written becomes the loaded file, and is then to be remembered as
    /// the last one used.
    pub fn save_config(&mut self, path: &str, written: Result<(), String>) -> (r: Result<
        (),
        ConfigError,
    >)
        ensures
            final(self)@ == old(self)@.saved(path@, written_text(written)),
            final(self).state.cell() == old(self).state.cell(),
            final(self).running.handle() == old(self).running.handle(),
            match r {
                Ok(_) => written is Ok,
                Err(e) => AppModel::save_outcome(written_text(written)) == Err::<(), ConfigFailure>(
                    e@,
                ),
            },
    {
        match written {
            Ok(_) => {
                self.status_message = String::from_str("Config saved to ").concat(path);
                self.loaded_config_path = Some(String::from_str(path));
                Ok(())
            },
            Err(cause) => {
                self.status_message = String::from_str("Error saving config: ").concat(
                    cause.as_str(),
                );
                Err(ConfigError::Io(cause))
            },
        }
    }

    /// Takes in that the path of the configuration directory was copied to the
    /// clipboard.
    pub fn report_path_copied(&mut self)
        ensures
            final(self)@ == old(self)@.path_copied(),
            final(self).state.cell() == old(self).state.cell(),
            final(self).running.handle() == old(self).running.handle(),
    {
        self.status_message = String::from_str("Path copied to clipboard");
    }

    /// Forgets the loaded file and its mapping: the defaults apply again.
    pub fn clear_config(&mut self)
        ensures
            final(self)@ == old(self)@.cleared(),
            final(self).state.cell() == old(self).state.cell(),
            final(self).running.handle() == old(self).running.handle(),
    {
        self.loaded_config_path = None;
        self.key_mappings.clear();
        self.status_message = String::from_str("Cleared config - will use default");
    }
}

/// A request to start is granted exactly when no worker is out: there is
/// never more than one worker.
pub proof fn lemma_start_is_granted_only_when_idle(app: AppModel)
    ensures
        app.start_outcome() is Ok <==> app.session == SessionPhase::Idle,
        app.started().session != SessionPhase::Idle,
        app.start_outcome() is Ok ==> app.started().session == SessionPhase::Running
            && app.started().state.remapping_enabled && app.started().running,
{
}

/// A request to start while a worker is out is turned down, and changes the
/// status line only: the session stays as it is.
pub proof fn lemma_start_while_running_changes_status_only(app: AppModel)
    requires
        app.session == SessionPhase::Running || app.session == SessionPhase::StoppingRequested,
    ensures
        app.start_outcome() == Err::<(), SessionError>(SessionError::AlreadyRunning),
        app.started() == (AppModel {
            status_message: SessionError::AlreadyRunning.message_text(),
            ..app
        }),
        app.started().session == app.session,
        app.started().state == app.state,
{
}

/// A request to stop while no worker is out is turned down, and changes the
/// status line only: the session record stays as it is.
pub proof fn lemma_stop_while_idle_changes_status_only(app: AppModel)
    requires
        app.session == SessionPhase::Idle,
    ensures
        app.stop_outcome() == Err::<(), SessionError>(SessionError::NotRunning),
        app.stopped() == (AppModel {
            status_message: SessionError::NotRunning.message_text(),
            ..app
        }),
        app.stopped().session == SessionPhase::Idle,
        app.stopped().state == app.state,
{
}

/// A request to stop while a worker is out is granted, whether or not the
/// worker was told to stop before; after it no worker is out and the session
/// record says "inactive".
pub proof fn lemma_stop_lets_go_of_the_worker(app: AppModel)
    requires
        app.session == SessionPhase::Running || app.session == SessionPhase::StoppingRequested,
    ensures
        app.stop_outcome() is Ok,
        app.stopped().session == SessionPhase::Idle,
        !app.stopped().state.remapping_enabled,
        !app.stopped().running,
        app.stopped().stop_outcome() == Err::<(), SessionError>(SessionError::NotRunning),
{
}

/// Starting and then stopping publishes "active" and then "inactive", and
/// leaves the mapping and the loaded file as they were.
pub proof fn lemma_start_then_stop(app: AppModel)
    requires
        app.session == SessionPhase::Idle,
    ensures
        app.started().state.remapping_enabled,
        app.started().stop_outcome() is Ok,
        !app.started().stopped().state.remapping_enabled,
        app.started().stopped().session == SessionPhase::Idle,
        app.started().stopped().key_mappings == app.key_mappings,
        app.started().stopped().loaded_config_path == app.loaded_config_path,
{
}

/// Whatever is asked of a coordinator whose session record says "active" only
/// while a worker is out, the record still says so afterwards.
pub proof fn lemma_session_record_stays_coherent(
    app: AppModel,
    path: Seq<char>,
    read: Result<Seq<char>, Seq<char>>,
    written: Result<(), Seq<char>>,
)
    requires
        app.coherent(),
    ensures
        AppModel::initial(path).coherent(),
        app.started().coherent(),
        app.stopped().coherent(),
        app.loaded(path, read).coherent(),
        app.saved(path, written).coherent(),
        app.cleared().coherent(),
        app.path_copied().coherent(),
{
}

/// A load that fails changes the status line only: the mapping, the loaded
/// file and the session stay as they were.
pub proof fn lemma_failed_load_changes_status_only(
    app: AppModel,
    path: Seq<char>,
    read: Result<Seq<char>, Seq<char>>,
)
    requires
        load_result(read) is Err,
    ensures
        app.loaded(path, read) == (AppModel {
            status_message: app.loaded(path, read).status_message,
            ..app
        }),
        app.loaded(path, read).key_mappings == app.key_mappings,
        app.loaded(path, read).loaded_config_path == app.loaded_config_path,
{
}

/// A coordinator at startup has no mapping, no loaded file and no worker,
/// whatever the session record says, and a side file that could not be read
/// recalls no path.
pub proof fn lemma_startup_without_last_path(state: AppState, config_dir: Seq<char>)
    ensures
        recalled_path(None) is None,
        (AppModel { state, ..AppModel::initial(config_dir) }).key_mappings == Map::<
            u8,
            Seq<char>,
        >::empty(),
        (AppModel { state, ..AppModel::initial(config_dir) }).loaded_config_path is None,
        (AppModel { state, ..AppModel::initial(config_dir) }).session == SessionPhase::Idle,
        !(AppModel { state, ..AppModel::initial(config_dir) }).running,
{
}

/// A coordinator made on a session record says of it what the record said,
/// and a request to stop, with no worker out, leaves it so.
pub proof fn lemma_startup_keeps_the_session_record(state: AppState, config_dir: Seq<char>)
    ensures
        (AppModel { state, ..AppModel::initial(config_dir) }).state == state,
        (AppModel { state, ..AppModel::initial(config_dir) }).stopped().state == state,
        !(AppModel { state, ..AppModel::initial(config_dir) }).stopped().is_active(),
{
}

} // verus!
