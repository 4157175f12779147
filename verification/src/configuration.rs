//! The configuration document: how its source is chosen, what becomes of a
//! load, a reload or a save, and what is said about each.
use std::sync::Arc;

use vstd::prelude::*;

#[allow(unused_imports)]
use crate::text::holds_text;
use crate::text::same_text;

verus! {

/// Why configuration could not be selected, loaded or saved. It holds nothing
/// of the path or the document.
#[derive(Clone, Copy, Debug, PartialEq, Eq, Structural)]
pub enum ConfigurationLoadFailure {
    Invalid,
    Unreadable,
    OverrideUnavailable,
    NativeLocationUnavailable,
}

/// What went wrong with a configuration file.
#[derive(Clone, Copy, Debug, PartialEq, Eq, Structural)]
pub enum ConfigurationFileErrorKind {
    Parse,
    MissingFile,
    Read,
    InvalidTargetPath,
    CreateTemporary,
    WriteTemporary,
    SyncTemporary,
    Replace,
    RestorePrevious,
    CleanupPrevious,
    SyncParentDirectory,
    Serialization,
}

impl ConfigurationFileErrorKind {
    /// The reason that stands for this kind of error. A missing file is no
    /// failure and has none.
    pub open spec fn failure(self) -> ConfigurationLoadFailure {
        if self == ConfigurationFileErrorKind::Parse {
            ConfigurationLoadFailure::Invalid
        } else {
            ConfigurationLoadFailure::Unreadable
        }
    }
}

pub fn failure_from_file_error(kind: ConfigurationFileErrorKind) -> (failure:
    ConfigurationLoadFailure)
    requires
        kind != ConfigurationFileErrorKind::MissingFile,
    ensures
        failure == kind.failure(),
{
    match kind {
        ConfigurationFileErrorKind::Parse => ConfigurationLoadFailure::Invalid,
        _ => ConfigurationLoadFailure::Unreadable,
    }
}

/// The outcome of selecting, loading, reloading or saving configuration.
#[derive(Clone, Copy, Debug, PartialEq, Eq, Structural)]
pub enum ConfigurationStartupStatus {
    Loaded,
    Missing,
    InitialFailure(ConfigurationLoadFailure),
    Reloaded,
    ReloadedMissing,
    ReloadFailure(ConfigurationLoadFailure),
    WorkspaceSaved,
    WorkspaceSaveFailure(ConfigurationLoadFailure),
}

impl ConfigurationStartupStatus {
    pub open spec fn message_text(self) -> Seq<char> {
        match self {
            ConfigurationStartupStatus::Loaded => "Configuration was loaded at startup. Reload configuration to apply later edits."@,
            ConfigurationStartupStatus::Missing => "No configuration file was found at startup. fesTerm is using its defaults and will not create one automatically."@,
            ConfigurationStartupStatus::InitialFailure(ConfigurationLoadFailure::Invalid) => "Configuration was ignored at startup because it is invalid. Fix it, then use Reload configuration."@,
            ConfigurationStartupStatus::InitialFailure(ConfigurationLoadFailure::Unreadable) => "Configuration could not be read at startup. Check that it is readable, then use Reload configuration."@,
            ConfigurationStartupStatus::InitialFailure(ConfigurationLoadFailure::OverrideUnavailable) => "FESTERM_CONFIG_PATH could not be used. Set it to a non-empty Unicode file path, then restart fesTerm."@,
            ConfigurationStartupStatus::InitialFailure(ConfigurationLoadFailure::NativeLocationUnavailable) => "The native configuration location is unavailable. Set FESTERM_CONFIG_PATH to a Unicode file path, then restart fesTerm."@,
            ConfigurationStartupStatus::Reloaded => "Configuration was reloaded. Future Launcher choices use it; existing sessions are unchanged."@,
            ConfigurationStartupStatus::ReloadedMissing => "Configuration file is missing. fesTerm is using its defaults; existing sessions are unchanged."@,
            ConfigurationStartupStatus::ReloadFailure(ConfigurationLoadFailure::Invalid) => "Configuration was not reloaded because it is invalid. The previous configuration remains active; fix it and try again."@,
            ConfigurationStartupStatus::ReloadFailure(ConfigurationLoadFailure::Unreadable) => "Configuration was not reloaded because it could not be read. The previous configuration remains active; check access and try again."@,
            ConfigurationStartupStatus::ReloadFailure(ConfigurationLoadFailure::OverrideUnavailable) => "Configuration was not reloaded because FESTERM_CONFIG_PATH is unavailable. The previous configuration remains active; set it to a non-empty Unicode path and restart fesTerm."@,
            ConfigurationStartupStatus::ReloadFailure(ConfigurationLoadFailure::NativeLocationUnavailable) => "Configuration was not reloaded because its location is unavailable. The previous configuration remains active; set FESTERM_CONFIG_PATH and restart fesTerm."@,
            ConfigurationStartupStatus::WorkspaceSaved => "Workspace metadata was saved. Only restorable tab order, focus, and configured profile references were written."@,
            ConfigurationStartupStatus::WorkspaceSaveFailure(ConfigurationLoadFailure::Invalid) => "Workspace metadata was not saved because the configuration is invalid. The active configuration remains unchanged."@,
            ConfigurationStartupStatus::WorkspaceSaveFailure(ConfigurationLoadFailure::Unreadable) => "Workspace metadata could not be saved. The active configuration remains unchanged; check access and try again."@,
            ConfigurationStartupStatus::WorkspaceSaveFailure(ConfigurationLoadFailure::OverrideUnavailable) => "Workspace metadata was not saved because FESTERM_CONFIG_PATH is unavailable. The active configuration remains unchanged."@,
            ConfigurationStartupStatus::WorkspaceSaveFailure(ConfigurationLoadFailure::NativeLocationUnavailable) => "Workspace metadata was not saved because its location is unavailable. The active configuration remains unchanged."@,
        }
    }

    /// What Settings says about the outcome.
    pub fn settings_message(self) -> (message: &'static str)
        ensures
            message@ == self.message_text(),
    {
        match self {
            ConfigurationStartupStatus::Loaded => "Configuration was loaded at startup. Reload configuration to apply later edits.",
            ConfigurationStartupStatus::Missing => "No configuration file was found at startup. fesTerm is using its defaults and will not create one automatically.",
            ConfigurationStartupStatus::InitialFailure(ConfigurationLoadFailure::Invalid) => "Configuration was ignored at startup because it is invalid. Fix it, then use Reload configuration.",
            ConfigurationStartupStatus::InitialFailure(ConfigurationLoadFailure::Unreadable) => "Configuration could not be read at startup. Check that it is readable, then use Reload configuration.",
            ConfigurationStartupStatus::InitialFailure(ConfigurationLoadFailure::OverrideUnavailable) => "FESTERM_CONFIG_PATH could not be used. Set it to a non-empty Unicode file path, then restart fesTerm.",
            ConfigurationStartupStatus::InitialFailure(ConfigurationLoadFailure::NativeLocationUnavailable) => "The native configuration location is unavailable. Set FESTERM_CONFIG_PATH to a Unicode file path, then restart fesTerm.",
            ConfigurationStartupStatus::Reloaded => "Configuration was reloaded. Future Launcher choices use it; existing sessions are unchanged.",
            ConfigurationStartupStatus::ReloadedMissing => "Configuration file is missing. fesTerm is using its defaults; existing sessions are unchanged.",
            ConfigurationStartupStatus::ReloadFailure(ConfigurationLoadFailure::Invalid) => "Configuration was not reloaded because it is invalid. The previous configuration remains active; fix it and try again.",
            ConfigurationStartupStatus::ReloadFailure(ConfigurationLoadFailure::Unreadable) => "Configuration was not reloaded because it could not be read. The previous configuration remains active; check access and try again.",
            ConfigurationStartupStatus::ReloadFailure(ConfigurationLoadFailure::OverrideUnavailable) => "Configuration was not reloaded because FESTERM_CONFIG_PATH is unavailable. The previous configuration remains active; set it to a non-empty Unicode path and restart fesTerm.",
            ConfigurationStartupStatus::ReloadFailure(ConfigurationLoadFailure::NativeLocationUnavailable) => "Configuration was not reloaded because its location is unavailable. The previous configuration remains active; set FESTERM_CONFIG_PATH and restart fesTerm.",
            ConfigurationStartupStatus::WorkspaceSaved => "Workspace metadata was saved. Only restorable tab order, focus, and configured profile references were written.",
            ConfigurationStartupStatus::WorkspaceSaveFailure(ConfigurationLoadFailure::Invalid) => "Workspace metadata was not saved because the configuration is invalid. The active configuration remains unchanged.",
            ConfigurationStartupStatus::WorkspaceSaveFailure(ConfigurationLoadFailure::Unreadable) => "Workspace metadata could not be saved. The active configuration remains unchanged; check access and try again.",
            ConfigurationStartupStatus::WorkspaceSaveFailure(ConfigurationLoadFailure::OverrideUnavailable) => "Workspace metadata was not saved because FESTERM_CONFIG_PATH is unavailable. The active configuration remains unchanged.",
            ConfigurationStartupStatus::WorkspaceSaveFailure(ConfigurationLoadFailure::NativeLocationUnavailable) => "Workspace metadata was not saved because its location is unavailable. The active configuration remains unchanged.",
        }
    }

    pub open spec fn problem(self) -> bool {
        self is InitialFailure || self is ReloadFailure || self is WorkspaceSaveFailure
    }

    /// Tells whether the outcome calls for attention.
    pub fn is_problem(self) -> (result: bool)
        ensures
            result == self.problem(),
    {
        matches!(
            self,
            ConfigurationStartupStatus::InitialFailure(_)
                | ConfigurationStartupStatus::ReloadFailure(_)
                | ConfigurationStartupStatus::WorkspaceSaveFailure(_)
        )
    }
}

impl ConfigurationStartupStatus {
    /// How long the text is that Settings says about the outcome.
    spec fn message_length(self) -> nat {
        match self {
            ConfigurationStartupStatus::Loaded => 79,
            ConfigurationStartupStatus::Missing => 112,
            ConfigurationStartupStatus::InitialFailure(ConfigurationLoadFailure::Invalid) => 98,
            ConfigurationStartupStatus::InitialFailure(ConfigurationLoadFailure::Unreadable) => 101,
            ConfigurationStartupStatus::InitialFailure(ConfigurationLoadFailure::OverrideUnavailable) => 101,
            ConfigurationStartupStatus::InitialFailure(ConfigurationLoadFailure::NativeLocationUnavailable) => 119,
            ConfigurationStartupStatus::Reloaded => 92,
            ConfigurationStartupStatus::ReloadedMissing => 94,
            ConfigurationStartupStatus::ReloadFailure(ConfigurationLoadFailure::Invalid) => 118,
            ConfigurationStartupStatus::ReloadFailure(ConfigurationLoadFailure::Unreadable) => 131,
            ConfigurationStartupStatus::ReloadFailure(ConfigurationLoadFailure::OverrideUnavailable) => 173,
            ConfigurationStartupStatus::ReloadFailure(ConfigurationLoadFailure::NativeLocationUnavailable) => 155,
            ConfigurationStartupStatus::WorkspaceSaved => 111,
            ConfigurationStartupStatus::WorkspaceSaveFailure(ConfigurationLoadFailure::Invalid) => 114,
            ConfigurationStartupStatus::WorkspaceSaveFailure(ConfigurationLoadFailure::Unreadable) => 110,
            ConfigurationStartupStatus::WorkspaceSaveFailure(ConfigurationLoadFailure::OverrideUnavailable) => 120,
            ConfigurationStartupStatus::WorkspaceSaveFailure(ConfigurationLoadFailure::NativeLocationUnavailable) => 113,
        }
    }
}

proof fn message_lengths(status: ConfigurationStartupStatus)
    ensures
        status.message_text().len() == status.message_length(),
{
    reveal_strlit("Configuration was loaded at startup. Reload configuration to apply later edits.");
    reveal_strlit("No configuration file was found at startup. fesTerm is using its defaults and will not create one automatically.");
    reveal_strlit("Configuration was ignored at startup because it is invalid. Fix it, then use Reload configuration.");
    reveal_strlit("Configuration could not be read at startup. Check that it is readable, then use Reload configuration.");
    reveal_strlit("FESTERM_CONFIG_PATH could not be used. Set it to a non-empty Unicode file path, then restart fesTerm.");
    reveal_strlit("The native configuration location is unavailable. Set FESTERM_CONFIG_PATH to a Unicode file path, then restart fesTerm.");
    reveal_strlit("Configuration was reloaded. Future Launcher choices use it; existing sessions are unchanged.");
    reveal_strlit("Configuration file is missing. fesTerm is using its defaults; existing sessions are unchanged.");
    reveal_strlit("Configuration was not reloaded because it is invalid. The previous configuration remains active; fix it and try again.");
    reveal_strlit("Configuration was not reloaded because it could not be read. The previous configuration remains active; check access and try again.");
    reveal_strlit("Configuration was not reloaded because FESTERM_CONFIG_PATH is unavailable. The previous configuration remains active; set it to a non-empty Unicode path and restart fesTerm.");
    reveal_strlit("Configuration was not reloaded because its location is unavailable. The previous configuration remains active; set FESTERM_CONFIG_PATH and restart fesTerm.");
    reveal_strlit("Workspace metadata was saved. Only restorable tab order, focus, and configured profile references were written.");
    reveal_strlit("Workspace metadata was not saved because the configuration is invalid. The active configuration remains unchanged.");
    reveal_strlit("Workspace metadata could not be saved. The active configuration remains unchanged; check access and try again.");
    reveal_strlit("Workspace metadata was not saved because FESTERM_CONFIG_PATH is unavailable. The active configuration remains unchanged.");
    reveal_strlit("Workspace metadata was not saved because its location is unavailable. The active configuration remains unchanged.");
}

/// Settings says something else about every outcome.
pub proof fn settings_messages_differ(
    a: ConfigurationStartupStatus,
    b: ConfigurationStartupStatus,
)
    requires
        a != b,
    ensures
        a.message_text() != b.message_text(),
{
    message_lengths(a);
    message_lengths(b);
    reveal_strlit("Configuration could not be read at startup. Check that it is readable, then use Reload configuration.");
    reveal_strlit("FESTERM_CONFIG_PATH could not be used. Set it to a non-empty Unicode file path, then restart fesTerm.");
    if a.message_text().len() == b.message_text().len() {
        assert(a.message_text()[0] != b.message_text()[0]);
    }
}

/// A reload that fails says that the document in use stays in use, and a
/// workspace that could not be saved that it is as it was.
pub proof fn failures_say_what_stays(failure: ConfigurationLoadFailure)
    ensures
        holds_text(
            ConfigurationStartupStatus::ReloadFailure(failure).message_text(),
            "The previous configuration remains active"@,
        ),
        holds_text(
            ConfigurationStartupStatus::WorkspaceSaveFailure(failure).message_text(),
            "The active configuration remains unchanged"@,
        ),
{
    failed_reloads_say_what_stays(failure);
    failed_saves_say_what_stays(failure);
}

proof fn failed_reloads_say_what_stays(failure: ConfigurationLoadFailure)
    ensures
        holds_text(
            ConfigurationStartupStatus::ReloadFailure(failure).message_text(),
            "The previous configuration remains active"@,
        ),
{
    let text = ConfigurationStartupStatus::ReloadFailure(failure).message_text();
    let part = "The previous configuration remains active"@;
    reveal_strlit("The previous configuration remains active");
    match failure {
        ConfigurationLoadFailure::Invalid => {
            reveal_strlit("Configuration was not reloaded because it is invalid. The previous configuration remains active; fix it and try again.");
            assert(text.subrange(54int, 54int + part.len()) =~= part);
        },
        ConfigurationLoadFailure::Unreadable => {
            reveal_strlit("Configuration was not reloaded because it could not be read. The previous configuration remains active; check access and try again.");
            assert(text.subrange(61int, 61int + part.len()) =~= part);
        },
        ConfigurationLoadFailure::OverrideUnavailable => {
            reveal_strlit("Configuration was not reloaded because FESTERM_CONFIG_PATH is unavailable. The previous configuration remains active; set it to a non-empty Unicode path and restart fesTerm.");
            assert(text.subrange(75int, 75int + part.len()) =~= part);
        },
        ConfigurationLoadFailure::NativeLocationUnavailable => {
            reveal_strlit("Configuration was not reloaded because its location is unavailable. The previous configuration remains active; set FESTERM_CONFIG_PATH and restart fesTerm.");
            assert(text.subrange(68int, 68int + part.len()) =~= part);
        },
    }
}

proof fn failed_saves_say_what_stays(failure: ConfigurationLoadFailure)
    ensures
        holds_text(
            ConfigurationStartupStatus::WorkspaceSaveFailure(failure).message_text(),
            "The active configuration remains unchanged"@,
        ),
{
    let text = ConfigurationStartupStatus::WorkspaceSaveFailure(failure).message_text();
    let part = "The active configuration remains unchanged"@;
    reveal_strlit("The active configuration remains unchanged");
    match failure {
        ConfigurationLoadFailure::Invalid => {
            reveal_strlit("Workspace metadata was not saved because the configuration is invalid. The active configuration remains unchanged.");
            assert(text.subrange(71int, 71int + part.len()) =~= part);
        },
        ConfigurationLoadFailure::Unreadable => {
            reveal_strlit("Workspace metadata could not be saved. The active configuration remains unchanged; check access and try again.");
            assert(text.subrange(39int, 39int + part.len()) =~= part);
        },
        ConfigurationLoadFailure::OverrideUnavailable => {
            reveal_strlit("Workspace metadata was not saved because FESTERM_CONFIG_PATH is unavailable. The active configuration remains unchanged.");
            assert(text.subrange(77int, 77int + part.len()) =~= part);
        },
        ConfigurationLoadFailure::NativeLocationUnavailable => {
            reveal_strlit("Workspace metadata was not saved because its location is unavailable. The active configuration remains unchanged.");
            assert(text.subrange(70int, 70int + part.len()) =~= part);
        },
    }
}

/// The reasons for which the document is written back.
#[derive(Clone, Copy, Debug, PartialEq, Eq, Structural)]
pub enum ConfigurationWrite {
    Workspace,
    InterfaceSettings,
    KnownHostTrust,
    Profile,
    ProfileDeletion,
    ProfileOrder,
    PasswordCredential,
}

/// The last thing that happened to a window's configuration.
#[derive(Clone, Copy, Debug, PartialEq, Eq, Structural)]
pub enum ConfigurationStatus {
    Startup(ConfigurationStartupStatus),
    Written(ConfigurationWrite),
    NotWritten(ConfigurationWrite, ConfigurationLoadFailure),
}

impl ConfigurationStatus {
    /// The status after writing the document for `write`.
    pub open spec fn after_write(
        write: ConfigurationWrite,
        outcome: Result<(), ConfigurationLoadFailure>,
    ) -> Self {
        match (write, outcome) {
            (ConfigurationWrite::Workspace, Ok(_)) => ConfigurationStatus::Startup(
                ConfigurationStartupStatus::WorkspaceSaved,
            ),
            (ConfigurationWrite::Workspace, Err(failure)) => ConfigurationStatus::Startup(
                ConfigurationStartupStatus::WorkspaceSaveFailure(failure),
            ),
            (write, Ok(_)) => ConfigurationStatus::Written(write),
            (write, Err(failure)) => ConfigurationStatus::NotWritten(write, failure),
        }
    }

    pub fn of_write(
        write: ConfigurationWrite,
        outcome: Result<(), ConfigurationLoadFailure>,
    ) -> (status: Self)
        ensures
            status == Self::after_write(write, outcome),
    {
        match outcome {
            Ok(_) => match write {
                ConfigurationWrite::Workspace => ConfigurationStatus::Startup(
                    ConfigurationStartupStatus::WorkspaceSaved,
                ),
                write => ConfigurationStatus::Written(write),
            },
            Err(failure) => match write {
                ConfigurationWrite::Workspace => ConfigurationStatus::Startup(
                    ConfigurationStartupStatus::WorkspaceSaveFailure(failure),
                ),
                write => ConfigurationStatus::NotWritten(write, failure),
            },
        }
    }

    pub open spec fn saved(self) -> bool {
        ||| self is Written
        ||| self == ConfigurationStatus::Startup(ConfigurationStartupStatus::WorkspaceSaved)
    }

    /// Tells whether the document is on disk as it was meant to be.
    pub fn was_saved(self) -> (result: bool)
        ensures
            result == self.saved(),
    {
        matches!(
            self,
            ConfigurationStatus::Written(_)
                | ConfigurationStatus::Startup(ConfigurationStartupStatus::WorkspaceSaved)
        )
    }
}

/// The file under the native directory that holds the document.
pub const CONFIG_FILE_NAME: &'static str = "config.toml";

/// Where the document is read from and written to. `P` stands for a path.
#[derive(Debug, PartialEq, Eq)]
pub enum ConfigurationSource<P> {
    /// A file that the user named; its directory is never created.
    Override(String),
    /// `CONFIG_FILE_NAME` in the platform's own directory, which may be created.
    Native(P),
}

/// Chooses the source of the document. `override_value` is the override as it
/// is set, with nothing inside where it is not Unicode.
pub fn select_configuration_source<P>(
    override_value: Option<Option<String>>,
    native_directory: Option<P>,
) -> (source: Result<ConfigurationSource<P>, ConfigurationLoadFailure>)
    ensures
        source == match (override_value, native_directory) {
            (Some(Some(path)), _) => if path@.len() > 0 {
                Ok(ConfigurationSource::Override(path))
            } else {
                Err(ConfigurationLoadFailure::OverrideUnavailable)
            },
            (Some(None), _) => Err(ConfigurationLoadFailure::OverrideUnavailable),
            (None, Some(directory)) => Ok(ConfigurationSource::Native(directory)),
            (None, None) => Err(ConfigurationLoadFailure::NativeLocationUnavailable),
        },
{
    match override_value {
        Some(Some(path)) => if path.as_str().is_empty() {
            Err(ConfigurationLoadFailure::OverrideUnavailable)
        } else {
            Ok(ConfigurationSource::Override(path))
        },
        Some(None) => Err(ConfigurationLoadFailure::OverrideUnavailable),
        None => match native_directory {
            Some(directory) => Ok(ConfigurationSource::Native(directory)),
            None => Err(ConfigurationLoadFailure::NativeLocationUnavailable),
        },
    }
}

/// Keeps the chosen source for the explicit reloads and saves that follow.
pub struct ConfigurationReloader<P> {
    pub selected: Result<ConfigurationSource<P>, ConfigurationLoadFailure>,
}

impl<P> ConfigurationReloader<P> {
    pub fn unavailable() -> (reloader: Self)
        ensures
            reloader.selected == Err::<ConfigurationSource<P>, _>(
                ConfigurationLoadFailure::NativeLocationUnavailable,
            ),
    {
        ConfigurationReloader {
            selected: Err(ConfigurationLoadFailure::NativeLocationUnavailable),
        }
    }

    /// What an explicit reload leads to, given what reading the source gave
    /// (which does not matter where there is no source). Nothing replaces the
    /// document in use unless a valid one was read or the file is gone.
    pub fn reload<C>(&self, loaded: Result<C, ConfigurationFileErrorKind>, empty: C) -> (outcome: (
        Option<C>,
        ConfigurationStartupStatus,
    ))
        ensures
            outcome == match (self.selected, loaded) {
                (Err(failure), _) => (
                    None::<C>,
                    ConfigurationStartupStatus::ReloadFailure(failure),
                ),
                (Ok(_), Ok(configuration)) => (
                    Some(configuration),
                    ConfigurationStartupStatus::Reloaded,
                ),
                (Ok(_), Err(kind)) => if kind == ConfigurationFileErrorKind::MissingFile {
                    (Some(empty), ConfigurationStartupStatus::ReloadedMissing)
                } else {
                    (None, ConfigurationStartupStatus::ReloadFailure(kind.failure()))
                },
            },
    {
        if let Err(failure) = &self.selected {
            return (None, ConfigurationStartupStatus::ReloadFailure(*failure));
        }
        match loaded {
            Ok(configuration) => (Some(configuration), ConfigurationStartupStatus::Reloaded),
            Err(ConfigurationFileErrorKind::MissingFile) => (
                Some(empty),
                ConfigurationStartupStatus::ReloadedMissing,
            ),
            Err(kind) => (
                None,
                ConfigurationStartupStatus::ReloadFailure(failure_from_file_error(kind)),
            ),
        }
    }

    /// The document to start with, given what reading the source gave (which
    /// does not matter where there is no source).
    pub fn initial_load<C>(
        &self,
        loaded: Result<C, ConfigurationFileErrorKind>,
        empty: C,
    ) -> (outcome: (C, ConfigurationStartupStatus))
        ensures
            outcome == match (self.selected, loaded) {
                (Err(failure), _) => (empty, ConfigurationStartupStatus::InitialFailure(failure)),
                (Ok(_), Ok(configuration)) => (configuration, ConfigurationStartupStatus::Loaded),
                (Ok(_), Err(kind)) => if kind == ConfigurationFileErrorKind::MissingFile {
                    (empty, ConfigurationStartupStatus::Missing)
                } else {
                    (empty, ConfigurationStartupStatus::InitialFailure(kind.failure()))
                },
            },
    {
        if let Err(failure) = &self.selected {
            return (empty, ConfigurationStartupStatus::InitialFailure(*failure));
        }
        match loaded {
            Ok(configuration) => (configuration, ConfigurationStartupStatus::Loaded),
            Err(ConfigurationFileErrorKind::MissingFile) => (
                empty,
                ConfigurationStartupStatus::Missing,
            ),
            Err(kind) => (
                empty,
                ConfigurationStartupStatus::InitialFailure(failure_from_file_error(kind)),
            ),
        }
    }

    /// Whether a save has to see to it first that the source's directory is there.
    pub fn owns_directory(&self) -> (result: bool)
        ensures
            result == (self.selected is Ok && self.selected->Ok_0 is Native),
    {
        match &self.selected {
            Ok(ConfigurationSource::Native(_)) => true,
            _ => false,
        }
    }

    /// What saving the workspace leads to. `directory_ready` says whether the
    /// directory exists or could be created, where the source owns it; `saved`
    /// is what the write gave, where it was tried.
    pub fn save_workspace(
        &self,
        directory_ready: bool,
        saved: Result<(), ConfigurationFileErrorKind>,
    ) -> (outcome: Result<(), ConfigurationLoadFailure>)
        requires
            saved != Err::<(), _>(ConfigurationFileErrorKind::MissingFile),
        ensures
            outcome == match self.selected {
                Err(failure) => Err(failure),
                Ok(source) => if source is Native && !directory_ready {
                    Err(ConfigurationLoadFailure::Unreadable)
                } else {
                    match saved {
                        Ok(_) => Ok(()),
                        Err(kind) => Err(kind.failure()),
                    }
                },
            },
    {
        if let Err(failure) = &self.selected {
            return Err(*failure);
        }
        if self.owns_directory() && !directory_ready {
            return Err(ConfigurationLoadFailure::Unreadable);
        }
        match saved {
            Ok(_) => Ok(()),
            Err(kind) => Err(failure_from_file_error(kind)),
        }
    }
}

/// What starting the process found: the document to begin with, what is said
/// about it, and where it is kept.
pub struct StartupConfiguration<C, P> {
    pub configuration: C,
    pub status: ConfigurationStartupStatus,
    pub reloader: ConfigurationReloader<P>,
}

impl<C, P> StartupConfiguration<C, P> {
    /// Puts together what starting the process found. `loaded` is what reading
    /// the chosen source gave.
    pub fn load(
        selected: Result<ConfigurationSource<P>, ConfigurationLoadFailure>,
        loaded: Result<C, ConfigurationFileErrorKind>,
        empty: C,
    ) -> (startup: Self)
        ensures
            startup.reloader.selected == selected,
            (startup.configuration, startup.status) == match (selected, loaded) {
                (Err(failure), _) => (empty, ConfigurationStartupStatus::InitialFailure(failure)),
                (Ok(_), Ok(configuration)) => (configuration, ConfigurationStartupStatus::Loaded),
                (Ok(_), Err(kind)) => if kind == ConfigurationFileErrorKind::MissingFile {
                    (empty, ConfigurationStartupStatus::Missing)
                } else {
                    (empty, ConfigurationStartupStatus::InitialFailure(kind.failure()))
                },
            },
    {
        let reloader = ConfigurationReloader { selected };
        let (configuration, status) = reloader.initial_load(loaded, empty);
        StartupConfiguration { configuration, status, reloader }
    }

    pub fn into_parts(self) -> (parts: (C, ConfigurationStartupStatus, ConfigurationReloader<P>))
        ensures
            parts == (self.configuration, self.status, self.reloader),
    {
        (self.configuration, self.status, self.reloader)
    }
}

/// The preferences that decisions in a window depend on.
#[derive(Clone, Copy, Debug, PartialEq, Eq, Structural)]
pub struct InterfaceSettings {
    pub restore_workspace: bool,
    pub confirm_session_close: bool,
    pub status_bar_visible: bool,
    pub show_session_details: bool,
    pub show_durable_session_in_status_bar: bool,
    pub pulse_new_output_dot: bool,
    pub quick_switch_overlay: bool,
    pub compact_launcher_grid: bool,
}

/// How a saved SSH profile keeps its session alive.
#[derive(Clone, Copy, Debug, PartialEq, Eq, Structural)]
pub enum SessionStrategy {
    PlainShell,
    Tmux,
    Screen,
}

/// What launching a saved SSH profile depends on.
#[derive(Clone, Copy, Debug, PartialEq, Eq, Structural)]
pub struct SshProfile {
    /// The configured strategy, where it is a valid one.
    pub session_strategy: Option<SessionStrategy>,
    pub port_forwards_valid: bool,
    /// The stored secret that the profile refers to.
    pub credential: Option<u64>,
    pub sftp_gui_mode: bool,
}

#[derive(Debug)]
pub struct Profile {
    pub identifier: String,
    pub ssh: Option<SshProfile>,
}

/// A tab of a saved workspace: its number in the document and the tab it came
/// from or is to become.
#[derive(Clone, Copy, Debug, PartialEq, Eq, Structural)]
pub struct WorkspaceTab {
    pub identifier: u64,
    pub tab: u64,
}

/// A window of a saved workspace other than the first.
#[derive(Debug)]
pub struct WorkspaceWindow {
    pub tabs: Vec<WorkspaceTab>,
    pub focused: Option<u64>,
}

#[derive(Debug)]
pub struct Workspace {
    pub tabs: Vec<WorkspaceTab>,
    pub focused: Option<u64>,
    pub windows: Vec<WorkspaceWindow>,
}

/// The document in use. It is never changed, only replaced as a whole.
#[derive(Debug)]
pub struct Configuration {
    pub settings: InterfaceSettings,
    pub profiles: Arc<Vec<Profile>>,
    pub workspace: Option<Arc<Workspace>>,
}

/// The SSH part of the first profile named `identifier`.
pub open spec fn ssh_profile(profiles: Seq<Profile>, identifier: Seq<char>) -> Option<SshProfile>
    decreases profiles.len(),
{
    if profiles.len() == 0 {
        None
    } else if profiles[0].identifier@ == identifier {
        profiles[0].ssh
    } else {
        ssh_profile(profiles.skip(1), identifier)
    }
}

impl Configuration {
    /// The document without its saved workspace.
    pub fn without_workspace(&self) -> (configuration: Self)
        ensures
            configuration == (Configuration { workspace: None, ..*self }),
    {
        Configuration {
            settings: self.settings,
            profiles: self.profiles.clone(),
            workspace: None,
        }
    }

    /// The document that a window starts from: a saved workspace counts only
    /// where restoring it is switched on.
    pub open spec fn at_startup(self) -> Self {
        if self.settings.restore_workspace {
            self
        } else {
            Configuration { workspace: None, ..self }
        }
    }

    /// Looks up the SSH part of the profile named `identifier`.
    pub fn ssh_profile(&self, identifier: &str) -> (profile: Option<SshProfile>)
        ensures
            profile == ssh_profile(self.profiles@, identifier@),
    {
        let profiles: &Vec<Profile> = &self.profiles;
        let mut i: usize = 0;
        assert(profiles@.skip(0) =~= profiles@);
        while i < profiles.len()
            invariant
                profiles@ == self.profiles@,
                i <= profiles@.len(),
                ssh_profile(profiles@, identifier@) == ssh_profile(
                    profiles@.skip(i as int),
                    identifier@,
                ),
            decreases profiles@.len() - i,
        {
            assert(profiles@.skip(i as int).skip(1) =~= profiles@.skip(i + 1));
            if same_text(profiles[i].identifier.as_str(), identifier) {
                return profiles[i].ssh;
            }
            i = i + 1;
        }
        None
    }
}

/// A profile is found by its name: of several with one name the first, and none
/// where no profile has it.
pub proof fn profiles_are_found_by_name(profiles: Seq<Profile>, identifier: Seq<char>, i: int)
    ensures
        0 <= i < profiles.len() && profiles[i].identifier@ == identifier && (forall|j: int|
            0 <= j < i ==> (#[trigger] profiles[j]).identifier@ != identifier) ==> ssh_profile(
            profiles,
            identifier,
        ) == profiles[i].ssh,
        (forall|j: int| 0 <= j < profiles.len() ==> (#[trigger] profiles[j]).identifier@
            != identifier) ==> ssh_profile(profiles, identifier) is None,
    decreases profiles.len(),
{
    if profiles.len() > 0 {
        let rest = profiles.skip(1);
        profiles_are_found_by_name(rest, identifier, i - 1);
        assert forall|j: int| 0 <= j < rest.len() implies (#[trigger] rest[j]) == profiles[j
            + 1] by {}
        if 0 < i < profiles.len() && forall|j: int|
            0 <= j < i ==> (#[trigger] profiles[j]).identifier@ != identifier {
            assert(profiles[0].identifier@ != identifier);
            assert(rest[i - 1] == profiles[i]);
            assert forall|j: int| 0 <= j < i - 1 implies (#[trigger] rest[j]).identifier@
                != identifier by {
                assert(profiles[j + 1].identifier@ != identifier);
            }
        }
        if forall|j: int| 0 <= j < profiles.len() ==> (#[trigger] profiles[j]).identifier@
            != identifier {
            assert(profiles[0].identifier@ != identifier);
            assert forall|j: int| 0 <= j < rest.len() implies (#[trigger] rest[j]).identifier@
                != identifier by {
                assert(profiles[j + 1].identifier@ != identifier);
            }
        }
    }
}

/// A saved workspace counts at the start exactly where restoring is switched on;
/// preferences and profiles count either way.
pub proof fn workspaces_count_where_restored(configuration: Configuration)
    ensures
        configuration.at_startup().settings == configuration.settings,
        configuration.at_startup().profiles == configuration.profiles,
        configuration.settings.restore_workspace ==> configuration.at_startup().workspace
            == configuration.workspace,
        !configuration.settings.restore_workspace ==> configuration.at_startup().workspace is None,
{
}

/// A status calls for attention exactly where something failed, and a write that
/// succeeded never does.
pub proof fn failures_call_for_attention(
    status: ConfigurationStartupStatus,
    write: ConfigurationWrite,
    failure: ConfigurationLoadFailure,
)
    ensures
        status.problem() <==> !(status == ConfigurationStartupStatus::Loaded || status
            == ConfigurationStartupStatus::Missing || status == ConfigurationStartupStatus::Reloaded
            || status == ConfigurationStartupStatus::ReloadedMissing || status
            == ConfigurationStartupStatus::WorkspaceSaved),
        ConfigurationStatus::after_write(write, Ok(())).saved(),
        !ConfigurationStatus::after_write(write, Err(failure)).saved(),
        ConfigurationFileErrorKind::Parse.failure() == ConfigurationLoadFailure::Invalid,
        forall|kind: ConfigurationFileErrorKind|
            kind != ConfigurationFileErrorKind::Parse ==> #[trigger] kind.failure()
                == ConfigurationLoadFailure::Unreadable,
{
}

} // verus!
