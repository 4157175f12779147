use festerm::configuration::{
    failure_from_file_error, select_configuration_source, Configuration,
    ConfigurationFileErrorKind, ConfigurationLoadFailure, ConfigurationReloader,
    ConfigurationSource, ConfigurationStartupStatus, ConfigurationStatus, ConfigurationWrite,
    InterfaceSettings, Profile, SshProfile, StartupConfiguration, Workspace, WorkspaceTab,
};
use std::sync::Arc;

use festerm::app::{FesTermApp, WindowRole};
use festerm::state::{Destination, Tab, TabContent, TabId};

fn settings(restore_workspace: bool) -> InterfaceSettings {
    InterfaceSettings {
        restore_workspace,
        confirm_session_close: true,
        status_bar_visible: true,
        show_session_details: true,
        show_durable_session_in_status_bar: false,
        pulse_new_output_dot: false,
        quick_switch_overlay: false,
        compact_launcher_grid: false,
    }
}

fn document(restore_workspace: bool, workspace: Option<Workspace>) -> Arc<Configuration> {
    Arc::new(Configuration {
        settings: settings(restore_workspace),
        profiles: Arc::new(Vec::new()),
        workspace: workspace.map(Arc::new),
    })
}

fn saved_workspace() -> Workspace {
    Workspace {
        tabs: vec![WorkspaceTab {
            identifier: 1,
            tab: 1,
        }],
        focused: Some(1),
        windows: Vec::new(),
    }
}

fn tab(id: u64, content: TabContent) -> Tab {
    Tab {
        id: TabId(id),
        restorable: true,
        content,
    }
}

fn source() -> Result<ConfigurationSource<&'static str>, ConfigurationLoadFailure> {
    Ok(ConfigurationSource::Native("/home/user/.config/festerm"))
}

fn startup(
    loaded: Result<&'static str, ConfigurationFileErrorKind>,
) -> StartupConfiguration<&'static str, &'static str> {
    StartupConfiguration::load(source(), loaded, "defaults")
}

#[test]
fn missing_configuration_uses_empty_configuration() {
    let (configuration, status, _) =
        startup(Err(ConfigurationFileErrorKind::MissingFile)).into_parts();
    assert_eq!(configuration, "defaults");
    assert_eq!(status, ConfigurationStartupStatus::Missing);
    assert!(!status.is_problem());
    assert!(status.settings_message().contains("No configuration file"));
}

#[test]
fn valid_configuration_is_loaded() {
    let (configuration, status, _) = startup(Ok("mine")).into_parts();
    assert_eq!(configuration, "mine");
    assert_eq!(status, ConfigurationStartupStatus::Loaded);
}

#[test]
fn invalid_configuration_is_ignored_with_a_content_free_diagnostic() {
    let (configuration, status, _) = startup(Err(ConfigurationFileErrorKind::Parse)).into_parts();
    assert_eq!(configuration, "defaults");
    assert_eq!(
        status,
        ConfigurationStartupStatus::InitialFailure(ConfigurationLoadFailure::Invalid)
    );
    assert!(status.is_problem());
    assert!(!status.settings_message().contains("/home/user"));
}

#[test]
fn unreadable_configuration_is_ignored_with_a_content_free_diagnostic() {
    let (configuration, status, _) = startup(Err(ConfigurationFileErrorKind::Read)).into_parts();
    assert_eq!(configuration, "defaults");
    assert_eq!(
        status,
        ConfigurationStartupStatus::InitialFailure(ConfigurationLoadFailure::Unreadable)
    );
    assert!(!status.settings_message().contains("/home/user"));
}

#[test]
fn reload_valid_configuration_replaces_the_complete_candidate() {
    let reloader = ConfigurationReloader { selected: source() };
    let (replacement, status) = reloader.reload(Ok("new"), "defaults");
    assert_eq!(status, ConfigurationStartupStatus::Reloaded);
    assert_eq!(
        status.settings_message(),
        "Configuration was reloaded. Future Launcher choices use it; existing sessions are unchanged."
    );
    assert_eq!(replacement, Some("new"));
}

#[test]
fn invalid_reload_retains_the_last_known_configuration() {
    let reloader = ConfigurationReloader { selected: source() };
    let (replacement, status) = reloader.reload(Err(ConfigurationFileErrorKind::Parse), "defaults");
    assert_eq!(
        status,
        ConfigurationStartupStatus::ReloadFailure(ConfigurationLoadFailure::Invalid)
    );
    assert!(replacement.is_none());
    assert_eq!(
        status.settings_message(),
        "Configuration was not reloaded because it is invalid. The previous configuration remains active; fix it and try again."
    );
}

#[test]
fn missing_reload_replaces_configuration_with_defaults() {
    let reloader = ConfigurationReloader { selected: source() };
    let (replacement, status) =
        reloader.reload(Err(ConfigurationFileErrorKind::MissingFile), "defaults");
    assert_eq!(status, ConfigurationStartupStatus::ReloadedMissing);
    assert_eq!(
        status.settings_message(),
        "Configuration file is missing. fesTerm is using its defaults; existing sessions are unchanged."
    );
    assert_eq!(replacement, Some("defaults"));
}

#[test]
fn a_reload_without_a_location_keeps_the_document() {
    let unavailable = ConfigurationReloader::<&str>::unavailable();
    assert!(matches!(
        unavailable.reload(Ok("new"), "defaults"),
        (None, ConfigurationStartupStatus::ReloadFailure(_))
    ));
}

#[test]
fn unicode_override_takes_precedence_over_native_location() {
    assert_eq!(
        select_configuration_source(Some(Some("support-config.toml".to_owned())), Some("/native")),
        Ok(ConfigurationSource::Override("support-config.toml".to_owned()))
    );
    assert_eq!(
        select_configuration_source(None, Some("/native")),
        Ok(ConfigurationSource::Native("/native"))
    );
    assert_eq!(
        select_configuration_source::<&str>(None, None),
        Err(ConfigurationLoadFailure::NativeLocationUnavailable)
    );
}

#[test]
fn empty_override_is_unavailable() {
    assert_eq!(
        select_configuration_source(Some(Some(String::new())), Some("/native")),
        Err(ConfigurationLoadFailure::OverrideUnavailable)
    );
}

#[test]
fn non_unicode_override_is_unavailable() {
    assert_eq!(
        select_configuration_source(Some(None), Some("/native")),
        Err(ConfigurationLoadFailure::OverrideUnavailable)
    );
}

#[test]
fn an_unavailable_source_is_reported_and_never_read() {
    let startup: StartupConfiguration<&str, &str> = StartupConfiguration::load(
        Err(ConfigurationLoadFailure::OverrideUnavailable),
        Ok("never"),
        "defaults",
    );
    let (configuration, status, reloader) = startup.into_parts();
    assert_eq!(configuration, "defaults");
    assert_eq!(
        status,
        ConfigurationStartupStatus::InitialFailure(ConfigurationLoadFailure::OverrideUnavailable)
    );
    assert!(!reloader.owns_directory());
    assert_eq!(
        reloader.save_workspace(true, Ok(())),
        Err(ConfigurationLoadFailure::OverrideUnavailable)
    );
}

#[test]
fn failed_workspace_save_is_content_free() {
    let reloader = ConfigurationReloader { selected: source() };
    let failure = reloader
        .save_workspace(true, Err(ConfigurationFileErrorKind::Replace))
        .unwrap_err();
    let message = ConfigurationStartupStatus::WorkspaceSaveFailure(failure).settings_message();
    assert!(!message.contains("/home/user"));
    assert!(!message.contains("schema_version"));
    assert_eq!(
        reloader.save_workspace(false, Ok(())),
        Err(ConfigurationLoadFailure::Unreadable)
    );
}

#[test]
fn explicit_workspace_save_creates_only_the_missing_native_directory_and_loads() {
    let native = ConfigurationReloader { selected: source() };
    assert!(native.owns_directory());
    assert_eq!(native.save_workspace(true, Ok(())), Ok(()));
    let given = ConfigurationReloader::<&str> {
        selected: Ok(ConfigurationSource::Override("/tmp/c.toml".to_owned())),
    };
    assert!(!given.owns_directory());
}

#[test]
fn only_a_broken_document_counts_as_invalid() {
    for kind in [
        ConfigurationFileErrorKind::Read,
        ConfigurationFileErrorKind::InvalidTargetPath,
        ConfigurationFileErrorKind::CreateTemporary,
        ConfigurationFileErrorKind::WriteTemporary,
        ConfigurationFileErrorKind::SyncTemporary,
        ConfigurationFileErrorKind::Replace,
        ConfigurationFileErrorKind::RestorePrevious,
        ConfigurationFileErrorKind::CleanupPrevious,
        ConfigurationFileErrorKind::SyncParentDirectory,
        ConfigurationFileErrorKind::Serialization,
    ] {
        assert_eq!(
            failure_from_file_error(kind),
            ConfigurationLoadFailure::Unreadable
        );
    }
    assert_eq!(
        failure_from_file_error(ConfigurationFileErrorKind::Parse),
        ConfigurationLoadFailure::Invalid
    );
}

#[test]
fn default_configuration_starts_at_the_launcher() {
    let app = FesTermApp::with_configuration(
        document(false, None),
        Ok(()),
        Vec::new(),
        None,
        None,
        TabId(1),
    );
    assert!(app.shell.primary_tab.is_none());
    assert_eq!(app.state.tabs.len(), 1);
    assert!(matches!(app.state.tabs[0].content, TabContent::Launcher));
}

#[test]
fn startup_workspace_replaces_the_default_local_session() {
    let waiting = Destination {
        label: "production".to_owned(),
        host: "ssh.example.test".to_owned(),
        port: 2200,
    };
    let app = FesTermApp::with_configuration(
        document(true, Some(saved_workspace())),
        Ok(()),
        vec![
            tab(1, TabContent::Launcher),
            tab(2, TabContent::SshAuthenticationRequired(waiting)),
        ],
        Some(TabId(2)),
        None,
        TabId(9),
    );
    assert!(app.shell.primary_tab.is_none());
    assert_eq!(app.state.tabs.len(), 2);
    assert!(matches!(app.state.tabs[0].content, TabContent::Launcher));
    assert!(matches!(
        app.state.tabs[1].content,
        TabContent::SshAuthenticationRequired(_)
    ));
    assert_eq!(app.state.active, app.state.tabs[1].id);
}

#[test]
fn startup_workspace_restores_sftp_tabs_as_authentication_required_surfaces() {
    let waiting = Destination {
        label: "production".to_owned(),
        host: "ssh.example.test".to_owned(),
        port: 2200,
    };
    let app = FesTermApp::with_configuration(
        document(true, Some(saved_workspace())),
        Ok(()),
        vec![tab(1, TabContent::SftpAuthenticationRequired(waiting))],
        Some(TabId(1)),
        None,
        TabId(9),
    );
    assert_eq!(app.state.tabs.len(), 1);
    assert!(matches!(
        app.state.tabs[0].content,
        TabContent::SftpAuthenticationRequired(_)
    ));
}

#[test]
fn a_saved_workspace_is_ignored_at_startup_when_restore_workspace_is_off() {
    let app = FesTermApp::with_configuration(
        document(false, Some(saved_workspace())),
        Ok(()),
        vec![tab(1, TabContent::Settings)],
        Some(TabId(1)),
        None,
        TabId(9),
    );
    assert_eq!(app.state.tabs.len(), 1);
    assert!(matches!(app.state.tabs[0].content, TabContent::Launcher));
    assert!(
        app.shell.documents.configuration.workspace.is_none(),
        "a workspace that is not restored must not come back with an unrelated save"
    );
}

#[test]
fn a_smoke_run_starts_in_its_own_tab() {
    let app = FesTermApp::with_configuration(
        document(false, None),
        Ok(()),
        Vec::new(),
        None,
        Some(tab(5, TabContent::Settings)),
        TabId(9),
    );
    assert!(app.shell.native_smoke);
    assert_eq!(app.shell.primary_tab, Some(TabId(5)));
    assert_eq!(app.state.active, TabId(5));
}

fn primary() -> FesTermApp {
    FesTermApp::with_configuration(
        document(true, None),
        Ok(()),
        Vec::new(),
        None,
        None,
        TabId(1),
    )
}

#[test]
fn turning_off_restore_workspace_clears_any_previously_saved_workspace_from_disk() {
    let mut app = FesTermApp::with_configuration(
        document(true, Some(saved_workspace())),
        Ok(()),
        Vec::new(),
        None,
        None,
        TabId(1),
    );
    assert!(app.restores_workspace());
    let cleared = app.cleared_workspace();
    assert!(app.apply_configuration_save(ConfigurationWrite::Workspace, Some(cleared), Ok(())));
    assert!(app.shell.documents.configuration.workspace.is_none());
    assert!(app
        .take_configuration_broadcast()
        .unwrap()
        .workspace
        .is_none());
}

#[test]
fn successful_workspace_save_replaces_configuration_after_writing() {
    let mut app = primary();
    let replacement = document(true, Some(saved_workspace()));
    assert!(app.save_workspace(Some(replacement.clone()), Ok(())));
    assert_eq!(
        app.shell.documents.status,
        ConfigurationStatus::Startup(ConfigurationStartupStatus::WorkspaceSaved)
    );
    assert!(Arc::ptr_eq(
        &app.shell.documents.configuration,
        &replacement
    ));
    assert!(Arc::ptr_eq(
        &app.take_configuration_broadcast().unwrap(),
        &replacement
    ));
}

#[test]
fn workspace_autosaves_after_a_tab_mutating_frame_with_no_manual_save_action() {
    let mut app = primary();
    app.shell.requests.workspace_dirty = true;
    app.request_workspace_save();
    assert!(app.take_workspace_save_request());
    assert!(!app.take_workspace_save_request());
    assert!(!app.shell.requests.workspace_dirty);
}

#[test]
fn failed_workspace_save_retains_configuration_without_path_or_content_leakage() {
    let mut app = primary();
    let before = app.shell.documents.configuration.clone();
    assert!(!app.save_workspace(
        Some(document(true, Some(saved_workspace()))),
        Err(ConfigurationLoadFailure::Unreadable)
    ));
    assert_eq!(
        app.shell.documents.status,
        ConfigurationStatus::Startup(ConfigurationStartupStatus::WorkspaceSaveFailure(
            ConfigurationLoadFailure::Unreadable
        ))
    );
    assert!(Arc::ptr_eq(&app.shell.documents.configuration, &before));
    assert!(app.take_configuration_broadcast().is_none());
}

#[test]
fn a_secondary_window_does_not_persist_its_workspace() {
    let mut app = primary().with_startup_status(ConfigurationStartupStatus::Loaded);
    app.shell.role = WindowRole::Secondary;
    assert!(!app.save_workspace(
        Some(document(true, Some(saved_workspace()))),
        Err(ConfigurationLoadFailure::Unreadable)
    ));
    assert!(app.take_configuration_broadcast().is_none());
    assert_eq!(
        app.shell.documents.status,
        ConfigurationStatus::Startup(ConfigurationStartupStatus::Loaded)
    );
}

#[test]
fn an_invalid_replacement_is_never_written() {
    let mut app = primary();
    assert!(!app.apply_configuration_save(ConfigurationWrite::Profile, None, Ok(())));
    assert_eq!(
        app.shell.documents.status,
        ConfigurationStatus::NotWritten(
            ConfigurationWrite::Profile,
            ConfigurationLoadFailure::Invalid
        )
    );
    assert!(!app.shell.documents.status.was_saved());
    assert!(ConfigurationStatus::of_write(ConfigurationWrite::Profile, Ok(())).was_saved());
}

#[test]
fn profiles_are_found_by_their_identifier() {
    let ssh = SshProfile {
        session_strategy: None,
        port_forwards_valid: true,
        credential: Some(4),
        sftp_gui_mode: true,
    };
    let configuration = Configuration {
        settings: settings(false),
        profiles: Arc::new(vec![
            Profile {
                identifier: "shell".to_owned(),
                ssh: None,
            },
            Profile {
                identifier: "remote".to_owned(),
                ssh: Some(ssh),
            },
        ]),
        workspace: None,
    };
    assert_eq!(configuration.ssh_profile("remote"), Some(ssh));
    assert_eq!(configuration.ssh_profile("shell"), None);
    assert_eq!(configuration.ssh_profile("nobody"), None);
}

#[test]
fn every_outcome_has_a_message_of_its_own() {
    let failures = [
        ConfigurationLoadFailure::Invalid,
        ConfigurationLoadFailure::Unreadable,
        ConfigurationLoadFailure::OverrideUnavailable,
        ConfigurationLoadFailure::NativeLocationUnavailable,
    ];
    let mut all = vec![
        ConfigurationStartupStatus::Loaded,
        ConfigurationStartupStatus::Missing,
        ConfigurationStartupStatus::Reloaded,
        ConfigurationStartupStatus::ReloadedMissing,
        ConfigurationStartupStatus::WorkspaceSaved,
    ];
    for failure in failures {
        let reload = ConfigurationStartupStatus::ReloadFailure(failure);
        let save = ConfigurationStartupStatus::WorkspaceSaveFailure(failure);
        assert!(reload
            .settings_message()
            .contains("The previous configuration remains active"));
        assert!(save
            .settings_message()
            .contains("The active configuration remains unchanged"));
        all.push(ConfigurationStartupStatus::InitialFailure(failure));
        all.push(reload);
        all.push(save);
    }
    for a in &all {
        for b in &all {
            assert_eq!(a == b, a.settings_message() == b.settings_message());
        }
    }
}
