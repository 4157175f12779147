#[allow(unused_imports)]
use std::sync::Arc;

#[allow(unused_imports)]
use festerm::app::{FesTermApp, TabMoveRequest, WindowRole};
#[allow(unused_imports)]
use festerm::configuration::{Configuration, InterfaceSettings};
#[allow(unused_imports)]
use festerm::state::{ChipStatus, SessionTab, Tab, TabContent, TabId, Transport};
use festerm::configuration::{
    ConfigurationStartupStatus, ConfigurationStatus, ConfigurationWrite, Profile, Workspace,
    WorkspaceTab,
};
use festerm::windows::{FesTermApplication, WindowId};
use festerm::workspace::RestoredWindow;

fn application() -> FesTermApplication {
    FesTermApplication::new(launcher_app(), 100)
}

fn opened() -> FesTermApplication {
    let mut application = application();
    application.windows[0].app.shell.requests.open_window = true;
    let effects = application.settle_windows();
    assert!(effects.repaint);
    application
}

fn tab(id: u64, content: TabContent) -> Tab {
    Tab {
        id: TabId(id),
        restorable: true,
        content,
    }
}

fn show(application: &mut FesTermApplication, window: usize, content: TabContent) -> TabId {
    let id = application.next_tab_id;
    application.next_tab_id += 1;
    let state = &mut application.windows[window].app.state;
    state.tabs.push(tab(id, content));
    state.active = TabId(id);
    TabId(id)
}

fn ids(application: &FesTermApplication, window: usize) -> Vec<u64> {
    application.windows[window]
        .app
        .state
        .tabs
        .iter()
        .map(|tab| tab.id.0)
        .collect()
}

fn ask(application: &mut FesTermApplication, window: usize, moved: TabId, target: Option<u64>) {
    application.windows[window].app.shell.requests.move_tab = Some(TabMoveRequest {
        moved,
        target,
        before: None,
    });
}

fn compact() -> Arc<Configuration> {
    let mut settings = settings();
    settings.compact_launcher_grid = true;
    configuration(settings)
}

fn on_the_launcher(app: &FesTermApp) -> bool {
    matches!(
        app.state.tab(app.state.active).unwrap().content,
        TabContent::Launcher
    )
}

#[test]
fn opening_a_window_adds_one_window_to_the_application() {
    let mut application = application();
    assert_eq!(application.windows.len(), 1);
    application.windows[0].app.shell.requests.open_window = true;
    application.settle_windows();
    assert_eq!(application.windows.len(), 2);
    assert_eq!(application.windows[1].app.shell.role, WindowRole::Secondary);
    application.settle_windows();
    assert_eq!(application.windows.len(), 2);
}

#[test]
fn a_new_window_starts_on_the_launcher_rather_than_cloning_the_originating_tabs() {
    let mut application = application();
    show(&mut application, 0, TabContent::Settings);
    application.windows[0].app.shell.requests.open_window = true;
    application.settle_windows();

    let opened = &application.windows[1].app;
    assert_eq!(opened.state.tabs.len(), 1);
    assert!(on_the_launcher(opened));
}

#[test]
fn an_interface_setting_committed_in_one_window_reaches_every_other_window() {
    let mut application = opened();
    let compact_grid = |application: &FesTermApplication| {
        application.windows[1]
            .app
            .shell
            .documents
            .settings
            .compact_launcher_grid
    };
    assert!(!compact_grid(&application));

    assert!(application.windows[0].app.apply_configuration_save(
        ConfigurationWrite::InterfaceSettings,
        Some(compact()),
        Ok(()),
    ));
    application.settle_windows();

    assert!(compact_grid(&application));
}

#[test]
fn a_profile_saved_in_one_window_is_visible_in_every_other_windows_launcher() {
    let mut application = opened();
    let profiles = |application: &FesTermApplication| {
        application.windows[1]
            .app
            .shell
            .documents
            .configuration
            .profiles
            .len()
    };
    assert_eq!(profiles(&application), 0);

    let committed = Arc::new(Configuration {
        settings: settings(),
        profiles: Arc::new(vec![Profile {
            identifier: "shell".to_owned(),
            ssh: None,
        }]),
        workspace: None,
    });
    assert!(application.windows[0].app.apply_configuration_save(
        ConfigurationWrite::Profile,
        Some(committed),
        Ok(()),
    ));
    application.settle_windows();

    assert_eq!(profiles(&application), 1);
}

#[test]
fn adopting_a_siblings_configuration_leaves_this_windows_tabs_untouched() {
    let mut application = opened();
    show(&mut application, 1, TabContent::Settings);
    let tabs_before = ids(&application, 1);
    let active_before = application.windows[1].app.state.active;

    application.windows[0]
        .app
        .shell
        .documents
        .pending_broadcast = Some(compact());
    application.settle_windows();

    assert_eq!(ids(&application, 1), tabs_before);
    assert_eq!(application.windows[1].app.state.active, active_before);
}

#[test]
fn a_closed_secondary_window_is_dropped_and_the_primary_window_is_not() {
    let mut application = opened();
    application.windows[1].app.shell.exit.window_close_accepted = true;
    application.windows[0].app.shell.exit.window_close_accepted = true;
    application.settle_windows();
    assert_eq!(application.windows.len(), 1);
    assert!(application.windows[0].id.is_primary());
}

#[test]
fn adopting_a_broadcast_does_not_re_broadcast_it() {
    let mut application = opened();
    application.windows[0]
        .app
        .shell
        .documents
        .pending_broadcast = Some(compact());
    application.settle_windows();
    assert!(application.windows[1]
        .app
        .take_configuration_broadcast()
        .is_none());
    assert!(application.windows[0]
        .app
        .take_configuration_broadcast()
        .is_none());
}

#[test]
fn a_tab_dropped_on_another_window_moves_into_it() {
    let mut application = application();
    let moved = show(&mut application, 0, TabContent::Settings);
    application.windows[0].app.shell.requests.open_window = true;
    application.settle_windows();
    let target = application.windows[1].id.viewport_id();

    ask(&mut application, 0, moved, Some(target));
    let effects = application.settle_windows();

    assert_eq!(application.windows.len(), 2);
    assert!(
        !ids(&application, 0).contains(&moved.0),
        "the source window must give the tab up rather than keep a copy"
    );
    assert!(
        ids(&application, 1).contains(&moved.0),
        "the destination window must own the very tab that was dragged"
    );
    assert_eq!(application.windows[1].app.state.active, moved);
    assert_eq!(effects.focus, vec![target]);
}

#[test]
fn a_secondary_window_that_loses_its_last_tab_closes() {
    let mut application = opened();
    let moved = application.windows[1].app.state.active;
    let primary = application.windows[0].id.viewport_id();

    ask(&mut application, 1, moved, Some(primary));
    application.settle_windows();

    assert_eq!(application.windows.len(), 1);
    assert!(ids(&application, 0).contains(&moved.0));
}

#[test]
fn the_primary_window_falls_back_to_the_launcher_instead_of_closing() {
    let mut application = opened();
    let moved = application.windows[0].app.state.active;
    let target = application.windows[1].id.viewport_id();

    ask(&mut application, 0, moved, Some(target));
    application.settle_windows();

    assert_eq!(application.windows.len(), 2);
    assert_eq!(application.windows[0].app.state.tabs.len(), 1);
    assert!(on_the_launcher(&application.windows[0].app));
    assert!(
        !ids(&application, 0).contains(&moved.0),
        "the fallback Launcher must be a new tab, not the one that moved"
    );
}

#[test]
fn a_tab_dropped_outside_every_window_detaches_into_a_new_one() {
    let mut application = application();
    let moved = show(&mut application, 0, TabContent::Settings);

    ask(&mut application, 0, moved, None);
    application.settle_windows();

    assert_eq!(application.windows.len(), 2);
    assert_eq!(
        ids(&application, 1),
        vec![moved.0],
        "the detached window must own the dragged tab, not a fresh Launcher"
    );
    assert_eq!(ids(&application, 0), vec![1]);
}

#[test]
fn detaching_the_only_tab_of_a_secondary_window_does_nothing() {
    let mut application = opened();
    let moved = application.windows[1].app.state.active;

    ask(&mut application, 1, moved, None);
    application.settle_windows();

    assert_eq!(application.windows.len(), 2);
    assert!(ids(&application, 1).contains(&moved.0));
}

#[test]
fn a_move_to_a_window_that_no_longer_exists_keeps_the_tab_where_it_is() {
    let mut application = application();
    let moved = show(&mut application, 0, TabContent::Settings);
    let closed = WindowId(77).viewport_id();

    ask(&mut application, 0, moved, Some(closed));
    application.settle_windows();

    assert_eq!(application.windows.len(), 1);
    assert!(ids(&application, 0).contains(&moved.0));
}

#[test]
fn a_move_of_a_tab_that_is_not_there_disturbs_nothing() {
    let mut application = opened();
    let target = application.windows[1].id.viewport_id();
    ask(&mut application, 0, TabId(9_999), Some(target));
    let effects = application.settle_windows();
    assert!(effects.focus.is_empty() && !effects.repaint);
    assert_eq!(ids(&application, 0), vec![1]);
    assert_eq!(application.windows[1].app.state.tabs.len(), 1);
}

#[test]
fn a_tab_moves_in_front_of_the_tab_it_is_dropped_on() {
    let mut application = opened();
    let resident = application.windows[1].app.state.active;
    let moved = show(&mut application, 0, TabContent::Settings);
    application.windows[0].app.shell.requests.move_tab = Some(TabMoveRequest {
        moved,
        target: Some(application.windows[1].id.viewport_id()),
        before: Some(resident),
    });
    application.settle_windows();
    assert_eq!(ids(&application, 1), vec![moved.0, resident.0]);
}

#[test]
fn a_saved_workspace_covers_every_window() {
    let mut restoring = settings();
    restoring.restore_workspace = true;
    let app = FesTermApp::with_configuration(
        configuration(restoring),
        Ok(()),
        Vec::new(),
        None,
        None,
        TabId(1),
    );
    let mut application = FesTermApplication::new(app, 100);
    show(&mut application, 0, TabContent::Settings);
    application.windows[0].app.shell.requests.open_window = true;
    application.settle_windows();
    let front = show(&mut application, 1, TabContent::Profiles);
    application.windows[1].app.shell.requests.save_workspace = true;
    let workspace = application.settle_windows().workspace.unwrap();

    assert_eq!(
        workspace.tabs.len(),
        2,
        "the primary window's tabs stay in the workspace's own tab list"
    );
    assert_eq!(workspace.windows.len(), 1);
    assert_eq!(workspace.windows[0].tabs.len(), 2);
    let mut identifiers: Vec<u64> = workspace
        .tabs
        .iter()
        .chain(workspace.windows[0].tabs.iter())
        .map(|tab| tab.identifier)
        .collect();
    identifiers.sort_unstable();
    assert_eq!(
        identifiers,
        vec![1, 2, 3, 4],
        "tab identifiers address tabs workspace-wide, so no two windows may reuse one"
    );
    assert_eq!(workspace.windows[0].tabs[1].tab, front.0);
    assert_eq!(
        workspace.windows[0].focused,
        Some(workspace.windows[0].tabs[1].identifier)
    );
    assert!(application.settle_windows().workspace.is_none());
}

#[test]
fn tabs_that_cannot_be_brought_back_are_not_listed() {
    let mut restoring = settings();
    restoring.restore_workspace = true;
    let mut application = opened();
    for window in &mut application.windows {
        window.app.preference_changed(restoring);
    }
    application.windows[1].app.state.tabs[0].restorable = false;
    application.windows[0].app.shell.requests.save_workspace = true;
    let workspace = application.settle_windows().workspace.unwrap();
    assert!(workspace.windows.is_empty());
    assert_eq!(workspace.tabs.len(), 1);
}

#[test]
fn restoring_a_workspace_reopens_its_additional_windows() {
    let mut restoring = settings();
    restoring.restore_workspace = true;
    let saved = Arc::new(Configuration {
        settings: restoring,
        profiles: Arc::new(Vec::new()),
        workspace: Some(Arc::new(Workspace {
            tabs: vec![WorkspaceTab {
                identifier: 1,
                tab: 1,
            }],
            focused: None,
            windows: Vec::new(),
        })),
    });
    let app = FesTermApp::with_configuration(
        saved,
        Ok(()),
        vec![tab(1, TabContent::Launcher)],
        None,
        None,
        TabId(9),
    );
    let mut application = FesTermApplication::new(app, 10);
    assert!(application.windows[0]
        .app
        .take_restored_windows()
        .is_some());

    application.restore_windows(vec![RestoredWindow {
        contents: vec![TabContent::Settings, TabContent::Profiles],
        focused: Some(1),
    }]);

    assert_eq!(application.windows.len(), 2);
    assert_eq!(application.windows[0].app.state.tabs.len(), 1);
    assert_eq!(application.windows[1].app.state.tabs.len(), 2);
    let restored = &application.windows[1].app.state;
    assert!(matches!(
        restored.tab(restored.active).unwrap().content,
        TabContent::Profiles
    ));
    assert!(application.windows[0]
        .app
        .take_restored_windows()
        .is_none());
}

#[test]
fn window_identifiers_and_viewports_tell_windows_apart() {
    let mut application = opened();
    assert_eq!(application.windows[0].id, WindowId(0));
    assert_eq!(application.windows[0].id.title(), "fesTerm");
    assert_eq!(application.windows[0].viewport, application.windows[0].id.viewport_id());
    assert_ne!(
        application.windows[0].id.viewport_id(),
        application.windows[1].id.viewport_id()
    );
    let first = application.windows[1].id;
    application.windows[1].app.shell.exit.window_close_accepted = true;
    application.windows[0].app.shell.requests.open_window = true;
    application.settle_windows();
    assert_eq!(application.windows.len(), 2);
    assert_ne!(application.windows[1].id, first);
    assert_eq!(application.window_index(first), None);
}

#[test]
fn the_viewport_of_a_window_is_the_hash_that_the_window_system_uses() {
    for id in [1_u64, 2, 77] {
        let expected = eframe::egui::ViewportId::from_hash_of(("festerm-window", id));
        assert_eq!(WindowId(id).viewport_id(), expected.0.value());
        assert_ne!(WindowId(id).viewport_id(), id);
    }
}

#[test]
fn an_adopted_document_shows_no_write_of_its_own() {
    let mut app = launcher_app().with_startup_status(ConfigurationStartupStatus::Loaded);
    app.adopt_broadcast_configuration(compact());
    assert!(
        app.shell
            .documents
            .configuration
            .settings
            .compact_launcher_grid
    );
    assert!(app.shell.documents.settings.compact_launcher_grid);
    assert_eq!(
        app.shell.documents.status,
        ConfigurationStatus::Startup(ConfigurationStartupStatus::Loaded)
    );
    assert!(app.take_configuration_broadcast().is_none());
}
#[test]
fn a_pass_gives_no_identifier_out_again() {
    let mut application = opened();
    let before = application.next_window_id;
    application.windows[1].app.shell.exit.window_close_accepted = true;
    application.windows[0].app.shell.requests.open_window = true;
    application.windows[1].app.shell.requests.open_window = true;
    application.settle_windows();
    assert_eq!(application.next_window_id, before + 2);
    assert_eq!(application.windows.len(), 3);
    for window in &application.windows[1..] {
        assert!(window.id.0 >= before);
        assert_eq!(window.app.state.tabs.len(), 1);
        assert!(on_the_launcher(&window.app));
    }
}

#[allow(dead_code)]
fn settings() -> InterfaceSettings {
    InterfaceSettings {
        restore_workspace: false,
        confirm_session_close: true,
        status_bar_visible: true,
        show_session_details: true,
        show_durable_session_in_status_bar: false,
        pulse_new_output_dot: false,
        quick_switch_overlay: false,
        compact_launcher_grid: false,
    }
}

#[allow(dead_code)]
fn configuration(settings: InterfaceSettings) -> Arc<Configuration> {
    Arc::new(Configuration {
        settings,
        profiles: Arc::new(Vec::new()),
        workspace: None,
    })
}

/// A window on the launcher, in tab 1.
#[allow(dead_code)]
fn launcher_app() -> FesTermApp {
    FesTermApp::with_configuration(
        configuration(settings()),
        Ok(()),
        Vec::new(),
        None,
        None,
        TabId(1),
    )
}

#[allow(dead_code)]
fn session(label: &str, transport: Transport) -> SessionTab {
    SessionTab {
        label: label.to_owned(),
        launch_secondary: None,
        dynamic_secondary: None,
        terminal_title: String::new(),
        profile_identifier: None,
        transport,
        chip_status: ChipStatus::Connected,
        status_label: "Running".to_owned(),
        system_label: "linux".to_owned(),
        dimensions: None,
        durable_label: None,
        accepts_input: true,
        accepts_typed_input: true,
        bracketed_paste: false,
        lifecycle_generation: 1,
        clipboard_pending: None,
        clipboard_failed: None,
        search_open: false,
        host_key_prompt: None,
        password_prompt: false,
        live_port_forwarding: false,
        active_port_forwards: 0,
        close_requires_confirmation: true,
        reconnect_available: false,
        input_recording: false,
        has_new_output: false,
        evicted_lines: 0,
        eviction_notice_shown: false,
    }
}

#[allow(dead_code)]
fn local() -> Transport {
    Transport::Local { persistence: None }
}

#[allow(dead_code)]
fn ssh() -> Transport {
    Transport::Ssh {
        username: "controlled".to_owned(),
        host: "ssh.example.test".to_owned(),
        port: 22,
        persistence: None,
    }
}

#[allow(dead_code)]
fn session_tab(id: u64, session: SessionTab) -> Tab {
    Tab {
        id: TabId(id),
        restorable: true,
        content: TabContent::Session(session),
    }
}

/// A window on one session, in tab 7.
#[allow(dead_code)]
fn app_with(session: SessionTab) -> FesTermApp {
    let mut app = launcher_app();
    app.state.tabs = vec![session_tab(7, session)];
    app.state.active = TabId(7);
    app
}

#[allow(dead_code)]
fn live_local() -> FesTermApp {
    app_with(session("Local Shell", local()))
}

#[allow(dead_code)]
fn live_ssh() -> FesTermApp {
    let mut remote = session("controlled", ssh());
    remote.live_port_forwarding = true;
    app_with(remote)
}

#[allow(dead_code)]
fn front(app: &mut FesTermApp) -> &mut SessionTab {
    let active = app.state.active;
    let tab = app
        .state
        .tabs
        .iter_mut()
        .find(|tab| tab.id == active)
        .unwrap();
    match &mut tab.content {
        TabContent::Session(session) => session,
        _ => panic!("a session is in front"),
    }
}
