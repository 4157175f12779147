#[allow(unused_imports)]
use std::sync::Arc;

#[allow(unused_imports)]
use festerm::app::{FesTermApp, TabMoveRequest, WindowRole};
#[allow(unused_imports)]
use festerm::configuration::{Configuration, InterfaceSettings};
#[allow(unused_imports)]
use festerm::state::{ChipStatus, SessionTab, Tab, TabContent, TabId, Transport};
use festerm::about::{
    update_panel, version_information, AboutClick, UpdateAction, UpdateStatus,
};
use festerm::app::ClipboardPasteOrigin;
use festerm::chips::display_secondary;
use festerm::chrome::ChromeAction;
use festerm::clipboard::{delivery_goes_ahead, delivery_to_fail};
use festerm::configuration::{
    ConfigurationLoadFailure, ConfigurationStatus, ConfigurationWrite, Profile, SessionStrategy,
    SshProfile,
};
use festerm::credentials::{
    secret_store_message, secret_to_delete, LinkOutcome, ProfileLaunch, SecretStoreError, StorageFeedback,
    StorePoll, StoredLaunch, WorkerEvent,
};
use festerm::dialogs::DialogClick;
use festerm::effects::{AppCommand, Effect, HostKeyTrustDecision, ZoomCommand};
use festerm::forwards::{
    ForwardClick, ForwardListing, PortForward, PortForwardSource, PortForwardState,
};
use festerm::frame::{DocumentCheck, OverlayAction, ScreenCommand};
use festerm::host_keys::{
    canonical_host_port, first_seen_decision, ChangedKeyPrompt, PromptEvent, PromptKeys,
};
use festerm::menu::{key_name, native_key, MenuBinding, NativeMenuCommand, ParsedChord};
use festerm::overlays::{
    CredentialKind, Notice, PendingPasswordStore, PortForwardDirection, QuitConfirmationPurpose,
    StoredCredentialLaunch,
};
use festerm::palette::{BindingLabels, PaletteItem, TAB_ACTIVATE_OFFSET};
use festerm::profiles::ProfileCommand;
use festerm::search::{find_bar_steps, find_label, FindBarInput, SearchStep};
use festerm::sequence::{FrameAnswer, FramePass, FrameStage, PaletteDecision};
use festerm::shortcuts::{
    quick_switch_label, ApplicationShortcut, Key, KeyboardAction, Platform,
};
use festerm::state::{Destination, HostKeyPrompt, MarkdownViewerTab};
use festerm::status::{port_forward_count_label, InspectorAction, TransportFacts};
use festerm::windows::APPLICATION_TITLE;

fn no_labels() -> BindingLabels {
    BindingLabels { labels: Vec::new() }
}

fn viewer(id: u64) -> Tab {
    Tab {
        id: TabId(id),
        restorable: true,
        content: TabContent::MarkdownViewer(MarkdownViewerTab {
            title: "readme.md".to_owned(),
            secondary: "/docs".to_owned(),
            live_document: None,
            status: ChipStatus::Neutral,
            status_context: "Markdown".to_owned(),
            status_encoding: "UTF-8".to_owned(),
            status_label: "Preview".to_owned(),
        }),
    }
}

fn viewing() -> FesTermApp {
    let mut app = launcher_app();
    app.state.tabs.push(viewer(2));
    app.state.active = TabId(2);
    app
}

fn offers(items: &[PaletteItem], label: &str) -> bool {
    items.iter().any(|item| item.label == label)
}

fn notice(app: &FesTermApp) -> Option<String> {
    app.shell
        .overlays
        .transient_notice
        .as_ref()
        .map(|shown| shown.notice.text())
}

fn sample_port_forwards() -> Vec<PortForward> {
    vec![
        PortForward {
            direction: PortForwardDirection::Local,
            bind_host: "127.0.0.1".to_owned(),
            bind_port: 15432,
            destination_host: "db.internal".to_owned(),
            destination_port: 5432,
            source: PortForwardSource::Profile,
            state: PortForwardState::Active,
            failure_reason: None,
        },
        PortForward {
            direction: PortForwardDirection::Remote,
            bind_host: "127.0.0.1".to_owned(),
            bind_port: 18080,
            destination_host: "127.0.0.1".to_owned(),
            destination_port: 8080,
            source: PortForwardSource::Ephemeral,
            state: PortForwardState::Failed,
            failure_reason: Some("remote bind denied".to_owned()),
        },
    ]
}

#[test]
fn the_status_bar_names_the_active_tabs_durable_session_only_when_asked() {
    let mut app = live_ssh();
    front(&mut app).durable_label = Some("tmux · deploy-watch".to_owned());
    assert_eq!(app.status_bar().durable_session, None);

    let mut asked = settings();
    asked.show_durable_session_in_status_bar = true;
    app.preference_changed(asked);
    assert_eq!(
        app.status_bar().durable_session.as_deref(),
        Some("tmux · deploy-watch")
    );

    app.state.tabs.push(Tab {
        id: TabId(9),
        restorable: true,
        content: TabContent::Launcher,
    });
    app.state.active = TabId(9);
    assert_eq!(app.status_bar().durable_session, None);
}

#[test]
fn find_in_terminal_palette_command_opens_the_find_bar() {
    let mut app = live_local();
    let effects = app.dispatch_palette_selection(15, &Vec::new(), None, 0);
    assert!(matches!(effects[0], Effect::OpenSearch(TabId(7))));
}

#[test]
fn open_terminal_search_opens_find_bar_and_focuses_query() {
    let app = live_local();
    let effects = app.open_terminal_search();
    assert!(matches!(
        effects.as_slice(),
        [Effect::OpenSearch(TabId(7)), Effect::Repaint]
    ));
    assert!(launcher_app().open_terminal_search().is_empty());
}

#[test]
fn terminal_search_finds_and_navigates_matches() {
    let quiet = FindBarInput {
        query_changed: false,
        enter: false,
        shift: false,
        escape: false,
        previous_clicked: false,
        next_clicked: false,
        close_clicked: false,
    };
    assert!(find_bar_steps(quiet).is_empty());
    assert_eq!(
        find_bar_steps(FindBarInput {
            enter: true,
            ..quiet
        })[0],
        SearchStep::Advance
    );
    assert_eq!(
        find_bar_steps(FindBarInput {
            enter: true,
            shift: true,
            ..quiet
        })[0],
        SearchStep::Retreat
    );
    assert_eq!(
        find_bar_steps(FindBarInput {
            query_changed: true,
            ..quiet
        })[0],
        SearchStep::SetQuery
    );
    assert_eq!(find_label(true, Some(2), 3), "2 of 3");
    assert_eq!(find_label(true, None, 0), "No matches");
    assert_eq!(find_label(false, Some(2), 3), "");
}

#[test]
fn escape_closes_terminal_search_and_restores_terminal_focus() {
    let mut app = live_local();
    front(&mut app).search_open = true;
    let effects = app.close_terminal_search();
    assert!(matches!(
        effects.as_slice(),
        [
            Effect::CloseSearch(TabId(7)),
            Effect::FocusTerminal(TabId(7)),
            Effect::Repaint
        ]
    ));
}

#[test]
fn disconnected_overlay_reconnects_the_same_tab_through_application_command() {
    let mut app = live_ssh();
    let effects = app.dispatch_overlay_action(OverlayAction::Reconnect);
    assert!(matches!(
        effects.as_slice(),
        [Effect::Dispatch(AppCommand::ReconnectSession(TabId(7)))]
    ));
}

#[test]
fn opening_the_port_forward_manager_shows_an_empty_state() {
    let mut app = live_ssh();
    let effects = app.open_port_forward_manager();
    assert!(matches!(
        effects.as_slice(),
        [Effect::QueryPortForwards(TabId(7)), Effect::Repaint]
    ));
    assert!(matches!(
        app.port_forward_listing(&Vec::new()),
        Some(ForwardListing::Empty)
    ));
}

#[test]
fn port_forward_manager_renders_runtime_snapshots_and_failure_details() {
    let mut app = live_ssh();
    app.open_port_forward_manager();
    let rows = match app.port_forward_listing(&sample_port_forwards()) {
        Some(ForwardListing::Rows(rows)) => rows,
        _ => panic!("both forwards are listed"),
    };
    assert_eq!(rows[0].bind, "127.0.0.1:15432");
    assert_eq!(rows[0].destination, "db.internal:5432");
    assert_eq!(rows[0].source, "Profile");
    assert_eq!(rows[0].state_label, "Active");
    assert_eq!(rows[1].bind, "127.0.0.1:18080");
    assert_eq!(rows[1].destination, "127.0.0.1:8080");
    assert_eq!(rows[1].source, "Ephemeral");
    assert_eq!(rows[1].state_label, "Failed");
    assert_eq!(rows[1].failure_reason.as_deref(), Some("remote bind denied"));
    assert_eq!(port_forward_count_label(1).as_deref(), Some("1 active forward"));
    assert_eq!(port_forward_count_label(0), None);
    assert_eq!(
        port_forward_count_label(12).as_deref(),
        Some("12 active forwards")
    );
}

#[test]
fn port_forward_manager_submit_dispatches_an_add_request() {
    let mut app = live_ssh();
    app.open_port_forward_manager();
    let effects = app.show_port_forward_manager(ForwardClick::Add, None);
    assert!(matches!(
        effects.as_slice(),
        [Effect::AddPortForward(TabId(7)), Effect::Repaint]
    ));
    let effects = app.show_port_forward_manager(
        ForwardClick::Add,
        Some("Bind port must be a number".to_owned()),
    );
    assert!(matches!(effects.as_slice(), [Effect::Repaint]));
    let manager = app.shell.overlays.port_forward_manager.as_ref().unwrap();
    assert_eq!(
        manager.error.as_deref(),
        Some("Bind port must be a number")
    );
}

#[test]
fn port_forward_manager_remove_dispatches_a_remove_request() {
    let mut app = live_ssh();
    app.open_port_forward_manager();
    let rows = match app.port_forward_listing(&sample_port_forwards()) {
        Some(ForwardListing::Rows(rows)) => rows,
        _ => panic!("both forwards are listed"),
    };
    assert_eq!(rows[0].remove_label, "Remove forward 127.0.0.1:15432");
    let effects = app.show_port_forward_manager(ForwardClick::Remove(0), None);
    assert!(matches!(
        effects.as_slice(),
        [Effect::RemovePortForward(TabId(7), 0), Effect::Repaint]
    ));
}

#[test]
fn port_forward_manager_shortcut_and_palette_entry_open_the_overlay() {
    let mut app = live_ssh();
    app.perform_action(KeyboardAction::PortForwardManager, &Vec::new(), None, 0);
    assert!(app.port_forward_manager_open_for_active_tab());
    assert!(app.route_escape(true).port_forwards);
    app.close_port_forward_manager();
    assert!(!app.port_forward_manager_open_for_active_tab());

    assert!(offers(
        &app.palette_items(&no_labels()),
        "Manage Port Forwards…"
    ));
    app.dispatch_palette_selection(16, &Vec::new(), None, 0);
    assert!(app.port_forward_manager_open_for_active_tab());
}

#[test]
fn port_forward_manager_is_gated_to_live_ssh_tabs_only() {
    let mut app = live_local();
    assert!(
        !offers(&app.palette_items(&no_labels()), "Manage Port Forwards…"),
        "non-SSH tabs must not advertise the port-forward manager"
    );
    assert!(app
        .perform_action(KeyboardAction::PortForwardManager, &Vec::new(), None, 0)
        .is_empty());
    assert!(app.shell.overlays.port_forward_manager.is_none());
}

#[test]
fn disconnecting_clears_the_port_forward_manager_list() {
    let mut app = live_ssh();
    app.open_port_forward_manager();
    assert!(matches!(
        app.port_forward_listing(&sample_port_forwards()),
        Some(ForwardListing::Rows(_))
    ));
    front(&mut app).live_port_forwarding = false;
    assert!(matches!(
        app.port_forward_listing(&Vec::new()),
        Some(ForwardListing::Unavailable)
    ));
}

#[test]
fn focus_mode_is_explicit_terminal_only_and_escape_does_not_exit() {
    let mut app = live_local();
    app.dispatch_palette_selection(6, &Vec::new(), None, 0);
    assert!(app.shell.focus.focus_mode);
    assert!(notice(&app).unwrap().contains("Focus Mode ·"));

    assert!(!app.route_escape(true).consumed);
    assert!(app.shell.focus.focus_mode, "Escape belongs to the terminal");

    app.dispatch_palette_selection(6, &Vec::new(), None, 0);
    assert!(!app.shell.focus.focus_mode);

    let mut launcher = launcher_app();
    launcher.shell.focus.focus_mode = true;
    launcher.leave_focus_mode_without_session();
    assert!(!launcher.shell.focus.focus_mode);
    assert!(launcher.toggle_focus_mode(None, 0).is_empty());
    assert!(!launcher.shell.focus.focus_mode);
}

#[test]
fn chip_pulses_only_for_a_background_session_with_new_output_and_the_preference_on() {
    let mut app = live_local();
    front(&mut app).has_new_output = true;
    app.state
        .tabs
        .push(session_tab(8, session("second", local())));
    app.state.active = TabId(8);
    let (chips, _) = app.chip_view_models(&Vec::new());
    assert!(
        chips.iter().all(|chip| !chip.pulse_new_output),
        "no chip should pulse while the preference is off"
    );

    let mut pulsing = settings();
    pulsing.pulse_new_output_dot = true;
    app.preference_changed(pulsing);
    front(&mut app).has_new_output = true;
    let (chips, active_chip) = app.chip_view_models(&Vec::new());
    assert_eq!(active_chip, 8);
    assert!(
        chips[0].pulse_new_output,
        "a flagged background tab must pulse when the preference is on"
    );
    assert!(
        !chips[1].pulse_new_output,
        "the active tab's own chip must never pulse"
    );
}

#[test]
fn modest_background_session_output_sets_the_new_output_flag_via_real_pump() {
    let mut app = live_local();
    app.state
        .tabs
        .push(session_tab(8, session("second", local())));
    assert!(app.session_pumped(1, false, true));
    assert!(app.state.session_tab(TabId(8)).unwrap().has_new_output);
    assert!(app.session_pumped(0, false, true));
    assert!(!app.state.session_tab(TabId(7)).unwrap().has_new_output);
    assert!(!app.session_pumped(0, false, false));
    assert!(app.session_pumped(0, true, false));
}

#[test]
fn command_palette_omits_more_actions_entries() {
    let items = live_local().palette_items(&no_labels());
    assert!(
        !items.iter().any(|item| matches!(
            item.label.as_str(),
            "About fesTerm" | "Show Session Inspector" | "Hide Session Inspector"
        )),
        "More actions entries must not be duplicated in the command palette"
    );
}

#[test]
fn command_palette_omits_open_markdown_file() {
    let items = launcher_app().palette_items(&no_labels());
    assert!(!offers(&items, "Open Markdown File…"));
}

#[test]
fn the_markdown_picker_chord_works_from_a_non_terminal_surface() {
    let mut app = launcher_app();
    assert!(app
        .shortcut_context(Platform::Other, 1, false, false)
        .open_markdown);
    app.perform_action(KeyboardAction::OpenMarkdownFile, &Vec::new(), None, 0);
    assert!(app.shell.overlays.markdown_file_picker);
}

#[test]
fn a_focused_terminal_keeps_plain_control_o_for_the_program_inside_it() {
    let app = live_local();
    assert!(!app
        .shortcut_context(Platform::Other, 1, false, false)
        .open_markdown);
}

#[test]
fn the_macos_markdown_picker_chord_survives_a_focused_terminal() {
    let app = live_local();
    assert!(app
        .shortcut_context(Platform::MacOs, 1, false, false)
        .open_markdown);
}

#[test]
fn more_actions_open_markdown_file_opens_the_local_file_picker() {
    let mut app = launcher_app();
    app.dispatch_chrome_action(ChromeAction::OpenMarkdownFile, &Vec::new(), None);
    assert!(app.shell.overlays.markdown_file_picker);
}

#[test]
fn markdown_viewer_palette_items_follow_the_active_viewer() {
    let items = viewing().palette_items(&no_labels());
    assert!(offers(&items, "Reload Markdown"));
    assert!(offers(&items, "Toggle Preview/Source"));
    assert!(offers(&items, "Find in Markdown…"));
    assert!(offers(&items, "Toggle Markdown Outline"));
}

#[test]
fn the_markdown_file_picker_starts_at_home_and_then_resumes_the_last_directory() {
    let mut app = launcher_app();
    assert_eq!(app.markdown_file_picker_start_directory(true), None);
    app.shell.overlays.markdown_file_picker_directory = Some("/tmp".to_owned());
    assert_eq!(
        app.markdown_file_picker_start_directory(true).as_deref(),
        Some("/tmp")
    );
    assert_eq!(app.markdown_file_picker_start_directory(false), None);
}

#[test]
fn the_markdown_file_picker_targets_the_active_viewer_only_from_a_viewer() {
    let mut app = launcher_app();
    app.open_markdown_file_picker();
    assert_eq!(app.shell.overlays.markdown_file_picker_replaces, None);
    app.close_markdown_file_picker(None);

    let mut app = viewing();
    app.open_markdown_file_picker();
    assert_eq!(
        app.shell.overlays.markdown_file_picker_replaces,
        Some(TabId(2))
    );
    app.close_markdown_file_picker(Some("/docs".to_owned()));
    assert_eq!(app.shell.overlays.markdown_file_picker_replaces, None);
    assert_eq!(
        app.shell.overlays.markdown_file_picker_directory.as_deref(),
        Some("/docs")
    );
}

#[test]
fn a_picked_file_replaces_the_viewer_it_was_picked_from() {
    let mut app = viewing();
    app.open_markdown_file_picker();
    let effects = app.markdown_file_picked("/docs/other.md".to_owned(), None);
    assert!(effects.iter().any(|effect| matches!(
        effect,
        Effect::Dispatch(AppCommand::OpenLocalMarkdownFile { path, replacing: Some(TabId(2)) })
            if path == "/docs/other.md"
    )));
    assert!(!app.shell.overlays.markdown_file_picker);
}

#[test]
fn the_command_palette_offers_new_window_and_only_requests_it() {
    let mut app = launcher_app();
    assert!(offers(&app.palette_items(&no_labels()), "New Window"));
    let effects = app.dispatch_palette_selection(23, &Vec::new(), None, 0);
    assert_eq!(app.state.tabs.len(), 1);
    assert!(matches!(
        effects.as_slice(),
        [Effect::Dispatch(AppCommand::OpenWindow)]
    ));
    app.shell.requests.open_window = true;
    assert!(app.take_window_open_request());
    assert!(!app.take_window_open_request(), "the request is one-shot");
}

#[test]
fn the_native_menu_new_window_command_requests_a_window() {
    let mut app = launcher_app();
    let result =
        app.dispatch_native_menu_command(NativeMenuCommand::NewWindow, &Vec::new(), None, None, 0);
    assert_eq!(app.state.tabs.len(), 1);
    assert!(matches!(
        result.effects.as_slice(),
        [Effect::Dispatch(AppCommand::OpenWindow)]
    ));
    assert_eq!(result.swallow, Some(KeyboardAction::NewWindow));
}

#[test]
fn keyboard_native_menu_counterpart_is_not_dispatched_twice() {
    let mut app = launcher_app();
    let result = app.dispatch_native_menu_command(
        NativeMenuCommand::ToggleCommandPalette,
        &Vec::new(),
        None,
        None,
        0,
    );
    assert_eq!(result.swallow, Some(KeyboardAction::CommandPalette));
    assert!(app.shell.focus.palette_open);
    app.shell.focus.palette_open = false;
    app.shell.overlays.about_open = true;
    let result = app.dispatch_native_menu_command(
        NativeMenuCommand::ToggleCommandPalette,
        &Vec::new(),
        None,
        None,
        0,
    );
    assert!(
        !app.shell.focus.palette_open,
        "blocked menu intent must not be replayed later"
    );
    assert!(result.effects.is_empty());
}

#[test]
fn zoom_palette_commands_change_only_the_active_session_and_reset() {
    let mut app = live_local();
    let items = app.palette_items(&no_labels());
    assert!(offers(&items, "Zoom In"));
    assert!(offers(&items, "Zoom Out"));
    assert!(offers(&items, "Reset Zoom"));
    for (id, command) in [
        (7, ZoomCommand::In),
        (8, ZoomCommand::Out),
        (9, ZoomCommand::Reset),
    ] {
        let effects = app.dispatch_palette_selection(id, &Vec::new(), None, 0);
        assert!(matches!(
            effects.as_slice(),
            [Effect::ZoomTerminal(TabId(7), zoom)] if *zoom == command
        ));
    }
    app.zoomed("15".to_owned(), 0);
    assert_eq!(notice(&app).unwrap(), "Terminal zoom: 15 pt");
}

#[test]
fn close_copy_and_paste_palette_entries_show_their_keystrokes() {
    for platform in [Platform::MacOs, Platform::Other] {
        let label = |shortcut: ApplicationShortcut| shortcut.label(platform).unwrap().to_owned();
        let bindings = BindingLabels {
            labels: vec![
                (
                    KeyboardAction::CloseActiveSurface,
                    label(ApplicationShortcut::CloseActiveSurface),
                ),
                (
                    KeyboardAction::Copy,
                    match platform {
                        Platform::MacOs => "\u{2318}+C".to_owned(),
                        Platform::Other => "Ctrl+Shift+C".to_owned(),
                    },
                ),
                (
                    KeyboardAction::Paste,
                    match platform {
                        Platform::MacOs => "\u{2318}+V".to_owned(),
                        Platform::Other => "Ctrl+Shift+V".to_owned(),
                    },
                ),
            ],
        };
        let items = live_local().palette_items(&bindings);
        let hint = |label: &str| {
            items
                .iter()
                .find(|item| item.label == label)
                .unwrap()
                .hint
                .clone()
        };
        assert_eq!(
            hint("Close Session…"),
            bindings.label(KeyboardAction::CloseActiveSurface)
        );
        assert_eq!(hint("Copy"), bindings.label(KeyboardAction::Copy));
        assert_eq!(hint("Paste"), bindings.label(KeyboardAction::Paste));
        assert_eq!(hint("Zoom In"), None);
    }
}

#[test]
fn palette_identifiers_lead_to_tabs() {
    let mut app = live_local();
    app.state.tabs.push(viewer(12));
    let items = app.palette_items(&no_labels());
    let last = items.last().unwrap();
    assert!(last.is_tab);
    assert_eq!(last.id, TAB_ACTIVATE_OFFSET + 12);
    let effects = app.dispatch_palette_selection(last.id, &Vec::new(), None, 0);
    assert!(matches!(
        effects.as_slice(),
        [Effect::Dispatch(AppCommand::ActivateTab(TabId(12)))]
    ));
    assert!(app
        .dispatch_palette_selection(TAB_ACTIVATE_OFFSET + 99, &Vec::new(), None, 0)
        .is_empty());
}

#[test]
fn paste_palette_command_requests_an_os_clipboard_paste() {
    let mut app = live_ssh();
    let effects = app.dispatch_palette_selection(14, &Vec::new(), None, 0);
    assert!(matches!(
        effects.as_slice(),
        [Effect::RequestClipboard(TabId(7))]
    ));
}

#[test]
fn reset_terminal_palette_command_clears_screen_but_keeps_scrollback() {
    let mut app = live_local();
    let effects = app.dispatch_palette_selection(11, &Vec::new(), None, 0);
    assert!(matches!(effects[0], Effect::ResetTerminal(TabId(7))));
    assert_eq!(notice(&app).unwrap(), "Terminal reset");
}

#[test]
fn clear_terminal_palette_command_clears_display_and_scrollback() {
    let mut app = live_local();
    let effects = app.dispatch_palette_selection(12, &Vec::new(), None, 0);
    assert!(matches!(effects[0], Effect::ClearTerminal(TabId(7))));
    assert_eq!(notice(&app).unwrap(), "Terminal cleared");
}

#[test]
fn clear_terminal_clears_display_and_scrollback_without_resetting_attributes() {
    assert_eq!(FesTermApp::clear_sequence(), b"\x1b[2J\x1b[3J\x1b[H");
}

#[test]
fn local_shell_and_focus_mode_shortcuts_dispatch_their_commands() {
    let mut app = live_local();
    let effects = app.perform_action(KeyboardAction::StartLocalShell, &Vec::new(), None, 0);
    assert!(matches!(
        effects.as_slice(),
        [Effect::Dispatch(AppCommand::StartLocalSession)]
    ));
    app.perform_action(KeyboardAction::ToggleFocusMode, &Vec::new(), None, 0);
    assert!(app.shell.focus.focus_mode);
}

#[test]
fn active_tab_eviction_shows_a_one_shot_transient_notice() {
    let mut app = live_local();
    assert!(!app.show_active_eviction_notice_if_needed(1));
    front(&mut app).evicted_lines = 3;
    assert!(app.show_active_eviction_notice_if_needed(2));
    assert!(notice(&app).unwrap().contains("Scrollback limit reached"));
    assert!(front(&mut app).eviction_notice_shown);
    app.shell.overlays.transient_notice = None;
    front(&mut app).evicted_lines = 9;
    assert!(!app.show_active_eviction_notice_if_needed(3));
    assert!(notice(&app).is_none());
}

#[test]
fn a_notice_stays_for_its_time() {
    let mut app = live_local();
    app.reset_active_terminal(1_000);
    let shown = app.shell.overlays.transient_notice.as_ref().unwrap();
    let until = shown.shown_at_ms + shown.duration_ms;
    let (text, _) = app.show_transient_notice(until - 1).unwrap();
    assert_eq!(text, "Terminal reset");
    assert!(app.show_transient_notice(until).is_none());
    assert!(app.shell.overlays.transient_notice.is_none());
}

#[test]
fn about_dialog_is_bounded_truthful_and_escape_returns_to_prior_surface() {
    let mut app = launcher_app();
    app.dispatch_chrome_action(ChromeAction::OpenAbout, &Vec::new(), None);
    assert!(app.shell.overlays.about_open);
    app.show_about(false, AboutClick::ToggleLicenses);
    assert!(app.shell.overlays.about_licenses_open);
    app.show_about(true, AboutClick::Nothing);
    assert!(!app.shell.overlays.about_open && !app.shell.overlays.about_licenses_open);
    assert_eq!(app.state.active, TabId(1));

    let version = version_information("0.1.0", "linux", "x86_64", "somebody", Some("abc"));
    assert_eq!(
        version,
        "fesTerm 0.1.0\nOS: linux\nArchitecture: x86_64\nUI: egui/eframe 0.36\nAuthorship: somebody\nBuild: abc"
    );
    assert!(!version.contains("HOME="));
}

#[test]
fn about_exposes_updates_only_for_a_configured_packaged_build() {
    let message = "Update checks are available in packaged releases.";
    let panel = update_panel(&UpdateStatus::Unavailable(message.to_owned()), false);
    assert_eq!(panel.text.as_deref(), Some(message));
    assert!(panel.action.is_none() && !panel.explains_checks);
    let panel = update_panel(&UpdateStatus::Idle, true);
    assert_eq!(panel.action, Some((UpdateAction::Check, "Check for Updates")));
    assert!(panel.explains_checks);
}

#[test]
fn each_update_status_has_its_panel() {
    let available = UpdateStatus::Available {
        version: "2.0".to_owned(),
        notes: Some("n".repeat(5_000)),
    };
    let panel = update_panel(&available, true);
    assert_eq!(panel.text.as_deref(), Some("fesTerm 2.0 is available."));
    assert_eq!(
        panel.action,
        Some((UpdateAction::Download, "Download Update"))
    );
    assert!(panel.notes.unwrap().len() < 5_000);
    let panel = update_panel(&available, false);
    assert!(panel.action.is_none() && panel.package_managed);
    let blank = UpdateStatus::Available {
        version: "2.0".to_owned(),
        notes: Some(" \n\t".to_owned()),
    };
    assert!(update_panel(&blank, true).notes.is_none());
    assert!(update_panel(&UpdateStatus::Checking, true).busy);
    assert_eq!(
        update_panel(&UpdateStatus::ReadyToInstall("2.0".to_owned()), true).action,
        Some((UpdateAction::Install, "Install and Restart"))
    );
    let failed = UpdateStatus::Failed {
        message: "no network".to_owned(),
        retry_check: true,
    };
    let panel = update_panel(&failed, true);
    assert!(panel.error && !failed.is_busy());
    assert_eq!(panel.action, Some((UpdateAction::Check, "Try Again")));
}

#[test]
fn successful_update_install_requests_one_normal_application_close() {
    let mut app = launcher_app();
    app.shell.exit.update_restart_authorized = true;
    let installed = UpdateStatus::Installed("2.0".to_owned());
    let effects = app.observe_update(&installed);
    assert!(matches!(effects.as_slice(), [Effect::CloseViewport]));
    assert!(app.shell.exit.update_exit_requested);
    assert!(app.shell.exit.quit_confirmed);
    assert!(
        app.observe_update(&installed).is_empty(),
        "the close request must be one-shot"
    );
}

#[test]
fn update_install_waits_for_live_session_restart_consent() {
    let mut app = live_local();
    assert!(app.request_update_install().is_none());
    let pending = app
        .shell
        .overlays
        .pending_quit
        .expect("restart consent should be pending");
    assert_eq!(pending.purpose, QuitConfirmationPurpose::InstallUpdate);
    assert!(!app.shell.exit.update_restart_authorized);
}

#[test]
fn cancelling_update_restart_consent_keeps_the_update_installable() {
    let mut app = live_local();
    assert!(app.request_update_install().is_none());
    assert!(app
        .show_quit_confirmation(false, DialogClick::Cancel)
        .is_none());
    assert!(app.shell.overlays.pending_quit.is_none());
    assert!(!app.shell.exit.update_restart_authorized);
}

#[test]
fn confirmed_update_restart_installs_then_closes_without_reprompting() {
    let mut app = live_local();
    assert!(app.request_update_install().is_none());
    assert_eq!(
        app.quit_dialog().unwrap().confirm_label,
        "Install and Restart"
    );
    let effect = app.show_quit_confirmation(false, DialogClick::Confirm);
    assert!(matches!(effect, Some(Effect::BeginUpdateInstall)));
    assert!(app.shell.exit.update_restart_authorized);
    app.observe_update(&UpdateStatus::Installed("2.0".to_owned()));
    assert!(app.shell.exit.update_exit_requested);
    assert!(app.shell.exit.quit_confirmed);
    assert!(app.shell.overlays.pending_quit.is_none());
    assert!(!app.evaluate_close_request(&Vec::new()));
}

#[test]
fn failed_update_install_restores_ordinary_quit_protection() {
    let mut app = launcher_app();
    assert!(matches!(
        app.request_update_install(),
        Some(Effect::BeginUpdateInstall)
    ));
    assert!(app.shell.exit.update_restart_authorized);
    app.observe_update(&UpdateStatus::Failed {
        message: "no".to_owned(),
        retry_check: false,
    });
    assert!(!app.shell.exit.update_restart_authorized);
    assert!(!app.shell.exit.update_exit_requested);
    assert!(!app.shell.exit.quit_confirmed);
}

fn test_host_key_prompt() -> HostKeyPrompt {
    HostKeyPrompt {
        host: "ssh.example.test".to_owned(),
        port: 22,
        fingerprint: "SHA256:UCUiLr7Pjs9wFFJMDByLgc3NrtdU344OgUM45wZPcIQ".to_owned(),
        previously_trusted: None,
    }
}

#[test]
fn host_key_prompt_ui_accepts_and_remembers_a_first_seen_host_on_a_key() {
    let prompt = test_host_key_prompt();
    assert!(!prompt.is_key_change());
    let lines = prompt.lines();
    assert_eq!(
        lines[0],
        "The authenticity of host 'ssh.example.test:22' can't be established."
    );
    assert!(lines[1].contains("SHA256:UCUiLr7Pjs9wFFJMDByLgc3NrtdU344OgUM45wZPcIQ"));
    let none = PromptKeys {
        y: false,
        a: false,
        n: false,
        escape: false,
    };
    assert_eq!(
        first_seen_decision(PromptKeys { a: true, ..none }),
        Some(HostKeyTrustDecision::AcceptAndPersist)
    );
    assert_eq!(
        first_seen_decision(PromptKeys { y: true, ..none }),
        Some(HostKeyTrustDecision::AcceptOnce)
    );
    assert_eq!(
        first_seen_decision(PromptKeys { n: true, ..none }),
        Some(HostKeyTrustDecision::Reject)
    );
    assert_eq!(
        first_seen_decision(PromptKeys {
            escape: true,
            ..none
        }),
        Some(HostKeyTrustDecision::Reject)
    );
    assert_eq!(first_seen_decision(none), None);
}

#[test]
fn changed_host_key_prompt_ui_requires_typing_yes_to_replace_trust() {
    let mut changed = test_host_key_prompt();
    changed.previously_trusted = Some("SHA256:previouslyTrustedButDifferent".to_owned());
    assert!(changed.is_key_change());
    assert!(changed
        .lines()
        .iter()
        .any(|line| line.contains("SHA256:previouslyTrustedButDifferent")));
    let mut prompt = ChangedKeyPrompt::new();
    assert_eq!(
        prompt.take_events(&vec![PromptEvent::Enter]),
        Some(HostKeyTrustDecision::Reject)
    );
}

#[test]
fn changed_host_key_prompt_ui_accepts_and_persists_only_after_typing_the_literal_word_yes() {
    let mut prompt = ChangedKeyPrompt::new();
    for character in "yes".chars() {
        assert_eq!(
            prompt.take_events(&vec![PromptEvent::Text(character.to_string())]),
            None
        );
    }
    assert_eq!(
        prompt.take_events(&vec![PromptEvent::Enter]),
        Some(HostKeyTrustDecision::AcceptAndPersist)
    );
    let mut corrected = ChangedKeyPrompt::new();
    assert_eq!(
        corrected.take_events(&vec![
            PromptEvent::Text("yesx".to_owned()),
            PromptEvent::Backspace,
            PromptEvent::Enter
        ]),
        Some(HostKeyTrustDecision::AcceptAndPersist)
    );
    let mut shouted = ChangedKeyPrompt::new();
    assert_eq!(
        shouted.take_events(&vec![
            PromptEvent::Text("YES".to_owned()),
            PromptEvent::Enter
        ]),
        Some(HostKeyTrustDecision::Reject)
    );
    let mut given_up = ChangedKeyPrompt::new();
    assert_eq!(
        given_up.take_events(&vec![
            PromptEvent::Text("yes".to_owned()),
            PromptEvent::Escape
        ]),
        Some(HostKeyTrustDecision::Reject)
    );
}

#[test]
fn native_window_title_is_fixed_for_privacy() {
    assert_eq!(FesTermApp::window_title(), APPLICATION_TITLE);
    assert_eq!(FesTermApp::update_window_title("fesTerm"), None);
    assert_eq!(
        FesTermApp::update_window_title("user@host").as_deref(),
        Some(APPLICATION_TITLE)
    );
}

#[test]
fn canonical_host_port_preserves_ssh_destination_boundaries() {
    assert_eq!(
        canonical_host_port("ssh.example.test", 2222),
        "ssh.example.test:2222"
    );
    assert_eq!(canonical_host_port("2001:db8::7", 22), "[2001:db8::7]:22");
}

#[test]
fn platform_new_tab_shortcut_focuses_the_singleton_launcher_end_to_end() {
    let mut app = live_local();
    let effects = app.perform_action(KeyboardAction::NewSession, &Vec::new(), None, 0);
    assert!(matches!(
        effects.as_slice(),
        [Effect::Dispatch(AppCommand::OpenLauncher)]
    ));
}

#[test]
fn neighbouring_surfaces_are_asked_for() {
    let mut app = live_local();
    assert!(matches!(
        app.perform_action(KeyboardAction::NextSession, &Vec::new(), None, 0)
            .as_slice(),
        [Effect::Dispatch(AppCommand::ActivateNextTab)]
    ));
    assert!(matches!(
        app.perform_action(KeyboardAction::PreviousSession, &Vec::new(), None, 0)
            .as_slice(),
        [Effect::Dispatch(AppCommand::ActivatePreviousTab)]
    ));
}

#[test]
fn the_settings_hotkey_asks_for_settings() {
    let mut app = live_local();
    assert!(matches!(
        app.perform_action(KeyboardAction::SettingsHotkey, &Vec::new(), None, 0)
            .as_slice(),
        [Effect::Dispatch(AppCommand::OpenSettings)]
    ));
}

#[test]
fn platform_close_tab_shortcut_closes_the_active_tab_end_to_end() {
    let mut app = launcher_app();
    assert!(matches!(
        app.perform_action(KeyboardAction::CloseActiveSurface, &Vec::new(), None, 0)
            .as_slice(),
        [Effect::Dispatch(AppCommand::CloseTab(TabId(1)))]
    ));
}

#[test]
fn clicking_a_chip_close_button_closes_that_tab_end_to_end() {
    let mut app = launcher_app();
    app.state.tabs.push(viewer(2));
    assert!(matches!(
        app.dispatch_chrome_action(ChromeAction::Close(2), &Vec::new(), None)
            .as_slice(),
        [Effect::Dispatch(AppCommand::CloseTab(TabId(2)))]
    ));
    assert!(app
        .dispatch_chrome_action(ChromeAction::Close(99), &Vec::new(), None)
        .is_empty());
}

#[test]
fn clicking_a_background_chip_gives_its_terminal_keyboard_focus() {
    let mut app = live_local();
    app.state.tabs.push(viewer(2));
    app.state.active = TabId(2);
    assert!(matches!(
        app.dispatch_chrome_action(ChromeAction::Activate(7), &Vec::new(), None)
            .as_slice(),
        [
            Effect::Dispatch(AppCommand::ActivateTab(TabId(7))),
            Effect::FocusTerminal(TabId(7))
        ]
    ));
}

#[test]
fn cancelling_chip_rename_restores_terminal_focus_without_leaking_escape() {
    let mut app = live_local();
    app.dispatch_chrome_action(
        ChromeAction::RenameStarted {
            restore_focus: Some(5),
        },
        &Vec::new(),
        None,
    );
    assert!(!app.terminal_owns_input());
    let effects = app.dispatch_chrome_action(ChromeAction::RenameFinished, &Vec::new(), None);
    assert!(matches!(
        effects.as_slice(),
        [Effect::FocusTerminal(TabId(7))]
    ));
    assert!(app.terminal_owns_input());
}

#[test]
fn session_inspector_opens_without_resizing_and_escape_restores_terminal_mode() {
    let mut app = live_local();
    let effects = app.toggle_inspector_from_current_focus(None);
    assert!(matches!(
        effects.as_slice(),
        [Effect::Dispatch(AppCommand::ToggleSessionInspector)]
    ));
    app.shell.focus.inspector_open = true;
    assert!(!app.terminal_owns_input());
    let effects = app.dispatch_inspector_action(TabId(7), InspectorAction::Close);
    assert!(matches!(
        effects.as_slice(),
        [
            Effect::FocusTerminal(TabId(7)),
            Effect::Dispatch(AppCommand::ToggleSessionInspector)
        ]
    ));
}

#[test]
fn the_inspector_tells_of_the_session_in_front() {
    let mut app = live_ssh();
    front(&mut app).chip_status = ChipStatus::Failed;
    let content = app.session_inspector().unwrap();
    assert_eq!(content.type_label, "SSH");
    assert_eq!(content.identity, "controlled");
    assert_eq!(
        content.state_message,
        Some("The SSH session could not start. Review Diagnostics for the failure detail.")
    );
    assert!(matches!(
        content.transport,
        TransportFacts::Ssh { port: 22, .. }
    ));
    assert!(content.open_sftp_available);
    assert!(launcher_app().session_inspector().is_none());
    let effects = app.dispatch_inspector_action(TabId(7), InspectorAction::ToggleInputRecording);
    assert!(matches!(
        effects.as_slice(),
        [Effect::Dispatch(AppCommand::SetInputRecording {
            tab: TabId(7),
            enabled: true
        })]
    ));
}

#[test]
fn a_title_that_is_a_path_is_shown_by_its_last_part() {
    assert_eq!(display_secondary("/home/user/notes.md"), "notes.md");
    assert_eq!(display_secondary("vim"), "vim");
    assert_eq!(display_secondary(""), "");
    let mut app = live_local();
    front(&mut app).terminal_title = "/home/user/project".to_owned();
    let (chips, _) = app.chip_view_models(&vec![true]);
    assert_eq!(chips[0].secondary.as_deref(), Some("project"));
    assert_eq!(chips[0].quick_switch_number, Some(1));
    front(&mut app).dynamic_secondary = Some("3 transfers".to_owned());
    let (chips, _) = app.chip_view_models(&Vec::new());
    assert_eq!(chips[0].secondary.as_deref(), Some("3 transfers"));
    assert_eq!(chips[0].quick_switch_number, None);
    assert!(chips[0].renamable && chips[0].movable_across_windows);
}

#[test]
fn a_connection_that_waits_says_where_it_wants_to_go() {
    let mut app = launcher_app();
    app.state.tabs.push(Tab {
        id: TabId(2),
        restorable: true,
        content: TabContent::SftpAuthenticationRequired(Destination {
            label: "files".to_owned(),
            host: "sftp.example.test".to_owned(),
            port: 2200,
        }),
    });
    let (chips, _) = app.chip_view_models(&Vec::new());
    assert_eq!(chips[0].primary, "New Session");
    assert!(!chips[0].movable_across_windows);
    assert_eq!(
        chips[1].secondary.as_deref(),
        Some("SFTP authentication required · sftp.example.test:2200")
    );
}

fn binding(action: KeyboardAction, terminal_only: bool, key: &str) -> MenuBinding {
    MenuBinding {
        command: NativeMenuCommand::ToggleCommandPalette,
        action,
        terminal_only,
        chord: Some(ParsedChord {
            key: key.to_owned(),
            ctrl: false,
            command: true,
            alt: false,
            shift: true,
        }),
    }
}

#[test]
fn native_keys_are_named_as_the_menu_wants_them() {
    assert_eq!(native_key("K").as_deref(), Some("k"));
    assert_eq!(native_key("Comma").as_deref(), Some(","));
    assert_eq!(native_key("Tab").as_deref(), Some("\t"));
    assert_eq!(native_key("F1").as_deref(), Some("\u{f704}"));
    assert_eq!(native_key("F12").as_deref(), Some("\u{f70f}"));
    assert_eq!(native_key("Fx"), None);
    assert_eq!(native_key("F").as_deref(), Some("f"));
    assert_eq!(native_key("F4294904059"), None);
    assert_eq!(native_key("Ä").as_deref(), Some("ä"));
    assert_eq!(key_name("K", "other".to_owned()).as_deref(), Some("other"));
    assert_eq!(key_name("Minus", "other".to_owned()).as_deref(), Some("-"));
}

#[test]
fn menu_shortcuts_follow_what_is_blocked() {
    let bindings = vec![
        binding(KeyboardAction::CommandPalette, false, "P"),
        binding(KeyboardAction::ClearTerminal, true, "K"),
    ];
    let mut app = live_local();
    let (close, _, _, shortcuts) = app.update_native_menu(&bindings);
    assert_eq!(close, "Close Session");
    assert_eq!(shortcuts[0].as_ref().unwrap().key, "p");
    assert!(shortcuts[1].is_some());
    app.shell.focus.palette_open = true;
    let (_, _, _, shortcuts) = app.update_native_menu(&bindings);
    assert!(shortcuts[0].is_some() && shortcuts[1].is_none());
    app.shell.overlays.about_open = true;
    let (_, _, _, shortcuts) = app.update_native_menu(&bindings);
    assert!(shortcuts.iter().all(Option::is_none));
    let (close, _, _, shortcuts) = launcher_app().update_native_menu(&bindings);
    assert_eq!(close, "Close Launcher");
    assert!(shortcuts[0].is_some() && shortcuts[1].is_none());
}

fn app_with_profiles(profiles: Vec<Profile>) -> FesTermApp {
    let mut app = launcher_app();
    app.shell.documents.configuration = Arc::new(Configuration {
        settings: settings(),
        profiles: Arc::new(profiles),
        workspace: None,
    });
    app
}

fn remote(credential: Option<u64>, sftp_gui_mode: bool) -> Profile {
    Profile {
        identifier: "files".to_owned(),
        ssh: Some(SshProfile {
            session_strategy: Some(SessionStrategy::Tmux),
            port_forwards_valid: true,
            credential,
            sftp_gui_mode,
        }),
    }
}

#[test]
fn saved_sftp_profile_launches_its_configured_surface_mode() {
    for (gui_mode, expected) in [
        (true, ProfileLaunch::SftpFileManager),
        (false, ProfileLaunch::InteractiveSftp),
    ] {
        let mut app = app_with_profiles(vec![remote(None, gui_mode)]);
        assert_eq!(app.start_configured_sftp_profile("files"), expected);
    }
}

#[test]
fn a_profile_with_a_stored_password_uses_it() {
    let mut app = app_with_profiles(vec![remote(Some(3), false)]);
    assert_eq!(
        app.start_configured_ssh_profile("files"),
        ProfileLaunch::StoredSsh(SessionStrategy::Tmux)
    );
    assert_eq!(
        app.start_configured_sftp_profile("files"),
        ProfileLaunch::StoredSftp
    );
    app.stored_launch_tried(StoredLaunch::Ssh, false);
    assert_eq!(
        app.secure_storage_status_message(),
        Some(StorageFeedback::NoStoredSshPassword.message())
    );
    let mut interactive = app_with_profiles(vec![remote(None, false)]);
    assert_eq!(
        interactive.start_configured_ssh_profile("files"),
        ProfileLaunch::InteractiveSsh
    );
}

#[test]
fn a_locked_store_is_reported() {
    let mut app = app_with_profiles(vec![remote(Some(3), false)]);
    app.shell.credentials.store = Err(SecretStoreError::BackendFailure);
    assert!(!app.native_store_available());
    assert_eq!(
        app.start_stored_password_profile("files"),
        ProfileLaunch::Nothing
    );
    assert_eq!(
        app.secure_storage_status_message(),
        Some(secret_store_message(SecretStoreError::BackendFailure))
    );
    assert!(!app.secure_storage_ready());
    let mut broken = remote(Some(3), false);
    if let Some(profile) = broken.ssh.as_mut() {
        profile.port_forwards_valid = false;
    }
    let mut app = app_with_profiles(vec![broken]);
    app.start_stored_password_profile("files");
    assert_eq!(
        app.secure_storage_status_message(),
        Some("This saved SSH profile has invalid port-forward settings.")
    );
}

#[test]
fn a_password_is_stored_linked_and_used() {
    let mut app = app_with_profiles(vec![remote(None, false)]);
    assert!(app.store_credential_for_profile());
    assert!(app.credential_worker_started(
        PendingPasswordStore {
            profile_id: "files".to_owned(),
            credential_kind: CredentialKind::Password,
            launch_after_store: Some(StoredCredentialLaunch::Ssh),
        },
        true,
    ));
    assert!(!app.store_credential_for_profile());
    assert_eq!(
        app.secure_storage_status_message(),
        Some(StorageFeedback::AlreadySaving.message())
    );
    assert!(matches!(
        app.process_pending_password_store(WorkerEvent::Waiting),
        StorePoll::Again(_)
    ));
    let pending = match app.process_pending_password_store(WorkerEvent::Stored) {
        StorePoll::Link(pending) => pending,
        _ => panic!("the stored password is linked"),
    };
    assert_eq!(pending.profile_id, "files");
    assert_eq!(secret_to_delete(true, Some(3), 4), Some(3));
    assert_eq!(secret_to_delete(true, None, 4), None);
    let effects = app.credential_linked(
        pending,
        LinkOutcome::Saved {
            configuration: configuration(settings()),
            previous_removed: None,
        },
    );
    assert!(matches!(
        effects.as_slice(),
        [Effect::LaunchStored { profile, launch: StoredLaunch::Ssh }] if profile == "files"
    ));
    assert_eq!(
        app.secure_storage_status_message(),
        Some("SSH credential saved in native secure storage.")
    );
    assert!(matches!(
        app.process_pending_password_store(WorkerEvent::Stored),
        StorePoll::Idle
    ));
}

#[test]
fn a_password_that_cannot_be_linked_is_taken_back() {
    for (removed, feedback) in [
        (true, StorageFeedback::NotLinkedRemoved),
        (false, StorageFeedback::NotLinkedKept),
    ] {
        let mut app = launcher_app();
        assert_eq!(secret_to_delete(false, Some(3), 4), Some(4));
        let effects = app.credential_linked(
            PendingPasswordStore {
                profile_id: "files".to_owned(),
                credential_kind: CredentialKind::Password,
                launch_after_store: Some(StoredCredentialLaunch::Sftp),
            },
            LinkOutcome::NotSaved { removed },
        );
        assert!(effects.is_empty());
        assert_eq!(
            app.shell.documents.status,
            ConfigurationStatus::NotWritten(
                ConfigurationWrite::PasswordCredential,
                ConfigurationLoadFailure::Unreadable
            )
        );
        assert_eq!(
            app.secure_storage_status_message(),
            Some(feedback.message())
        );
        assert!(app.take_configuration_broadcast().is_none());
    }
}

#[test]
fn screen_commands_persist_what_they_change() {
    let mut app = launcher_app();
    assert!(matches!(
        app.route_screen_command(ScreenCommand::ChangePreference, &Vec::new(), 0)
            .as_slice(),
        [
            Effect::DispatchScreenCommand,
            Effect::PersistInterfaceSettings
        ]
    ));
    app.route_screen_command(
        ScreenCommand::SetKeyboardBindings(Some("Ctrl+C is taken".to_owned())),
        &Vec::new(),
        0,
    );
    assert_eq!(notice(&app).unwrap(), "Ctrl+C is taken");
    assert!(matches!(
        app.route_screen_command(
            ScreenCommand::ResolveHostKeyTrust {
                tab: TabId(1),
                decision: HostKeyTrustDecision::AcceptAndPersist
            },
            &Vec::new(),
            0
        )
        .as_slice(),
        [
            Effect::PersistKnownHostTrust(TabId(1)),
            Effect::Dispatch(AppCommand::ResolveHostKeyTrust { .. })
        ]
    ));
}

#[test]
fn a_known_host_is_remembered_from_the_prompt_it_answers() {
    let mut app = live_ssh();
    assert!(app.known_host_to_trust(TabId(7)).is_none());
    front(&mut app).host_key_prompt = Some(test_host_key_prompt());
    let (host, port, fingerprint) = app.known_host_to_trust(TabId(7)).unwrap();
    assert_eq!(host, "ssh.example.test");
    assert_eq!(port, 22);
    assert!(fingerprint.starts_with("SHA256:"));
}

#[test]
fn a_link_that_is_no_web_address_is_refused() {
    let mut app = launcher_app();
    app.request_external_link(None, 0);
    assert!(matches!(
        app.shell.overlays.transient_notice.as_ref().unwrap().notice,
        Notice::InvalidLink
    ));
    assert!(matches!(
        app.request_external_link(Some("https://example.test/".to_owned()), 0),
        Effect::Dispatch(AppCommand::OpenExternalLink(target)) if target == "https://example.test/"
    ));
}

#[test]
fn documents_are_checked_again_when_the_window_comes_back() {
    let mut app = launcher_app();
    assert_eq!(
        app.check_open_documents(true, Some(true)),
        Some(DocumentCheck::Poll)
    );
    assert!(!matches!(
        app.check_open_documents(true, Some(false)),
        Some(DocumentCheck::RevalidateAll)
    ));
    assert_eq!(
        app.check_open_documents(true, Some(true)),
        Some(DocumentCheck::RevalidateAll)
    );
    assert_eq!(app.check_open_documents(false, Some(true)), None);
}

#[test]
fn a_blocked_terminal_takes_no_keys() {
    let mut app = live_local();
    let target = app.terminal_input_target(1);
    assert_eq!(target, Some(TabId(7)));
    assert!(app.terminal_input_enabled(target, false));
    app.shell.overlays.about_open = true;
    assert_eq!(app.terminal_input_target(1), None);
    assert!(!app.terminal_input_enabled(target, false));
}
#[test]
fn uploads_that_cannot_be_queued_say_why() {
    let mut app = launcher_app();
    assert!(app.upload_enqueued(Ok(2), 0));
    assert!(!app.upload_enqueued(Ok(0), 0));
    assert!(notice(&app).is_none());
    assert!(app.upload_enqueued(Err("The remote folder is read-only.".to_owned()), 0));
    assert_eq!(notice(&app).unwrap(), "The remote folder is read-only.");
}

#[test]
fn a_forward_that_was_added_empties_the_form() {
    let mut app = live_ssh();
    app.open_port_forward_manager();
    assert!(app
        .port_forward_added(TabId(7), Some("denied".to_owned()))
        .is_none());
    let error = |app: &FesTermApp| {
        app.shell
            .overlays
            .port_forward_manager
            .as_ref()
            .unwrap()
            .error
            .clone()
    };
    assert_eq!(error(&app).as_deref(), Some("denied"));
    assert!(matches!(
        app.port_forward_added(TabId(7), None),
        Some(Effect::ResetPortForwardDraft)
    ));
    assert_eq!(error(&app), None);
}

#[test]
fn noting_a_launch_is_shared_but_not_told() {
    let mut app = launcher_app();
    let status = app.shell.documents.status;
    app.record_profile_launch(Some(configuration(settings())), false);
    assert!(app.take_configuration_broadcast().is_none());
    app.record_profile_launch(Some(configuration(settings())), true);
    assert!(app.take_configuration_broadcast().is_some());
    assert_eq!(app.shell.documents.status, status);
}

#[test]
fn no_credential_is_stored_for_a_profile_that_was_not_saved() {
    let mut app = launcher_app();
    let save = |app: &mut FesTermApp, replacement, saved| {
        app.save_profile_with_credential(
            "files".to_owned(),
            CredentialKind::PrivateKey,
            replacement,
            saved,
        )
    };
    assert!(save(
        &mut app,
        Some(configuration(settings())),
        Err(ConfigurationLoadFailure::Unreadable)
    )
    .is_empty());
    assert!(save(&mut app, None, Ok(())).is_empty());
    assert!(matches!(
        save(&mut app, Some(configuration(settings())), Ok(())).as_slice(),
        [Effect::StoreCredential(PendingPasswordStore {
            credential_kind: CredentialKind::PrivateKey,
            launch_after_store: None,
            ..
        })]
    ));
    app.shell.credentials.store = Err(SecretStoreError::LockedOrUnavailable);
    assert!(save(&mut app, Some(configuration(settings())), Ok(())).is_empty());
}

#[test]
fn profile_commands_lead_to_their_launches_and_writes() {
    let files = || "files".to_owned();
    let mut app = app_with_profiles(vec![remote(None, true)]);
    let mut ask = |command: ProfileCommand| {
        app.route_screen_command(ScreenCommand::Profile(command), &Vec::new(), 0)
    };
    assert!(matches!(
        ask(ProfileCommand::StartStoredPasswordSsh(files())).as_slice(),
        [Effect::LaunchStored { launch: StoredLaunch::Ssh, .. }]
    ));
    assert!(matches!(
        ask(ProfileCommand::StartStoredPasswordSftp(files())).as_slice(),
        [Effect::LaunchStored { launch: StoredLaunch::Sftp, .. }]
    ));
    assert!(matches!(
        ask(ProfileCommand::StartStoredSftpFileManager(files())).as_slice(),
        [Effect::LaunchStored { launch: StoredLaunch::SftpFileManager, .. }]
    ));
    assert!(matches!(
        ask(ProfileCommand::StartConfiguredSsh(files())).as_slice(),
        [Effect::LaunchProfile { launch: ProfileLaunch::InteractiveSsh, .. }]
    ));
    assert!(matches!(
        ask(ProfileCommand::StartConfiguredSftp(files())).as_slice(),
        [Effect::Dispatch(AppCommand::OpenConfiguredSftpFileManagerProfile(profile))]
            if profile == "files"
    ));
    assert!(ask(ProfileCommand::StartConfiguredSftp("nobody".to_owned())).is_empty());
    for (command, kind, launch) in [
        (
            ProfileCommand::StoreSshPassword(files()),
            CredentialKind::Password,
            Some(StoredCredentialLaunch::Ssh),
        ),
        (
            ProfileCommand::StoreSftpPassword(files()),
            CredentialKind::Password,
            Some(StoredCredentialLaunch::Sftp),
        ),
        (
            ProfileCommand::StoreProfilePassword(files()),
            CredentialKind::Password,
            None,
        ),
        (
            ProfileCommand::StoreProfilePrivateKey(files()),
            CredentialKind::PrivateKey,
            None,
        ),
    ] {
        match ask(command).as_slice() {
            [Effect::StoreCredential(pending)] => {
                assert_eq!(pending.profile_id, "files");
                assert_eq!(pending.credential_kind, kind);
                assert_eq!(pending.launch_after_store, launch);
            }
            _ => panic!("a worker stores the credential"),
        }
    }
    assert!(matches!(
        ask(ProfileCommand::Save).as_slice(),
        [Effect::SaveProfile]
    ));
    assert!(matches!(
        ask(ProfileCommand::SaveWithCredential {
            profile: files(),
            kind: CredentialKind::Password
        })
        .as_slice(),
        [Effect::SaveProfileWithCredential { .. }]
    ));
    assert!(matches!(
        ask(ProfileCommand::Delete(files())).as_slice(),
        [Effect::DeleteProfile(profile)] if profile == "files"
    ));
    assert!(matches!(
        ask(ProfileCommand::Reorder {
            moved: files(),
            before: None
        })
        .as_slice(),
        [Effect::ReorderProfiles { before: None, .. }]
    ));
    app.shell.credentials.store = Err(SecretStoreError::Unsupported);
    assert!(app
        .route_profile_command(ProfileCommand::StartStoredPasswordSsh(files()))
        .is_empty());
    assert_eq!(
        app.secure_storage_status_message(),
        Some(secret_store_message(SecretStoreError::Unsupported))
    );
}

#[test]
fn a_preference_applies_at_once_and_survives_once_it_is_written() {
    let mut app = launcher_app();
    let mut wanted = settings();
    wanted.compact_launcher_grid = true;
    app.preference_changed(wanted);
    assert_eq!(app.shell.documents.settings, wanted);
    let replacement = app.interface_document();
    assert_eq!(replacement.settings, wanted);
    assert!(!app.apply_configuration_save(
        ConfigurationWrite::InterfaceSettings,
        Some(replacement.clone()),
        Err(ConfigurationLoadFailure::Unreadable)
    ));
    assert_eq!(app.shell.documents.settings, wanted);
    assert_eq!(app.shell.documents.configuration.settings, settings());
    assert!(app.apply_configuration_save(
        ConfigurationWrite::InterfaceSettings,
        Some(replacement),
        Ok(())
    ));
    assert_eq!(app.shell.documents.configuration.settings, wanted);
}

#[test]
fn titles_are_shortened_as_the_platform_reads_paths() {
    assert_eq!(display_secondary("/usr/bin/"), "bin");
    assert_eq!(display_secondary("foo.txt/."), "foo.txt");
    assert_eq!(display_secondary("foo.txt/.//"), "foo.txt");
    assert_eq!(display_secondary("foo.txt/.."), "foo.txt/..");
    assert_eq!(display_secondary("/"), "/");
    assert_eq!(display_secondary("user@host: ~/dir"), "dir");
    let windows = "C:\\WINDOWS\\system32\\cmd.exe";
    let short = display_secondary(windows);
    assert!(short == "cmd.exe" || short == windows);
}

#[test]
fn a_place_that_was_not_filled_is_given_up() {
    assert!(delivery_goes_ahead(None, false));
    assert!(delivery_goes_ahead(Some(4), true));
    assert!(!delivery_goes_ahead(Some(4), false));
    assert_eq!(delivery_to_fail(Some(4), true), Some(4));
    assert_eq!(delivery_to_fail(Some(4), false), None);
    let mut app = live_ssh();
    let origin = ClipboardPasteOrigin {
        token: 4,
        tab: TabId(7),
        generation: 1,
        ownership_epoch: 0,
    };
    app.clipboard_delivery_checked(origin);
    assert!(app.shell.focus.clipboard_paste.is_none());
    front(&mut app).clipboard_failed = Some(4);
    app.clipboard_delivery_checked(origin);
    assert_eq!(app.shell.focus.clipboard_paste, Some(origin));
}

#[test]
fn macos_settings_shortcut_and_presented_hints_match_the_contract() {
    let mut app = launcher_app();
    let chord = ApplicationShortcut::Settings
        .chord(Platform::MacOs)
        .unwrap();
    assert_eq!(chord.key, Key::Comma);
    assert!(chord.modifiers.command && !chord.modifiers.shift);
    assert!(matches!(
        app.perform_action(KeyboardAction::Settings, &Vec::new(), None, 0)
            .as_slice(),
        [Effect::Dispatch(AppCommand::OpenSettings)]
    ));
    let items = app.palette_items(&BindingLabels {
        labels: vec![(
            KeyboardAction::NewSession,
            ApplicationShortcut::NewSession
                .label(Platform::MacOs)
                .unwrap()
                .to_owned(),
        )],
    });
    assert_eq!(
        items
            .iter()
            .find(|item| item.label == "New Session…")
            .and_then(|item| item.hint.as_deref()),
        Some("\u{2318}+T")
    );
}

#[test]
fn command_palette_selection_activates_the_chosen_tab_end_to_end() {
    let mut app = launcher_app();
    app.state.tabs.push(Tab {
        id: TabId(2),
        restorable: true,
        content: TabContent::Settings,
    });
    app.state.active = TabId(2);
    app.shell.focus.palette_open = true;
    let label = quick_switch_label(0, Platform::Other).unwrap();
    let items = app.palette_items(&BindingLabels {
        labels: vec![(KeyboardAction::QuickSwitch(1), label.clone())],
    });
    let launcher = items.iter().find(|item| item.label == "Launcher").unwrap();
    assert_eq!(launcher.shortcut_label.as_ref(), Some(&label));
    let mut pass = FramePass::ui_content(1);
    pass.stage = FrameStage::Palette;
    let effects = pass.step(
        &mut app,
        FrameAnswer::Palette(PaletteDecision::Selected(launcher.id)),
        &Vec::new(),
        None,
        None,
        0,
    );
    assert!(!app.shell.focus.palette_open);
    assert!(matches!(
        effects.as_slice(),
        [Effect::Dispatch(AppCommand::ActivateTab(TabId(1)))]
    ));
}

#[test]
fn keyboard_inspector_recording_controls_do_not_send_widget_input_to_terminal() {
    let mut app = live_ssh();
    app.shell.focus.inspector_open = true;
    for (recording, wanted) in [(false, true), (true, false)] {
        front(&mut app).input_recording = recording;
        assert!(matches!(
            app.dispatch_inspector_action(TabId(7), InspectorAction::ToggleInputRecording)
                .as_slice(),
            [Effect::Dispatch(AppCommand::SetInputRecording { tab: TabId(7), enabled })]
                if *enabled == wanted
        ));
    }
    assert!(!app.terminal_owns_input());
    assert_eq!(app.terminal_input_target(1), None);
    assert!(app.paste_into_active_session().is_empty());
    assert!(matches!(
        app.dispatch_inspector_action(TabId(7), InspectorAction::ClearInputRecording)
            .as_slice(),
        [Effect::Dispatch(AppCommand::ClearInputRecording(TabId(7)))]
    ));
    assert_eq!(app.route_surface_escape(true), (true, false));
}

#[test]
fn the_inspector_acts_on_the_tab_that_was_drawn() {
    let mut app = live_ssh();
    app.state.tabs.push(viewer(12));
    let mut pass = FramePass::ui_content(1);
    pass.stage = FrameStage::Front;
    pass.target = Some(TabId(7));
    let mut step = |app: &mut FesTermApp, answer: FrameAnswer| {
        pass.step(app, answer, &Vec::new(), None, None, 0)
    };
    assert!(step(&mut app, FrameAnswer::Done).is_empty());
    assert!(step(
        &mut app,
        FrameAnswer::Surface {
            paste_arrived: false,
            read_requested: true
        }
    )
    .is_empty());
    assert!(matches!(
        step(
            &mut app,
            FrameAnswer::Viewer(Some(AppCommand::ActivateTab(TabId(12))))
        )
        .as_slice(),
        [Effect::Dispatch(AppCommand::ActivateTab(TabId(12)))]
    ));
    app.state.tabs.push(session_tab(8, session("second", ssh())));
    app.state.active = TabId(8);
    assert!(step(&mut app, FrameAnswer::Viewer(None)).is_empty());
    assert!(step(&mut app, FrameAnswer::Done).is_empty());
    assert!(matches!(
        step(&mut app, FrameAnswer::Done).as_slice(),
        [Effect::RequestClipboard(TabId(8))]
    ));
    assert!(step(&mut app, FrameAnswer::Link(None)).is_empty());
    assert!(matches!(
        step(
            &mut app,
            FrameAnswer::Inspector(Some(InspectorAction::Reconnect))
        )
        .as_slice(),
        [Effect::Dispatch(AppCommand::ReconnectSession(TabId(7)))]
    ));
}

#[allow(dead_code)]
fn settings() -> InterfaceSettings {
    InterfaceSettings {
        restore_workspace: false,
        confirm_session_close: true,
        status_bar_visible: true,
        show_session_details: true,
        show_durable_session_in_status_bar: false,
        pulse_new_output_dot: false,
        quick_switch_overlay: false,
        compact_launcher_grid: false,
    }
}

#[allow(dead_code)]
fn configuration(settings: InterfaceSettings) -> Arc<Configuration> {
    Arc::new(Configuration {
        settings,
        profiles: Arc::new(Vec::new()),
        workspace: None,
    })
}

/// A window on the launcher, in tab 1.
#[allow(dead_code)]
fn launcher_app() -> FesTermApp {
    FesTermApp::with_configuration(
        configuration(settings()),
        Ok(()),
        Vec::new(),
        None,
        None,
        TabId(1),
    )
}

#[allow(dead_code)]
fn session(label: &str, transport: Transport) -> SessionTab {
    SessionTab {
        label: label.to_owned(),
        launch_secondary: None,
        dynamic_secondary: None,
        terminal_title: String::new(),
        profile_identifier: None,
        transport,
        chip_status: ChipStatus::Connected,
        status_label: "Running".to_owned(),
        system_label: "linux".to_owned(),
        dimensions: None,
        durable_label: None,
        accepts_input: true,
        accepts_typed_input: true,
        bracketed_paste: false,
        lifecycle_generation: 1,
        clipboard_pending: None,
        clipboard_failed: None,
        search_open: false,
        host_key_prompt: None,
        password_prompt: false,
        live_port_forwarding: false,
        active_port_forwards: 0,
        close_requires_confirmation: true,
        reconnect_available: false,
        input_recording: false,
        has_new_output: false,
        evicted_lines: 0,
        eviction_notice_shown: false,
    }
}

#[allow(dead_code)]
fn local() -> Transport {
    Transport::Local { persistence: None }
}

#[allow(dead_code)]
fn ssh() -> Transport {
    Transport::Ssh {
        username: "controlled".to_owned(),
        host: "ssh.example.test".to_owned(),
        port: 22,
        persistence: None,
    }
}

#[allow(dead_code)]
fn session_tab(id: u64, session: SessionTab) -> Tab {
    Tab {
        id: TabId(id),
        restorable: true,
        content: TabContent::Session(session),
    }
}

/// A window on one session, in tab 7.
#[allow(dead_code)]
fn app_with(session: SessionTab) -> FesTermApp {
    let mut app = launcher_app();
    app.state.tabs = vec![session_tab(7, session)];
    app.state.active = TabId(7);
    app
}

#[allow(dead_code)]
fn live_local() -> FesTermApp {
    app_with(session("Local Shell", local()))
}

#[allow(dead_code)]
fn live_ssh() -> FesTermApp {
    let mut remote = session("controlled", ssh());
    remote.live_port_forwarding = true;
    app_with(remote)
}

#[allow(dead_code)]
fn front(app: &mut FesTermApp) -> &mut SessionTab {
    let active = app.state.active;
    let tab = app
        .state
        .tabs
        .iter_mut()
        .find(|tab| tab.id == active)
        .unwrap();
    match &mut tab.content {
        TabContent::Session(session) => session,
        _ => panic!("a session is in front"),
    }
}
