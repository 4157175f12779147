#[allow(unused_imports)]
use std::sync::Arc;

#[allow(unused_imports)]
use festerm::app::{FesTermApp, TabMoveRequest, WindowRole};
#[allow(unused_imports)]
use festerm::configuration::{Configuration, InterfaceSettings};
#[allow(unused_imports)]
use festerm::state::{ChipStatus, SessionTab, Tab, TabContent, TabId, Transport};
use festerm::confirmations::OpenDocument;
use festerm::dialogs::{Confirmation, ConfirmationAnswer, DialogClick, DocumentChoice};
use festerm::effects::{AppCommand, Effect};
use festerm::file_drop::DropOutcome;
use festerm::overlays::{
    AfterDocumentClose, CloseConsequence, LiveSessionCounts, QuitConfirmationPurpose,
};
use festerm::state::{
    FileManagerTab, MarkdownViewerTab, Persistence, SerialDataBits, SerialFlowControl,
    SerialParity, SerialStopBits, TextEditorTab,
};

fn serial() -> Transport {
    Transport::Serial {
        device: "/dev/ttyUSB0".to_owned(),
        baud_rate: 115_200,
        data_bits: SerialDataBits::Eight,
        parity: SerialParity::Absent,
        stop_bits: SerialStopBits::One,
        flow_control: SerialFlowControl::Absent,
    }
}

fn without_close_confirmation(app: &mut FesTermApp) {
    let mut quiet = settings();
    quiet.confirm_session_close = false;
    app.preference_changed(quiet);
}

fn editor(id: u64, document: u64) -> Tab {
    Tab {
        id: TabId(id),
        restorable: true,
        content: TabContent::TextEditor(TextEditorTab {
            title: "NOTES.md".to_owned(),
            origin: "/home/user/NOTES.md".to_owned(),
            document,
            status: ChipStatus::DocumentUnsaved,
            language: "Markdown".to_owned(),
            position: "Ln 1, Col 1".to_owned(),
            encoding: "UTF-8".to_owned(),
            status_label: "Unsaved".to_owned(),
            size: "6 B".to_owned(),
        }),
    }
}

fn preview(id: u64, document: u64) -> Tab {
    Tab {
        id: TabId(id),
        restorable: true,
        content: TabContent::MarkdownViewer(MarkdownViewerTab {
            title: "NOTES.md".to_owned(),
            secondary: "preview".to_owned(),
            live_document: Some(document),
            status: ChipStatus::DocumentUnsaved,
            status_context: String::new(),
            status_encoding: String::new(),
            status_label: String::new(),
        }),
    }
}

fn notes(unsaved: bool, views: u64) -> Vec<OpenDocument> {
    vec![OpenDocument {
        id: 41,
        title: "NOTES.md".to_owned(),
        origin: "/home/user/NOTES.md".to_owned(),
        unsaved,
        views,
    }]
}

fn editing() -> FesTermApp {
    let mut app = launcher_app();
    app.state.tabs.push(editor(2, 41));
    app.state.active = TabId(2);
    app
}

fn closes(effects: &[Effect], tab: u64) -> bool {
    matches!(effects, [Effect::Dispatch(AppCommand::CloseTab(id))] if id.0 == tab)
}

#[test]
fn close_confirmation_states_transport_specific_consequence() {
    assert!(CloseConsequence::TerminateLocalProcess
        .message()
        .contains("local process"));
    assert!(CloseConsequence::DisconnectSsh
        .message()
        .contains("SSH connection"));
}

#[test]
fn resetting_already_default_interface_settings_needs_no_confirmation() {
    let mut app = launcher_app();
    let effect = app.request_reset_interface_settings(true);
    assert!(app.shell.overlays.pending_settings_reset.is_none());
    assert!(matches!(
        effect,
        Some(Effect::Dispatch(AppCommand::ResetInterfaceSettings))
    ));
}

#[test]
fn resetting_changed_interface_settings_is_safe_by_default_and_confirmed_deliberately() {
    let mut app = launcher_app();
    assert!(app.request_reset_interface_settings(false).is_none());
    assert!(app.shell.overlays.pending_settings_reset.is_some());

    let effects = app.show_settings_reset_confirmation(false, false, DialogClick::Cancel);
    assert!(app.shell.overlays.pending_settings_reset.is_none());
    assert!(effects.is_empty());

    assert!(app.request_reset_interface_settings(false).is_none());
    let effects = app.show_settings_reset_confirmation(false, false, DialogClick::Confirm);
    assert!(app.shell.overlays.pending_settings_reset.is_none());
    assert!(matches!(
        effects.as_slice(),
        [
            Effect::Dispatch(AppCommand::ResetInterfaceSettings),
            Effect::ReinstallTerminalFont,
            Effect::PersistInterfaceSettings
        ]
    ));
}

#[test]
fn live_close_confirmation_is_safe_by_default_and_confirmed_deliberately() {
    let mut app = live_local();
    assert!(app.request_close_tab(TabId(7), &Vec::new()).is_none());
    let dialog = app.close_dialog().unwrap();
    assert!(dialog.focus_cancel);
    assert_eq!(dialog.heading, "Close \u{201c}Local Shell\u{201d}?");

    let effects = app.show_close_confirmation(false, DialogClick::Nothing);
    assert!(effects.is_empty());
    assert!(app.shell.overlays.pending_close.is_some());
    assert_eq!(app.state.active, TabId(7));
    assert!(!app.close_dialog().unwrap().focus_cancel);

    let effects = app.show_close_confirmation(false, DialogClick::Confirm);
    assert!(app.shell.overlays.pending_close.is_none());
    assert!(closes(&effects, 7));
}

#[test]
fn escape_cancels_live_close_without_closing_session() {
    let mut app = live_local();
    assert!(app.request_close_tab(TabId(7), &Vec::new()).is_none());
    let effects = app.show_close_confirmation(true, DialogClick::Nothing);
    assert!(app.shell.overlays.pending_close.is_none());
    assert_eq!(app.state.active, TabId(7));
    assert!(matches!(
        effects.as_slice(),
        [Effect::FocusTerminal(TabId(7))]
    ));
}

#[test]
fn a_close_confirmation_lapses_when_its_session_is_another_one() {
    for change in ["generation", "ended", "gone"] {
        let mut app = live_local();
        assert!(app.request_close_tab(TabId(7), &Vec::new()).is_none());
        match change {
            "generation" => front(&mut app).lifecycle_generation = 2,
            "ended" => front(&mut app).close_requires_confirmation = false,
            _ => {
                app.state.tabs = vec![session_tab(8, session("other", local()))];
                app.state.active = TabId(8);
            }
        }
        let effects = app.show_close_confirmation(false, DialogClick::Confirm);
        assert!(app.shell.overlays.pending_close.is_none());
        assert!(!closes(&effects, 7), "{change}");
    }
}

#[test]
fn disabled_close_confirmation_closes_live_session_immediately() {
    let mut app = live_local();
    without_close_confirmation(&mut app);
    let effect = app.request_close_tab(TabId(7), &Vec::new()).unwrap();
    assert!(app.shell.overlays.pending_close.is_none());
    assert!(closes(&[effect], 7));
}

#[test]
fn closing_with_no_live_sessions_needs_no_quit_confirmation() {
    let mut app = launcher_app();
    assert!(!app.evaluate_close_request(&Vec::new()));
    assert!(app.shell.overlays.pending_quit.is_none());
    assert!(!app.close_requested(&Vec::new()));
    assert!(app.window_close_accepted());
}

#[test]
fn closing_with_a_live_session_shows_aggregate_quit_confirmation() {
    let mut app = live_local();
    assert!(app.evaluate_close_request(&Vec::new()));
    let pending = app.shell.overlays.pending_quit.expect("should be pending");
    assert_eq!(pending.counts.local, 1);
    assert_eq!(pending.counts.ssh, 0);
    assert_eq!(pending.counts.serial, 0);
}

#[test]
fn closing_a_secondary_window_honours_the_close_confirmation_preference() {
    let mut app = live_local();
    app.shell.role = WindowRole::Secondary;
    without_close_confirmation(&mut app);
    assert!(!app.evaluate_close_request(&Vec::new()));
    assert!(app.shell.overlays.pending_quit.is_none());
}

#[test]
fn closing_a_secondary_window_confirms_as_a_window_rather_than_a_quit() {
    let mut app = live_local();
    app.shell.role = WindowRole::Secondary;
    app.evaluate_close_request(&Vec::new());
    assert!(app
        .shell
        .overlays
        .pending_quit
        .is_some_and(|pending| pending.purpose == QuitConfirmationPurpose::CloseWindow));
}

#[test]
fn closing_the_primary_window_confirms_even_with_the_preference_off() {
    let mut app = live_local();
    without_close_confirmation(&mut app);
    app.evaluate_close_request(&Vec::new());
    assert!(app
        .shell
        .overlays
        .pending_quit
        .is_some_and(|pending| pending.purpose == QuitConfirmationPurpose::Quit));
}

#[test]
fn native_smoke_close_bypasses_live_session_quit_confirmation() {
    let mut app = live_local();
    app.shell.native_smoke = true;
    app.evaluate_close_request(&Vec::new());
    assert!(app.shell.overlays.pending_quit.is_none());
}

#[test]
fn a_second_close_request_does_not_reopen_the_quit_confirmation() {
    let mut app = live_local();
    app.evaluate_close_request(&Vec::new());
    app.shell
        .overlays
        .pending_quit
        .as_mut()
        .unwrap()
        .cancel_focus_requested = true;
    app.evaluate_close_request(&Vec::new());
    assert!(
        app.shell
            .overlays
            .pending_quit
            .expect("should still be pending")
            .cancel_focus_requested
    );
}

#[test]
fn window_close_during_update_consent_preserves_live_sessions() {
    let mut app = live_local();
    assert!(app.request_update_install().is_none());
    let cancelled = app.evaluate_close_request(&Vec::new());
    assert!(app
        .shell
        .overlays
        .pending_quit
        .is_some_and(|pending| pending.purpose == QuitConfirmationPurpose::InstallUpdate));
    assert!(cancelled);
}

#[test]
fn aggregate_quit_confirmation_is_safe_by_default_and_confirmed_deliberately() {
    let mut app = live_local();
    app.evaluate_close_request(&Vec::new());
    let dialog = app.quit_dialog().unwrap();
    assert!(dialog.focus_cancel);
    assert_eq!(dialog.heading, "Quit fesTerm?");
    assert_eq!(dialog.confirm_label, "Quit fesTerm");

    assert!(app
        .show_quit_confirmation(false, DialogClick::Nothing)
        .is_none());
    assert!(app.shell.overlays.pending_quit.is_some());
    assert!(!app.shell.exit.quit_confirmed);

    let effect = app.show_quit_confirmation(false, DialogClick::Confirm);
    assert!(matches!(effect, Some(Effect::CloseViewport)));
    assert!(app.shell.overlays.pending_quit.is_none());
    assert!(app.shell.exit.quit_confirmed);
    assert!(!app.close_requested(&Vec::new()));
    assert!(app.window_close_accepted());
}

#[test]
fn escape_cancels_the_aggregate_quit_confirmation_without_quitting() {
    let mut app = live_local();
    app.evaluate_close_request(&Vec::new());
    assert!(app
        .show_quit_confirmation(true, DialogClick::Confirm)
        .is_none());
    assert!(app.shell.overlays.pending_quit.is_none());
    assert!(!app.shell.exit.quit_confirmed);
}

#[test]
fn a_quit_confirmation_lapses_with_its_last_session() {
    let mut app = live_local();
    app.evaluate_close_request(&Vec::new());
    front(&mut app).close_requires_confirmation = false;
    assert!(app
        .show_quit_confirmation(false, DialogClick::Confirm)
        .is_none());
    assert!(app.shell.overlays.pending_quit.is_none());
    assert!(!app.shell.exit.quit_confirmed);
}

#[test]
fn live_sessions_are_counted_by_what_they_run_over() {
    let mut app = live_local();
    app.state
        .tabs
        .push(session_tab(8, session("remote", ssh())));
    app.state.tabs.push(session_tab(
        9,
        session(
            "files",
            Transport::Sftp {
                username: "u".to_owned(),
                host: "h".to_owned(),
                port: 22,
            },
        ),
    ));
    app.state
        .tabs
        .push(session_tab(10, session("console", serial())));
    let mut ended = session("ended", local());
    ended.close_requires_confirmation = false;
    app.state.tabs.push(session_tab(11, ended));
    app.state.tabs.push(Tab {
        id: TabId(12),
        restorable: true,
        content: TabContent::SftpFileManager(FileManagerTab {
            label: "files".to_owned(),
            endpoints: String::new(),
            status: ChipStatus::Connected,
            status_label: String::new(),
            host_key_prompt: None,
        }),
    });
    assert_eq!(
        app.state.live_session_counts(),
        LiveSessionCounts {
            local: 1,
            ssh: 2,
            serial: 1
        }
    );
    assert!(!app.state.live_session_counts().is_empty());
    assert!(launcher_app().state.live_session_counts().is_empty());
}

#[test]
fn a_durable_local_session_no_longer_ends_with_its_tab() {
    assert!(local().still_has_consequence(CloseConsequence::TerminateLocalProcess));
    let durable = Transport::Local {
        persistence: Some(Persistence {
            provider_label: "tmux".to_owned(),
            session_name: "work".to_owned(),
        }),
    };
    assert!(!durable.still_has_consequence(CloseConsequence::TerminateLocalProcess));
    assert!(ssh().still_has_consequence(CloseConsequence::DisconnectSsh));
    assert!(!ssh().still_has_consequence(CloseConsequence::TerminateLocalProcess));
}

#[test]
fn closing_a_clean_editor_asks_nothing_and_forgets_the_document() {
    let mut app = editing();
    let effect = app.request_close_tab(TabId(2), &notes(false, 1)).unwrap();
    assert!(app.shell.overlays.pending_document_close.is_none());
    assert!(closes(&[effect], 2));
}

#[test]
fn closing_the_final_view_of_a_dirty_document_asks_first() {
    let mut app = editing();
    assert!(app.request_close_tab(TabId(2), &notes(true, 1)).is_none());
    let dialog = app
        .document_dialog()
        .expect("the final view of a dirty document is asked about");
    assert_eq!(dialog.heading, "Save changes to NOTES.md?");
    assert!(dialog.origin.ends_with("NOTES.md"));
    let pending = app.shell.overlays.pending_document_close.unwrap();
    assert_eq!(pending.title, "NOTES.md");
    assert_eq!(pending.next, AfterDocumentClose::CloseTab(TabId(2)));
}

#[test]
fn closing_one_of_two_views_of_a_dirty_document_asks_nothing() {
    let mut app = editing();
    app.state.tabs.push(preview(3, 41));
    let effect = app.request_close_tab(TabId(2), &notes(true, 2)).unwrap();
    assert!(
        app.shell.overlays.pending_document_close.is_none(),
        "closing one of two views takes nothing away"
    );
    assert!(closes(&[effect], 2));
}

#[test]
fn the_dirty_close_prompt_focuses_save_and_escape_cancels() {
    let mut app = editing();
    assert!(app.request_close_tab(TabId(2), &notes(true, 1)).is_none());
    assert!(app.document_dialog().unwrap().focus_save);
    let effects = app.show_document_close_confirmation(true, DocumentChoice::Nothing);
    assert!(app.shell.overlays.pending_document_close.is_none());
    assert!(effects.is_empty(), "cancelling closes and writes nothing");
}

#[test]
fn saving_from_the_dirty_close_prompt_writes_the_file_and_closes_the_tab() {
    let mut app = editing();
    assert!(app.request_close_tab(TabId(2), &notes(true, 1)).is_none());
    let effects = app.show_document_close_confirmation(false, DocumentChoice::Save);
    assert!(matches!(effects.as_slice(), [Effect::SaveDocument(41)]));
    assert!(app.shell.overlays.pending_document_close.is_some());
    let effect = app.document_written(true).unwrap();
    assert!(app.shell.overlays.pending_document_close.is_none());
    assert!(closes(&[effect], 2), "the tab closes once the write succeeded");
}

#[test]
fn a_document_that_cannot_be_written_is_still_asked_about() {
    let mut app = editing();
    assert!(app.request_close_tab(TabId(2), &notes(true, 1)).is_none());
    app.show_document_close_confirmation(false, DocumentChoice::Save);
    assert!(app.document_written(false).is_none());
    assert!(app.shell.overlays.pending_document_close.is_some());
}

#[test]
fn discarding_from_the_dirty_close_prompt_closes_without_writing() {
    let mut app = editing();
    assert!(app.request_close_tab(TabId(2), &notes(true, 1)).is_none());
    let effects = app.show_document_close_confirmation(false, DocumentChoice::Discard);
    assert!(app.shell.overlays.pending_document_close.is_none());
    assert!(matches!(effects[0], Effect::DiscardDocument(41)));
    assert!(closes(&effects[1..], 2));
}

#[test]
fn quitting_with_unsaved_text_asks_about_the_document_before_anything_else() {
    let mut app = editing();
    app.state
        .tabs
        .push(session_tab(7, session("Local Shell", local())));
    assert!(app.evaluate_close_request(&notes(true, 1)));
    assert!(app.shell.overlays.pending_quit.is_none());
    let pending = app
        .shell
        .overlays
        .pending_document_close
        .as_ref()
        .expect("a quit asks about unsaved text");
    assert_eq!(pending.title, "NOTES.md");
    assert_eq!(
        pending.next,
        AfterDocumentClose::ResumeClose(QuitConfirmationPurpose::Quit),
        "answering it resumes the quit rather than ending there"
    );
    assert!(!app.shell.exit.quit_confirmed);
    assert!(!app.window_close_accepted());
    let effects = app.show_document_close_confirmation(false, DocumentChoice::Discard);
    assert!(matches!(effects[1], Effect::CloseViewport));
    assert!(app.evaluate_close_request(&notes(false, 1)));
    assert!(app.shell.overlays.pending_quit.is_some());
}

#[test]
fn a_saved_document_is_no_longer_asked_about_when_quitting() {
    let mut app = editing();
    app.evaluate_close_request(&notes(false, 1));
    assert!(
        app.shell.overlays.pending_document_close.is_none(),
        "nothing is unsaved, so nothing is asked"
    );
}

#[test]
fn a_secondary_window_asks_only_about_text_that_no_other_window_shows() {
    let mut app = editing();
    app.shell.role = WindowRole::Secondary;
    assert!(!app.evaluate_close_request(&notes(true, 2)));
    assert!(app.evaluate_close_request(&notes(true, 1)));
}

#[test]
fn dropping_a_file_on_a_live_local_session_stages_a_bounded_preview() {
    let mut app = live_local();
    let outcome = app.handle_dropped_files(&vec!["/tmp/example.txt".to_owned()], false, 0);
    assert_eq!(outcome, DropOutcome::Staged);
    let pending = app
        .shell
        .overlays
        .pending_file_drop
        .expect("should stage a preview");
    assert_eq!(pending.tab, TabId(7));
    assert_eq!(pending.text, "/tmp/example.txt");
    assert_eq!(pending.path_count, 1);
}

#[test]
fn dropping_multiple_files_preserves_drop_order_space_joined() {
    let mut app = live_local();
    app.handle_dropped_files(
        &vec!["/tmp/b.txt".to_owned(), "/tmp/a.txt".to_owned()],
        false,
        0,
    );
    let pending = app
        .shell
        .overlays
        .pending_file_drop
        .expect("should stage a preview");
    assert_eq!(pending.text, "/tmp/b.txt /tmp/a.txt");
    assert_eq!(pending.path_count, 2);
}

#[test]
fn dropping_a_file_on_launcher_is_rejected_with_a_transient_notice() {
    let mut app = launcher_app();
    let outcome = app.handle_dropped_files(&vec!["/tmp/example.txt".to_owned()], false, 0);
    assert_eq!(outcome, DropOutcome::Rejected);
    assert!(app.shell.overlays.pending_file_drop.is_none());
    assert!(app.shell.overlays.transient_notice.is_some());
}

#[test]
fn each_refused_drop_says_why() {
    let refused = |app: &mut FesTermApp, over_remote_pane: bool| {
        let outcome =
            app.handle_dropped_files(&vec!["/tmp/a".to_owned()], over_remote_pane, 5);
        assert_eq!(outcome, DropOutcome::Rejected);
        app.shell
            .overlays
            .transient_notice
            .as_ref()
            .unwrap()
            .notice
            .text()
    };
    let launcher = refused(&mut launcher_app(), false);
    let remote = refused(&mut live_ssh(), false);
    let mut ended = live_local();
    front(&mut ended).accepts_input = false;
    let stopped = refused(&mut ended, false);
    let mut files = launcher_app();
    files.state.tabs = vec![Tab {
        id: TabId(3),
        restorable: true,
        content: TabContent::SftpFileManager(FileManagerTab {
            label: "files".to_owned(),
            endpoints: String::new(),
            status: ChipStatus::Connected,
            status_label: String::new(),
            host_key_prompt: None,
        }),
    }];
    files.state.active = TabId(3);
    let elsewhere = refused(&mut files, false);
    for (i, a) in [&launcher, &remote, &stopped, &elsewhere].iter().enumerate() {
        for (j, b) in [&launcher, &remote, &stopped, &elsewhere].iter().enumerate() {
            assert_eq!(i == j, a == b);
        }
    }
    assert_eq!(
        files.handle_dropped_files(&vec!["/tmp/a".to_owned()], true, 5),
        DropOutcome::Upload(TabId(3))
    );
    assert_eq!(
        live_local().handle_dropped_files(&Vec::new(), false, 5),
        DropOutcome::Ignored
    );
}

#[test]
fn file_drop_confirmation_is_safe_by_default_and_confirmed_deliberately() {
    let mut app = live_local();
    app.handle_dropped_files(&vec!["/tmp/example.txt".to_owned()], false, 0);
    let dialog = app.file_drop_dialog().unwrap();
    assert!(dialog.focus_cancel);
    assert_eq!(
        dialog.heading,
        "Insert 1 path into \u{201c}Local Shell\u{201d}?"
    );
    assert_eq!(dialog.preview, "/tmp/example.txt");
    assert_eq!(dialog.omission, None);

    assert!(app
        .show_file_drop_confirmation(false, DialogClick::Nothing)
        .is_empty());
    assert!(app.shell.overlays.pending_file_drop.is_some());

    let effects = app.show_file_drop_confirmation(false, DialogClick::Confirm);
    assert!(app.shell.overlays.pending_file_drop.is_none());
    match effects.as_slice() {
        [Effect::InsertText { tab, text }] => {
            assert_eq!(*tab, TabId(7));
            assert_eq!(text, "/tmp/example.txt");
        }
        _ => panic!("the path is inserted once"),
    }
    assert_eq!(app.state.active, TabId(7));
}

#[test]
fn escape_cancels_file_drop_without_inserting_anything() {
    let mut app = live_local();
    app.handle_dropped_files(&vec!["/tmp/example.txt".to_owned()], false, 0);
    let effects = app.show_file_drop_confirmation(true, DialogClick::Nothing);
    assert!(app.shell.overlays.pending_file_drop.is_none());
    assert!(matches!(
        effects.as_slice(),
        [Effect::FocusTerminal(TabId(7))]
    ));
}

#[test]
fn a_long_drop_shows_how_much_is_left_out() {
    let mut app = live_local();
    let path = "x".repeat(3_000);
    app.handle_dropped_files(&vec![path], false, 0);
    let dialog = app.file_drop_dialog().unwrap();
    let left_out = 3_000 - dialog.shown_characters;
    assert_eq!(dialog.preview.chars().count(), dialog.shown_characters);
    assert_eq!(
        dialog.omission,
        Some(format!("Preview omits {left_out} characters."))
    );
}

#[test]
fn files_dropped_while_something_blocks_are_refused_with_a_notice() {
    let mut app = live_local();
    app.shell.overlays.about_open = true;
    let outcome = app.handle_dropped_files(&vec!["/tmp/example.txt".to_owned()], false, 3);
    assert_eq!(outcome, DropOutcome::Rejected);
    assert!(app.shell.overlays.pending_file_drop.is_none());
    let shown = app.shell.overlays.transient_notice.as_ref().unwrap();
    assert_eq!(
        shown.notice.text(),
        "File drop has to wait until the open dialog is closed."
    );
    assert_eq!(shown.shown_at_ms, 3);
    app.shell.overlays.transient_notice = None;
    assert_eq!(
        app.handle_dropped_files(&Vec::new(), false, 3),
        DropOutcome::Ignored
    );
    assert!(app.shell.overlays.transient_notice.is_none());
}

#[test]
fn a_close_with_a_live_session_is_cancelled_and_asked_about() {
    let mut app = live_local();
    assert!(app.close_requested(&Vec::new()));
    assert!(!app.window_close_accepted());
    assert!(app
        .shell
        .overlays
        .pending_quit
        .is_some_and(|pending| pending.purpose == QuitConfirmationPurpose::Quit));
}

#[test]
fn a_close_with_unsaved_text_is_cancelled_and_asked_about() {
    let mut app = editing();
    assert!(app.close_requested(&notes(true, 1)));
    assert!(!app.window_close_accepted());
    assert_eq!(
        app.shell.overlays.pending_document_close.as_ref().unwrap().title,
        "NOTES.md"
    );
    assert!(app.close_requested(&notes(true, 1)), "it is still asked about");
    app.show_document_close_confirmation(false, DocumentChoice::Discard);
    assert!(!app.close_requested(&notes(false, 1)));
    assert!(app.window_close_accepted());
}

#[test]
fn an_untouched_confirmation_does_nothing_of_consequence() {
    let untouched = ConfirmationAnswer {
        escape: false,
        click: DialogClick::Nothing,
        choice: DocumentChoice::Nothing,
    };
    let mut app = live_local();
    app.evaluate_close_request(&Vec::new());
    assert_eq!(app.shell.overlays.confirmation(), Some(Confirmation::Quit));
    assert!(app.answer_confirmation(1, false, untouched).is_empty());
    assert_eq!(app.shell.overlays.confirmation(), Some(Confirmation::Quit));
    let escaped = ConfirmationAnswer {
        escape: true,
        ..untouched
    };
    assert!(app.answer_confirmation(1, false, escaped).is_empty());
    assert_eq!(app.shell.overlays.confirmation(), None);
}

#[test]
fn the_close_of_a_tab_is_asked_about_before_a_quit() {
    let mut app = live_local();
    app.evaluate_close_request(&Vec::new());
    assert!(app.request_close_tab(TabId(7), &Vec::new()).is_none());
    assert_eq!(
        app.shell.overlays.confirmation(),
        Some(Confirmation::CloseTab)
    );
}
#[allow(dead_code)]
fn settings() -> InterfaceSettings {
    InterfaceSettings {
        restore_workspace: false,
        confirm_session_close: true,
        status_bar_visible: true,
        show_session_details: true,
        show_durable_session_in_status_bar: false,
        pulse_new_output_dot: false,
        quick_switch_overlay: false,
        compact_launcher_grid: false,
    }
}

#[allow(dead_code)]
fn configuration(settings: InterfaceSettings) -> Arc<Configuration> {
    Arc::new(Configuration {
        settings,
        profiles: Arc::new(Vec::new()),
        workspace: None,
    })
}

/// A window on the launcher, in tab 1.
#[allow(dead_code)]
fn launcher_app() -> FesTermApp {
    FesTermApp::with_configuration(
        configuration(settings()),
        Ok(()),
        Vec::new(),
        None,
        None,
        TabId(1),
    )
}

#[allow(dead_code)]
fn session(label: &str, transport: Transport) -> SessionTab {
    SessionTab {
        label: label.to_owned(),
        launch_secondary: None,
        dynamic_secondary: None,
        terminal_title: String::new(),
        profile_identifier: None,
        transport,
        chip_status: ChipStatus::Connected,
        status_label: "Running".to_owned(),
        system_label: "linux".to_owned(),
        dimensions: None,
        durable_label: None,
        accepts_input: true,
        accepts_typed_input: true,
        bracketed_paste: false,
        lifecycle_generation: 1,
        clipboard_pending: None,
        clipboard_failed: None,
        search_open: false,
        host_key_prompt: None,
        password_prompt: false,
        live_port_forwarding: false,
        active_port_forwards: 0,
        close_requires_confirmation: true,
        reconnect_available: false,
        input_recording: false,
        has_new_output: false,
        evicted_lines: 0,
        eviction_notice_shown: false,
    }
}

#[allow(dead_code)]
fn local() -> Transport {
    Transport::Local { persistence: None }
}

#[allow(dead_code)]
fn ssh() -> Transport {
    Transport::Ssh {
        username: "controlled".to_owned(),
        host: "ssh.example.test".to_owned(),
        port: 22,
        persistence: None,
    }
}

#[allow(dead_code)]
fn session_tab(id: u64, session: SessionTab) -> Tab {
    Tab {
        id: TabId(id),
        restorable: true,
        content: TabContent::Session(session),
    }
}

/// A window on one session, in tab 7.
#[allow(dead_code)]
fn app_with(session: SessionTab) -> FesTermApp {
    let mut app = launcher_app();
    app.state.tabs = vec![session_tab(7, session)];
    app.state.active = TabId(7);
    app
}

#[allow(dead_code)]
fn live_local() -> FesTermApp {
    app_with(session("Local Shell", local()))
}

#[allow(dead_code)]
fn live_ssh() -> FesTermApp {
    let mut remote = session("controlled", ssh());
    remote.live_port_forwarding = true;
    app_with(remote)
}

#[allow(dead_code)]
fn front(app: &mut FesTermApp) -> &mut SessionTab {
    let active = app.state.active;
    let tab = app
        .state
        .tabs
        .iter_mut()
        .find(|tab| tab.id == active)
        .unwrap();
    match &mut tab.content {
        TabContent::Session(session) => session,
        _ => panic!("a session is in front"),
    }
}
