use festerm::shortcuts::{
    quick_action, quick_switch_label, ApplicationShortcut, Chord, Key, KeyboardAction, Modifiers,
    Platform,
};

const ALL: [ApplicationShortcut; 21] = [
    ApplicationShortcut::CommandPalette,
    ApplicationShortcut::NewSession,
    ApplicationShortcut::NewWindow,
    ApplicationShortcut::StartLocalShell,
    ApplicationShortcut::CloseActiveSurface,
    ApplicationShortcut::NextSession,
    ApplicationShortcut::PreviousSession,
    ApplicationShortcut::Settings,
    ApplicationShortcut::SettingsHotkey,
    ApplicationShortcut::ZoomOut,
    ApplicationShortcut::ZoomReset,
    ApplicationShortcut::ClearTerminal,
    ApplicationShortcut::ResetTerminal,
    ApplicationShortcut::ToggleFocusMode,
    ApplicationShortcut::PortForwardManager,
    ApplicationShortcut::MarkdownFind,
    ApplicationShortcut::MarkdownReload,
    ApplicationShortcut::MarkdownPreviewSource,
    ApplicationShortcut::MarkdownOutline,
    ApplicationShortcut::OpenMarkdownFile,
    ApplicationShortcut::Find,
];

#[test]
fn terminal_shortcuts_follow_platform_conventions() {
    assert_eq!(
        ApplicationShortcut::ClearTerminal.label(Platform::MacOs),
        Some("\u{2318}+K")
    );
    assert_eq!(
        ApplicationShortcut::ResetTerminal.label(Platform::MacOs),
        Some("Option+\u{2318}+R")
    );
    assert_eq!(
        ApplicationShortcut::ClearTerminal.label(Platform::Other),
        Some("Ctrl+Shift+K")
    );
    assert_eq!(
        ApplicationShortcut::ResetTerminal.label(Platform::Other),
        Some("Ctrl+Shift+R")
    );
}

#[test]
fn labels_and_chords_agree_on_every_platform() {
    for platform in [Platform::MacOs, Platform::Other] {
        for shortcut in ALL {
            assert_eq!(
                shortcut.label(platform).is_some(),
                shortcut.chord(platform).is_some()
            );
        }
    }
    assert_eq!(
        ApplicationShortcut::PreviousSession.label(Platform::MacOs),
        Some("Ctrl+Shift+Tab")
    );
    assert_eq!(
        ApplicationShortcut::ToggleFocusMode.label(Platform::Other),
        Some("Ctrl+Shift+F11")
    );
    assert_eq!(
        ApplicationShortcut::ZoomOut.label(Platform::Other),
        Some("Ctrl+-")
    );
}

#[test]
fn some_shortcuts_exist_on_one_platform_only() {
    assert_eq!(ApplicationShortcut::Settings.chord(Platform::Other), None);
    assert_eq!(ApplicationShortcut::NewWindow.chord(Platform::Other), None);
    assert_eq!(
        ApplicationShortcut::Settings.chord(Platform::MacOs),
        Some(Chord {
            modifiers: Modifiers {
                command: true,
                ctrl: false,
                alt: false,
                shift: false
            },
            key: Key::Comma
        })
    );
}

#[test]
fn chords_of_different_commands_differ() {
    for platform in [Platform::MacOs, Platform::Other] {
        for a in ALL {
            for b in ALL {
                let find_pair = matches!(
                    (a, b),
                    (ApplicationShortcut::Find, ApplicationShortcut::MarkdownFind)
                        | (ApplicationShortcut::MarkdownFind, ApplicationShortcut::Find)
                );
                if a != b && !find_pair && a.chord(platform).is_some() {
                    assert_ne!(a.chord(platform), b.chord(platform));
                }
            }
        }
    }
}

#[test]
fn plain_control_t_and_w_are_not_tab_management_shortcuts() {
    for key in [Key::T, Key::W] {
        for shortcut in ALL {
            if let Some(chord) = shortcut.chord(Platform::Other) {
                assert!(chord.key != key || chord.modifiers.shift);
            }
        }
    }
}

#[test]
fn control_tab_switches_surfaces_on_every_platform() {
    for platform in [Platform::MacOs, Platform::Other] {
        let chord = ApplicationShortcut::NextSession.chord(platform).unwrap();
        assert_eq!(chord.key, Key::Tab);
        assert!(chord.modifiers.ctrl && !chord.modifiers.command && !chord.modifiers.shift);
    }
}

#[test]
fn settings_hotkey_opens_settings_on_every_platform() {
    for platform in [Platform::MacOs, Platform::Other] {
        let chord = ApplicationShortcut::SettingsHotkey.chord(platform).unwrap();
        assert_eq!(chord.key, Key::S);
        assert!(chord.modifiers.command && chord.modifiers.shift);
    }
    assert_eq!(
        ApplicationShortcut::SettingsHotkey.action(),
        KeyboardAction::SettingsHotkey
    );
}

#[test]
fn actions_carry_the_name_of_their_shortcut() {
    assert_eq!(ApplicationShortcut::Find.action(), KeyboardAction::Find);
    assert_eq!(
        ApplicationShortcut::CommandPalette.action(),
        KeyboardAction::CommandPalette
    );
}

#[test]
fn only_the_first_nine_tabs_have_a_quick_switch() {
    assert_eq!(
        quick_switch_label(0, Platform::MacOs).as_deref(),
        Some("\u{2318} 1")
    );
    assert_eq!(
        quick_switch_label(8, Platform::Other).as_deref(),
        Some("Ctrl+9")
    );
    assert_eq!(quick_switch_label(9, Platform::Other), None);
    assert_eq!(quick_action(0), Some(KeyboardAction::QuickSwitch(1)));
    assert_eq!(quick_action(8), Some(KeyboardAction::QuickSwitch(9)));
    assert_eq!(quick_action(9), None);
}

#[test]
fn no_two_commands_share_a_label_outside_macos() {
    for a in ALL {
        assert!(a.label(Platform::MacOs).is_some());
        let missing = matches!(
            a,
            ApplicationShortcut::NewWindow | ApplicationShortcut::Settings
        );
        assert_eq!(a.label(Platform::Other).is_none(), missing);
        for b in ALL {
            if a != b && !missing {
                assert_ne!(a.label(Platform::Other), b.label(Platform::Other));
            }
        }
    }
    assert_eq!(
        ApplicationShortcut::NewSession.label(Platform::Other),
        Some("Ctrl+Shift+T")
    );
    assert_eq!(
        ApplicationShortcut::CloseActiveSurface.label(Platform::Other),
        Some("Ctrl+Shift+W")
    );
}
