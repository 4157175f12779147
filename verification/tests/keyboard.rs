#[allow(unused_imports)]
use std::sync::Arc;

#[allow(unused_imports)]
use festerm::app::{FesTermApp, TabMoveRequest, WindowRole};
#[allow(unused_imports)]
use festerm::configuration::{Configuration, InterfaceSettings};
#[allow(unused_imports)]
use festerm::state::{ChipStatus, SessionTab, Tab, TabContent, TabId, Transport};
use festerm::about::UpdateStatus;
use festerm::app::ShortcutContext;
use festerm::credentials::WorkerEvent;
use festerm::dialogs::DialogClick;
use festerm::effects::{AppCommand, Effect};
use festerm::input::{order_actions, EventClass, InputBatch, InputEvent, PaletteShortcuts};
use festerm::menu::NativeMenuCommand;
use festerm::overlays::Notice;
use festerm::routing::{
    PacketAnswer, PacketRun, PacketStage, PassAnswer, PassStage, ShortcutPass,
};
use festerm::sequence::{FrameAnswer, FramePass, FrameStage, PaletteDecision};
use festerm::shortcuts::{KeyboardAction, Platform};

#[derive(Clone, Copy, PartialEq)]
enum Input {
    Text(&'static str),
    Enter,
    Press(KeyboardAction),
    Repeat(KeyboardAction),
    Release(KeyboardAction),
    Recovery,
    Paste(&'static str),
    FocusLost,
}

#[derive(Default)]
struct Queue {
    tab: u64,
    sent: String,
    held: String,
    discarded: u64,
}

/// A window on sessions whose input queues and clipboard are simulated.
struct Keyboard {
    app: FesTermApp,
    frame: u64,
    inputs: Vec<Input>,
    deferred: Vec<InputEvent>,
    next_token: u64,
    requests: Vec<u64>,
    replies: Vec<(u64, Option<String>)>,
    queues: Vec<Queue>,
    unbound: Vec<KeyboardAction>,
}

impl Keyboard {
    fn new() -> Self {
        let mut keyboard = Keyboard {
            app: live_ssh(),
            frame: 1,
            inputs: Vec::new(),
            deferred: Vec::new(),
            next_token: 100,
            requests: Vec::new(),
            replies: Vec::new(),
            queues: Vec::new(),
            unbound: Vec::new(),
        };
        keyboard.queues.push(Queue {
            tab: 7,
            ..Queue::default()
        });
        keyboard
    }

    fn second_session(&mut self) {
        self.app
            .state
            .tabs
            .push(session_tab(8, session("second", ssh())));
        self.queues.push(Queue {
            tab: 8,
            ..Queue::default()
        });
        self.activate(8);
    }

    fn activate(&mut self, tab: u64) {
        if self.app.state.active != TabId(tab) {
            self.app.state.active = TabId(tab);
            self.app.shell.focus.ownership_epoch += 1;
        }
    }

    fn facts(&mut self, tab: TabId) -> &mut SessionTab {
        let tab = self
            .app
            .state
            .tabs
            .iter_mut()
            .find(|open| open.id == tab)
            .unwrap();
        match &mut tab.content {
            TabContent::Session(session) => session,
            _ => panic!("a session was expected"),
        }
    }

    fn queue(&mut self, tab: TabId) -> &mut Queue {
        self.queues
            .iter_mut()
            .find(|queue| queue.tab == tab.0)
            .unwrap()
    }

    fn sent(&self, tab: u64) -> &str {
        &self
            .queues
            .iter()
            .find(|queue| queue.tab == tab)
            .unwrap()
            .sent
    }

    fn type_into(&mut self, tab: TabId, text: &str) {
        let failed = self.facts(tab).clipboard_failed.is_some();
        let held = self.facts(tab).clipboard_pending.is_some();
        let queue = self.queue(tab);
        if failed {
            queue.discarded += text.len() as u64;
        } else if held {
            queue.held.push_str(text);
        } else {
            queue.sent.push_str(text);
        }
    }

    fn drop_held(&mut self, tab: TabId, token: u64) -> u64 {
        if self.facts(tab).clipboard_pending != Some(token) {
            return 0;
        }
        self.facts(tab).clipboard_pending = None;
        let queue = self.queue(tab);
        let bytes = queue.held.len() as u64;
        queue.held.clear();
        queue.discarded += bytes;
        bytes
    }

    fn end_frame(&mut self) {
        for tab in self.queues.iter().map(|queue| TabId(queue.tab)).collect::<Vec<_>>() {
            self.facts(tab).clipboard_failed = None;
            let bytes = std::mem::take(&mut self.queue(tab).discarded);
            self.app.show_clipboard_discard_notice(bytes, 0);
        }
    }

    fn perform(&mut self, effects: Vec<Effect>) -> u64 {
        let mut dropped = 0;
        for effect in effects {
            match effect {
                Effect::RequestClipboard(tab) => {
                    let token = self.next_token;
                    self.next_token += 1;
                    self.requests.push(token);
                    self.facts(tab).clipboard_failed = None;
                    self.facts(tab).clipboard_pending = Some(token);
                    let more = self.app.clipboard_requested(tab, Some(token), true);
                    self.perform(more);
                }
                Effect::CancelClipboardRequest(token) => {
                    self.requests.retain(|open| *open != token);
                }
                Effect::FailClipboardInput { tab, token } => {
                    dropped += self.drop_held(tab, token);
                    self.facts(tab).clipboard_failed = Some(token);
                }
                Effect::CancelClipboardInput { tab, token } => {
                    dropped += self.drop_held(tab, token);
                }
                Effect::FinishFailedClipboardInput(tab) => {
                    self.facts(tab).clipboard_failed = None;
                }
                Effect::ReportClipboardDiscards(tab) => {
                    let bytes = std::mem::take(&mut self.queue(tab).discarded);
                    self.app.show_clipboard_discard_notice(bytes, 0);
                }
                Effect::DeliverPaste { tab, token, text } => {
                    let held = std::mem::take(&mut self.queue(tab).held);
                    if token.is_some() {
                        assert_eq!(self.facts(tab).clipboard_pending, token);
                        self.facts(tab).clipboard_pending = None;
                    }
                    let queue = self.queue(tab);
                    queue.sent.push_str(&text);
                    queue.sent.push_str(&held);
                }
                Effect::Dispatch(AppCommand::OpenSettings) => {
                    if self.app.state.index_of(TabId(90)).is_none() {
                        self.app.state.tabs.push(Tab {
                            id: TabId(90),
                            restorable: true,
                            content: TabContent::Settings,
                        });
                    }
                    self.activate(90);
                }
                Effect::Dispatch(AppCommand::ActivateTab(tab)) => self.activate(tab.0),
                _ => {}
            }
        }
        dropped
    }

    fn class(input: Input) -> EventClass {
        match input {
            Input::Text(_) => EventClass::Text,
            Input::Enter | Input::Press(_) | Input::Recovery => EventClass::Key {
                pressed: true,
                repeat: false,
            },
            Input::Repeat(_) => EventClass::Key {
                pressed: true,
                repeat: true,
            },
            Input::Release(_) => EventClass::Key {
                pressed: false,
                repeat: false,
            },
            Input::Paste(_) => EventClass::Paste,
            Input::FocusLost => EventClass::FocusLost,
        }
    }

    fn applies(scope: ShortcutContext, action: KeyboardAction) -> bool {
        if scope.blocked {
            return false;
        }
        match action {
            KeyboardAction::CommandPalette => true,
            KeyboardAction::QuickSwitch(index) => (index as usize) <= scope.tab_count,
            KeyboardAction::MarkdownFind => scope.markdown_viewer && !scope.palette_open,
            KeyboardAction::OpenMarkdownFile => scope.open_markdown && !scope.palette_open,
            KeyboardAction::PortForwardManager => {
                scope.port_forward_available && !scope.palette_open
            }
            KeyboardAction::Copy | KeyboardAction::Paste | KeyboardAction::ClearTerminal => {
                scope.terminal_input && !scope.palette_open
            }
            _ => !scope.palette_open,
        }
    }

    fn activates(&self, event: InputEvent, before: bool) -> bool {
        let scope = self
            .app
            .shortcut_context(Platform::Other, self.frame, false, before);
        match self.inputs[event.handle as usize] {
            Input::Press(action) => {
                !self.unbound.contains(&action) && Self::applies(scope, action)
            }
            Input::Recovery => !scope.blocked,
            _ => false,
        }
    }

    fn pressed(&self, scope: ShortcutContext, event: &InputEvent) -> Option<KeyboardAction> {
        match self.inputs[event.handle as usize] {
            Input::Press(action)
                if !self.unbound.contains(&action) && Self::applies(scope, action) =>
            {
                Some(action)
            }
            _ => None,
        }
    }

    fn run_packet(&mut self, packet: Vec<InputEvent>) -> Vec<InputEvent> {
        let mut run = PacketRun::handle_shortcut_packet(
            &self.app,
            Platform::Other,
            self.frame,
            false,
            false,
            &packet,
        );
        let mut left = packet.clone();
        while run.stage != PacketStage::Finished {
            let scope = run.scope;
            let answer = match run.stage {
                PacketStage::Swallow => {
                    let inputs = &self.inputs;
                    left.retain(|event| {
                        !matches!(
                            inputs[event.handle as usize],
                            Input::Repeat(action) | Input::Release(action)
                                if Self::applies(scope, action)
                        )
                    });
                    PacketAnswer::Done
                }
                PacketStage::Paste => {
                    let pressed = packet
                        .iter()
                        .any(|event| self.pressed(scope, event) == Some(KeyboardAction::Paste));
                    let text = packet.iter().find_map(|event| {
                        match self.inputs[event.handle as usize] {
                            Input::Paste(text) => Some(text.to_owned()),
                            _ => None,
                        }
                    });
                    if pressed {
                        left.clear();
                    }
                    PacketAnswer::Paste { pressed, text }
                }
                PacketStage::Palette => {
                    let mut shortcuts = PaletteShortcuts {
                        recovery: false,
                        command_palette: false,
                        quick_switch: None,
                    };
                    for event in &packet {
                        if self.inputs[event.handle as usize] == Input::Recovery {
                            shortcuts.recovery = true;
                            left.clear();
                        }
                        match self.pressed(scope, event) {
                            Some(KeyboardAction::CommandPalette) => {
                                shortcuts.command_palette = true;
                                left.clear();
                            }
                            Some(KeyboardAction::QuickSwitch(number)) => {
                                shortcuts.quick_switch = Some(number as usize - 1);
                                left.clear();
                            }
                            _ => {}
                        }
                    }
                    PacketAnswer::Palette(shortcuts)
                }
                PacketStage::Actions => {
                    let mut actions = Vec::new();
                    for event in &packet {
                        if let Some(action) = self.pressed(scope, event) {
                            if action != KeyboardAction::Paste {
                                actions.push(action);
                                left.clear();
                            }
                        }
                        if let Input::Repeat(action) = self.inputs[event.handle as usize] {
                            if Self::applies(scope, action) {
                                left.clear();
                            }
                        }
                    }
                    PacketAnswer::Actions(actions)
                }
                _ => PacketAnswer::Done,
            };
            let effects = run.step(&mut self.app, answer, &Vec::new(), None, self.frame, 0);
            self.perform(effects);
        }
        left
    }

    /// One frame of input: the shortcuts, and then the terminal in front.
    fn step(&mut self, inputs: &[Input]) {
        self.frame += 1;
        let mut fresh = Vec::new();
        for input in inputs {
            fresh.push(InputEvent {
                handle: self.inputs.len() as u64,
                class: Self::class(*input),
            });
            self.inputs.push(*input);
        }
        let deferred = std::mem::take(&mut self.deferred);
        let (mut pass, effects) =
            ShortcutPass::handle_shortcuts(&mut self.app, deferred, fresh, false);
        self.perform(effects);
        let mut dropped = 0;
        while pass.stage != PassStage::Finished {
            let answer = match pass.stage {
                PassStage::FocusLoss => PassAnswer::Verdicts(
                    pass.batch
                        .events
                        .iter()
                        .map(|event| self.activates(*event, false))
                        .collect(),
                ),
                PassStage::Reply => PassAnswer::Reply(if self.replies.is_empty() {
                    None
                } else {
                    Some(self.replies.remove(0))
                }),
                PassStage::Barrier => {
                    let event = pass.batch.front().unwrap();
                    PassAnswer::Barrier {
                        before: self.activates(event, true),
                        replaces: self.activates(event, false),
                    }
                }
                PassStage::Settle(_) => PassAnswer::Dropped(dropped),
                PassStage::Turn => {
                    let event = pass.batch.front().unwrap();
                    PassAnswer::Activates(self.activates(event, false))
                }
                PassStage::Packet => PassAnswer::Left(self.run_packet(pass.packet.clone())),
                _ => PassAnswer::Done,
            };
            let effects = pass.step(&mut self.app, answer, self.frame, 0);
            dropped = self.perform(effects);
        }
        self.deferred = pass.deferred;
        let opening = self.app.clipboard_confirmation_opening(self.frame);
        let target = self.app.terminal_input_target(self.frame);
        if self.app.terminal_input_enabled(target, opening) {
            let tab = self.app.state.active;
            for event in pass.batch.remaining {
                match self.inputs[event.handle as usize] {
                    Input::Text(text) => self.type_into(tab, text),
                    Input::Enter => self.type_into(tab, "\r"),
                    Input::Press(KeyboardAction::MarkdownFind) => self.type_into(tab, "\x06"),
                    Input::Press(KeyboardAction::OpenMarkdownFile) => self.type_into(tab, "\x0f"),
                    Input::Press(KeyboardAction::QuickSwitch(_)) => self.type_into(tab, "\x07"),
                    Input::Press(KeyboardAction::SettingsHotkey) => self.type_into(tab, "\x13"),
                    Input::Press(KeyboardAction::ClearTerminal)
                    | Input::Repeat(KeyboardAction::ClearTerminal) => self.type_into(tab, "\x0b"),
                    _ => {}
                }
            }
        }
        let effects = self.app.cancel_invalid_clipboard_paste();
        self.perform(effects);
        self.end_frame();
    }

    fn request(&mut self) -> u64 {
        let effects = self.app.paste_into_active_session();
        self.perform(effects);
        self.next_token - 1
    }

    fn reply(&mut self, token: u64, text: &str) {
        self.requests.retain(|open| *open != token);
        self.replies.push((token, Some(text.to_owned())));
    }

    fn answer_paste(&mut self, click: DialogClick) {
        self.frame += 1;
        let effects = self.app.show_paste_confirmation(self.frame, false, click);
        self.perform(effects);
    }

    fn notice(&self) -> String {
        self.app
            .shell
            .overlays
            .transient_notice
            .as_ref()
            .map_or(String::new(), |shown| shown.notice.text())
    }
}

#[test]
fn keyboard_ready_clipboard_precedes_current_frame_enter_and_text() {
    for (event, suffix) in [
        (Input::Enter, "\r"),
        (Input::Text("following"), "following"),
    ] {
        let mut keyboard = Keyboard::new();
        let token = keyboard.request();
        keyboard.reply(token, "controlled-marker");
        keyboard.step(&[event]);
        assert_eq!(keyboard.sent(7), format!("controlled-marker{suffix}"));
    }
}

#[test]
fn keyboard_unresolved_paste_orders_same_batch_and_later_session_input() {
    let mut keyboard = Keyboard::new();
    keyboard.step(&[
        Input::Press(KeyboardAction::Paste),
        Input::Text("controlled-following-token"),
        Input::Enter,
    ]);
    assert!(keyboard.sent(7).is_empty());
    keyboard.step(&[Input::Text("later")]);
    assert!(keyboard.sent(7).is_empty());
    let token = keyboard.requests[0];
    keyboard.reply(token, "controlled-marker");
    keyboard.step(&[]);
    assert_eq!(
        keyboard.sent(7),
        "controlled-markercontrolled-following-token\rlater"
    );
}

#[test]
fn keyboard_cancelled_or_failed_clipboard_never_releases_following_input() {
    for cause in ["read-failed", "generation", "switch", "recovery"] {
        let mut keyboard = Keyboard::new();
        let token = keyboard.request();
        keyboard.step(&[Input::Text("held-secret"), Input::Enter]);
        assert!(keyboard.sent(7).is_empty());
        match cause {
            "read-failed" => {
                keyboard.replies.push((token, None));
                keyboard.step(&[Input::Enter]);
            }
            "generation" => {
                keyboard.facts(TabId(7)).lifecycle_generation += 1;
                keyboard.reply(token, "stale");
                keyboard.step(&[Input::Text("old-generation")]);
            }
            "switch" => {
                keyboard.second_session();
                keyboard.reply(token, "stale");
                keyboard.step(&[]);
                assert!(keyboard.sent(8).is_empty());
            }
            _ => keyboard.step(&[Input::Recovery]),
        }
        assert!(keyboard.sent(7).is_empty(), "{cause}");
        assert!(keyboard.notice().contains("not sent"), "{cause}");
        assert!(!keyboard.notice().contains("held-secret"), "{cause}");
        assert!(
            keyboard.app.shell.focus.clipboard_paste.is_none(),
            "{cause}"
        );
    }
}

#[test]
fn keyboard_same_batch_recovery_cancels_unencoded_following_input() {
    let mut keyboard = Keyboard::new();
    keyboard.step(&[
        Input::Press(KeyboardAction::Paste),
        Input::Text("not-for-settings"),
        Input::Enter,
        Input::Recovery,
    ]);
    assert_eq!(keyboard.app.state.active, TabId(90));
    assert!(keyboard.sent(7).is_empty());
    assert!(keyboard.notice().contains("2 current-frame input events"));
    assert!(keyboard.app.shell.focus.clipboard_paste.is_none());
}

#[test]
fn keyboard_confirmation_opening_frame_holds_unseen_prompt_input() {
    let mut keyboard = Keyboard::new();
    let token = keyboard.request();
    keyboard.reply(token, "controlled-one\ncontrolled-two");
    keyboard.step(&[Input::Text("following"), Input::Enter]);
    assert!(keyboard.sent(7).is_empty());
    assert!(keyboard.app.shell.overlays.pending_paste.is_some());
    keyboard.answer_paste(DialogClick::Confirm);
    assert_eq!(
        keyboard.sent(7),
        "controlled-one\ncontrolled-twofollowing\r"
    );
}

#[test]
fn keyboard_inactive_markdown_chord_cannot_cancel_paste_confirmation() {
    let mut keyboard = Keyboard::new();
    let token = keyboard.request();
    keyboard.reply(token, "controlled-one\ncontrolled-two");
    keyboard.step(&[Input::Press(KeyboardAction::MarkdownFind), Input::Enter]);
    assert!(keyboard.sent(7).is_empty());
    assert!(keyboard.app.shell.overlays.pending_paste.is_some());
    keyboard.answer_paste(DialogClick::Confirm);
    assert_eq!(
        keyboard.sent(7),
        "controlled-one\ncontrolled-two\x06\r"
    );
}

#[test]
fn keyboard_inactive_document_default_waits_behind_unresolved_paste() {
    let mut keyboard = Keyboard::new();
    let token = keyboard.request();
    keyboard.step(&[Input::Press(KeyboardAction::OpenMarkdownFile)]);
    assert!(keyboard.sent(7).is_empty());
    assert_eq!(
        keyboard.app.shell.focus.clipboard_paste.unwrap().token,
        token
    );
    assert!(!keyboard.app.shell.overlays.markdown_file_picker);
    keyboard.reply(token, "controlled-marker");
    keyboard.step(&[]);
    assert_eq!(keyboard.sent(7), "controlled-marker\x0f");
}

#[test]
fn keyboard_unbound_global_and_missing_tab_cannot_cancel_paste_confirmation() {
    for (action, suffix) in [
        (KeyboardAction::SettingsHotkey, "\x13\r"),
        (KeyboardAction::QuickSwitch(9), "\x07\r"),
    ] {
        let mut keyboard = Keyboard::new();
        if action == KeyboardAction::SettingsHotkey {
            keyboard.unbound.push(action);
        }
        let token = keyboard.request();
        keyboard.reply(token, "controlled-one\ncontrolled-two");
        keyboard.step(&[Input::Press(action), Input::Enter]);
        assert!(keyboard.sent(7).is_empty(), "{action:?}");
        assert!(
            keyboard.app.shell.overlays.pending_paste.is_some(),
            "{action:?}"
        );
        keyboard.answer_paste(DialogClick::Confirm);
        assert_eq!(
            keyboard.sent(7),
            format!("controlled-one\ncontrolled-two{suffix}")
        );
    }
}

#[test]
fn keyboard_applicable_globals_and_recovery_cancel_clipboard_barriers() {
    for ready in [false, true] {
        for action in ["settings", "switch", "palette", "recovery"] {
            let mut keyboard = Keyboard::new();
            keyboard.second_session();
            keyboard.activate(7);
            let token = keyboard.request();
            if ready {
                keyboard.reply(token, "controlled-one\ncontrolled-two");
            }
            let event = match action {
                "settings" => Input::Press(KeyboardAction::SettingsHotkey),
                "switch" => Input::Press(KeyboardAction::QuickSwitch(2)),
                "palette" => Input::Press(KeyboardAction::CommandPalette),
                _ => Input::Recovery,
            };
            keyboard.step(&[Input::Text("discard-with-old-read"), event]);
            assert!(
                keyboard.app.shell.focus.clipboard_paste.is_none(),
                "{ready} {action}"
            );
            assert!(
                keyboard.app.shell.overlays.pending_paste.is_none(),
                "{ready} {action}"
            );
            assert!(
                keyboard.sent(7).is_empty() && keyboard.sent(8).is_empty(),
                "{ready} {action}"
            );
            match action {
                "settings" | "recovery" => assert_eq!(keyboard.app.state.active, TabId(90)),
                "switch" => assert_eq!(keyboard.app.state.active, TabId(8)),
                _ => assert!(keyboard.app.shell.focus.palette_open),
            }
            keyboard.reply(token, "stale-response");
            keyboard.step(&[]);
            assert!(
                keyboard.sent(7).is_empty() && keyboard.sent(8).is_empty(),
                "{ready} {action}"
            );
        }
    }
}

#[test]
fn keyboard_app_repeats_and_releases_do_not_cancel_or_enter_confirmation_buffer() {
    for release in [false, true] {
        let mut keyboard = Keyboard::new();
        let token = keyboard.request();
        keyboard.reply(token, "controlled-one\ncontrolled-two");
        let event = if release {
            Input::Release(KeyboardAction::SettingsHotkey)
        } else {
            Input::Repeat(KeyboardAction::SettingsHotkey)
        };
        keyboard.step(&[event, Input::Enter]);
        assert!(keyboard.sent(7).is_empty());
        assert!(keyboard.app.shell.overlays.pending_paste.is_some());
        keyboard.answer_paste(DialogClick::Confirm);
        assert_eq!(keyboard.sent(7), "controlled-one\ncontrolled-two\r");
    }
}

#[test]
fn keyboard_opening_confirmation_bypass_does_not_bypass_another_modal() {
    let mut keyboard = Keyboard::new();
    let token = keyboard.request();
    keyboard.reply(token, "controlled-one\ncontrolled-two");
    keyboard.step(&[]);
    let frame = keyboard.frame;
    let app = &mut keyboard.app;
    let blocked = |app: &FesTermApp, before: bool| {
        app.shortcut_context(Platform::Other, frame, false, before)
            .blocked
    };
    assert!(!blocked(app, true));
    app.shell.overlays.about_open = true;
    assert!(blocked(app, true));
    app.shell.overlays.about_open = false;
    assert!(blocked(app, false));
}

#[test]
fn keyboard_buffered_enter_waits_for_deliberate_paste_confirmation() {
    for confirm in [false, true] {
        let mut keyboard = Keyboard::new();
        let token = keyboard.request();
        keyboard.step(&[Input::Enter]);
        keyboard.reply(token, "controlled-one\ncontrolled-two");
        keyboard.step(&[]);
        keyboard.answer_paste(DialogClick::Nothing);
        assert!(keyboard.sent(7).is_empty());
        assert!(
            keyboard.app.shell.overlays.pending_paste.is_some(),
            "buffered Enter cannot dismiss or submit the dialog"
        );
        keyboard.answer_paste(if confirm {
            DialogClick::Confirm
        } else {
            DialogClick::Cancel
        });
        if confirm {
            assert_eq!(keyboard.sent(7), "controlled-one\ncontrolled-two\r");
        } else {
            assert!(keyboard.sent(7).is_empty());
            assert!(keyboard.notice().contains("1 following input bytes"));
        }
        assert!(keyboard.app.shell.overlays.pending_paste.is_none());
    }
}

#[test]
fn keyboard_delayed_paste_cancels_on_tab_generation_and_owner_changes() {
    for change in ["tab", "generation", "inspector", "round-trip", "window"] {
        let mut keyboard = Keyboard::new();
        keyboard.second_session();
        keyboard.activate(7);
        let token = keyboard.request();
        let mut events: Vec<Input> = Vec::new();
        match change {
            "tab" => keyboard.activate(8),
            "generation" => keyboard.facts(TabId(7)).lifecycle_generation += 1,
            "round-trip" => {
                keyboard.activate(8);
                keyboard.activate(7);
            }
            "window" => events.push(Input::FocusLost),
            _ => keyboard.app.shell.focus.inspector_open = true,
        }
        keyboard.reply(token, "controlled-stale-marker");
        keyboard.step(&events);
        assert!(
            keyboard.app.shell.focus.clipboard_paste.is_none(),
            "{change}"
        );
        assert!(
            keyboard.sent(7).is_empty() && keyboard.sent(8).is_empty(),
            "{change}"
        );
        assert!(keyboard.app.shell.overlays.pending_paste.is_none());
    }
}

#[test]
fn keyboard_late_or_duplicate_clipboard_callbacks_cannot_fulfil_new_requests() {
    let mut keyboard = Keyboard::new();
    let first = keyboard.request();
    let replacement = keyboard.request();
    assert_ne!(first, replacement);
    keyboard.reply(first, "discard-old");
    keyboard.step(&[]);
    assert!(keyboard.sent(7).is_empty());
    keyboard.reply(replacement, "accepted-first");
    keyboard.step(&[]);
    keyboard.reply(replacement, "discard-duplicate");
    keyboard.step(&[]);
    assert_eq!(keyboard.sent(7), "accepted-first");
    let cancelled = keyboard.request();
    keyboard.second_session();
    keyboard.step(&[]);
    let second = keyboard.request();
    keyboard.reply(cancelled, "discard-old-session");
    keyboard.step(&[]);
    assert!(keyboard.sent(8).is_empty());
    assert_eq!(
        keyboard.app.shell.focus.clipboard_paste.unwrap().token,
        second
    );
    keyboard.reply(second, "accepted-second");
    keyboard.step(&[]);
    assert_eq!(keyboard.sent(8), "accepted-second");
}

#[test]
fn keyboard_paired_paste_uses_original_payload_before_same_batch_switch() {
    let mut keyboard = Keyboard::new();
    keyboard.second_session();
    keyboard.activate(7);
    keyboard.step(&[
        Input::Press(KeyboardAction::Paste),
        Input::Paste("controlled-original-clipboard"),
        Input::Press(KeyboardAction::QuickSwitch(2)),
    ]);
    assert_eq!(keyboard.app.state.active, TabId(8));
    assert_eq!(keyboard.sent(7), "controlled-original-clipboard");
    assert!(keyboard.sent(8).is_empty());
    assert!(keyboard.requests.is_empty());
    keyboard.step(&[Input::Paste("unauthorized-widget-callback")]);
    assert!(keyboard.sent(8).is_empty());
}

#[test]
fn keyboard_async_shortcut_then_same_batch_switch_cancels_before_native_read() {
    let mut keyboard = Keyboard::new();
    keyboard.second_session();
    keyboard.activate(7);
    keyboard.step(&[
        Input::Press(KeyboardAction::Paste),
        Input::Press(KeyboardAction::QuickSwitch(2)),
    ]);
    assert_eq!(keyboard.app.state.active, TabId(8));
    assert!(keyboard.app.shell.focus.clipboard_paste.is_none());
    assert!(keyboard.requests.is_empty());
    assert!(keyboard.sent(7).is_empty() && keyboard.sent(8).is_empty());
}

#[test]
fn keyboard_identified_paste_preserves_confirmation_and_generation_safety() {
    let mut keyboard = Keyboard::new();
    let token = keyboard.request();
    keyboard.reply(token, "controlled-one\ncontrolled-two");
    keyboard.step(&[]);
    assert!(keyboard.sent(7).is_empty());
    assert!(keyboard.app.shell.overlays.pending_paste.is_some());
    keyboard.answer_paste(DialogClick::Confirm);
    assert_eq!(keyboard.sent(7), "controlled-one\ncontrolled-two");
    let token = keyboard.request();
    keyboard.reply(token, "discard-one\ndiscard-two");
    keyboard.step(&[]);
    keyboard.facts(TabId(7)).lifecycle_generation += 1;
    keyboard.answer_paste(DialogClick::Nothing);
    assert!(keyboard.app.shell.overlays.pending_paste.is_none());
    assert_eq!(keyboard.sent(7), "controlled-one\ncontrolled-two");
    let token = keyboard.request();
    keyboard.reply(token, "discard-round\ntrip");
    keyboard.step(&[]);
    keyboard.second_session();
    keyboard.activate(7);
    keyboard.answer_paste(DialogClick::Nothing);
    assert!(
        keyboard.app.shell.overlays.pending_paste.is_none(),
        "returning to the origin does not revive a confirmation"
    );
    assert_eq!(keyboard.sent(7), "controlled-one\ncontrolled-two");
}

#[test]
fn keyboard_native_menu_and_local_gestures_request_identified_clipboard_reads() {
    let mut keyboard = Keyboard::new();
    let result = keyboard.app.dispatch_native_menu_command(
        NativeMenuCommand::Paste,
        &Vec::new(),
        None,
        None,
        0,
    );
    keyboard.perform(result.effects);
    let token = keyboard.requests[0];
    keyboard.reply(token, "native-menu");
    keyboard.step(&[]);
    let token = keyboard.request();
    keyboard.reply(token, "middle-click");
    keyboard.step(&[]);
    let token = keyboard.request();
    keyboard.reply(token, "context-menu");
    keyboard.step(&[]);
    assert_eq!(keyboard.sent(7), "native-menumiddle-clickcontext-menu");
}

#[test]
fn keyboard_rename_owns_raw_and_semantic_clipboard_without_terminal_delivery() {
    let mut keyboard = Keyboard::new();
    keyboard.app.shell.focus.rename_restore_tab = Some(TabId(7));
    keyboard.step(&[
        Input::Press(KeyboardAction::Paste),
        Input::Paste("controlled-rename"),
    ]);
    keyboard.step(&[Input::Text("controlled-rename")]);
    assert!(keyboard.sent(7).is_empty());
    assert!(keyboard.requests.is_empty());
    keyboard.step(&[Input::Press(KeyboardAction::SettingsHotkey)]);
    assert_eq!(keyboard.app.state.active, TabId(90));
    assert!(keyboard.sent(7).is_empty());
}

#[test]
fn keyboard_same_batch_switch_recomputes_terminal_scope_and_recording_target() {
    let mut keyboard = Keyboard::new();
    keyboard.perform(vec![Effect::Dispatch(AppCommand::OpenSettings)]);
    assert!(keyboard.app.associate_input_recorder().is_none());
    keyboard.step(&[
        Input::Press(KeyboardAction::QuickSwitch(1)),
        Input::Press(KeyboardAction::ClearTerminal),
    ]);
    assert_eq!(keyboard.app.state.active, TabId(7));
    assert_eq!(keyboard.notice(), "Terminal cleared");
    assert!(keyboard.sent(7).is_empty());
    let (target, generation, _) = keyboard.app.associate_input_recorder().unwrap();
    assert_eq!((target, generation), (TabId(7), 1));
}

#[test]
fn keyboard_input_before_a_same_batch_switch_stays_with_original_session() {
    let mut keyboard = Keyboard::new();
    let events = [
        Input::Text("controlled-before-switch"),
        Input::Press(KeyboardAction::SettingsHotkey),
    ];
    keyboard.step(&events);
    keyboard.step(&[]);
    assert_eq!(keyboard.sent(7), "controlled-before-switch");
    assert_eq!(keyboard.app.state.active, TabId(90));
}

#[test]
fn keyboard_capture_unbind_and_repeat_use_actual_application_dispatch() {
    let mut keyboard = Keyboard::new();
    keyboard.step(&[Input::Press(KeyboardAction::ClearTerminal)]);
    assert!(
        keyboard.sent(7).is_empty(),
        "captured command must not also encode ^K"
    );
    assert!(keyboard.notice().contains("cleared"));
    keyboard.app.shell.overlays.transient_notice = None;
    keyboard.step(&[Input::Repeat(KeyboardAction::ClearTerminal)]);
    assert!(
        keyboard.sent(7).is_empty(),
        "suppressed repeats remain consumed"
    );
    assert!(keyboard.app.shell.overlays.transient_notice.is_none());
    keyboard.unbound.push(KeyboardAction::ClearTerminal);
    keyboard.step(&[Input::Press(KeyboardAction::ClearTerminal)]);
    assert_eq!(keyboard.sent(7), "\x0b");
}

#[test]
fn keyboard_recovery_and_widget_focus_block_terminal_delivery() {
    let mut keyboard = Keyboard::new();
    keyboard.facts(TabId(7)).search_open = true;
    keyboard.step(&[Input::Text("controlled-query")]);
    assert!(keyboard.sent(7).is_empty());
    keyboard.step(&[Input::Recovery]);
    assert_eq!(keyboard.app.state.active, TabId(90));
    assert!(keyboard.sent(7).is_empty());
}

#[test]
fn input_that_an_input_method_holds_is_left_alone() {
    let mut keyboard = Keyboard::new();
    keyboard.inputs.push(Input::Press(KeyboardAction::CommandPalette));
    let packet = vec![InputEvent {
        handle: 0,
        class: Keyboard::class(keyboard.inputs[0]),
    }];
    let run = PacketRun::handle_shortcut_packet(
        &keyboard.app,
        Platform::Other,
        1,
        true,
        true,
        &packet,
    );
    assert_eq!(run.stage, PacketStage::Finished);
}

#[test]
fn answers_that_were_not_asked_for_change_nothing() {
    let mut app = live_ssh();
    let (mut pass, _) = ShortcutPass::handle_shortcuts(&mut app, Vec::new(), Vec::new(), false);
    assert_eq!(pass.stage, PassStage::Reply);
    assert!(pass
        .step(&mut app, PassAnswer::Activates(true), 1, 0)
        .is_empty());
    assert_eq!(pass.stage, PassStage::Reply);
    let (recorded, _) = ShortcutPass::handle_shortcuts(&mut app, Vec::new(), Vec::new(), true);
    assert_eq!(recorded.stage, PassStage::Recording);
}

#[test]
fn a_focus_loss_drops_what_waited_behind_a_read() {
    let mut keyboard = Keyboard::new();
    keyboard.request();
    keyboard.step(&[
        Input::Text("held"),
        Input::FocusLost,
        Input::Press(KeyboardAction::SettingsHotkey),
    ]);
    assert!(keyboard.sent(7).is_empty());
    assert!(matches!(
        keyboard
            .app
            .shell
            .overlays
            .transient_notice
            .as_ref()
            .unwrap()
            .notice,
        Notice::ClipboardCancelledOnFocusLoss
    ));
    assert_eq!(keyboard.app.state.active, TabId(90));
}

#[test]
fn actions_come_in_their_order_and_once() {
    assert_eq!(
        order_actions(&vec![
            KeyboardAction::Find,
            KeyboardAction::PasteAlternate,
            KeyboardAction::Paste,
            KeyboardAction::Copy,
            KeyboardAction::SettingsHotkey,
        ]),
        vec![
            KeyboardAction::Copy,
            KeyboardAction::Paste,
            KeyboardAction::Settings,
            KeyboardAction::Find
        ]
    );
}

#[test]
fn deferred_events_come_before_new_ones() {
    let event = |handle: u64| InputEvent {
        handle,
        class: EventClass::Text,
    };
    let batch = InputBatch::begin(vec![event(1)], vec![event(2)]);
    assert_eq!(batch.front(), Some(event(1)));
    assert_eq!(batch.events, vec![event(1), event(2)]);
}

#[test]
fn a_frame_goes_through_its_stages() {
    let mut app = live_local();
    app.shell.overlays.about_open = true;
    let mut pass = FramePass::ui_content(3);
    let mut asked = 0;
    let mut noted = false;
    while pass.stage != FrameStage::Finished {
        asked += 1;
        let answer = match pass.stage {
            FrameStage::Credential => FrameAnswer::Credential(WorkerEvent::Waiting),
            FrameStage::Update => FrameAnswer::Update(UpdateStatus::Idle),
            FrameStage::Escape => FrameAnswer::Escape(true),
            FrameStage::SurfaceEscape => FrameAnswer::Escape(false),
            FrameStage::Chrome => FrameAnswer::Chrome(None),
            FrameStage::Palette => FrameAnswer::Palette(PaletteDecision::Nothing),
            FrameStage::Surface => FrameAnswer::Surface {
                paste_arrived: false,
                read_requested: true,
            },
            FrameStage::Viewer => FrameAnswer::Viewer(None),
            FrameStage::Links => FrameAnswer::Link(None),
            FrameStage::Inspector => FrameAnswer::Inspector(None),
            FrameStage::Screen => FrameAnswer::Screen(None),
            FrameStage::Overlay => FrameAnswer::Overlay(None),
            FrameStage::Confirmation => FrameAnswer::Confirmation {
                click: DialogClick::Nothing,
                choice: festerm::dialogs::DocumentChoice::Nothing,
                at_defaults: true,
            },
            FrameStage::Forwards => FrameAnswer::Forwards {
                pressed: festerm::forwards::ForwardClick::Nothing,
                draft: None,
            },
            FrameStage::Picker => FrameAnswer::Picker {
                outcome: festerm::sequence::PickerOutcome::Pending,
                directory: None,
            },
            FrameStage::About => FrameAnswer::About(festerm::about::AboutClick::Nothing),
            FrameStage::Launch => FrameAnswer::Launch(Some("files".to_owned())),
            _ => FrameAnswer::Done,
        };
        let effects = pass.step(&mut app, answer, &Vec::new(), None, None, 0);
        for effect in &effects {
            noted |= matches!(effect, Effect::NoteProfileLaunch(profile) if profile == "files");
            assert!(
                !matches!(effect, Effect::RequestClipboard(_)),
                "a blocked terminal asks for nothing"
            );
        }
    }
    assert_eq!(asked, 24);
    assert!(noted, "the launch of a profile is noted");
    assert!(pass.escape.about && pass.escape.consumed);
    assert!(!app.shell.overlays.about_open);
}
#[allow(dead_code)]
fn settings() -> InterfaceSettings {
    InterfaceSettings {
        restore_workspace: false,
        confirm_session_close: true,
        status_bar_visible: true,
        show_session_details: true,
        show_durable_session_in_status_bar: false,
        pulse_new_output_dot: false,
        quick_switch_overlay: false,
        compact_launcher_grid: false,
    }
}

#[allow(dead_code)]
fn configuration(settings: InterfaceSettings) -> Arc<Configuration> {
    Arc::new(Configuration {
        settings,
        profiles: Arc::new(Vec::new()),
        workspace: None,
    })
}

/// A window on the launcher, in tab 1.
#[allow(dead_code)]
fn launcher_app() -> FesTermApp {
    FesTermApp::with_configuration(
        configuration(settings()),
        Ok(()),
        Vec::new(),
        None,
        None,
        TabId(1),
    )
}

#[allow(dead_code)]
fn session(label: &str, transport: Transport) -> SessionTab {
    SessionTab {
        label: label.to_owned(),
        launch_secondary: None,
        dynamic_secondary: None,
        terminal_title: String::new(),
        profile_identifier: None,
        transport,
        chip_status: ChipStatus::Connected,
        status_label: "Running".to_owned(),
        system_label: "linux".to_owned(),
        dimensions: None,
        durable_label: None,
        accepts_input: true,
        accepts_typed_input: true,
        bracketed_paste: false,
        lifecycle_generation: 1,
        clipboard_pending: None,
        clipboard_failed: None,
        search_open: false,
        host_key_prompt: None,
        password_prompt: false,
        live_port_forwarding: false,
        active_port_forwards: 0,
        close_requires_confirmation: true,
        reconnect_available: false,
        input_recording: false,
        has_new_output: false,
        evicted_lines: 0,
        eviction_notice_shown: false,
    }
}

#[allow(dead_code)]
fn local() -> Transport {
    Transport::Local { persistence: None }
}

#[allow(dead_code)]
fn ssh() -> Transport {
    Transport::Ssh {
        username: "controlled".to_owned(),
        host: "ssh.example.test".to_owned(),
        port: 22,
        persistence: None,
    }
}

#[allow(dead_code)]
fn session_tab(id: u64, session: SessionTab) -> Tab {
    Tab {
        id: TabId(id),
        restorable: true,
        content: TabContent::Session(session),
    }
}

/// A window on one session, in tab 7.
#[allow(dead_code)]
fn app_with(session: SessionTab) -> FesTermApp {
    let mut app = launcher_app();
    app.state.tabs = vec![session_tab(7, session)];
    app.state.active = TabId(7);
    app
}

#[allow(dead_code)]
fn live_local() -> FesTermApp {
    app_with(session("Local Shell", local()))
}

#[allow(dead_code)]
fn live_ssh() -> FesTermApp {
    let mut remote = session("controlled", ssh());
    remote.live_port_forwarding = true;
    app_with(remote)
}

#[allow(dead_code)]
fn front(app: &mut FesTermApp) -> &mut SessionTab {
    let active = app.state.active;
    let tab = app
        .state
        .tabs
        .iter_mut()
        .find(|tab| tab.id == active)
        .unwrap();
    match &mut tab.content {
        TabContent::Session(session) => session,
        _ => panic!("a session is in front"),
    }
}

#[test]
fn a_frame_begins_with_the_credential_that_is_on_its_way() {
    for (event, linked) in [(WorkerEvent::Waiting, false), (WorkerEvent::Stored, true)] {
        let mut app = live_local();
        app.credential_worker_started(
            festerm::overlays::PendingPasswordStore {
                profile_id: "files".to_owned(),
                credential_kind: festerm::overlays::CredentialKind::Password,
                launch_after_store: None,
            },
            true,
        );
        let mut pass = FramePass::ui_content(1);
        let effects = pass.step(
            &mut app,
            FrameAnswer::Credential(event),
            &Vec::new(),
            None,
            None,
            0,
        );
        assert_eq!(pass.stage, FrameStage::Update);
        if linked {
            assert!(matches!(effects.as_slice(), [Effect::LinkCredential(_)]));
        } else {
            assert!(matches!(effects.as_slice(), [Effect::RepaintAfterMs(20)]));
        }
        assert_eq!(app.shell.overlays.pending_password_store.is_none(), linked);
    }
}
