//! The commands of a window that menus, shortcuts and the palette share.
use vstd::prelude::*;

use crate::app::{FesTermApp, FocusState};
#[allow(unused_imports)]
use crate::app::Shell;
use crate::confirmations::OpenDocument;
use crate::dialogs::refocus;
use crate::effects::{AppCommand, Effect, ZoomCommand};
use crate::overlays::{LivePortForwardManager, Notice, OverlayState, TransientNotice};
use crate::shortcuts::KeyboardAction;
use crate::state::{TabContent, TabId};
#[allow(unused_imports)]
use crate::state::session_of;

verus! {

/// How long a notice about a mode or a terminal stays.
pub const MODE_NOTICE_MS: u64 = 1_500;

/// How long other notices stay.
pub const NOTICE_MS: u64 = 2_500;

impl FesTermApp {
    /// Whether the tab in front is a Markdown viewer.
    pub open spec fn viewer_in_front(self) -> bool {
        &&& self.state.active_tab() is Some
        &&& self.state.active_tab()->Some_0.content is MarkdownViewer
    }

    fn is_viewer_in_front(&self) -> (result: bool)
        ensures
            result == self.viewer_in_front(),
    {
        match self.state.tab(self.state.active) {
            Some(tab) => matches!(tab.content, TabContent::MarkdownViewer(_)),
            None => false,
        }
    }

    /// Entering or leaving focus mode, where a session is in front.
    pub open spec fn focus_mode_toggled(self, chord: Option<String>, now_ms: u64) -> (
        Self,
        Seq<Effect>,
    ) {
        if self.state.active_session() is None {
            (self, seq![])
        } else {
            let entered = !self.shell.focus.focus_mode;
            (
                self.with_focus(
                    FocusState { focus_mode: entered, ..self.shell.focus },
                ).with_notice(
                    Some(
                        if entered {
                            Notice::FocusModeEntered(chord)
                        } else {
                            Notice::FocusModeExited
                        },
                    ),
                    now_ms,
                    MODE_NOTICE_MS,
                ),
                seq![Effect::FocusTerminal(self.state.active), Effect::Repaint],
            )
        }
    }

    /// Enters or leaves focus mode. `chord` is the palette's, which leads out.
    pub fn toggle_focus_mode(&mut self, chord: Option<String>, now_ms: u64) -> (effects: Vec<Effect>)
        ensures
            (*final(self), effects@) == old(self).focus_mode_toggled(chord, now_ms),
    {
        let mut effects = Vec::new();
        if self.state.session_tab(self.state.active).is_some() {
            self.shell.focus.focus_mode = !self.shell.focus.focus_mode;
            let notice = if self.shell.focus.focus_mode {
                Notice::FocusModeEntered(chord)
            } else {
                Notice::FocusModeExited
            };
            self.shell.overlays.notify(notice, now_ms, MODE_NOTICE_MS);
            effects.push(Effect::FocusTerminal(self.state.active));
            effects.push(Effect::Repaint);
        }
        assert(effects@ =~= old(self).focus_mode_toggled(chord, now_ms).1);
        effects
    }

    /// Changing the font size of the terminal in front.
    pub open spec fn zoom_effects(self, command: ZoomCommand) -> Seq<Effect> {
        if self.state.active_session() is Some {
            seq![Effect::ZoomTerminal(self.state.active, command)]
        } else {
            seq![]
        }
    }

    pub fn zoom_active_session(&self, command: ZoomCommand) -> (effects: Vec<Effect>)
        ensures
            effects@ == self.zoom_effects(command),
    {
        let mut effects = Vec::new();
        if self.state.session_tab(self.state.active).is_some() {
            effects.push(Effect::ZoomTerminal(self.state.active, command));
        }
        assert(effects@ =~= self.zoom_effects(command));
        effects
    }

    /// Takes in that a terminal's font size has changed to `points`.
    pub fn zoomed(&mut self, points: String, now_ms: u64) -> (effect: Effect)
        ensures
            *final(self) == old(self).with_notice(
                Some(Notice::TerminalZoom(points)),
                now_ms,
                MODE_NOTICE_MS,
            ),
            effect == Effect::Repaint,
    {
        self.shell.overlays.notify(Notice::TerminalZoom(points), now_ms, MODE_NOTICE_MS);
        Effect::Repaint
    }

    /// Resetting the terminal in front.
    pub open spec fn terminal_reset(self, now_ms: u64) -> (Self, Seq<Effect>) {
        let active = self.state.active;
        if self.state.active_session() is None {
            (self, seq![])
        } else {
            (
                self.with_notice(Some(Notice::TerminalReset), now_ms, MODE_NOTICE_MS),
                seq![Effect::ResetTerminal(active), Effect::FocusTerminal(active), Effect::Repaint],
            )
        }
    }

    /// Resets the display of the terminal in front, and keeps its history.
    pub fn reset_active_terminal(&mut self, now_ms: u64) -> (effects: Vec<Effect>)
        ensures
            (*final(self), effects@) == old(self).terminal_reset(now_ms),
    {
        let mut effects = Vec::new();
        let active = self.state.active;
        if self.state.session_tab(active).is_some() {
            effects.push(Effect::ResetTerminal(active));
            self.shell.overlays.notify(Notice::TerminalReset, now_ms, MODE_NOTICE_MS);
            effects.push(Effect::FocusTerminal(active));
            effects.push(Effect::Repaint);
        }
        assert(effects@ =~= old(self).terminal_reset(now_ms).1);
        effects
    }

    /// Clearing the terminal in front.
    pub open spec fn terminal_cleared(self, now_ms: u64) -> (Self, Seq<Effect>) {
        let active = self.state.active;
        if self.state.active_session() is None {
            (self, seq![])
        } else {
            (
                self.with_notice(Some(Notice::TerminalCleared), now_ms, MODE_NOTICE_MS),
                seq![Effect::ClearTerminal(active), Effect::FocusTerminal(active), Effect::Repaint],
            )
        }
    }

    /// Clears the display and the history of the terminal in front.
    pub fn clear_active_terminal(&mut self, now_ms: u64) -> (effects: Vec<Effect>)
        ensures
            (*final(self), effects@) == old(self).terminal_cleared(now_ms),
    {
        let mut effects = Vec::new();
        let active = self.state.active;
        if self.state.session_tab(active).is_some() {
            effects.push(Effect::ClearTerminal(active));
            self.shell.overlays.notify(Notice::TerminalCleared, now_ms, MODE_NOTICE_MS);
            effects.push(Effect::FocusTerminal(active));
            effects.push(Effect::Repaint);
        }
        assert(effects@ =~= old(self).terminal_cleared(now_ms).1);
        effects
    }

    /// What a terminal is fed to clear its display and its history, with the
    /// cursor back at the start and everything else as it was.
    pub fn clear_sequence() -> (bytes: Vec<u8>)
        ensures
            bytes@ == seq![
                27u8,
                91u8,
                50u8,
                74u8,
                27u8,
                91u8,
                51u8,
                74u8,
                27u8,
                91u8,
                72u8,
            ],
    {
        let bytes: Vec<u8> = vec![27, 91, 50, 74, 27, 91, 51, 74, 27, 91, 72];
        bytes
    }

    /// Copying the selection of the terminal in front.
    pub open spec fn copy_effects(self) -> Seq<Effect> {
        let active = self.state.active;
        if self.state.active_session() is None {
            seq![]
        } else {
            seq![Effect::CopySelection(active), Effect::FocusTerminal(active), Effect::Repaint]
        }
    }

    pub fn copy_active_selection(&self) -> (effects: Vec<Effect>)
        ensures
            effects@ == self.copy_effects(),
    {
        let mut effects = Vec::new();
        let active = self.state.active;
        if self.state.session_tab(active).is_some() {
            effects.push(Effect::CopySelection(active));
            effects.push(Effect::FocusTerminal(active));
            effects.push(Effect::Repaint);
        }
        assert(effects@ =~= self.copy_effects());
        effects
    }

    /// Opening the search of the terminal in front.
    pub open spec fn search_effects(self) -> Seq<Effect> {
        if self.state.active_session() is None {
            seq![]
        } else {
            seq![Effect::OpenSearch(self.state.active), Effect::Repaint]
        }
    }

    pub fn open_terminal_search(&self) -> (effects: Vec<Effect>)
        ensures
            effects@ == self.search_effects(),
    {
        let mut effects = Vec::new();
        if self.state.session_tab(self.state.active).is_some() {
            effects.push(Effect::OpenSearch(self.state.active));
            effects.push(Effect::Repaint);
        }
        assert(effects@ =~= self.search_effects());
        effects
    }

    /// Closing the search of the terminal in front gives the keyboard back.
    pub open spec fn search_closed_effects(self) -> Seq<Effect> {
        (if self.state.active_session() is Some {
            seq![Effect::CloseSearch(self.state.active)]
        } else {
            seq![]
        }) + refocus(self, self.state.active) + seq![Effect::Repaint]
    }

    pub fn close_terminal_search(&self) -> (effects: Vec<Effect>)
        ensures
            effects@ == self.search_closed_effects(),
    {
        let mut effects = Vec::new();
        if self.state.session_tab(self.state.active).is_some() {
            effects.push(Effect::CloseSearch(self.state.active));
        }
        self.push_refocus(self.state.active, &mut effects);
        effects.push(Effect::Repaint);
        assert(effects@ =~= self.search_closed_effects());
        effects
    }

    /// The port-forward tool belongs to the tab in front.
    pub open spec fn forwards_open_in_front(self) -> bool {
        match self.shell.overlays.port_forward_manager {
            Some(manager) => manager.tab == self.state.active,
            None => false,
        }
    }

    pub fn port_forward_manager_open_for_active_tab(&self) -> (result: bool)
        ensures
            result == self.forwards_open_in_front(),
    {
        match &self.shell.overlays.port_forward_manager {
            Some(manager) => manager.tab == self.state.active,
            None => false,
        }
    }

    /// The window without the port-forward tool.
    pub open spec fn forwards_closed(self) -> (Self, Seq<Effect>) {
        (
            self.with_overlays(
                OverlayState { port_forward_manager: None, ..self.shell.overlays },
            ),
            if self.shell.overlays.port_forward_manager is Some {
                refocus(self, self.state.active) + seq![Effect::Repaint]
            } else {
                seq![]
            },
        )
    }

    /// Closes the port-forward tool, and gives the keyboard back.
    pub fn close_port_forward_manager(&mut self) -> (effects: Vec<Effect>)
        ensures
            (*final(self), effects@) == old(self).forwards_closed(),
    {
        let mut effects = Vec::new();
        if self.shell.overlays.port_forward_manager.take().is_some() {
            self.push_refocus(self.state.active, &mut effects);
            effects.push(Effect::Repaint);
        }
        assert(effects@ =~= old(self).forwards_closed().1);
        effects
    }

    /// Opening the port-forward tool for the session in front, where that can
    /// forward ports. A search gives way to it.
    pub open spec fn forwards_opened(self) -> (Self, Seq<Effect>) {
        let active = self.state.active;
        match self.state.active_session() {
            Some(session) => if session.live_port_forwarding {
                (
                    self.with_overlays(
                        OverlayState {
                            port_forward_manager: Some(
                                LivePortForwardManager {
                                    tab: active,
                                    error: None,
                                    request_focus: true,
                                },
                            ),
                            ..self.shell.overlays
                        },
                    ),
                    (if session.search_open {
                        self.search_closed_effects()
                    } else {
                        seq![]
                    }) + seq![Effect::QueryPortForwards(active), Effect::Repaint],
                )
            } else {
                (self, seq![])
            },
            None => (self, seq![]),
        }
    }

    pub fn open_port_forward_manager(&mut self) -> (effects: Vec<Effect>)
        ensures
            (*final(self), effects@) == old(self).forwards_opened(),
    {
        let active = self.state.active;
        let (available, search_open) = match self.state.session_tab(active) {
            Some(session) => (session.live_port_forwarding, session.search_open),
            None => (false, false),
        };
        if !available {
            let effects: Vec<Effect> = Vec::new();
            assert(effects@ =~= old(self).forwards_opened().1);
            return effects;
        }
        let mut effects = if search_open {
            self.close_terminal_search()
        } else {
            Vec::new()
        };
        effects.push(Effect::QueryPortForwards(active));
        self.shell.overlays.port_forward_manager = Some(
            LivePortForwardManager { tab: active, error: None, request_focus: true },
        );
        effects.push(Effect::Repaint);
        assert(effects@ =~= old(self).forwards_opened().1);
        effects
    }

    /// Takes in an error from looking up, adding or removing a forward of the
    /// session in `tab`, or that there was none.
    pub fn port_forward_result(&mut self, tab: TabId, error: Option<String>)
        ensures
            *final(self) == match old(self).shell.overlays.port_forward_manager {
                Some(manager) => if manager.tab == tab {
                    old(self).with_overlays(
                        OverlayState {
                            port_forward_manager: Some(
                                LivePortForwardManager { error, ..manager },
                            ),
                            ..old(self).shell.overlays
                        },
                    )
                } else {
                    *old(self)
                },
                None => *old(self),
            },
    {
        if let Some(mut manager) = self.shell.overlays.port_forward_manager.take() {
            if manager.tab == tab {
                manager.error = error;
            }
            self.shell.overlays.port_forward_manager = Some(manager);
        }
    }

    /// Opens the port-forward tool, or closes it where it is open in front.
    pub open spec fn forwards_toggled(self) -> (Self, Seq<Effect>) {
        if self.forwards_open_in_front() {
            self.forwards_closed()
        } else {
            self.forwards_opened()
        }
    }

    pub fn toggle_port_forward_manager(&mut self) -> (effects: Vec<Effect>)
        ensures
            (*final(self), effects@) == old(self).forwards_toggled(),
    {
        if self.port_forward_manager_open_for_active_tab() {
            self.close_port_forward_manager()
        } else {
            self.open_port_forward_manager()
        }
    }

    /// The port-forward tool goes away once its tab is no longer in front or
    /// no longer an SSH session.
    pub open spec fn forwards_synced(self) -> Self {
        match self.shell.overlays.port_forward_manager {
            Some(manager) => if manager.tab == self.state.active
                && self.state.active_session() is Some
                && self.state.active_session()->Some_0.transport is Ssh {
                self
            } else {
                self.with_overlays(
                    OverlayState { port_forward_manager: None, ..self.shell.overlays },
                )
            },
            None => self,
        }
    }

    pub fn sync_port_forward_manager(&mut self)
        ensures
            *final(self) == old(self).forwards_synced(),
    {
        let ssh = match self.state.session_tab(self.state.active) {
            Some(session) => matches!(session.transport, crate::state::Transport::Ssh { .. }),
            None => false,
        };
        if !(ssh && self.port_forward_manager_open_for_active_tab()) {
            self.shell.overlays.port_forward_manager = None;
        }
    }

    /// Opening the Markdown file picker. From a viewer, the picked file takes
    /// the place of the viewer's document.
    pub open spec fn picker_opened(self) -> (Self, Seq<Effect>) {
        (
            self.with_overlays(
                OverlayState {
                    markdown_file_picker: true,
                    markdown_file_picker_replaces: if self.viewer_in_front() {
                        Some(self.state.active)
                    } else {
                        None
                    },
                    ..self.shell.overlays
                },
            ),
            seq![Effect::Repaint],
        )
    }

    pub fn open_markdown_file_picker(&mut self) -> (effects: Vec<Effect>)
        ensures
            (*final(self), effects@) == old(self).picker_opened(),
    {
        self.shell.overlays.markdown_file_picker_replaces = if self.is_viewer_in_front() {
            Some(self.state.active)
        } else {
            None
        };
        self.shell.overlays.markdown_file_picker = true;
        let mut effects = Vec::new();
        effects.push(Effect::Repaint);
        assert(effects@ =~= old(self).picker_opened().1);
        effects
    }

    /// Where the picker starts: where the last one was left, if that directory
    /// still exists, and otherwise (without a result) at home.
    pub fn markdown_file_picker_start_directory(&self, still_exists: bool) -> (directory: Option<
        String,
    >)
        ensures
            directory == if still_exists {
                self.shell.overlays.markdown_file_picker_directory
            } else {
                None
            },
    {
        if !still_exists {
            return None;
        }
        match &self.shell.overlays.markdown_file_picker_directory {
            Some(directory) => Some(directory.clone()),
            None => None,
        }
    }

    /// The overlays once the picker, left in `directory`, is gone.
    pub open spec fn picker_gone(self, directory: Option<String>) -> OverlayState {
        OverlayState {
            markdown_file_picker: false,
            markdown_file_picker_replaces: None,
            markdown_file_picker_directory: if self.shell.overlays.markdown_file_picker
                && directory is Some {
                directory
            } else {
                self.shell.overlays.markdown_file_picker_directory
            },
            ..self.shell.overlays
        }
    }

    /// Closing the picker, which was browsing `directory`. The next one starts
    /// there.
    pub open spec fn picker_closed(self, directory: Option<String>) -> (Self, Seq<Effect>) {
        if self.shell.overlays.markdown_file_picker {
            (
                self.with_overlays(self.picker_gone(directory)),
                refocus(self, self.state.active) + seq![Effect::Repaint],
            )
        } else {
            (self, seq![])
        }
    }

    pub fn close_markdown_file_picker(&mut self, directory: Option<String>) -> (effects: Vec<Effect>)
        ensures
            (*final(self), effects@) == old(self).picker_closed(directory),
    {
        let mut effects = Vec::new();
        assert(effects@ =~= seq![]);
        if !self.shell.overlays.markdown_file_picker {
            return effects;
        }
        if directory.is_some() {
            self.shell.overlays.markdown_file_picker_directory = directory;
        }
        self.shell.overlays.markdown_file_picker = false;
        self.shell.overlays.markdown_file_picker_replaces = None;
        self.push_refocus(self.state.active, &mut effects);
        effects.push(Effect::Repaint);
        assert(effects@ =~= refocus(*old(self), old(self).state.active) + seq![Effect::Repaint]);
        effects
    }

    /// Opening the file that was picked while the picker was browsing
    /// `directory`.
    pub open spec fn file_picked(self, path: String, directory: Option<String>) -> (
        Self,
        Seq<Effect>,
    ) {
        (
            self.with_overlays(self.picker_gone(directory)),
            refocus(self, self.state.active) + dispatched(
                AppCommand::OpenLocalMarkdownFile {
                    path,
                    replacing: self.shell.overlays.markdown_file_picker_replaces,
                },
            ),
        )
    }

    pub fn markdown_file_picked(&mut self, path: String, directory: Option<String>) -> (effects: Vec<
        Effect,
    >)
        requires
            old(self).shell.overlays.markdown_file_picker,
        ensures
            (*final(self), effects@) == old(self).file_picked(path, directory),
    {
        let replacing = self.shell.overlays.markdown_file_picker_replaces.take();
        if directory.is_some() {
            self.shell.overlays.markdown_file_picker_directory = directory;
        }
        self.shell.overlays.markdown_file_picker = false;
        let mut effects = Vec::new();
        self.push_refocus(self.state.active, &mut effects);
        effects.push(Effect::Dispatch(AppCommand::OpenLocalMarkdownFile { path, replacing }));
        assert(effects@ =~= old(self).file_picked(path, directory).1);
        effects
    }

    /// Opening or closing the inspector. While it opens, what has the keyboard
    /// is remembered.
    pub open spec fn inspector_toggled(self, focused: Option<u64>) -> (Self, Seq<Effect>) {
        (
            if self.shell.focus.inspector_open {
                self
            } else {
                self.with_focus(
                    FocusState { inspector_restore_focus: focused, ..self.shell.focus },
                )
            },
            seq![Effect::Dispatch(AppCommand::ToggleSessionInspector)],
        )
    }

    pub fn toggle_inspector_from_current_focus(&mut self, focused: Option<u64>) -> (effects: Vec<
        Effect,
    >)
        ensures
            (*final(self), effects@) == old(self).inspector_toggled(focused),
    {
        if !self.shell.focus.inspector_open {
            self.shell.focus.inspector_restore_focus = focused;
        }
        let mut effects = Vec::new();
        effects.push(Effect::Dispatch(AppCommand::ToggleSessionInspector));
        assert(effects@ =~= old(self).inspector_toggled(focused).1);
        effects
    }

    /// The notice to draw, with how long until it is looked at again. One that
    /// has been up for its time goes away.
    pub fn show_transient_notice(&mut self, now_ms: u64) -> (shown: Option<(String, Effect)>)
        ensures
            match old(self).shell.overlays.transient_notice {
                Some(notice) => if notice.over(now_ms) {
                    &&& shown is None
                    &&& *final(self) == old(self).with_overlays(
                        OverlayState { transient_notice: None, ..old(self).shell.overlays },
                    )
                } else {
                    &&& *final(self) == *old(self)
                    &&& shown is Some
                    &&& shown->Some_0.0@ == notice.notice.message_text()
                    &&& shown->Some_0.1 == Effect::RepaintAfterMs(100)
                },
                None => shown is None && *final(self) == *old(self),
            },
    {
        let over = match &self.shell.overlays.transient_notice {
            Some(notice) => notice.is_over(now_ms),
            None => return None,
        };
        if over {
            self.shell.overlays.transient_notice = None;
            return None;
        }
        match &self.shell.overlays.transient_notice {
            Some(notice) => Some((notice.notice.text(), Effect::RepaintAfterMs(100))),
            None => None,
        }
    }
}

/// A single command for the tabs.
pub open spec fn dispatched(command: AppCommand) -> Seq<Effect> {
    seq![Effect::Dispatch(command)]
}

/// Just the command.
pub fn only(command: AppCommand) -> (effects: Vec<Effect>)
    ensures
        effects@ == dispatched(command),
{
    let mut effects = Vec::new();
    effects.push(Effect::Dispatch(command));
    assert(effects@ =~= dispatched(command));
    effects
}

/// Just the command, where there is one.
pub open spec fn dispatched_if_any(command: Option<AppCommand>) -> Seq<Effect> {
    match command {
        Some(command) => dispatched(command),
        None => seq![],
    }
}

pub fn only_if_any(command: Option<AppCommand>) -> (effects: Vec<Effect>)
    ensures
        effects@ == dispatched_if_any(command),
{
    match command {
        Some(command) => only(command),
        None => {
            let effects: Vec<Effect> = Vec::new();
            assert(effects@ =~= seq![]);
            effects
        },
    }
}

/// A decision's single effect, where it has one.
pub open spec fn at_most_one(effect: Option<Effect>) -> Seq<Effect> {
    match effect {
        Some(effect) => seq![effect],
        None => seq![],
    }
}

pub fn one_or_none(effect: Option<Effect>) -> (effects: Vec<Effect>)
    ensures
        effects@ == at_most_one(effect),
{
    let mut effects = Vec::new();
    if let Some(effect) = effect {
        effects.push(effect);
    }
    assert(effects@ =~= at_most_one(effect));
    effects
}

impl FesTermApp {
    /// What carrying out `action` leads to. `chord` is the palette's.
    pub open spec fn action_outcome(
        self,
        action: KeyboardAction,
        documents: Seq<OpenDocument>,
        chord: Option<String>,
        now_ms: u64,
    ) -> (Self, Seq<Effect>) {
        match action.principal_action() {
            KeyboardAction::Copy => (self, self.copy_effects()),
            KeyboardAction::NewSession => (self, dispatched(AppCommand::OpenLauncher)),
            KeyboardAction::NewWindow => (self, dispatched(AppCommand::OpenWindow)),
            KeyboardAction::StartLocalShell => (self, dispatched(AppCommand::StartLocalSession)),
            KeyboardAction::CloseActiveSurface => {
                let (after, effect) = self.tab_close_outcome(self.state.active, documents);
                (after, at_most_one(effect))
            },
            KeyboardAction::NextSession => (self, dispatched(AppCommand::ActivateNextTab)),
            KeyboardAction::PreviousSession => (self, dispatched(AppCommand::ActivatePreviousTab)),
            KeyboardAction::Settings => (self, dispatched(AppCommand::OpenSettings)),
            KeyboardAction::ZoomIn => (self, self.zoom_effects(ZoomCommand::In)),
            KeyboardAction::ZoomOut => (self, self.zoom_effects(ZoomCommand::Out)),
            KeyboardAction::ZoomReset => (self, self.zoom_effects(ZoomCommand::Reset)),
            KeyboardAction::ClearTerminal => self.terminal_cleared(now_ms),
            KeyboardAction::ResetTerminal => self.terminal_reset(now_ms),
            KeyboardAction::ToggleFocusMode => self.focus_mode_toggled(chord, now_ms),
            KeyboardAction::PortForwardManager => self.forwards_toggled(),
            KeyboardAction::Find => (self, self.search_effects()),
            KeyboardAction::MarkdownFind => (self, dispatched(AppCommand::OpenMarkdownFind)),
            KeyboardAction::MarkdownReload => (self, dispatched(AppCommand::ReloadMarkdown)),
            KeyboardAction::MarkdownPreviewSource => (
                self,
                dispatched(AppCommand::ToggleMarkdownPreviewSource),
            ),
            KeyboardAction::MarkdownOutline => (
                self,
                dispatched(AppCommand::ToggleMarkdownOutline),
            ),
            KeyboardAction::OpenMarkdownFile => self.picker_opened(),
            _ => (self, seq![]),
        }
    }

    /// Carries out one action of the order in `order_actions`. Pasting needs
    /// more than the action and is carried out on its own, and the palette's
    /// own shortcuts have been by then.
    pub fn perform_action(
        &mut self,
        action: KeyboardAction,
        documents: &Vec<OpenDocument>,
        chord: Option<String>,
        now_ms: u64,
    ) -> (effects: Vec<Effect>)
        ensures
            (*final(self), effects@) == old(self).action_outcome(
                action,
                documents@,
                chord,
                now_ms,
            ),
    {
        match action.principal() {
            KeyboardAction::Copy => self.copy_active_selection(),
            KeyboardAction::NewSession => only(AppCommand::OpenLauncher),
            KeyboardAction::NewWindow => only(AppCommand::OpenWindow),
            KeyboardAction::StartLocalShell => only(AppCommand::StartLocalSession),
            KeyboardAction::CloseActiveSurface => {
                let effect = self.request_close_tab(self.state.active, documents);
                one_or_none(effect)
            },
            KeyboardAction::NextSession => only(AppCommand::ActivateNextTab),
            KeyboardAction::PreviousSession => only(AppCommand::ActivatePreviousTab),
            KeyboardAction::Settings => only(AppCommand::OpenSettings),
            KeyboardAction::ZoomIn => self.zoom_active_session(ZoomCommand::In),
            KeyboardAction::ZoomOut => self.zoom_active_session(ZoomCommand::Out),
            KeyboardAction::ZoomReset => self.zoom_active_session(ZoomCommand::Reset),
            KeyboardAction::ClearTerminal => self.clear_active_terminal(now_ms),
            KeyboardAction::ResetTerminal => self.reset_active_terminal(now_ms),
            KeyboardAction::ToggleFocusMode => self.toggle_focus_mode(chord, now_ms),
            KeyboardAction::PortForwardManager => self.toggle_port_forward_manager(),
            KeyboardAction::Find => self.open_terminal_search(),
            KeyboardAction::MarkdownFind => only(AppCommand::OpenMarkdownFind),
            KeyboardAction::MarkdownReload => only(AppCommand::ReloadMarkdown),
            KeyboardAction::MarkdownPreviewSource => only(AppCommand::ToggleMarkdownPreviewSource),
            KeyboardAction::MarkdownOutline => only(AppCommand::ToggleMarkdownOutline),
            KeyboardAction::OpenMarkdownFile => self.open_markdown_file_picker(),
            _ => {
                let effects: Vec<Effect> = Vec::new();
                assert(effects@ =~= seq![]);
                effects
            },
        }
    }
}

/// Commands for a terminal act on the one in front, on no other tab, and on
/// nothing where no session is in front. What was done is said for a moment, and
/// the keyboard goes back to that terminal.
pub proof fn terminal_commands_act_on_the_terminal_in_front(
    app: FesTermApp,
    command: ZoomCommand,
    now_ms: u64,
)
    ensures
        ({
            let tab = app.state.active;
            let there = app.state.active_session() is Some;
            let (reset, reset_effects) = app.terminal_reset(now_ms);
            let (cleared, cleared_effects) = app.terminal_cleared(now_ms);
            let notice = |w: FesTermApp| w.shell.overlays.transient_notice->Some_0;
            &&& !there ==> {
                &&& app.zoom_effects(command).len() == 0
                &&& app.copy_effects().len() == 0
                &&& app.search_effects().len() == 0
                &&& reset == app && reset_effects.len() == 0
                &&& cleared == app && cleared_effects.len() == 0
                &&& app.search_closed_effects() == seq![Effect::Repaint]
            }
            &&& there ==> {
                &&& app.zoom_effects(command).contains(Effect::ZoomTerminal(tab, command))
                &&& app.zoom_effects(command).len() == 1
                &&& app.copy_effects().len() == 3
                &&& app.copy_effects()[0] == Effect::CopySelection(tab)
                &&& app.copy_effects()[1] == Effect::FocusTerminal(tab)
                &&& app.copy_effects()[2] == Effect::Repaint
                &&& app.search_effects().len() == 2
                &&& app.search_effects()[0] == Effect::OpenSearch(tab)
                &&& app.search_effects()[1] == Effect::Repaint
                &&& app.search_closed_effects().len() == 3
                &&& app.search_closed_effects()[0] == Effect::CloseSearch(tab)
                &&& app.search_closed_effects()[1] == Effect::FocusTerminal(tab)
                &&& reset_effects.len() == 3
                &&& reset_effects[0] == Effect::ResetTerminal(tab)
                &&& reset_effects[1] == Effect::FocusTerminal(tab)
                &&& cleared_effects.len() == 3
                &&& cleared_effects[0] == Effect::ClearTerminal(tab)
                &&& cleared_effects[1] == Effect::FocusTerminal(tab)
                &&& notice(reset).notice == Notice::TerminalReset
                &&& notice(reset).shown_at_ms == now_ms
                &&& notice(cleared).notice == Notice::TerminalCleared
                &&& notice(cleared).shown_at_ms == now_ms
            }
            &&& reset.state == app.state
            &&& cleared.state == app.state
            &&& reset.shell.focus == app.shell.focus
            &&& cleared.shell.focus == app.shell.focus
        }),
{
    if app.state.active_session() is Some {
        assert(app.zoom_effects(command)[0] == Effect::ZoomTerminal(app.state.active, command));
    } else {
        assert(app.search_closed_effects() =~= seq![Effect::Repaint]);
    }
}

/// Focus mode is entered where a session is in front, and toggling it again
/// leads out; without a session nothing happens. The notice says which it was,
/// and how to leave.
pub proof fn focus_mode_is_left_the_way_it_was_entered(
    app: FesTermApp,
    chord: Option<String>,
    now_ms: u64,
    later_ms: u64,
)
    ensures
        ({
            let (once, effects) = app.focus_mode_toggled(chord, now_ms);
            let (twice, _) = once.focus_mode_toggled(chord, later_ms);
            let notice = once.shell.overlays.transient_notice;
            &&& app.state.active_session() is None ==> once == app && effects.len() == 0
            &&& app.state.active_session() is Some ==> {
                &&& once.shell.focus.focus_mode != app.shell.focus.focus_mode
                &&& once.shell.focus == (FocusState {
                    focus_mode: once.shell.focus.focus_mode,
                    ..app.shell.focus
                })
                &&& notice is Some
                &&& notice->Some_0.notice == if once.shell.focus.focus_mode {
                    Notice::FocusModeEntered(chord)
                } else {
                    Notice::FocusModeExited
                }
                &&& effects.len() == 2
                &&& effects[0] == Effect::FocusTerminal(app.state.active)
                &&& effects[1] == Effect::Repaint
            }
            &&& twice.shell.focus == app.shell.focus
            &&& twice.state == app.state
        }),
{
}

/// The port-forward tool opens for the session in front, where that can forward
/// ports, and for no other tab; it begins without an error and asks for that
/// session's forwards. Toggling it again closes it and gives the keyboard back.
pub proof fn the_forward_tool_opens_for_the_session_in_front(app: FesTermApp)
    ensures
        ({
            let tab = app.state.active;
            let session = app.state.active_session();
            let can = session is Some && session->Some_0.live_port_forwarding;
            let before = app.shell.overlays.port_forward_manager;
            let here = before is Some && before->Some_0.tab == tab;
            let (after, effects) = app.forwards_toggled();
            let open = after.shell.overlays.port_forward_manager;
            let (again, _) = after.forwards_toggled();
            &&& after.state == app.state
            &&& here ==> open is None
            &&& here && session is Some ==> effects.contains(Effect::FocusTerminal(tab))
            &&& !here && can ==> {
                &&& open is Some
                &&& open->Some_0.tab == tab
                &&& open->Some_0.error is None
                &&& open->Some_0.request_focus
                &&& effects.len() >= 2
                &&& effects[effects.len() - 2] == Effect::QueryPortForwards(tab)
                &&& again.shell.overlays.port_forward_manager is None
                &&& session->Some_0.search_open ==> effects.contains(Effect::CloseSearch(tab))
                &&& !session->Some_0.search_open ==> effects.len() == 2
            }
            &&& !here && !can ==> after == app && effects.len() == 0
            &&& app.forwards_open_in_front() == here
        }),
{
    let tab = app.state.active;
    let (_, effects) = app.forwards_toggled();
    if app.state.active_session() is Some {
        let session = app.state.active_session()->Some_0;
        if app.forwards_open_in_front() {
            assert(effects[0] == Effect::FocusTerminal(tab));
        } else if session.live_port_forwarding && session.search_open {
            assert(effects[0] == Effect::CloseSearch(tab));
        }
    }
}

/// The port-forward tool stays exactly while its own tab is in front and runs
/// over SSH; nothing else about the window changes.
pub proof fn the_forward_tool_leaves_with_its_tab(app: FesTermApp)
    ensures
        ({
            let after = app.forwards_synced();
            let before = app.shell.overlays.port_forward_manager;
            let session = app.state.active_session();
            let stays = before is Some && before->Some_0.tab == app.state.active && session is Some
                && session->Some_0.transport is Ssh;
            &&& stays ==> after == app
            &&& !stays ==> after.shell.overlays.port_forward_manager is None
            &&& after.state == app.state
            &&& after.shell.overlays == (OverlayState {
                port_forward_manager: after.shell.overlays.port_forward_manager,
                ..app.shell.overlays
            })
            &&& after.forwards_synced() == after
        }),
{
}

/// A file that is picked is the file that is opened, and it takes the place of
/// the document of the viewer that the picker was opened from, and of no other;
/// opened from anywhere else, it takes nobody's. Either way the picker is gone,
/// and the next one starts where it was left.
pub proof fn the_picked_file_is_opened(app: FesTermApp, path: String, directory: Option<String>)
    ensures
        ({
            let (open, _) = app.picker_opened();
            let (after, effects) = open.file_picked(path, directory);
            let (closed, closed_effects) = open.picker_closed(directory);
            let viewer = app.state.active_tab() is Some
                && app.state.active_tab()->Some_0.content is MarkdownViewer;
            &&& open.shell.overlays.markdown_file_picker
            &&& open.shell.overlays.blocking()
            &&& open.state == app.state
            &&& effects.len() > 0
            &&& effects.last() == Effect::Dispatch(
                AppCommand::OpenLocalMarkdownFile {
                    path,
                    replacing: if viewer {
                        Some(app.state.active)
                    } else {
                        None
                    },
                },
            )
            &&& forall|i: int|
                0 <= i < effects.len() - 1 ==> #[trigger] effects[i] == Effect::FocusTerminal(
                    app.state.active,
                )
            &&& forall|i: int|
                0 <= i < closed_effects.len() ==> (#[trigger] closed_effects[i]) !is Dispatch
            &&& !after.shell.overlays.markdown_file_picker
            &&& !closed.shell.overlays.markdown_file_picker
            &&& after.shell.overlays.markdown_file_picker_replaces is None
            &&& closed.shell.overlays.markdown_file_picker_replaces is None
            &&& directory is Some ==> after.shell.overlays.markdown_file_picker_directory
                == directory && closed.shell.overlays.markdown_file_picker_directory == directory
            &&& directory is None ==> after.shell.overlays.markdown_file_picker_directory
                == app.shell.overlays.markdown_file_picker_directory
            &&& after.state == app.state
            &&& closed.state == app.state
        }),
{
}

/// Closing a picker that is not open does nothing.
pub proof fn a_closed_picker_stays_closed(app: FesTermApp, directory: Option<String>)
    requires
        !app.shell.overlays.markdown_file_picker,
    ensures
        app.picker_closed(directory).0 == app,
        app.picker_closed(directory).1.len() == 0,
{
}

/// What has the keyboard is remembered when the inspector opens, and what was
/// remembered stays when it closes; it is toggled once either way.
pub proof fn the_inspector_remembers_the_keyboard(app: FesTermApp, focused: Option<u64>)
    ensures
        ({
            let (after, effects) = app.inspector_toggled(focused);
            &&& effects == seq![Effect::Dispatch(AppCommand::ToggleSessionInspector)]
            &&& after.shell.focus.inspector_restore_focus == if app.shell.focus.inspector_open {
                app.shell.focus.inspector_restore_focus
            } else {
                focused
            }
            &&& after.shell.focus == (FocusState {
                inspector_restore_focus: after.shell.focus.inspector_restore_focus,
                ..app.shell.focus
            })
            &&& after.state == app.state
            &&& after.shell.overlays == app.shell.overlays
        }),
{
}

/// An action does what it is called: it leads to its own command, acts on the
/// tab in front, and a second binding of an action does the same as the first.
pub proof fn actions_do_what_they_are_called(
    app: FesTermApp,
    documents: Seq<OpenDocument>,
    chord: Option<String>,
    now_ms: u64,
)
    ensures
        ({
            let effects = |action: KeyboardAction|
                app.action_outcome(action, documents, chord, now_ms).1;
            let after = |action: KeyboardAction|
                app.action_outcome(action, documents, chord, now_ms).0;
            let tab = app.state.active;
            let there = app.state.active_session() is Some;
            &&& effects(KeyboardAction::NewSession) == seq![
                Effect::Dispatch(AppCommand::OpenLauncher),
            ]
            &&& effects(KeyboardAction::NewWindow) == seq![Effect::Dispatch(AppCommand::OpenWindow)]
            &&& effects(KeyboardAction::StartLocalShell) == seq![
                Effect::Dispatch(AppCommand::StartLocalSession),
            ]
            &&& effects(KeyboardAction::NextSession) == seq![
                Effect::Dispatch(AppCommand::ActivateNextTab),
            ]
            &&& effects(KeyboardAction::PreviousSession) == seq![
                Effect::Dispatch(AppCommand::ActivatePreviousTab),
            ]
            &&& effects(KeyboardAction::Settings) == seq![
                Effect::Dispatch(AppCommand::OpenSettings),
            ]
            &&& effects(KeyboardAction::MarkdownFind) == seq![
                Effect::Dispatch(AppCommand::OpenMarkdownFind),
            ]
            &&& effects(KeyboardAction::MarkdownReload) == seq![
                Effect::Dispatch(AppCommand::ReloadMarkdown),
            ]
            &&& effects(KeyboardAction::MarkdownPreviewSource) == seq![
                Effect::Dispatch(AppCommand::ToggleMarkdownPreviewSource),
            ]
            &&& effects(KeyboardAction::MarkdownOutline) == seq![
                Effect::Dispatch(AppCommand::ToggleMarkdownOutline),
            ]
            &&& there ==> {
                &&& effects(KeyboardAction::ZoomIn) == seq![
                    Effect::ZoomTerminal(tab, ZoomCommand::In),
                ]
                &&& effects(KeyboardAction::ZoomOut) == seq![
                    Effect::ZoomTerminal(tab, ZoomCommand::Out),
                ]
                &&& effects(KeyboardAction::ZoomReset) == seq![
                    Effect::ZoomTerminal(tab, ZoomCommand::Reset),
                ]
                &&& effects(KeyboardAction::Copy)[0] == Effect::CopySelection(tab)
                &&& effects(KeyboardAction::Find)[0] == Effect::OpenSearch(tab)
                &&& effects(KeyboardAction::ClearTerminal)[0] == Effect::ClearTerminal(tab)
                &&& effects(KeyboardAction::ResetTerminal)[0] == Effect::ResetTerminal(tab)
                &&& after(KeyboardAction::ToggleFocusMode).shell.focus.focus_mode
                    != app.shell.focus.focus_mode
            }
            &&& after(KeyboardAction::OpenMarkdownFile).shell.overlays.markdown_file_picker
            &&& app.action_outcome(KeyboardAction::CopyAlternate, documents, chord, now_ms)
                == app.action_outcome(KeyboardAction::Copy, documents, chord, now_ms)
            &&& app.action_outcome(KeyboardAction::ZoomInAlternate, documents, chord, now_ms)
                == app.action_outcome(KeyboardAction::ZoomIn, documents, chord, now_ms)
            &&& app.action_outcome(KeyboardAction::SettingsHotkey, documents, chord, now_ms)
                == app.action_outcome(KeyboardAction::Settings, documents, chord, now_ms)
        }),
{
}

/// Closing the surface in front closes the tab in front, or asks about it.
pub proof fn the_surface_in_front_is_closed(
    app: FesTermApp,
    documents: Seq<OpenDocument>,
    chord: Option<String>,
    now_ms: u64,
)
    ensures
        ({
            let (after, effects) = app.action_outcome(
                KeyboardAction::CloseActiveSurface,
                documents,
                chord,
                now_ms,
            );
            let (asked, effect) = app.tab_close_outcome(app.state.active, documents);
            &&& after == asked
            &&& effect is Some ==> effects == seq![effect->Some_0]
            &&& effect is None ==> effects.len() == 0
        }),
{
}

} // verus!
