//! One frame of a window: who gets Escape, whether the terminal takes keys, and
//! what the tab's own surface, its overlay and its sessions ask for.
use vstd::prelude::*;

use crate::app::{FesTermApp, FocusState, Shell, WindowRequests};
use crate::commands::{one_or_none, only, NOTICE_MS};
#[allow(unused_imports)]
use crate::commands::{at_most_one, dispatched};
use crate::confirmations::OpenDocument;
use crate::effects::{AppCommand, Effect, HostKeyTrustDecision};
use crate::overlays::{Notice, OverlayState, PendingSettingsResetConfirmation, TransientNotice};
#[allow(unused_imports)]
use crate::state::position;
use crate::profiles::ProfileCommand;
use crate::state::{AppState, SessionTab, Tab, TabContent, TabId};
use crate::text::same_text;
use crate::windows::APPLICATION_TITLE;

verus! {

/// Which surfaces Escape dismisses.
#[derive(Clone, Copy, Debug, PartialEq, Eq, Structural)]
pub struct EscapeRoute {
    /// The key press is taken and goes no further.
    pub consumed: bool,
    pub confirmation: bool,
    pub port_forwards: bool,
    pub file_picker: bool,
    pub about: bool,
}

impl FesTermApp {
    /// Who gets Escape. Only where something blocks the terminal is the key
    /// taken here; otherwise the inspector, the search and the terminal get to
    /// see it.
    pub open spec fn escape_goes_to(self, pressed: bool) -> EscapeRoute {
        let overlays = self.shell.overlays;
        let taken = pressed && overlays.blocking();
        EscapeRoute {
            consumed: taken,
            confirmation: taken && (overlays.confirms_other_than_paste()
                || overlays.pending_paste is Some),
            port_forwards: taken && overlays.port_forward_manager is Some,
            file_picker: taken && overlays.markdown_file_picker,
            about: taken && overlays.about_open,
        }
    }

    pub fn route_escape(&self, pressed: bool) -> (route: EscapeRoute)
        ensures
            route == self.escape_goes_to(pressed),
    {
        let overlays = &self.shell.overlays;
        let taken = pressed && overlays.blocks_terminal_input();
        EscapeRoute {
            consumed: taken,
            confirmation: taken && overlays.confirmation_open(),
            port_forwards: taken && overlays.port_forward_manager.is_some(),
            file_picker: taken && overlays.markdown_file_picker,
            about: taken && overlays.about_open,
        }
    }

    /// The search of the terminal in front is open.
    pub open spec fn searching(self) -> bool {
        &&& self.state.active_session() is Some
        &&& self.state.active_session()->Some_0.search_open
    }

    /// Who gets an Escape that nothing blocking has taken: the inspector, or
    /// else the search.
    pub fn route_surface_escape(&self, pressed: bool) -> (route: (bool, bool))
        ensures
            route.0 == (pressed && self.shell.focus.inspector_open),
            route.1 == (pressed && !self.shell.focus.inspector_open && self.searching()),
    {
        let searching = match self.state.session_tab(self.state.active) {
            Some(session) => session.search_open,
            None => false,
        };
        (
            pressed && self.shell.focus.inspector_open,
            pressed && !self.shell.focus.inspector_open && searching,
        )
    }

    /// Focus mode ends where no session is in front.
    pub open spec fn focus_mode_settled(self) -> Self {
        if self.shell.focus.focus_mode && self.state.active_session() is None {
            self.with_focus(FocusState { focus_mode: false, ..self.shell.focus })
        } else {
            self
        }
    }

    pub fn leave_focus_mode_without_session(&mut self)
        ensures
            *final(self) == old(self).focus_mode_settled(),
    {
        if self.shell.focus.focus_mode && self.state.session_tab(self.state.active).is_none() {
            self.shell.focus.focus_mode = false;
        }
    }

    /// The tab whose terminal this frame's keys were meant for.
    pub open spec fn input_target(self, frame: u64) -> Option<TabId> {
        if self.owns_input() || self.confirmation_opening(frame) {
            Some(self.state.active)
        } else {
            None
        }
    }

    pub fn terminal_input_target(&self, frame: u64) -> (target: Option<TabId>)
        ensures
            target == self.input_target(frame),
    {
        if self.terminal_owns_input() || self.clipboard_confirmation_opening(frame) {
            Some(self.state.active)
        } else {
            None
        }
    }

    /// The terminal in front takes keys while it is drawn: they were meant for
    /// it, and nothing has come up since. The question about a clipboard read
    /// that opened in this frame does not count yet.
    pub open spec fn takes_keys(self, target: Option<TabId>, opening: bool) -> bool {
        &&& target == Some(self.state.active)
        &&& !self.shell.overlays.blocking() || opening
        &&& !self.shell.focus.palette_open
        &&& !self.shell.focus.inspector_open
        &&& self.shell.focus.rename_restore_tab is None
        &&& !self.searching()
    }

    pub fn terminal_input_enabled(&self, target: Option<TabId>, opening: bool) -> (enabled: bool)
        ensures
            enabled == self.takes_keys(target, opening),
    {
        let searching = match self.state.session_tab(self.state.active) {
            Some(session) => session.search_open,
            None => false,
        };
        let meant = match target {
            Some(tab) => tab == self.state.active,
            None => false,
        };
        meant && (!self.shell.overlays.blocks_terminal_input() || opening)
            && !self.shell.focus.palette_open && !self.shell.focus.inspector_open
            && self.shell.focus.rename_restore_tab.is_none() && !searching
    }

    /// Text has reached the terminal while a paste was waiting for its answer:
    /// the captured paste no longer stands.
    pub open spec fn after_other_paste(self, was_pending: bool, arrived: bool) -> (
        Self,
        Seq<Effect>,
    ) {
        if was_pending && arrived {
            (
                self.with_overlays(OverlayState { pending_paste: None, ..self.shell.overlays }),
                match self.shell.overlays.pending_paste {
                    Some(pending) => self.paste_cancelled(pending),
                    None => seq![],
                },
            )
        } else {
            (self, seq![])
        }
    }

    pub fn paste_superseded(&mut self, was_pending: bool, arrived: bool) -> (effects: Vec<Effect>)
        ensures
            (*final(self), effects@) == old(self).after_other_paste(was_pending, arrived),
    {
        if was_pending && arrived {
            self.cancel_paste_confirmation()
        } else {
            one_or_none(None)
        }
    }

    /// A link was followed in the terminal; `target` is its normal form, where
    /// it is a web address.
    pub open spec fn link_followed(self, target: Option<String>, now_ms: u64) -> (Self, Effect) {
        match target {
            Some(target) => (self, Effect::Dispatch(AppCommand::OpenExternalLink(target))),
            None => (
                self.with_notice(Some(Notice::InvalidLink), now_ms, 3_000),
                Effect::Repaint,
            ),
        }
    }

    pub fn request_external_link(&mut self, target: Option<String>, now_ms: u64) -> (effect: Effect)
        ensures
            (*final(self), effect) == old(self).link_followed(target, now_ms),
    {
        match target {
            Some(target) => Effect::Dispatch(AppCommand::OpenExternalLink(target)),
            None => {
                self.shell.overlays.notify(Notice::InvalidLink, now_ms, 3_000);
                Effect::Repaint
            },
        }
    }
}

/// A command that a tab's own surface asks for.
#[derive(Debug)]
pub enum ScreenCommand {
    OpenMarkdownWorkspace,
    CloseTab(TabId),
    /// A preference of the interface.
    ChangePreference,
    /// A preference that decides how text is drawn.
    ChangeTypography,
    /// Key bindings, with what is wrong with them.
    SetKeyboardBindings(Option<String>),
    SetTerminalFont,
    ToggleRestoreWorkspace,
    /// `at_defaults` says that there is nothing to reset.
    ResetInterfaceSettings { at_defaults: bool },
    ResolveHostKeyTrust { tab: TabId, decision: HostKeyTrustDecision },
    OpenLocalMarkdownFile { path: String, replacing: Option<TabId> },
    /// Something about a saved profile.
    Profile(ProfileCommand),
    /// Anything that only the tabs have to do something about.
    Other,
}

impl FesTermApp {
    /// What a command of the tab's own surface leads to.
    pub open spec fn screen_outcome(
        self,
        command: ScreenCommand,
        documents: Seq<OpenDocument>,
        now_ms: u64,
    ) -> (Self, Seq<Effect>) {
        match command {
            ScreenCommand::OpenMarkdownWorkspace => self.picker_opened(),
            ScreenCommand::CloseTab(id) => {
                let (after, effect) = self.tab_close_outcome(id, documents);
                (after, at_most_one(effect))
            },
            ScreenCommand::ChangePreference => (
                self,
                seq![Effect::DispatchScreenCommand, Effect::PersistInterfaceSettings],
            ),
            ScreenCommand::ChangeTypography => (
                self,
                seq![
                    Effect::DispatchScreenCommand,
                    Effect::ApplyTerminalFontPolicy,
                    Effect::PersistInterfaceSettings,
                ],
            ),
            ScreenCommand::SetKeyboardBindings(error) => match error {
                Some(error) => (
                    self.with_notice(
                        Some(Notice::KeyboardBindingsInvalid(error)),
                        now_ms,
                        5_000,
                    ),
                    seq![],
                ),
                None => (
                    self,
                    seq![
                        Effect::DispatchScreenCommand,
                        Effect::PersistInterfaceSettings,
                        Effect::UpdateNativeMenu,
                    ],
                ),
            },
            ScreenCommand::SetTerminalFont => (
                self,
                seq![
                    Effect::DispatchScreenCommand,
                    Effect::ReinstallTerminalFont,
                    Effect::PersistInterfaceSettings,
                ],
            ),
            ScreenCommand::ToggleRestoreWorkspace => (
                self,
                if self.shell.documents.settings.restore_workspace {
                    seq![
                        Effect::DispatchScreenCommand,
                        Effect::PersistInterfaceSettings,
                        Effect::ClearSavedWorkspace,
                    ]
                } else {
                    seq![Effect::DispatchScreenCommand, Effect::PersistInterfaceSettings]
                },
            ),
            ScreenCommand::ResetInterfaceSettings { at_defaults } => if at_defaults {
                (self, dispatched(AppCommand::ResetInterfaceSettings))
            } else {
                (
                    self.palette_closed().with_overlays(
                        OverlayState {
                            pending_settings_reset: Some(
                                PendingSettingsResetConfirmation { cancel_focus_requested: false },
                            ),
                            ..self.shell.overlays
                        },
                    ),
                    seq![],
                )
            },
            ScreenCommand::ResolveHostKeyTrust { tab, decision } => (
                self,
                (if decision == HostKeyTrustDecision::AcceptAndPersist {
                    seq![Effect::PersistKnownHostTrust(tab)]
                } else {
                    seq![]
                }) + dispatched(AppCommand::ResolveHostKeyTrust { tab, decision }),
            ),
            ScreenCommand::OpenLocalMarkdownFile { path, replacing } => (
                self,
                dispatched(AppCommand::OpenLocalMarkdownFile { path, replacing }),
            ),
            ScreenCommand::Profile(command) => self.profile_outcome(command),
            ScreenCommand::Other => (self, seq![Effect::DispatchScreenCommand]),
        }
    }

    /// Carries out a command of the tab's own surface. Preferences are written
    /// back at once; switching off the restoring of workspaces also removes the
    /// one that was saved; a host key that is to be remembered is written
    /// before the prompt that shows it goes away.
    pub fn route_screen_command(
        &mut self,
        command: ScreenCommand,
        documents: &Vec<OpenDocument>,
        now_ms: u64,
    ) -> (effects: Vec<Effect>)
        ensures
            (*final(self), effects@) == old(self).screen_outcome(command, documents@, now_ms),
    {
        let ghost asked = command;
        let mut effects = Vec::new();
        match command {
            ScreenCommand::OpenMarkdownWorkspace => return self.open_markdown_file_picker(),
            ScreenCommand::CloseTab(id) => {
                let effect = self.request_close_tab(id, documents);
                return one_or_none(effect);
            },
            ScreenCommand::ResetInterfaceSettings { at_defaults } => {
                let effect = self.request_reset_interface_settings(at_defaults);
                return one_or_none(effect);
            },
            ScreenCommand::SetKeyboardBindings(Some(error)) => {
                self.shell.overlays.notify(
                    Notice::KeyboardBindingsInvalid(error),
                    now_ms,
                    5_000,
                );
                return one_or_none(None);
            },
            ScreenCommand::ChangePreference => {
                effects.push(Effect::DispatchScreenCommand);
                effects.push(Effect::PersistInterfaceSettings);
            },
            ScreenCommand::ChangeTypography => {
                effects.push(Effect::DispatchScreenCommand);
                effects.push(Effect::ApplyTerminalFontPolicy);
                effects.push(Effect::PersistInterfaceSettings);
            },
            ScreenCommand::SetKeyboardBindings(None) => {
                effects.push(Effect::DispatchScreenCommand);
                effects.push(Effect::PersistInterfaceSettings);
                effects.push(Effect::UpdateNativeMenu);
            },
            ScreenCommand::SetTerminalFont => {
                effects.push(Effect::DispatchScreenCommand);
                effects.push(Effect::ReinstallTerminalFont);
                effects.push(Effect::PersistInterfaceSettings);
            },
            ScreenCommand::ToggleRestoreWorkspace => {
                effects.push(Effect::DispatchScreenCommand);
                effects.push(Effect::PersistInterfaceSettings);
                if self.restores_workspace() {
                    effects.push(Effect::ClearSavedWorkspace);
                }
            },
            ScreenCommand::ResolveHostKeyTrust { tab, decision } => {
                if matches!(decision, HostKeyTrustDecision::AcceptAndPersist) {
                    effects.push(Effect::PersistKnownHostTrust(tab));
                }
                effects.push(Effect::Dispatch(AppCommand::ResolveHostKeyTrust { tab, decision }));
            },
            ScreenCommand::OpenLocalMarkdownFile { path, replacing } => {
                return only(AppCommand::OpenLocalMarkdownFile { path, replacing });
            },
            ScreenCommand::Profile(command) => return self.route_profile_command(command),
            ScreenCommand::Other => effects.push(Effect::DispatchScreenCommand),
        }
        assert(effects@ =~= old(self).screen_outcome(asked, documents@, now_ms).1);
        effects
    }
}

/// What the overlay of a session that is not running offers.
#[derive(Clone, Copy, Debug, PartialEq, Eq, Structural)]
pub enum OverlayAction {
    Reconnect,
    OpenDiagnostics,
}

impl FesTermApp {
    /// What the overlay of a session that is not running leads to.
    pub open spec fn overlay_outcome(self, action: OverlayAction) -> (Self, Seq<Effect>) {
        match action {
            OverlayAction::Reconnect => (
                self,
                dispatched(AppCommand::ReconnectSession(self.state.active)),
            ),
            OverlayAction::OpenDiagnostics => (
                self.with_focus(FocusState { inspector_restore_focus: None, ..self.shell.focus }),
                if self.shell.focus.inspector_open {
                    seq![]
                } else {
                    dispatched(AppCommand::ToggleSessionInspector)
                },
            ),
        }
    }

    pub fn dispatch_overlay_action(&mut self, action: OverlayAction) -> (effects: Vec<Effect>)
        ensures
            (*final(self), effects@) == old(self).overlay_outcome(action),
    {
        match action {
            OverlayAction::Reconnect => only(AppCommand::ReconnectSession(self.state.active)),
            OverlayAction::OpenDiagnostics => {
                self.shell.focus.inspector_restore_focus = None;
                if self.shell.focus.inspector_open {
                    one_or_none(None)
                } else {
                    only(AppCommand::ToggleSessionInspector)
                }
            },
        }
    }

    /// Ends a frame: tabs that changed ask for the workspace to be saved, where
    /// workspaces are restored at all.
    pub open spec fn save_asked_for(self) -> Self {
        FesTermApp {
            shell: Shell {
                requests: WindowRequests {
                    workspace_dirty: false,
                    save_workspace: self.shell.requests.save_workspace || (
                    self.shell.requests.workspace_dirty
                        && self.shell.documents.settings.restore_workspace),
                    ..self.shell.requests
                },
                ..self.shell
            },
            ..self
        }
    }

    pub fn request_workspace_save(&mut self)
        ensures
            *final(self) == old(self).save_asked_for(),
    {
        let dirty = self.shell.requests.workspace_dirty;
        self.shell.requests.workspace_dirty = false;
        if dirty && self.restores_workspace() {
            self.shell.requests.save_workspace = true;
        }
    }
}

/// `tab` with its session replaced.
pub open spec fn with_session(tab: Tab, session: SessionTab) -> Tab {
    Tab { content: TabContent::Session(session), ..tab }
}

impl FesTermApp {
    /// Takes in what the session at `index` has produced, and says whether to
    /// repaint. Output of a session that is not in front is remembered for its
    /// chip.
    pub fn session_pumped(&mut self, index: usize, hit_limit: bool, output: bool) -> (repaint: bool)
        requires
            index < old(self).state.tabs@.len(),
        ensures
            final(self).shell == old(self).shell,
            final(self).state.active == old(self).state.active,
            match old(self).state.tabs@[index as int].session() {
                Some(session) => {
                    &&& repaint == (hit_limit || output)
                    &&& final(self).state.tabs@ == if output
                        && old(self).state.tabs@[index as int].id != old(self).state.active {
                        old(self).state.tabs@.update(
                            index as int,
                            with_session(
                                old(self).state.tabs@[index as int],
                                SessionTab { has_new_output: true, ..session },
                            ),
                        )
                    } else {
                        old(self).state.tabs@
                    }
                },
                None => !repaint && final(self).state.tabs@ == old(self).state.tabs@,
            },
    {
        let background = self.state.tabs[index].id != self.state.active;
        let mut repaint = false;
        if let TabContent::Session(session) = &mut self.state.tabs[index].content {
            repaint = hit_limit || output;
            if output && background {
                session.has_new_output = true;
            }
        }
        proof {
            let before = old(self).state.tabs@;
            assert(self.state.tabs@ =~= before.update(index as int, self.state.tabs@[index as int]));
            if self.state.tabs@[index as int] == before[index as int] {
                assert(self.state.tabs@ =~= before);
            }
        }
        repaint
    }

    /// The session in front has dropped history for the first time, and nobody
    /// has been told.
    pub open spec fn eviction_to_tell(self) -> bool {
        match self.state.active_session() {
            Some(session) => !session.eviction_notice_shown && session.evicted_lines > 0,
            None => false,
        }
    }

    /// Tells once that the session in front has dropped history, and says
    /// whether to repaint.
    pub fn show_active_eviction_notice_if_needed(&mut self, now_ms: u64) -> (repaint: bool)
        ensures
            repaint == old(self).eviction_to_tell(),
            final(self).state.active == old(self).state.active,
            final(self).shell == if repaint {
                old(self).with_notice(
                    Some(Notice::ScrollbackLimitReached),
                    now_ms,
                    NOTICE_MS,
                ).shell
            } else {
                old(self).shell
            },
            match (
                old(self).state.active_session(),
                position(old(self).state.tabs@, old(self).state.active),
            ) {
                (Some(session), Some(i)) => final(self).state.tabs@ == if repaint {
                    old(self).state.tabs@.update(
                        i,
                        with_session(
                            old(self).state.tabs@[i],
                            SessionTab { eviction_notice_shown: true, ..session },
                        ),
                    )
                } else {
                    old(self).state.tabs@
                },
                _ => final(self).state.tabs@ == old(self).state.tabs@,
            },
    {
        let index: usize = match self.state.index_of(self.state.active) {
            Some(index) => index,
            None => return false,
        };
        let tell = self.state.note_eviction(index);
        if tell {
            self.shell.overlays.notify(Notice::ScrollbackLimitReached, now_ms, NOTICE_MS);
        }
        tell
    }
}

impl AppState {
    /// Notes that the eviction of the session at `index` has been told, where
    /// it is to be.
    fn note_eviction(&mut self, index: usize) -> (tell: bool)
        requires
            index < old(self).tabs@.len(),
        ensures
            final(self).active == old(self).active,
            match old(self).tabs@[index as int].session() {
                Some(session) => {
                    &&& tell == (!session.eviction_notice_shown && session.evicted_lines > 0)
                    &&& final(self).tabs@ == if tell {
                        old(self).tabs@.update(
                            index as int,
                            with_session(
                                old(self).tabs@[index as int],
                                SessionTab { eviction_notice_shown: true, ..session },
                            ),
                        )
                    } else {
                        old(self).tabs@
                    }
                },
                None => !tell && final(self).tabs@ == old(self).tabs@,
            },
    {
        let mut tell = false;
        if let TabContent::Session(session) = &mut self.tabs[index].content {
            if !session.eviction_notice_shown && session.evicted_lines > 0 {
                session.eviction_notice_shown = true;
                tell = true;
            }
        }
        proof {
            let before = old(self).tabs@;
            assert(self.tabs@ =~= before.update(index as int, self.tabs@[index as int]));
            if !tell {
                assert(self.tabs@ =~= before);
            }
        }
        tell
    }
}

/// How open documents are looked at.
#[derive(Clone, Copy, Debug, PartialEq, Eq, Structural)]
pub enum DocumentCheck {
    /// All of them, because the user has just come back.
    RevalidateAll,
    /// Those whose turn it is.
    Poll,
}

/// Idle windows look at open documents this often.
pub const DOCUMENT_POLL_REPAINT_MS: u64 = 750;

impl FesTermApp {
    /// How this frame looks at open documents, where any is open. `focused` is
    /// what the platform says about the window, where it says anything.
    pub fn check_open_documents(&mut self, any_open: bool, focused: Option<bool>) -> (check: Option<
        DocumentCheck,
    >)
        ensures
            ({
                let now = focused != Some(false);
                if !any_open {
                    check is None && *final(self) == *old(self)
                } else {
                    &&& check == Some(
                        if now && !old(self).shell.focus.window_was_focused {
                            DocumentCheck::RevalidateAll
                        } else {
                            DocumentCheck::Poll
                        },
                    )
                    &&& *final(self) == old(self).with_focus(
                        FocusState { window_was_focused: now, ..old(self).shell.focus },
                    )
                }
            }),
    {
        if !any_open {
            return None;
        }
        let now = match focused {
            Some(focused) => focused,
            None => true,
        };
        let check = if now && !self.shell.focus.window_was_focused {
            DocumentCheck::RevalidateAll
        } else {
            DocumentCheck::Poll
        };
        self.shell.focus.window_was_focused = now;
        Some(check)
    }

    /// The title of the native window. It is the same whatever the tabs hold.
    pub fn window_title() -> (title: String)
        ensures
            title@ == APPLICATION_TITLE@,
    {
        APPLICATION_TITLE.to_owned()
    }

    /// The title to set, where the native window has another one.
    pub fn update_window_title(current: &str) -> (title: Option<String>)
        ensures
            match title {
                Some(title) => current@ != APPLICATION_TITLE@ && title@ == APPLICATION_TITLE@,
                None => current@ == APPLICATION_TITLE@,
            },
    {
        if same_text(current, APPLICATION_TITLE) {
            None
        } else {
            Some(Self::window_title())
        }
    }
}

/// Keys never reach a terminal behind something that blocks it: while it is
/// drawn it takes keys only where it owned them when the frame began or the
/// question about its own clipboard read is just opening.
pub proof fn blocked_terminals_take_no_keys(app: FesTermApp, target: Option<TabId>)
    requires
        app.shell.overlays.blocking(),
    ensures
        !app.takes_keys(target, false),
{
}

/// Escape is taken exactly where something blocks the terminal, and then by what
/// is open; nothing that is closed gets it.
pub proof fn escape_goes_to_what_is_open(app: FesTermApp, pressed: bool)
    ensures
        ({
            let route = app.escape_goes_to(pressed);
            let overlays = app.shell.overlays;
            let asking = overlays.pending_close is Some || overlays.pending_paste is Some
                || overlays.pending_file_drop is Some || overlays.pending_settings_reset is Some
                || overlays.pending_document_close is Some || overlays.pending_quit is Some;
            &&& route.confirmation <==> pressed && asking
            &&& route.port_forwards <==> pressed && overlays.port_forward_manager is Some
            &&& route.file_picker <==> pressed && overlays.markdown_file_picker
            &&& route.about <==> pressed && overlays.about_open
            &&& route.consumed <==> route.confirmation || route.port_forwards || route.file_picker
                || route.about
        }),
{
}

/// Focus mode ends exactly where no session is in front, and nothing else
/// changes.
pub proof fn focus_mode_ends_without_a_session(app: FesTermApp)
    ensures
        ({
            let after = app.focus_mode_settled();
            &&& after.shell.focus.focus_mode <==> app.shell.focus.focus_mode
                && app.state.active_session() is Some
            &&& after == app.with_focus(
                FocusState { focus_mode: after.shell.focus.focus_mode, ..app.shell.focus },
            )
        }),
{
}

/// A terminal takes keys exactly where they were meant for it and it still owns
/// them; a terminal that owned the keyboard when the frame began, with nothing
/// changed since, takes them.
pub proof fn owned_keys_reach_the_terminal(app: FesTermApp, frame: u64)
    ensures
        app.owns_input() ==> app.input_target(frame) == Some(app.state.active) && app.takes_keys(
            app.input_target(frame),
            false,
        ),
        app.input_target(frame) is Some ==> app.input_target(frame) == Some(app.state.active) && (
        app.owns_input() || app.confirmation_opening(frame)),
        forall|target: Option<TabId>, opening: bool| #[trigger]
            app.takes_keys(target, opening) ==> {
                &&& target == Some(app.state.active)
                &&& !app.shell.focus.palette_open
                &&& !app.shell.focus.inspector_open
                &&& app.shell.focus.rename_restore_tab is None
                &&& !app.shell.overlays.blocking() || opening
            },
{
}

/// Text that reached the terminal while a paste waited for its answer drops that
/// paste: it is never sent afterwards. Otherwise the question stays as it is.
pub proof fn other_text_drops_the_waiting_paste(app: FesTermApp, was_pending: bool, arrived: bool)
    ensures
        ({
            let (after, effects) = app.after_other_paste(was_pending, arrived);
            let pending = app.shell.overlays.pending_paste;
            &&& was_pending && arrived ==> after.shell.overlays.pending_paste is None
            &&& !(was_pending && arrived) ==> after == app && effects.len() == 0
            &&& was_pending && arrived && pending is Some ==> effects == app.paste_cancelled(
                pending->Some_0,
            )
            &&& was_pending && arrived && pending is None ==> effects.len() == 0
            &&& after.state == app.state
            &&& forall|i: int| 0 <= i < effects.len() ==> (#[trigger] effects[i]) !is DeliverPaste
        }),
{
}

/// A link that is a web address is opened as it reads and nothing else happens;
/// any other is opened nowhere, and that is said.
pub proof fn only_web_addresses_are_opened(app: FesTermApp, target: Option<String>, now_ms: u64)
    ensures
        ({
            let (after, effect) = app.link_followed(target, now_ms);
            &&& target is Some ==> after == app && effect == Effect::Dispatch(
                AppCommand::OpenExternalLink(target->Some_0),
            )
            &&& target is None ==> effect == Effect::Repaint
                && after.shell.overlays.transient_notice is Some
                && after.shell.overlays.transient_notice->Some_0.notice == Notice::InvalidLink
                && after.shell.overlays.transient_notice->Some_0.shown_at_ms == now_ms
                && after.state == app.state
        }),
{
}

/// A change of preferences goes to the tabs and is written back, whatever it is
/// about; only bindings that do not work are neither, and that is said.
pub proof fn preferences_are_written_back(
    app: FesTermApp,
    error: Option<String>,
    documents: Seq<OpenDocument>,
    now_ms: u64,
)
    ensures
        ({
            let effects = |command: ScreenCommand|
                app.screen_outcome(command, documents, now_ms).1;
            let kept = |command: ScreenCommand|
                {
                    &&& app.screen_outcome(command, documents, now_ms).0 == app
                    &&& effects(command).contains(Effect::PersistInterfaceSettings)
                    &&& effects(command).len() > 0
                    &&& effects(command)[0] == Effect::DispatchScreenCommand
                };
            let bound = ScreenCommand::SetKeyboardBindings(error);
            let notice = app.screen_outcome(
                bound,
                documents,
                now_ms,
            ).0.shell.overlays.transient_notice;
            &&& kept(ScreenCommand::ChangePreference)
            &&& kept(ScreenCommand::ChangeTypography)
            &&& kept(ScreenCommand::SetTerminalFont)
            &&& kept(ScreenCommand::ToggleRestoreWorkspace)
            &&& effects(ScreenCommand::ChangeTypography).contains(Effect::ApplyTerminalFontPolicy)
            &&& effects(ScreenCommand::SetTerminalFont).contains(Effect::ReinstallTerminalFont)
            &&& error is None ==> kept(bound) && effects(bound).contains(Effect::UpdateNativeMenu)
            &&& error is Some ==> effects(bound).len() == 0 && notice is Some
                && notice->Some_0.notice == Notice::KeyboardBindingsInvalid(error->Some_0)
            &&& effects(ScreenCommand::ToggleRestoreWorkspace).contains(Effect::ClearSavedWorkspace)
                <==> app.shell.documents.settings.restore_workspace
            &&& !effects(ScreenCommand::ChangePreference).contains(Effect::ClearSavedWorkspace)
        }),
{
    let effects = |command: ScreenCommand| app.screen_outcome(command, documents, now_ms).1;
    assert(effects(ScreenCommand::ChangePreference)[1] == Effect::PersistInterfaceSettings);
    assert(effects(ScreenCommand::ChangeTypography)[1] == Effect::ApplyTerminalFontPolicy);
    assert(effects(ScreenCommand::ChangeTypography)[2] == Effect::PersistInterfaceSettings);
    assert(effects(ScreenCommand::SetTerminalFont)[1] == Effect::ReinstallTerminalFont);
    assert(effects(ScreenCommand::SetTerminalFont)[2] == Effect::PersistInterfaceSettings);
    assert(effects(ScreenCommand::ToggleRestoreWorkspace)[1] == Effect::PersistInterfaceSettings);
    if app.shell.documents.settings.restore_workspace {
        assert(effects(ScreenCommand::ToggleRestoreWorkspace)[2] == Effect::ClearSavedWorkspace);
    }
    if error is None {
        let bound = ScreenCommand::SetKeyboardBindings(error);
        assert(effects(bound)[1] == Effect::PersistInterfaceSettings);
        assert(effects(bound)[2] == Effect::UpdateNativeMenu);
    }
}

/// A decision about a host key reaches the session it is about, unchanged. The
/// key is remembered exactly where that was decided, for that session, and before
/// the prompt that shows it goes away.
pub proof fn host_keys_are_remembered_where_decided(
    app: FesTermApp,
    tab: TabId,
    decision: HostKeyTrustDecision,
    documents: Seq<OpenDocument>,
    now_ms: u64,
)
    ensures
        ({
            let (after, effects) = app.screen_outcome(
                ScreenCommand::ResolveHostKeyTrust { tab, decision },
                documents,
                now_ms,
            );
            &&& after == app
            &&& effects.len() > 0
            &&& effects.last() == Effect::Dispatch(
                AppCommand::ResolveHostKeyTrust { tab, decision },
            )
            &&& decision == HostKeyTrustDecision::AcceptAndPersist ==> effects.len() == 2
                && effects[0] == Effect::PersistKnownHostTrust(tab)
            &&& decision != HostKeyTrustDecision::AcceptAndPersist ==> effects.len() == 1
        }),
{
}

/// What a tab's own surface asks for happens as it was asked: the tab it names is
/// closed or asked about, the file it names is opened, settings are reset or
/// asked about, and anything else goes to the tabs.
pub proof fn surfaces_get_what_they_ask_for(
    app: FesTermApp,
    id: TabId,
    path: String,
    replacing: Option<TabId>,
    documents: Seq<OpenDocument>,
    now_ms: u64,
)
    ensures
        ({
            let outcome = |command: ScreenCommand| app.screen_outcome(command, documents, now_ms);
            let (asked, effect) = app.tab_close_outcome(id, documents);
            let (closing, closed) = outcome(ScreenCommand::CloseTab(id));
            let (reset, nothing) = outcome(
                ScreenCommand::ResetInterfaceSettings { at_defaults: false },
            );
            &&& closing == asked
            &&& effect is Some ==> closed == seq![effect->Some_0]
            &&& effect is None ==> closed.len() == 0
            &&& outcome(ScreenCommand::OpenLocalMarkdownFile { path, replacing }) == (
                app,
                seq![Effect::Dispatch(AppCommand::OpenLocalMarkdownFile { path, replacing })],
            )
            &&& outcome(ScreenCommand::ResetInterfaceSettings { at_defaults: true }) == (
                app,
                seq![Effect::Dispatch(AppCommand::ResetInterfaceSettings)],
            )
            &&& nothing.len() == 0
            &&& reset.shell.overlays.pending_settings_reset is Some
            &&& !reset.shell.focus.palette_open
            &&& reset.state == app.state
            &&& reset.shell.documents == app.shell.documents
            &&& outcome(ScreenCommand::Other) == (app, seq![Effect::DispatchScreenCommand])
            &&& outcome(ScreenCommand::OpenMarkdownWorkspace) == app.picker_opened()
        }),
{
}

/// The overlay of a session that is not running is about the session in front:
/// reconnecting goes there, and looking into it opens the inspector without
/// closing one that is open.
pub proof fn overlays_are_about_the_session_in_front(app: FesTermApp)
    ensures
        app.overlay_outcome(OverlayAction::Reconnect) == (
            app,
            seq![Effect::Dispatch(AppCommand::ReconnectSession(app.state.active))],
        ),
        ({
            let (after, effects) = app.overlay_outcome(OverlayAction::OpenDiagnostics);
            &&& after.shell.focus.inspector_restore_focus is None
            &&& after.state == app.state
            &&& app.shell.focus.inspector_open ==> effects.len() == 0
            &&& !app.shell.focus.inspector_open ==> effects == seq![
                Effect::Dispatch(AppCommand::ToggleSessionInspector),
            ]
        }),
{
}

/// Tabs that changed ask for a save exactly where workspaces are restored, once;
/// a request that is still open stays.
pub proof fn changed_tabs_ask_for_a_save(app: FesTermApp)
    ensures
        ({
            let after = app.save_asked_for();
            let before = app.shell.requests;
            &&& after.shell.requests.save_workspace <==> before.save_workspace || (
            before.workspace_dirty && app.shell.documents.settings.restore_workspace)
            &&& !after.shell.requests.workspace_dirty
            &&& after.save_asked_for() == after
            &&& after.state == app.state
            &&& after.shell.requests.open_window == before.open_window
            &&& after.shell.requests.move_tab == before.move_tab
            &&& after.shell.documents == app.shell.documents
            &&& after.shell.overlays == app.shell.overlays
            &&& after.shell.focus == app.shell.focus
        }),
{
}

/// Dropped history is told exactly where the session in front has dropped some
/// and nobody has been told.
pub proof fn dropped_history_is_told_once(app: FesTermApp, session: SessionTab)
    requires
        app.state.active_session() == Some(session),
    ensures
        app.eviction_to_tell() <==> session.evicted_lines > 0 && !session.eviction_notice_shown,
{
}

} // verus!
