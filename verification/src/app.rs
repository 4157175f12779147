//! One window of the application: its tabs, what stands in front of them, and
//! who owns the keyboard.
use std::sync::Arc;

use vstd::prelude::*;

use crate::configuration::{
    Configuration, ConfigurationStartupStatus, ConfigurationStatus, InterfaceSettings, Workspace,
};
use crate::credentials::{SecretStoreError, StorageFeedback};
use crate::overlays::OverlayState;
use crate::shortcuts::Platform;
use crate::state::{AppState, Tab, TabContent, TabId};
#[allow(unused_imports)]
use crate::state::{distinct, position, position_is_first, session_of, tab_of, SessionTab};

verus! {

/// Whether a window is the first one, which stands for the whole application,
/// or one of the others.
#[derive(Clone, Copy, Debug, PartialEq, Eq, Structural)]
pub enum WindowRole {
    Primary,
    Secondary,
}

/// The request that an unanswered clipboard read belongs to.
#[derive(Clone, Copy, Debug, PartialEq, Eq, Structural)]
pub struct ClipboardPasteOrigin {
    pub token: u64,
    pub tab: TabId,
    pub generation: u64,
    pub ownership_epoch: u64,
}

/// A tab that is to change windows.
#[derive(Clone, Copy, Debug, PartialEq, Eq, Structural)]
pub struct TabMoveRequest {
    pub moved: TabId,
    /// The viewport it was dropped on; none means outside every window.
    pub target: Option<u64>,
    /// The tab of the destination that it goes in front of.
    pub before: Option<TabId>,
}

/// The document in use, and what a window still has to do about it.
#[derive(Debug)]
pub struct DocumentState {
    /// The document as it is on disk.
    pub configuration: Arc<Configuration>,
    /// The preferences in use. They change at once, and may be ahead of the
    /// document.
    pub settings: InterfaceSettings,
    pub status: ConfigurationStatus,
    /// A document that this window has just put on disk.
    pub pending_broadcast: Option<Arc<Configuration>>,
    /// The workspace whose other windows are still to be opened.
    pub pending_restored: Option<Arc<Workspace>>,
}

/// Native secure storage, as far as it could be opened.
#[derive(Clone, Copy, Debug)]
pub struct CredentialState {
    pub store: Result<(), SecretStoreError>,
    pub feedback: Option<StorageFeedback>,
}

/// Which surface takes the keyboard, and where it goes back to.
#[derive(Clone, Copy, Debug, PartialEq, Eq, Structural)]
pub struct FocusState {
    pub palette_open: bool,
    pub inspector_open: bool,
    pub inspector_restore_focus: Option<u64>,
    pub rename_restore_focus: Option<u64>,
    pub rename_restore_tab: Option<TabId>,
    /// The clipboard read that has not been answered yet.
    pub clipboard_paste: Option<ClipboardPasteOrigin>,
    /// Changes whenever another surface takes over the keyboard.
    pub ownership_epoch: u64,
    pub focus_mode: bool,
    pub window_was_focused: bool,
}

/// How far closing the window or the application has got.
#[derive(Clone, Copy, Debug, PartialEq, Eq, Structural)]
pub struct ExitState {
    pub update_exit_requested: bool,
    pub update_restart_authorized: bool,
    pub quit_confirmed: bool,
    pub window_close_accepted: bool,
}

/// What a window asks of the application at the end of a pass.
#[derive(Clone, Copy, Debug, PartialEq, Eq, Structural)]
pub struct WindowRequests {
    pub open_window: bool,
    pub move_tab: Option<TabMoveRequest>,
    pub workspace_dirty: bool,
    pub save_workspace: bool,
}

/// Everything about a window besides its tabs.
#[derive(Debug)]
pub struct Shell {
    pub role: WindowRole,
    pub native_smoke: bool,
    /// The tab that a smoke run drives.
    pub primary_tab: Option<TabId>,
    pub documents: DocumentState,
    pub credentials: CredentialState,
    pub focus: FocusState,
    pub overlays: OverlayState,
    pub exit: ExitState,
    pub requests: WindowRequests,
}

impl FocusState {
    /// No surface but the tab itself takes the keyboard.
    pub open spec fn fresh() -> Self {
        FocusState {
            palette_open: false,
            inspector_open: false,
            inspector_restore_focus: None,
            rename_restore_focus: None,
            rename_restore_tab: None,
            clipboard_paste: None,
            ownership_epoch: 0,
            focus_mode: false,
            window_was_focused: true,
        }
    }
}

impl ExitState {
    /// Nobody has asked to leave.
    pub open spec fn fresh() -> Self {
        ExitState {
            update_exit_requested: false,
            update_restart_authorized: false,
            quit_confirmed: false,
            window_close_accepted: false,
        }
    }

    /// The window's close has been accepted.
    pub open spec fn leaving(self) -> bool {
        self.window_close_accepted || self.quit_confirmed
    }
}

impl WindowRequests {
    /// Nothing is asked for.
    pub open spec fn fresh() -> Self {
        WindowRequests {
            open_window: false,
            move_tab: None,
            workspace_dirty: false,
            save_workspace: false,
        }
    }
}

impl Shell {
    /// A shell in which nothing has happened yet.
    pub open spec fn fresh(
        role: WindowRole,
        configuration: Arc<Configuration>,
        status: ConfigurationStatus,
        store: Result<(), SecretStoreError>,
    ) -> Self {
        Shell {
            role,
            native_smoke: false,
            primary_tab: None,
            documents: DocumentState {
                settings: configuration.settings,
                configuration,
                status,
                pending_broadcast: None,
                pending_restored: None,
            },
            credentials: CredentialState { store, feedback: None },
            focus: FocusState::fresh(),
            overlays: OverlayState::clear(),
            exit: ExitState::fresh(),
            requests: WindowRequests::fresh(),
        }
    }

    pub fn new(
        role: WindowRole,
        configuration: Arc<Configuration>,
        status: ConfigurationStatus,
        store: Result<(), SecretStoreError>,
    ) -> (shell: Self)
        ensures
            shell == Self::fresh(role, configuration, status, store),
    {
        Shell {
            role,
            native_smoke: false,
            primary_tab: None,
            documents: DocumentState {
                settings: configuration.settings,
                configuration,
                status,
                pending_broadcast: None,
                pending_restored: None,
            },
            credentials: CredentialState { store, feedback: None },
            focus: FocusState {
                palette_open: false,
                inspector_open: false,
                inspector_restore_focus: None,
                rename_restore_focus: None,
                rename_restore_tab: None,
                clipboard_paste: None,
                ownership_epoch: 0,
                focus_mode: false,
                window_was_focused: true,
            },
            overlays: OverlayState::new(),
            exit: ExitState {
                update_exit_requested: false,
                update_restart_authorized: false,
                quit_confirmed: false,
                window_close_accepted: false,
            },
            requests: WindowRequests {
                open_window: false,
                move_tab: None,
                workspace_dirty: false,
                save_workspace: false,
            },
        }
    }
}

/// One window.
#[derive(Debug)]
pub struct FesTermApp {
    pub state: AppState,
    pub shell: Shell,
}

/// What the keyboard's bindings are resolved against.
#[derive(Clone, Copy, Debug, PartialEq, Eq, Structural)]
pub struct ShortcutContext {
    pub blocked: bool,
    pub palette_open: bool,
    pub terminal_input: bool,
    pub markdown_viewer: bool,
    pub open_markdown: bool,
    pub port_forward_available: bool,
    pub tab_count: usize,
}

/// What a recorded key press was typed into.
#[derive(Clone, Copy, Debug, PartialEq, Eq, Structural)]
pub enum InputFocus {
    Modal,
    ChipRename,
    Palette,
    Inspector,
    TerminalSearch,
    AuthenticationWidget,
    Terminal,
}

impl FesTermApp {
    /// The window with something else in front of it.
    pub open spec fn with_overlays(self, overlays: OverlayState) -> Self {
        FesTermApp { shell: Shell { overlays, ..self.shell }, ..self }
    }

    /// The window with the keyboard elsewhere.
    pub open spec fn with_focus(self, focus: FocusState) -> Self {
        FesTermApp { shell: Shell { focus, ..self.shell }, ..self }
    }

    /// The window further on its way out.
    pub open spec fn with_exit(self, exit: ExitState) -> Self {
        FesTermApp { shell: Shell { exit, ..self.shell }, ..self }
    }

    /// The window with its palette closed.
    pub open spec fn palette_closed(self) -> Self {
        self.with_focus(FocusState { palette_open: false, ..self.shell.focus })
    }

    /// Builds the first window. A workspace is restored where the document
    /// holds one and restoring is switched on; otherwise a smoke run starts on
    /// its own session, and everybody else on the launcher. `restored` are the
    /// tabs of the workspace's first window and `focused` the one in front;
    /// `smoke` is the session of a smoke run; `launcher` is a fresh identifier.
    pub fn with_configuration(
        configuration: Arc<Configuration>,
        secret_store: Result<(), SecretStoreError>,
        restored: Vec<Tab>,
        focused: Option<TabId>,
        smoke: Option<Tab>,
        launcher: TabId,
    ) -> (app: Self)
        requires
            distinct(restored@),
        ensures
            app.state.wf(),
            app.state.tabs@.len() > 0,
            ({
                let kept = configuration.at_startup();
                let restores = kept.workspace is Some && restored@.len() > 0;
                let shell = Shell::fresh(
                    WindowRole::Primary,
                    app.shell.documents.configuration,
                    ConfigurationStatus::Startup(ConfigurationStartupStatus::Missing),
                    secret_store,
                );
                &&& *app.shell.documents.configuration == kept
                &&& app.shell == (Shell {
                    native_smoke: smoke is Some,
                    primary_tab: if restores || smoke is None {
                        None
                    } else {
                        Some(smoke->Some_0.id)
                    },
                    documents: DocumentState {
                        pending_restored: kept.workspace,
                        ..shell.documents
                    },
                    ..shell
                })
                &&& if restores {
                    &&& app.state.tabs@ == restored@
                    &&& app.state.active == match focused {
                        Some(id) => if position(restored@, id) is Some {
                            id
                        } else {
                            restored@[0].id
                        },
                        None => restored@[0].id,
                    }
                } else {
                    match smoke {
                        Some(tab) => app.state.tabs@ == seq![tab] && app.state.active == tab.id,
                        None => {
                            &&& app.state.tabs@ == seq![Tab::launcher(launcher)]
                            &&& app.state.active == launcher
                        },
                    }
                }
            }),
    {
        let kept = if configuration.settings.restore_workspace {
            configuration
        } else {
            Arc::new(configuration.without_workspace())
        };
        let workspace = match &kept.workspace {
            Some(workspace) => Some(workspace.clone()),
            None => None,
        };
        let mut shell = Shell::new(
            WindowRole::Primary,
            kept,
            ConfigurationStatus::Startup(ConfigurationStartupStatus::Missing),
            secret_store,
        );
        shell.native_smoke = smoke.is_some();
        let restores = workspace.is_some() && restored.len() > 0;
        shell.documents.pending_restored = workspace;
        let state = if restores {
            let first = restored[0].id;
            let mut state = AppState { tabs: restored, active: first };
            if let Some(id) = focused {
                if state.index_of(id).is_some() {
                    state.active = id;
                }
            }
            proof {
                position_is_first(state.tabs@, first);
            }
            state
        } else {
            match smoke {
                Some(tab) => {
                    let id = tab.id;
                    shell.primary_tab = Some(id);
                    let mut tabs = Vec::new();
                    tabs.push(tab);
                    AppState { tabs, active: id }
                },
                None => {
                    let mut tabs = Vec::new();
                    tabs.push(
                        Tab { id: launcher, restorable: true, content: TabContent::Launcher },
                    );
                    AppState { tabs, active: launcher }
                },
            }
        };
        proof {
            position_is_first(state.tabs@, state.active);
        }
        FesTermApp { state, shell }
    }

    /// Takes over what starting the process found out about its configuration.
    pub fn with_startup_status(self, status: ConfigurationStartupStatus) -> (app: Self)
        ensures
            app == (FesTermApp {
                shell: Shell {
                    documents: DocumentState {
                        status: ConfigurationStatus::Startup(status),
                        ..self.shell.documents
                    },
                    ..self.shell
                },
                ..self
            }),
    {
        let mut app = self;
        app.shell.documents.status = ConfigurationStatus::Startup(status);
        app
    }

    /// Builds another window on the document and the services of the first. It
    /// starts on the launcher and restores nothing.
    pub fn secondary_window(
        configuration: &Configuration,
        configuration_status: ConfigurationStatus,
        secret_store: Result<(), SecretStoreError>,
        launcher: TabId,
    ) -> (app: Self)
        ensures
            app.state.tabs@ == seq![Tab::launcher(launcher)],
            app.state.active == launcher,
            app.state.wf(),
            app.shell == Shell::fresh(
                WindowRole::Secondary,
                Arc::new(Configuration { workspace: None, ..*configuration }),
                configuration_status,
                secret_store,
            ),
    {
        let shell = Shell::new(
            WindowRole::Secondary,
            Arc::new(configuration.without_workspace()),
            configuration_status,
            secret_store,
        );
        let mut tabs = Vec::new();
        tabs.push(Tab { id: launcher, restorable: true, content: TabContent::Launcher });
        proof {
            position_is_first(tabs@, launcher);
        }
        FesTermApp { state: AppState { tabs, active: launcher }, shell }
    }

    /// Takes the document that this window has just put on disk, for the other
    /// windows.
    pub fn take_configuration_broadcast(&mut self) -> (configuration: Option<Arc<Configuration>>)
        ensures
            configuration == old(self).shell.documents.pending_broadcast,
            *final(self) == (FesTermApp {
                shell: Shell {
                    documents: DocumentState {
                        pending_broadcast: None,
                        ..old(self).shell.documents
                    },
                    ..old(self).shell
                },
                ..*old(self)
            }),
    {
        self.shell.documents.pending_broadcast.take()
    }

    /// Adopts the document that another window has put on disk. Nothing else
    /// about the window changes, and the document is not handed on.
    pub fn adopt_broadcast_configuration(&mut self, configuration: Arc<Configuration>)
        ensures
            *final(self) == (FesTermApp {
                shell: Shell {
                    documents: DocumentState {
                        configuration,
                        settings: configuration.settings,
                        ..old(self).shell.documents
                    },
                    ..old(self).shell
                },
                ..*old(self)
            }),
    {
        self.shell.documents.settings = configuration.settings;
        self.shell.documents.configuration = configuration;
    }

    /// Takes the workspace whose other windows are still to be opened.
    pub fn take_restored_windows(&mut self) -> (workspace: Option<Arc<Workspace>>)
        ensures
            workspace == old(self).shell.documents.pending_restored,
            *final(self) == (FesTermApp {
                shell: Shell {
                    documents: DocumentState {
                        pending_restored: None,
                        ..old(self).shell.documents
                    },
                    ..old(self).shell
                },
                ..*old(self)
            }),
    {
        self.shell.documents.pending_restored.take()
    }

    /// Takes this window's request to move one of its tabs to another window.
    pub fn take_tab_move_request(&mut self) -> (request: Option<TabMoveRequest>)
        ensures
            request == old(self).shell.requests.move_tab,
            *final(self) == (FesTermApp {
                shell: Shell {
                    requests: WindowRequests { move_tab: None, ..old(self).shell.requests },
                    ..old(self).shell
                },
                ..*old(self)
            }),
    {
        self.shell.requests.move_tab.take()
    }

    /// Takes this window's request for another window.
    pub fn take_window_open_request(&mut self) -> (requested: bool)
        ensures
            requested == old(self).shell.requests.open_window,
            *final(self) == (FesTermApp {
                shell: Shell {
                    requests: WindowRequests { open_window: false, ..old(self).shell.requests },
                    ..old(self).shell
                },
                ..*old(self)
            }),
    {
        let requested = self.shell.requests.open_window;
        self.shell.requests.open_window = false;
        requested
    }

    /// Takes this window's request to save the workspace.
    pub fn take_workspace_save_request(&mut self) -> (requested: bool)
        ensures
            requested == old(self).shell.requests.save_workspace,
            *final(self) == (FesTermApp {
                shell: Shell {
                    requests: WindowRequests { save_workspace: false, ..old(self).shell.requests },
                    ..old(self).shell
                },
                ..*old(self)
            }),
    {
        let requested = self.shell.requests.save_workspace;
        self.shell.requests.save_workspace = false;
        requested
    }

    /// Tells whether workspaces are restored, and therefore saved.
    pub fn restores_workspace(&self) -> (result: bool)
        ensures
            result == self.shell.documents.settings.restore_workspace,
    {
        self.shell.documents.settings.restore_workspace
    }

    /// Tells whether this window's close has been accepted. That matters for
    /// windows other than the first, whose close is the end of the application.
    pub fn window_close_accepted(&self) -> (accepted: bool)
        ensures
            accepted == self.shell.exit.leaving(),
    {
        self.shell.exit.window_close_accepted || self.shell.exit.quit_confirmed
    }

    /// The terminal in front takes keys: no prompt, search, palette, inspector
    /// or rename is in its way.
    pub open spec fn surface_owns_input(self) -> bool {
        &&& match self.state.active_session() {
            Some(session) => !session.search_open && session.host_key_prompt is None
                && !session.password_prompt,
            None => false,
        }
        &&& !self.shell.focus.palette_open
        &&& !self.shell.focus.inspector_open
        &&& self.shell.focus.rename_restore_tab is None
    }

    /// The terminal in front takes keys and nothing that blocks it is open.
    pub open spec fn owns_input(self) -> bool {
        self.surface_owns_input() && !self.shell.overlays.blocking()
    }

    pub fn terminal_surface_owns_input(&self) -> (result: bool)
        ensures
            result == self.surface_owns_input(),
    {
        let free = match self.state.session_tab(self.state.active) {
            Some(session) => !session.search_open && session.host_key_prompt.is_none()
                && !session.password_prompt,
            None => false,
        };
        free && !self.shell.focus.palette_open && !self.shell.focus.inspector_open
            && self.shell.focus.rename_restore_tab.is_none()
    }

    pub fn terminal_owns_input(&self) -> (result: bool)
        ensures
            result == self.owns_input(),
    {
        self.terminal_surface_owns_input() && !self.shell.overlays.blocks_terminal_input()
    }

    /// The confirmation of a clipboard read opened in this very frame.
    pub open spec fn confirmation_opening(self, frame: u64) -> bool {
        match self.shell.overlays.pending_paste {
            Some(pending) => pending.clipboard_token is Some && pending.opened_frame == frame,
            None => false,
        }
    }

    pub fn clipboard_confirmation_opening(&self, frame: u64) -> (result: bool)
        ensures
            result == self.confirmation_opening(frame),
    {
        match &self.shell.overlays.pending_paste {
            Some(pending) => pending.clipboard_token.is_some() && pending.opened_frame == frame,
            None => false,
        }
    }

    pub open spec fn shortcuts_apply_to(
        self,
        platform: Platform,
        frame: u64,
        composing: bool,
        before_opening_confirmation: bool,
    ) -> ShortcutContext {
        let blocked = if before_opening_confirmation && self.confirmation_opening(frame) {
            self.shell.overlays.blocking_except_paste()
        } else {
            self.shell.overlays.blocking()
        };
        ShortcutContext {
            blocked: blocked || composing,
            palette_open: self.shell.focus.palette_open,
            terminal_input: self.surface_owns_input(),
            markdown_viewer: self.state.active_tab() is Some
                && self.state.active_tab()->Some_0.content is MarkdownViewer,
            open_markdown: platform == Platform::MacOs || self.state.active_session() is None,
            port_forward_available: self.state.active_session() is Some
                && self.state.active_session()->Some_0.live_port_forwarding,
            tab_count: self.state.tabs@.len() as usize,
        }
    }

    /// What the keyboard's bindings are resolved against now. `composing` says
    /// that an input method holds the keys. With `before_opening_confirmation`
    /// a paste confirmation of this very frame does not count yet.
    pub fn shortcut_context(
        &self,
        platform: Platform,
        frame: u64,
        composing: bool,
        before_opening_confirmation: bool,
    ) -> (scope: ShortcutContext)
        ensures
            scope == self.shortcuts_apply_to(
                platform,
                frame,
                composing,
                before_opening_confirmation,
            ),
    {
        let blocked = if before_opening_confirmation && self.clipboard_confirmation_opening(frame) {
            self.shell.overlays.blocks_terminal_input_except_paste()
        } else {
            self.shell.overlays.blocks_terminal_input()
        };
        let markdown_viewer = match self.state.tab(self.state.active) {
            Some(tab) => matches!(tab.content, TabContent::MarkdownViewer(_)),
            None => false,
        };
        let session = self.state.session_tab(self.state.active);
        let port_forward_available = match session {
            Some(session) => session.live_port_forwarding,
            None => false,
        };
        ShortcutContext {
            blocked: blocked || composing,
            palette_open: self.shell.focus.palette_open,
            terminal_input: self.terminal_surface_owns_input(),
            markdown_viewer,
            open_markdown: matches!(platform, Platform::MacOs) || session.is_none(),
            port_forward_available,
            tab_count: self.state.tabs.len(),
        }
    }

    /// What keys typed now go into, for a tab that holds a session.
    pub open spec fn input_focus(self) -> Option<InputFocus> {
        match self.state.active_session() {
            Some(session) => Some(
                if self.shell.overlays.blocking() {
                    InputFocus::Modal
                } else if self.shell.focus.rename_restore_tab is Some {
                    InputFocus::ChipRename
                } else if self.shell.focus.palette_open {
                    InputFocus::Palette
                } else if self.shell.focus.inspector_open {
                    InputFocus::Inspector
                } else if session.search_open {
                    InputFocus::TerminalSearch
                } else if session.host_key_prompt is Some || session.password_prompt {
                    InputFocus::AuthenticationWidget
                } else {
                    InputFocus::Terminal
                },
            ),
            None => None,
        }
    }

    /// The session that input is recorded for, with its generation and what
    /// keys typed now go into.
    pub fn associate_input_recorder(&self) -> (target: Option<(TabId, u64, InputFocus)>)
        ensures
            target == match self.state.active_session() {
                Some(session) => Some(
                    (
                        self.state.active,
                        session.lifecycle_generation,
                        self.input_focus()->Some_0,
                    ),
                ),
                None => None,
            },
    {
        match self.state.session_tab(self.state.active) {
            Some(session) => {
                let focus = if self.shell.overlays.blocks_terminal_input() {
                    InputFocus::Modal
                } else if self.shell.focus.rename_restore_tab.is_some() {
                    InputFocus::ChipRename
                } else if self.shell.focus.palette_open {
                    InputFocus::Palette
                } else if self.shell.focus.inspector_open {
                    InputFocus::Inspector
                } else if session.search_open {
                    InputFocus::TerminalSearch
                } else if session.host_key_prompt.is_some() || session.password_prompt {
                    InputFocus::AuthenticationWidget
                } else {
                    InputFocus::Terminal
                };
                Some((self.state.active, session.lifecycle_generation, focus))
            },
            None => None,
        }
    }
}

/// The terminal owns the keyboard exactly where a recorded key press would be
/// noted as typed into it.
pub proof fn recorded_focus_agrees_with_ownership(app: FesTermApp)
    ensures
        app.owns_input() == (app.input_focus() == Some(InputFocus::Terminal)),
{
}

/// While anything blocks the terminal, no binding applies and the terminal
/// owns nothing.
pub proof fn blocking_overlays_block_everything(
    app: FesTermApp,
    platform: Platform,
    frame: u64,
    composing: bool,
)
    requires
        app.shell.overlays.blocking(),
    ensures
        !app.owns_input(),
        app.shortcuts_apply_to(platform, frame, composing, false).blocked,
{
}

/// With a session in front, and the control key as the main modifier, the
/// bindings of the document commands are matched against a surface on which none
/// of them applies: plain control letters stay with the program in the terminal.
pub proof fn terminals_keep_their_control_letters(
    app: FesTermApp,
    frame: u64,
    composing: bool,
    before_opening_confirmation: bool,
)
    requires
        app.state.active_session() is Some,
    ensures
        ({
            let scope = app.shortcuts_apply_to(
                Platform::Other,
                frame,
                composing,
                before_opening_confirmation,
            );
            !scope.markdown_viewer && !scope.open_markdown
        }),
{
}

/// Keys go to what is open, the frontmost first: to a dialog wherever one is
/// open, then to a chip that is renamed, the palette, the inspector, the find bar
/// and a prompt, and to the terminal only where none of them is.
pub proof fn keys_go_to_what_is_open(app: FesTermApp, session: SessionTab)
    requires
        app.state.active_session() == Some(session),
    ensures
        ({
            let focus = app.input_focus()->Some_0;
            let blocking = app.shell.overlays.blocking();
            let renaming = app.shell.focus.rename_restore_tab is Some;
            &&& app.input_focus() is Some
            &&& focus == InputFocus::Modal <==> blocking
            &&& focus == InputFocus::ChipRename <==> !blocking && renaming
            &&& focus == InputFocus::Palette ==> app.shell.focus.palette_open && !blocking
                && !renaming
            &&& focus == InputFocus::Inspector ==> app.shell.focus.inspector_open
                && !app.shell.focus.palette_open
            &&& focus == InputFocus::TerminalSearch ==> session.search_open
                && !app.shell.focus.inspector_open
            &&& focus == InputFocus::AuthenticationWidget ==> !session.search_open && (
            session.host_key_prompt is Some || session.password_prompt)
            &&& focus == InputFocus::Terminal <==> {
                &&& !blocking
                &&& !renaming
                &&& !app.shell.focus.palette_open
                &&& !app.shell.focus.inspector_open
                &&& !session.search_open
                &&& session.host_key_prompt is None
                &&& !session.password_prompt
            }
        }),
{
}

/// Without a session in front nothing is typed into a terminal.
pub proof fn other_tabs_take_no_terminal_input(app: FesTermApp)
    requires
        app.state.active_session() is None,
    ensures
        app.input_focus() is None,
        !app.owns_input(),
        !app.surface_owns_input(),
{
}

/// Bindings are matched against the window as it is: nothing applies while a
/// dialog is open or an input method holds the keys. A paste confirmation that
/// opened in this very frame does not count yet where it is asked for so, but
/// every other dialog does.
pub proof fn bindings_fit_the_window(
    app: FesTermApp,
    platform: Platform,
    frame: u64,
    composing: bool,
    before: bool,
)
    ensures
        ({
            let scope = app.shortcuts_apply_to(platform, frame, composing, before);
            let session = app.state.active_session();
            &&& composing ==> scope.blocked
            &&& app.shell.overlays.blocking_except_paste() ==> scope.blocked
            &&& !app.shell.overlays.blocking() && !composing ==> !scope.blocked
            &&& app.shell.overlays.pending_paste is Some && !scope.blocked ==> {
                &&& before
                &&& app.shell.overlays.pending_paste->Some_0.opened_frame == frame
                &&& app.shell.overlays.pending_paste->Some_0.clipboard_token is Some
            }
            &&& before && !composing && app.confirmation_opening(frame)
                && !app.shell.overlays.blocking_except_paste() ==> !scope.blocked
            &&& scope.palette_open == app.shell.focus.palette_open
            &&& scope.terminal_input ==> session is Some && !scope.palette_open
            &&& scope.terminal_input && !app.shell.overlays.blocking() <==> app.owns_input()
            &&& scope.markdown_viewer ==> session is None
            &&& scope.open_markdown <==> platform == Platform::MacOs || session is None
            &&& scope.port_forward_available ==> session is Some
            &&& session is Some ==> scope.port_forward_available
                == session->Some_0.live_port_forwarding
            &&& app.state.tabs@.len() <= usize::MAX ==> scope.tab_count == app.state.tabs@.len()
        }),
{
}

/// A window begins with nothing open, nothing asked for and nobody on the way
/// out, on the document it is given.
pub proof fn windows_begin_at_rest(
    role: WindowRole,
    configuration: Arc<Configuration>,
    status: ConfigurationStatus,
    store: Result<(), SecretStoreError>,
)
    ensures
        ({
            let shell = Shell::fresh(role, configuration, status, store);
            &&& shell.role == role
            &&& shell.documents.configuration == configuration
            &&& shell.documents.settings == configuration.settings
            &&& shell.documents.status == status
            &&& shell.documents.pending_broadcast is None
            &&& shell.documents.pending_restored is None
            &&& shell.credentials.store == store
            &&& shell.credentials.feedback is None
            &&& !shell.overlays.blocking()
            &&& !shell.exit.leaving()
            &&& !shell.exit.update_restart_authorized
            &&& !shell.requests.open_window
            &&& !shell.requests.save_workspace
            &&& shell.requests.move_tab is None
            &&& !shell.focus.palette_open
            &&& !shell.focus.inspector_open
            &&& !shell.focus.focus_mode
            &&& shell.focus.rename_restore_tab is None
            &&& shell.focus.clipboard_paste is None
            &&& !shell.native_smoke
        }),
{
}

/// A window leaves exactly where its own close was accepted or a quit confirmed.
pub proof fn windows_leave_when_told(exit: ExitState)
    ensures
        exit.leaving() <==> exit.window_close_accepted || exit.quit_confirmed,
{
}

} // verus!
