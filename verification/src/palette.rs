//! The command palette: which commands it offers, and what choosing one of them
//! leads to.
use vstd::prelude::*;

use crate::app::FesTermApp;
use crate::commands::one_or_none;
#[allow(unused_imports)]
use crate::commands::{at_most_one, dispatched};
use crate::confirmations::OpenDocument;
use crate::effects::{AppCommand, Effect, ZoomCommand};
use crate::shortcuts::{quick_action, KeyboardAction};
#[allow(unused_imports)]
use crate::shortcuts::quick_action_at;
use crate::state::{Destination, SessionTab, Tab, TabContent, TabId, Transport};
#[allow(unused_imports)]
use crate::state::{position, position_is_first, present_has_position};
use crate::text::push_decimal;
#[allow(unused_imports)]
use crate::text::{decimal, optional_text};

verus! {

pub const NEW_LAUNCHER_TAB: u64 = 1;

pub const START_LOCAL_SESSION: u64 = 3;

pub const CLOSE_ACTIVE_TAB: u64 = 5;

pub const TOGGLE_FOCUS_MODE: u64 = 6;

pub const ZOOM_IN: u64 = 7;

pub const ZOOM_OUT: u64 = 8;

pub const RESET_ZOOM: u64 = 9;

pub const RESET_TERMINAL: u64 = 11;

pub const CLEAR_TERMINAL_HISTORY: u64 = 12;

pub const COPY: u64 = 13;

pub const PASTE: u64 = 14;

pub const FIND_IN_TERMINAL: u64 = 15;

pub const PORT_FORWARD_MANAGER: u64 = 16;

pub const RELOAD_MARKDOWN: u64 = 18;

pub const TOGGLE_MARKDOWN_MODE: u64 = 19;

pub const FIND_IN_MARKDOWN: u64 = 20;

pub const TOGGLE_MARKDOWN_OUTLINE: u64 = 21;

pub const OPEN_SFTP_FILE_MANAGER: u64 = 22;

pub const NEW_WINDOW: u64 = 23;

/// Items for tabs start here, well past the commands.
pub const TAB_ACTIVATE_OFFSET: u64 = 4_294_967_296;

/// How the bound actions are written.
#[derive(Debug)]
pub struct BindingLabels {
    pub labels: Vec<(KeyboardAction, String)>,
}

/// The label of the first entry for `action`.
pub open spec fn label_of(labels: Seq<(KeyboardAction, String)>, action: KeyboardAction) -> Option<
    Seq<char>,
>
    decreases labels.len(),
{
    if labels.len() == 0 {
        None
    } else {
        match label_of(labels.drop_last(), action) {
            Some(label) => Some(label),
            None => if labels.last().0 == action {
                Some(labels.last().1@)
            } else {
                None
            },
        }
    }
}

impl BindingLabels {
    pub open spec fn text(self, action: KeyboardAction) -> Option<Seq<char>> {
        label_of(self.labels@, action)
    }

    /// How `action` is bound, if it is.
    pub fn label(&self, action: KeyboardAction) -> (label: Option<String>)
        ensures
            optional_text(label) == self.text(action),
    {
        let mut found: Option<String> = None;
        let mut i: usize = 0;
        while i < self.labels.len()
            invariant
                i <= self.labels@.len(),
                optional_text(found) == label_of(self.labels@.take(i as int), action),
            decreases self.labels@.len() - i,
        {
            proof {
                assert(self.labels@.take(i + 1).drop_last() =~= self.labels@.take(i as int));
            }
            if found.is_none() && self.labels[i].0 == action {
                found = Some(self.labels[i].1.clone());
            }
            i = i + 1;
        }
        assert(self.labels@.take(i as int) =~= self.labels@);
        found
    }
}

#[derive(Debug)]
pub struct PaletteItem {
    pub id: u64,
    pub label: String,
    pub hint: Option<String>,
    pub is_tab: bool,
    pub shortcut_label: Option<String>,
}

pub struct PaletteItemView {
    pub id: u64,
    pub label: Seq<char>,
    pub hint: Option<Seq<char>>,
    pub is_tab: bool,
    pub shortcut_label: Option<Seq<char>>,
}

impl View for PaletteItem {
    type V = PaletteItemView;

    open spec fn view(&self) -> PaletteItemView {
        PaletteItemView {
            id: self.id,
            label: self.label@,
            hint: optional_text(self.hint),
            is_tab: self.is_tab,
            shortcut_label: optional_text(self.shortcut_label),
        }
    }
}

/// The items as they read.
pub open spec fn read(items: Seq<PaletteItem>) -> Seq<PaletteItemView> {
    items.map_values(|item: PaletteItem| item@)
}

/// The item of a command.
pub open spec fn command_item(id: u64, label: Seq<char>, hint: Option<Seq<char>>) -> PaletteItemView {
    PaletteItemView { id, label, hint, is_tab: false, shortcut_label: None }
}

fn push_command(items: &mut Vec<PaletteItem>, id: u64, label: &str, hint: Option<String>)
    ensures
        read(final(items)@) == read(old(items)@).push(
            command_item(id, label@, optional_text(hint)),
        ),
{
    items.push(
        PaletteItem { id, label: label.to_owned(), hint, is_tab: false, shortcut_label: None },
    );
    assert(read(items@) =~= read(old(items)@).push(command_item(id, label@, optional_text(hint))));
}

impl TabContent {
    /// What closing a tab with this content is called.
    pub open spec fn close_text(self) -> Seq<char> {
        match self {
            TabContent::Launcher => "Close Launcher"@,
            TabContent::Settings => "Close Settings"@,
            TabContent::Profiles => "Close Profiles"@,
            TabContent::MarkdownViewer(_) => "Close Markdown Viewer"@,
            TabContent::TextEditor(_) => "Close Editor"@,
            _ => "Close Session…"@,
        }
    }

    pub fn close_label(&self) -> (label: &'static str)
        ensures
            label@ == self.close_text(),
    {
        match self {
            TabContent::Launcher => "Close Launcher",
            TabContent::Settings => "Close Settings",
            TabContent::Profiles => "Close Profiles",
            TabContent::MarkdownViewer(_) => "Close Markdown Viewer",
            TabContent::TextEditor(_) => "Close Editor",
            _ => "Close Session…",
        }
    }
}

impl Destination {
    /// What a tab that waits for authentication says, after `kind`.
    pub open spec fn waiting_text(self, kind: Seq<char>) -> Seq<char> {
        kind + " authentication required · "@ + self.host@ + ":"@ + decimal(self.port as nat)
    }

    pub fn waiting(&self, kind: &str) -> (text: String)
        ensures
            text@ == self.waiting_text(kind@),
    {
        let mut text = kind.to_owned();
        text.append(" authentication required · ");
        text.append(self.host.as_str());
        text.append(":");
        push_decimal(&mut text, self.port as u128);
        text
    }
}

impl SessionTab {
    /// What the palette says about a session besides its label.
    pub open spec fn palette_hint_text(self) -> Option<Seq<char>> {
        match self.dynamic_secondary {
            Some(text) => Some(text@),
            None => if self.terminal_title@.len() > 0 {
                Some(self.terminal_title@)
            } else {
                optional_text(self.launch_secondary)
            },
        }
    }

    pub fn palette_hint(&self) -> (hint: Option<String>)
        ensures
            optional_text(hint) == self.palette_hint_text(),
    {
        match &self.dynamic_secondary {
            Some(text) => Some(text.clone()),
            None => if !self.terminal_title.as_str().is_empty() {
                Some(self.terminal_title.clone())
            } else {
                match &self.launch_secondary {
                    Some(text) => Some(text.clone()),
                    None => None,
                }
            },
        }
    }
}

impl Tab {
    /// The label and hint of a tab in the palette.
    pub open spec fn palette_texts(self) -> (Seq<char>, Option<Seq<char>>) {
        match self.content {
            TabContent::Launcher => ("Launcher"@, None),
            TabContent::Settings => ("Settings"@, None),
            TabContent::Profiles => ("Profiles"@, None),
            TabContent::MarkdownViewer(tab) => (tab.title@, Some(tab.secondary@)),
            TabContent::TextEditor(tab) => (tab.title@, Some(tab.origin@)),
            TabContent::SshAuthenticationRequired(to) => (
                to.label@,
                Some(to.waiting_text("SSH"@)),
            ),
            TabContent::SftpAuthenticationRequired(to) => (
                to.label@,
                Some(to.waiting_text("SFTP"@)),
            ),
            TabContent::SftpFileManagerAuthenticationRequired(to) => (
                to.label@,
                Some(to.waiting_text("GUI SFTP"@)),
            ),
            TabContent::SftpFileManager(tab) => (tab.label@, Some("GUI SFTP file manager"@)),
            TabContent::Session(session) => (session.label@, session.palette_hint_text()),
        }
    }

    fn palette_label(&self) -> (texts: (String, Option<String>))
        ensures
            (texts.0@, optional_text(texts.1)) == self.palette_texts(),
    {
        match &self.content {
            TabContent::Launcher => ("Launcher".to_owned(), None),
            TabContent::Settings => ("Settings".to_owned(), None),
            TabContent::Profiles => ("Profiles".to_owned(), None),
            TabContent::MarkdownViewer(tab) => (tab.title.clone(), Some(tab.secondary.clone())),
            TabContent::TextEditor(tab) => (tab.title.clone(), Some(tab.origin.clone())),
            TabContent::SshAuthenticationRequired(to) => (to.label.clone(), Some(to.waiting("SSH"))),
            TabContent::SftpAuthenticationRequired(to) => (
                to.label.clone(),
                Some(to.waiting("SFTP")),
            ),
            TabContent::SftpFileManagerAuthenticationRequired(to) => (
                to.label.clone(),
                Some(to.waiting("GUI SFTP")),
            ),
            TabContent::SftpFileManager(tab) => (
                tab.label.clone(),
                Some("GUI SFTP file manager".to_owned()),
            ),
            TabContent::Session(session) => (session.label.clone(), session.palette_hint()),
        }
    }
}

/// The items for the first `n` tabs, in their order.
pub open spec fn tab_items(tabs: Seq<Tab>, bindings: BindingLabels, n: int) -> Seq<PaletteItemView>
    decreases n,
{
    if n <= 0 {
        Seq::empty()
    } else {
        let (label, hint) = tabs[n - 1].palette_texts();
        tab_items(tabs, bindings, n - 1).push(
            PaletteItemView {
                id: (TAB_ACTIVATE_OFFSET + tabs[n - 1].id.0) as u64,
                label,
                hint,
                is_tab: true,
                shortcut_label: match quick_action_at((n - 1) as nat) {
                    Some(action) => bindings.text(action),
                    None => None,
                },
            },
        )
    }
}

impl FesTermApp {
    /// The commands that are always offered first.
    pub open spec fn general_items(bindings: BindingLabels) -> Seq<PaletteItemView> {
        seq![
            command_item(
                NEW_LAUNCHER_TAB,
                "New Session…"@,
                bindings.text(KeyboardAction::NewSession),
            ),
            command_item(
                START_LOCAL_SESSION,
                "Start Local Shell"@,
                bindings.text(KeyboardAction::StartLocalShell),
            ),
            command_item(NEW_WINDOW, "New Window"@, bindings.text(KeyboardAction::NewWindow)),
        ]
    }

    /// The commands that a session in front offers.
    pub open spec fn session_items(self, session: SessionTab, bindings: BindingLabels) -> Seq<
        PaletteItemView,
    > {
        seq![
            command_item(
                TOGGLE_FOCUS_MODE,
                if self.shell.focus.focus_mode {
                    "Exit Focus Mode"@
                } else {
                    "Enter Focus Mode"@
                },
                bindings.text(KeyboardAction::ToggleFocusMode),
            ),
            command_item(ZOOM_IN, "Zoom In"@, bindings.text(KeyboardAction::ZoomIn)),
            command_item(ZOOM_OUT, "Zoom Out"@, bindings.text(KeyboardAction::ZoomOut)),
            command_item(RESET_ZOOM, "Reset Zoom"@, bindings.text(KeyboardAction::ZoomReset)),
            command_item(COPY, "Copy"@, bindings.text(KeyboardAction::Copy)),
            command_item(PASTE, "Paste"@, bindings.text(KeyboardAction::Paste)),
            command_item(
                FIND_IN_TERMINAL,
                "Find in Terminal…"@,
                bindings.text(KeyboardAction::Find),
            ),
        ] + (if session.live_port_forwarding {
            seq![
                command_item(
                    PORT_FORWARD_MANAGER,
                    if self.forwards_open_in_front() {
                        "Hide Port Forward Manager"@
                    } else {
                        "Manage Port Forwards…"@
                    },
                    bindings.text(KeyboardAction::PortForwardManager),
                ),
            ]
        } else {
            seq![]
        }) + seq![
            command_item(
                RESET_TERMINAL,
                "Reset Terminal"@,
                bindings.text(KeyboardAction::ResetTerminal),
            ),
            command_item(
                CLEAR_TERMINAL_HISTORY,
                "Clear Terminal"@,
                bindings.text(KeyboardAction::ClearTerminal),
            ),
        ] + (if session.transport is Ssh {
            seq![
                command_item(
                    OPEN_SFTP_FILE_MANAGER,
                    "Open SFTP"@,
                    Some("Open the GUI SFTP file manager for this SSH session"@),
                ),
            ]
        } else {
            seq![]
        })
    }

    /// The commands that a Markdown viewer in front offers.
    pub open spec fn viewer_items(bindings: BindingLabels) -> Seq<PaletteItemView> {
        seq![
            command_item(
                RELOAD_MARKDOWN,
                "Reload Markdown"@,
                bindings.text(KeyboardAction::MarkdownReload),
            ),
            command_item(
                TOGGLE_MARKDOWN_MODE,
                "Toggle Preview/Source"@,
                bindings.text(KeyboardAction::MarkdownPreviewSource),
            ),
            command_item(
                FIND_IN_MARKDOWN,
                "Find in Markdown…"@,
                bindings.text(KeyboardAction::MarkdownFind),
            ),
            command_item(
                TOGGLE_MARKDOWN_OUTLINE,
                "Toggle Markdown Outline"@,
                bindings.text(KeyboardAction::MarkdownOutline),
            ),
        ]
    }

    /// Every item of the palette, in its order.
    pub open spec fn palette(self, bindings: BindingLabels) -> Seq<PaletteItemView> {
        let front = self.state.active_tab()->Some_0;
        Self::general_items(bindings) + (match front.content {
            TabContent::Session(session) => self.session_items(session, bindings),
            TabContent::MarkdownViewer(_) => Self::viewer_items(bindings),
            _ => seq![],
        }) + seq![
            command_item(
                CLOSE_ACTIVE_TAB,
                front.content.close_text(),
                bindings.text(KeyboardAction::CloseActiveSurface),
            ),
        ] + tab_items(self.state.tabs@, bindings, self.state.tabs@.len() as int)
    }

    fn push_session_items(
        &self,
        session: &SessionTab,
        bindings: &BindingLabels,
        items: &mut Vec<PaletteItem>,
    )
        ensures
            read(final(items)@) == read(old(items)@) + self.session_items(*session, *bindings),
    {
        push_command(
            items,
            TOGGLE_FOCUS_MODE,
            if self.shell.focus.focus_mode {
                "Exit Focus Mode"
            } else {
                "Enter Focus Mode"
            },
            bindings.label(KeyboardAction::ToggleFocusMode),
        );
        push_command(items, ZOOM_IN, "Zoom In", bindings.label(KeyboardAction::ZoomIn));
        push_command(items, ZOOM_OUT, "Zoom Out", bindings.label(KeyboardAction::ZoomOut));
        push_command(items, RESET_ZOOM, "Reset Zoom", bindings.label(KeyboardAction::ZoomReset));
        push_command(items, COPY, "Copy", bindings.label(KeyboardAction::Copy));
        push_command(items, PASTE, "Paste", bindings.label(KeyboardAction::Paste));
        push_command(
            items,
            FIND_IN_TERMINAL,
            "Find in Terminal…",
            bindings.label(KeyboardAction::Find),
        );
        if session.live_port_forwarding {
            push_command(
                items,
                PORT_FORWARD_MANAGER,
                if self.port_forward_manager_open_for_active_tab() {
                    "Hide Port Forward Manager"
                } else {
                    "Manage Port Forwards…"
                },
                bindings.label(KeyboardAction::PortForwardManager),
            );
        }
        push_command(
            items,
            RESET_TERMINAL,
            "Reset Terminal",
            bindings.label(KeyboardAction::ResetTerminal),
        );
        push_command(
            items,
            CLEAR_TERMINAL_HISTORY,
            "Clear Terminal",
            bindings.label(KeyboardAction::ClearTerminal),
        );
        if matches!(session.transport, Transport::Ssh { .. }) {
            push_command(
                items,
                OPEN_SFTP_FILE_MANAGER,
                "Open SFTP",
                Some("Open the GUI SFTP file manager for this SSH session".to_owned()),
            );
        }
        assert(read(items@) =~= read(old(items)@) + self.session_items(*session, *bindings));
    }

    /// Lists what the palette offers now: the commands that apply to the tab in
    /// front, and a way to every tab.
    pub fn palette_items(&self, bindings: &BindingLabels) -> (items: Vec<PaletteItem>)
        requires
            self.state.wf(),
            self.state.tabs@.len() > 0,
            forall|i: int|
                0 <= i < self.state.tabs@.len() ==> TAB_ACTIVATE_OFFSET + (
                #[trigger] self.state.tabs@[i]).id.0 <= u64::MAX,
        ensures
            read(items@) == self.palette(*bindings),
    {
        let mut items: Vec<PaletteItem> = Vec::new();
        push_command(
            &mut items,
            NEW_LAUNCHER_TAB,
            "New Session…",
            bindings.label(KeyboardAction::NewSession),
        );
        push_command(
            &mut items,
            START_LOCAL_SESSION,
            "Start Local Shell",
            bindings.label(KeyboardAction::StartLocalShell),
        );
        push_command(
            &mut items,
            NEW_WINDOW,
            "New Window",
            bindings.label(KeyboardAction::NewWindow),
        );
        assert(read(items@) =~= Self::general_items(*bindings));
        if let Some(front) = self.state.tab(self.state.active) {
            match &front.content {
                TabContent::Session(session) => {
                    self.push_session_items(session, bindings, &mut items);
                },
                TabContent::MarkdownViewer(_) => {
                    let ghost before = read(items@);
                    push_command(
                        &mut items,
                        RELOAD_MARKDOWN,
                        "Reload Markdown",
                        bindings.label(KeyboardAction::MarkdownReload),
                    );
                    push_command(
                        &mut items,
                        TOGGLE_MARKDOWN_MODE,
                        "Toggle Preview/Source",
                        bindings.label(KeyboardAction::MarkdownPreviewSource),
                    );
                    push_command(
                        &mut items,
                        FIND_IN_MARKDOWN,
                        "Find in Markdown…",
                        bindings.label(KeyboardAction::MarkdownFind),
                    );
                    push_command(
                        &mut items,
                        TOGGLE_MARKDOWN_OUTLINE,
                        "Toggle Markdown Outline",
                        bindings.label(KeyboardAction::MarkdownOutline),
                    );
                    assert(read(items@) =~= before + Self::viewer_items(*bindings));
                },
                _ => {},
            }
            push_command(
                &mut items,
                CLOSE_ACTIVE_TAB,
                front.content.close_label(),
                bindings.label(KeyboardAction::CloseActiveSurface),
            );
        }
        let ghost commands = read(items@);
        let mut i: usize = 0;
        while i < self.state.tabs.len()
            invariant
                i <= self.state.tabs@.len(),
                forall|k: int|
                    0 <= k < self.state.tabs@.len() ==> TAB_ACTIVATE_OFFSET + (
                    #[trigger] self.state.tabs@[k]).id.0 <= u64::MAX,
                read(items@) == commands + tab_items(self.state.tabs@, *bindings, i as int),
            decreases self.state.tabs@.len() - i,
        {
            let ghost before = read(items@);
            let tab = &self.state.tabs[i];
            let (label, hint) = tab.palette_label();
            let shortcut_label = match quick_action(i) {
                Some(action) => bindings.label(action),
                None => None,
            };
            items.push(
                PaletteItem {
                    id: TAB_ACTIVATE_OFFSET + tab.id.0,
                    label,
                    hint,
                    is_tab: true,
                    shortcut_label,
                },
            );
            i = i + 1;
            assert(read(items@) =~= before.push(items@.last()@));
            assert(read(items@) =~= commands + tab_items(self.state.tabs@, *bindings, i as int));
        }
        assert(read(items@) =~= self.palette(*bindings));
        items
    }
}

impl FesTermApp {
    /// What choosing the item `id` leads to. `chord` is the palette's own.
    pub open spec fn selection_outcome(
        self,
        id: u64,
        documents: Seq<OpenDocument>,
        chord: Option<String>,
        now_ms: u64,
    ) -> (Self, Seq<Effect>) {
        let active = self.state.active;
        if id == NEW_LAUNCHER_TAB {
            (self, dispatched(AppCommand::OpenLauncher))
        } else if id == START_LOCAL_SESSION {
            (self, dispatched(AppCommand::StartLocalSession))
        } else if id == NEW_WINDOW {
            (self, dispatched(AppCommand::OpenWindow))
        } else if id == RELOAD_MARKDOWN {
            (self, dispatched(AppCommand::ReloadMarkdown))
        } else if id == TOGGLE_MARKDOWN_MODE {
            (self, dispatched(AppCommand::ToggleMarkdownPreviewSource))
        } else if id == FIND_IN_MARKDOWN {
            (self, dispatched(AppCommand::OpenMarkdownFind))
        } else if id == TOGGLE_MARKDOWN_OUTLINE {
            (self, dispatched(AppCommand::ToggleMarkdownOutline))
        } else if id == CLOSE_ACTIVE_TAB {
            let (after, effect) = self.tab_close_outcome(active, documents);
            (after, at_most_one(effect))
        } else if id == TOGGLE_FOCUS_MODE {
            self.focus_mode_toggled(chord, now_ms)
        } else if id == ZOOM_IN {
            (self, self.zoom_effects(ZoomCommand::In))
        } else if id == ZOOM_OUT {
            (self, self.zoom_effects(ZoomCommand::Out))
        } else if id == RESET_ZOOM {
            (self, self.zoom_effects(ZoomCommand::Reset))
        } else if id == RESET_TERMINAL {
            self.terminal_reset(now_ms)
        } else if id == CLEAR_TERMINAL_HISTORY {
            self.terminal_cleared(now_ms)
        } else if id == COPY {
            (self, self.copy_effects())
        } else if id == PASTE {
            self.paste_requested()
        } else if id == FIND_IN_TERMINAL {
            (self, self.search_effects())
        } else if id == PORT_FORWARD_MANAGER {
            self.forwards_toggled()
        } else if id == OPEN_SFTP_FILE_MANAGER {
            (
                self,
                if self.ssh_in_front() {
                    dispatched(AppCommand::OpenSftpFileManager(active))
                } else {
                    seq![]
                },
            )
        } else if id >= TAB_ACTIVATE_OFFSET {
            let target = TabId((id - TAB_ACTIVATE_OFFSET) as u64);
            (
                self,
                if position(self.state.tabs@, target) is Some {
                    dispatched(AppCommand::ActivateTab(target))
                } else {
                    seq![]
                },
            )
        } else {
            (self, seq![])
        }
    }

    /// The session in front runs over SSH.
    pub open spec fn ssh_in_front(self) -> bool {
        &&& self.state.active_session() is Some
        &&& self.state.active_session()->Some_0.transport is Ssh
    }

    /// Whether a graphical SFTP session can be opened beside the tab in front.
    pub fn is_ssh_in_front(&self) -> (result: bool)
        ensures
            result == self.ssh_in_front(),
    {
        match self.state.session_tab(self.state.active) {
            Some(session) => matches!(session.transport, Transport::Ssh { .. }),
            None => false,
        }
    }

    /// Carries out the item `id`. An item of a tab that has gone does nothing.
    pub fn dispatch_palette_selection(
        &mut self,
        id: u64,
        documents: &Vec<OpenDocument>,
        chord: Option<String>,
        now_ms: u64,
    ) -> (effects: Vec<Effect>)
        ensures
            (*final(self), effects@) == old(self).selection_outcome(
                id,
                documents@,
                chord,
                now_ms,
            ),
    {
        let active = self.state.active;
        let command = if id == NEW_LAUNCHER_TAB {
            Some(AppCommand::OpenLauncher)
        } else if id == START_LOCAL_SESSION {
            Some(AppCommand::StartLocalSession)
        } else if id == NEW_WINDOW {
            Some(AppCommand::OpenWindow)
        } else if id == RELOAD_MARKDOWN {
            Some(AppCommand::ReloadMarkdown)
        } else if id == TOGGLE_MARKDOWN_MODE {
            Some(AppCommand::ToggleMarkdownPreviewSource)
        } else if id == FIND_IN_MARKDOWN {
            Some(AppCommand::OpenMarkdownFind)
        } else if id == TOGGLE_MARKDOWN_OUTLINE {
            Some(AppCommand::ToggleMarkdownOutline)
        } else if id == CLOSE_ACTIVE_TAB {
            let effect = self.request_close_tab(active, documents);
            return one_or_none(effect);
        } else if id == TOGGLE_FOCUS_MODE {
            return self.toggle_focus_mode(chord, now_ms);
        } else if id == ZOOM_IN {
            return self.zoom_active_session(ZoomCommand::In);
        } else if id == ZOOM_OUT {
            return self.zoom_active_session(ZoomCommand::Out);
        } else if id == RESET_ZOOM {
            return self.zoom_active_session(ZoomCommand::Reset);
        } else if id == RESET_TERMINAL {
            return self.reset_active_terminal(now_ms);
        } else if id == CLEAR_TERMINAL_HISTORY {
            return self.clear_active_terminal(now_ms);
        } else if id == COPY {
            return self.copy_active_selection();
        } else if id == PASTE {
            return self.paste_into_active_session();
        } else if id == FIND_IN_TERMINAL {
            return self.open_terminal_search();
        } else if id == PORT_FORWARD_MANAGER {
            return self.toggle_port_forward_manager();
        } else if id == OPEN_SFTP_FILE_MANAGER {
            if self.is_ssh_in_front() {
                Some(AppCommand::OpenSftpFileManager(active))
            } else {
                None
            }
        } else if id >= TAB_ACTIVATE_OFFSET {
            match self.state.tab_id_for_chip(id - TAB_ACTIVATE_OFFSET) {
                Some(target) => Some(AppCommand::ActivateTab(target)),
                None => None,
            }
        } else {
            None
        };
        let mut effects = Vec::new();
        if let Some(command) = command {
            effects.push(Effect::Dispatch(command));
        }
        assert(effects@ =~= old(self).selection_outcome(id, documents@, chord, now_ms).1);
        effects
    }
}

proof fn tab_items_read(tabs: Seq<Tab>, bindings: BindingLabels, n: int)
    requires
        0 <= n <= tabs.len(),
    ensures
        tab_items(tabs, bindings, n).len() == n,
        forall|i: int|
            0 <= i < n ==> {
                &&& (#[trigger] tab_items(tabs, bindings, n)[i]).id == (TAB_ACTIVATE_OFFSET
                    + tabs[i].id.0) as u64
                &&& tab_items(tabs, bindings, n)[i].is_tab
            },
    decreases n,
{
    if n > 0 {
        tab_items_read(tabs, bindings, n - 1);
    }
}

/// No two items of the palette share an identifier, so that a choice is never
/// ambiguous.
pub proof fn palette_identifiers_are_distinct(
    app: FesTermApp,
    bindings: BindingLabels,
    i: int,
    j: int,
)
    requires
        app.state.wf(),
        app.state.tabs@.len() > 0,
        forall|k: int|
            0 <= k < app.state.tabs@.len() ==> TAB_ACTIVATE_OFFSET + (
            #[trigger] app.state.tabs@[k]).id.0 <= u64::MAX,
        0 <= i < j < app.palette(bindings).len(),
    ensures
        app.palette(bindings)[i].id != app.palette(bindings)[j].id,
{
    let tabs = app.state.tabs@;
    let n = tabs.len() as int;
    let items = tab_items(tabs, bindings, n);
    let all = app.palette(bindings);
    tab_items_read(tabs, bindings, n);
    let first = all.len() - n;
    assert(forall|k: int| first <= k < all.len() ==> #[trigger] all[k] == items[k - first]);
    assert(forall|k: int| 0 <= k < first ==> (#[trigger] all[k]).id < TAB_ACTIVATE_OFFSET);
    if i >= first {
        assert(all[i] == items[i - first] && all[j] == items[j - first]);
        assert(tabs[i - first].id != tabs[j - first].id);
    } else if j >= first {
        assert(all[j] == items[j - first]);
        assert(tabs[j - first].id.0 + TAB_ACTIVATE_OFFSET <= u64::MAX);
    }
}

/// Choosing the item of a tab brings that very tab to the front, and changes
/// nothing else.
pub proof fn tab_items_lead_to_their_tabs(
    app: FesTermApp,
    documents: Seq<OpenDocument>,
    chord: Option<String>,
    now_ms: u64,
    i: int,
)
    requires
        app.state.wf(),
        0 <= i < app.state.tabs@.len(),
        TAB_ACTIVATE_OFFSET + app.state.tabs@[i].id.0 <= u64::MAX,
    ensures
        app.selection_outcome(
            (TAB_ACTIVATE_OFFSET + app.state.tabs@[i].id.0) as u64,
            documents,
            chord,
            now_ms,
        ) == (app, dispatched(AppCommand::ActivateTab(app.state.tabs@[i].id))),
{
    present_has_position(app.state.tabs@, i);
}

/// The palette offers nothing in vain: whatever it lists does something or asks
/// a question. Pasting alone also depends on whether the session takes input.
pub proof fn offered_commands_do_something(
    app: FesTermApp,
    bindings: BindingLabels,
    documents: Seq<OpenDocument>,
    chord: Option<String>,
    now_ms: u64,
    i: int,
)
    requires
        app.state.wf(),
        app.state.tabs@.len() > 0,
        forall|k: int|
            0 <= k < app.state.tabs@.len() ==> TAB_ACTIVATE_OFFSET + (
            #[trigger] app.state.tabs@[k]).id.0 <= u64::MAX,
        0 <= i < app.palette(bindings).len(),
        app.palette(bindings)[i].id != PASTE,
    ensures
        ({
            let (after, effects) = app.selection_outcome(
                app.palette(bindings)[i].id,
                documents,
                chord,
                now_ms,
            );
            effects.len() > 0 || after.shell.overlays.blocking()
        }),
{
    let tabs = app.state.tabs@;
    let n = tabs.len() as int;
    let items = tab_items(tabs, bindings, n);
    let all = app.palette(bindings);
    tab_items_read(tabs, bindings, n);
    let first = all.len() - n;
    assert(forall|k: int| first <= k < all.len() ==> #[trigger] all[k] == items[k - first]);
    if i >= first {
        assert(all[i] == items[i - first]);
        tab_items_lead_to_their_tabs(app, documents, chord, now_ms, i - first);
    } else {
        let front = app.state.active_tab()->Some_0;
        let general = FesTermApp::general_items(bindings);
        let middle = match front.content {
            TabContent::Session(session) => app.session_items(session, bindings),
            TabContent::MarkdownViewer(_) => FesTermApp::viewer_items(bindings),
            _ => seq![],
        };
        if i < 3 {
            assert(all[i] == general[i]);
        } else if i < 3 + middle.len() {
            assert(all[i] == middle[i - 3]);
        } else {
            assert(all[i].id == CLOSE_ACTIVE_TAB);
        }
    }
}

/// The action that an item of the palette stands for, where it is a command with
/// a binding.
pub open spec fn action_of_item(id: u64) -> Option<KeyboardAction> {
    if id == NEW_LAUNCHER_TAB {
        Some(KeyboardAction::NewSession)
    } else if id == START_LOCAL_SESSION {
        Some(KeyboardAction::StartLocalShell)
    } else if id == NEW_WINDOW {
        Some(KeyboardAction::NewWindow)
    } else if id == TOGGLE_FOCUS_MODE {
        Some(KeyboardAction::ToggleFocusMode)
    } else if id == ZOOM_IN {
        Some(KeyboardAction::ZoomIn)
    } else if id == ZOOM_OUT {
        Some(KeyboardAction::ZoomOut)
    } else if id == RESET_ZOOM {
        Some(KeyboardAction::ZoomReset)
    } else if id == COPY {
        Some(KeyboardAction::Copy)
    } else if id == FIND_IN_TERMINAL {
        Some(KeyboardAction::Find)
    } else if id == PORT_FORWARD_MANAGER {
        Some(KeyboardAction::PortForwardManager)
    } else if id == RESET_TERMINAL {
        Some(KeyboardAction::ResetTerminal)
    } else if id == CLEAR_TERMINAL_HISTORY {
        Some(KeyboardAction::ClearTerminal)
    } else if id == RELOAD_MARKDOWN {
        Some(KeyboardAction::MarkdownReload)
    } else if id == TOGGLE_MARKDOWN_MODE {
        Some(KeyboardAction::MarkdownPreviewSource)
    } else if id == FIND_IN_MARKDOWN {
        Some(KeyboardAction::MarkdownFind)
    } else if id == TOGGLE_MARKDOWN_OUTLINE {
        Some(KeyboardAction::MarkdownOutline)
    } else if id == CLOSE_ACTIVE_TAB {
        Some(KeyboardAction::CloseActiveSurface)
    } else {
        None
    }
}

/// Choosing a command in the palette does what its shortcut does; pasting asks
/// for the clipboard; opening a graphical SFTP session does so beside the SSH
/// session in front. Anything that is neither a command nor a tab does nothing.
pub proof fn choosing_does_what_the_shortcut_does(
    app: FesTermApp,
    id: u64,
    documents: Seq<OpenDocument>,
    chord: Option<String>,
    now_ms: u64,
)
    ensures
        ({
            let outcome = app.selection_outcome(id, documents, chord, now_ms);
            let session = app.state.active_session();
            &&& action_of_item(id) is Some ==> outcome == app.action_outcome(
                action_of_item(id)->Some_0,
                documents,
                chord,
                now_ms,
            )
            &&& id == PASTE ==> app.pastes(None, 0, outcome.0, outcome.1)
            &&& id == OPEN_SFTP_FILE_MANAGER ==> outcome.0 == app && (session is Some
                && session->Some_0.transport is Ssh ==> outcome.1 == seq![
                Effect::Dispatch(AppCommand::OpenSftpFileManager(app.state.active)),
            ]) && (!(session is Some && session->Some_0.transport is Ssh) ==> outcome.1.len() == 0)
            &&& action_of_item(id) is None && id != PASTE && id != OPEN_SFTP_FILE_MANAGER && id
                < TAB_ACTIVATE_OFFSET ==> outcome.0 == app && outcome.1.len() == 0
        }),
{
}

/// An item for a tab that is gone does nothing.
pub proof fn items_of_closed_tabs_do_nothing(
    app: FesTermApp,
    id: u64,
    documents: Seq<OpenDocument>,
    chord: Option<String>,
    now_ms: u64,
)
    requires
        id >= TAB_ACTIVATE_OFFSET,
        forall|i: int|
            0 <= i < app.state.tabs@.len() ==> TAB_ACTIVATE_OFFSET + (
            #[trigger] app.state.tabs@[i]).id.0 != id,
    ensures
        app.selection_outcome(id, documents, chord, now_ms).0 == app,
        app.selection_outcome(id, documents, chord, now_ms).1.len() == 0,
{
    let target = TabId((id - TAB_ACTIVATE_OFFSET) as u64);
    position_is_first(app.state.tabs@, target);
    if let Some(p) = position(app.state.tabs@, target) {
        assert(TAB_ACTIVATE_OFFSET + app.state.tabs@[p].id.0 != id);
    }
}

proof fn tab_items_say(tabs: Seq<Tab>, bindings: BindingLabels, n: int)
    requires
        0 <= n <= tabs.len(),
    ensures
        tab_items(tabs, bindings, n).len() == n,
        forall|i: int|
            0 <= i < n ==> {
                let item = #[trigger] tab_items(tabs, bindings, n)[i];
                &&& item.is_tab
                &&& item.id == (TAB_ACTIVATE_OFFSET + tabs[i].id.0) as u64
                &&& item.label == tabs[i].palette_texts().0
                &&& item.hint == tabs[i].palette_texts().1
                &&& i < 9 ==> item.shortcut_label == bindings.text(
                    KeyboardAction::QuickSwitch((i + 1) as u8),
                )
                &&& i >= 9 ==> item.shortcut_label is None
            },
    decreases n,
{
    if n > 0 {
        tab_items_say(tabs, bindings, n - 1);
    }
}

/// The palette lists every tab, after the commands and in the order of the tabs,
/// with its label and the chord that switches to it. Nothing else in it is marked
/// as a tab.
pub proof fn every_tab_is_listed(app: FesTermApp, bindings: BindingLabels, i: int)
    requires
        app.state.wf(),
        app.state.tabs@.len() > 0,
        0 <= i < app.state.tabs@.len(),
        TAB_ACTIVATE_OFFSET + app.state.tabs@[i].id.0 <= u64::MAX,
    ensures
        ({
            let all = app.palette(bindings);
            let first = all.len() - app.state.tabs@.len();
            let item = all[first + i];
            &&& first >= 4
            &&& item.is_tab
            &&& item.id == TAB_ACTIVATE_OFFSET + app.state.tabs@[i].id.0
            &&& item.label == app.state.tabs@[i].palette_texts().0
            &&& item.hint == app.state.tabs@[i].palette_texts().1
            &&& i < 9 ==> item.shortcut_label == bindings.text(
                KeyboardAction::QuickSwitch((i + 1) as u8),
            )
            &&& forall|k: int| 0 <= k < first ==> !(#[trigger] all[k]).is_tab
        }),
{
    let tabs = app.state.tabs@;
    let n = tabs.len() as int;
    let items = tab_items(tabs, bindings, n);
    let all = app.palette(bindings);
    tab_items_say(tabs, bindings, n);
    let first = all.len() - n;
    assert(all[first + i] == items[i]);
}

/// An item with the identifier `id` is offered.
pub open spec fn offers(items: Seq<PaletteItemView>, id: u64) -> bool {
    exists|i: int| 0 <= i < items.len() && (#[trigger] items[i]).id == id
}

/// What the palette offers goes by the tab in front: commands for a terminal
/// where it is a session, forwards and SFTP where the session can do that, and
/// commands for a document where it is a viewer. New sessions, shells and windows
/// and closing the tab are always offered.
pub proof fn commands_fit_the_tab_in_front(app: FesTermApp, bindings: BindingLabels)
    requires
        app.state.wf(),
        app.state.tabs@.len() > 0,
        forall|k: int|
            0 <= k < app.state.tabs@.len() ==> TAB_ACTIVATE_OFFSET + (
            #[trigger] app.state.tabs@[k]).id.0 <= u64::MAX,
    ensures
        ({
            let all = app.palette(bindings);
            let session = app.state.active_session();
            let viewer = app.state.active_tab()->Some_0.content is MarkdownViewer;
            &&& offers(all, NEW_LAUNCHER_TAB)
            &&& offers(all, START_LOCAL_SESSION)
            &&& offers(all, NEW_WINDOW)
            &&& offers(all, CLOSE_ACTIVE_TAB)
            &&& offers(all, TOGGLE_FOCUS_MODE) <==> session is Some
            &&& offers(all, ZOOM_IN) <==> session is Some
            &&& offers(all, ZOOM_OUT) <==> session is Some
            &&& offers(all, RESET_ZOOM) <==> session is Some
            &&& offers(all, COPY) <==> session is Some
            &&& offers(all, PASTE) <==> session is Some
            &&& offers(all, FIND_IN_TERMINAL) <==> session is Some
            &&& offers(all, RESET_TERMINAL) <==> session is Some
            &&& offers(all, CLEAR_TERMINAL_HISTORY) <==> session is Some
            &&& offers(all, PORT_FORWARD_MANAGER) <==> session is Some
                && session->Some_0.live_port_forwarding
            &&& offers(all, OPEN_SFTP_FILE_MANAGER) <==> session is Some
                && session->Some_0.transport is Ssh
            &&& offers(all, RELOAD_MARKDOWN) <==> viewer
            &&& offers(all, TOGGLE_MARKDOWN_MODE) <==> viewer
            &&& offers(all, FIND_IN_MARKDOWN) <==> viewer
            &&& offers(all, TOGGLE_MARKDOWN_OUTLINE) <==> viewer
        }),
{
    let tabs = app.state.tabs@;
    let n = tabs.len() as int;
    let items = tab_items(tabs, bindings, n);
    let all = app.palette(bindings);
    tab_items_read(tabs, bindings, n);
    let first = all.len() - n;
    let front = app.state.active_tab()->Some_0;
    let general = FesTermApp::general_items(bindings);
    let middle = match front.content {
        TabContent::Session(session) => app.session_items(session, bindings),
        TabContent::MarkdownViewer(_) => FesTermApp::viewer_items(bindings),
        _ => seq![],
    };
    assert forall|k: int| first <= k < all.len() implies (#[trigger] all[k]).id
        >= TAB_ACTIVATE_OFFSET by {
        assert(all[k] == items[k - first]);
        assert(TAB_ACTIVATE_OFFSET + tabs[k - first].id.0 <= u64::MAX);
    }
    assert(all[0] == general[0] && all[1] == general[1] && all[2] == general[2]);
    assert(first == 4 + middle.len());
    assert(all[first - 1].id == CLOSE_ACTIVE_TAB);
    assert(forall|k: int| 3 <= k < first - 1 ==> #[trigger] all[k] == middle[k - 3]);
    assert forall|k: int| 0 <= k < middle.len() implies all[k + 3] == #[trigger] middle[k] by {}
    if let TabContent::Session(session) = front.content {
        let forwards: int = if session.live_port_forwarding { 1 } else { 0 };
        assert(middle[0].id == TOGGLE_FOCUS_MODE && middle[1].id == ZOOM_IN);
        assert(middle[2].id == ZOOM_OUT && middle[3].id == RESET_ZOOM && middle[4].id == COPY);
        assert(middle[5].id == PASTE && middle[6].id == FIND_IN_TERMINAL);
        assert(session.live_port_forwarding ==> middle[7].id == PORT_FORWARD_MANAGER);
        assert(middle[7 + forwards].id == RESET_TERMINAL);
        assert(middle[8 + forwards].id == CLEAR_TERMINAL_HISTORY);
        assert(session.transport is Ssh ==> middle[9 + forwards].id == OPEN_SFTP_FILE_MANAGER);
    } else if front.content is MarkdownViewer {
        assert(middle[0].id == RELOAD_MARKDOWN && middle[1].id == TOGGLE_MARKDOWN_MODE);
        assert(middle[2].id == FIND_IN_MARKDOWN && middle[3].id == TOGGLE_MARKDOWN_OUTLINE);
    }
}

/// The label of an action is that of its first entry, and there is none exactly
/// where it has no entry.
pub proof fn labels_are_those_of_the_first_entry(
    labels: Seq<(KeyboardAction, String)>,
    action: KeyboardAction,
)
    ensures
        match label_of(labels, action) {
            Some(text) => exists|i: int|
                {
                    &&& 0 <= i < labels.len()
                    &&& (#[trigger] labels[i]).0 == action
                    &&& labels[i].1@ == text
                    &&& forall|j: int| 0 <= j < i ==> (#[trigger] labels[j]).0 != action
                },
            None => forall|j: int| 0 <= j < labels.len() ==> (#[trigger] labels[j]).0 != action,
        },
    decreases labels.len(),
{
    if labels.len() > 0 {
        let rest = labels.drop_last();
        labels_are_those_of_the_first_entry(rest, action);
        assert(forall|j: int| 0 <= j < rest.len() ==> rest[j] == #[trigger] labels[j]);
        if let Some(text) = label_of(rest, action) {
            let i = choose|i: int|
                {
                    &&& 0 <= i < rest.len()
                    &&& (#[trigger] rest[i]).0 == action
                    &&& rest[i].1@ == text
                    &&& forall|j: int| 0 <= j < i ==> (#[trigger] rest[j]).0 != action
                };
            assert(labels[i].0 == action);
        } else if labels.last().0 == action {
            assert(labels[labels.len() - 1].0 == action);
        }
    }
}

} // verus!
