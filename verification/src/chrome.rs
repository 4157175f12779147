//! The gestures of the window's top row, as commands.
use vstd::prelude::*;

use crate::app::{FesTermApp, FocusState};
#[allow(unused_imports)]
use crate::app::Shell;
#[allow(unused_imports)]
use crate::commands::{at_most_one, dispatched, dispatched_if_any};
use crate::commands::{one_or_none, only, only_if_any};
use crate::confirmations::OpenDocument;
use crate::dialogs::refocus;
use crate::effects::{AppCommand, Effect};
use crate::overlays::OverlayState;
use crate::state::TabId;
#[allow(unused_imports)]
use crate::state::{position, position_is_first, session_of};

verus! {

/// A gesture of the top row. Chips are named by their identifiers.
#[derive(Debug)]
#[allow(inconsistent_fields)]
pub enum ChromeAction {
    NewTab,
    OpenMarkdownFile,
    OpenSettings,
    OpenProfiles,
    ToggleInspector,
    OpenAbout,
    TogglePalette,
    Activate(u64),
    Close(u64),
    Reorder { moved: u64, before: Option<u64> },
    /// Dropped outside the row; `before` is a chip of the destination.
    MoveToWindow { moved: u64, target: Option<u64>, before: Option<u64> },
    MoveLeft(u64),
    MoveRight(u64),
    RenameStarted { restore_focus: Option<u64> },
    RenameFinished,
    Rename { id: u64, name: String },
}

impl FesTermApp {
    /// The tab whose chip is `chip`.
    pub open spec fn chip_tab(self, chip: u64) -> Option<TabId> {
        if position(self.state.tabs@, TabId(chip)) is Some {
            Some(TabId(chip))
        } else {
            None
        }
    }

    /// Bringing the tab of a chip to the front gives it the keyboard.
    pub open spec fn chip_activated(self, chip: u64) -> (Self, Seq<Effect>) {
        match self.chip_tab(chip) {
            Some(id) => (
                if self.shell.focus.inspector_open {
                    self.with_focus(
                        FocusState { inspector_restore_focus: None, ..self.shell.focus },
                    )
                } else {
                    self
                },
                dispatched(AppCommand::ActivateTab(id)) + refocus(self, id),
            ),
            None => (self, seq![]),
        }
    }

    /// The end of a rename gives the keyboard back to the terminal that had it,
    /// or else to the widget that had it.
    pub open spec fn rename_finished(self) -> (Self, Seq<Effect>) {
        (
            self.with_focus(
                FocusState {
                    rename_restore_focus: None,
                    rename_restore_tab: None,
                    ..self.shell.focus
                },
            ),
            match self.shell.focus.rename_restore_tab {
                Some(tab) => if session_of(self.state.tabs@, tab) is Some {
                    seq![Effect::FocusTerminal(tab)]
                } else {
                    self.widget_refocus()
                },
                None => self.widget_refocus(),
            },
        )
    }

    /// What a gesture leads to. `focused` is the widget that has the keyboard.
    pub open spec fn chrome_outcome(
        self,
        action: ChromeAction,
        documents: Seq<OpenDocument>,
        focused: Option<u64>,
    ) -> (Self, Seq<Effect>) {
        match action {
            ChromeAction::NewTab => (self, dispatched(AppCommand::OpenLauncher)),
            ChromeAction::OpenMarkdownFile => self.picker_opened(),
            ChromeAction::OpenSettings => (self, dispatched(AppCommand::OpenSettings)),
            ChromeAction::OpenProfiles => (self, dispatched(AppCommand::OpenProfiles)),
            ChromeAction::ToggleInspector => self.inspector_toggled(focused),
            ChromeAction::OpenAbout => (
                self.with_overlays(
                    OverlayState {
                        about_open: true,
                        about_licenses_open: false,
                        ..self.shell.overlays
                    },
                ),
                seq![Effect::Repaint],
            ),
            ChromeAction::TogglePalette => (
                self.with_focus(
                    FocusState {
                        palette_open: !self.shell.focus.palette_open,
                        ..self.shell.focus
                    },
                ),
                seq![],
            ),
            ChromeAction::Activate(chip) => self.chip_activated(chip),
            ChromeAction::Close(chip) => match self.chip_tab(chip) {
                Some(id) => {
                    let (after, effect) = self.tab_close_outcome(id, documents);
                    (after, at_most_one(effect))
                },
                None => (self, seq![]),
            },
            ChromeAction::Reorder { moved, before } => (
                self,
                match self.chip_tab(moved) {
                    Some(moved) => dispatched(
                        AppCommand::ReorderTab {
                            moved,
                            before: match before {
                                Some(chip) => self.chip_tab(chip),
                                None => None,
                            },
                        },
                    ),
                    None => seq![],
                },
            ),
            ChromeAction::MoveToWindow { moved, target, before } => (
                self,
                match self.chip_tab(moved) {
                    Some(moved) => dispatched(
                        AppCommand::MoveTabToWindow {
                            moved,
                            target,
                            before: match before {
                                Some(chip) => Some(TabId(chip)),
                                None => None,
                            },
                        },
                    ),
                    None => seq![],
                },
            ),
            ChromeAction::MoveLeft(chip) => (
                self,
                match self.chip_tab(chip) {
                    Some(id) => dispatched(AppCommand::MoveTabLeft(id)),
                    None => seq![],
                },
            ),
            ChromeAction::MoveRight(chip) => (
                self,
                match self.chip_tab(chip) {
                    Some(id) => dispatched(AppCommand::MoveTabRight(id)),
                    None => seq![],
                },
            ),
            ChromeAction::RenameStarted { restore_focus } => (
                self.with_focus(
                    FocusState {
                        rename_restore_focus: restore_focus,
                        rename_restore_tab: Some(self.state.active),
                        ..self.shell.focus
                    },
                ),
                seq![],
            ),
            ChromeAction::RenameFinished => self.rename_finished(),
            ChromeAction::Rename { id, name } => (
                self,
                match self.chip_tab(id) {
                    Some(id) => dispatched(AppCommand::RenameTab(id, name)),
                    None => seq![],
                },
            ),
        }
    }

    /// The keyboard goes back to the widget that had it before the rename.
    pub open spec fn widget_refocus(self) -> Seq<Effect> {
        match self.shell.focus.rename_restore_focus {
            Some(widget) => seq![Effect::FocusWidget(widget)],
            None => seq![],
        }
    }

    /// Carries out one gesture of the top row. Gestures on chips whose tab has
    /// gone do nothing.
    pub fn dispatch_chrome_action(
        &mut self,
        action: ChromeAction,
        documents: &Vec<OpenDocument>,
        focused: Option<u64>,
    ) -> (effects: Vec<Effect>)
        ensures
            (*final(self), effects@) == old(self).chrome_outcome(action, documents@, focused),
    {
        match action {
            ChromeAction::NewTab => only(AppCommand::OpenLauncher),
            ChromeAction::OpenMarkdownFile => self.open_markdown_file_picker(),
            ChromeAction::OpenSettings => only(AppCommand::OpenSettings),
            ChromeAction::OpenProfiles => only(AppCommand::OpenProfiles),
            ChromeAction::ToggleInspector => self.toggle_inspector_from_current_focus(focused),
            ChromeAction::OpenAbout => {
                self.shell.overlays.about_open = true;
                self.shell.overlays.about_licenses_open = false;
                one_or_none(Some(Effect::Repaint))
            },
            ChromeAction::TogglePalette => {
                self.shell.focus.palette_open = !self.shell.focus.palette_open;
                one_or_none(None)
            },
            ChromeAction::Activate(chip) => self.activate_chip(chip),
            ChromeAction::Close(chip) => match self.state.tab_id_for_chip(chip) {
                Some(id) => {
                    let effect = self.request_close_tab(id, documents);
                    one_or_none(effect)
                },
                None => one_or_none(None),
            },
            ChromeAction::Reorder { moved, before } => {
                let before = match before {
                    Some(chip) => self.state.tab_id_for_chip(chip),
                    None => None,
                };
                only_if_any(
                    match self.state.tab_id_for_chip(moved) {
                        Some(moved) => Some(AppCommand::ReorderTab { moved, before }),
                        None => None,
                    },
                )
            },
            ChromeAction::MoveToWindow { moved, target, before } => {
                let before = match before {
                    Some(chip) => Some(TabId::from_chip_id(chip)),
                    None => None,
                };
                only_if_any(
                    match self.state.tab_id_for_chip(moved) {
                        Some(moved) => Some(AppCommand::MoveTabToWindow { moved, target, before }),
                        None => None,
                    },
                )
            },
            ChromeAction::MoveLeft(chip) => only_if_any(
                match self.state.tab_id_for_chip(chip) {
                    Some(id) => Some(AppCommand::MoveTabLeft(id)),
                    None => None,
                },
            ),
            ChromeAction::MoveRight(chip) => only_if_any(
                match self.state.tab_id_for_chip(chip) {
                    Some(id) => Some(AppCommand::MoveTabRight(id)),
                    None => None,
                },
            ),
            ChromeAction::RenameStarted { restore_focus } => {
                self.shell.focus.rename_restore_focus = restore_focus;
                self.shell.focus.rename_restore_tab = Some(self.state.active);
                one_or_none(None)
            },
            ChromeAction::RenameFinished => self.finish_rename(),
            ChromeAction::Rename { id, name } => only_if_any(
                match self.state.tab_id_for_chip(id) {
                    Some(id) => Some(AppCommand::RenameTab(id, name)),
                    None => None,
                },
            ),
        }
    }

    fn activate_chip(&mut self, chip: u64) -> (effects: Vec<Effect>)
        ensures
            (*final(self), effects@) == old(self).chip_activated(chip),
    {
        let mut effects = Vec::new();
        if let Some(id) = self.state.tab_id_for_chip(chip) {
            effects.push(Effect::Dispatch(AppCommand::ActivateTab(id)));
            if self.shell.focus.inspector_open {
                self.shell.focus.inspector_restore_focus = None;
            }
            self.push_refocus(id, &mut effects);
        }
        assert(effects@ =~= old(self).chip_activated(chip).1);
        effects
    }

    fn finish_rename(&mut self) -> (effects: Vec<Effect>)
        ensures
            (*final(self), effects@) == old(self).rename_finished(),
    {
        let tab = self.shell.focus.rename_restore_tab.take();
        let widget = self.shell.focus.rename_restore_focus.take();
        if let Some(tab) = tab {
            if self.state.session_tab(tab).is_some() {
                return one_or_none(Some(Effect::FocusTerminal(tab)));
            }
        }
        match widget {
            Some(widget) => one_or_none(Some(Effect::FocusWidget(widget))),
            None => one_or_none(None),
        }
    }
}

/// A gesture on a chip is about that chip's tab and about no other, and one on a
/// chip whose tab is gone does nothing.
pub proof fn gestures_are_about_their_chip(
    app: FesTermApp,
    chip: u64,
    target: Option<u64>,
    before: Option<u64>,
    name: String,
    documents: Seq<OpenDocument>,
    focused: Option<u64>,
)
    ensures
        ({
            let id = TabId(chip);
            let there = exists|i: int|
                0 <= i < app.state.tabs@.len() && (#[trigger] app.state.tabs@[i]).id == id;
            let outcome = |action: ChromeAction| app.chrome_outcome(action, documents, focused);
            let (active, shown) = outcome(ChromeAction::Activate(chip));
            let (closing, closed) = outcome(ChromeAction::Close(chip));
            let (asked, effect) = app.tab_close_outcome(id, documents);
            &&& !there ==> {
                &&& active == app && shown.len() == 0
                &&& closing == app && closed.len() == 0
                &&& outcome(ChromeAction::MoveLeft(chip)).1.len() == 0
                &&& outcome(ChromeAction::MoveRight(chip)).1.len() == 0
                &&& outcome(ChromeAction::Reorder { moved: chip, before }).1.len() == 0
                &&& outcome(ChromeAction::MoveToWindow { moved: chip, target, before }).1.len() == 0
                &&& outcome(ChromeAction::Rename { id: chip, name }).1.len() == 0
            }
            &&& there ==> {
                &&& shown.len() > 0
                &&& shown[0] == Effect::Dispatch(AppCommand::ActivateTab(id))
                &&& session_of(app.state.tabs@, id) is Some ==> shown.len() == 2 && shown[1]
                    == Effect::FocusTerminal(id)
                &&& session_of(app.state.tabs@, id) is None ==> shown.len() == 1
                &&& closing == asked
                &&& effect is Some ==> closed == seq![effect->Some_0]
                &&& effect is None ==> closed.len() == 0
                &&& outcome(ChromeAction::MoveLeft(chip)).1 == seq![
                    Effect::Dispatch(AppCommand::MoveTabLeft(id)),
                ]
                &&& outcome(ChromeAction::MoveRight(chip)).1 == seq![
                    Effect::Dispatch(AppCommand::MoveTabRight(id)),
                ]
                &&& outcome(ChromeAction::Rename { id: chip, name }).1 == seq![
                    Effect::Dispatch(AppCommand::RenameTab(id, name)),
                ]
                &&& outcome(ChromeAction::MoveToWindow { moved: chip, target, before }).1 == seq![
                    Effect::Dispatch(
                        AppCommand::MoveTabToWindow {
                            moved: id,
                            target,
                            before: match before {
                                Some(other) => Some(TabId(other)),
                                None => None,
                            },
                        },
                    ),
                ]
            }
            &&& active.state == app.state
            &&& outcome(ChromeAction::MoveLeft(chip)).0 == app
            &&& outcome(ChromeAction::MoveRight(chip)).0 == app
            &&& outcome(ChromeAction::Reorder { moved: chip, before }).0 == app
            &&& outcome(ChromeAction::MoveToWindow { moved: chip, target, before }).0 == app
            &&& outcome(ChromeAction::Rename { id: chip, name }).0 == app
        }),
{
    position_is_first(app.state.tabs@, TabId(chip));
    if let Some(p) = position(app.state.tabs@, TabId(chip)) {
        assert(app.state.tabs@[p].id == TabId(chip));
    }
}

/// A chip dropped in its row goes in front of the chip it was dropped before,
/// or to the end where that has gone or none was.
pub proof fn chips_are_reordered_where_they_are_dropped(
    app: FesTermApp,
    moved: u64,
    before: Option<u64>,
    documents: Seq<OpenDocument>,
    focused: Option<u64>,
)
    requires
        position(app.state.tabs@, TabId(moved)) is Some,
    ensures
        app.chrome_outcome(ChromeAction::Reorder { moved, before }, documents, focused).1 == seq![
            Effect::Dispatch(
                AppCommand::ReorderTab {
                    moved: TabId(moved),
                    before: if before is Some && position(
                        app.state.tabs@,
                        TabId(before->Some_0),
                    ) is Some {
                        Some(TabId(before->Some_0))
                    } else {
                        None
                    },
                },
            ),
        ],
{
}

/// The rest of the top row: each button leads to its own command, and the
/// palette opens and closes.
pub proof fn buttons_lead_to_their_commands(
    app: FesTermApp,
    documents: Seq<OpenDocument>,
    focused: Option<u64>,
)
    ensures
        ({
            let outcome = |action: ChromeAction| app.chrome_outcome(action, documents, focused);
            let toggled = outcome(ChromeAction::TogglePalette).0;
            let about = outcome(ChromeAction::OpenAbout).0;
            &&& outcome(ChromeAction::NewTab) == (
                app,
                seq![Effect::Dispatch(AppCommand::OpenLauncher)],
            )
            &&& outcome(ChromeAction::OpenSettings) == (
                app,
                seq![Effect::Dispatch(AppCommand::OpenSettings)],
            )
            &&& outcome(ChromeAction::OpenProfiles) == (
                app,
                seq![Effect::Dispatch(AppCommand::OpenProfiles)],
            )
            &&& outcome(ChromeAction::OpenMarkdownFile) == app.picker_opened()
            &&& outcome(ChromeAction::ToggleInspector) == app.inspector_toggled(focused)
            &&& toggled.shell.focus.palette_open != app.shell.focus.palette_open
            &&& toggled.chrome_outcome(ChromeAction::TogglePalette, documents, focused).0 == app
            &&& outcome(ChromeAction::TogglePalette).1.len() == 0
            &&& about.shell.overlays.about_open
            &&& !about.shell.overlays.about_licenses_open
            &&& about.state == app.state
            &&& about.shell.focus == app.shell.focus
        }),
{
}

/// A rename takes the keyboard from the terminal and its end gives it back: to
/// the terminal that was in front, or where that is none, to the widget that had
/// it.
pub proof fn renaming_gives_the_keyboard_back(
    app: FesTermApp,
    restore_focus: Option<u64>,
    documents: Seq<OpenDocument>,
    focused: Option<u64>,
)
    requires
        app.shell.focus.rename_restore_focus is None,
        app.shell.focus.rename_restore_tab is None,
    ensures
        ({
            let (started, nothing) = app.chrome_outcome(
                ChromeAction::RenameStarted { restore_focus },
                documents,
                focused,
            );
            let (after, effects) = started.chrome_outcome(
                ChromeAction::RenameFinished,
                documents,
                focused,
            );
            &&& nothing.len() == 0
            &&& !started.owns_input()
            &&& after == app
            &&& app.state.active_session() is Some ==> effects == seq![
                Effect::FocusTerminal(app.state.active),
            ]
            &&& app.state.active_session() is None && restore_focus is Some ==> effects == seq![
                Effect::FocusWidget(restore_focus->Some_0),
            ]
            &&& app.state.active_session() is None && restore_focus is None ==> effects.len() == 0
        }),
{
}

/// Bringing a tab to the front leaves the keyboard with it: an open inspector
/// gives nothing back any more.
pub proof fn activating_a_tab_forgets_the_old_focus(app: FesTermApp, chip: u64)
    requires
        position(app.state.tabs@, TabId(chip)) is Some,
    ensures
        ({
            let (after, _) = app.chip_activated(chip);
            &&& app.shell.focus.inspector_open
                ==> after.shell.focus.inspector_restore_focus is None
            &&& !app.shell.focus.inspector_open ==> after == app
            &&& after.shell.focus == (FocusState {
                inspector_restore_focus: after.shell.focus.inspector_restore_focus,
                ..app.shell.focus
            })
        }),
{
}

} // verus!
