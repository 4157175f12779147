//! The confirmation dialogs: what each of them says, whether it still applies,
//! and what its answers lead to.
use vstd::prelude::*;

use crate::app::{ExitState, FesTermApp};
#[allow(unused_imports)]
use crate::app::{FocusState, Shell};
use crate::commands::one_or_none;
#[allow(unused_imports)]
use crate::commands::at_most_one;
#[allow(unused_imports)]
use crate::confirmations::{counts_are_zero_where_nothing_is_lost, would_be_lost, OpenDocument};
use crate::effects::{AppCommand, Effect};
use crate::overlays::{
    AfterDocumentClose, LiveSessionCounts, OverlayState, PendingCloseConfirmation,
    PendingDocumentClose, PendingFileDropConfirmation, PendingPasteConfirmation,
    PendingQuitConfirmation, PendingSettingsResetConfirmation, QuitConfirmationPurpose,
};
use crate::paste::{bounded_paste_preview, paste_line_count};
#[allow(unused_imports)]
use crate::paste::{line_count, newlines, preview_covers, shown_text};
#[allow(unused_imports)]
use crate::state::session_of;
use crate::state::{TabId, Transport};
#[allow(unused_imports)]
use crate::text::{decimal, holds_text, optional_text};
use crate::text::{push_decimal, same_text};

verus! {

/// What was clicked in a dialog with a safe and a deliberate answer.
#[derive(Clone, Copy, Debug, PartialEq, Eq, Structural)]
pub enum DialogClick {
    Nothing,
    Cancel,
    Confirm,
}

impl DialogClick {
    /// The safe answer was given. It wins over the other one.
    pub open spec fn cancels(self, escape: bool) -> bool {
        escape || self == DialogClick::Cancel
    }

    fn is_cancel(self, escape: bool) -> (result: bool)
        ensures
            result == self.cancels(escape),
    {
        escape || matches!(self, DialogClick::Cancel)
    }
}

/// The effect of giving the keyboard back to tab `id`, where it is a session.
pub open spec fn refocus(app: FesTermApp, id: TabId) -> Seq<Effect> {
    if session_of(app.state.tabs@, id) is Some {
        seq![Effect::FocusTerminal(id)]
    } else {
        seq![]
    }
}

impl FesTermApp {
    /// Gives the keyboard back to tab `id`, where it is a session.
    pub fn push_refocus(&self, id: TabId, effects: &mut Vec<Effect>)
        ensures
            final(effects)@ == old(effects)@ + refocus(*self, id),
    {
        if self.state.session_tab(id).is_some() {
            effects.push(Effect::FocusTerminal(id));
        }
        assert(effects@ =~= old(effects)@ + refocus(*self, id));
    }
}

fn no_effects() -> (effects: Vec<Effect>)
    ensures
        effects@ == Seq::<Effect>::empty(),
{
    let effects: Vec<Effect> = Vec::new();
    assert(effects@ =~= Seq::<Effect>::empty());
    effects
}

/// The dialog that asks before a live session is closed.
pub struct CloseDialog {
    pub heading: String,
    pub message: &'static str,
    pub focus_cancel: bool,
}

impl FesTermApp {
    /// The session that a question about closing was asked about is still
    /// there, unchanged, and would still be lost.
    pub open spec fn close_still_applies(self, pending: PendingCloseConfirmation) -> bool {
        match session_of(self.state.tabs@, pending.tab) {
            Some(session) => {
                &&& session.close_requires_confirmation
                &&& session.lifecycle_generation == pending.lifecycle_generation
                &&& session.transport.still_ends(pending.consequence)
            },
            None => false,
        }
    }

    fn close_applies(&self, pending: &PendingCloseConfirmation) -> (result: bool)
        ensures
            result == self.close_still_applies(*pending),
    {
        match self.state.session_tab(pending.tab) {
            Some(session) => session.close_requires_confirmation && session.lifecycle_generation
                == pending.lifecycle_generation && session.transport.still_has_consequence(
                pending.consequence,
            ),
            None => false,
        }
    }

    /// The dialog to draw, where a question about closing still applies.
    pub fn close_dialog(&self) -> (dialog: Option<CloseDialog>)
        ensures
            match (self.shell.overlays.pending_close, dialog) {
                (Some(pending), Some(dialog)) => {
                    &&& self.close_still_applies(pending)
                    &&& dialog.heading@ == "Close \u{201c}"@ + pending.identity@ + "\u{201d}?"@
                    &&& dialog.message@ == pending.consequence.message_text()
                    &&& dialog.focus_cancel == !pending.cancel_focus_requested
                },
                (Some(pending), None) => !self.close_still_applies(pending),
                (None, dialog) => dialog is None,
            },
    {
        match &self.shell.overlays.pending_close {
            Some(pending) => if self.close_applies(pending) {
                let mut heading = "Close \u{201c}".to_owned();
                heading.append(pending.identity.as_str());
                heading.append("\u{201d}?");
                Some(
                    CloseDialog {
                        heading,
                        message: pending.consequence.message(),
                        focus_cancel: !pending.cancel_focus_requested,
                    },
                )
            } else {
                None
            },
            None => None,
        }
    }

    /// Drops the question about closing, and gives the keyboard back.
    pub fn cancel_close_confirmation(&mut self) -> (effects: Vec<Effect>)
        ensures
            *final(self) == old(self).with_overlays(
                OverlayState { pending_close: None, ..old(self).shell.overlays },
            ),
            effects@ == match old(self).shell.overlays.pending_close {
                Some(pending) => refocus(*old(self), pending.restore_tab),
                None => seq![],
            },
    {
        let mut effects = Vec::new();
        if let Some(pending) = self.shell.overlays.pending_close.take() {
            self.push_refocus(pending.restore_tab, &mut effects);
        }
        assert(effects@ =~= match old(self).shell.overlays.pending_close {
            Some(pending) => refocus(*old(self), pending.restore_tab),
            None => seq![],
        });
        effects
    }

    /// What an answer to the question about closing leads to. A question that
    /// no longer applies counts as cancelled.
    pub open spec fn close_answered(self, escape: bool, click: DialogClick) -> (Self, Seq<Effect>) {
        let overlays = self.shell.overlays;
        let closed = self.with_overlays(OverlayState { pending_close: None, ..overlays });
        match overlays.pending_close {
            None => (self, seq![]),
            Some(pending) => if !self.close_still_applies(pending) || click.cancels(escape) {
                (closed, refocus(self, pending.restore_tab))
            } else if click == DialogClick::Confirm {
                (closed, seq![Effect::Dispatch(AppCommand::CloseTab(pending.tab))])
            } else {
                (
                    self.with_overlays(
                        OverlayState {
                            pending_close: Some(
                                PendingCloseConfirmation {
                                    cancel_focus_requested: true,
                                    ..pending
                                },
                            ),
                            ..overlays
                        },
                    ),
                    seq![],
                )
            },
        }
    }

    /// Takes in the answer to the question about closing.
    pub fn show_close_confirmation(&mut self, escape: bool, click: DialogClick) -> (effects: Vec<
        Effect,
    >)
        ensures
            (*final(self), effects@) == old(self).close_answered(escape, click),
    {
        let (applies, tab) = match &self.shell.overlays.pending_close {
            Some(pending) => (self.close_applies(pending), pending.tab),
            None => return no_effects(),
        };
        if !applies || click.is_cancel(escape) {
            return self.cancel_close_confirmation();
        }
        let mut effects = Vec::new();
        if let Some(mut pending) = self.shell.overlays.pending_close.take() {
            if matches!(click, DialogClick::Confirm) {
                effects.push(Effect::Dispatch(AppCommand::CloseTab(tab)));
            } else {
                pending.cancel_focus_requested = true;
                self.shell.overlays.pending_close = Some(pending);
            }
        }
        assert(effects@ =~= old(self).close_answered(escape, click).1);
        effects
    }
}

/// The dialog that asks before every live session of a window is lost.
pub struct QuitDialog {
    pub heading: &'static str,
    pub consequence: &'static str,
    pub confirm_label: &'static str,
    pub counts: LiveSessionCounts,
    pub focus_cancel: bool,
}

impl QuitConfirmationPurpose {
    /// Heading, consequence and deliberate answer of the dialog.
    pub open spec fn wording(self) -> (Seq<char>, Seq<char>, Seq<char>) {
        match self {
            QuitConfirmationPurpose::Quit => (
                "Quit fesTerm?"@,
                "Unsaved terminal history will be discarded."@,
                "Quit fesTerm"@,
            ),
            QuitConfirmationPurpose::CloseWindow => (
                "Close this window?"@,
                "Unsaved terminal history will be discarded."@,
                "Close Window"@,
            ),
            QuitConfirmationPurpose::InstallUpdate => (
                "Install update and restart fesTerm?"@,
                "The update will close every session after installation succeeds."@,
                "Install and Restart"@,
            ),
        }
    }
}

impl FesTermApp {
    /// The dialog to draw, with what would be lost now. Where nothing would be
    /// any more, there is none.
    pub fn quit_dialog(&self) -> (dialog: Option<QuitDialog>)
        ensures
            match (self.shell.overlays.pending_quit, dialog) {
                (Some(pending), Some(dialog)) => {
                    &&& self.state.live_counts().total() > 0
                    &&& (dialog.heading@, dialog.consequence@, dialog.confirm_label@)
                        == pending.purpose.wording()
                    &&& dialog.counts == self.state.live_counts()
                    &&& dialog.focus_cancel == !pending.cancel_focus_requested
                },
                (Some(_), None) => self.state.live_counts().total() == 0,
                (None, dialog) => dialog is None,
            },
    {
        let pending = match &self.shell.overlays.pending_quit {
            Some(pending) => pending,
            None => return None,
        };
        let counts = self.state.live_session_counts();
        if counts.is_empty() {
            return None;
        }
        let (heading, consequence, confirm_label) = match pending.purpose {
            QuitConfirmationPurpose::Quit => (
                "Quit fesTerm?",
                "Unsaved terminal history will be discarded.",
                "Quit fesTerm",
            ),
            QuitConfirmationPurpose::CloseWindow => (
                "Close this window?",
                "Unsaved terminal history will be discarded.",
                "Close Window",
            ),
            QuitConfirmationPurpose::InstallUpdate => (
                "Install update and restart fesTerm?",
                "The update will close every session after installation succeeds.",
                "Install and Restart",
            ),
        };
        Some(
            QuitDialog {
                heading,
                consequence,
                confirm_label,
                counts,
                focus_cancel: !pending.cancel_focus_requested,
            },
        )
    }

    /// What an answer to the question about losing every live session leads to.
    /// The question goes away by itself once nothing would be lost.
    pub open spec fn quit_answered(self, escape: bool, click: DialogClick) -> (
        Self,
        Option<Effect>,
    ) {
        let overlays = self.shell.overlays;
        let exit = self.shell.exit;
        let closed = self.with_overlays(OverlayState { pending_quit: None, ..overlays });
        match overlays.pending_quit {
            None => (self, None),
            Some(pending) => if self.state.live_counts().total() == 0 || click.cancels(escape) {
                (closed, None)
            } else if click == DialogClick::Confirm {
                if pending.purpose == QuitConfirmationPurpose::InstallUpdate {
                    (
                        closed.with_exit(ExitState { update_restart_authorized: true, ..exit }),
                        Some(Effect::BeginUpdateInstall),
                    )
                } else {
                    (
                        closed.with_exit(ExitState { quit_confirmed: true, ..exit }),
                        Some(Effect::CloseViewport),
                    )
                }
            } else {
                (
                    self.with_overlays(
                        OverlayState {
                            pending_quit: Some(
                                PendingQuitConfirmation {
                                    counts: self.state.live_counts(),
                                    cancel_focus_requested: true,
                                    ..pending
                                },
                            ),
                            ..overlays
                        },
                    ),
                    None,
                )
            },
        }
    }

    /// Takes in the answer to the question about losing every live session.
    pub fn show_quit_confirmation(&mut self, escape: bool, click: DialogClick) -> (effect: Option<
        Effect,
    >)
        ensures
            (*final(self), effect) == old(self).quit_answered(escape, click),
    {
        let purpose = match &self.shell.overlays.pending_quit {
            Some(pending) => pending.purpose,
            None => return None,
        };
        let counts = self.state.live_session_counts();
        if counts.is_empty() || click.is_cancel(escape) {
            self.shell.overlays.pending_quit = None;
            return None;
        }
        if !matches!(click, DialogClick::Confirm) {
            self.shell.overlays.pending_quit = Some(
                PendingQuitConfirmation { counts, cancel_focus_requested: true, purpose },
            );
            return None;
        }
        self.shell.overlays.pending_quit = None;
        match purpose {
            QuitConfirmationPurpose::InstallUpdate => {
                self.shell.exit.update_restart_authorized = true;
                Some(Effect::BeginUpdateInstall)
            },
            _ => {
                self.shell.exit.quit_confirmed = true;
                Some(Effect::CloseViewport)
            },
        }
    }
}

/// What was clicked in the dialog about unsaved text.
#[derive(Clone, Copy, Debug, PartialEq, Eq, Structural)]
pub enum DocumentChoice {
    Nothing,
    Save,
    Discard,
    Cancel,
}

/// The dialog about unsaved text. Saving is its first answer.
pub struct DocumentDialog {
    pub heading: String,
    pub origin: String,
    pub focus_save: bool,
}

/// The step that was waiting for the answer about unsaved text.
pub open spec fn follow_up(next: AfterDocumentClose) -> Effect {
    match next {
        AfterDocumentClose::CloseTab(tab) => Effect::Dispatch(AppCommand::CloseTab(tab)),
        AfterDocumentClose::ResumeClose(_) => Effect::CloseViewport,
    }
}

fn following(next: AfterDocumentClose) -> (effect: Effect)
    ensures
        effect == follow_up(next),
{
    match next {
        AfterDocumentClose::CloseTab(tab) => Effect::Dispatch(AppCommand::CloseTab(tab)),
        AfterDocumentClose::ResumeClose(_) => Effect::CloseViewport,
    }
}

impl FesTermApp {
    /// The dialog to draw, where unsaved text is asked about.
    pub fn document_dialog(&self) -> (dialog: Option<DocumentDialog>)
        ensures
            match (self.shell.overlays.pending_document_close, dialog) {
                (Some(pending), Some(dialog)) => {
                    &&& dialog.heading@ == "Save changes to "@ + pending.title@ + "?"@
                    &&& dialog.origin == pending.origin
                    &&& dialog.focus_save == !pending.save_focus_requested
                },
                (Some(_), None) => false,
                (None, dialog) => dialog is None,
            },
    {
        match &self.shell.overlays.pending_document_close {
            Some(pending) => {
                let mut heading = "Save changes to ".to_owned();
                heading.append(pending.title.as_str());
                heading.append("?");
                Some(
                    DocumentDialog {
                        heading,
                        origin: pending.origin.clone(),
                        focus_save: !pending.save_focus_requested,
                    },
                )
            },
            None => None,
        }
    }

    /// What an answer about unsaved text leads to. Saving only begins here; the
    /// question stays until the text is written.
    pub open spec fn document_answered(self, escape: bool, choice: DocumentChoice) -> (
        Self,
        Seq<Effect>,
    ) {
        let overlays = self.shell.overlays;
        let closed = self.with_overlays(
            OverlayState { pending_document_close: None, ..overlays },
        );
        match overlays.pending_document_close {
            None => (self, seq![]),
            Some(pending) => if escape || choice == DocumentChoice::Cancel {
                (closed, seq![])
            } else if choice == DocumentChoice::Discard {
                (
                    closed,
                    seq![Effect::DiscardDocument(pending.document), follow_up(pending.next)],
                )
            } else {
                (
                    self.with_overlays(
                        OverlayState {
                            pending_document_close: Some(
                                PendingDocumentClose { save_focus_requested: true, ..pending },
                            ),
                            ..overlays
                        },
                    ),
                    if choice == DocumentChoice::Save {
                        seq![Effect::SaveDocument(pending.document)]
                    } else {
                        seq![]
                    },
                )
            },
        }
    }

    /// Takes in the answer about unsaved text.
    pub fn show_document_close_confirmation(&mut self, escape: bool, choice: DocumentChoice) -> (
    effects: Vec<Effect>)
        ensures
            (*final(self), effects@) == old(self).document_answered(escape, choice),
    {
        let mut effects = Vec::new();
        if let Some(mut pending) = self.shell.overlays.pending_document_close.take() {
            if escape || matches!(choice, DocumentChoice::Cancel) {
            } else if matches!(choice, DocumentChoice::Discard) {
                effects.push(Effect::DiscardDocument(pending.document));
                effects.push(following(pending.next));
            } else {
                if matches!(choice, DocumentChoice::Save) {
                    effects.push(Effect::SaveDocument(pending.document));
                }
                pending.save_focus_requested = true;
                self.shell.overlays.pending_document_close = Some(pending);
            }
        }
        assert(effects@ =~= old(self).document_answered(escape, choice).1);
        effects
    }

    /// Takes in how writing the unsaved text went: what was waiting goes on
    /// once it is written, and otherwise the question stays.
    pub fn document_written(&mut self, written: bool) -> (effect: Option<Effect>)
        ensures
            match old(self).shell.overlays.pending_document_close {
                Some(pending) => if written {
                    &&& *final(self) == old(self).with_overlays(
                        OverlayState {
                            pending_document_close: None,
                            ..old(self).shell.overlays
                        },
                    )
                    &&& effect == Some(follow_up(pending.next))
                } else {
                    *final(self) == *old(self) && effect is None
                },
                None => *final(self) == *old(self) && effect is None,
            },
    {
        if !written {
            return None;
        }
        match self.shell.overlays.pending_document_close.take() {
            Some(pending) => Some(following(pending.next)),
            None => None,
        }
    }
}

/// The dialog that shows dropped paths before they are typed in.
pub struct FileDropDialog {
    pub heading: String,
    pub preview: String,
    /// How many characters of the text the preview covers.
    pub shown_characters: usize,
    pub omission: Option<String>,
    pub focus_cancel: bool,
}

pub open spec fn file_drop_heading(count: nat, identity: Seq<char>) -> Seq<char> {
    "Insert "@ + decimal(count) + (if count == 1 {
        " path into \u{201c}"@
    } else {
        " paths into \u{201c}"@
    }) + identity + "\u{201d}?"@
}

/// What is said about characters that a preview leaves out.
pub open spec fn file_drop_omission(count: int) -> Option<Seq<char>> {
    if count > 0 {
        Some("Preview omits "@ + decimal(count as nat) + " characters."@)
    } else {
        None
    }
}

impl FesTermApp {
    /// Dropped paths can still be typed in: their tab is in front, and holds
    /// the same local session, which takes input.
    pub open spec fn file_drop_still_applies(self, pending: PendingFileDropConfirmation) -> bool {
        &&& self.state.active == pending.tab
        &&& match session_of(self.state.tabs@, pending.tab) {
            Some(session) => {
                &&& session.accepts_input
                &&& session.lifecycle_generation == pending.lifecycle_generation
                &&& session.transport is Local
            },
            None => false,
        }
    }

    fn file_drop_applies(&self, pending: &PendingFileDropConfirmation) -> (result: bool)
        ensures
            result == self.file_drop_still_applies(*pending),
    {
        self.state.active == pending.tab && match self.state.session_tab(pending.tab) {
            Some(session) => session.accepts_input && session.lifecycle_generation
                == pending.lifecycle_generation && matches!(
                session.transport,
                Transport::Local { .. }
            ),
            None => false,
        }
    }

    /// The dialog to draw, where dropped paths can still be typed in.
    pub fn file_drop_dialog(&self) -> (dialog: Option<FileDropDialog>)
        ensures
            match (self.shell.overlays.pending_file_drop, dialog) {
                (Some(pending), Some(dialog)) => {
                    let shown = dialog.shown_characters as int;
                    &&& self.file_drop_still_applies(pending)
                    &&& dialog.heading@ == file_drop_heading(
                        pending.path_count as nat,
                        pending.identity@,
                    )
                    &&& preview_covers(pending.text@, shown)
                    &&& dialog.preview@ == shown_text(pending.text@.take(shown))
                    &&& optional_text(dialog.omission) == file_drop_omission(
                        pending.text@.len() - shown,
                    )
                    &&& dialog.focus_cancel == !pending.cancel_focus_requested
                },
                (Some(pending), None) => !self.file_drop_still_applies(pending),
                (None, dialog) => dialog is None,
            },
    {
        let pending = match &self.shell.overlays.pending_file_drop {
            Some(pending) => pending,
            None => return None,
        };
        if !self.file_drop_applies(pending) {
            return None;
        }
        let (preview, _lines, shown_characters) = bounded_paste_preview(pending.text.as_str());
        let omitted: usize = pending.text.as_str().unicode_len() - shown_characters;
        let omission = if omitted > 0 {
            let mut text = "Preview omits ".to_owned();
            push_decimal(&mut text, omitted as u128);
            text.append(" characters.");
            Some(text)
        } else {
            None
        };
        let mut heading = "Insert ".to_owned();
        push_decimal(&mut heading, pending.path_count as u128);
        if pending.path_count == 1 {
            heading.append(" path into \u{201c}");
        } else {
            heading.append(" paths into \u{201c}");
        }
        heading.append(pending.identity.as_str());
        heading.append("\u{201d}?");
        Some(
            FileDropDialog {
                heading,
                preview,
                shown_characters,
                omission,
                focus_cancel: !pending.cancel_focus_requested,
            },
        )
    }

    /// Drops the question about dropped paths, and gives the keyboard back.
    pub fn cancel_file_drop_confirmation(&mut self) -> (effects: Vec<Effect>)
        ensures
            *final(self) == old(self).with_overlays(
                OverlayState { pending_file_drop: None, ..old(self).shell.overlays },
            ),
            effects@ == match old(self).shell.overlays.pending_file_drop {
                Some(pending) => refocus(*old(self), pending.tab),
                None => seq![],
            },
    {
        let mut effects = Vec::new();
        if let Some(pending) = self.shell.overlays.pending_file_drop.take() {
            self.push_refocus(pending.tab, &mut effects);
        }
        assert(effects@ =~= match old(self).shell.overlays.pending_file_drop {
            Some(pending) => refocus(*old(self), pending.tab),
            None => seq![],
        });
        effects
    }

    /// What an answer about dropped paths leads to. They are only ever typed
    /// into the session they were dropped on, and only when that was confirmed.
    pub open spec fn file_drop_answered(self, escape: bool, click: DialogClick) -> (
        Self,
        Seq<Effect>,
    ) {
        let overlays = self.shell.overlays;
        let closed = self.with_overlays(OverlayState { pending_file_drop: None, ..overlays });
        match overlays.pending_file_drop {
            None => (self, seq![]),
            Some(pending) => if !self.file_drop_still_applies(pending) || click.cancels(escape) {
                (closed, refocus(self, pending.tab))
            } else if click == DialogClick::Confirm {
                (closed, seq![Effect::InsertText { tab: pending.tab, text: pending.text }])
            } else {
                (
                    self.with_overlays(
                        OverlayState {
                            pending_file_drop: Some(
                                PendingFileDropConfirmation {
                                    cancel_focus_requested: true,
                                    ..pending
                                },
                            ),
                            ..overlays
                        },
                    ),
                    seq![],
                )
            },
        }
    }

    /// Takes in the answer about dropped paths.
    pub fn show_file_drop_confirmation(&mut self, escape: bool, click: DialogClick) -> (effects: Vec<
        Effect,
    >)
        ensures
            (*final(self), effects@) == old(self).file_drop_answered(escape, click),
    {
        let applies = match &self.shell.overlays.pending_file_drop {
            Some(pending) => self.file_drop_applies(pending),
            None => return no_effects(),
        };
        if !applies || click.is_cancel(escape) {
            return self.cancel_file_drop_confirmation();
        }
        let mut effects = Vec::new();
        if let Some(mut pending) = self.shell.overlays.pending_file_drop.take() {
            if matches!(click, DialogClick::Confirm) {
                effects.push(Effect::InsertText { tab: pending.tab, text: pending.text });
            } else {
                pending.cancel_focus_requested = true;
                self.shell.overlays.pending_file_drop = Some(pending);
            }
        }
        assert(effects@ =~= old(self).file_drop_answered(escape, click).1);
        effects
    }
}

/// The dialog that shows a paste before it is sent.
pub struct PasteDialog {
    pub heading: String,
    pub delivery: &'static str,
    pub target: String,
    /// Keys typed meanwhile wait behind the paste.
    pub holds_input: bool,
    pub preview: String,
    /// How many characters of the text the preview covers.
    pub shown_characters: usize,
    pub omission: Option<String>,
    /// The dialog opened in this very frame and takes no answer yet.
    pub disabled: bool,
    pub focus_cancel: bool,
}

/// A number of lines, in words.
pub open spec fn lines_text(count: nat) -> Seq<char> {
    decimal(count) + (if count == 1 {
        " line"@
    } else {
        " lines"@
    })
}

fn push_lines(out: &mut String, count: usize)
    ensures
        final(out)@ == old(out)@ + lines_text(count as nat),
{
    push_decimal(out, count as u128);
    if count == 1 {
        out.append(" line");
    } else {
        out.append(" lines");
    }
    assert(out@ =~= old(out)@ + lines_text(count as nat));
}

pub open spec fn paste_heading(lines: nat, identity: Seq<char>) -> Seq<char> {
    "Paste "@ + lines_text(lines) + " into \u{201c}"@ + identity + "\u{201d}?"@
}

pub open spec fn paste_target(state: Seq<char>, lines: nat, characters: nat) -> Seq<char> {
    "Target state: "@ + state + " \u{00b7} "@ + lines_text(lines) + " \u{00b7} "@ + decimal(
        characters,
    ) + " characters"@
}

/// What is said about the lines and characters that a preview leaves out.
pub open spec fn paste_omission(lines: int, characters: int) -> Option<Seq<char>> {
    if lines > 0 || characters > 0 {
        Some(
            "Preview omits "@ + decimal(lines as nat) + " lines and "@ + decimal(characters as nat)
                + " characters."@,
        )
    } else {
        None
    }
}

pub open spec fn paste_delivery(bracketed_paste: bool) -> Seq<char> {
    if bracketed_paste {
        "This large paste will be sent as one bracketed input operation."@
    } else {
        "Bracketed paste is not active; a line may execute immediately."@
    }
}

impl FesTermApp {
    /// A paste can still be sent: its tab is in front, nobody else has had the
    /// keyboard since, and the session is as it was when the paste came.
    pub open spec fn paste_still_applies(self, pending: PendingPasteConfirmation) -> bool {
        &&& self.state.active == pending.tab
        &&& self.shell.focus.ownership_epoch == pending.input_ownership_epoch
        &&& match session_of(self.state.tabs@, pending.tab) {
            Some(session) => {
                &&& session.accepts_input
                &&& pending.clipboard_token is Some ==> session.clipboard_pending
                    == pending.clipboard_token
                &&& session.lifecycle_generation == pending.lifecycle_generation
                &&& session.bracketed_paste == pending.bracketed_paste
                &&& session.status_label@ == pending.transport_state@
            },
            None => false,
        }
    }

    fn paste_applies(&self, pending: &PendingPasteConfirmation) -> (result: bool)
        ensures
            result == self.paste_still_applies(*pending),
    {
        if self.state.active != pending.tab || self.shell.focus.ownership_epoch
            != pending.input_ownership_epoch {
            return false;
        }
        match self.state.session_tab(pending.tab) {
            Some(session) => {
                let in_turn = match (pending.clipboard_token, session.clipboard_pending) {
                    (Some(token), Some(waiting)) => token == waiting,
                    (Some(_), None) => false,
                    (None, _) => true,
                };
                session.accepts_input && in_turn && session.lifecycle_generation
                    == pending.lifecycle_generation && session.bracketed_paste
                    == pending.bracketed_paste && same_text(
                    session.status_label.as_str(),
                    pending.transport_state.as_str(),
                )
            },
            None => false,
        }
    }

    /// The dialog to draw, where a paste can still be sent.
    pub fn paste_dialog(&self, frame: u64) -> (dialog: Option<PasteDialog>)
        ensures
            match (self.shell.overlays.pending_paste, dialog) {
                (Some(pending), Some(dialog)) => {
                    let shown = dialog.shown_characters as int;
                    let lines = line_count(pending.text@);
                    &&& self.paste_still_applies(pending)
                    &&& dialog.heading@ == paste_heading(lines, pending.identity@)
                    &&& dialog.delivery@ == paste_delivery(pending.bracketed_paste)
                    &&& dialog.target@ == paste_target(
                        pending.transport_state@,
                        lines,
                        pending.text@.len(),
                    )
                    &&& dialog.holds_input == (pending.clipboard_token is Some)
                    &&& preview_covers(pending.text@, shown)
                    &&& dialog.preview@ == shown_text(pending.text@.take(shown))
                    &&& optional_text(dialog.omission) == paste_omission(
                        lines - (newlines(pending.text@.take(shown)) + 1),
                        pending.text@.len() - shown,
                    )
                    &&& dialog.disabled == self.confirmation_opening(frame)
                    &&& dialog.focus_cancel == (!pending.cancel_focus_requested
                        && !self.confirmation_opening(frame))
                },
                (Some(pending), None) => !self.paste_still_applies(pending),
                (None, dialog) => dialog is None,
            },
    {
        let pending = match &self.shell.overlays.pending_paste {
            Some(pending) => pending,
            None => return None,
        };
        if !self.paste_applies(pending) {
            return None;
        }
        let disabled = self.clipboard_confirmation_opening(frame);
        let lines: usize = paste_line_count(pending.text.as_str());
        let characters: usize = pending.text.as_str().unicode_len();
        let (preview, shown_lines, shown_characters) = bounded_paste_preview(pending.text.as_str());
        let omitted_characters: usize = characters - shown_characters;
        proof {
            newlines_of_prefix(pending.text@, shown_characters as int);
        }
        let omitted_lines: usize = lines - shown_lines;
        let omission = if omitted_lines > 0 || omitted_characters > 0 {
            let mut text = "Preview omits ".to_owned();
            push_decimal(&mut text, omitted_lines as u128);
            text.append(" lines and ");
            push_decimal(&mut text, omitted_characters as u128);
            text.append(" characters.");
            Some(text)
        } else {
            None
        };
        let mut heading = "Paste ".to_owned();
        push_lines(&mut heading, lines);
        heading.append(" into \u{201c}");
        heading.append(pending.identity.as_str());
        heading.append("\u{201d}?");
        let mut target = "Target state: ".to_owned();
        target.append(pending.transport_state.as_str());
        target.append(" \u{00b7} ");
        push_lines(&mut target, lines);
        target.append(" \u{00b7} ");
        push_decimal(&mut target, characters as u128);
        target.append(" characters");
        Some(
            PasteDialog {
                heading,
                delivery: if pending.bracketed_paste {
                    "This large paste will be sent as one bracketed input operation."
                } else {
                    "Bracketed paste is not active; a line may execute immediately."
                },
                target,
                holds_input: pending.clipboard_token.is_some(),
                preview,
                shown_characters,
                omission,
                disabled,
                focus_cancel: !pending.cancel_focus_requested && !disabled,
            },
        )
    }

    /// What dropping a paste asks for: the place it held in the input queue is
    /// given up, the keyboard goes back, and what followed is accounted for.
    pub open spec fn paste_cancelled(self, pending: PendingPasteConfirmation) -> Seq<Effect> {
        (if session_of(self.state.tabs@, pending.tab) is Some {
            (match pending.clipboard_token {
                Some(token) => seq![Effect::CancelClipboardInput { tab: pending.tab, token }],
                None => seq![],
            }) + seq![Effect::FocusTerminal(pending.tab)]
        } else {
            seq![]
        }) + seq![Effect::ReportClipboardDiscards(pending.tab)]
    }

    /// Drops the question about a paste, and the paste with it.
    pub fn cancel_paste_confirmation(&mut self) -> (effects: Vec<Effect>)
        ensures
            *final(self) == old(self).with_overlays(
                OverlayState { pending_paste: None, ..old(self).shell.overlays },
            ),
            effects@ == match old(self).shell.overlays.pending_paste {
                Some(pending) => old(self).paste_cancelled(pending),
                None => seq![],
            },
    {
        let mut effects = Vec::new();
        if let Some(pending) = self.shell.overlays.pending_paste.take() {
            if self.state.session_tab(pending.tab).is_some() {
                if let Some(token) = pending.clipboard_token {
                    effects.push(Effect::CancelClipboardInput { tab: pending.tab, token });
                }
                effects.push(Effect::FocusTerminal(pending.tab));
            }
            effects.push(Effect::ReportClipboardDiscards(pending.tab));
            assert(effects@ =~= old(self).paste_cancelled(pending));
        } else {
            assert(effects@ =~= seq![]);
        }
        effects
    }

    /// What an answer about a paste leads to. It is only ever sent to the
    /// session it was meant for, unchanged since, and only when that was
    /// confirmed.
    pub open spec fn paste_answered(self, frame: u64, escape: bool, click: DialogClick) -> (
        Self,
        Seq<Effect>,
    ) {
        let overlays = self.shell.overlays;
        let opening = self.confirmation_opening(frame);
        let closed = self.with_overlays(OverlayState { pending_paste: None, ..overlays });
        let repaint = if opening {
            seq![Effect::Repaint]
        } else {
            seq![]
        };
        match overlays.pending_paste {
            None => (self, seq![]),
            Some(pending) => if !self.paste_still_applies(pending) {
                (closed, self.paste_cancelled(pending))
            } else if click.cancels(escape) {
                (closed, repaint + self.paste_cancelled(pending))
            } else if click == DialogClick::Confirm {
                (
                    closed,
                    repaint + seq![
                        Effect::DeliverPaste {
                            tab: pending.tab,
                            token: pending.clipboard_token,
                            text: pending.text,
                        },
                    ],
                )
            } else {
                (
                    self.with_overlays(
                        OverlayState {
                            pending_paste: Some(
                                PendingPasteConfirmation {
                                    cancel_focus_requested: !opening,
                                    ..pending
                                },
                            ),
                            ..overlays
                        },
                    ),
                    repaint,
                )
            },
        }
    }

    /// Takes in the answer about a paste.
    pub fn show_paste_confirmation(&mut self, frame: u64, escape: bool, click: DialogClick) -> (
    effects: Vec<Effect>)
        ensures
            (*final(self), effects@) == old(self).paste_answered(frame, escape, click),
    {
        let opening = self.clipboard_confirmation_opening(frame);
        let applies = match &self.shell.overlays.pending_paste {
            Some(pending) => self.paste_applies(pending),
            None => return no_effects(),
        };
        if !applies {
            return self.cancel_paste_confirmation();
        }
        let mut effects = Vec::new();
        if opening {
            effects.push(Effect::Repaint);
        }
        let ghost repaint = if opening {
            seq![Effect::Repaint]
        } else {
            seq![]
        };
        assert(effects@ =~= repaint);
        if click.is_cancel(escape) {
            let mut more = self.cancel_paste_confirmation();
            effects.append(&mut more);
            return effects;
        }
        if let Some(mut pending) = self.shell.overlays.pending_paste.take() {
            let ghost asked = pending;
            if matches!(click, DialogClick::Confirm) {
                effects.push(
                    Effect::DeliverPaste {
                        tab: pending.tab,
                        token: pending.clipboard_token,
                        text: pending.text,
                    },
                );
                assert(effects@ =~= repaint + seq![
                    Effect::DeliverPaste {
                        tab: asked.tab,
                        token: asked.clipboard_token,
                        text: asked.text,
                    },
                ]);
            } else {
                pending.cancel_focus_requested = !opening;
                self.shell.overlays.pending_paste = Some(pending);
            }
        }
        effects
    }
}

/// A stretch of a text has no more lines than the text.
proof fn newlines_of_prefix(s: Seq<char>, n: int)
    requires
        0 <= n <= s.len(),
    ensures
        newlines(s.take(n)) <= newlines(s),
    decreases s.len() - n,
{
    if n < s.len() {
        newlines_of_prefix(s, n + 1);
        assert(s.take(n + 1).drop_last() =~= s.take(n));
    } else {
        assert(s.take(n) =~= s);
    }
}

impl FesTermApp {
    /// Resets the interface settings, or asks first where they have been
    /// changed. `at_defaults` says that they have not.
    pub fn request_reset_interface_settings(&mut self, at_defaults: bool) -> (effect: Option<Effect>)
        ensures
            if at_defaults {
                &&& *final(self) == *old(self)
                &&& effect == Some(Effect::Dispatch(AppCommand::ResetInterfaceSettings))
            } else {
                &&& effect is None
                &&& *final(self) == old(self).palette_closed().with_overlays(
                    OverlayState {
                        pending_settings_reset: Some(
                            PendingSettingsResetConfirmation { cancel_focus_requested: false },
                        ),
                        ..old(self).shell.overlays
                    },
                )
            },
    {
        if at_defaults {
            return Some(Effect::Dispatch(AppCommand::ResetInterfaceSettings));
        }
        self.shell.focus.palette_open = false;
        self.shell.overlays.pending_settings_reset = Some(
            PendingSettingsResetConfirmation { cancel_focus_requested: false },
        );
        None
    }

    /// What an answer about resetting the settings leads to. The question goes
    /// away by itself once they are at their defaults.
    pub open spec fn reset_answered(self, at_defaults: bool, escape: bool, click: DialogClick) -> (
        Self,
        Seq<Effect>,
    ) {
        let overlays = self.shell.overlays;
        let closed = self.with_overlays(
            OverlayState { pending_settings_reset: None, ..overlays },
        );
        match overlays.pending_settings_reset {
            None => (self, seq![]),
            Some(_) => if at_defaults || click.cancels(escape) {
                (closed, seq![])
            } else if click == DialogClick::Confirm {
                (
                    closed,
                    seq![
                        Effect::Dispatch(AppCommand::ResetInterfaceSettings),
                        Effect::ReinstallTerminalFont,
                        Effect::PersistInterfaceSettings,
                    ],
                )
            } else {
                (
                    self.with_overlays(
                        OverlayState {
                            pending_settings_reset: Some(
                                PendingSettingsResetConfirmation { cancel_focus_requested: true },
                            ),
                            ..overlays
                        },
                    ),
                    seq![],
                )
            },
        }
    }

    /// Takes in the answer about resetting the settings.
    pub fn show_settings_reset_confirmation(
        &mut self,
        at_defaults: bool,
        escape: bool,
        click: DialogClick,
    ) -> (effects: Vec<Effect>)
        ensures
            (*final(self), effects@) == old(self).reset_answered(at_defaults, escape, click),
    {
        let mut effects = Vec::new();
        if self.shell.overlays.pending_settings_reset.is_some() {
            if at_defaults || click.is_cancel(escape) {
                self.shell.overlays.pending_settings_reset = None;
            } else if matches!(click, DialogClick::Confirm) {
                self.shell.overlays.pending_settings_reset = None;
                effects.push(Effect::Dispatch(AppCommand::ResetInterfaceSettings));
                effects.push(Effect::ReinstallTerminalFont);
                effects.push(Effect::PersistInterfaceSettings);
            } else {
                self.shell.overlays.pending_settings_reset = Some(
                    PendingSettingsResetConfirmation { cancel_focus_requested: true },
                );
            }
        }
        assert(effects@ =~= old(self).reset_answered(at_defaults, escape, click).1);
        effects
    }
}

/// The confirmations, of which one is shown at a time.
#[derive(Clone, Copy, Debug, PartialEq, Eq, Structural)]
pub enum Confirmation {
    CloseTab,
    Document,
    Quit,
    SettingsReset,
    FileDrop,
    Paste,
}

impl OverlayState {
    /// The confirmation that is shown: of several, the first in this order.
    pub open spec fn shown_confirmation(self) -> Option<Confirmation> {
        if self.pending_close is Some {
            Some(Confirmation::CloseTab)
        } else if self.pending_document_close is Some {
            Some(Confirmation::Document)
        } else if self.pending_quit is Some {
            Some(Confirmation::Quit)
        } else if self.pending_settings_reset is Some {
            Some(Confirmation::SettingsReset)
        } else if self.pending_file_drop is Some {
            Some(Confirmation::FileDrop)
        } else if self.pending_paste is Some {
            Some(Confirmation::Paste)
        } else {
            None
        }
    }

    pub fn confirmation(&self) -> (shown: Option<Confirmation>)
        ensures
            shown == self.shown_confirmation(),
    {
        if self.pending_close.is_some() {
            Some(Confirmation::CloseTab)
        } else if self.pending_document_close.is_some() {
            Some(Confirmation::Document)
        } else if self.pending_quit.is_some() {
            Some(Confirmation::Quit)
        } else if self.pending_settings_reset.is_some() {
            Some(Confirmation::SettingsReset)
        } else if self.pending_file_drop.is_some() {
            Some(Confirmation::FileDrop)
        } else if self.pending_paste.is_some() {
            Some(Confirmation::Paste)
        } else {
            None
        }
    }
}

/// What was done in the confirmation that is shown.
#[derive(Clone, Copy, Debug, PartialEq, Eq, Structural)]
pub struct ConfirmationAnswer {
    pub escape: bool,
    pub click: DialogClick,
    /// What was clicked in the dialog about unsaved text.
    pub choice: DocumentChoice,
}

impl FesTermApp {
    /// What an answer to the confirmation that is shown leads to. The others
    /// wait. `at_defaults` says that the settings are at their defaults.
    pub open spec fn confirmation_answered(
        self,
        frame: u64,
        at_defaults: bool,
        answer: ConfirmationAnswer,
    ) -> (Self, Seq<Effect>) {
        match self.shell.overlays.shown_confirmation() {
            Some(Confirmation::CloseTab) => self.close_answered(answer.escape, answer.click),
            Some(Confirmation::Document) => self.document_answered(answer.escape, answer.choice),
            Some(Confirmation::Quit) => {
                let (after, effect) = self.quit_answered(answer.escape, answer.click);
                (after, at_most_one(effect))
            },
            Some(Confirmation::SettingsReset) => self.reset_answered(
                at_defaults,
                answer.escape,
                answer.click,
            ),
            Some(Confirmation::FileDrop) => self.file_drop_answered(answer.escape, answer.click),
            Some(Confirmation::Paste) => self.paste_answered(frame, answer.escape, answer.click),
            None => (self, seq![]),
        }
    }

    /// Takes in the answer to the confirmation that is shown.
    pub fn answer_confirmation(
        &mut self,
        frame: u64,
        at_defaults: bool,
        answer: ConfirmationAnswer,
    ) -> (effects: Vec<Effect>)
        ensures
            (*final(self), effects@) == old(self).confirmation_answered(
                frame,
                at_defaults,
                answer,
            ),
    {
        match self.shell.overlays.confirmation() {
            Some(Confirmation::CloseTab) => self.show_close_confirmation(
                answer.escape,
                answer.click,
            ),
            Some(Confirmation::Document) => self.show_document_close_confirmation(
                answer.escape,
                answer.choice,
            ),
            Some(Confirmation::Quit) => {
                let effect = self.show_quit_confirmation(answer.escape, answer.click);
                one_or_none(effect)
            },
            Some(Confirmation::SettingsReset) => self.show_settings_reset_confirmation(
                at_defaults,
                answer.escape,
                answer.click,
            ),
            Some(Confirmation::FileDrop) => self.show_file_drop_confirmation(
                answer.escape,
                answer.click,
            ),
            Some(Confirmation::Paste) => self.show_paste_confirmation(
                frame,
                answer.escape,
                answer.click,
            ),
            None => no_effects(),
        }
    }
}

/// An effect that loses or sends something.
pub open spec fn consequential(effect: Effect) -> bool {
    match effect {
        Effect::Dispatch(_) => true,
        Effect::CloseViewport => true,
        Effect::BeginUpdateInstall => true,
        Effect::DeliverPaste { .. } => true,
        Effect::InsertText { .. } => true,
        Effect::DiscardDocument(_) => true,
        Effect::SaveDocument(_) => true,
        Effect::PersistInterfaceSettings => true,
        _ => false,
    }
}

/// Nothing is lost or sent, and neither the tabs nor the way out change.
#[verifier::opaque]
pub open spec fn harmless(app: FesTermApp, outcome: (FesTermApp, Seq<Effect>)) -> bool {
    &&& forall|i: int| 0 <= i < outcome.1.len() ==> !consequential(#[trigger] outcome.1[i])
    &&& outcome.0.shell.exit == app.shell.exit
    &&& outcome.0.state == app.state
}

proof fn close_is_safe(app: FesTermApp, escape: bool, click: DialogClick)
    requires
        escape || click != DialogClick::Confirm,
    ensures
        harmless(app, app.close_answered(escape, click)),
{
    reveal(harmless);
}

proof fn reset_is_safe(app: FesTermApp, at_defaults: bool, escape: bool, click: DialogClick)
    requires
        escape || click != DialogClick::Confirm,
    ensures
        harmless(app, app.reset_answered(at_defaults, escape, click)),
{
    reveal(harmless);
}

proof fn file_drop_is_safe(app: FesTermApp, escape: bool, click: DialogClick)
    requires
        escape || click != DialogClick::Confirm,
    ensures
        harmless(app, app.file_drop_answered(escape, click)),
{
    reveal(harmless);
}

proof fn paste_is_safe(app: FesTermApp, frame: u64, escape: bool, click: DialogClick)
    requires
        escape || click != DialogClick::Confirm,
    ensures
        harmless(app, app.paste_answered(frame, escape, click)),
{
    reveal(harmless);
}

proof fn document_is_safe(app: FesTermApp, escape: bool, choice: DocumentChoice)
    requires
        escape || (choice != DocumentChoice::Save && choice != DocumentChoice::Discard),
    ensures
        harmless(app, app.document_answered(escape, choice)),
{
    reveal(harmless);
}

proof fn quit_is_safe(app: FesTermApp, escape: bool, click: DialogClick)
    requires
        escape || click != DialogClick::Confirm,
    ensures
        harmless(
            app,
            (app.quit_answered(escape, click).0, at_most_one(app.quit_answered(escape, click).1)),
        ),
{
    reveal(harmless);
}

/// Every confirmation is safe by default: unless its deliberate answer is
/// clicked, and with Escape whatever else is, nothing is closed, quit, sent,
/// typed in, saved, discarded or reset.
pub proof fn confirmations_are_safe_by_default(
    app: FesTermApp,
    frame: u64,
    at_defaults: bool,
    answer: ConfirmationAnswer,
)
    requires
        answer.escape || (answer.click != DialogClick::Confirm && answer.choice
            != DocumentChoice::Save && answer.choice != DocumentChoice::Discard),
    ensures
        ({
            let (after, effects) = app.confirmation_answered(frame, at_defaults, answer);
            &&& forall|i: int| 0 <= i < effects.len() ==> !consequential(#[trigger] effects[i])
            &&& after.shell.exit == app.shell.exit
            &&& after.state == app.state
        }),
{
    close_is_safe(app, answer.escape, answer.click);
    document_is_safe(app, answer.escape, answer.choice);
    quit_is_safe(app, answer.escape, answer.click);
    reset_is_safe(app, at_defaults, answer.escape, answer.click);
    file_drop_is_safe(app, answer.escape, answer.click);
    paste_is_safe(app, frame, answer.escape, answer.click);
    reveal(harmless);
}

/// Closing a tab and confirming closes that tab: whichever tab is in front, the
/// answer to the question that a request to close tab `id` opened asks for
/// closing `id` and for nothing else. A local session that outlives its tab has
/// nothing to lose, so its question would go away by itself.
pub proof fn confirming_closes_the_tab_that_was_asked_about(
    app: FesTermApp,
    id: TabId,
    documents: Seq<OpenDocument>,
)
    requires
        app.shell.overlays.pending_document_close is None,
        ({
            let session = session_of(app.state.tabs@, id);
            !(session is Some && session->Some_0.transport is Local
                && session->Some_0.transport->Local_persistence is Some)
        }),
    ensures
        ({
            let (asked, effect) = app.tab_close_outcome(id, documents);
            let overlays = asked.shell.overlays;
            let closing = Effect::Dispatch(AppCommand::CloseTab(id));
            &&& effect is Some ==> effect == Some(closing)
            &&& effect is None && overlays.pending_document_close is None ==> {
                let (after, effects) = asked.close_answered(false, DialogClick::Confirm);
                &&& effects == seq![closing]
                &&& after.shell.overlays.pending_close is None
                &&& after.state == app.state
            }
            &&& effect is None && overlays.pending_document_close is Some ==> {
                let (after, effects) = asked.document_answered(false, DocumentChoice::Discard);
                &&& effects.len() == 2
                &&& effects[0] == Effect::DiscardDocument(
                    overlays.pending_document_close->Some_0.document,
                )
                &&& effects[1] == closing
                &&& follow_up(overlays.pending_document_close->Some_0.next) == closing
                &&& after.shell.overlays.pending_document_close is None
                &&& after.state == app.state
            }
        }),
{
}

/// Whatever of `effects` closes a tab closes the one that the open question of
/// `app` names, and that was confirmed.
#[verifier::opaque]
pub open spec fn closes_only_what_was_asked(
    app: FesTermApp,
    answer: ConfirmationAnswer,
    effects: Seq<Effect>,
) -> bool {
    let overlays = app.shell.overlays;
    forall|i: int|
        0 <= i < effects.len() ==> match #[trigger] effects[i] {
            Effect::Dispatch(AppCommand::CloseTab(closed)) => !answer.escape && {
                ||| {
                    &&& overlays.pending_close is Some
                    &&& overlays.pending_close->Some_0.tab == closed
                    &&& answer.click == DialogClick::Confirm
                    &&& session_of(app.state.tabs@, closed) is Some
                    &&& session_of(app.state.tabs@, closed)->Some_0.lifecycle_generation
                        == overlays.pending_close->Some_0.lifecycle_generation
                }
                ||| {
                    &&& overlays.pending_document_close is Some
                    &&& overlays.pending_document_close->Some_0.next
                        == AfterDocumentClose::CloseTab(closed)
                    &&& answer.choice == DocumentChoice::Discard
                }
            },
            _ => true,
        }
}

proof fn answers_close_only_that(
    app: FesTermApp,
    frame: u64,
    at_defaults: bool,
    answer: ConfirmationAnswer,
)
    ensures
        closes_only_what_was_asked(
            app,
            answer,
            app.close_answered(answer.escape, answer.click).1,
        ),
        closes_only_what_was_asked(
            app,
            answer,
            app.document_answered(answer.escape, answer.choice).1,
        ),
        closes_only_what_was_asked(
            app,
            answer,
            at_most_one(app.quit_answered(answer.escape, answer.click).1),
        ),
        closes_only_what_was_asked(app, answer, seq![]),
{
    reveal(closes_only_what_was_asked);
}

proof fn other_answers_close_nothing(
    app: FesTermApp,
    frame: u64,
    at_defaults: bool,
    answer: ConfirmationAnswer,
)
    ensures
        closes_only_what_was_asked(
            app,
            answer,
            app.reset_answered(at_defaults, answer.escape, answer.click).1,
        ),
        closes_only_what_was_asked(
            app,
            answer,
            app.file_drop_answered(answer.escape, answer.click).1,
        ),
        closes_only_what_was_asked(
            app,
            answer,
            app.paste_answered(frame, answer.escape, answer.click).1,
        ),
{
    reveal(closes_only_what_was_asked);
}

/// An answer closes no tab but the one that the open question names, and only
/// where it was confirmed.
pub proof fn answers_close_no_other_tab(
    app: FesTermApp,
    frame: u64,
    at_defaults: bool,
    answer: ConfirmationAnswer,
)
    ensures
        closes_only_what_was_asked(
            app,
            answer,
            app.confirmation_answered(frame, at_defaults, answer).1,
        ),
{
    answers_close_only_that(app, frame, at_defaults, answer);
    other_answers_close_nothing(app, frame, at_defaults, answer);
}

/// A question about closing is about a session as it was: once the tab is gone,
/// holds another session, or holds one that has been started anew, no answer
/// closes anything, and the question goes away.
pub proof fn outdated_closing_questions_close_nothing(
    app: FesTermApp,
    escape: bool,
    click: DialogClick,
)
    requires
        app.shell.overlays.pending_close is Some,
        ({
            let pending = app.shell.overlays.pending_close->Some_0;
            let session = session_of(app.state.tabs@, pending.tab);
            ||| session is None
            ||| session->Some_0.lifecycle_generation != pending.lifecycle_generation
            ||| !session->Some_0.close_requires_confirmation
            ||| session->Some_0.transport.ends() != pending.consequence
        }),
    ensures
        ({
            let (after, effects) = app.close_answered(escape, click);
            let pending = app.shell.overlays.pending_close->Some_0;
            &&& after.shell.overlays.pending_close is None
            &&& after.state == app.state
            &&& forall|i: int|
                0 <= i < effects.len() ==> #[trigger] effects[i] == Effect::FocusTerminal(
                    pending.restore_tab,
                )
        }),
{
}

/// Cancelling a question about closing gives the keyboard back to the session
/// that had it; not answering keeps the question as it is.
pub proof fn cancelling_a_close_gives_the_keyboard_back(
    app: FesTermApp,
    escape: bool,
    click: DialogClick,
)
    requires
        app.shell.overlays.pending_close is Some,
    ensures
        ({
            let (after, effects) = app.close_answered(escape, click);
            let pending = app.shell.overlays.pending_close->Some_0;
            let left = after.shell.overlays.pending_close;
            &&& escape || click == DialogClick::Cancel ==> left is None && (session_of(
                app.state.tabs@,
                pending.restore_tab,
            ) is Some <==> effects.len() == 1) && (effects.len() == 1 ==> effects[0]
                == Effect::FocusTerminal(pending.restore_tab)) && effects.len() <= 1
            &&& !escape && click == DialogClick::Nothing && app.close_still_applies(pending) ==> {
                &&& effects.len() == 0
                &&& left is Some
                &&& left->Some_0.cancel_focus_requested
                &&& left->Some_0.tab == pending.tab
                &&& left->Some_0.identity == pending.identity
                &&& left->Some_0.consequence == pending.consequence
                &&& left->Some_0.lifecycle_generation == pending.lifecycle_generation
                &&& left->Some_0.restore_tab == pending.restore_tab
            }
        }),
{
}

/// Of everything about `app`, the answer to the question `shown` has changed
/// that question alone, and how far leaving has got where that was the question.
#[verifier::opaque]
pub open spec fn changes_only_its_question(
    app: FesTermApp,
    shown: Option<Confirmation>,
    after: FesTermApp,
) -> bool {
    let before = app.shell.overlays;
    let left = after.shell.overlays;
    &&& after.state == app.state
    &&& after.shell == (Shell { overlays: left, exit: after.shell.exit, ..app.shell })
    &&& shown != Some(Confirmation::Quit) ==> after.shell.exit == app.shell.exit
    &&& left == match shown {
        Some(Confirmation::CloseTab) => OverlayState {
            pending_close: left.pending_close,
            ..before
        },
        Some(Confirmation::Document) => OverlayState {
            pending_document_close: left.pending_document_close,
            ..before
        },
        Some(Confirmation::Quit) => OverlayState { pending_quit: left.pending_quit, ..before },
        Some(Confirmation::SettingsReset) => OverlayState {
            pending_settings_reset: left.pending_settings_reset,
            ..before
        },
        Some(Confirmation::FileDrop) => OverlayState {
            pending_file_drop: left.pending_file_drop,
            ..before
        },
        Some(Confirmation::Paste) => OverlayState { pending_paste: left.pending_paste, ..before },
        None => before,
    }
}

proof fn first_answers_change_only_their_question(app: FesTermApp, answer: ConfirmationAnswer)
    ensures
        changes_only_its_question(
            app,
            Some(Confirmation::CloseTab),
            app.close_answered(answer.escape, answer.click).0,
        ),
        changes_only_its_question(
            app,
            Some(Confirmation::Document),
            app.document_answered(answer.escape, answer.choice).0,
        ),
        changes_only_its_question(
            app,
            Some(Confirmation::Quit),
            app.quit_answered(answer.escape, answer.click).0,
        ),
        changes_only_its_question(app, None, app),
{
    reveal(changes_only_its_question);
}

proof fn last_answers_change_only_their_question(
    app: FesTermApp,
    frame: u64,
    at_defaults: bool,
    answer: ConfirmationAnswer,
)
    ensures
        changes_only_its_question(
            app,
            Some(Confirmation::SettingsReset),
            app.reset_answered(at_defaults, answer.escape, answer.click).0,
        ),
        changes_only_its_question(
            app,
            Some(Confirmation::FileDrop),
            app.file_drop_answered(answer.escape, answer.click).0,
        ),
        changes_only_its_question(
            app,
            Some(Confirmation::Paste),
            app.paste_answered(frame, answer.escape, answer.click).0,
        ),
{
    reveal(changes_only_its_question);
}

/// Answering one question leaves every other one as it is, and neither the tabs
/// nor the documents nor the keyboard change; only the question about leaving
/// changes how far leaving has got.
pub proof fn answers_leave_other_questions_alone(
    app: FesTermApp,
    frame: u64,
    at_defaults: bool,
    answer: ConfirmationAnswer,
)
    ensures
        changes_only_its_question(
            app,
            app.shell.overlays.shown_confirmation(),
            app.confirmation_answered(frame, at_defaults, answer).0,
        ),
{
    first_answers_change_only_their_question(app, answer);
    last_answers_change_only_their_question(app, frame, at_defaults, answer);
}

/// A question is shown exactly while one is open, and of several the one that
/// closes a tab comes first, then unsaved text, leaving, the settings, dropped
/// files and a paste.
pub proof fn open_questions_are_shown_in_their_order(overlays: OverlayState)
    ensures
        overlays.shown_confirmation() is Some <==> (overlays.confirms_other_than_paste()
            || overlays.pending_paste is Some),
        overlays.pending_close is Some ==> overlays.shown_confirmation() == Some(
            Confirmation::CloseTab,
        ),
        overlays.shown_confirmation() == Some(Confirmation::CloseTab)
            ==> overlays.pending_close is Some,
        overlays.shown_confirmation() == Some(Confirmation::Document)
            ==> overlays.pending_document_close is Some && overlays.pending_close is None,
        overlays.shown_confirmation() == Some(Confirmation::Quit) ==> overlays.pending_quit is Some
            && overlays.pending_document_close is None && overlays.pending_close is None,
        overlays.shown_confirmation() == Some(Confirmation::SettingsReset)
            ==> overlays.pending_settings_reset is Some && overlays.pending_quit is None
            && overlays.pending_document_close is None && overlays.pending_close is None,
        overlays.shown_confirmation() == Some(Confirmation::FileDrop)
            ==> overlays.pending_file_drop is Some && overlays.pending_settings_reset is None
            && overlays.pending_quit is None && overlays.pending_document_close is None
            && overlays.pending_close is None,
        overlays.shown_confirmation() == Some(Confirmation::Paste) ==> overlays.pending_paste is Some
            && !overlays.confirms_other_than_paste(),
{
}

/// What is confirmed when every live session would be lost happens, and nothing
/// more: an update is installed and the restart authorised, or the window is
/// closed and its close settled. Once nothing would be lost any more, no answer
/// does anything.
pub proof fn leaving_does_what_was_confirmed(app: FesTermApp, escape: bool, click: DialogClick)
    requires
        app.shell.overlays.pending_quit is Some,
    ensures
        ({
            let (after, effect) = app.quit_answered(escape, click);
            let pending = app.shell.overlays.pending_quit->Some_0;
            let left = after.shell.overlays.pending_quit;
            let live = exists|i: int|
                0 <= i < app.state.tabs@.len() && would_be_lost(#[trigger] app.state.tabs@[i]);
            let confirmed = live && !escape && click == DialogClick::Confirm;
            let update = pending.purpose == QuitConfirmationPurpose::InstallUpdate;
            &&& effect == if !confirmed {
                None
            } else if update {
                Some(Effect::BeginUpdateInstall)
            } else {
                Some(Effect::CloseViewport)
            }
            &&& after.shell.exit.quit_confirmed == (app.shell.exit.quit_confirmed || (confirmed
                && !update))
            &&& after.shell.exit.update_restart_authorized
                == (app.shell.exit.update_restart_authorized || (confirmed && update))
            &&& after.shell.exit.window_close_accepted == app.shell.exit.window_close_accepted
            &&& after.shell.exit.update_exit_requested == app.shell.exit.update_exit_requested
            &&& left is Some <==> (live && !escape && click == DialogClick::Nothing)
            &&& left is Some ==> left->Some_0.purpose == pending.purpose && left->Some_0.counts
                == app.state.live_counts() && left->Some_0.cancel_focus_requested
        }),
{
    counts_are_zero_where_nothing_is_lost(app.state);
}

/// A close that was asked about and confirmed goes through the next time: asking
/// is over, whatever documents there are.
pub proof fn a_confirmed_close_goes_through(app: FesTermApp, documents: Seq<OpenDocument>)
    requires
        !app.close_is_settled(),
        app.shell.overlays.pending_quit is None,
        app.close_evaluated(documents).0.shell.overlays.pending_quit is Some,
    ensures
        ({
            let (asked, cancelled) = app.close_evaluated(documents);
            let (after, effect) = asked.quit_answered(false, DialogClick::Confirm);
            &&& cancelled
            &&& effect == Some(Effect::CloseViewport)
            &&& after.close_evaluated(documents) == (after, false)
            &&& after.shell.overlays.pending_quit is None
            &&& after.shell.exit.leaving()
        }),
{
}

/// Unsaved text is dealt with as was chosen: discarding drops that document and
/// goes on with what waited for it; saving begins to write that document, and
/// the question stays until it is written; cancelling does neither.
pub proof fn unsaved_text_is_dealt_with_as_chosen(
    app: FesTermApp,
    escape: bool,
    choice: DocumentChoice,
)
    requires
        app.shell.overlays.pending_document_close is Some,
    ensures
        ({
            let (after, effects) = app.document_answered(escape, choice);
            let pending = app.shell.overlays.pending_document_close->Some_0;
            let left = after.shell.overlays.pending_document_close;
            let cancelled = escape || choice == DocumentChoice::Cancel;
            &&& left is Some <==> !cancelled && choice != DocumentChoice::Discard
            &&& left is Some ==> left->Some_0.document == pending.document && left->Some_0.next
                == pending.next && left->Some_0.title == pending.title && left->Some_0.origin
                == pending.origin && left->Some_0.save_focus_requested
            &&& cancelled || choice == DocumentChoice::Nothing ==> effects.len() == 0
            &&& !cancelled && choice == DocumentChoice::Save ==> effects == seq![
                Effect::SaveDocument(pending.document),
            ]
            &&& !cancelled && choice == DocumentChoice::Discard ==> {
                &&& effects.len() == 2
                &&& effects[0] == Effect::DiscardDocument(pending.document)
                &&& match pending.next {
                    AfterDocumentClose::CloseTab(tab) => effects[1] == Effect::Dispatch(
                        AppCommand::CloseTab(tab),
                    ),
                    AfterDocumentClose::ResumeClose(_) => effects[1] == Effect::CloseViewport,
                }
            }
        }),
{
}

/// Dropped paths are typed into the session they were dropped on, as they are,
/// exactly where that was confirmed and the session is still the same one, local
/// and in front.
pub proof fn dropped_paths_go_where_they_were_dropped(
    app: FesTermApp,
    escape: bool,
    click: DialogClick,
)
    requires
        app.shell.overlays.pending_file_drop is Some,
    ensures
        ({
            let (after, effects) = app.file_drop_answered(escape, click);
            let pending = app.shell.overlays.pending_file_drop->Some_0;
            let left = after.shell.overlays.pending_file_drop;
            let session = session_of(app.state.tabs@, pending.tab);
            let applies = app.state.active == pending.tab && session is Some
                && session->Some_0.accepts_input && session->Some_0.lifecycle_generation
                == pending.lifecycle_generation && session->Some_0.transport is Local;
            let confirmed = applies && !escape && click == DialogClick::Confirm;
            &&& confirmed ==> effects == seq![
                Effect::InsertText { tab: pending.tab, text: pending.text },
            ]
            &&& !confirmed ==> forall|i: int|
                0 <= i < effects.len() ==> #[trigger] effects[i] == Effect::FocusTerminal(
                    pending.tab,
                )
            &&& !applies || escape || click == DialogClick::Cancel ==> (effects.len() == 1
                <==> session is Some)
            &&& left is Some <==> applies && !escape && click == DialogClick::Nothing
            &&& left is Some ==> effects.len() == 0 && left->Some_0.tab == pending.tab
                && left->Some_0.text == pending.text && left->Some_0.path_count
                == pending.path_count && left->Some_0.lifecycle_generation
                == pending.lifecycle_generation && left->Some_0.identity == pending.identity
                && left->Some_0.cancel_focus_requested
        }),
{
}

/// A paste goes to the session it was meant for, as it was shown, exactly where
/// that was confirmed and nothing has changed since: the tab is in front, no other
/// surface has had the keyboard, the session takes input, is the same, delivers
/// the paste as was said, and still waits for the very clipboard read that brought
/// the text. Otherwise nothing is sent, and what the paste held in the input
/// queue is given up where it was dropped.
pub proof fn pastes_go_where_they_were_meant(
    app: FesTermApp,
    frame: u64,
    escape: bool,
    click: DialogClick,
)
    requires
        app.shell.overlays.pending_paste is Some,
    ensures
        ({
            let (after, effects) = app.paste_answered(frame, escape, click);
            let pending = app.shell.overlays.pending_paste->Some_0;
            let left = after.shell.overlays.pending_paste;
            let session = session_of(app.state.tabs@, pending.tab);
            let applies = app.state.active == pending.tab && app.shell.focus.ownership_epoch
                == pending.input_ownership_epoch && session is Some
                && session->Some_0.accepts_input && session->Some_0.lifecycle_generation
                == pending.lifecycle_generation && session->Some_0.bracketed_paste
                == pending.bracketed_paste && session->Some_0.status_label@
                == pending.transport_state@ && (pending.clipboard_token is None
                || session->Some_0.clipboard_pending == pending.clipboard_token);
            let confirmed = applies && !escape && click == DialogClick::Confirm;
            let dropped = !applies || escape || click == DialogClick::Cancel;
            let delivery = Effect::DeliverPaste {
                tab: pending.tab,
                token: pending.clipboard_token,
                text: pending.text,
            };
            &&& confirmed ==> effects.len() > 0 && effects.last() == delivery
            &&& forall|i: int|
                0 <= i < effects.len() && (#[trigger] effects[i]) is DeliverPaste ==> confirmed
                    && effects[i] == delivery && i == effects.len() - 1
            &&& forall|i: int|
                0 <= i < effects.len() && (#[trigger] effects[i]) is CancelClipboardInput
                    ==> dropped && effects[i] == (Effect::CancelClipboardInput {
                    tab: pending.tab,
                    token: pending.clipboard_token->Some_0,
                })
            &&& dropped && session is Some && pending.clipboard_token is Some ==> effects.contains(
                Effect::CancelClipboardInput {
                    tab: pending.tab,
                    token: pending.clipboard_token->Some_0,
                },
            )
            &&& dropped && session is Some ==> effects.contains(Effect::FocusTerminal(pending.tab))
            &&& dropped ==> effects.len() > 0 && effects.last() == Effect::ReportClipboardDiscards(
                pending.tab,
            )
            &&& forall|i: int|
                0 <= i < effects.len() ==> {
                    ||| #[trigger] effects[i] == Effect::Repaint
                    ||| effects[i] == delivery
                    ||| effects[i] is CancelClipboardInput
                    ||| effects[i] == Effect::FocusTerminal(pending.tab)
                    ||| effects[i] == Effect::ReportClipboardDiscards(pending.tab)
                }
            &&& left is Some <==> applies && !escape && click == DialogClick::Nothing
            &&& left is Some ==> left->Some_0 == (PendingPasteConfirmation {
                cancel_focus_requested: left->Some_0.cancel_focus_requested,
                ..pending
            })
        }),
{
    let (_, effects) = app.paste_answered(frame, escape, click);
    let pending = app.shell.overlays.pending_paste->Some_0;
    let cancelled = app.paste_cancelled(pending);
    let n = effects.len() as int;
    if session_of(app.state.tabs@, pending.tab) is Some {
        if !app.paste_still_applies(pending) || click.cancels(escape) {
            let skipped = n - cancelled.len();
            assert(forall|i: int|
                0 <= i < cancelled.len() ==> effects[skipped + i] == #[trigger] cancelled[i]);
            if let Some(token) = pending.clipboard_token {
                assert(cancelled[0] == (Effect::CancelClipboardInput { tab: pending.tab, token }));
                assert(cancelled[1] == Effect::FocusTerminal(pending.tab));
                assert(effects[skipped] == cancelled[0]);
                assert(effects[skipped + 1] == cancelled[1]);
            } else {
                assert(cancelled[0] == Effect::FocusTerminal(pending.tab));
                assert(effects[skipped] == cancelled[0]);
            }
        }
    }
}

/// Settings are reset, and what follows from that is done, exactly where it was
/// confirmed and they are not at their defaults. The question stays open while it
/// is neither answered nor pointless.
pub proof fn settings_are_reset_where_confirmed(
    app: FesTermApp,
    at_defaults: bool,
    escape: bool,
    click: DialogClick,
)
    requires
        app.shell.overlays.pending_settings_reset is Some,
    ensures
        ({
            let (after, effects) = app.reset_answered(at_defaults, escape, click);
            let confirmed = !at_defaults && !escape && click == DialogClick::Confirm;
            let left = after.shell.overlays.pending_settings_reset;
            &&& effects.contains(Effect::Dispatch(AppCommand::ResetInterfaceSettings)) <==> confirmed
            &&& effects.contains(Effect::PersistInterfaceSettings) <==> confirmed
            &&& effects.contains(Effect::ReinstallTerminalFont) <==> confirmed
            &&& confirmed ==> effects.len() == 3 && effects[0] == Effect::Dispatch(
                AppCommand::ResetInterfaceSettings,
            )
            &&& !confirmed ==> effects.len() == 0
            &&& left is Some <==> !at_defaults && !escape && click == DialogClick::Nothing
            &&& left is Some ==> left->Some_0.cancel_focus_requested
        }),
{
    let (_, effects) = app.reset_answered(at_defaults, escape, click);
    if !at_defaults && !escape && click == DialogClick::Confirm {
        assert(effects[0] == Effect::Dispatch(AppCommand::ResetInterfaceSettings));
        assert(effects[1] == Effect::ReinstallTerminalFont);
        assert(effects[2] == Effect::PersistInterfaceSettings);
    }
}

/// Where nothing is asked, an answer does nothing.
pub proof fn unasked_answers_do_nothing(
    app: FesTermApp,
    frame: u64,
    at_defaults: bool,
    answer: ConfirmationAnswer,
)
    ensures
        app.shell.overlays.shown_confirmation() is None ==> app.confirmation_answered(
            frame,
            at_defaults,
            answer,
        ).0 == app && app.confirmation_answered(frame, at_defaults, answer).1.len() == 0,
        app.shell.overlays.pending_close is None ==> app.close_answered(
            answer.escape,
            answer.click,
        ).0 == app && app.close_answered(answer.escape, answer.click).1.len() == 0,
        app.shell.overlays.pending_paste is None ==> app.paste_answered(
            frame,
            answer.escape,
            answer.click,
        ).0 == app && app.paste_answered(frame, answer.escape, answer.click).1.len() == 0,
        app.shell.overlays.pending_file_drop is None ==> app.file_drop_answered(
            answer.escape,
            answer.click,
        ).0 == app && app.file_drop_answered(answer.escape, answer.click).1.len() == 0,
        app.shell.overlays.pending_quit is None ==> app.quit_answered(
            answer.escape,
            answer.click,
        ).0 == app && app.quit_answered(answer.escape, answer.click).1 is None,
        app.shell.overlays.pending_document_close is None ==> app.document_answered(
            answer.escape,
            answer.choice,
        ).0 == app && app.document_answered(answer.escape, answer.choice).1.len() == 0,
{
}

/// The question that is shown is the one that is answered.
pub proof fn the_shown_question_is_answered(
    app: FesTermApp,
    frame: u64,
    at_defaults: bool,
    answer: ConfirmationAnswer,
)
    ensures
        ({
            let outcome = app.confirmation_answered(frame, at_defaults, answer);
            let overlays = app.shell.overlays;
            &&& overlays.pending_close is Some ==> outcome == app.close_answered(
                answer.escape,
                answer.click,
            )
            &&& overlays.pending_close is None && overlays.pending_document_close is Some
                ==> outcome == app.document_answered(answer.escape, answer.choice)
            &&& overlays.pending_close is None && overlays.pending_document_close is None
                && overlays.pending_quit is Some ==> outcome.0 == app.quit_answered(
                answer.escape,
                answer.click,
            ).0 && (app.quit_answered(answer.escape, answer.click).1 is Some ==> outcome.1 == seq![
                app.quit_answered(answer.escape, answer.click).1->Some_0,
            ])
            &&& !overlays.confirms_other_than_paste() && overlays.pending_paste is Some ==> outcome
                == app.paste_answered(frame, answer.escape, answer.click)
        }),
{
}

proof fn piece_is_held(before: Seq<char>, piece: Seq<char>, after: Seq<char>)
    ensures
        holds_text(before + piece + after, piece),
{
    let s = before + piece + after;
    assert(s.subrange(before.len() as int, before.len() as int + piece.len()) =~= piece);
}

/// What is asked about dropped paths gives their number and names the session
/// that they go into, and a preview says how much of them it leaves out, exactly
/// where it leaves something out.
pub proof fn drops_are_described(count: nat, identity: Seq<char>, omitted: int)
    ensures
        holds_text(file_drop_heading(count, identity), decimal(count)),
        holds_text(file_drop_heading(count, identity), identity),
        file_drop_omission(omitted) is Some <==> omitted > 0,
        omitted > 0 ==> holds_text(file_drop_omission(omitted)->Some_0, decimal(omitted as nat)),
{
    let middle = if count == 1 {
        " path into \u{201c}"@
    } else {
        " paths into \u{201c}"@
    };
    let heading = file_drop_heading(count, identity);
    assert(heading =~= "Insert "@ + decimal(count) + (middle + identity + "\u{201d}?"@));
    piece_is_held("Insert "@, decimal(count), middle + identity + "\u{201d}?"@);
    piece_is_held("Insert "@ + decimal(count) + middle, identity, "\u{201d}?"@);
    if omitted > 0 {
        piece_is_held("Preview omits "@, decimal(omitted as nat), " characters."@);
    }
}

/// What is asked about a paste gives its size and names the session and its
/// state, and a preview says what it leaves out, exactly where it leaves
/// something out.
pub proof fn pastes_are_described(
    lines: nat,
    characters: nat,
    identity: Seq<char>,
    state: Seq<char>,
    omitted_lines: int,
    omitted_characters: int,
)
    requires
        omitted_lines >= 0,
        omitted_characters >= 0,
    ensures
        holds_text(paste_heading(lines, identity), lines_text(lines)),
        holds_text(paste_heading(lines, identity), identity),
        holds_text(lines_text(lines), decimal(lines)),
        holds_text(paste_target(state, lines, characters), state),
        holds_text(paste_target(state, lines, characters), lines_text(lines)),
        holds_text(paste_target(state, lines, characters), decimal(characters)),
        paste_omission(omitted_lines, omitted_characters) is None <==> omitted_lines == 0
            && omitted_characters == 0,
        omitted_lines + omitted_characters > 0 ==> holds_text(
            paste_omission(omitted_lines, omitted_characters)->Some_0,
            decimal(omitted_lines as nat) + " lines and "@ + decimal(omitted_characters as nat),
        ),
        paste_delivery(true) != paste_delivery(false),
{
    let words = lines_text(lines);
    let unit = if lines == 1 {
        " line"@
    } else {
        " lines"@
    };
    assert(words =~= Seq::<char>::empty() + decimal(lines) + unit);
    piece_is_held(Seq::empty(), decimal(lines), unit);
    let heading = paste_heading(lines, identity);
    assert(heading =~= "Paste "@ + words + (" into \u{201c}"@ + identity + "\u{201d}?"@));
    piece_is_held("Paste "@, words, " into \u{201c}"@ + identity + "\u{201d}?"@);
    piece_is_held("Paste "@ + words + " into \u{201c}"@, identity, "\u{201d}?"@);
    let target = paste_target(state, lines, characters);
    let dot = " \u{00b7} "@;
    let number = decimal(characters);
    assert(target =~= "Target state: "@ + state + (dot + words + dot + number + " characters"@));
    piece_is_held("Target state: "@, state, dot + words + dot + number + " characters"@);
    assert(target =~= ("Target state: "@ + state + dot) + words + (dot + number + " characters"@));
    piece_is_held("Target state: "@ + state + dot, words, dot + number + " characters"@);
    piece_is_held("Target state: "@ + state + dot + words + dot, number, " characters"@);
    let a = decimal(omitted_lines as nat);
    let b = decimal(omitted_characters as nat);
    if omitted_lines + omitted_characters > 0 {
        assert(paste_omission(omitted_lines, omitted_characters)->Some_0 =~= "Preview omits "@ + (a
            + " lines and "@ + b) + " characters."@);
        piece_is_held("Preview omits "@, a + " lines and "@ + b, " characters."@);
    }
    reveal_strlit("This large paste will be sent as one bracketed input operation.");
    reveal_strlit("Bracketed paste is not active; a line may execute immediately.");
    assert(paste_delivery(true)[0] == 'T');
    assert(paste_delivery(false)[0] == 'B');
}

/// The dialogs of leaving are told apart, and the one about an update says that
/// it ends every session.
pub proof fn dialogs_of_leaving_are_told_apart(
    a: QuitConfirmationPurpose,
    b: QuitConfirmationPurpose,
)
    ensures
        a.wording().0 == b.wording().0 <==> a == b,
        a.wording().2 == b.wording().2 <==> a == b,
{
    reveal_strlit("Quit fesTerm?");
    reveal_strlit("Close this window?");
    reveal_strlit("Install update and restart fesTerm?");
    reveal_strlit("Quit fesTerm");
    reveal_strlit("Close Window");
    reveal_strlit("Install and Restart");
    assert("Quit fesTerm?"@[0] == 'Q' && "Quit fesTerm"@[0] == 'Q');
    assert("Close this window?"@[0] == 'C' && "Close Window"@[0] == 'C');
    assert("Install update and restart fesTerm?"@[0] == 'I' && "Install and Restart"@[0] == 'I');
}

/// A question about a clipboard read that opened in this very frame is drawn
/// again before it can take the keyboard: as long as it applies, a repaint comes
/// first, and the safe answer gets the keyboard only in a later frame.
pub proof fn opening_questions_are_drawn_again(
    app: FesTermApp,
    frame: u64,
    escape: bool,
    click: DialogClick,
)
    requires
        app.shell.overlays.pending_paste is Some,
        app.paste_still_applies(app.shell.overlays.pending_paste->Some_0),
    ensures
        ({
            let (after, effects) = app.paste_answered(frame, escape, click);
            let pending = app.shell.overlays.pending_paste->Some_0;
            let left = after.shell.overlays.pending_paste;
            let opening = pending.clipboard_token is Some && pending.opened_frame == frame;
            &&& opening ==> effects.len() > 0 && effects[0] == Effect::Repaint
            &&& !opening && effects.len() > 0 ==> effects[0] != Effect::Repaint
            &&& left is Some ==> left->Some_0.cancel_focus_requested == !opening
        }),
{
}

} // verus!
