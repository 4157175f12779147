//! What can stand in front of a window's terminal: confirmations, tools and
//! short-lived notices.
use vstd::prelude::*;

use crate::state::TabId;
use crate::text::push_decimal;
#[allow(unused_imports)]
use crate::text::{decimal, holds_text};

verus! {

/// What closing a live session ends.
#[derive(Clone, Copy, Debug, PartialEq, Eq, Structural)]
pub enum CloseConsequence {
    TerminateLocalProcess,
    DisconnectSsh,
}

impl CloseConsequence {
    pub open spec fn message_text(self) -> Seq<char> {
        match self {
            CloseConsequence::TerminateLocalProcess => "Closing it ends the local process."@,
            CloseConsequence::DisconnectSsh => "Closing it ends the SSH connection."@,
        }
    }

    pub fn message(self) -> (text: &'static str)
        ensures
            text@ == self.message_text(),
    {
        match self {
            CloseConsequence::TerminateLocalProcess => "Closing it ends the local process.",
            CloseConsequence::DisconnectSsh => "Closing it ends the SSH connection.",
        }
    }
}

/// How many sessions would be lost, by transport.
#[derive(Clone, Copy, Debug, PartialEq, Eq, Structural)]
pub struct LiveSessionCounts {
    pub local: usize,
    pub ssh: usize,
    pub serial: usize,
}

impl LiveSessionCounts {
    pub open spec fn total(self) -> int {
        self.local + self.ssh + self.serial
    }

    /// Tells whether nothing would be lost.
    pub fn is_empty(self) -> (result: bool)
        ensures
            result == (self.total() == 0),
    {
        self.local == 0 && self.ssh == 0 && self.serial == 0
    }
}

#[derive(Debug)]
pub struct PendingCloseConfirmation {
    pub tab: TabId,
    pub identity: String,
    pub consequence: CloseConsequence,
    pub lifecycle_generation: u64,
    pub restore_tab: TabId,
    pub cancel_focus_requested: bool,
}

/// What confirming the loss of every live session leads to.
#[derive(Clone, Copy, Debug, PartialEq, Eq, Structural)]
pub enum QuitConfirmationPurpose {
    Quit,
    CloseWindow,
    InstallUpdate,
}

#[derive(Clone, Copy, Debug, PartialEq, Eq, Structural)]
pub struct PendingQuitConfirmation {
    pub counts: LiveSessionCounts,
    pub cancel_focus_requested: bool,
    pub purpose: QuitConfirmationPurpose,
}

#[derive(Debug)]
pub struct PendingPasteConfirmation {
    /// The clipboard read that brought the text, where one did.
    pub clipboard_token: Option<u64>,
    pub opened_frame: u64,
    pub tab: TabId,
    pub identity: String,
    pub text: String,
    pub transport_state: String,
    pub lifecycle_generation: u64,
    pub input_ownership_epoch: u64,
    pub bracketed_paste: bool,
    pub cancel_focus_requested: bool,
}

#[derive(Debug)]
pub struct PendingFileDropConfirmation {
    pub tab: TabId,
    pub identity: String,
    pub text: String,
    pub path_count: usize,
    pub lifecycle_generation: u64,
    pub cancel_focus_requested: bool,
}

#[derive(Clone, Copy, Debug, PartialEq, Eq, Structural)]
pub struct PendingSettingsResetConfirmation {
    pub cancel_focus_requested: bool,
}

/// What follows once an unsaved document has been dealt with.
#[derive(Clone, Copy, Debug, PartialEq, Eq, Structural)]
pub enum AfterDocumentClose {
    CloseTab(TabId),
    ResumeClose(QuitConfirmationPurpose),
}

#[derive(Debug)]
pub struct PendingDocumentClose {
    pub document: u64,
    pub title: String,
    pub origin: String,
    pub next: AfterDocumentClose,
    pub save_focus_requested: bool,
}

/// Which way a forward carries connections.
#[derive(Clone, Copy, Debug, PartialEq, Eq, Structural)]
pub enum PortForwardDirection {
    Local,
    Remote,
}

/// The live port-forward tool of one SSH tab.
#[derive(Debug)]
pub struct LivePortForwardManager {
    pub tab: TabId,
    pub error: Option<String>,
    pub request_focus: bool,
}

#[derive(Clone, Copy, Debug, PartialEq, Eq, Structural)]
pub enum CredentialKind {
    Password,
    PrivateKey,
}

/// What is launched once a credential is stored.
#[derive(Clone, Copy, Debug, PartialEq, Eq, Structural)]
pub enum StoredCredentialLaunch {
    Ssh,
    Sftp,
}

/// A credential on its way into native secure storage.
#[derive(Debug)]
pub struct PendingPasswordStore {
    pub profile_id: String,
    pub credential_kind: CredentialKind,
    pub launch_after_store: Option<StoredCredentialLaunch>,
}

/// A message that is shown for a moment.
#[derive(Debug)]
pub enum Notice {
    FileDropNeedsActiveSession,
    FileDropLocalOnly,
    FileDropNeedsRunningSession,
    FileDropRemotePaneOnly,
    /// Something blocks the terminal.
    FileDropBlocked,
    FileDropRefused(String),
    InvalidLink,
    ClipboardCancelledOnFocusLoss,
    ClipboardEventsDiscarded(usize),
    ClipboardBytesDiscarded(u64),
    ScrollbackLimitReached,
    /// The terminal's font size in points, as it is written.
    TerminalZoom(String),
    TerminalReset,
    TerminalCleared,
    /// How to leave focus mode: the palette's chord, where it has one.
    FocusModeEntered(Option<String>),
    FocusModeExited,
    KeyboardBindingsInvalid(String),
}

impl Notice {
    pub open spec fn message_text(self) -> Seq<char> {
        match self {
            Notice::FileDropNeedsActiveSession => "File drop needs an active session."@,
            Notice::FileDropLocalOnly =>
                "File drop only inserts paths into a local session, never a remote or serial one."@,
            Notice::FileDropNeedsRunningSession => "File drop needs a running session."@,
            Notice::FileDropRemotePaneOnly =>
                "Drop files onto the remote pane to upload them; the local pane doesn't accept file drops."@,
            Notice::FileDropBlocked =>
                "File drop has to wait until the open dialog is closed."@,
            Notice::FileDropRefused(message) => message@,
            Notice::InvalidLink => "This link is not a valid web address."@,
            Notice::ClipboardCancelledOnFocusLoss =>
                "Clipboard operation cancelled on focus loss; pending input was not sent."@,
            Notice::ClipboardEventsDiscarded(count) =>
                "Clipboard operation cancelled: pending input was not sent ("@ + decimal(
                count as nat,
            ) + " current-frame input events)."@,
            Notice::ClipboardBytesDiscarded(count) =>
                "Clipboard operation cancelled or failed: "@ + decimal(count as nat)
                + " following input bytes were not sent. Re-enter any required input."@,
            Notice::ScrollbackLimitReached =>
                "Scrollback limit reached — oldest history discarded"@,
            Notice::TerminalZoom(points) => "Terminal zoom: "@ + points@ + " pt"@,
            Notice::TerminalReset => "Terminal reset"@,
            Notice::TerminalCleared => "Terminal cleared"@,
            Notice::FocusModeEntered(chord) => "Focus Mode · "@ + (match chord {
                Some(chord) => chord@,
                None => "Ctrl+Shift+F12 (Settings recovery)"@,
            }) + " → Exit Focus Mode"@,
            Notice::FocusModeExited => "Focus Mode exited"@,
            Notice::KeyboardBindingsInvalid(message) => message@,
        }
    }

    /// The notice as it is shown.
    pub fn text(&self) -> (text: String)
        ensures
            text@ == self.message_text(),
    {
        match self {
            Notice::FileDropNeedsActiveSession => "File drop needs an active session.".to_owned(),
            Notice::FileDropLocalOnly =>
                "File drop only inserts paths into a local session, never a remote or serial one.".to_owned(),
            Notice::FileDropNeedsRunningSession => "File drop needs a running session.".to_owned(),
            Notice::FileDropRemotePaneOnly =>
                "Drop files onto the remote pane to upload them; the local pane doesn't accept file drops.".to_owned(),
            Notice::FileDropBlocked =>
                "File drop has to wait until the open dialog is closed.".to_owned(),
            Notice::FileDropRefused(message) => message.clone(),
            Notice::InvalidLink => "This link is not a valid web address.".to_owned(),
            Notice::ClipboardCancelledOnFocusLoss =>
                "Clipboard operation cancelled on focus loss; pending input was not sent.".to_owned(),
            Notice::ClipboardEventsDiscarded(count) => {
                let mut text =
                    "Clipboard operation cancelled: pending input was not sent (".to_owned();
                push_decimal(&mut text, *count as u128);
                text.append(" current-frame input events).");
                text
            },
            Notice::ClipboardBytesDiscarded(count) => {
                let mut text = "Clipboard operation cancelled or failed: ".to_owned();
                push_decimal(&mut text, *count as u128);
                text.append(" following input bytes were not sent. Re-enter any required input.");
                text
            },
            Notice::ScrollbackLimitReached =>
                "Scrollback limit reached — oldest history discarded".to_owned(),
            Notice::TerminalZoom(points) => {
                let mut text = "Terminal zoom: ".to_owned();
                text.append(points.as_str());
                text.append(" pt");
                text
            },
            Notice::TerminalReset => "Terminal reset".to_owned(),
            Notice::TerminalCleared => "Terminal cleared".to_owned(),
            Notice::FocusModeEntered(chord) => {
                let mut text = "Focus Mode · ".to_owned();
                match chord {
                    Some(chord) => text.append(chord.as_str()),
                    None => text.append("Ctrl+Shift+F12 (Settings recovery)"),
                }
                text.append(" → Exit Focus Mode");
                text
            },
            Notice::FocusModeExited => "Focus Mode exited".to_owned(),
            Notice::KeyboardBindingsInvalid(message) => message.clone(),
        }
    }
}

/// A notice with the time it was put up and how long it stays.
#[derive(Debug)]
pub struct TransientNotice {
    pub notice: Notice,
    pub shown_at_ms: u64,
    pub duration_ms: u64,
}

impl TransientNotice {
    pub open spec fn over(self, now_ms: u64) -> bool {
        now_ms >= self.shown_at_ms + self.duration_ms
    }

    /// Tells whether the notice has been up for its time.
    pub fn is_over(&self, now_ms: u64) -> (result: bool)
        ensures
            result == self.over(now_ms),
    {
        now_ms >= self.shown_at_ms && now_ms - self.shown_at_ms >= self.duration_ms
    }
}

/// Everything that can stand in front of a window's terminal.
#[derive(Debug)]
pub struct OverlayState {
    pub pending_close: Option<PendingCloseConfirmation>,
    pub pending_paste: Option<PendingPasteConfirmation>,
    pub pending_file_drop: Option<PendingFileDropConfirmation>,
    pub pending_settings_reset: Option<PendingSettingsResetConfirmation>,
    pub pending_document_close: Option<PendingDocumentClose>,
    pub pending_quit: Option<PendingQuitConfirmation>,
    pub pending_password_store: Option<PendingPasswordStore>,
    pub port_forward_manager: Option<LivePortForwardManager>,
    pub markdown_file_picker: bool,
    /// The viewer whose document the picked file replaces.
    pub markdown_file_picker_replaces: Option<TabId>,
    /// Where the last picker was left.
    pub markdown_file_picker_directory: Option<String>,
    pub about_open: bool,
    pub about_licenses_open: bool,
    pub transient_notice: Option<TransientNotice>,
}

impl OverlayState {
    /// Nothing stands in front of the terminal.
    pub open spec fn clear() -> Self {
        OverlayState {
            pending_close: None,
            pending_paste: None,
            pending_file_drop: None,
            pending_settings_reset: None,
            pending_document_close: None,
            pending_quit: None,
            pending_password_store: None,
            port_forward_manager: None,
            markdown_file_picker: false,
            markdown_file_picker_replaces: None,
            markdown_file_picker_directory: None,
            about_open: false,
            about_licenses_open: false,
            transient_notice: None,
        }
    }

    pub fn new() -> (overlays: Self)
        ensures
            overlays == Self::clear(),
    {
        OverlayState {
            pending_close: None,
            pending_paste: None,
            pending_file_drop: None,
            pending_settings_reset: None,
            pending_document_close: None,
            pending_quit: None,
            pending_password_store: None,
            port_forward_manager: None,
            markdown_file_picker: false,
            markdown_file_picker_replaces: None,
            markdown_file_picker_directory: None,
            about_open: false,
            about_licenses_open: false,
            transient_notice: None,
        }
    }

    /// One of the confirmations other than that of a paste is open.
    pub open spec fn confirms_other_than_paste(self) -> bool {
        ||| self.pending_close is Some
        ||| self.pending_file_drop is Some
        ||| self.pending_settings_reset is Some
        ||| self.pending_document_close is Some
        ||| self.pending_quit is Some
    }

    /// Something that keeps input from the terminal is open, a paste's
    /// confirmation left aside.
    pub open spec fn blocking_except_paste(self) -> bool {
        ||| self.confirms_other_than_paste()
        ||| self.port_forward_manager is Some
        ||| self.markdown_file_picker
        ||| self.about_open
    }

    /// Something that keeps input from the terminal is open.
    pub open spec fn blocking(self) -> bool {
        self.blocking_except_paste() || self.pending_paste is Some
    }

    /// Tells whether one of the confirmations is open.
    pub fn confirmation_open(&self) -> (result: bool)
        ensures
            result == (self.confirms_other_than_paste() || self.pending_paste is Some),
    {
        self.pending_close.is_some() || self.pending_paste.is_some()
            || self.pending_file_drop.is_some() || self.pending_settings_reset.is_some()
            || self.pending_document_close.is_some() || self.pending_quit.is_some()
    }

    /// Tells whether input is kept from the terminal, leaving a paste's
    /// confirmation aside.
    pub fn blocks_terminal_input_except_paste(&self) -> (result: bool)
        ensures
            result == self.blocking_except_paste(),
    {
        self.pending_close.is_some() || self.pending_file_drop.is_some()
            || self.pending_settings_reset.is_some() || self.pending_document_close.is_some()
            || self.pending_quit.is_some() || self.port_forward_manager.is_some()
            || self.markdown_file_picker || self.about_open
    }

    /// Tells whether input is kept from the terminal.
    pub fn blocks_terminal_input(&self) -> (result: bool)
        ensures
            result == self.blocking(),
    {
        self.pending_paste.is_some() || self.blocks_terminal_input_except_paste()
    }

    /// Puts a notice up in place of the one that is shown.
    pub fn notify(&mut self, notice: Notice, now_ms: u64, duration_ms: u64)
        ensures
            *final(self) == (OverlayState {
                transient_notice: Some(
                    TransientNotice { notice, shown_at_ms: now_ms, duration_ms },
                ),
                ..*old(self)
            }),
    {
        self.transient_notice = Some(TransientNotice { notice, shown_at_ms: now_ms, duration_ms });
    }
}

/// The terminal is blocked exactly while a question, the port-forward tool, the
/// file picker or the About dialog is open; a notice or a credential on its way
/// block nothing.
pub proof fn open_surfaces_block_the_terminal(overlays: OverlayState)
    ensures
        overlays.blocking() <==> {
            ||| overlays.pending_close is Some
            ||| overlays.pending_paste is Some
            ||| overlays.pending_file_drop is Some
            ||| overlays.pending_settings_reset is Some
            ||| overlays.pending_document_close is Some
            ||| overlays.pending_quit is Some
            ||| overlays.port_forward_manager is Some
            ||| overlays.markdown_file_picker
            ||| overlays.about_open
        },
        overlays.blocking_except_paste() <==> (OverlayState {
            pending_paste: None,
            ..overlays
        }).blocking(),
        !OverlayState::clear().blocking(),
        OverlayState::clear().transient_notice is None,
        OverlayState::clear().pending_password_store is None,
{
}

/// What is said when input was dropped, or a terminal zoomed, gives the number;
/// what a refusal says is said as it is.
pub proof fn notices_give_their_numbers(count: usize, bytes: u64, text: String)
    ensures
        holds_text(Notice::ClipboardEventsDiscarded(count).message_text(), decimal(count as nat)),
        holds_text(Notice::ClipboardBytesDiscarded(bytes).message_text(), decimal(bytes as nat)),
        holds_text(Notice::TerminalZoom(text).message_text(), text@),
        holds_text(Notice::FocusModeEntered(Some(text)).message_text(), text@),
        Notice::FileDropRefused(text).message_text() == text@,
        Notice::KeyboardBindingsInvalid(text).message_text() == text@,
{
    between_is_held(
        "Clipboard operation cancelled: pending input was not sent ("@,
        decimal(count as nat),
        " current-frame input events)."@,
    );
    between_is_held(
        "Clipboard operation cancelled or failed: "@,
        decimal(bytes as nat),
        " following input bytes were not sent. Re-enter any required input."@,
    );
    between_is_held("Terminal zoom: "@, text@, " pt"@);
    between_is_held("Focus Mode · "@, text@, " → Exit Focus Mode"@);
}

proof fn between_is_held(a: Seq<char>, b: Seq<char>, c: Seq<char>)
    ensures
        holds_text(a + b + c, b),
{
    let s = a + b + c;
    assert(s.subrange(a.len() as int, a.len() as int + b.len()) =~= b);
}

/// A question about closing says what the close ends, and counts add up.
pub proof fn consequences_are_told_apart(counts: LiveSessionCounts)
    ensures
        CloseConsequence::TerminateLocalProcess.message_text()
            != CloseConsequence::DisconnectSsh.message_text(),
        counts.total() == 0 <==> counts.local == 0 && counts.ssh == 0 && counts.serial == 0,
        counts.total() == counts.local + counts.ssh + counts.serial,
{
    reveal_strlit("Closing it ends the local process.");
    reveal_strlit("Closing it ends the SSH connection.");
    assert("Closing it ends the local process."@.len() == 34);
    assert("Closing it ends the SSH connection."@.len() == 35);
}

} // verus!
