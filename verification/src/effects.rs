//! What a decision asks the rest of the application to do.
use vstd::prelude::*;

use crate::credentials::{ProfileLaunch, StoredLaunch};
use crate::overlays::{CredentialKind, PendingPasswordStore};
use crate::state::TabId;

verus! {

/// What the user decided about a host key.
#[derive(Clone, Copy, Debug, PartialEq, Eq, Structural)]
pub enum HostKeyTrustDecision {
    AcceptOnce,
    AcceptAndPersist,
    Reject,
}

/// A command for the window's tabs and sessions.
#[derive(Debug)]
pub enum AppCommand {
    OpenLauncher,
    OpenWindow,
    OpenSettings,
    OpenProfiles,
    StartLocalSession,
    ActivateTab(TabId),
    ActivateNextTab,
    ActivatePreviousTab,
    CloseTab(TabId),
    ReorderTab { moved: TabId, before: Option<TabId> },
    MoveTabToWindow { moved: TabId, target: Option<u64>, before: Option<TabId> },
    MoveTabLeft(TabId),
    MoveTabRight(TabId),
    RenameTab(TabId, String),
    ToggleSessionInspector,
    ReconnectSession(TabId),
    OpenSftpFileManager(TabId),
    OpenConfiguredSftpFileManagerProfile(String),
    SetInputRecording { tab: TabId, enabled: bool },
    ClearInputRecording(TabId),
    CopyInputRecording(TabId),
    OpenMarkdownFind,
    ReloadMarkdown,
    ToggleMarkdownPreviewSource,
    ToggleMarkdownOutline,
    OpenLocalMarkdownFile { path: String, replacing: Option<TabId> },
    OpenExternalLink(String),
    ResetInterfaceSettings,
    ResolveHostKeyTrust { tab: TabId, decision: HostKeyTrustDecision },
}

/// A change of a terminal's font size.
#[derive(Clone, Copy, Debug, PartialEq, Eq, Structural)]
pub enum ZoomCommand {
    In,
    Out,
    Reset,
}

/// Something outside the window's own state that is to be done.
#[derive(Debug)]
#[allow(inconsistent_fields)]
pub enum Effect {
    Dispatch(AppCommand),
    Repaint,
    RepaintAfterMs(u64),
    /// The tab's terminal takes the keyboard in the next frame.
    FocusTerminal(TabId),
    FocusWidget(u64),
    CancelClose,
    CloseViewport,
    BeginUpdateCheck,
    BeginUpdateDownload,
    BeginUpdateInstall,
    /// The platform is asked to paste into the focused widget.
    RequestSystemPaste,
    /// A read of the clipboard is asked for, on behalf of the tab.
    RequestClipboard(TabId),
    /// A read of the clipboard is no longer wanted.
    CancelClipboardRequest(u64),
    /// The tab's place in the input queue is given up, with what follows it.
    FailClipboardInput { tab: TabId, token: u64 },
    CancelClipboardInput { tab: TabId, token: u64 },
    FinishFailedClipboardInput(TabId),
    /// The text is typed into the tab's session, as a paste is.
    InsertText { tab: TabId, text: String },
    /// The text goes to the tab's session, in the place of the clipboard read
    /// that brought it.
    DeliverPaste { tab: TabId, token: Option<u64>, text: String },
    /// What was dropped from the tab's input queue is looked up and told.
    ReportClipboardDiscards(TabId),
    CopySelection(TabId),
    ZoomTerminal(TabId, ZoomCommand),
    ResetTerminal(TabId),
    ClearTerminal(TabId),
    OpenSearch(TabId),
    CloseSearch(TabId),
    QueryPortForwards(TabId),
    /// The forward at this place of the tab's list is removed.
    RemovePortForward(TabId, usize),
    /// The forward that has been filled in is added to the tab's session.
    AddPortForward(TabId),
    ResetPortForwardDraft,
    /// The command that the tab's own surface asked for goes to the tabs.
    DispatchScreenCommand,
    SaveDocument(u64),
    DiscardDocument(u64),
    ReinstallTerminalFont,
    ApplyTerminalFontPolicy,
    PersistInterfaceSettings,
    ClearSavedWorkspace,
    PersistKnownHostTrust(TabId),
    UpdateNativeMenu,
    /// Settings offer to restore the keyboard's bindings.
    OfferKeyboardRecovery,
    CopyVersionInformation,
    /// The profile is launched in this way.
    LaunchProfile { profile: String, launch: ProfileLaunch },
    /// A session is started with the credential that the profile has stored.
    LaunchStored { profile: String, launch: StoredLaunch },
    /// A worker is started that stores the credential that was entered.
    StoreCredential(PendingPasswordStore),
    /// The stored credential is entered into its profile.
    LinkCredential(PendingPasswordStore),
    /// The profile that was edited is written.
    SaveProfile,
    /// So is this one, whose credential is to be stored next.
    SaveProfileWithCredential { profile: String, kind: CredentialKind },
    DeleteProfile(String),
    ReorderProfiles { moved: String, before: Option<String> },
    /// The profile's last use is noted.
    NoteProfileLaunch(String),
}

} // verus!
