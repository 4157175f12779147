//! Files dropped on a window: where their paths may go, and what is said where
//! they may not.
use vstd::prelude::*;

use crate::app::FesTermApp;
#[allow(unused_imports)]
use crate::app::Shell;
use crate::commands::NOTICE_MS;
use crate::overlays::{Notice, OverlayState, PendingFileDropConfirmation, TransientNotice};
use crate::state::{TabContent, TabId, Transport};
#[allow(unused_imports)]
use crate::state::session_of;

verus! {

/// What becomes of dropped files.
#[derive(Clone, Copy, Debug, PartialEq, Eq, Structural)]
pub enum DropOutcome {
    Ignored,
    /// A notice says why not; the window is repainted.
    Rejected,
    /// Their paths wait for a confirmation.
    Staged,
    /// They are uploaded by the graphical SFTP session in this tab.
    Upload(TabId),
}

/// The paths as they are typed in, with a space between two of them.
pub open spec fn joined(paths: Seq<String>) -> Seq<char>
    decreases paths.len(),
{
    if paths.len() == 0 {
        Seq::empty()
    } else if paths.len() == 1 {
        paths[0]@
    } else {
        joined(paths.drop_last()) + " "@ + paths.last()@
    }
}

fn join_paths(paths: &Vec<String>) -> (text: String)
    ensures
        text@ == joined(paths@),
{
    let mut text = String::new();
    let mut i: usize = 0;
    assert(text@ =~= joined(paths@.take(0)));
    while i < paths.len()
        invariant
            i <= paths@.len(),
            text@ == joined(paths@.take(i as int)),
        decreases paths@.len() - i,
    {
        proof {
            assert(paths@.take(i + 1).drop_last() =~= paths@.take(i as int));
        }
        let ghost before = text@;
        if i > 0 {
            text.append(" ");
        }
        text.append(paths[i].as_str());
        assert(text@ =~= joined(paths@.take(i + 1)));
        i = i + 1;
    }
    assert(paths@.take(i as int) =~= paths@);
    text
}

/// Why dropped files cannot go to the tab in front, if they cannot.
pub open spec fn drop_refusal(app: FesTermApp) -> Option<Notice> {
    match app.state.active_session() {
        None => Some(Notice::FileDropNeedsActiveSession),
        Some(session) => if !(session.transport is Local) {
            Some(Notice::FileDropLocalOnly)
        } else if !session.accepts_input {
            Some(Notice::FileDropNeedsRunningSession)
        } else {
            None
        },
    }
}

impl FesTermApp {
    /// Takes in files that were dropped on the window. Only a local session
    /// that takes input gets their paths, and only after a confirmation; a
    /// graphical SFTP session uploads what is dropped on its remote pane. Files
    /// dropped anywhere else, or while something blocks the terminal, are
    /// refused with a notice.
    pub fn handle_dropped_files(
        &mut self,
        paths: &Vec<String>,
        over_remote_pane: bool,
        now_ms: u64,
    ) -> (outcome: DropOutcome)
        ensures
            ({
                let active = old(self).state.active;
                if paths@.len() == 0 {
                    outcome == DropOutcome::Ignored && *final(self) == *old(self)
                } else if old(self).shell.overlays.blocking() {
                    &&& outcome == DropOutcome::Rejected
                    &&& *final(self) == old(self).with_notice(
                        Some(Notice::FileDropBlocked),
                        now_ms,
                        NOTICE_MS,
                    )
                } else if old(self).state.active_tab() is Some
                    && old(self).state.active_tab()->Some_0.content is SftpFileManager {
                    if over_remote_pane {
                        outcome == DropOutcome::Upload(active) && *final(self) == *old(self)
                    } else {
                        &&& outcome == DropOutcome::Rejected
                        &&& *final(self) == old(self).with_notice(
                            Some(Notice::FileDropRemotePaneOnly),
                            now_ms,
                            NOTICE_MS,
                        )
                    }
                } else {
                    match drop_refusal(*old(self)) {
                        Some(notice) => {
                            &&& outcome == DropOutcome::Rejected
                            &&& *final(self) == old(self).with_notice(
                                Some(notice),
                                now_ms,
                                NOTICE_MS,
                            )
                        },
                        None => {
                            let session = old(self).state.active_session()->Some_0;
                            let pending = final(self).shell.overlays.pending_file_drop;
                            &&& outcome == DropOutcome::Staged
                            &&& *final(self) == old(self).with_overlays(
                                OverlayState {
                                    pending_file_drop: pending,
                                    ..old(self).shell.overlays
                                },
                            )
                            &&& pending is Some
                            &&& pending->Some_0.text@ == joined(paths@)
                            &&& pending->Some_0 == (PendingFileDropConfirmation {
                                tab: active,
                                identity: session.label,
                                text: pending->Some_0.text,
                                path_count: paths@.len() as usize,
                                lifecycle_generation: session.lifecycle_generation,
                                cancel_focus_requested: false,
                            })
                        },
                    }
                }
            }),
    {
        if paths.len() == 0 {
            return DropOutcome::Ignored;
        }
        if self.shell.overlays.blocks_terminal_input() {
            self.shell.overlays.notify(Notice::FileDropBlocked, now_ms, NOTICE_MS);
            return DropOutcome::Rejected;
        }
        let active = self.state.active;
        let file_manager = match self.state.tab(active) {
            Some(tab) => matches!(tab.content, TabContent::SftpFileManager(_)),
            None => false,
        };
        if file_manager {
            if over_remote_pane {
                return DropOutcome::Upload(active);
            }
            self.shell.overlays.notify(Notice::FileDropRemotePaneOnly, now_ms, NOTICE_MS);
            return DropOutcome::Rejected;
        }
        let mut refusal: Option<Notice> = None;
        let mut staged: Option<PendingFileDropConfirmation> = None;
        match self.state.session_tab(active) {
            None => refusal = Some(Notice::FileDropNeedsActiveSession),
            Some(session) => if !matches!(session.transport, Transport::Local { .. }) {
                refusal = Some(Notice::FileDropLocalOnly);
            } else if !session.accepts_input {
                refusal = Some(Notice::FileDropNeedsRunningSession);
            } else {
                staged = Some(
                    PendingFileDropConfirmation {
                        tab: active,
                        identity: session.label.clone(),
                        text: join_paths(paths),
                        path_count: paths.len(),
                        lifecycle_generation: session.lifecycle_generation,
                        cancel_focus_requested: false,
                    },
                );
            },
        }
        match refusal {
            Some(notice) => {
                self.shell.overlays.notify(notice, now_ms, NOTICE_MS);
                DropOutcome::Rejected
            },
            None => {
                self.shell.overlays.pending_file_drop = staged;
                DropOutcome::Staged
            },
        }
    }

    /// Takes in how queueing dropped files for upload went, and says whether to
    /// repaint.
    pub fn upload_enqueued(&mut self, result: Result<usize, String>, now_ms: u64) -> (repaint: bool)
        ensures
            match result {
                Ok(count) => repaint == (count > 0) && *final(self) == *old(self),
                Err(message) => {
                    &&& repaint
                    &&& *final(self) == old(self).with_notice(
                        Some(Notice::FileDropRefused(message)),
                        now_ms,
                        NOTICE_MS,
                    )
                },
            },
    {
        match result {
            Ok(count) => count > 0,
            Err(message) => {
                self.shell.overlays.notify(Notice::FileDropRefused(message), now_ms, NOTICE_MS);
                true
            },
        }
    }
}

/// Dropped paths keep the order in which they were dropped: one more goes to
/// the end, after a space.
pub proof fn dropped_paths_keep_their_order(paths: Seq<String>, last: String)
    requires
        paths.len() > 0,
    ensures
        joined(paths.push(last)) == joined(paths) + " "@ + last@,
{
    assert(paths.push(last).drop_last() =~= paths);
}

/// Paths go to a session exactly where a local one that takes input is in front,
/// and what is refused says why.
pub proof fn only_running_local_sessions_take_paths(app: FesTermApp)
    ensures
        ({
            let session = app.state.active_session();
            &&& drop_refusal(app) is None <==> session is Some && session->Some_0.transport is Local
                && session->Some_0.accepts_input
            &&& session is None ==> drop_refusal(app) == Some(Notice::FileDropNeedsActiveSession)
            &&& session is Some && !(session->Some_0.transport is Local) ==> drop_refusal(app)
                == Some(Notice::FileDropLocalOnly)
            &&& session is Some && session->Some_0.transport is Local
                && !session->Some_0.accepts_input ==> drop_refusal(app) == Some(
                Notice::FileDropNeedsRunningSession,
            )
        }),
{
}

/// Nothing is added to what was dropped and nothing left out: a single path is
/// typed in as it is, no path as nothing, and of two lists of paths the second
/// follows the first after a space.
pub proof fn dropped_paths_are_typed_as_they_are(a: Seq<String>, b: Seq<String>, path: String)
    ensures
        joined(seq![path]) == path@,
        joined(Seq::empty()) == Seq::<char>::empty(),
        a.len() > 0 && b.len() > 0 ==> joined(a + b) == joined(a) + " "@ + joined(b),
    decreases b.len(),
{
    if a.len() > 0 && b.len() > 0 {
        let rest = b.drop_last();
        assert((a + b).drop_last() =~= a + rest);
        assert((a + b).last() == b.last());
        if b.len() == 1 {
            assert(a + rest =~= a);
            assert(b.last() == b[0]);
        } else {
            dropped_paths_are_typed_as_they_are(a, rest, path);
            assert(joined(a + b) =~= joined(a) + " "@ + joined(b));
        }
    }
}

} // verus!
