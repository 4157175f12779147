//! The questions a window asks before something is lost: closing a tab, closing
//! the window or the application, inserting dropped files, sending a paste and
//! resetting settings.
use vstd::prelude::*;

use crate::app::{ExitState, FesTermApp, FocusState, Shell, WindowRole};
use crate::effects::{AppCommand, Effect};
use crate::overlays::{
    AfterDocumentClose, CloseConsequence, LiveSessionCounts, OverlayState, PendingCloseConfirmation,
    PendingDocumentClose, PendingQuitConfirmation, QuitConfirmationPurpose,
};
use crate::state::{AppState, SessionTab, Tab, TabContent, TabId, Transport};
#[allow(unused_imports)]
use crate::state::{position, position_is_first, session_of, tab_of};

verus! {

/// The groups in which live sessions are counted.
#[derive(Clone, Copy, Debug, PartialEq, Eq, Structural)]
pub enum SessionGroup {
    Local,
    Ssh,
    Serial,
}

impl Transport {
    /// The group that the transport is counted in.
    pub open spec fn group_of(self) -> SessionGroup {
        match self {
            Transport::Local { .. } => SessionGroup::Local,
            Transport::Ssh { .. } => SessionGroup::Ssh,
            Transport::Sftp { .. } => SessionGroup::Ssh,
            Transport::Serial { .. } => SessionGroup::Serial,
        }
    }

    pub fn group(&self) -> (group: SessionGroup)
        ensures
            group == self.group_of(),
    {
        match self {
            Transport::Local { .. } => SessionGroup::Local,
            Transport::Ssh { .. } => SessionGroup::Ssh,
            Transport::Sftp { .. } => SessionGroup::Ssh,
            Transport::Serial { .. } => SessionGroup::Serial,
        }
    }

    /// What closing a session over the transport ends.
    pub open spec fn ends(self) -> CloseConsequence {
        match self {
            Transport::Local { .. } => CloseConsequence::TerminateLocalProcess,
            Transport::Ssh { .. } => CloseConsequence::DisconnectSsh,
            Transport::Sftp { .. } => CloseConsequence::DisconnectSsh,
            Transport::Serial { .. } => CloseConsequence::TerminateLocalProcess,
        }
    }

    pub fn consequence(&self) -> (consequence: CloseConsequence)
        ensures
            consequence == self.ends(),
    {
        match self {
            Transport::Local { .. } => CloseConsequence::TerminateLocalProcess,
            Transport::Ssh { .. } => CloseConsequence::DisconnectSsh,
            Transport::Sftp { .. } => CloseConsequence::DisconnectSsh,
            Transport::Serial { .. } => CloseConsequence::TerminateLocalProcess,
        }
    }

    /// The question about closing still fits the session: a local session that
    /// outlives its tab has nothing to lose any more.
    pub open spec fn still_ends(self, consequence: CloseConsequence) -> bool {
        match self {
            Transport::Local { persistence } => persistence is None && consequence
                == CloseConsequence::TerminateLocalProcess,
            Transport::Ssh { .. } => consequence == CloseConsequence::DisconnectSsh,
            Transport::Sftp { .. } => consequence == CloseConsequence::DisconnectSsh,
            Transport::Serial { .. } => consequence == CloseConsequence::TerminateLocalProcess,
        }
    }

    pub fn still_has_consequence(&self, consequence: CloseConsequence) -> (result: bool)
        ensures
            result == self.still_ends(consequence),
    {
        match self {
            Transport::Local { persistence } => persistence.is_none() && matches!(
                consequence,
                CloseConsequence::TerminateLocalProcess
            ),
            Transport::Ssh { .. } => matches!(consequence, CloseConsequence::DisconnectSsh),
            Transport::Sftp { .. } => matches!(consequence, CloseConsequence::DisconnectSsh),
            Transport::Serial { .. } => matches!(
                consequence,
                CloseConsequence::TerminateLocalProcess
            ),
        }
    }
}

/// How many tabs hold a session of `group` that would be lost.
pub open spec fn live_in_group(tabs: Seq<Tab>, group: SessionGroup) -> nat
    decreases tabs.len(),
{
    if tabs.len() == 0 {
        0
    } else {
        live_in_group(tabs.drop_last(), group) + match tabs.last().session() {
            Some(session) => if session.close_requires_confirmation && session.transport.group_of()
                == group {
                1nat
            } else {
                0nat
            },
            None => 0nat,
        }
    }
}

impl AppState {
    /// What closing the window would lose.
    pub open spec fn live_counts(self) -> LiveSessionCounts {
        LiveSessionCounts {
            local: live_in_group(self.tabs@, SessionGroup::Local) as usize,
            ssh: live_in_group(self.tabs@, SessionGroup::Ssh) as usize,
            serial: live_in_group(self.tabs@, SessionGroup::Serial) as usize,
        }
    }

    /// Counts the sessions that closing the window would lose.
    pub fn live_session_counts(&self) -> (counts: LiveSessionCounts)
        ensures
            counts.local == live_in_group(self.tabs@, SessionGroup::Local),
            counts.ssh == live_in_group(self.tabs@, SessionGroup::Ssh),
            counts.serial == live_in_group(self.tabs@, SessionGroup::Serial),
            counts == self.live_counts(),
    {
        let mut counts = LiveSessionCounts { local: 0, ssh: 0, serial: 0 };
        let mut i: usize = 0;
        while i < self.tabs.len()
            invariant
                i <= self.tabs@.len(),
                counts.local == live_in_group(self.tabs@.take(i as int), SessionGroup::Local),
                counts.ssh == live_in_group(self.tabs@.take(i as int), SessionGroup::Ssh),
                counts.serial == live_in_group(self.tabs@.take(i as int), SessionGroup::Serial),
                counts.local + counts.ssh + counts.serial <= i,
            decreases self.tabs@.len() - i,
        {
            proof {
                assert(self.tabs@.take(i + 1).drop_last() =~= self.tabs@.take(i as int));
            }
            if let TabContent::Session(session) = &self.tabs[i].content {
                if session.close_requires_confirmation {
                    match session.transport.group() {
                        SessionGroup::Local => counts.local = counts.local + 1,
                        SessionGroup::Ssh => counts.ssh = counts.ssh + 1,
                        SessionGroup::Serial => counts.serial = counts.serial + 1,
                    }
                }
            }
            i = i + 1;
        }
        assert(self.tabs@.take(i as int) =~= self.tabs@);
        counts
    }
}

/// An open text document, shared by every window.
#[derive(Debug)]
pub struct OpenDocument {
    pub id: u64,
    pub title: String,
    pub origin: String,
    /// It holds text that has not been written.
    pub unsaved: bool,
    /// How many tabs of the process show it.
    pub views: u64,
}

impl Tab {
    /// The open document that the tab shows.
    pub open spec fn shows(self) -> Option<u64> {
        match self.content {
            TabContent::TextEditor(editor) => Some(editor.document),
            TabContent::MarkdownViewer(viewer) => viewer.live_document,
            _ => None,
        }
    }

    pub fn document(&self) -> (document: Option<u64>)
        ensures
            document == self.shows(),
    {
        match &self.content {
            TabContent::TextEditor(editor) => Some(editor.document),
            TabContent::MarkdownViewer(viewer) => viewer.live_document,
            _ => None,
        }
    }
}

/// How many of `tabs` show the document `id`.
pub open spec fn views_of(tabs: Seq<Tab>, id: u64) -> nat
    decreases tabs.len(),
{
    if tabs.len() == 0 {
        0
    } else {
        views_of(tabs.drop_last(), id) + if tabs.last().shows() == Some(id) {
            1nat
        } else {
            0nat
        }
    }
}

/// Unsaved text that goes when the only view `tab` of its document does.
pub open spec fn lost_with_tab(tab: Tab, document: OpenDocument) -> bool {
    &&& document.unsaved
    &&& document.views <= 1
    &&& tab.shows() == Some(document.id)
}

/// Unsaved text that goes when the window does: all of it with the first
/// window, and otherwise what no other window shows.
pub open spec fn lost_with_window(app: FesTermApp, document: OpenDocument) -> bool {
    &&& document.unsaved
    &&& app.shell.role == WindowRole::Primary || (views_of(app.state.tabs@, document.id) > 0
        && document.views <= views_of(app.state.tabs@, document.id))
}

/// Where the first document lost with `tab` stands.
pub open spec fn first_lost_with_tab(tab: Tab, documents: Seq<OpenDocument>) -> Option<int>
    decreases documents.len(),
{
    if documents.len() == 0 {
        None
    } else {
        match first_lost_with_tab(tab, documents.drop_last()) {
            Some(i) => Some(i),
            None => if lost_with_tab(tab, documents.last()) {
                Some(documents.len() - 1)
            } else {
                None
            },
        }
    }
}

/// Where the first document lost with the window stands.
pub open spec fn first_lost_with_window(app: FesTermApp, documents: Seq<OpenDocument>) -> Option<int>
    decreases documents.len(),
{
    if documents.len() == 0 {
        None
    } else {
        match first_lost_with_window(app, documents.drop_last()) {
            Some(i) => Some(i),
            None => if lost_with_window(app, documents.last()) {
                Some(documents.len() - 1)
            } else {
                None
            },
        }
    }
}

proof fn first_lost_with_tab_in_bounds(tab: Tab, documents: Seq<OpenDocument>, n: int)
    requires
        0 <= n <= documents.len(),
    ensures
        match first_lost_with_tab(tab, documents.take(n)) {
            Some(i) => {
                &&& 0 <= i < n
                &&& first_lost_with_tab(tab, documents) == Some(i)
            },
            None => true,
        },
    decreases documents.len() - n,
{
    if n < documents.len() {
        assert(documents.take(n + 1).drop_last() =~= documents.take(n));
        first_lost_with_tab_in_bounds(tab, documents, n + 1);
    } else {
        assert(documents.take(n) =~= documents);
    }
    first_lost_with_tab_below(tab, documents.take(n));
}

proof fn first_lost_with_tab_below(tab: Tab, documents: Seq<OpenDocument>)
    ensures
        first_lost_with_tab(tab, documents) is Some ==> 0 <= first_lost_with_tab(
            tab,
            documents,
        )->Some_0 < documents.len(),
    decreases documents.len(),
{
    if documents.len() > 0 {
        first_lost_with_tab_below(tab, documents.drop_last());
    }
}

proof fn first_lost_with_window_in_bounds(app: FesTermApp, documents: Seq<OpenDocument>, n: int)
    requires
        0 <= n <= documents.len(),
    ensures
        match first_lost_with_window(app, documents.take(n)) {
            Some(i) => {
                &&& 0 <= i < n
                &&& first_lost_with_window(app, documents) == Some(i)
            },
            None => true,
        },
    decreases documents.len() - n,
{
    if n < documents.len() {
        assert(documents.take(n + 1).drop_last() =~= documents.take(n));
        first_lost_with_window_in_bounds(app, documents, n + 1);
    } else {
        assert(documents.take(n) =~= documents);
    }
    first_lost_with_window_below(app, documents.take(n));
}

proof fn first_lost_with_window_below(app: FesTermApp, documents: Seq<OpenDocument>)
    ensures
        first_lost_with_window(app, documents) is Some ==> 0 <= first_lost_with_window(
            app,
            documents,
        )->Some_0 < documents.len(),
    decreases documents.len(),
{
    if documents.len() > 0 {
        first_lost_with_window_below(app, documents.drop_last());
    }
}

fn find_lost_with_tab(tab: &Tab, documents: &Vec<OpenDocument>) -> (index: Option<usize>)
    ensures
        match index {
            Some(i) => i < documents@.len() && first_lost_with_tab(*tab, documents@) == Some(
                i as int,
            ),
            None => first_lost_with_tab(*tab, documents@) is None,
        },
{
    let shown = tab.document();
    let mut i: usize = 0;
    while i < documents.len()
        invariant
            i <= documents@.len(),
            shown == tab.shows(),
            first_lost_with_tab(*tab, documents@.take(i as int)) is None,
        decreases documents@.len() - i,
    {
        proof {
            assert(documents@.take(i + 1).drop_last() =~= documents@.take(i as int));
        }
        let shows = match shown {
            Some(id) => id == documents[i].id,
            None => false,
        };
        if documents[i].unsaved && documents[i].views <= 1 && shows {
            proof {
                first_lost_with_tab_in_bounds(*tab, documents@, i + 1);
            }
            return Some(i);
        }
        i = i + 1;
    }
    assert(documents@.take(i as int) =~= documents@);
    None
}

fn count_views(tabs: &Vec<Tab>, id: u64) -> (count: usize)
    ensures
        count == views_of(tabs@, id),
{
    let mut count: usize = 0;
    let mut i: usize = 0;
    while i < tabs.len()
        invariant
            count <= i <= tabs@.len(),
            count == views_of(tabs@.take(i as int), id),
        decreases tabs@.len() - i,
    {
        proof {
            assert(tabs@.take(i + 1).drop_last() =~= tabs@.take(i as int));
        }
        if let Some(shown) = tabs[i].document() {
            if shown == id {
                count = count + 1;
            }
        }
        i = i + 1;
    }
    assert(tabs@.take(i as int) =~= tabs@);
    count
}

impl FesTermApp {
    fn find_lost_with_window(&self, documents: &Vec<OpenDocument>) -> (index: Option<usize>)
        ensures
            match index {
                Some(i) => i < documents@.len() && first_lost_with_window(*self, documents@)
                    == Some(i as int),
                None => first_lost_with_window(*self, documents@) is None,
            },
    {
        let mut i: usize = 0;
        while i < documents.len()
            invariant
                i <= documents@.len(),
                first_lost_with_window(*self, documents@.take(i as int)) is None,
            decreases documents@.len() - i,
        {
            proof {
                assert(documents@.take(i + 1).drop_last() =~= documents@.take(i as int));
            }
            let here: usize = count_views(&self.state.tabs, documents[i].id);
            let lost = documents[i].unsaved && (matches!(self.shell.role, WindowRole::Primary) || (
            here > 0 && documents[i].views <= here as u64));
            if lost {
                proof {
                    first_lost_with_window_in_bounds(*self, documents@, i + 1);
                }
                return Some(i);
            }
            i = i + 1;
        }
        assert(documents@.take(i as int) =~= documents@);
        None
    }
}

impl FesTermApp {
    /// The question about closing the live session in tab `id`.
    pub open spec fn close_question(self, id: TabId, session: SessionTab) -> PendingCloseConfirmation {
        PendingCloseConfirmation {
            tab: id,
            identity: session.label,
            consequence: session.transport.ends(),
            lifecycle_generation: session.lifecycle_generation,
            restore_tab: self.state.active,
            cancel_focus_requested: false,
        }
    }

    /// The question about unsaved text that something else waits for.
    pub open spec fn document_question(
        document: OpenDocument,
        next: AfterDocumentClose,
    ) -> PendingDocumentClose {
        PendingDocumentClose {
            document: document.id,
            title: document.title,
            origin: document.origin,
            next,
            save_focus_requested: false,
        }
    }

    /// Closing tab `id` has to be confirmed because of its session.
    pub open spec fn session_to_confirm(self, id: TabId) -> Option<SessionTab> {
        match session_of(self.state.tabs@, id) {
            Some(session) => if self.shell.documents.settings.confirm_session_close
                && session.close_requires_confirmation {
                Some(session)
            } else {
                None
            },
            None => None,
        }
    }

    /// The document about whose unsaved text closing tab `id` has to ask.
    pub open spec fn document_to_save(self, id: TabId, documents: Seq<OpenDocument>) -> Option<
        OpenDocument,
    > {
        match tab_of(self.state.tabs@, id) {
            Some(tab) => match first_lost_with_tab(tab, documents) {
                Some(i) => Some(documents[i]),
                None => None,
            },
            None => None,
        }
    }

    /// The window, and what is to be done, once closing tab `id` was asked for:
    /// it closes, or something is asked first, about unsaved text that only this
    /// tab shows, then about a live session where the preference says so.
    pub open spec fn tab_close_outcome(self, id: TabId, documents: Seq<OpenDocument>) -> (
        Self,
        Option<Effect>,
    ) {
        match (self.document_to_save(id, documents), self.session_to_confirm(id)) {
            (Some(document), _) => (
                self.palette_closed().with_overlays(
                    OverlayState {
                        pending_document_close: Some(
                            Self::document_question(document, AfterDocumentClose::CloseTab(id)),
                        ),
                        ..self.shell.overlays
                    },
                ),
                None,
            ),
            (None, Some(session)) => (
                self.palette_closed().with_overlays(
                    OverlayState {
                        pending_close: Some(self.close_question(id, session)),
                        ..self.shell.overlays
                    },
                ),
                None,
            ),
            (None, None) => (self, Some(Effect::Dispatch(AppCommand::CloseTab(id)))),
        }
    }

    /// Closes a tab, or asks first.
    pub fn request_close_tab(&mut self, id: TabId, documents: &Vec<OpenDocument>) -> (effect: Option<
        Effect,
    >)
        ensures
            (*final(self), effect) == old(self).tab_close_outcome(id, documents@),
    {
        let confirms = self.shell.documents.settings.confirm_session_close;
        let active = self.state.active;
        let mut question: Option<PendingCloseConfirmation> = None;
        if let Some(tab) = self.state.tab(id) {
            if let Some(i) = find_lost_with_tab(tab, documents) {
                self.shell.focus.palette_open = false;
                self.shell.overlays.pending_document_close = Some(
                    PendingDocumentClose {
                        document: documents[i].id,
                        title: documents[i].title.clone(),
                        origin: documents[i].origin.clone(),
                        next: AfterDocumentClose::CloseTab(id),
                        save_focus_requested: false,
                    },
                );
                return None;
            }
            if let TabContent::Session(session) = &tab.content {
                if confirms && session.close_requires_confirmation {
                    question = Some(
                        PendingCloseConfirmation {
                            tab: id,
                            identity: session.label.clone(),
                            consequence: session.transport.consequence(),
                            lifecycle_generation: session.lifecycle_generation,
                            restore_tab: active,
                            cancel_focus_requested: false,
                        },
                    );
                }
            }
        }
        match question {
            Some(question) => {
                self.shell.focus.palette_open = false;
                self.shell.overlays.pending_close = Some(question);
                None
            },
            None => Some(Effect::Dispatch(AppCommand::CloseTab(id))),
        }
    }

    /// What confirming the close of this window means.
    pub open spec fn close_purpose(self) -> QuitConfirmationPurpose {
        match self.shell.role {
            WindowRole::Primary => QuitConfirmationPurpose::Quit,
            WindowRole::Secondary => QuitConfirmationPurpose::CloseWindow,
        }
    }

    /// A close request goes through untouched: automation owns the window, or
    /// the close has been confirmed already.
    pub open spec fn close_is_settled(self) -> bool {
        self.shell.native_smoke || self.shell.exit.quit_confirmed
    }

    /// The live sessions that closing the window asks about. Closing a window
    /// other than the first goes by the preference; the end of the application
    /// always asks.
    pub open spec fn sessions_to_confirm(self) -> bool {
        &&& self.state.live_counts().total() > 0
        &&& self.shell.role == WindowRole::Primary
            || self.shell.documents.settings.confirm_session_close
    }

    /// What a request to close the window leads to, and whether it is cancelled:
    /// it goes through, or a question is asked, about unsaved text before
    /// anything else.
    pub open spec fn close_evaluated(self, documents: Seq<OpenDocument>) -> (Self, bool) {
        let overlays = self.shell.overlays;
        if self.close_is_settled() {
            (self, false)
        } else if overlays.pending_quit is Some {
            (
                self,
                overlays.pending_quit->Some_0.purpose == QuitConfirmationPurpose::InstallUpdate,
            )
        } else if overlays.pending_document_close is Some {
            (self, true)
        } else {
            match first_lost_with_window(self, documents) {
                Some(i) => (
                    self.with_overlays(
                        OverlayState {
                            pending_document_close: Some(
                                Self::document_question(
                                    documents[i],
                                    AfterDocumentClose::ResumeClose(self.close_purpose()),
                                ),
                            ),
                            ..overlays
                        },
                    ),
                    true,
                ),
                None => if self.sessions_to_confirm() {
                    (
                        self.with_overlays(
                            OverlayState {
                                pending_quit: Some(
                                    PendingQuitConfirmation {
                                        counts: self.state.live_counts(),
                                        cancel_focus_requested: false,
                                        purpose: self.close_purpose(),
                                    },
                                ),
                                ..overlays
                            },
                        ),
                        true,
                    )
                } else {
                    (self, false)
                },
            }
        }
    }

    /// Decides on a request to close the window.
    pub fn evaluate_close_request(&mut self, documents: &Vec<OpenDocument>) -> (cancelled: bool)
        ensures
            (*final(self), cancelled) == old(self).close_evaluated(documents@),
    {
        if self.shell.native_smoke || self.shell.exit.quit_confirmed {
            return false;
        }
        if let Some(pending) = &self.shell.overlays.pending_quit {
            return matches!(pending.purpose, QuitConfirmationPurpose::InstallUpdate);
        }
        if self.shell.overlays.pending_document_close.is_some() {
            return true;
        }
        let primary = matches!(self.shell.role, WindowRole::Primary);
        let purpose = if primary {
            QuitConfirmationPurpose::Quit
        } else {
            QuitConfirmationPurpose::CloseWindow
        };
        if let Some(i) = self.find_lost_with_window(documents) {
            self.shell.overlays.pending_document_close = Some(
                PendingDocumentClose {
                    document: documents[i].id,
                    title: documents[i].title.clone(),
                    origin: documents[i].origin.clone(),
                    next: AfterDocumentClose::ResumeClose(purpose),
                    save_focus_requested: false,
                },
            );
            return true;
        }
        let counts = self.state.live_session_counts();
        if counts.is_empty() || !(primary
            || self.shell.documents.settings.confirm_session_close) {
            return false;
        }
        self.shell.overlays.pending_quit = Some(
            PendingQuitConfirmation { counts, cancel_focus_requested: false, purpose },
        );
        true
    }

    /// Takes in that the platform wants to close the window: decides on the
    /// request, and accepts it where nothing is left to be asked.
    pub fn close_requested(&mut self, documents: &Vec<OpenDocument>) -> (cancelled: bool)
        ensures
            ({
                let (after, cancel) = old(self).close_evaluated(documents@);
                let overlays = after.shell.overlays;
                &&& cancelled == cancel
                &&& *final(self) == if overlays.pending_quit is None
                    && overlays.pending_document_close is None {
                    after.with_exit(
                        ExitState { window_close_accepted: true, ..after.shell.exit },
                    )
                } else {
                    after
                }
            }),
    {
        let cancelled = self.evaluate_close_request(documents);
        if self.shell.overlays.pending_quit.is_none()
            && self.shell.overlays.pending_document_close.is_none() {
            self.shell.exit.window_close_accepted = true;
        }
        cancelled
    }

    /// What installing an update leads to.
    pub open spec fn install_requested(self) -> (Self, Option<Effect>) {
        if self.state.live_counts().total() == 0 {
            (
                self.with_exit(
                    ExitState { update_restart_authorized: true, ..self.shell.exit },
                ),
                Some(Effect::BeginUpdateInstall),
            )
        } else {
            (
                self.with_overlays(
                    OverlayState {
                        pending_quit: Some(
                            PendingQuitConfirmation {
                                counts: self.state.live_counts(),
                                cancel_focus_requested: false,
                                purpose: QuitConfirmationPurpose::InstallUpdate,
                            },
                        ),
                        ..self.shell.overlays
                    },
                ),
                None,
            )
        }
    }

    /// Begins to install an update, or asks first where that would end live
    /// sessions.
    pub fn request_update_install(&mut self) -> (effect: Option<Effect>)
        ensures
            (*final(self), effect) == old(self).install_requested(),
    {
        let counts = self.state.live_session_counts();
        if counts.is_empty() {
            self.shell.exit.update_restart_authorized = true;
            return Some(Effect::BeginUpdateInstall);
        }
        self.shell.overlays.pending_quit = Some(
            PendingQuitConfirmation {
                counts,
                cancel_focus_requested: false,
                purpose: QuitConfirmationPurpose::InstallUpdate,
            },
        );
        None
    }
}

proof fn lost_with_tab_is_found(tab: Tab, documents: Seq<OpenDocument>, i: int)
    requires
        0 <= i < documents.len(),
        lost_with_tab(tab, documents[i]),
    ensures
        first_lost_with_tab(tab, documents) is Some,
    decreases documents.len(),
{
    if i < documents.len() - 1 {
        lost_with_tab_is_found(tab, documents.drop_last(), i);
    }
}

proof fn lost_with_window_is_found(app: FesTermApp, documents: Seq<OpenDocument>, i: int)
    requires
        0 <= i < documents.len(),
        lost_with_window(app, documents[i]),
    ensures
        first_lost_with_window(app, documents) is Some,
    decreases documents.len(),
{
    if i < documents.len() - 1 {
        lost_with_window_is_found(app, documents.drop_last(), i);
    }
}

/// Unsaved text never goes silently with its last view: closing that tab always
/// asks first.
pub proof fn closing_asks_about_unsaved_text(
    app: FesTermApp,
    id: TabId,
    documents: Seq<OpenDocument>,
    i: int,
)
    requires
        tab_of(app.state.tabs@, id) is Some,
        0 <= i < documents.len(),
        lost_with_tab(tab_of(app.state.tabs@, id)->Some_0, documents[i]),
    ensures
        app.tab_close_outcome(id, documents).1 is None,
        app.tab_close_outcome(id, documents).0.shell.overlays.pending_document_close is Some,
{
    lost_with_tab_is_found(tab_of(app.state.tabs@, id)->Some_0, documents, i);
}

/// Nor does it go with its window: a close that would lose unsaved text is
/// cancelled and asks about a document, unless the close has been confirmed or
/// is being asked about already.
pub proof fn leaving_asks_about_unsaved_text(
    app: FesTermApp,
    documents: Seq<OpenDocument>,
    i: int,
)
    requires
        !app.close_is_settled(),
        app.shell.overlays.pending_quit is None,
        0 <= i < documents.len(),
        lost_with_window(app, documents[i]),
    ensures
        app.close_evaluated(documents).1,
        app.close_evaluated(documents).0.shell.overlays.pending_document_close is Some,
{
    lost_with_window_is_found(app, documents, i);
}

/// Live sessions do not go with the application unasked either, whatever the
/// preference: the close is cancelled and a question is open, unless it has been
/// confirmed or is being asked about already.
pub proof fn quitting_asks_about_live_sessions(app: FesTermApp, documents: Seq<OpenDocument>)
    requires
        !app.close_is_settled(),
        app.shell.overlays.pending_quit is None,
        app.shell.role == WindowRole::Primary,
        app.state.live_counts().total() > 0,
    ensures
        app.close_evaluated(documents).1,
        ({
            let overlays = app.close_evaluated(documents).0.shell.overlays;
            overlays.pending_quit is Some || overlays.pending_document_close is Some
        }),
{
}

/// A tab that shows no unsaved document and no live session closes unasked.
pub proof fn closing_without_loss_asks_nothing(
    app: FesTermApp,
    id: TabId,
    documents: Seq<OpenDocument>,
)
    requires
        session_of(app.state.tabs@, id) is None,
        forall|i: int| 0 <= i < documents.len() ==> !(#[trigger] documents[i]).unsaved,
    ensures
        app.tab_close_outcome(id, documents) == (
            app,
            Some(Effect::Dispatch(AppCommand::CloseTab(id))),
        ),
{
    if let Some(tab) = tab_of(app.state.tabs@, id) {
        nothing_lost(tab, documents);
    }
}

proof fn nothing_lost(tab: Tab, documents: Seq<OpenDocument>)
    requires
        forall|i: int| 0 <= i < documents.len() ==> !(#[trigger] documents[i]).unsaved,
    ensures
        first_lost_with_tab(tab, documents) is None,
    decreases documents.len(),
{
    if documents.len() > 0 {
        assert(!documents[documents.len() - 1].unsaved);
        assert forall|i: int| 0 <= i < documents.drop_last().len() implies !(
        #[trigger] documents.drop_last()[i]).unsaved by {
            assert(documents.drop_last()[i] == documents[i]);
        }
        nothing_lost(tab, documents.drop_last());
    }
}

/// What closing a session ends and the group it is counted in agree, and a
/// question about closing fits a session exactly where it names what that ends,
/// unless the session is a local one that outlives its tab.
pub proof fn transports_are_told_apart(transport: Transport, consequence: CloseConsequence)
    ensures
        transport is Local <==> transport.group_of() == SessionGroup::Local,
        transport is Serial <==> transport.group_of() == SessionGroup::Serial,
        (transport is Ssh || transport is Sftp) <==> transport.group_of() == SessionGroup::Ssh,
        transport.group_of() == SessionGroup::Ssh <==> transport.ends()
            == CloseConsequence::DisconnectSsh,
        transport.still_ends(consequence) ==> transport.ends() == consequence,
        transport.ends() == consequence && !(transport is Local
            && transport->Local_persistence is Some) ==> transport.still_ends(consequence),
        transport is Local && transport->Local_persistence is Some ==> !transport.still_ends(
            consequence,
        ),
{
}

/// The tab holds a session that closing it would lose.
pub open spec fn would_be_lost(tab: Tab) -> bool {
    match tab.content {
        TabContent::Session(session) => session.close_requires_confirmation,
        _ => false,
    }
}

/// Every session that would be lost is counted, once and in the group of its
/// transport, and nothing else is.
pub proof fn every_live_session_is_counted(tabs: Seq<Tab>)
    ensures
        live_in_group(tabs, SessionGroup::Local) + live_in_group(tabs, SessionGroup::Ssh)
            + live_in_group(tabs, SessionGroup::Serial) == tabs.filter(
            |tab: Tab| would_be_lost(tab),
        ).len(),
        forall|group: SessionGroup| #[trigger]
            live_in_group(tabs, group) == tabs.filter(
                |tab: Tab|
                    would_be_lost(tab) && tab.content->Session_0.transport.group_of() == group,
            ).len(),
        live_in_group(tabs, SessionGroup::Local) + live_in_group(tabs, SessionGroup::Ssh)
            + live_in_group(tabs, SessionGroup::Serial) <= tabs.len(),
    decreases tabs.len(),
{
    reveal(Seq::filter);
    if tabs.len() > 0 {
        every_live_session_is_counted(tabs.drop_last());
        assert forall|group: SessionGroup| #[trigger]
            live_in_group(tabs, group) == tabs.filter(
                |tab: Tab|
                    would_be_lost(tab) && tab.content->Session_0.transport.group_of() == group,
            ).len() by {
            assert(live_in_group(tabs.drop_last(), group) == tabs.drop_last().filter(
                |tab: Tab|
                    would_be_lost(tab) && tab.content->Session_0.transport.group_of() == group,
            ).len());
        }
    }
}

proof fn lost_tab_stands(tabs: Seq<Tab>) -> (i: int)
    requires
        tabs.filter(|tab: Tab| would_be_lost(tab)).len() > 0,
    ensures
        0 <= i < tabs.len(),
        would_be_lost(tabs[i]),
    decreases tabs.len(),
{
    reveal(Seq::filter);
    if would_be_lost(tabs.last()) {
        tabs.len() - 1
    } else {
        lost_tab_stands(tabs.drop_last())
    }
}

/// Nothing is counted as lost exactly where no tab holds a session that would
/// be.
pub proof fn counts_are_zero_where_nothing_is_lost(state: AppState)
    ensures
        state.live_counts().total() > 0 <==> exists|i: int|
            0 <= i < state.tabs@.len() && would_be_lost(#[trigger] state.tabs@[i]),
{
    broadcast use vstd::seq_lib::group_filter_ensures;

    let tabs = state.tabs@;
    every_live_session_is_counted(tabs);
    assert(tabs.len() == state.tabs.len());
    let lost = tabs.filter(|tab: Tab| would_be_lost(tab));
    if lost.len() > 0 {
        assert(lost.contains(lost[0]));
        let i = lost_tab_stands(tabs);
        assert(would_be_lost(tabs[i]));
    }
    if exists|i: int| 0 <= i < tabs.len() && would_be_lost(#[trigger] tabs[i]) {
        let i = choose|i: int| 0 <= i < tabs.len() && would_be_lost(#[trigger] tabs[i]);
        assert(tabs.contains(tabs[i]));
        assert(lost.contains(tabs[i]));
    }
}

proof fn first_lost_with_tab_is_first(tab: Tab, documents: Seq<OpenDocument>)
    ensures
        match first_lost_with_tab(tab, documents) {
            Some(i) => {
                &&& 0 <= i < documents.len()
                &&& lost_with_tab(tab, documents[i])
                &&& forall|j: int| 0 <= j < i ==> !lost_with_tab(tab, #[trigger] documents[j])
            },
            None => forall|j: int|
                0 <= j < documents.len() ==> !lost_with_tab(tab, #[trigger] documents[j]),
        },
    decreases documents.len(),
{
    if documents.len() > 0 {
        let rest = documents.drop_last();
        first_lost_with_tab_is_first(tab, rest);
        assert(forall|j: int| 0 <= j < rest.len() ==> rest[j] == #[trigger] documents[j]);
    }
}

proof fn first_lost_with_window_is_first(app: FesTermApp, documents: Seq<OpenDocument>)
    ensures
        match first_lost_with_window(app, documents) {
            Some(i) => {
                &&& 0 <= i < documents.len()
                &&& lost_with_window(app, documents[i])
                &&& forall|j: int| 0 <= j < i ==> !lost_with_window(app, #[trigger] documents[j])
            },
            None => forall|j: int|
                0 <= j < documents.len() ==> !lost_with_window(app, #[trigger] documents[j]),
        },
    decreases documents.len(),
{
    if documents.len() > 0 {
        let rest = documents.drop_last();
        first_lost_with_window_is_first(app, rest);
        assert(forall|j: int| 0 <= j < rest.len() ==> rest[j] == #[trigger] documents[j]);
    }
}

/// A document's views in a window are the tabs that show it.
pub proof fn views_are_counted(tabs: Seq<Tab>, id: u64)
    ensures
        views_of(tabs, id) == tabs.filter(
            |tab: Tab|
                match tab.content {
                    TabContent::TextEditor(editor) => editor.document == id,
                    TabContent::MarkdownViewer(viewer) => viewer.live_document == Some(id),
                    _ => false,
                },
        ).len(),
    decreases tabs.len(),
{
    reveal(Seq::filter);
    if tabs.len() > 0 {
        views_are_counted(tabs.drop_last(), id);
    }
}

/// What is asked before a tab closes is about that tab: the document that is
/// asked about is one whose unsaved text only this tab shows, and the session is
/// the tab's own. The question says what it would lose, and what waits for the
/// answer is closing that very tab. Where nothing is asked, the tab closes, and
/// no other.
pub proof fn closing_questions_name_the_tab(
    app: FesTermApp,
    id: TabId,
    documents: Seq<OpenDocument>,
)
    requires
        app.shell.overlays.pending_document_close is None,
    ensures
        ({
            let (after, effect) = app.tab_close_outcome(id, documents);
            let asked = after.shell.overlays;
            &&& after.state == app.state
            &&& after.shell.exit == app.shell.exit
            &&& after.shell.documents == app.shell.documents
            &&& effect is Some ==> effect == Some(Effect::Dispatch(AppCommand::CloseTab(id)))
                && after == app
            &&& effect is None ==> !after.shell.focus.palette_open
            &&& effect is None && asked.pending_document_close is None ==> {
                let session = session_of(app.state.tabs@, id);
                &&& session is Some
                &&& session->Some_0.close_requires_confirmation
                &&& app.shell.documents.settings.confirm_session_close
                &&& asked.pending_close is Some
                &&& asked.pending_close->Some_0.tab == id
                &&& asked.pending_close->Some_0.identity == session->Some_0.label
                &&& asked.pending_close->Some_0.consequence == session->Some_0.transport.ends()
                &&& asked.pending_close->Some_0.lifecycle_generation
                    == session->Some_0.lifecycle_generation
                &&& asked.pending_close->Some_0.restore_tab == app.state.active
                &&& !asked.pending_close->Some_0.cancel_focus_requested
            }
            &&& asked.pending_document_close is Some ==> {
                let question = asked.pending_document_close->Some_0;
                &&& effect is None
                &&& asked.pending_close == app.shell.overlays.pending_close
                &&& question.next == AfterDocumentClose::CloseTab(id)
                &&& !question.save_focus_requested
                &&& exists|i: int|
                    {
                        &&& 0 <= i < documents.len()
                        &&& (#[trigger] documents[i]).unsaved
                        &&& documents[i].views <= 1
                        &&& question.document == documents[i].id
                        &&& question.title == documents[i].title
                        &&& question.origin == documents[i].origin
                        &&& tab_of(app.state.tabs@, id)->Some_0.shows() == Some(documents[i].id)
                    }
            }
        }),
{
    if let Some(tab) = tab_of(app.state.tabs@, id) {
        first_lost_with_tab_is_first(tab, documents);
    }
}

/// A live session is asked about exactly where the preference says so: with it,
/// its tab never closes unasked; without it, and without unsaved text, no tab is
/// asked about.
pub proof fn the_preference_decides_about_live_sessions(
    app: FesTermApp,
    id: TabId,
    documents: Seq<OpenDocument>,
)
    ensures
        app.shell.documents.settings.confirm_session_close && session_of(
            app.state.tabs@,
            id,
        ) is Some && session_of(app.state.tabs@, id)->Some_0.close_requires_confirmation
            ==> app.tab_close_outcome(id, documents).1 is None,
        !app.shell.documents.settings.confirm_session_close && (forall|i: int|
            0 <= i < documents.len() ==> !(#[trigger] documents[i]).unsaved)
            ==> app.tab_close_outcome(id, documents) == (
            app,
            Some(Effect::Dispatch(AppCommand::CloseTab(id))),
        ),
        session_of(app.state.tabs@, id) is Some && !session_of(
            app.state.tabs@,
            id,
        )->Some_0.close_requires_confirmation ==> app.tab_close_outcome(id, documents).1 == Some(
            Effect::Dispatch(AppCommand::CloseTab(id)),
        ),
{
    if let Some(tab) = tab_of(app.state.tabs@, id) {
        first_lost_with_tab_is_first(tab, documents);
        if session_of(app.state.tabs@, id) is Some {
            assert(tab.shows() is None);
        }
    }
}

/// What a request to close the window leads to: one that is settled goes through
/// untouched; one about which something is asked already changes nothing; and
/// otherwise at most one question is opened, about a document that goes with the
/// window before anything else, and about live sessions only where no document
/// does. The question's purpose is that of the window. A request that goes
/// through loses no unsaved text, and no live session that had to be asked about.
pub proof fn closing_the_window_asks_for_what_it_loses(
    app: FesTermApp,
    documents: Seq<OpenDocument>,
)
    ensures
        ({
            let (after, cancelled) = app.close_evaluated(documents);
            let before = app.shell.overlays;
            let asked = after.shell.overlays;
            let purpose = if app.shell.role == WindowRole::Primary {
                QuitConfirmationPurpose::Quit
            } else {
                QuitConfirmationPurpose::CloseWindow
            };
            let live = exists|i: int|
                0 <= i < app.state.tabs@.len() && would_be_lost(#[trigger] app.state.tabs@[i]);
            &&& after.state == app.state
            &&& after.shell.exit == app.shell.exit
            &&& after.shell.focus == app.shell.focus
            &&& app.shell.native_smoke || app.shell.exit.quit_confirmed ==> after == app
                && !cancelled
            &&& !cancelled ==> after == app
            &&& !(app.shell.native_smoke || app.shell.exit.quit_confirmed)
                && before.pending_quit is Some ==> after == app && (cancelled
                <==> before.pending_quit->Some_0.purpose == QuitConfirmationPurpose::InstallUpdate)
            &&& !(app.shell.native_smoke || app.shell.exit.quit_confirmed)
                && before.pending_quit is None && before.pending_document_close is Some ==> after
                == app && cancelled
            &&& before.pending_quit is None && asked.pending_quit is Some ==> {
                &&& cancelled
                &&& asked.pending_document_close is None
                &&& asked.pending_quit->Some_0.purpose == purpose
                &&& asked.pending_quit->Some_0.counts == app.state.live_counts()
                &&& !asked.pending_quit->Some_0.cancel_focus_requested
                &&& live
                &&& forall|i: int|
                    0 <= i < documents.len() ==> !lost_with_window(app, #[trigger] documents[i])
            }
            &&& before.pending_document_close is None && asked.pending_document_close is Some ==> {
                let question = asked.pending_document_close->Some_0;
                &&& cancelled
                &&& asked.pending_quit is None
                &&& question.next == AfterDocumentClose::ResumeClose(purpose)
                &&& !question.save_focus_requested
                &&& exists|i: int|
                    {
                        &&& 0 <= i < documents.len()
                        &&& lost_with_window(app, #[trigger] documents[i])
                        &&& question.document == documents[i].id
                        &&& question.title == documents[i].title
                        &&& question.origin == documents[i].origin
                    }
            }
            &&& !cancelled && !(app.shell.native_smoke || app.shell.exit.quit_confirmed)
                && before.pending_quit is None ==> {
                &&& before.pending_document_close is None
                &&& forall|i: int|
                    0 <= i < documents.len() ==> !lost_with_window(app, #[trigger] documents[i])
                &&& !live || (app.shell.role == WindowRole::Secondary
                    && !app.shell.documents.settings.confirm_session_close)
            }
            &&& asked.pending_close == before.pending_close
            &&& asked.pending_paste == before.pending_paste
            &&& asked.pending_file_drop == before.pending_file_drop
            &&& asked.pending_settings_reset == before.pending_settings_reset
        }),
{
    first_lost_with_window_is_first(app, documents);
    counts_are_zero_where_nothing_is_lost(app.state);
    let (after, _) = app.close_evaluated(documents);
    if app.shell.overlays.pending_document_close is None
        && after.shell.overlays.pending_document_close is Some {
        let i = first_lost_with_window(app, documents)->Some_0;
        assert(lost_with_window(app, documents[i]));
    }
}

/// Unsaved text goes with the first window wherever it is shown, and with any
/// other window exactly where that window shows it and no other does.
pub proof fn text_goes_with_its_last_window(app: FesTermApp, document: OpenDocument)
    ensures
        !document.unsaved ==> !lost_with_window(app, document),
        document.unsaved && app.shell.role == WindowRole::Primary ==> lost_with_window(app, document),
        document.unsaved && app.shell.role == WindowRole::Secondary && views_of(
            app.state.tabs@,
            document.id,
        ) == document.views && document.views > 0 ==> lost_with_window(app, document),
        app.shell.role == WindowRole::Secondary && document.views > views_of(
            app.state.tabs@,
            document.id,
        ) ==> !lost_with_window(app, document),
        app.shell.role == WindowRole::Secondary && views_of(app.state.tabs@, document.id) == 0
            ==> !lost_with_window(app, document),
{
}

/// An update that ends no live session is installed at once and the restart is
/// authorised; one that does is asked about first, and then neither happens.
pub proof fn updates_ask_about_live_sessions(app: FesTermApp)
    ensures
        ({
            let (after, effect) = app.install_requested();
            let live = exists|i: int|
                0 <= i < app.state.tabs@.len() && would_be_lost(#[trigger] app.state.tabs@[i]);
            let asked = after.shell.overlays.pending_quit;
            &&& after.state == app.state
            &&& effect == if live {
                None
            } else {
                Some(Effect::BeginUpdateInstall)
            }
            &&& !live ==> after.shell.exit.update_restart_authorized && after.shell.overlays
                == app.shell.overlays && after.shell.exit.quit_confirmed
                == app.shell.exit.quit_confirmed && after.shell.exit.window_close_accepted
                == app.shell.exit.window_close_accepted
            &&& live ==> after.shell.exit == app.shell.exit && asked is Some
                && asked->Some_0.purpose == QuitConfirmationPurpose::InstallUpdate
                && asked->Some_0.counts == app.state.live_counts()
                && !asked->Some_0.cancel_focus_requested
        }),
{
    counts_are_zero_where_nothing_is_lost(app.state);
}

} // verus!
