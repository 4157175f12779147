//! The tabs of a window and the facts about them that decisions rest on.
use vstd::prelude::*;

verus! {

/// Identifies a tab across every window of the process.
#[derive(Clone, Copy, Debug, PartialEq, Eq, Structural)]
pub struct TabId(pub u64);

impl TabId {
    /// The identifier of the tab's chip.
    pub fn chip_id(self) -> (chip: u64)
        ensures
            chip == self.0,
    {
        self.0
    }

    pub fn from_chip_id(chip: u64) -> (id: Self)
        ensures
            id == TabId(chip),
    {
        TabId(chip)
    }
}

/// What a chip says of its tab's state.
#[derive(Clone, Copy, Debug, PartialEq, Eq, Structural)]
pub enum ChipStatus {
    Neutral,
    Starting,
    Connected,
    Reconnecting,
    AuthRequired,
    Disconnected,
    Exited,
    Failed,
    DocumentSaved,
    DocumentUnsaved,
    DocumentConflict,
}

/// A session that outlives its connection.
#[derive(Debug)]
pub struct Persistence {
    pub provider_label: String,
    pub session_name: String,
}

#[derive(Clone, Copy, Debug, PartialEq, Eq, Structural)]
pub enum SerialDataBits {
    Five,
    Six,
    Seven,
    Eight,
}

#[derive(Clone, Copy, Debug, PartialEq, Eq, Structural)]
pub enum SerialParity {
    Absent,
    Odd,
    Even,
}

#[derive(Clone, Copy, Debug, PartialEq, Eq, Structural)]
pub enum SerialStopBits {
    One,
    Two,
}

#[derive(Clone, Copy, Debug, PartialEq, Eq, Structural)]
pub enum SerialFlowControl {
    Absent,
    Software,
    Hardware,
}

/// What a session runs over.
#[derive(Debug)]
pub enum Transport {
    Local { persistence: Option<Persistence> },
    Ssh { username: String, host: String, port: u16, persistence: Option<Persistence> },
    Sftp { username: String, host: String, port: u16 },
    Serial {
        device: String,
        baud_rate: u32,
        data_bits: SerialDataBits,
        parity: SerialParity,
        stop_bits: SerialStopBits,
        flow_control: SerialFlowControl,
    },
}

/// A host key that waits for a decision.
#[derive(Debug)]
pub struct HostKeyPrompt {
    pub host: String,
    pub port: u16,
    pub fingerprint: String,
    /// The fingerprint trusted so far, where it differs from the one presented.
    pub previously_trusted: Option<String>,
}

/// A terminal session, as far as decisions depend on it.
#[derive(Debug)]
pub struct SessionTab {
    pub label: String,
    pub launch_secondary: Option<String>,
    pub dynamic_secondary: Option<String>,
    /// The title that the program in the terminal has set.
    pub terminal_title: String,
    pub profile_identifier: Option<String>,
    pub transport: Transport,
    pub chip_status: ChipStatus,
    pub status_label: String,
    pub system_label: String,
    pub dimensions: Option<String>,
    pub durable_label: Option<String>,
    pub accepts_input: bool,
    pub accepts_typed_input: bool,
    pub bracketed_paste: bool,
    /// Changes whenever the session is started anew.
    pub lifecycle_generation: u64,
    /// The clipboard read whose place in the input queue is still open.
    pub clipboard_pending: Option<u64>,
    /// The clipboard read that failed, until its followers are dropped.
    pub clipboard_failed: Option<u64>,
    pub search_open: bool,
    pub host_key_prompt: Option<HostKeyPrompt>,
    pub password_prompt: bool,
    pub live_port_forwarding: bool,
    pub active_port_forwards: usize,
    pub close_requires_confirmation: bool,
    pub reconnect_available: bool,
    pub input_recording: bool,
    pub has_new_output: bool,
    pub evicted_lines: u64,
    pub eviction_notice_shown: bool,
}

/// Where an unfinished connection wants to go.
#[derive(Debug)]
pub struct Destination {
    pub label: String,
    pub host: String,
    pub port: u16,
}

/// A rendered Markdown document.
#[derive(Debug)]
pub struct MarkdownViewerTab {
    pub title: String,
    pub secondary: String,
    /// The open document whose text it follows, if it follows one.
    pub live_document: Option<u64>,
    pub status: ChipStatus,
    pub status_context: String,
    pub status_encoding: String,
    pub status_label: String,
}

/// An editor on an open document.
#[derive(Debug)]
pub struct TextEditorTab {
    pub title: String,
    pub origin: String,
    pub document: u64,
    pub status: ChipStatus,
    pub language: String,
    pub position: String,
    pub encoding: String,
    pub status_label: String,
    pub size: String,
}

/// A graphical SFTP session.
#[derive(Debug)]
pub struct FileManagerTab {
    pub label: String,
    pub endpoints: String,
    pub status: ChipStatus,
    pub status_label: String,
    pub host_key_prompt: Option<HostKeyPrompt>,
}

#[derive(Debug)]
pub enum TabContent {
    Launcher,
    Settings,
    Profiles,
    MarkdownViewer(MarkdownViewerTab),
    TextEditor(TextEditorTab),
    SshAuthenticationRequired(Destination),
    SftpAuthenticationRequired(Destination),
    SftpFileManagerAuthenticationRequired(Destination),
    SftpFileManager(FileManagerTab),
    Session(SessionTab),
}

#[derive(Debug)]
pub struct Tab {
    pub id: TabId,
    /// Whether a saved workspace can bring the tab back.
    pub restorable: bool,
    pub content: TabContent,
}

impl Tab {
    pub open spec fn session(self) -> Option<SessionTab> {
        match self.content {
            TabContent::Session(session) => Some(session),
            _ => None,
        }
    }

    /// A tab on the launcher.
    pub open spec fn launcher(id: TabId) -> Self {
        Tab { id, restorable: true, content: TabContent::Launcher }
    }
}

/// A window's tabs in the order of its chips, and the one in front.
#[derive(Debug)]
pub struct AppState {
    pub tabs: Vec<Tab>,
    pub active: TabId,
}

/// Where the first tab with identifier `id` stands.
pub open spec fn position(tabs: Seq<Tab>, id: TabId) -> Option<int>
    decreases tabs.len(),
{
    if tabs.len() == 0 {
        None
    } else {
        match position(tabs.drop_last(), id) {
            Some(i) => Some(i),
            None => if tabs.last().id == id {
                Some(tabs.len() - 1)
            } else {
                None
            },
        }
    }
}

/// A position is the first place at which the identifier stands.
pub proof fn position_is_first(tabs: Seq<Tab>, id: TabId)
    ensures
        match position(tabs, id) {
            Some(i) => {
                &&& 0 <= i < tabs.len()
                &&& tabs[i].id == id
                &&& forall|j: int| 0 <= j < i ==> (#[trigger] tabs[j]).id != id
            },
            None => forall|j: int| 0 <= j < tabs.len() ==> (#[trigger] tabs[j]).id != id,
        },
    decreases tabs.len(),
{
    if tabs.len() > 0 {
        let rest = tabs.drop_last();
        position_is_first(rest, id);
        assert(forall|j: int| 0 <= j < rest.len() ==> rest[j] == #[trigger] tabs[j]);
    }
}

pub open spec fn tab_of(tabs: Seq<Tab>, id: TabId) -> Option<Tab> {
    match position(tabs, id) {
        Some(i) => Some(tabs[i]),
        None => None,
    }
}

pub open spec fn session_of(tabs: Seq<Tab>, id: TabId) -> Option<SessionTab> {
    match tab_of(tabs, id) {
        Some(tab) => tab.session(),
        None => None,
    }
}

/// The identifiers of `tabs` are all different.
pub open spec fn distinct(tabs: Seq<Tab>) -> bool {
    forall|i: int, j: int|
        0 <= i < j < tabs.len() ==> (#[trigger] tabs[i]).id != (#[trigger] tabs[j]).id
}

impl AppState {
    /// A window that shows tabs shows one of its own, and no two tabs share an
    /// identifier.
    pub open spec fn wf(self) -> bool {
        &&& distinct(self.tabs@)
        &&& self.tabs@.len() > 0 ==> position(self.tabs@, self.active) is Some
    }

    pub open spec fn active_tab(self) -> Option<Tab> {
        tab_of(self.tabs@, self.active)
    }

    pub open spec fn active_session(self) -> Option<SessionTab> {
        session_of(self.tabs@, self.active)
    }

    /// Where the tab `id` stands.
    pub fn index_of(&self, id: TabId) -> (index: Option<usize>)
        ensures
            match index {
                Some(i) => position(self.tabs@, id) == Some(i as int) && i < self.tabs@.len()
                    && self.tabs@[i as int].id == id,
                None => position(self.tabs@, id) is None,
            },
    {
        let mut i: usize = 0;
        while i < self.tabs.len()
            invariant
                i <= self.tabs@.len(),
                position(self.tabs@.take(i as int), id) is None,
            decreases self.tabs@.len() - i,
        {
            proof {
                assert(self.tabs@.take(i + 1).drop_last() =~= self.tabs@.take(i as int));
            }
            if self.tabs[i].id == id {
                proof {
                    self.position_found(id, i as int);
                }
                return Some(i);
            }
            i = i + 1;
        }
        assert(self.tabs@.take(i as int) =~= self.tabs@);
        None
    }

    proof fn position_found(&self, id: TabId, i: int)
        requires
            0 <= i < self.tabs@.len(),
            self.tabs@[i].id == id,
            position(self.tabs@.take(i), id) is None,
        ensures
            position(self.tabs@, id) == Some(i),
    {
        self.position_extends(id, i, self.tabs@.len() - 1);
        assert(self.tabs@.take(self.tabs@.len() as int) =~= self.tabs@);
    }

    proof fn position_extends(&self, id: TabId, i: int, n: int)
        requires
            0 <= i <= n < self.tabs@.len(),
            self.tabs@[i].id == id,
            position(self.tabs@.take(i), id) is None,
        ensures
            position(self.tabs@.take(n + 1), id) == Some(i),
        decreases n - i,
    {
        assert(self.tabs@.take(n + 1).drop_last() =~= self.tabs@.take(n));
        if i < n {
            self.position_extends(id, i, n - 1);
        }
    }

    /// The tab `id`.
    pub fn tab(&self, id: TabId) -> (tab: Option<&Tab>)
        ensures
            match tab {
                Some(tab) => tab_of(self.tabs@, id) == Some(*tab) && tab.id == id,
                None => tab_of(self.tabs@, id) is None,
            },
    {
        match self.index_of(id) {
            Some(i) => Some(&self.tabs[i]),
            None => None,
        }
    }

    /// The session in tab `id`, where it holds one.
    pub fn session_tab(&self, id: TabId) -> (session: Option<&SessionTab>)
        ensures
            match session {
                Some(session) => session_of(self.tabs@, id) == Some(*session),
                None => session_of(self.tabs@, id) is None,
            },
    {
        match self.tab(id) {
            Some(tab) => match &tab.content {
                TabContent::Session(session) => Some(session),
                _ => None,
            },
            None => None,
        }
    }

    /// The tab whose chip is `chip`.
    pub fn tab_id_for_chip(&self, chip: u64) -> (id: Option<TabId>)
        ensures
            id == if position(self.tabs@, TabId(chip)) is Some {
                Some(TabId(chip))
            } else {
                None
            },
    {
        match self.index_of(TabId(chip)) {
            Some(_) => Some(TabId(chip)),
            None => None,
        }
    }
}

/// The tab in front once the tab at `k` has left: the one that was, or where it
/// was the one that left, its right neighbour or else its left one.
pub open spec fn active_after_leaving(tabs: Seq<Tab>, active: TabId, k: int) -> TabId {
    if tabs[k].id != active || tabs.len() == 1 {
        active
    } else if k + 1 < tabs.len() {
        tabs[k + 1].id
    } else {
        tabs[k - 1].id
    }
}

/// Where a tab that is to stand in front of `before` goes: there, or at the end.
pub open spec fn place_before(tabs: Seq<Tab>, before: Option<TabId>) -> int {
    match before {
        Some(id) => match position(tabs, id) {
            Some(i) => i,
            None => tabs.len() as int,
        },
        None => tabs.len() as int,
    }
}

/// A tab that is there has a position.
pub proof fn present_has_position(tabs: Seq<Tab>, i: int)
    requires
        0 <= i < tabs.len(),
    ensures
        position(tabs, tabs[i].id) is Some,
{
    position_is_first(tabs, tabs[i].id);
}

impl AppState {
    /// Takes a tab out, with everything it holds.
    pub fn detach_tab(&mut self, id: TabId) -> (tab: Option<Tab>)
        requires
            old(self).wf(),
        ensures
            final(self).wf(),
            match position(old(self).tabs@, id) {
                Some(k) => {
                    &&& tab == Some(old(self).tabs@[k])
                    &&& final(self).tabs@ == old(self).tabs@.remove(k)
                    &&& final(self).active == active_after_leaving(
                        old(self).tabs@,
                        old(self).active,
                        k,
                    )
                },
                None => tab is None && *final(self) == *old(self),
            },
    {
        let k: usize = match self.index_of(id) {
            Some(k) => k,
            None => return None,
        };
        let ghost before = self.tabs@;
        let ghost active = self.active;
        proof {
            position_is_first(before, active);
        }
        if self.active == id && self.tabs.len() > 1 {
            self.active = if k + 1 < self.tabs.len() {
                self.tabs[k + 1].id
            } else {
                self.tabs[k - 1].id
            };
        }
        let tab = self.tabs.remove(k);
        proof {
            let after = self.tabs@;
            assert(after == before.remove(k as int));
            if after.len() > 0 {
                let i = choose|i: int| 0 <= i < before.len() && i != k && before[i].id == self.active;
                assert(exists|i: int|
                    0 <= i < before.len() && i != k && before[i].id == self.active) by {
                    if active == id {
                        if k + 1 < before.len() {
                            assert(before[k + 1].id == self.active);
                        } else {
                            assert(before[k - 1].id == self.active);
                        }
                    } else {
                        let p = position(before, active)->Some_0;
                        assert(before[p].id == self.active);
                    }
                }
                assert(after[if i < k { i } else { i - 1 }] == before[i]);
                present_has_position(after, if i < k { i } else { i - 1 });
            }
        }
        Some(tab)
    }

    /// Takes a tab in, in front of `before` where that is one of its tabs and
    /// last otherwise, and brings it to the front.
    pub fn adopt_tab(&mut self, tab: Tab, before: Option<TabId>)
        requires
            old(self).wf(),
            position(old(self).tabs@, tab.id) is None,
        ensures
            final(self).wf(),
            final(self).tabs@ == old(self).tabs@.insert(
                place_before(old(self).tabs@, before),
                tab,
            ),
            final(self).active == tab.id,
    {
        let place: usize = match before {
            Some(id) => match self.index_of(id) {
                Some(i) => i,
                None => self.tabs.len(),
            },
            None => self.tabs.len(),
        };
        let id = tab.id;
        let ghost earlier = self.tabs@;
        proof {
            position_is_first(earlier, id);
        }
        self.tabs.insert(place, tab);
        self.active = id;
        proof {
            let after = self.tabs@;
            assert(after == earlier.insert(place as int, tab));
            assert(after[place as int].id == id);
            present_has_position(after, place as int);
            assert forall|i: int, j: int| 0 <= i < j < after.len() implies (#[trigger] after[i]).id
                != (#[trigger] after[j]).id by {
                let ii = if i < place { i } else { i - 1 };
                let jj = if j < place { j } else { j - 1 };
                if i == place {
                    assert(after[j] == earlier[jj]);
                } else if j == place {
                    assert(after[i] == earlier[ii]);
                } else {
                    assert(after[i] == earlier[ii] && after[j] == earlier[jj]);
                }
            }
        }
    }

    /// Holds nothing but a tab that was dragged out of another window.
    pub fn adopt_detached_tab(&mut self, tab: Tab)
        ensures
            final(self).wf(),
            final(self).tabs@ == seq![tab],
            final(self).active == tab.id,
    {
        let id = tab.id;
        let mut tabs = Vec::new();
        tabs.push(tab);
        self.tabs = tabs;
        self.active = id;
        proof {
            present_has_position(self.tabs@, 0);
        }
    }

    /// Opens the launcher where no tab is left.
    pub fn open_launcher_if_empty(&mut self, launcher: TabId)
        requires
            old(self).wf(),
        ensures
            final(self).wf(),
            if old(self).tabs@.len() == 0 {
                &&& final(self).tabs@ == seq![Tab::launcher(launcher)]
                &&& final(self).active == launcher
            } else {
                *final(self) == *old(self)
            },
    {
        if self.tabs.len() == 0 {
            self.adopt_detached_tab(
                Tab { id: launcher, restorable: true, content: TabContent::Launcher },
            );
        }
    }
}

/// Looking a tab up by its identifier gives the tab that has it, its place and
/// its session, and nothing where no tab has it.
pub proof fn tabs_are_found_by_their_identifier(tabs: Seq<Tab>, i: int, id: TabId)
    ensures
        distinct(tabs) && 0 <= i < tabs.len() ==> {
            &&& position(tabs, tabs[i].id) == Some(i)
            &&& tab_of(tabs, tabs[i].id) == Some(tabs[i])
            &&& session_of(tabs, tabs[i].id) == match tabs[i].content {
                TabContent::Session(session) => Some(session),
                _ => None,
            }
        },
        (forall|j: int| 0 <= j < tabs.len() ==> (#[trigger] tabs[j]).id != id) ==> {
            &&& position(tabs, id) is None
            &&& tab_of(tabs, id) is None
            &&& session_of(tabs, id) is None
        },
{
    position_is_first(tabs, id);
    if distinct(tabs) && 0 <= i < tabs.len() {
        position_is_first(tabs, tabs[i].id);
        let p = position(tabs, tabs[i].id)->Some_0;
        if p != i {
            assert(tabs[p].id != tabs[i].id);
        }
    }
}

/// When a tab leaves, the tab in front stays in front; where it was the one that
/// left, its right neighbour comes to the front, or the left one of the last.
pub proof fn a_neighbour_comes_to_the_front(tabs: Seq<Tab>, active: TabId, k: int)
    requires
        distinct(tabs),
        0 <= k < tabs.len(),
        tabs.len() > 1,
    ensures
        tabs[k].id != active ==> active_after_leaving(tabs, active, k) == active,
        tabs[k].id == active && k < tabs.len() - 1 ==> active_after_leaving(tabs, active, k)
            == tabs[k + 1].id,
        tabs[k].id == active && k == tabs.len() - 1 ==> active_after_leaving(tabs, active, k)
            == tabs[k - 1].id,
        position(tabs, active) is Some ==> position(
            tabs.remove(k),
            active_after_leaving(tabs, active, k),
        ) is Some,
{
    if position(tabs, active) is Some {
        position_is_first(tabs, active);
        let p = position(tabs, active)->Some_0;
        let next = active_after_leaving(tabs, active, k);
        let rest = tabs.remove(k);
        if p != k {
            let q = if p < k { p } else { p - 1 };
            assert(rest[q] == tabs[p]);
            present_has_position(rest, q);
        } else if k + 1 < tabs.len() {
            assert(rest[k] == tabs[k + 1]);
            present_has_position(rest, k);
        } else {
            assert(rest[k - 1] == tabs[k - 1]);
            present_has_position(rest, k - 1);
        }
    }
}

/// A tab that is put in front of another stands directly before it; without one,
/// or where that is not here, it goes to the end.
pub proof fn tabs_are_placed_before_the_one_named(tabs: Seq<Tab>, before: Option<TabId>, tab: Tab)
    requires
        distinct(tabs),
    ensures
        ({
            let placed = tabs.insert(place_before(tabs, before), tab);
            &&& forall|q: int|
                0 <= q < tabs.len() && before == Some((#[trigger] tabs[q]).id) ==> placed[q] == tab
                    && placed[q + 1] == tabs[q]
            &&& (forall|q: int| 0 <= q < tabs.len() ==> before != Some((#[trigger] tabs[q]).id))
                ==> placed.last() == tab
            &&& placed.len() == tabs.len() + 1
        }),
{
    if let Some(id) = before {
        position_is_first(tabs, id);
        assert forall|q: int| 0 <= q < tabs.len() && id == (#[trigger] tabs[q]).id implies position(
            tabs,
            id,
        ) == Some(q) by {
            let p = position(tabs, id)->Some_0;
            if p != q {
                assert(tabs[p].id != tabs[q].id);
            }
        }
    }
}

} // verus!
