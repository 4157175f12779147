//! The workspace that covers every window: which tabs it lists, and how they
//! are numbered.
use vstd::prelude::*;
use vstd::set_lib::{lemma_int_range, lemma_len_subset, set_int_range};

use crate::configuration::{Workspace, WorkspaceTab, WorkspaceWindow};
#[allow(unused_imports)]
use crate::settle::{requests_do_not_matter, save_requested};
#[allow(unused_imports)]
use crate::state::present_has_position;
use crate::state::{Tab, TabContent, TabId};
use crate::windows::FesTermApplication;
#[allow(unused_imports)]
use crate::windows::{opened_is_coherent, tabs_differ, ApplicationView, WindowView};

verus! {

/// The tabs that can be brought back, numbered from `next` on.
pub open spec fn captured(tabs: Seq<Tab>, next: int) -> Seq<WorkspaceTab>
    decreases tabs.len(),
{
    if tabs.len() == 0 {
        Seq::empty()
    } else {
        let rest = captured(tabs.drop_last(), next);
        if tabs.last().restorable {
            rest.push(
                WorkspaceTab { identifier: (next + rest.len()) as u64, tab: tabs.last().id.0 },
            )
        } else {
            rest
        }
    }
}

/// The number of the tab in front, where it is one of those listed.
pub open spec fn captured_focus(tabs: Seq<WorkspaceTab>, active: TabId) -> Option<u64>
    decreases tabs.len(),
{
    if tabs.len() == 0 {
        None
    } else {
        match captured_focus(tabs.drop_last(), active) {
            Some(identifier) => Some(identifier),
            None => if tabs.last().tab == active.0 {
                Some(tabs.last().identifier)
            } else {
                None
            },
        }
    }
}

pub struct WorkspaceWindowView {
    pub tabs: Seq<WorkspaceTab>,
    pub focused: Option<u64>,
}

impl View for WorkspaceWindow {
    type V = WorkspaceWindowView;

    open spec fn view(&self) -> WorkspaceWindowView {
        WorkspaceWindowView { tabs: self.tabs@, focused: self.focused }
    }
}

/// The first number that the windows up to the `n`th, the first one left out,
/// do not use.
pub open spec fn next_number(windows: Seq<WindowView>, n: int) -> int
    decreases n,
{
    if n <= 1 {
        1
    } else {
        next_number(windows, n - 1) + captured(windows[n - 1].tabs, 0).len()
    }
}

/// The entries of the windows up to the `n`th, the first one left out. Windows
/// without a tab that can be brought back have none.
pub open spec fn captured_windows(windows: Seq<WindowView>, n: int) -> Seq<WorkspaceWindowView>
    decreases n,
{
    if n <= 1 {
        Seq::empty()
    } else {
        let tabs = captured(windows[n - 1].tabs, next_number(windows, n - 1));
        if tabs.len() == 0 {
            captured_windows(windows, n - 1)
        } else {
            captured_windows(windows, n - 1).push(
                WorkspaceWindowView { tabs, focused: captured_focus(tabs, windows[n - 1].active) },
            )
        }
    }
}

/// `workspace` lists every window's tabs, numbered through: the other windows
/// in their order, then the first one.
pub open spec fn covers(workspace: Workspace, windows: Seq<WindowView>) -> bool {
    let next = next_number(windows, windows.len() as int);
    &&& workspace.windows@.map_values(|w: WorkspaceWindow| w@) == captured_windows(
        windows,
        windows.len() as int,
    )
    &&& workspace.tabs@ == captured(windows[0].tabs, next)
    &&& workspace.focused == captured_focus(workspace.tabs@, windows[0].active)
}

/// Every number used for the windows up to the `n`th, in their order.
pub open spec fn numbers(windows: Seq<WorkspaceWindowView>) -> Seq<u64>
    decreases windows.len(),
{
    if windows.len() == 0 {
        Seq::empty()
    } else {
        numbers(windows.drop_last()) + windows.last().tabs.map_values(
            |tab: WorkspaceTab| tab.identifier,
        )
    }
}

proof fn captured_numbers(tabs: Seq<Tab>, next: int)
    ensures
        captured(tabs, next).len() == captured(tabs, 0).len(),
        captured(tabs, next).len() <= tabs.len(),
        forall|i: int|
            0 <= i < captured(tabs, next).len() ==> (#[trigger] captured(tabs, next)[i]).identifier
                == (next + i) as u64,
    decreases tabs.len(),
{
    if tabs.len() > 0 {
        captured_numbers(tabs.drop_last(), next);
    }
}

proof fn window_numbers(windows: Seq<WindowView>, n: int)
    requires
        0 <= n <= windows.len(),
    ensures
        next_number(windows, n) >= 1,
        numbers(captured_windows(windows, n)).len() == next_number(windows, n) - 1,
        forall|i: int|
            0 <= i < next_number(windows, n) - 1 ==> (#[trigger] numbers(
                captured_windows(windows, n),
            )[i]) == (i + 1) as u64,
    decreases n,
{
    if n > 1 {
        window_numbers(windows, n - 1);
        let next = next_number(windows, n - 1);
        let tabs = captured(windows[n - 1].tabs, next);
        captured_numbers(windows[n - 1].tabs, next);
        let earlier = captured_windows(windows, n - 1);
        if tabs.len() > 0 {
            let more = captured_windows(windows, n);
            assert(more.drop_last() =~= earlier);
            assert forall|i: int| 0 <= i < next_number(windows, n) - 1 implies (#[trigger] numbers(
                more,
            )[i]) == (i + 1) as u64 by {
                if i >= next - 1 {
                    assert(numbers(more)[i] == tabs[i - (next - 1)].identifier);
                } else {
                    assert(numbers(more)[i] == numbers(earlier)[i]);
                }
            }
        }
    }
}

/// No two tabs of a saved workspace share a number, whichever windows they are
/// in: counted through, the numbers are one, two, three and so on.
pub proof fn workspace_numbers_are_unique(workspace: Workspace, windows: Seq<WindowView>)
    requires
        windows.len() > 0,
        covers(workspace, windows),
    ensures
        ({
            let all = numbers(workspace.windows@.map_values(|w: WorkspaceWindow| w@))
                + workspace.tabs@.map_values(|tab: WorkspaceTab| tab.identifier);
            forall|i: int| 0 <= i < all.len() ==> #[trigger] all[i] == (i + 1) as u64
        }),
{
    let n = windows.len() as int;
    let next = next_number(windows, n);
    window_numbers(windows, n);
    captured_numbers(windows[0].tabs, next);
    let others = numbers(workspace.windows@.map_values(|w: WorkspaceWindow| w@));
    let all = others + workspace.tabs@.map_values(|tab: WorkspaceTab| tab.identifier);
    assert forall|i: int| 0 <= i < all.len() implies #[trigger] all[i] == (i + 1) as u64 by {
        if i < others.len() {
            assert(all[i] == others[i]);
        } else {
            assert(all[i] == workspace.tabs@[i - others.len()].identifier);
        }
    }
}

/// The identifiers of the tabs of the first `n` windows.
spec fn identifiers(windows: Seq<WindowView>, n: int) -> Seq<int>
    decreases n,
{
    if n <= 0 {
        Seq::empty()
    } else {
        identifiers(windows, n - 1) + windows[n - 1].tabs.map_values(|tab: Tab| tab.id.0 as int)
    }
}

spec fn comes_from(windows: Seq<WindowView>, i: int, p: int, identifier: int) -> bool {
    &&& 0 <= i < windows.len()
    &&& 0 <= p < windows[i].tabs.len()
    &&& windows[i].tabs[p].id.0 == identifier
}

proof fn identifiers_differ(a: ApplicationView, n: int)
    requires
        a.coherent(),
        0 <= n <= a.windows.len(),
    ensures
        identifiers(a.windows, n).no_duplicates(),
        forall|x: int|
            0 <= x < identifiers(a.windows, n).len() ==> 0 <= #[trigger] identifiers(
                a.windows,
                n,
            )[x] < a.next_tab_id && exists|i: int, p: int|
                i < n && #[trigger] comes_from(a.windows, i, p, identifiers(a.windows, n)[x]),
    decreases n,
{
    if n > 0 {
        identifiers_differ(a, n - 1);
        let earlier = identifiers(a.windows, n - 1);
        let tabs = a.windows[n - 1].tabs;
        let all = identifiers(a.windows, n);
        assert forall|x: int| 0 <= x < all.len() implies 0 <= #[trigger] all[x] < a.next_tab_id
            && exists|i: int, p: int| i < n && #[trigger] comes_from(a.windows, i, p, all[x]) by {
            if x < earlier.len() {
                assert(all[x] == earlier[x]);
                let (i, p) = choose|i: int, p: int|
                    i < n - 1 && #[trigger] comes_from(a.windows, i, p, earlier[x]);
                assert(comes_from(a.windows, i, p, all[x]));
            } else {
                let p = x - earlier.len();
                assert(all[x] == tabs[p].id.0);
                assert(a.windows[n - 1].tabs[p].id.0 < a.next_tab_id);
                assert(comes_from(a.windows, n - 1, p, all[x]));
            }
        }
        assert forall|x: int, y: int| 0 <= x < y < all.len() implies all[x] != all[y] by {
            if y < earlier.len() {
                assert(all[x] == earlier[x] && all[y] == earlier[y]);
            } else {
                let q = y - earlier.len();
                assert(all[y] == tabs[q].id.0);
                if x < earlier.len() {
                    assert(all[x] == earlier[x]);
                    let (i, p) = choose|i: int, p: int|
                        i < n - 1 && #[trigger] comes_from(a.windows, i, p, earlier[x]);
                    assert(tabs_differ(a.windows, i, p, n - 1, q));
                } else {
                    let p = x - earlier.len();
                    assert(all[x] == tabs[p].id.0);
                    assert(tabs_differ(a.windows, n - 1, p, n - 1, q));
                }
            }
        }
    }
}

proof fn identifiers_bounded(a: ApplicationView)
    requires
        a.coherent(),
        0 <= a.next_tab_id,
    ensures
        identifiers(a.windows, a.windows.len() as int).len() <= a.next_tab_id,
{
    let all = identifiers(a.windows, a.windows.len() as int);
    identifiers_differ(a, a.windows.len() as int);
    all.unique_seq_to_set();
    lemma_int_range(0, a.next_tab_id);
    assert(all.to_set().subset_of(set_int_range(0, a.next_tab_id)));
    lemma_len_subset(all.to_set(), set_int_range(0, a.next_tab_id));
}

proof fn numbers_bounded(windows: Seq<WindowView>, n: int)
    requires
        1 <= n <= windows.len(),
    ensures
        next_number(windows, n) - 1 + windows[0].tabs.len() <= identifiers(windows, n).len(),
    decreases n,
{
    if n > 1 {
        numbers_bounded(windows, n - 1);
        captured_numbers(windows[n - 1].tabs, 0);
    } else {
        assert(identifiers(windows, 1) =~= identifiers(windows, 0) + windows[0].tabs.map_values(
            |tab: Tab| tab.id.0 as int,
        ));
    }
}

proof fn numbers_grow(windows: Seq<WindowView>, n: int, m: int)
    requires
        0 <= n <= m,
    ensures
        next_number(windows, n) <= next_number(windows, m),
    decreases m - n,
{
    if n < m {
        numbers_grow(windows, n, m - 1);
    }
}

proof fn same_tabs_same_workspace(a: Seq<WindowView>, b: Seq<WindowView>, n: int)
    requires
        a.len() == b.len(),
        0 <= n <= a.len(),
        forall|i: int|
            0 <= i < a.len() ==> (#[trigger] a[i]).tabs == b[i].tabs && a[i].active == b[i].active,
    ensures
        next_number(a, n) == next_number(b, n),
        captured_windows(a, n) == captured_windows(b, n),
    decreases n,
{
    if n > 1 {
        same_tabs_same_workspace(a, b, n - 1);
        assert(a[n - 1].tabs == b[n - 1].tabs);
    }
}

/// Lists the tabs that can be brought back, numbered from `next` on.
fn capture_tabs(tabs: &Vec<Tab>, next: u64) -> (listed: Vec<WorkspaceTab>)
    requires
        next + captured(tabs@, 0).len() <= u64::MAX,
    ensures
        listed@ == captured(tabs@, next as int),
{
    let mut listed: Vec<WorkspaceTab> = Vec::new();
    let mut i: usize = 0;
    while i < tabs.len()
        invariant
            i <= tabs@.len(),
            listed@ == captured(tabs@.take(i as int), next as int),
            next + captured(tabs@, 0).len() <= u64::MAX,
        decreases tabs@.len() - i,
    {
        proof {
            assert(tabs@.take(i + 1).drop_last() =~= tabs@.take(i as int));
            captured_numbers(tabs@.take(i as int), next as int);
            captured_numbers(tabs@.take(i + 1), next as int);
            captured_grows(tabs@, i + 1);
        }
        if tabs[i].restorable {
            listed.push(
                WorkspaceTab { identifier: next + listed.len() as u64, tab: tabs[i].id.0 },
            );
        }
        i = i + 1;
    }
    assert(tabs@.take(i as int) =~= tabs@);
    listed
}

proof fn captured_grows(tabs: Seq<Tab>, n: int)
    requires
        0 <= n <= tabs.len(),
    ensures
        captured(tabs.take(n), 0).len() <= captured(tabs, 0).len(),
    decreases tabs.len() - n,
{
    if n < tabs.len() {
        captured_grows(tabs, n + 1);
        assert(tabs.take(n + 1).drop_last() =~= tabs.take(n));
    } else {
        assert(tabs.take(n) =~= tabs);
    }
}

fn focused_number(listed: &Vec<WorkspaceTab>, active: TabId) -> (number: Option<u64>)
    ensures
        number == captured_focus(listed@, active),
{
    let mut found: Option<u64> = None;
    let mut i: usize = 0;
    while i < listed.len()
        invariant
            i <= listed@.len(),
            found == captured_focus(listed@.take(i as int), active),
        decreases listed@.len() - i,
    {
        proof {
            assert(listed@.take(i + 1).drop_last() =~= listed@.take(i as int));
        }
        if found.is_none() && listed[i].tab == active.0 {
            found = Some(listed[i].identifier);
        }
        i = i + 1;
    }
    assert(listed@.take(i as int) =~= listed@);
    found
}

impl FesTermApplication {
    /// Takes every window's request to save the workspace and, where one asked
    /// and workspaces are restored at all, lists what is to be saved. Writing it
    /// is up to the first window.
    pub fn save_workspace_if_requested(&mut self) -> (workspace: Option<Workspace>)
        requires
            old(self)@.wf(),
            old(self).next_tab_id < u64::MAX,
        ensures
            final(self)@.wf(),
            final(self)@ == old(self)@.each(|w: WindowView| w.without_save()),
            match workspace {
                Some(workspace) => {
                    &&& save_requested(old(self)@.windows)
                    &&& old(self)@.windows[0].shell.documents.settings.restore_workspace
                    &&& covers(workspace, old(self)@.windows)
                },
                None => !save_requested(old(self)@.windows)
                    || !old(self)@.windows[0].shell.documents.settings.restore_workspace,
            },
    {
        let ghost start = self@;
        let mut requested = false;
        let mut i: usize = 0;
        while i < self.windows.len()
            invariant
                i <= self.windows@.len(),
                self@.windows.len() == start.windows.len(),
                self@.next_window_id == start.next_window_id,
                self@.next_tab_id == start.next_tab_id,
                requested == exists|k: int|
                    0 <= k < i && (#[trigger] start.windows[k]).shell.requests.save_workspace,
                forall|k: int|
                    0 <= k < i ==> (#[trigger] self@.windows[k]) == start.windows[k].without_save(),
                forall|k: int|
                    i <= k < start.windows.len() ==> (#[trigger] self@.windows[k])
                        == start.windows[k],
            decreases self.windows@.len() - i,
        {
            let ghost before = self@.windows;
            let taken = self.windows[i].app.take_workspace_save_request();
            proof {
                assert(before[i as int] == start.windows[i as int]);
                assert(self@.windows[i as int] == before[i as int].without_save());
                assert forall|k: int| 0 <= k < before.len() && k != i implies (
                #[trigger] self@.windows[k]) == before[k] by {}
            }
            if taken {
                requested = true;
            }
            i = i + 1;
        }
        proof {
            assert(self@.windows =~= start.each(|w: WindowView| w.without_save()).windows);
            requests_do_not_matter(start, self@);
            assert(self@.windows[0] == self.windows@[0]@);
            assert(self@.windows[0] == start.windows[0].without_save());
        }
        if !requested || !self.windows[0].app.restores_workspace() {
            return None;
        }
        let workspace = self.capture_workspace();
        proof {
            same_tabs_same_workspace(self@.windows, start.windows, start.windows.len() as int);
        }
        Some(workspace)
    }

    /// Lists every window's tabs, numbered through.
    fn capture_workspace(&self) -> (workspace: Workspace)
        requires
            self@.coherent(),
            self.next_tab_id < u64::MAX,
        ensures
            covers(workspace, self@.windows),
    {
        let mut others: Vec<WorkspaceWindow> = Vec::new();
        let mut next: u64 = 1;
        let mut i: usize = 1;
        let ghost all = self@.windows;
        proof {
            identifiers_bounded(self@);
            numbers_bounded(all, all.len() as int);
        }
        while i < self.windows.len()
            invariant
                1 <= i <= self.windows@.len(),
                all == self@.windows,
                next == next_number(all, i as int),
                next_number(all, all.len() as int) <= u64::MAX,
                others@.map_values(|w: WorkspaceWindow| w@) == captured_windows(all, i as int),
            decreases self.windows@.len() - i,
        {
            let ghost earlier = others@;
            proof {
                assert(all[i as int] == self.windows@[i as int]@);
                captured_numbers(all[i as int].tabs, next as int);
                numbers_grow(all, i + 1, all.len() as int);
            }
            let tabs = capture_tabs(&self.windows[i].app.state.tabs, next);
            let count: usize = tabs.len();
            if count > 0 {
                let focused = focused_number(&tabs, self.windows[i].app.state.active);
                others.push(WorkspaceWindow { tabs, focused });
                assert(others@.map_values(|w: WorkspaceWindow| w@) =~= earlier.map_values(
                    |w: WorkspaceWindow| w@,
                ).push(others@.last()@));
            }
            next = next + count as u64;
            i = i + 1;
        }
        proof {
            assert(all[0] == self.windows@[0]@);
            captured_numbers(all[0].tabs, next as int);
        }
        let tabs = capture_tabs(&self.windows[0].app.state.tabs, next);
        let focused = focused_number(&tabs, self.windows[0].app.state.active);
        Workspace { tabs, focused, windows: others }
    }
}

/// What a saved workspace recorded of a window other than the first.
#[derive(Debug)]
pub struct RestoredWindow {
    pub contents: Vec<TabContent>,
    /// Which of the tabs was in front.
    pub focused: Option<usize>,
}

/// The tabs of a restored window, with identifiers from `first` on.
pub open spec fn restored_tabs(contents: Seq<TabContent>, first: int) -> Seq<Tab> {
    Seq::new(
        contents.len(),
        |i: int| Tab { id: TabId((first + i) as u64), restorable: true, content: contents[i] },
    )
}

impl ApplicationView {
    /// The application with one restored window more. A window that nothing
    /// was recorded of is on the launcher.
    pub open spec fn restored(
        self,
        viewport: u64,
        contents: Seq<TabContent>,
        focused: Option<usize>,
    ) -> Self {
        let opened = self.opened(viewport, None);
        if contents.len() == 0 {
            opened
        } else {
            let front = match focused {
                Some(i) => if i < contents.len() {
                    i as int
                } else {
                    0
                },
                None => 0,
            };
            ApplicationView {
                next_tab_id: opened.next_tab_id + contents.len(),
                ..opened.with_tabs(
                    self.windows.len() as int,
                    restored_tabs(contents, opened.next_tab_id),
                    TabId((opened.next_tab_id + front) as u64),
                )
            }
        }
    }
}

/// `after` is `before` with every recorded window opened in turn.
pub open spec fn restores(
    before: ApplicationView,
    windows: Seq<RestoredWindow>,
    after: ApplicationView,
) -> bool
    decreases windows.len(),
{
    if windows.len() == 0 {
        after == before
    } else {
        exists|between: ApplicationView|
            {
                &&& restores(before, windows.drop_last(), between)
                &&& after.windows.len() > 0
                &&& after == #[trigger] between.restored(
                    after.windows.last().viewport,
                    windows.last().contents@,
                    windows.last().focused,
                )
            }
    }
}

/// How many identifiers restoring the windows takes.
pub open spec fn identifiers_needed(windows: Seq<RestoredWindow>) -> nat
    decreases windows.len(),
{
    if windows.len() == 0 {
        0
    } else {
        identifiers_needed(windows.drop_last()) + 1 + windows.last().contents@.len()
    }
}

proof fn restored_is_wf(
    a: ApplicationView,
    viewport: u64,
    contents: Seq<TabContent>,
    focused: Option<usize>,
)
    requires
        a.wf(),
        0 <= a.next_window_id < u64::MAX,
        0 <= a.next_tab_id,
        a.next_tab_id + 1 + contents.len() <= u64::MAX,
    ensures
        a.restored(viewport, contents, focused).wf(),
{
    let o = a.opened(viewport, None);
    opened_is_coherent(a, viewport, None);
    if contents.len() > 0 {
        let b = a.restored(viewport, contents, focused);
        let n = a.windows.len() as int;
        let tabs = restored_tabs(contents, o.next_tab_id);
        let front = b.windows[n].active.0 - o.next_tab_id;
        assert(tabs[front].id == b.windows[n].active);
        present_has_position(tabs, front);
        assert forall|i: int| 0 <= i < b.windows.len() implies {
            &&& (#[trigger] b.windows[i]).wf()
            &&& b.windows[i].id.0 < b.next_window_id
            &&& b.windows[i].tabs.len() > 0
        } by {
            assert(o.windows[i].wf());
        }
        assert forall|i: int, j: int| 0 <= i < j < b.windows.len() implies (
        #[trigger] b.windows[i]).id != (#[trigger] b.windows[j]).id by {
            assert(o.windows[i].id != o.windows[j].id);
        }
        assert forall|i: int, p: int|
            0 <= i < b.windows.len() && 0 <= p < b.windows[i].tabs.len() implies (
        #[trigger] b.windows[i].tabs[p]).id.0 < b.next_tab_id by {
            if i < n {
                assert(b.windows[i].tabs[p] == o.windows[i].tabs[p]);
            }
        }
        assert forall|i: int, p: int, j: int, q: int|
            0 <= i < b.windows.len() && 0 <= p < b.windows[i].tabs.len() && 0 <= j
                < b.windows.len() && 0 <= q < b.windows[j].tabs.len() implies #[trigger] tabs_differ(
            b.windows,
            i,
            p,
            j,
            q,
        ) by {
            if i < n {
                assert(b.windows[i].tabs[p] == o.windows[i].tabs[p]);
            }
            if j < n {
                assert(b.windows[j].tabs[q] == o.windows[j].tabs[q]);
            }
            if i < n && j < n {
                assert(tabs_differ(o.windows, i, p, j, q));
            }
        }
    }
}

proof fn restores_one_more(
    before: ApplicationView,
    windows: Seq<RestoredWindow>,
    n: int,
    between: ApplicationView,
    after: ApplicationView,
)
    requires
        0 <= n < windows.len(),
        restores(before, windows.take(n), between),
        after.windows.len() > 0,
        after == between.restored(
            after.windows.last().viewport,
            windows[n].contents@,
            windows[n].focused,
        ),
    ensures
        restores(before, windows.take(n + 1), after),
{
    assert(windows.take(n + 1).drop_last() =~= windows.take(n));
    assert(windows.take(n + 1).last() == windows[n]);
}

proof fn needed_grows(windows: Seq<RestoredWindow>, n: int)
    requires
        0 <= n < windows.len(),
    ensures
        identifiers_needed(windows.take(n + 1)) == identifiers_needed(windows.take(n)) + 1
            + windows[n].contents@.len(),
        identifiers_needed(windows.take(n + 1)) <= identifiers_needed(windows),
    decreases windows.len() - n,
{
    assert(windows.take(n + 1).drop_last() =~= windows.take(n));
    if n + 1 < windows.len() {
        needed_grows(windows, n + 1);
    } else {
        assert(windows.take(n + 1) =~= windows);
    }
}

impl FesTermApplication {
    /// Opens one recorded window with its tabs.
    fn restore_window(&mut self, contents: Vec<TabContent>, focused: Option<usize>)
        requires
            old(self)@.wf(),
            old(self).next_window_id < u64::MAX,
            old(self).next_tab_id + 1 + contents@.len() <= u64::MAX,
        ensures
            final(self)@.wf(),
            final(self)@ == old(self)@.restored(
                final(self)@.windows.last().viewport,
                contents@,
                focused,
            ),
    {
        let ghost before = self@;
        let index: usize = self.open_window(None);
        let ghost opened = self@;
        let ghost viewport = self@.windows.last().viewport;
        let ghost recorded = contents@;
        proof {
            restored_is_wf(before, viewport, contents@, focused);
        }
        let count: usize = contents.len();
        if count > 0 {
            let first: u64 = self.next_tab_id;
            let front: usize = match focused {
                Some(i) => if i < count {
                    i
                } else {
                    0
                },
                None => 0,
            };
            let mut tabs: Vec<Tab> = Vec::new();
            let mut i: u64 = 0;
            for content in iter: contents
                invariant
                    iter.seq() == recorded,
                    recorded.len() == count,
                    i == iter.index(),
                    first + count <= u64::MAX,
                    tabs@ == restored_tabs(recorded.take(i as int), first as int),
            {
                tabs.push(Tab { id: TabId(first + i), restorable: true, content });
                i = i + 1;
                assert(tabs@ =~= restored_tabs(recorded.take(i as int), first as int));
            }
            assert(recorded.take(count as int) =~= recorded);
            self.next_tab_id = self.next_tab_id + count as u64;
            self.windows[index].app.state.tabs = tabs;
            self.windows[index].app.state.active = TabId(first + front as u64);
            assert(self@.windows =~= before.restored(viewport, recorded, focused).windows);
        }
    }

    /// Opens the windows that a restored workspace recorded besides the first,
    /// each with its own tabs.
    pub fn restore_windows(&mut self, windows: Vec<RestoredWindow>)
        requires
            old(self)@.wf(),
            old(self).next_window_id + windows@.len() <= u64::MAX,
            old(self).next_tab_id + identifiers_needed(windows@) <= u64::MAX,
        ensures
            final(self)@.wf(),
            restores(old(self)@, windows@, final(self)@),
    {
        let ghost start = self@;
        let ghost recorded = windows@;
        let count: usize = windows.len();
        assert(recorded.take(0) =~= Seq::empty());
        for window in iter: windows
            invariant
                iter.seq() == recorded,
                self@.wf(),
                restores(start, recorded.take(iter.index() as int), self@),
                0 <= start.next_window_id,
                0 <= start.next_tab_id,
                start.next_window_id + recorded.len() <= u64::MAX,
                start.next_tab_id + identifiers_needed(recorded) <= u64::MAX,
                self@.next_window_id == start.next_window_id + iter.index(),
                self@.next_tab_id <= start.next_tab_id + identifiers_needed(
                    recorded.take(iter.index() as int),
                ),
        {
            let ghost before = self@;
            let ghost n = iter.index() as int;
            proof {
                needed_grows(recorded, n);
            }
            self.restore_window(window.contents, window.focused);
            proof {
                restores_one_more(start, recorded, n, before, self@);
            }
        }
        assert(recorded.take(count as int) =~= recorded);
    }
}

/// The tabs among `tabs` that a saved workspace can bring back, in their order.
pub open spec fn restorable_tabs(tabs: Seq<Tab>) -> Seq<Tab> {
    tabs.filter(|tab: Tab| tab.restorable)
}

/// `saved` and `focused` bring the window with `tabs` and `active` back: they
/// list its restorable tabs, all of them and in their order, and looking the
/// focus up in the list gives the tab in front, where that is one of them.
pub open spec fn brings_back(
    saved: Seq<WorkspaceTab>,
    focused: Option<u64>,
    tabs: Seq<Tab>,
    active: TabId,
) -> bool {
    let restorable = restorable_tabs(tabs);
    &&& saved.len() == restorable.len()
    &&& forall|e: int| 0 <= e < saved.len() ==> (#[trigger] saved[e]).tab == restorable[e].id.0
    &&& focused is Some <==> exists|p: int|
        0 <= p < restorable.len() && (#[trigger] restorable[p]).id == active
    &&& focused is Some ==> exists|e: int|
        0 <= e < saved.len() && (#[trigger] saved[e]).identifier == focused->Some_0
    &&& focused is Some ==> forall|e: int|
        0 <= e < saved.len() && (#[trigger] saved[e]).identifier == focused->Some_0 ==> saved[e].tab
            == active.0
}

proof fn captured_are_restorable(tabs: Seq<Tab>, next: int)
    ensures
        captured(tabs, next).len() == restorable_tabs(tabs).len(),
        forall|e: int|
            0 <= e < captured(tabs, next).len() ==> (#[trigger] captured(tabs, next)[e]).tab
                == restorable_tabs(tabs)[e].id.0,
    decreases tabs.len(),
{
    reveal(Seq::filter);
    if tabs.len() > 0 {
        captured_are_restorable(tabs.drop_last(), next);
    }
}

proof fn captured_focus_is_first(saved: Seq<WorkspaceTab>, active: TabId)
    ensures
        match captured_focus(saved, active) {
            Some(n) => exists|e: int|
                0 <= e < saved.len() && (#[trigger] saved[e]).tab == active.0 && saved[e].identifier
                    == n,
            None => forall|e: int| 0 <= e < saved.len() ==> (#[trigger] saved[e]).tab != active.0,
        },
    decreases saved.len(),
{
    if saved.len() > 0 {
        let rest = saved.drop_last();
        captured_focus_is_first(rest, active);
        if let Some(n) = captured_focus(rest, active) {
            let e = choose|e: int|
                0 <= e < rest.len() && (#[trigger] rest[e]).tab == active.0 && rest[e].identifier
                    == n;
            assert(saved[e].tab == active.0);
        } else if saved.last().tab == active.0 {
            assert(saved[saved.len() - 1].tab == active.0);
        } else {
            assert forall|e: int| 0 <= e < saved.len() implies (#[trigger] saved[e]).tab
                != active.0 by {
                if e < rest.len() {
                    assert(rest[e] == saved[e]);
                }
            }
        }
    }
}

proof fn captured_brings_back(tabs: Seq<Tab>, next: int, active: TabId)
    requires
        0 <= next,
        next + captured(tabs, next).len() <= u64::MAX + 1,
    ensures
        brings_back(
            captured(tabs, next),
            captured_focus(captured(tabs, next), active),
            tabs,
            active,
        ),
{
    let saved = captured(tabs, next);
    let restorable = restorable_tabs(tabs);
    captured_are_restorable(tabs, next);
    captured_numbers(tabs, next);
    captured_focus_is_first(saved, active);
    if let Some(n) = captured_focus(saved, active) {
        let e = choose|e: int|
            0 <= e < saved.len() && (#[trigger] saved[e]).tab == active.0 && saved[e].identifier
                == n;
        assert(restorable[e].id == active);
        assert forall|d: int|
            0 <= d < saved.len() && (#[trigger] saved[d]).identifier == n implies saved[d].tab
            == active.0 by {
            assert(saved[e].identifier == (next + e) as u64);
            assert(saved[d].identifier == (next + d) as u64);
        }
    } else {
        assert forall|p: int| 0 <= p < restorable.len() implies (#[trigger] restorable[p]).id
            != active by {
            assert(saved[p].tab != active.0);
        }
    }
}

/// The windows besides the first that a saved workspace can bring back.
pub open spec fn restorable_windows(windows: Seq<WindowView>) -> Seq<WindowView> {
    windows.filter(|w: WindowView| restorable_tabs(w.tabs).len() > 0)
}

proof fn captured_windows_bring_back(windows: Seq<WindowView>, n: int)
    requires
        1 <= n <= windows.len(),
        next_number(windows, n) <= u64::MAX + 1,
    ensures
        ({
            let saved = captured_windows(windows, n);
            let others = restorable_windows(windows.subrange(1, n));
            &&& saved.len() == others.len()
            &&& forall|j: int|
                0 <= j < saved.len() ==> brings_back(
                    (#[trigger] saved[j]).tabs,
                    saved[j].focused,
                    others[j].tabs,
                    others[j].active,
                )
        }),
    decreases n,
{
    reveal(Seq::filter);
    if n > 1 {
        let window = windows[n - 1];
        let next = next_number(windows, n - 1);
        captured_numbers(window.tabs, next);
        numbers_grow(windows, n - 1, n);
        captured_windows_bring_back(windows, n - 1);
        window_numbers(windows, n - 1);
        captured_brings_back(window.tabs, next, window.active);
        captured_are_restorable(window.tabs, next);
        assert(windows.subrange(1, n).drop_last() =~= windows.subrange(1, n - 1));
        assert(windows.subrange(1, n).last() == window);
    }
}

/// A saved workspace brings every window back: it lists the restorable tabs of
/// the first window, and of every other window that has any, in their order, and
/// for each of them the tab in front. Looking a window's focus up in its list
/// gives its active tab.
pub proof fn saved_workspaces_bring_every_window_back(a: ApplicationView, workspace: Workspace)
    requires
        a.wf(),
        0 <= a.next_tab_id <= u64::MAX,
        covers(workspace, a.windows),
    ensures
        brings_back(
            workspace.tabs@,
            workspace.focused,
            a.windows[0].tabs,
            a.windows[0].active,
        ),
        ({
            let others = restorable_windows(a.windows.skip(1));
            &&& workspace.windows@.len() == others.len()
            &&& forall|j: int|
                0 <= j < others.len() ==> brings_back(
                    (#[trigger] workspace.windows@[j]).tabs@,
                    workspace.windows@[j].focused,
                    others[j].tabs,
                    others[j].active,
                )
        }),
{
    let n = a.windows.len() as int;
    let next = next_number(a.windows, n);
    identifiers_bounded(a);
    numbers_bounded(a.windows, n);
    window_numbers(a.windows, n);
    captured_numbers(a.windows[0].tabs, next);
    captured_brings_back(a.windows[0].tabs, next, a.windows[0].active);
    captured_windows_bring_back(a.windows, n);
    assert(a.windows.subrange(1, n) =~= a.windows.skip(1));
    let saved = workspace.windows@.map_values(|w: WorkspaceWindow| w@);
    let others = restorable_windows(a.windows.skip(1));
    assert forall|j: int| 0 <= j < others.len() implies brings_back(
        (#[trigger] workspace.windows@[j]).tabs@,
        workspace.windows@[j].focused,
        others[j].tabs,
        others[j].active,
    ) by {
        assert(saved[j] == workspace.windows@[j]@);
    }
}

/// The tab in front of the first window is saved as the one in front, wherever
/// it can be brought back: the entry that the focus names is the active tab's.
pub proof fn the_tab_in_front_is_saved(a: ApplicationView, workspace: Workspace, p: int)
    requires
        a.wf(),
        0 <= a.next_tab_id <= u64::MAX,
        covers(workspace, a.windows),
        0 <= p < a.windows[0].tabs.len(),
        a.windows[0].tabs[p].id == a.windows[0].active,
        a.windows[0].tabs[p].restorable,
    ensures
        workspace.focused is Some,
        exists|e: int|
            0 <= e < workspace.tabs@.len() && (#[trigger] workspace.tabs@[e]).identifier
                == workspace.focused->Some_0 && workspace.tabs@[e].tab == a.windows[0].active.0,
{
    saved_workspaces_bring_every_window_back(a, workspace);
    let tabs = a.windows[0].tabs;
    broadcast use vstd::seq_lib::group_filter_ensures;

    assert(restorable_tabs(tabs).contains(tabs[p]));
    let q = choose|q: int| 0 <= q < restorable_tabs(tabs).len() && restorable_tabs(tabs)[q] == tabs[p];
    assert(restorable_tabs(tabs)[q].id == a.windows[0].active);
    let e = choose|e: int|
        0 <= e < workspace.tabs@.len() && (#[trigger] workspace.tabs@[e]).identifier
            == workspace.focused->Some_0;
    assert(workspace.tabs@[e].tab == a.windows[0].active.0);
}

/// `window` holds what was recorded of it: its tabs in their order, under
/// identifiers not given out before `first`, and in front the one that was, or
/// the first where none was. A window that nothing was recorded of is on the
/// launcher.
pub open spec fn holds_record(window: WindowView, record: RestoredWindow, first: int) -> bool {
    let contents = record.contents@;
    &&& contents.len() == 0 ==> window.tabs.len() == 1 && window.tabs[0].content
        == TabContent::Launcher
    &&& contents.len() > 0 ==> window.tabs.len() == contents.len()
    &&& forall|i: int|
        0 <= i < contents.len() ==> (#[trigger] window.tabs[i]).content == contents[i]
    &&& forall|i: int|
        0 <= i < window.tabs.len() ==> (#[trigger] window.tabs[i]).restorable
            && window.tabs[i].id.0 >= first
    &&& match record.focused {
        Some(i) => if i < window.tabs.len() {
            window.active == window.tabs[i as int].id
        } else {
            window.active == window.tabs[0].id
        },
        None => window.active == window.tabs[0].id,
    }
}

proof fn one_record_is_restored(
    before: ApplicationView,
    viewport: u64,
    record: RestoredWindow,
)
    requires
        before.windows.len() > 0,
        0 <= before.next_window_id < u64::MAX,
        0 <= before.next_tab_id,
        before.next_tab_id + 1 + record.contents@.len() <= u64::MAX,
    ensures
        ({
            let after = before.restored(viewport, record.contents@, record.focused);
            &&& after.windows.drop_last() == before.windows
            &&& after.windows.last().id.0 == before.next_window_id
            &&& holds_record(after.windows.last(), record, before.next_tab_id)
            &&& after.next_window_id == before.next_window_id + 1
            &&& before.next_tab_id < after.next_tab_id <= before.next_tab_id + 1
                + record.contents@.len()
        }),
{
    let after = before.restored(viewport, record.contents@, record.focused);
    assert(after.windows.drop_last() =~= before.windows);
}

/// The `r`th window after those of `before` is a new one and holds `record`.
pub open spec fn came_back(
    before: ApplicationView,
    record: RestoredWindow,
    after: ApplicationView,
    r: int,
) -> bool {
    let window = after.windows[before.windows.len() + r];
    &&& window.id.0 >= before.next_window_id
    &&& holds_record(window, record, before.next_tab_id)
}

/// Every recorded window comes back, in its order and with its tabs in theirs,
/// as a window of its own with identifiers not given out before. The windows
/// that were there stay as they are.
pub proof fn recorded_windows_come_back(
    before: ApplicationView,
    records: Seq<RestoredWindow>,
    after: ApplicationView,
)
    requires
        before.windows.len() > 0,
        0 <= before.next_window_id,
        before.next_window_id + records.len() <= u64::MAX,
        0 <= before.next_tab_id,
        before.next_tab_id + identifiers_needed(records) <= u64::MAX,
        restores(before, records, after),
    ensures
        after.windows.len() == before.windows.len() + records.len(),
        after.windows.take(before.windows.len() as int) == before.windows,
        after.next_window_id == before.next_window_id + records.len(),
        before.next_tab_id <= after.next_tab_id <= before.next_tab_id + identifiers_needed(records),
        forall|r: int|
            0 <= r < records.len() ==> #[trigger] came_back(before, records[r], after, r),
    decreases records.len(),
{
    let n = before.windows.len() as int;
    if records.len() == 0 {
        assert(after.windows.take(n) =~= before.windows);
    } else {
        let earlier = records.drop_last();
        let between = choose|between: ApplicationView|
            {
                &&& restores(before, earlier, between)
                &&& after.windows.len() > 0
                &&& after == #[trigger] between.restored(
                    after.windows.last().viewport,
                    records.last().contents@,
                    records.last().focused,
                )
            };
        recorded_windows_come_back(before, earlier, between);
        one_record_is_restored(between, after.windows.last().viewport, records.last());
        assert(after.windows.take(n) =~= between.windows.take(n)) by {
            assert forall|i: int| 0 <= i < n implies (#[trigger] after.windows.take(n)[i])
                == between.windows.take(n)[i] by {
                assert(after.windows.drop_last()[i] == between.windows[i]);
            }
        }
        assert forall|r: int| 0 <= r < records.len() implies #[trigger] came_back(
            before,
            records[r],
            after,
            r,
        ) by {
            if r < earlier.len() {
                assert(came_back(before, earlier[r], between, r));
                assert(after.windows.drop_last()[n + r] == between.windows[n + r]);
            } else {
                assert(after.windows[n + r] == after.windows.last());
            }
        }
    }
}

} // verus!
