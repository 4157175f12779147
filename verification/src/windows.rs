//! Every window of the process and what passes between them: tabs that change
//! windows, documents that one window commits, and windows that come and go.
use std::sync::Arc;

use vstd::prelude::*;

use crate::app::{FesTermApp, TabMoveRequest};
#[allow(unused_imports)]
use crate::app::{Shell, WindowRole};
#[allow(unused_imports)]
use crate::configuration::Configuration;
#[allow(unused_imports)]
use crate::state::TabContent;
use crate::state::{Tab, TabId};
#[allow(unused_imports)]
use crate::state::{
    active_after_leaving, distinct, place_before, position, position_is_first, present_has_position,
};
use crate::text::push_decimal;
#[allow(unused_imports)]
use crate::text::{decimal, decimal_reads_back};

verus! {

/// The name of the application, and of its first window.
pub const APPLICATION_TITLE: &'static str = "fesTerm";

/// Identifies a window. Identifiers are given out in order and never again.
#[derive(Clone, Copy, Debug, PartialEq, Eq, Structural)]
pub struct WindowId(pub u64);

/// The viewport that egui's `ViewportId::from_hash_of` gives for the pair of
/// `"festerm-window"` and `id`. The value depends on the machine's hash
/// function, so nothing is stated but that an egui identifier is never zero.
#[verifier::external_body]
fn viewport_of(id: u64) -> (viewport: u64)
    ensures
        viewport != 0,
{
    eframe::egui::ViewportId::from_hash_of(("festerm-window", id)).0.value()
}

impl WindowId {
    /// The window that stands for the application.
    pub open spec fn primary() -> Self {
        WindowId(0)
    }

    pub fn is_primary(self) -> (result: bool)
        ensures
            result == (self == Self::primary()),
    {
        self.0 == 0
    }

    /// The window's viewport.
    pub fn viewport_id(self) -> (viewport: u64)
        ensures
            viewport != 0,
    {
        viewport_of(self.0)
    }

    pub open spec fn title_text(self) -> Seq<char> {
        if self == Self::primary() {
            APPLICATION_TITLE@
        } else {
            APPLICATION_TITLE@ + " \u{2014} Window "@ + decimal(self.0 as nat + 1)
        }
    }

    /// The window's title: the application's name, and from the second window
    /// on the window's number.
    pub fn title(self) -> (title: String)
        ensures
            title@ == self.title_text(),
    {
        let mut title = APPLICATION_TITLE.to_owned();
        if !self.is_primary() {
            title.append(" \u{2014} Window ");
            push_decimal(&mut title, self.0 as u128 + 1);
        }
        title
    }
}

#[derive(Debug)]
pub struct Window {
    pub id: WindowId,
    pub viewport: u64,
    pub app: FesTermApp,
}

pub struct WindowView {
    pub id: WindowId,
    pub viewport: u64,
    pub tabs: Seq<Tab>,
    pub active: TabId,
    pub shell: Shell,
}

impl View for Window {
    type V = WindowView;

    open spec fn view(&self) -> WindowView {
        WindowView {
            id: self.id,
            viewport: self.viewport,
            tabs: self.app.state.tabs@,
            active: self.app.state.active,
            shell: self.app.shell,
        }
    }
}

/// All windows, the first one in front of the list.
#[derive(Debug)]
pub struct FesTermApplication {
    pub windows: Vec<Window>,
    pub next_window_id: u64,
    pub next_tab_id: u64,
}

pub struct ApplicationView {
    pub windows: Seq<WindowView>,
    pub next_window_id: int,
    pub next_tab_id: int,
}

impl View for FesTermApplication {
    type V = ApplicationView;

    open spec fn view(&self) -> ApplicationView {
        ApplicationView {
            windows: self.windows@.map_values(|window: Window| window@),
            next_window_id: self.next_window_id as int,
            next_tab_id: self.next_tab_id as int,
        }
    }
}

impl WindowView {
    /// The window's tabs are in order, and one of them is in front.
    pub open spec fn wf(self) -> bool {
        &&& distinct(self.tabs)
        &&& self.tabs.len() > 0 ==> position(self.tabs, self.active) is Some
    }
}

/// Where the window `id` stands.
pub open spec fn window_position(windows: Seq<WindowView>, id: WindowId) -> Option<int>
    decreases windows.len(),
{
    if windows.len() == 0 {
        None
    } else {
        match window_position(windows.drop_last(), id) {
            Some(i) => Some(i),
            None => if windows.last().id == id {
                Some(windows.len() - 1)
            } else {
                None
            },
        }
    }
}

/// Where the first window with the viewport `viewport` stands.
pub open spec fn viewport_position(windows: Seq<WindowView>, viewport: u64) -> Option<int>
    decreases windows.len(),
{
    if windows.len() == 0 {
        None
    } else {
        match viewport_position(windows.drop_last(), viewport) {
            Some(i) => Some(i),
            None => if windows.last().viewport == viewport {
                Some(windows.len() - 1)
            } else {
                None
            },
        }
    }
}

/// Tab `p` of window `i` and tab `q` of window `j` are the same or differ in
/// their identifier.
pub open spec fn tabs_differ(windows: Seq<WindowView>, i: int, p: int, j: int, q: int) -> bool {
    i == j && p == q || windows[i].tabs[p].id != windows[j].tabs[q].id
}

impl ApplicationView {
    /// What holds between two passes, but for windows that have just given up
    /// their last tab.
    pub open spec fn coherent(self) -> bool {
        &&& self.windows.len() > 0
        &&& self.windows[0].id == WindowId::primary()
        &&& forall|i: int|
            0 <= i < self.windows.len() ==> {
                &&& (#[trigger] self.windows[i]).wf()
                &&& self.windows[i].id.0 < self.next_window_id
            }
        &&& forall|i: int, j: int|
            0 <= i < j < self.windows.len() ==> (#[trigger] self.windows[i]).id != (
            #[trigger] self.windows[j]).id
        &&& forall|i: int, p: int|
            0 <= i < self.windows.len() && 0 <= p < self.windows[i].tabs.len() ==> (
            #[trigger] self.windows[i].tabs[p]).id.0 < self.next_tab_id
        &&& forall|i: int, p: int, j: int, q: int|
            0 <= i < self.windows.len() && 0 <= p < self.windows[i].tabs.len() && 0 <= j
                < self.windows.len() && 0 <= q < self.windows[j].tabs.len()
                ==> #[trigger] tabs_differ(self.windows, i, p, j, q)
    }

    /// The first window leads the list, no two windows share an identifier and
    /// no two tabs of the process do, and every window has a tab in front.
    pub open spec fn wf(self) -> bool {
        &&& self.coherent()
        &&& forall|i: int| 0 <= i < self.windows.len() ==> (#[trigger] self.windows[i]).tabs.len() > 0
    }

    /// Window `i` with its tabs replaced.
    pub open spec fn with_tabs(self, i: int, tabs: Seq<Tab>, active: TabId) -> Self {
        ApplicationView {
            windows: self.windows.update(i, WindowView { tabs, active, ..self.windows[i] }),
            ..self
        }
    }

    /// Tab `k` has left window `s`.
    pub open spec fn detached(self, s: int, k: int) -> Self {
        self.with_tabs(
            s,
            self.windows[s].tabs.remove(k),
            active_after_leaving(self.windows[s].tabs, self.windows[s].active, k),
        )
    }

    /// `tab` has come into window `t`, in front of `before` where it can.
    pub open spec fn adopted(self, t: int, tab: Tab, before: Option<TabId>) -> Self {
        self.with_tabs(
            t,
            self.windows[t].tabs.insert(place_before(self.windows[t].tabs, before), tab),
            tab.id,
        )
    }

    /// Another window has opened, on the launcher or on a tab of its own.
    pub open spec fn opened(self, viewport: u64, detached: Option<Tab>) -> Self {
        let first = self.windows[0].shell;
        let tab = match detached {
            Some(tab) => tab,
            None => Tab::launcher(TabId(self.next_tab_id as u64)),
        };
        ApplicationView {
            windows: self.windows.push(
                WindowView {
                    id: WindowId(self.next_window_id as u64),
                    viewport,
                    tabs: seq![tab],
                    active: tab.id,
                    shell: Shell::fresh(
                        WindowRole::Secondary,
                        Arc::new(Configuration { workspace: None, ..*first.documents.configuration }),
                        first.documents.status,
                        first.credentials.store,
                    ),
                },
            ),
            next_window_id: self.next_window_id + 1,
            next_tab_id: self.next_tab_id + 1,
        }
    }

    /// The window `id` has been settled after giving up a tab: where it was the
    /// last, the first window opens the launcher and any other window closes.
    pub open spec fn collapsed(self, id: WindowId) -> Self {
        match window_position(self.windows, id) {
            Some(i) => if self.windows[i].tabs.len() > 0 {
                self
            } else if id == WindowId::primary() {
                let launcher = TabId(self.next_tab_id as u64);
                ApplicationView {
                    next_tab_id: self.next_tab_id + 1,
                    ..self.with_tabs(i, seq![Tab::launcher(launcher)], launcher)
                }
            } else {
                ApplicationView { windows: self.windows.remove(i), ..self }
            },
            None => self,
        }
    }

    /// Whether `after` is what a request to move a tab out of window `source`
    /// leads to.
    pub open spec fn moves_to(self, source: WindowId, request: TabMoveRequest, after: Self) -> bool {
        match window_position(self.windows, source) {
            None => after == self,
            Some(s) => match position(self.windows[s].tabs, request.moved) {
                None => after == self,
                Some(k) => {
                    let tab = self.windows[s].tabs[k];
                    match request.target {
                        Some(viewport) => match viewport_position(self.windows, viewport) {
                            None => after == self,
                            Some(t) => if t == s {
                                after == self
                            } else {
                                after == self.detached(s, k).adopted(
                                    t,
                                    tab,
                                    request.before,
                                ).collapsed(source)
                            },
                        },
                        None => if source != WindowId::primary() && self.windows[s].tabs.len() <= 1 {
                            after == self
                        } else {
                            &&& after.windows.len() > 0
                            &&& after == self.detached(s, k).opened(
                                after.windows.last().viewport,
                                Some(tab),
                            ).collapsed(source)
                        },
                    }
                },
            },
        }
    }
}

pub proof fn window_position_is_first(windows: Seq<WindowView>, id: WindowId)
    ensures
        match window_position(windows, id) {
            Some(i) => {
                &&& 0 <= i < windows.len()
                &&& windows[i].id == id
                &&& forall|j: int| 0 <= j < i ==> (#[trigger] windows[j]).id != id
            },
            None => forall|j: int| 0 <= j < windows.len() ==> (#[trigger] windows[j]).id != id,
        },
    decreases windows.len(),
{
    if windows.len() > 0 {
        let rest = windows.drop_last();
        window_position_is_first(rest, id);
        assert(forall|j: int| 0 <= j < rest.len() ==> rest[j] == #[trigger] windows[j]);
    }
}

proof fn window_position_found(windows: Seq<WindowView>, id: WindowId, i: int)
    requires
        0 <= i < windows.len(),
        windows[i].id == id,
        forall|j: int| 0 <= j < i ==> (#[trigger] windows[j]).id != id,
    ensures
        window_position(windows, id) == Some(i),
{
    window_position_is_first(windows, id);
}

proof fn viewport_position_is_first(windows: Seq<WindowView>, viewport: u64)
    ensures
        match viewport_position(windows, viewport) {
            Some(i) => {
                &&& 0 <= i < windows.len()
                &&& windows[i].viewport == viewport
                &&& forall|j: int| 0 <= j < i ==> (#[trigger] windows[j]).viewport != viewport
            },
            None => forall|j: int|
                0 <= j < windows.len() ==> (#[trigger] windows[j]).viewport != viewport,
        },
    decreases windows.len(),
{
    if windows.len() > 0 {
        let rest = windows.drop_last();
        viewport_position_is_first(rest, viewport);
        assert(forall|j: int| 0 <= j < rest.len() ==> rest[j] == #[trigger] windows[j]);
    }
}

impl FesTermApplication {
    /// The application with its first window.
    pub fn new(primary: FesTermApp, next_tab_id: u64) -> (application: Self)
        requires
            primary.state.wf(),
            primary.state.tabs@.len() > 0,
            forall|p: int|
                0 <= p < primary.state.tabs@.len() ==> (#[trigger] primary.state.tabs@[p]).id.0
                    < next_tab_id,
        ensures
            application@.wf(),
            application@.windows.len() == 1,
            application.windows@[0].app == primary,
            application.windows@[0].id == WindowId::primary(),
            application.next_window_id == 1,
            application.next_tab_id == next_tab_id,
    {
        let mut windows = Vec::new();
        windows.push(Window { id: WindowId(0), viewport: viewport_of(0), app: primary });
        let application = FesTermApplication { windows, next_window_id: 1, next_tab_id };
        proof {
            let view = application@;
            assert(view.windows[0] == application.windows@[0]@);
        }
        application
    }

    /// Where the window `id` stands.
    pub fn window_index(&self, id: WindowId) -> (index: Option<usize>)
        ensures
            match index {
                Some(i) => window_position(self@.windows, id) == Some(i as int) && i
                    < self.windows@.len(),
                None => window_position(self@.windows, id) is None,
            },
    {
        let mut i: usize = 0;
        while i < self.windows.len()
            invariant
                i <= self.windows@.len(),
                forall|j: int| 0 <= j < i ==> (#[trigger] self@.windows[j]).id != id,
            decreases self.windows@.len() - i,
        {
            if self.windows[i].id == id {
                proof {
                    window_position_found(self@.windows, id, i as int);
                }
                return Some(i);
            }
            assert(self@.windows[i as int].id != id);
            i = i + 1;
        }
        proof {
            window_position_is_first(self@.windows, id);
        }
        None
    }

    /// Where the first window with the viewport `viewport` stands.
    fn viewport_index(&self, viewport: u64) -> (index: Option<usize>)
        ensures
            match index {
                Some(i) => viewport_position(self@.windows, viewport) == Some(i as int) && i
                    < self.windows@.len(),
                None => viewport_position(self@.windows, viewport) is None,
            },
    {
        let mut i: usize = 0;
        while i < self.windows.len()
            invariant
                i <= self.windows@.len(),
                forall|j: int| 0 <= j < i ==> (#[trigger] self@.windows[j]).viewport != viewport,
            decreases self.windows@.len() - i,
        {
            if self.windows[i].viewport == viewport {
                proof {
                    assert(self@.windows[i as int].viewport == viewport);
                    viewport_position_is_first(self@.windows, viewport);
                }
                return Some(i);
            }
            assert(self@.windows[i as int].viewport != viewport);
            i = i + 1;
        }
        proof {
            viewport_position_is_first(self@.windows, viewport);
        }
        None
    }

    /// Opens another window, on the launcher or on a tab dragged out of
    /// another one, and says where it stands.
    pub fn open_window(&mut self, detached: Option<Tab>) -> (index: usize)
        requires
            old(self)@.windows.len() > 0,
            old(self).next_window_id < u64::MAX,
            old(self).next_tab_id < u64::MAX,
        ensures
            index == old(self)@.windows.len(),
            final(self)@ == old(self)@.opened(final(self)@.windows.last().viewport, detached),
    {
        let index: usize = self.windows.len();
        let id = WindowId(self.next_window_id);
        self.next_window_id = self.next_window_id + 1;
        let launcher = TabId(self.next_tab_id);
        self.next_tab_id = self.next_tab_id + 1;
        let mut app = FesTermApp::secondary_window(
            &self.windows[0].app.shell.documents.configuration,
            self.windows[0].app.shell.documents.status,
            self.windows[0].app.shell.credentials.store,
            launcher,
        );
        if let Some(tab) = detached {
            app.state.adopt_detached_tab(tab);
        }
        self.windows.push(Window { id, viewport: id.viewport_id(), app });
        proof {
            let viewport = self@.windows.last().viewport;
            assert(self@.windows =~= old(self)@.opened(viewport, detached).windows);
        }
        index
    }
}

proof fn detached_is_coherent(a: ApplicationView, s: int, k: int)
    requires
        a.coherent(),
        0 <= s < a.windows.len(),
        0 <= k < a.windows[s].tabs.len(),
        a.detached(s, k).windows[s].wf(),
    ensures
        a.detached(s, k).coherent(),
        forall|i: int, p: int|
            0 <= i < a.windows.len() && 0 <= p < a.detached(s, k).windows[i].tabs.len() ==> (
            #[trigger] a.detached(s, k).windows[i].tabs[p]).id != a.windows[s].tabs[k].id,
{
    let b = a.detached(s, k);
    assert forall|i: int| 0 <= i < b.windows.len() implies {
        &&& (#[trigger] b.windows[i]).wf()
        &&& b.windows[i].id.0 < b.next_window_id
    } by {
        assert(a.windows[i].wf());
    }
    assert forall|i: int, j: int| 0 <= i < j < b.windows.len() implies (#[trigger] b.windows[i]).id
        != (#[trigger] b.windows[j]).id by {
        assert(a.windows[i].id != a.windows[j].id);
    }
    assert forall|i: int, p: int|
        0 <= i < b.windows.len() && 0 <= p < b.windows[i].tabs.len() implies {
        &&& (#[trigger] b.windows[i].tabs[p]).id.0 < b.next_tab_id
        &&& b.windows[i].tabs[p].id != a.windows[s].tabs[k].id
    } by {
        let pp = if i == s && p >= k { p + 1 } else { p };
        assert(b.windows[i].tabs[p] == a.windows[i].tabs[pp]);
        assert(tabs_differ(a.windows, i, pp, s, k));
    }
    assert forall|i: int, p: int, j: int, q: int|
        0 <= i < b.windows.len() && 0 <= p < b.windows[i].tabs.len() && 0 <= j < b.windows.len()
            && 0 <= q < b.windows[j].tabs.len() implies #[trigger] tabs_differ(
        b.windows,
        i,
        p,
        j,
        q,
    ) by {
        let pp = if i == s && p >= k { p + 1 } else { p };
        let qq = if j == s && q >= k { q + 1 } else { q };
        assert(b.windows[i].tabs[p] == a.windows[i].tabs[pp]);
        assert(b.windows[j].tabs[q] == a.windows[j].tabs[qq]);
        assert(tabs_differ(a.windows, i, pp, j, qq));
    }
}

proof fn adopted_is_coherent(a: ApplicationView, t: int, tab: Tab, before: Option<TabId>)
    requires
        a.coherent(),
        0 <= t < a.windows.len(),
        tab.id.0 < a.next_tab_id,
        forall|i: int, p: int|
            0 <= i < a.windows.len() && 0 <= p < a.windows[i].tabs.len() ==> (
            #[trigger] a.windows[i].tabs[p]).id != tab.id,
        a.adopted(t, tab, before).windows[t].wf(),
    ensures
        a.adopted(t, tab, before).coherent(),
{
    let b = a.adopted(t, tab, before);
    let place = place_before(a.windows[t].tabs, before);
    if before is Some {
        position_is_first(a.windows[t].tabs, before->Some_0);
    }
    assert forall|i: int| 0 <= i < b.windows.len() implies {
        &&& (#[trigger] b.windows[i]).wf()
        &&& b.windows[i].id.0 < b.next_window_id
    } by {
        assert(a.windows[i].wf());
    }
    assert forall|i: int, j: int| 0 <= i < j < b.windows.len() implies (#[trigger] b.windows[i]).id
        != (#[trigger] b.windows[j]).id by {
        assert(a.windows[i].id != a.windows[j].id);
    }
    assert forall|i: int, p: int|
        0 <= i < b.windows.len() && 0 <= p < b.windows[i].tabs.len() implies (
    #[trigger] b.windows[i].tabs[p]).id.0 < b.next_tab_id by {
        if !(i == t && p == place) {
            let pp = if i == t && p > place { p - 1 } else { p };
            assert(b.windows[i].tabs[p] == a.windows[i].tabs[pp]);
        }
    }
    assert forall|i: int, p: int, j: int, q: int|
        0 <= i < b.windows.len() && 0 <= p < b.windows[i].tabs.len() && 0 <= j < b.windows.len()
            && 0 <= q < b.windows[j].tabs.len() implies #[trigger] tabs_differ(
        b.windows,
        i,
        p,
        j,
        q,
    ) by {
        let pp = if i == t && p > place { p - 1 } else { p };
        let qq = if j == t && q > place { q - 1 } else { q };
        if i == t && p == place {
            if !(j == t && q == place) {
                assert(b.windows[j].tabs[q] == a.windows[j].tabs[qq]);
            }
        } else if j == t && q == place {
            assert(b.windows[i].tabs[p] == a.windows[i].tabs[pp]);
        } else {
            assert(b.windows[i].tabs[p] == a.windows[i].tabs[pp]);
            assert(b.windows[j].tabs[q] == a.windows[j].tabs[qq]);
            assert(tabs_differ(a.windows, i, pp, j, qq));
        }
    }
}

/// Opening a window keeps the application coherent; a tab that it opens on
/// must be in no other window.
pub proof fn opened_is_coherent(a: ApplicationView, viewport: u64, detached: Option<Tab>)
    requires
        a.coherent(),
        a.next_window_id < u64::MAX,
        a.next_tab_id < u64::MAX,
        0 <= a.next_window_id,
        0 <= a.next_tab_id,
        detached is Some ==> detached->Some_0.id.0 < a.next_tab_id,
        detached is Some ==> forall|i: int, p: int|
            0 <= i < a.windows.len() && 0 <= p < a.windows[i].tabs.len() ==> (
            #[trigger] a.windows[i].tabs[p]).id != detached->Some_0.id,
    ensures
        a.opened(viewport, detached).coherent(),
        a.wf() ==> a.opened(viewport, detached).wf(),
{
    let b = a.opened(viewport, detached);
    let n = a.windows.len() as int;
    let tab = b.windows[n].tabs[0];
    present_has_position(b.windows[n].tabs, 0);
    assert forall|i: int| 0 <= i < b.windows.len() implies {
        &&& (#[trigger] b.windows[i]).wf()
        &&& b.windows[i].id.0 < b.next_window_id
    } by {
        if i < n {
            assert(b.windows[i] == a.windows[i]);
            assert(a.windows[i].wf());
        }
    }
    assert forall|i: int, j: int| 0 <= i < j < b.windows.len() implies (#[trigger] b.windows[i]).id
        != (#[trigger] b.windows[j]).id by {
        assert(a.windows[i].wf() && b.windows[i] == a.windows[i]);
        if j < n {
            assert(b.windows[j] == a.windows[j]);
        }
    }
    assert forall|i: int, p: int|
        0 <= i < b.windows.len() && 0 <= p < b.windows[i].tabs.len() implies (
    #[trigger] b.windows[i].tabs[p]).id.0 < b.next_tab_id by {
        if i < n {
            assert(b.windows[i].tabs[p] == a.windows[i].tabs[p]);
        }
    }
    assert forall|i: int, p: int, j: int, q: int|
        0 <= i < b.windows.len() && 0 <= p < b.windows[i].tabs.len() && 0 <= j < b.windows.len()
            && 0 <= q < b.windows[j].tabs.len() implies #[trigger] tabs_differ(
        b.windows,
        i,
        p,
        j,
        q,
    ) by {
        if i < n {
            assert(b.windows[i].tabs[p] == a.windows[i].tabs[p]);
        }
        if j < n {
            assert(b.windows[j].tabs[q] == a.windows[j].tabs[q]);
        }
        if i < n && j < n {
            assert(tabs_differ(a.windows, i, p, j, q));
        }
    }
    if a.wf() {
        assert forall|i: int| 0 <= i < b.windows.len() implies (#[trigger] b.windows[i]).tabs.len()
            > 0 by {
            if i < n {
                assert(b.windows[i] == a.windows[i]);
            }
        }
    }
}

/// Settling a window that may have given up its last tab leaves every window
/// with one.
proof fn collapsed_is_wf(a: ApplicationView, s: int)
    requires
        a.coherent(),
        0 <= a.next_tab_id < u64::MAX,
        0 <= s < a.windows.len(),
        forall|i: int|
            0 <= i < a.windows.len() && i != s ==> (#[trigger] a.windows[i]).tabs.len() > 0,
    ensures
        a.collapsed(a.windows[s].id).wf(),
{
    let id = a.windows[s].id;
    let b = a.collapsed(id);
    assert forall|j: int| 0 <= j < s implies (#[trigger] a.windows[j]).id != id by {}
    window_position_found(a.windows, id, s);
    if a.windows[s].tabs.len() > 0 {
    } else if id == WindowId::primary() {
        present_has_position(b.windows[s].tabs, 0);
        assert forall|i: int| 0 <= i < b.windows.len() implies {
            &&& (#[trigger] b.windows[i]).wf()
            &&& b.windows[i].id.0 < b.next_window_id
            &&& b.windows[i].tabs.len() > 0
        } by {
            assert(a.windows[i].wf());
        }
        assert forall|i: int, j: int| 0 <= i < j < b.windows.len() implies (
        #[trigger] b.windows[i]).id != (#[trigger] b.windows[j]).id by {
            assert(a.windows[i].id != a.windows[j].id);
        }
        assert forall|i: int, p: int|
            0 <= i < b.windows.len() && 0 <= p < b.windows[i].tabs.len() implies (
        #[trigger] b.windows[i].tabs[p]).id.0 < b.next_tab_id by {
            if i != s {
                assert(b.windows[i].tabs[p] == a.windows[i].tabs[p]);
            }
        }
        assert forall|i: int, p: int, j: int, q: int|
            0 <= i < b.windows.len() && 0 <= p < b.windows[i].tabs.len() && 0 <= j
                < b.windows.len() && 0 <= q < b.windows[j].tabs.len() implies #[trigger] tabs_differ(
            b.windows,
            i,
            p,
            j,
            q,
        ) by {
            if i != s {
                assert(b.windows[i].tabs[p] == a.windows[i].tabs[p]);
            }
            if j != s {
                assert(b.windows[j].tabs[q] == a.windows[j].tabs[q]);
            }
            if i != s && j != s {
                assert(tabs_differ(a.windows, i, p, j, q));
            }
        }
    } else {
        removed_is_coherent(a, s);
        assert forall|i: int| 0 <= i < b.windows.len() implies (#[trigger] b.windows[i]).tabs.len()
            > 0 by {
            assert(b.windows[i] == a.windows[if i < s { i } else { i + 1 }]);
        }
    }
}

/// Dropping a window other than the first keeps the application coherent.
pub proof fn removed_is_coherent(a: ApplicationView, s: int)
    requires
        a.coherent(),
        0 < s < a.windows.len(),
    ensures
        (ApplicationView { windows: a.windows.remove(s), ..a }).coherent(),
{
    let b = ApplicationView { windows: a.windows.remove(s), ..a };
    assert forall|i: int| 0 <= i < b.windows.len() implies {
        &&& (#[trigger] b.windows[i]).wf()
        &&& b.windows[i].id.0 < b.next_window_id
    } by {
        assert(b.windows[i] == a.windows[if i < s { i } else { i + 1 }]);
    }
    assert forall|i: int, j: int| 0 <= i < j < b.windows.len() implies (#[trigger] b.windows[i]).id
        != (#[trigger] b.windows[j]).id by {
        assert(b.windows[i] == a.windows[if i < s { i } else { i + 1 }]);
        assert(b.windows[j] == a.windows[if j < s { j } else { j + 1 }]);
    }
    assert forall|i: int, p: int|
        0 <= i < b.windows.len() && 0 <= p < b.windows[i].tabs.len() implies (
    #[trigger] b.windows[i].tabs[p]).id.0 < b.next_tab_id by {
        let ii = if i < s { i } else { i + 1 };
        assert(b.windows[i].tabs[p] == a.windows[ii].tabs[p]);
    }
    assert forall|i: int, p: int, j: int, q: int|
        0 <= i < b.windows.len() && 0 <= p < b.windows[i].tabs.len() && 0 <= j < b.windows.len()
            && 0 <= q < b.windows[j].tabs.len() implies #[trigger] tabs_differ(
        b.windows,
        i,
        p,
        j,
        q,
    ) by {
        let ii = if i < s { i } else { i + 1 };
        let jj = if j < s { j } else { j + 1 };
        assert(tabs_differ(a.windows, ii, p, jj, q));
    }
}

/// What moving a tab asks of the windowing system.
#[derive(Clone, Copy, Debug, PartialEq, Eq, Structural)]
pub struct MoveEffects {
    /// The viewport that gets the focus.
    pub focus: Option<u64>,
    /// A window has come or gone.
    pub repaint: bool,
}

impl FesTermApplication {
    /// Settles a window that may just have given up its last tab.
    fn collapse_if_emptied(&mut self, id: WindowId) -> (closed: bool)
        requires
            old(self)@.coherent(),
            old(self).next_tab_id < u64::MAX,
        ensures
            final(self)@ == old(self)@.collapsed(id),
            closed == (final(self)@.windows.len() < old(self)@.windows.len()),
    {
        let index: usize = match self.window_index(id) {
            Some(index) => index,
            None => return false,
        };
        proof {
            window_position_is_first(self@.windows, id);
            assert(self@.windows[index as int] == self.windows@[index as int]@);
        }
        if self.windows[index].app.state.tabs.len() > 0 {
            return false;
        }
        if id.is_primary() {
            let launcher = TabId(self.next_tab_id);
            self.next_tab_id = self.next_tab_id + 1;
            assert(self@.windows[index as int].wf());
            self.windows[index].app.state.open_launcher_if_empty(launcher);
            assert(self@.windows =~= old(self)@.collapsed(id).windows);
            false
        } else {
            let _window = self.windows.remove(index);
            assert(self@.windows =~= old(self)@.collapsed(id).windows);
            true
        }
    }
}

/// A request really moves a tab to another window.
pub open spec fn transfers(a: ApplicationView, source: WindowId, request: TabMoveRequest) -> bool {
    &&& window_position(a.windows, source) is Some
    &&& position(
        a.windows[window_position(a.windows, source)->Some_0].tabs,
        request.moved,
    ) is Some
    &&& request.target is Some
    &&& viewport_position(a.windows, request.target->Some_0) is Some
    &&& viewport_position(a.windows, request.target->Some_0) != window_position(a.windows, source)
}

impl FesTermApplication {
    /// Moves the tab `moved` of window `s` into window `t`.
    fn transfer_tab(&mut self, s: usize, t: usize, moved: TabId, before: Option<TabId>) -> (closed:
        Option<bool>)
        requires
            old(self)@.wf(),
            s < old(self)@.windows.len(),
            t < old(self)@.windows.len(),
            s != t,
            old(self).next_tab_id < u64::MAX,
        ensures
            final(self)@.wf(),
            final(self).next_window_id == old(self).next_window_id,
            old(self).next_tab_id <= final(self).next_tab_id <= old(self).next_tab_id + 1,
            match position(old(self)@.windows[s as int].tabs, moved) {
                Some(k) => {
                    &&& final(self)@ == old(self)@.detached(s as int, k).adopted(
                        t as int,
                        old(self)@.windows[s as int].tabs[k],
                        before,
                    ).collapsed(old(self)@.windows[s as int].id)
                    &&& closed is Some
                    &&& final(self)@.windows.len() == if closed->Some_0 {
                        old(self)@.windows.len() - 1
                    } else {
                        old(self)@.windows.len() as int
                    }
                },
                None => closed is None && final(self)@ == old(self)@,
            },
    {
        let ghost earlier = self@;
        let source = self.windows[s].id;
        proof {
            assert(earlier.windows[s as int] == self.windows@[s as int]@);
            assert(earlier.windows[t as int] == self.windows@[t as int]@);
            assert(earlier.windows[s as int].wf());
            assert(earlier.windows[t as int].wf());
            position_is_first(earlier.windows[s as int].tabs, moved);
        }
        let tab = match self.windows[s].app.state.detach_tab(moved) {
            Some(tab) => tab,
            None => {
                assert(self@.windows =~= earlier.windows);
                return None;
            },
        };
        let ghost k = position(earlier.windows[s as int].tabs, moved)->Some_0;
        let ghost mid = self@;
        proof {
            assert(mid.windows =~= earlier.detached(s as int, k).windows);
            detached_is_coherent(earlier, s as int, k);
            assert(mid.windows[t as int] == earlier.windows[t as int]);
            position_is_first(mid.windows[t as int].tabs, tab.id);
            if position(mid.windows[t as int].tabs, tab.id) is Some {
                let q = position(mid.windows[t as int].tabs, tab.id)->Some_0;
                assert(mid.windows[t as int].tabs[q].id == tab.id);
            }
        }
        self.windows[t].app.state.adopt_tab(tab, before);
        let ghost adopted = self@;
        proof {
            assert(adopted.windows =~= mid.adopted(t as int, tab, before).windows);
            adopted_is_coherent(mid, t as int, tab, before);
            assert forall|i: int| 0 <= i < adopted.windows.len() && i != s implies (
            #[trigger] adopted.windows[i]).tabs.len() > 0 by {
                assert(earlier.windows[i].tabs.len() > 0);
            }
            assert(adopted.windows[s as int].id == source);
            collapsed_is_wf(adopted, s as int);
            window_position_is_first(adopted.windows, source);
        }
        Some(self.collapse_if_emptied(source))
    }

    /// Opens a window that holds nothing but the tab `moved` of window `s`. The
    /// only tab of a window other than the first stays where it is.
    fn detach_tab_into_new_window(&mut self, s: usize, moved: TabId) -> (opened: bool)
        requires
            old(self)@.wf(),
            s < old(self)@.windows.len(),
            old(self).next_window_id < u64::MAX,
            old(self).next_tab_id < u64::MAX - 1,
        ensures
            final(self)@.wf(),
            old(self).next_window_id <= final(self).next_window_id <= old(self).next_window_id + 1,
            old(self).next_tab_id <= final(self).next_tab_id <= old(self).next_tab_id + 2,
            ({
                let source = old(self)@.windows[s as int];
                match position(source.tabs, moved) {
                    Some(k) => if source.id != WindowId::primary() && source.tabs.len() <= 1 {
                        !opened && final(self)@ == old(self)@
                    } else {
                        &&& opened
                        &&& final(self)@.windows.len() == old(self)@.windows.len() + 1
                        &&& final(self)@ == old(self)@.detached(s as int, k).opened(
                            final(self)@.windows.last().viewport,
                            Some(source.tabs[k]),
                        ).collapsed(source.id)
                    },
                    None => !opened && final(self)@ == old(self)@,
                }
            }),
    {
        let ghost earlier = self@;
        let source = self.windows[s].id;
        proof {
            assert(earlier.windows[s as int] == self.windows@[s as int]@);
            assert(earlier.windows[s as int].wf());
            position_is_first(earlier.windows[s as int].tabs, moved);
        }
        if !source.is_primary() && self.windows[s].app.state.tabs.len() <= 1 {
            return false;
        }
        let tab = match self.windows[s].app.state.detach_tab(moved) {
            Some(tab) => tab,
            None => {
                assert(self@.windows =~= earlier.windows);
                return false;
            },
        };
        let ghost k = position(earlier.windows[s as int].tabs, moved)->Some_0;
        let ghost mid = self@;
        proof {
            assert(mid.windows =~= earlier.detached(s as int, k).windows);
            detached_is_coherent(earlier, s as int, k);
        }
        let _index = self.open_window(Some(tab));
        let ghost opened = self@;
        proof {
            opened_is_coherent(mid, opened.windows.last().viewport, Some(tab));
            assert forall|i: int| 0 <= i < opened.windows.len() && i != s implies (
            #[trigger] opened.windows[i]).tabs.len() > 0 by {
                if i < earlier.windows.len() {
                    assert(earlier.windows[i].tabs.len() > 0);
                }
            }
            assert(opened.windows[s as int].id == source);
            collapsed_is_wf(opened, s as int);
            assert forall|j: int| 0 <= j < s implies (#[trigger] opened.windows[j]).id
                != source by {
                assert(opened.windows[j].id == earlier.windows[j].id);
            }
            window_position_found(opened.windows, source, s as int);
            assert(opened.windows[s as int].tabs.len() == earlier.windows[s as int].tabs.len() - 1);
        }
        let _closed = self.collapse_if_emptied(source);
        true
    }

    /// Moves a tab out of the window `source`: into the window whose viewport
    /// it was dropped on, or into one of its own where it was dropped outside
    /// every window. A drop on the window itself, on one that has closed since,
    /// or of a tab that the window does not hold changes nothing; neither does
    /// dragging out the only tab of a window other than the first.
    pub fn move_tab(&mut self, source: WindowId, request: TabMoveRequest) -> (effects: MoveEffects)
        requires
            old(self)@.wf(),
            old(self).next_window_id < u64::MAX,
            old(self).next_tab_id < u64::MAX - 1,
        ensures
            final(self)@.wf(),
            old(self)@.moves_to(source, request, final(self)@),
            old(self).next_window_id <= final(self).next_window_id <= old(self).next_window_id + 1,
            old(self).next_tab_id <= final(self).next_tab_id <= old(self).next_tab_id + 2,
            final(self)@.windows.len() <= old(self)@.windows.len() + 1,
            effects.focus == if transfers(old(self)@, source, request) {
                request.target
            } else {
                None
            },
            effects.repaint == (final(self)@.windows.len() != old(self)@.windows.len()),
    {
        let nothing = MoveEffects { focus: None, repaint: false };
        let s: usize = match self.window_index(source) {
            Some(s) => s,
            None => return nothing,
        };
        proof {
            window_position_is_first(self@.windows, source);
        }
        match request.target {
            Some(viewport) => {
                let t: usize = match self.viewport_index(viewport) {
                    Some(t) => t,
                    None => return nothing,
                };
                if t == s {
                    return nothing;
                }
                match self.transfer_tab(s, t, request.moved, request.before) {
                    Some(closed) => MoveEffects { focus: Some(viewport), repaint: closed },
                    None => nothing,
                }
            },
            None => {
                let opened = self.detach_tab_into_new_window(s, request.moved);
                MoveEffects { focus: None, repaint: opened }
            },
        }
    }
}

/// Tab `p` of window `i` is `tab`.
pub open spec fn stands_at(a: ApplicationView, tab: Tab, i: int, p: int) -> bool {
    &&& 0 <= i < a.windows.len()
    &&& 0 <= p < a.windows[i].tabs.len()
    &&& a.windows[i].tabs[p] == tab
}

/// One of the windows holds `tab`, with everything in it.
pub open spec fn holds(a: ApplicationView, tab: Tab) -> bool {
    exists|i: int, p: int| #[trigger] stands_at(a, tab, i, p)
}

proof fn detached_holds(a: ApplicationView, s: int, k: int, tab: Tab)
    requires
        0 <= s < a.windows.len(),
        0 <= k < a.windows[s].tabs.len(),
    ensures
        holds(a.detached(s, k), tab) ==> holds(a, tab),
        holds(a, tab) ==> holds(a.detached(s, k), tab) || tab == a.windows[s].tabs[k],
{
    let b = a.detached(s, k);
    if holds(b, tab) {
        let (i, p) = choose|i: int, p: int| #[trigger] stands_at(b, tab, i, p);
        assert(stands_at(a, tab, i, if i == s && p >= k { p + 1 } else { p }));
    }
    if holds(a, tab) {
        let (i, p) = choose|i: int, p: int| #[trigger] stands_at(a, tab, i, p);
        if !(i == s && p == k) {
            assert(stands_at(b, tab, i, if i == s && p > k { p - 1 } else { p }));
        }
    }
}

proof fn adopted_holds(a: ApplicationView, t: int, new: Tab, before: Option<TabId>, tab: Tab)
    requires
        0 <= t < a.windows.len(),
    ensures
        holds(a.adopted(t, new, before), tab) == (holds(a, tab) || tab == new),
{
    let b = a.adopted(t, new, before);
    let place = place_before(a.windows[t].tabs, before);
    if before is Some {
        position_is_first(a.windows[t].tabs, before->Some_0);
    }
    assert(stands_at(b, new, t, place));
    if holds(a, tab) {
        let (i, p) = choose|i: int, p: int| #[trigger] stands_at(a, tab, i, p);
        assert(stands_at(b, tab, i, if i == t && p >= place { p + 1 } else { p }));
    }
    if holds(b, tab) {
        let (i, p) = choose|i: int, p: int| #[trigger] stands_at(b, tab, i, p);
        if !(i == t && p == place) {
            assert(stands_at(a, tab, i, if i == t && p > place { p - 1 } else { p }));
        }
    }
}

proof fn opened_holds(a: ApplicationView, viewport: u64, new: Tab, tab: Tab)
    ensures
        holds(a.opened(viewport, Some(new)), tab) == (holds(a, tab) || tab == new),
{
    let b = a.opened(viewport, Some(new));
    let n = a.windows.len() as int;
    assert(stands_at(b, new, n, 0));
    if holds(a, tab) {
        let (i, p) = choose|i: int, p: int| #[trigger] stands_at(a, tab, i, p);
        assert(stands_at(b, tab, i, p));
    }
    if holds(b, tab) {
        let (i, p) = choose|i: int, p: int| #[trigger] stands_at(b, tab, i, p);
        if i < n {
            assert(stands_at(a, tab, i, p));
        }
    }
}

proof fn collapsed_holds(a: ApplicationView, id: WindowId, tab: Tab)
    ensures
        holds(a, tab) ==> holds(a.collapsed(id), tab),
        holds(a.collapsed(id), tab) ==> holds(a, tab) || tab == Tab::launcher(
            TabId(a.next_tab_id as u64),
        ),
{
    let b = a.collapsed(id);
    window_position_is_first(a.windows, id);
    match window_position(a.windows, id) {
        Some(s) => {
            if a.windows[s].tabs.len() == 0 {
                let gone = id != WindowId::primary();
                if holds(a, tab) {
                    let (i, p) = choose|i: int, p: int| #[trigger] stands_at(a, tab, i, p);
                    assert(stands_at(b, tab, if gone && i > s { i - 1 } else { i }, p));
                }
                if holds(b, tab) {
                    let (i, p) = choose|i: int, p: int| #[trigger] stands_at(b, tab, i, p);
                    if gone || i != s {
                        assert(stands_at(a, tab, if gone && i >= s { i + 1 } else { i }, p));
                    }
                }
            }
        },
        None => {},
    }
}

/// Moving tabs between windows loses none and copies none: whatever a window
/// held before, with its session and all, some window holds afterwards, and
/// nothing else appears but a launcher for a first window left empty. That no
/// two windows hold the same tab is part of `wf`.
pub proof fn moving_keeps_every_tab(
    before: ApplicationView,
    source: WindowId,
    request: TabMoveRequest,
    after: ApplicationView,
    tab: Tab,
)
    requires
        before.wf(),
        before.moves_to(source, request, after),
        0 <= before.next_tab_id < u64::MAX - 1,
    ensures
        holds(before, tab) ==> holds(after, tab),
        holds(after, tab) ==> holds(before, tab) || (tab.content == TabContent::Launcher && tab.id.0
            >= before.next_tab_id),
{
    window_position_is_first(before.windows, source);
    if let Some(s) = window_position(before.windows, source) {
        position_is_first(before.windows[s].tabs, request.moved);
        if let Some(k) = position(before.windows[s].tabs, request.moved) {
            let moved = before.windows[s].tabs[k];
            let mid = before.detached(s, k);
            assert(stands_at(before, moved, s, k));
            detached_holds(before, s, k, tab);
            if let Some(viewport) = request.target {
                viewport_position_is_first(before.windows, viewport);
                if let Some(t) = viewport_position(before.windows, viewport) {
                    if t != s {
                        adopted_holds(mid, t, moved, request.before, tab);
                        collapsed_holds(mid.adopted(t, moved, request.before), source, tab);
                    }
                }
            } else if !(source != WindowId::primary() && before.windows[s].tabs.len() <= 1) {
                let viewport = after.windows.last().viewport;
                opened_holds(mid, viewport, moved, tab);
                collapsed_holds(mid.opened(viewport, Some(moved)), source, tab);
            }
        }
    }
}

/// A move loses no tab: whatever a window held before, some window holds
/// afterwards.
pub proof fn a_move_loses_no_tab(
    before: ApplicationView,
    source: WindowId,
    request: TabMoveRequest,
    after: ApplicationView,
    tab: Tab,
)
    requires
        before.moves_to(source, request, after),
        holds(before, tab),
    ensures
        holds(after, tab),
{
    window_position_is_first(before.windows, source);
    if let Some(s) = window_position(before.windows, source) {
        position_is_first(before.windows[s].tabs, request.moved);
        if let Some(k) = position(before.windows[s].tabs, request.moved) {
            let moved = before.windows[s].tabs[k];
            let mid = before.detached(s, k);
            detached_holds(before, s, k, tab);
            if let Some(viewport) = request.target {
                viewport_position_is_first(before.windows, viewport);
                if let Some(t) = viewport_position(before.windows, viewport) {
                    if t != s {
                        adopted_holds(mid, t, moved, request.before, tab);
                        collapsed_holds(mid.adopted(t, moved, request.before), source, tab);
                    }
                }
            } else if !(source != WindowId::primary() && before.windows[s].tabs.len() <= 1) {
                let viewport = after.windows.last().viewport;
                opened_holds(mid, viewport, moved, tab);
                collapsed_holds(mid.opened(viewport, Some(moved)), source, tab);
            }
        }
    }
}

/// A move opens at most one window, and the counter of identifiers never falls.
pub proof fn a_move_opens_at_most_one_window(
    before: ApplicationView,
    source: WindowId,
    request: TabMoveRequest,
    after: ApplicationView,
)
    requires
        before.moves_to(source, request, after),
    ensures
        before.next_window_id <= after.next_window_id <= before.next_window_id + 1,
        after.windows.len() <= before.windows.len() + 1,
{
    window_position_is_first(before.windows, source);
    if let Some(s) = window_position(before.windows, source) {
        position_is_first(before.windows[s].tabs, request.moved);
        if let Some(k) = position(before.windows[s].tabs, request.moved) {
            let mid = before.detached(s, k);
            let tab = before.windows[s].tabs[k];
            if let Some(viewport) = request.target {
                viewport_position_is_first(before.windows, viewport);
                if let Some(t) = viewport_position(before.windows, viewport) {
                    window_position_is_first(
                        mid.adopted(t, tab, request.before).windows,
                        source,
                    );
                }
            } else {
                window_position_is_first(
                    mid.opened(after.windows.last().viewport, Some(tab)).windows,
                    source,
                );
            }
        }
    }
}

/// A window that has been closed never comes back under its identifier: every
/// window after a move was there before or has an identifier not given out yet.
pub proof fn window_identifiers_are_never_reused(
    before: ApplicationView,
    source: WindowId,
    request: TabMoveRequest,
    after: ApplicationView,
    i: int,
)
    requires
        before.moves_to(source, request, after),
        0 <= before.next_window_id < u64::MAX,
        0 <= i < after.windows.len(),
    ensures
        window_position(before.windows, after.windows[i].id) is Some || after.windows[i].id.0
            >= before.next_window_id,
{
    let id = after.windows[i].id;
    window_position_is_first(before.windows, id);
    window_position_is_first(before.windows, source);
    if window_position(before.windows, id) is None && id.0 < before.next_window_id {
        let s = window_position(before.windows, source)->Some_0;
        position_is_first(before.windows[s].tabs, request.moved);
        let k = position(before.windows[s].tabs, request.moved)->Some_0;
        let mid = before.detached(s, k);
        if let Some(viewport) = request.target {
            viewport_position_is_first(before.windows, viewport);
            let t = viewport_position(before.windows, viewport)->Some_0;
            let adopted = mid.adopted(t, before.windows[s].tabs[k], request.before);
            window_position_is_first(adopted.windows, source);
            let r = window_position(adopted.windows, source);
            let j = if adopted.collapsed(source).windows.len() < adopted.windows.len() && i
                >= r->Some_0 {
                i + 1
            } else {
                i
            };
            assert(adopted.windows[j].id == id);
            assert(before.windows[j].id == id);
        } else {
            let opened = mid.opened(
                after.windows.last().viewport,
                Some(before.windows[s].tabs[k]),
            );
            window_position_is_first(opened.windows, source);
            let r = window_position(opened.windows, source);
            let j = if opened.collapsed(source).windows.len() < opened.windows.len() && i
                >= r->Some_0 {
                i + 1
            } else {
                i
            };
            assert(opened.windows[j].id == id);
            if j < before.windows.len() {
                assert(before.windows[j].id == id);
            }
        }
    }
}

/// Tab `k` of window `s` is the one that a request to move `moved` out of the
/// window `source` speaks of.
pub open spec fn moved_from(
    a: ApplicationView,
    source: WindowId,
    moved: TabId,
    s: int,
    k: int,
) -> bool {
    &&& 0 <= s < a.windows.len()
    &&& a.windows[s].id == source
    &&& 0 <= k < a.windows[s].tabs.len()
    &&& a.windows[s].tabs[k].id == moved
}

/// `kept` is `giver` without its tab `k`: the other tabs are there in their
/// order, and the tab in front stays in front, or its neighbour comes to the
/// front where it was the one that left: the right one where there is one.
/// Everything else about the window is as it was.
pub open spec fn gave_up(giver: WindowView, k: int, kept: WindowView) -> bool {
    &&& kept.id == giver.id
    &&& kept.viewport == giver.viewport
    &&& kept.shell == giver.shell
    &&& kept.tabs.len() + 1 == giver.tabs.len()
    &&& forall|p: int| 0 <= p < k ==> (#[trigger] kept.tabs[p]) == giver.tabs[p]
    &&& forall|p: int| k <= p < kept.tabs.len() ==> (#[trigger] kept.tabs[p]) == giver.tabs[p + 1]
    &&& giver.active != giver.tabs[k].id ==> kept.active == giver.active
    &&& giver.active == giver.tabs[k].id && k + 1 < giver.tabs.len() ==> kept.active
        == giver.tabs[k + 1].id
    &&& giver.active == giver.tabs[k].id && k + 1 == giver.tabs.len() && k > 0 ==> kept.active
        == giver.tabs[k - 1].id
}

/// `kept` is the first window after it gave its only tab up: it is on a
/// launcher that has just been opened.
pub open spec fn back_on_launcher(giver: WindowView, next_tab_id: int, kept: WindowView) -> bool {
    &&& kept.id == giver.id
    &&& kept.viewport == giver.viewport
    &&& kept.shell == giver.shell
    &&& kept.tabs.len() == 1
    &&& kept.tabs[0].content == TabContent::Launcher
    &&& kept.tabs[0].restorable
    &&& kept.tabs[0].id.0 >= next_tab_id
    &&& kept.active == kept.tabs[0].id
}

proof fn found_where_it_stands(a: ApplicationView, source: WindowId, moved: TabId, s: int, k: int)
    requires
        a.wf(),
        moved_from(a, source, moved, s, k),
    ensures
        window_position(a.windows, source) == Some(s),
        position(a.windows[s].tabs, moved) == Some(k),
        (s == 0) == (source == WindowId::primary()),
{
    window_position_is_first(a.windows, source);
    let i = window_position(a.windows, source)->Some_0;
    if i != s {
        assert(a.windows[i].id != a.windows[s].id);
    }
    assert(a.windows[s].wf());
    position_is_first(a.windows[s].tabs, moved);
    let j = position(a.windows[s].tabs, moved)->Some_0;
    if j != k {
        assert(a.windows[s].tabs[j].id != a.windows[s].tabs[k].id);
    }
    if s != 0 {
        assert(a.windows[0].id != a.windows[s].id);
    }
}

/// A tab dropped outside every window gets a window of its own, with an
/// identifier that was not given out before. The window it came from keeps its
/// other tabs, every other window stays as it is. Only the single tab of a
/// window other than the first cannot be dragged out.
pub proof fn a_tab_dragged_out_gets_a_window_of_its_own(
    before: ApplicationView,
    source: WindowId,
    request: TabMoveRequest,
    after: ApplicationView,
    s: int,
    k: int,
)
    requires
        before.wf(),
        0 <= before.next_window_id < u64::MAX,
        0 <= before.next_tab_id < u64::MAX - 1,
        before.moves_to(source, request, after),
        moved_from(before, source, request.moved, s, k),
        request.target is None,
        s == 0 || before.windows[s].tabs.len() >= 2,
    ensures
        after.windows.len() == before.windows.len() + 1,
        after.windows.last().id.0 >= before.next_window_id,
        after.windows.last().tabs == seq![before.windows[s].tabs[k]],
        after.windows.last().active == request.moved,
        before.windows[s].tabs.len() >= 2 ==> gave_up(before.windows[s], k, after.windows[s]),
        before.windows[s].tabs.len() == 1 ==> back_on_launcher(
            before.windows[s],
            before.next_tab_id,
            after.windows[s],
        ),
        forall|i: int|
            0 <= i < before.windows.len() && i != s ==> (#[trigger] after.windows[i])
                == before.windows[i],
        !transfers(before, source, request),
{
    found_where_it_stands(before, source, request.moved, s, k);
    let tab = before.windows[s].tabs[k];
    let opened = before.detached(s, k).opened(after.windows.last().viewport, Some(tab));
    assert forall|j: int| 0 <= j < s implies (#[trigger] opened.windows[j]).id != source by {
        assert(opened.windows[j] == before.windows[j]);
    }
    window_position_found(opened.windows, source, s);
}

/// A tab dropped on another window joins it and comes to its front: directly
/// in front of the tab it was dropped before, or at the end. That window keeps
/// its own tabs in their order. The window the tab came from keeps its other
/// tabs; where it was the only one, the first window goes back to the launcher
/// and any other window is gone. Every other window stays as it is.
pub proof fn a_tab_dropped_on_a_window_joins_it(
    before: ApplicationView,
    source: WindowId,
    request: TabMoveRequest,
    after: ApplicationView,
    s: int,
    k: int,
    t: int,
)
    requires
        before.wf(),
        0 <= before.next_tab_id < u64::MAX,
        before.moves_to(source, request, after),
        moved_from(before, source, request.moved, s, k),
        0 <= t < before.windows.len(),
        t != s,
        request.target == Some(before.windows[t].viewport),
        forall|j: int|
            0 <= j < t ==> (#[trigger] before.windows[j]).viewport != before.windows[t].viewport,
    ensures
        ({
            let gone = s != 0 && before.windows[s].tabs.len() == 1;
            let place = |i: int|
                if gone && i > s {
                    i - 1
                } else {
                    i
                };
            let host = before.windows[t];
            let joined = after.windows[place(t)];
            &&& after.windows.len() == before.windows.len() - if gone {
                1int
            } else {
                0int
            }
            &&& joined.id == host.id
            &&& joined.viewport == host.viewport
            &&& joined.shell == host.shell
            &&& joined.active == request.moved
            &&& forall|q: int|
                0 <= q < host.tabs.len() && request.before == Some((#[trigger] host.tabs[q]).id)
                    ==> joined.tabs == host.tabs.insert(q, before.windows[s].tabs[k])
            &&& (forall|q: int|
                0 <= q < host.tabs.len() ==> request.before != Some((#[trigger] host.tabs[q]).id))
                ==> joined.tabs == host.tabs.push(before.windows[s].tabs[k])
            &&& before.windows[s].tabs.len() >= 2 ==> gave_up(
                before.windows[s],
                k,
                after.windows[s],
            )
            &&& s == 0 && before.windows[s].tabs.len() == 1 ==> back_on_launcher(
                before.windows[s],
                before.next_tab_id,
                after.windows[s],
            )
            &&& forall|i: int|
                0 <= i < before.windows.len() && i != s && i != t ==> after.windows[place(i)]
                    == (#[trigger] before.windows[i])
        }),
        transfers(before, source, request),
{
    found_where_it_stands(before, source, request.moved, s, k);
    viewport_position_is_first(before.windows, before.windows[t].viewport);
    let host = before.windows[t];
    let tab = before.windows[s].tabs[k];
    let adopted = before.detached(s, k).adopted(t, tab, request.before);
    assert(before.detached(s, k).windows[t] == host);
    assert forall|j: int| 0 <= j < s implies (#[trigger] adopted.windows[j]).id != source by {
        assert(before.windows[j].id != source);
    }
    window_position_found(adopted.windows, source, s);
    assert(host.wf());
    if let Some(id) = request.before {
        position_is_first(host.tabs, id);
        assert forall|q: int| 0 <= q < host.tabs.len() && id == (#[trigger] host.tabs[q]).id implies
            position(host.tabs, id) == Some(q) by {
            let p = position(host.tabs, id)->Some_0;
            if p != q {
                assert(host.tabs[p].id != host.tabs[q].id);
            }
        }
    }
    assert(host.tabs.insert(host.tabs.len() as int, tab) =~= host.tabs.push(tab));
}

/// Any other drop changes nothing: of a tab that the window does not hold, on
/// a window that is gone, on the window itself, or of the single tab of a window
/// other than the first outside every window.
pub proof fn other_drops_change_nothing(
    before: ApplicationView,
    source: WindowId,
    request: TabMoveRequest,
    after: ApplicationView,
)
    requires
        before.wf(),
        before.moves_to(source, request, after),
        ({
            ||| forall|s: int, k: int| !#[trigger] moved_from(before, source, request.moved, s, k)
            ||| request.target is Some && forall|t: int|
                0 <= t < before.windows.len() ==> (#[trigger] before.windows[t]).viewport
                    != request.target->Some_0
            ||| request.target is Some && exists|t: int|
                {
                    &&& 0 <= t < before.windows.len()
                    &&& (#[trigger] before.windows[t]).id == source
                    &&& before.windows[t].viewport == request.target->Some_0
                    &&& forall|j: int|
                        0 <= j < t ==> (#[trigger] before.windows[j]).viewport
                            != request.target->Some_0
                }
            ||| request.target is None && exists|s: int|
                {
                    &&& 0 < s < before.windows.len()
                    &&& (#[trigger] before.windows[s]).id == source
                    &&& before.windows[s].tabs.len() == 1
                }
        }),
    ensures
        after == before,
        !transfers(before, source, request),
{
    window_position_is_first(before.windows, source);
    if let Some(s) = window_position(before.windows, source) {
        position_is_first(before.windows[s].tabs, request.moved);
        if let Some(k) = position(before.windows[s].tabs, request.moved) {
            assert(moved_from(before, source, request.moved, s, k));
            if s > 0 {
                assert(before.windows[0].id != before.windows[s].id);
            }
            if let Some(viewport) = request.target {
                viewport_position_is_first(before.windows, viewport);
            }
        }
    }
}

/// A new window shares the first window's document, preferences and storage,
/// but restores nothing, asks nothing and is not on its way out. It opens on the
/// tab it was given, or on a launcher with a fresh identifier, and the windows
/// that were there stay as they are.
pub proof fn new_windows_share_the_document_and_nothing_else(
    before: ApplicationView,
    viewport: u64,
    detached: Option<Tab>,
)
    requires
        before.windows.len() > 0,
        0 <= before.next_window_id <= u64::MAX,
        0 <= before.next_tab_id <= u64::MAX,
    ensures
        ({
            let after = before.opened(viewport, detached);
            let first = before.windows[0].shell;
            let new = after.windows.last();
            &&& after.windows.drop_last() == before.windows
            &&& after.next_window_id == before.next_window_id + 1
            &&& after.next_tab_id == before.next_tab_id + 1
            &&& new.id.0 == before.next_window_id
            &&& new.viewport == viewport
            &&& new.tabs.len() == 1
            &&& new.active == new.tabs[0].id
            &&& detached is Some ==> new.tabs[0] == detached->Some_0
            &&& detached is None ==> new.tabs[0].content == TabContent::Launcher
                && new.tabs[0].restorable && new.tabs[0].id.0 == before.next_tab_id
            &&& new.shell.role == WindowRole::Secondary
            &&& new.shell.documents.configuration.profiles
                == first.documents.configuration.profiles
            &&& new.shell.documents.configuration.settings
                == first.documents.configuration.settings
            &&& new.shell.documents.settings == first.documents.configuration.settings
            &&& new.shell.documents.configuration.workspace is None
            &&& new.shell.documents.pending_restored is None
            &&& new.shell.documents.pending_broadcast is None
            &&& new.shell.documents.status == first.documents.status
            &&& new.shell.credentials.store == first.credentials.store
            &&& new.shell.credentials.feedback is None
            &&& !new.shell.overlays.blocking()
            &&& new.shell.overlays.transient_notice is None
            &&& !new.shell.exit.leaving()
            &&& !new.shell.exit.update_exit_requested
            &&& !new.shell.exit.update_restart_authorized
            &&& !new.shell.requests.open_window
            &&& new.shell.requests.move_tab is None
            &&& !new.shell.requests.save_workspace
            &&& !new.shell.requests.workspace_dirty
            &&& !new.shell.focus.palette_open
            &&& !new.shell.focus.inspector_open
            &&& !new.shell.focus.focus_mode
            &&& new.shell.focus.clipboard_paste is None
            &&& new.shell.focus.rename_restore_tab is None
        }),
{
    let after = before.opened(viewport, detached);
    assert(after.windows.drop_last() =~= before.windows);
}

/// The first window has the application's own title, and no other window has the
/// title of one.
pub proof fn windows_have_titles_of_their_own(a: WindowId, b: WindowId)
    ensures
        WindowId::primary().title_text() == APPLICATION_TITLE@,
        a.title_text() == b.title_text() <==> a == b,
        a != WindowId::primary() ==> a.title_text().take(APPLICATION_TITLE@.len() as int)
            == APPLICATION_TITLE@,
{
    reveal_strlit(" \u{2014} Window ");
    let title = APPLICATION_TITLE@;
    let head = title + " \u{2014} Window "@;
    if a != WindowId::primary() {
        assert(a.title_text() == head + decimal(a.0 as nat + 1));
        assert(a.title_text().take(title.len() as int) =~= title);
        assert(a.title_text().skip(head.len() as int) =~= decimal(a.0 as nat + 1));
    }
    if b != WindowId::primary() {
        assert(b.title_text() == head + decimal(b.0 as nat + 1));
        assert(b.title_text().skip(head.len() as int) =~= decimal(b.0 as nat + 1));
    }
    decimal_reads_back(a.0 as nat + 1);
    decimal_reads_back(b.0 as nat + 1);
}

/// A window is found by its viewport: the first that has it, and none where no
/// window has it.
pub proof fn windows_are_found_by_their_viewport(windows: Seq<WindowView>, viewport: u64, j: int)
    ensures
        match viewport_position(windows, viewport) {
            Some(i) => {
                &&& 0 <= i < windows.len()
                &&& windows[i].viewport == viewport
                &&& 0 <= j < i ==> windows[j].viewport != viewport
            },
            None => 0 <= j < windows.len() ==> windows[j].viewport != viewport,
        },
    decreases windows.len(),
{
    if windows.len() > 0 {
        windows_are_found_by_their_viewport(windows.drop_last(), viewport, j);
    }
}

} // verus!
