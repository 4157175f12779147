//! What happens between two passes over the windows: committed documents reach
//! every window, tabs change windows, windows open and close, and one
//! workspace is captured for all of them.
use std::sync::Arc;

use vstd::prelude::*;

#[allow(unused_imports)]
use crate::app::{DocumentState, Shell, WindowRequests};
use crate::app::TabMoveRequest;
use crate::configuration::{Configuration, Workspace};
#[allow(unused_imports)]
use crate::state::{Tab, TabId};
use crate::windows::{FesTermApplication, WindowId};
#[allow(unused_imports)]
use crate::workspace::covers;
#[allow(unused_imports)]
use crate::windows::{
    a_move_loses_no_tab, a_move_opens_at_most_one_window, holds, opened_is_coherent,
    removed_is_coherent, stands_at, tabs_differ, transfers, window_identifiers_are_never_reused, window_position, window_position_is_first,
    ApplicationView, WindowView,
};

verus! {

impl WindowView {
    /// The window with the document that it committed handed on.
    #[verifier::opaque]
    pub open spec fn handed_on(self) -> Self {
        WindowView {
            shell: Shell {
                documents: DocumentState { pending_broadcast: None, ..self.shell.documents },
                ..self.shell
            },
            ..self
        }
    }

    /// The window with another window's document.
    #[verifier::opaque]
    pub open spec fn adopting(self, configuration: Arc<Configuration>) -> Self {
        WindowView {
            shell: Shell {
                documents: DocumentState {
                    configuration,
                    settings: configuration.settings,
                    ..self.shell.documents
                },
                ..self.shell
            },
            ..self
        }
    }
}

/// The windows with the document of window `i` adopted by all the others.
pub open spec fn adopted_by_others(
    windows: Seq<WindowView>,
    i: int,
    configuration: Arc<Configuration>,
) -> Seq<WindowView> {
    Seq::new(
        windows.len(),
        |j: int|
            if j == i {
                windows[j].handed_on()
            } else {
                windows[j].adopting(configuration)
            },
    )
}

/// The windows once the documents committed in window `i` and those after it
/// have been handed round, one after the other.
pub open spec fn broadcast_from(windows: Seq<WindowView>, i: int) -> Seq<WindowView>
    decreases windows.len() - i,
{
    if i < 0 || i >= windows.len() {
        windows
    } else {
        match windows[i].shell.documents.pending_broadcast {
            Some(configuration) => broadcast_from(
                adopted_by_others(windows, i, configuration),
                i + 1,
            ),
            None => broadcast_from(windows, i + 1),
        }
    }
}

impl FesTermApplication {
    /// Takes the document that window `i` has committed.
    fn take_committed(&mut self, i: usize) -> (configuration: Option<Arc<Configuration>>)
        requires
            i < old(self).windows@.len(),
        ensures
            configuration == old(self)@.windows[i as int].shell.documents.pending_broadcast,
            final(self)@.windows == old(self)@.windows.update(
                i as int,
                old(self)@.windows[i as int].handed_on(),
            ),
            configuration is None ==> final(self)@.windows == old(self)@.windows,
            final(self).next_window_id == old(self).next_window_id,
            final(self).next_tab_id == old(self).next_tab_id,
    {
        let ghost before = self@.windows;
        let taken = self.windows[i].app.take_configuration_broadcast();
        proof {
            reveal(WindowView::handed_on);
            assert(self@.windows =~= before.update(i as int, before[i as int].handed_on()));
            if taken is None {
                assert(before[i as int].handed_on() == before[i as int]);
                assert(self@.windows =~= before);
            }
        }
        taken
    }

    /// Gives window `j` another window's document.
    fn give_document(&mut self, j: usize, configuration: &Arc<Configuration>)
        requires
            j < old(self).windows@.len(),
        ensures
            final(self)@.windows == old(self)@.windows.update(
                j as int,
                old(self)@.windows[j as int].adopting(*configuration),
            ),
            final(self).next_window_id == old(self).next_window_id,
            final(self).next_tab_id == old(self).next_tab_id,
    {
        let ghost before = self@.windows;
        self.windows[j].app.adopt_broadcast_configuration(configuration.clone());
        proof {
            reveal(WindowView::adopting);
            assert(self@.windows =~= before.update(
                j as int,
                before[j as int].adopting(*configuration),
            ));
        }
    }

    /// Hands every document that a window has committed to all the others.
    pub fn broadcast_committed_configuration(&mut self)
        ensures
            final(self)@ == (ApplicationView {
                windows: broadcast_from(old(self)@.windows, 0),
                ..old(self)@
            }),
    {
        let mut i: usize = 0;
        while i < self.windows.len()
            invariant
                i <= self.windows@.len(),
                self.next_window_id == old(self).next_window_id,
                self.next_tab_id == old(self).next_tab_id,
                broadcast_from(self@.windows, i as int) == broadcast_from(old(self)@.windows, 0),
            decreases self.windows@.len() - i,
        {
            let ghost before = self@.windows;
            if let Some(configuration) = self.take_committed(i) {
                let mut j: usize = 0;
                while j < self.windows.len()
                    invariant
                        i < before.len(),
                        j <= before.len(),
                        self@.windows.len() == before.len(),
                        self.next_window_id == old(self).next_window_id,
                        self.next_tab_id == old(self).next_tab_id,
                        self@.windows[i as int] == before[i as int].handed_on(),
                        forall|k: int|
                            0 <= k < j && k != i ==> (#[trigger] self@.windows[k])
                                == before[k].adopting(configuration),
                        forall|k: int|
                            j <= k < before.len() && k != i ==> (#[trigger] self@.windows[k])
                                == before[k],
                    decreases before.len() - j,
                {
                    if j != i {
                        self.give_document(j, &configuration);
                    }
                    j = j + 1;
                }
                assert(self@.windows =~= adopted_by_others(before, i as int, configuration));
            }
            i = i + 1;
        }
    }
}

/// What changes in a window that hands its document on.
proof fn handed_on_fields(w: WindowView)
    ensures
        w.handed_on() == (WindowView {
            shell: Shell {
                documents: DocumentState { pending_broadcast: None, ..w.shell.documents },
                ..w.shell
            },
            ..w
        }),
{
    reveal(WindowView::handed_on);
}

/// What changes in a window that adopts a document.
proof fn adopting_fields(w: WindowView, configuration: Arc<Configuration>)
    ensures
        w.adopting(configuration) == (WindowView {
            shell: Shell {
                documents: DocumentState {
                    configuration,
                    settings: configuration.settings,
                    ..w.shell.documents
                },
                ..w.shell
            },
            ..w
        }),
{
    reveal(WindowView::adopting);
}

/// A document that one window commits reaches every other window, and with it
/// the preferences in it apply there; nothing else about a window changes.
pub proof fn committed_document_reaches_every_window(windows: Seq<WindowView>, i: int, j: int)
    requires
        0 <= i < windows.len(),
        0 <= j < windows.len(),
        windows[i].shell.documents.pending_broadcast == Some(windows[i].shell.documents.configuration),
        forall|k: int|
            0 <= k < windows.len() && k != i ==> (
            #[trigger] windows[k]).shell.documents.pending_broadcast is None,
    ensures
        broadcast_from(windows, 0).len() == windows.len(),
        broadcast_from(windows, 0)[j] == (WindowView {
            shell: Shell {
                documents: DocumentState {
                    configuration: windows[i].shell.documents.configuration,
                    settings: if j == i {
                        windows[i].shell.documents.settings
                    } else {
                        windows[i].shell.documents.configuration.settings
                    },
                    pending_broadcast: None,
                    ..windows[j].shell.documents
                },
                ..windows[j].shell
            },
            ..windows[j]
        }),
{
    let after = adopted_by_others(windows, i, windows[i].shell.documents.configuration);
    quiet_until(windows, 0, i);
    assert forall|k: int| i + 1 <= k < after.len() implies (
    #[trigger] after[k]).shell.documents.pending_broadcast is None by {
        adopting_fields(windows[k], windows[i].shell.documents.configuration);
    }
    quiet_until(after, i + 1, after.len() as int);
    handed_on_fields(windows[j]);
    adopting_fields(windows[j], windows[i].shell.documents.configuration);
}

proof fn quiet_until(windows: Seq<WindowView>, i: int, n: int)
    requires
        0 <= i <= n <= windows.len(),
        forall|j: int|
            i <= j < n ==> (#[trigger] windows[j]).shell.documents.pending_broadcast is None,
    ensures
        broadcast_from(windows, i) == broadcast_from(windows, n),
    decreases n - i,
{
    if i < n {
        quiet_until(windows, i + 1, n);
    }
}

/// `after` is the window `before` with at most another document and its
/// preferences, and with no document left to hand on.
#[verifier::opaque]
pub open spec fn settled_document(before: WindowView, after: WindowView) -> bool {
    after == (WindowView {
        shell: Shell {
            documents: DocumentState {
                configuration: after.shell.documents.configuration,
                settings: after.shell.documents.settings,
                pending_broadcast: None,
                ..before.shell.documents
            },
            ..before.shell
        },
        ..before
    })
}

/// Once documents have been handed round, none is left to be: adopting a
/// document never makes a window hand it on, and nothing but the document and its
/// preferences changes.
pub proof fn broadcast_settles(windows: Seq<WindowView>, i: int)
    requires
        0 <= i <= windows.len(),
        forall|j: int|
            0 <= j < i ==> (#[trigger] windows[j]).shell.documents.pending_broadcast is None,
    ensures
        broadcast_from(windows, i).len() == windows.len(),
        forall|j: int|
            0 <= j < windows.len() ==> settled_document(
                windows[j],
                #[trigger] broadcast_from(windows, i)[j],
            ),
    decreases windows.len() - i,
{
    if i < windows.len() {
        match windows[i].shell.documents.pending_broadcast {
            Some(configuration) => {
                let next = adopted_by_others(windows, i, configuration);
                assert forall|j: int| 0 <= j < i + 1 implies (
                #[trigger] next[j]).shell.documents.pending_broadcast is None by {
                    handed_on_fields(windows[j]);
                    adopting_fields(windows[j], configuration);
                }
                broadcast_settles(next, i + 1);
                assert forall|j: int| 0 <= j < windows.len() implies settled_document(
                    windows[j],
                    #[trigger] broadcast_from(windows, i)[j],
                ) by {
                    assert(settled_document(next[j], broadcast_from(next, i + 1)[j]));
                    settled_after_adopting(
                        windows[j],
                        configuration,
                        broadcast_from(next, i + 1)[j],
                    );
                }
            },
            None => broadcast_settles(windows, i + 1),
        }
    } else {
        assert forall|j: int| 0 <= j < windows.len() implies settled_document(
            windows[j],
            #[trigger] broadcast_from(windows, i)[j],
        ) by {
            reveal(settled_document);
        }
    }
}

proof fn settled_after_adopting(
    window: WindowView,
    configuration: Arc<Configuration>,
    after: WindowView,
)
    requires
        settled_document(window.adopting(configuration), after) || settled_document(
            window.handed_on(),
            after,
        ),
    ensures
        settled_document(window, after),
{
    reveal(settled_document);
    handed_on_fields(window);
    adopting_fields(window, configuration);
}

impl WindowView {
    /// The window without its request to move a tab.
    pub open spec fn without_move(self) -> Self {
        WindowView {
            shell: Shell {
                requests: WindowRequests { move_tab: None, ..self.shell.requests },
                ..self.shell
            },
            ..self
        }
    }

    /// The window without its request for another window.
    pub open spec fn without_open(self) -> Self {
        WindowView {
            shell: Shell {
                requests: WindowRequests { open_window: false, ..self.shell.requests },
                ..self.shell
            },
            ..self
        }
    }

    /// The window without its request to save the workspace.
    pub open spec fn without_save(self) -> Self {
        WindowView {
            shell: Shell {
                requests: WindowRequests { save_workspace: false, ..self.shell.requests },
                ..self.shell
            },
            ..self
        }
    }

    /// The window stays at the end of a pass.
    pub open spec fn stays(self) -> bool {
        self.id == WindowId::primary() || !self.shell.exit.leaving()
    }
}

/// The moves that windows ask for, in the order of the windows.
pub open spec fn move_requests(windows: Seq<WindowView>) -> Seq<(WindowId, TabMoveRequest)>
    decreases windows.len(),
{
    if windows.len() == 0 {
        Seq::empty()
    } else {
        match windows.last().shell.requests.move_tab {
            Some(request) => move_requests(windows.drop_last()).push((windows.last().id, request)),
            None => move_requests(windows.drop_last()),
        }
    }
}

/// How many windows are asked for.
pub open spec fn open_requests(windows: Seq<WindowView>) -> nat
    decreases windows.len(),
{
    if windows.len() == 0 {
        0
    } else {
        open_requests(windows.drop_last()) + if windows.last().shell.requests.open_window {
            1nat
        } else {
            0nat
        }
    }
}

/// A window asks for the workspace to be saved.
pub open spec fn save_requested(windows: Seq<WindowView>) -> bool {
    exists|i: int| 0 <= i < windows.len() && (#[trigger] windows[i]).shell.requests.save_workspace
}

/// What moving tabs has asked of the windowing system so far: the viewports
/// that get the focus, and whether a window has come or gone.
pub struct MovesView {
    pub focus: Seq<u64>,
    pub repaint: bool,
}

/// `after` is what carrying the requests out one after the other leads to, and
/// `effects` what it asks of the windowing system.
pub open spec fn moves_all(
    before: ApplicationView,
    requests: Seq<(WindowId, TabMoveRequest)>,
    after: ApplicationView,
    effects: MovesView,
) -> bool
    decreases requests.len(),
{
    if requests.len() == 0 {
        after == before && effects.focus.len() == 0 && !effects.repaint
    } else {
        exists|between: ApplicationView, earlier: MovesView|
            {
                &&& moves_all(before, requests.drop_last(), between, earlier)
                &&& #[trigger] one_move(
                    between,
                    earlier,
                    requests.last().0,
                    requests.last().1,
                    after,
                    effects,
                )
            }
    }
}

/// `after` and `effects` are what one more request leads to.
pub open spec fn one_move(
    between: ApplicationView,
    earlier: MovesView,
    source: WindowId,
    request: TabMoveRequest,
    after: ApplicationView,
    effects: MovesView,
) -> bool {
    &&& between.moves_to(source, request, after)
    &&& effects.focus == if transfers(between, source, request) {
        earlier.focus.push(request.target->Some_0)
    } else {
        earlier.focus
    }
    &&& effects.repaint == (earlier.repaint || after.windows.len() != between.windows.len())
}

/// `after` is `before` with `count` further windows, each on the launcher.
pub open spec fn opens(before: ApplicationView, count: nat, after: ApplicationView) -> bool
    decreases count,
{
    if count == 0 {
        after == before
    } else {
        exists|between: ApplicationView|
            {
                &&& opens(before, (count - 1) as nat, between)
                &&& after.windows.len() > 0
                &&& after == #[trigger] between.opened(after.windows.last().viewport, None)
            }
    }
}

impl ApplicationView {
    /// Every window passed through `f`.
    pub open spec fn each(self, f: spec_fn(WindowView) -> WindowView) -> Self {
        ApplicationView { windows: self.windows.map_values(f), ..self }
    }

    /// The windows that stay.
    pub open spec fn without_finished(self) -> Self {
        ApplicationView { windows: self.windows.filter(|w: WindowView| w.stays()), ..self }
    }

    /// There are identifiers left for `count` more windows and twice as many tabs.
    pub open spec fn has_room(self, count: int) -> bool {
        &&& self.next_window_id + count < u64::MAX
        &&& self.next_tab_id + 2 * count < u64::MAX - 1
    }
}

proof fn move_requests_bounded(windows: Seq<WindowView>)
    ensures
        move_requests(windows).len() <= windows.len(),
        open_requests(windows) <= windows.len(),
    decreases windows.len(),
{
    if windows.len() > 0 {
        move_requests_bounded(windows.drop_last());
    }
}

proof fn moves_one_more(
    before: ApplicationView,
    requests: Seq<(WindowId, TabMoveRequest)>,
    between: ApplicationView,
    earlier: MovesView,
    source: WindowId,
    request: TabMoveRequest,
    after: ApplicationView,
    effects: MovesView,
)
    requires
        moves_all(before, requests, between, earlier),
        one_move(between, earlier, source, request, after, effects),
    ensures
        moves_all(before, requests.push((source, request)), after, effects),
{
    let more = requests.push((source, request));
    assert(more.drop_last() =~= requests);
    assert(one_move(between, earlier, more.last().0, more.last().1, after, effects));
}

proof fn opens_one_more(
    before: ApplicationView,
    count: nat,
    between: ApplicationView,
    after: ApplicationView,
)
    requires
        opens(before, count, between),
        after.windows.len() > 0,
        after == between.opened(after.windows.last().viewport, None),
    ensures
        opens(before, count + 1, after),
{
}

/// Changes to what windows ask for keep the application in order.
pub proof fn requests_do_not_matter(a: ApplicationView, b: ApplicationView)
    requires
        a.windows.len() == b.windows.len(),
        a.next_window_id == b.next_window_id,
        a.next_tab_id == b.next_tab_id,
        forall|i: int|
            0 <= i < a.windows.len() ==> {
                &&& (#[trigger] b.windows[i]).id == a.windows[i].id
                &&& b.windows[i].tabs == a.windows[i].tabs
                &&& b.windows[i].active == a.windows[i].active
            },
        a.wf(),
    ensures
        b.wf(),
{
    assert forall|i: int| 0 <= i < b.windows.len() implies {
        &&& (#[trigger] b.windows[i]).wf()
        &&& b.windows[i].id.0 < b.next_window_id
        &&& b.windows[i].tabs.len() > 0
    } by {
        assert(a.windows[i].wf());
    }
    assert forall|i: int, j: int| 0 <= i < j < b.windows.len() implies (#[trigger] b.windows[i]).id
        != (#[trigger] b.windows[j]).id by {
        assert(a.windows[i].id != a.windows[j].id);
    }
    assert forall|i: int, p: int|
        0 <= i < b.windows.len() && 0 <= p < b.windows[i].tabs.len() implies (
    #[trigger] b.windows[i].tabs[p]).id.0 < b.next_tab_id by {
        assert(b.windows[i].tabs[p] == a.windows[i].tabs[p]);
    }
    assert forall|i: int, p: int, j: int, q: int|
        0 <= i < b.windows.len() && 0 <= p < b.windows[i].tabs.len() && 0 <= j < b.windows.len()
            && 0 <= q < b.windows[j].tabs.len() implies #[trigger] tabs_differ(
        b.windows,
        i,
        p,
        j,
        q,
    ) by {
        assert(tabs_differ(a.windows, i, p, j, q));
    }
}

impl FesTermApplication {
    /// Carries out the moves that windows ask for. All requests are collected
    /// first, because carrying one out can close a window. The result says
    /// which viewports get the focus and whether to repaint.
    pub fn move_requested_tabs(&mut self) -> (effects: (Vec<u64>, bool))
        requires
            old(self)@.wf(),
            old(self)@.has_room(old(self)@.windows.len() as int),
        ensures
            final(self)@.wf(),
            moves_all(
                old(self)@.each(|w: WindowView| w.without_move()),
                move_requests(old(self)@.windows),
                final(self)@,
                MovesView { focus: effects.0@, repaint: effects.1 },
            ),
            final(self)@.windows.len() <= 2 * old(self)@.windows.len(),
            final(self).next_window_id <= old(self).next_window_id + old(self)@.windows.len(),
            final(self).next_tab_id <= old(self).next_tab_id + 2 * old(self)@.windows.len(),
    {
        let ghost start = self@;
        let mut requests: Vec<(WindowId, TabMoveRequest)> = Vec::new();
        let mut i: usize = 0;
        while i < self.windows.len()
            invariant
                i <= self.windows@.len(),
                self@.windows.len() == start.windows.len(),
                self@.next_window_id == start.next_window_id,
                self@.next_tab_id == start.next_tab_id,
                requests@ == move_requests(start.windows.take(i as int)),
                forall|k: int|
                    0 <= k < i ==> (#[trigger] self@.windows[k]) == start.windows[k].without_move(),
                forall|k: int|
                    i <= k < start.windows.len() ==> (#[trigger] self@.windows[k])
                        == start.windows[k],
            decreases self.windows@.len() - i,
        {
            let ghost before = self@.windows;
            let id = self.windows[i].id;
            let taken = self.windows[i].app.take_tab_move_request();
            proof {
                assert(before[i as int] == start.windows[i as int]);
                assert(self@.windows[i as int] == before[i as int].without_move());
                assert forall|k: int| 0 <= k < before.len() && k != i implies (
                #[trigger] self@.windows[k]) == before[k] by {}
                assert(start.windows.take(i + 1).drop_last() =~= start.windows.take(i as int));
                assert(start.windows.take(i + 1).last() == start.windows[i as int]);
            }
            if let Some(request) = taken {
                requests.push((id, request));
            }
            i = i + 1;
        }
        let ghost cleared = self@;
        proof {
            assert(start.windows.take(i as int) =~= start.windows);
            assert(cleared.windows =~= start.each(|w: WindowView| w.without_move()).windows);
            requests_do_not_matter(start, cleared);
            move_requests_bounded(start.windows);
        }
        let mut focus: Vec<u64> = Vec::new();
        let mut repaint = false;
        let mut n: usize = 0;
        assert(requests@.take(0) =~= Seq::empty());
        while n < requests.len()
            invariant
                n <= requests@.len() <= start.windows.len(),
                start.has_room(start.windows.len() as int),
                self@.wf(),
                moves_all(
                    cleared,
                    requests@.take(n as int),
                    self@,
                    MovesView { focus: focus@, repaint },
                ),
                self@.windows.len() <= start.windows.len() + n,
                self.next_window_id <= start.next_window_id + n,
                self.next_tab_id <= start.next_tab_id + 2 * n,
            decreases requests@.len() - n,
        {
            let ghost before = self@;
            let ghost earlier = MovesView { focus: focus@, repaint };
            let (source, request) = requests[n];
            let effects = self.move_tab(source, request);
            if let Some(viewport) = effects.focus {
                focus.push(viewport);
            }
            if effects.repaint {
                repaint = true;
            }
            proof {
                moves_one_more(
                    cleared,
                    requests@.take(n as int),
                    before,
                    earlier,
                    source,
                    request,
                    self@,
                    MovesView { focus: focus@, repaint },
                );
                assert(requests@.take(n as int).push((source, request)) =~= requests@.take(n + 1));
            }
            n = n + 1;
        }
        assert(requests@.take(n as int) =~= requests@);
        (focus, repaint)
    }
}

/// Opening windows on the launcher keeps the application in order.
proof fn opens_is_wf(before: ApplicationView, count: nat, after: ApplicationView)
    requires
        before.wf(),
        opens(before, count, after),
        0 <= before.next_window_id,
        0 <= before.next_tab_id,
        before.has_room(count as int),
    ensures
        after.wf(),
        after.windows.len() == before.windows.len() + count,
        after.next_window_id == before.next_window_id + count,
        after.next_tab_id == before.next_tab_id + count,
    decreases count,
{
    if count > 0 {
        let between = choose|between: ApplicationView|
            {
                &&& opens(before, (count - 1) as nat, between)
                &&& after.windows.len() > 0
                &&& after == #[trigger] between.opened(after.windows.last().viewport, None)
            };
        opens_is_wf(before, (count - 1) as nat, between);
        opened_is_coherent(between, after.windows.last().viewport, None);
    }
}

/// Dropping a window other than the first keeps the application in order.
proof fn removed_is_wf(a: ApplicationView, s: int)
    requires
        a.wf(),
        0 < s < a.windows.len(),
    ensures
        (ApplicationView { windows: a.windows.remove(s), ..a }).wf(),
{
    removed_is_coherent(a, s);
    let b = ApplicationView { windows: a.windows.remove(s), ..a };
    assert forall|i: int| 0 <= i < b.windows.len() implies (#[trigger] b.windows[i]).tabs.len()
        > 0 by {
        assert(b.windows[i] == a.windows[if i < s { i } else { i + 1 }]);
    }
}

impl FesTermApplication {
    /// Opens the windows that are asked for, each on the launcher.
    pub fn open_requested_windows(&mut self) -> (opened: bool)
        requires
            old(self)@.wf(),
            old(self)@.has_room(old(self)@.windows.len() as int),
        ensures
            final(self)@.wf(),
            opens(
                old(self)@.each(|w: WindowView| w.without_open()),
                open_requests(old(self)@.windows),
                final(self)@,
            ),
            opened == (open_requests(old(self)@.windows) > 0),
            final(self)@.windows.len() <= 2 * old(self)@.windows.len(),
            final(self).next_window_id <= old(self).next_window_id + old(self)@.windows.len(),
            final(self).next_tab_id <= old(self).next_tab_id + old(self)@.windows.len(),
    {
        let ghost start = self@;
        let mut requested: usize = 0;
        let mut i: usize = 0;
        while i < self.windows.len()
            invariant
                requested <= i <= self.windows@.len(),
                self@.windows.len() == start.windows.len(),
                self@.next_window_id == start.next_window_id,
                self@.next_tab_id == start.next_tab_id,
                requested == open_requests(start.windows.take(i as int)),
                forall|k: int|
                    0 <= k < i ==> (#[trigger] self@.windows[k]) == start.windows[k].without_open(),
                forall|k: int|
                    i <= k < start.windows.len() ==> (#[trigger] self@.windows[k])
                        == start.windows[k],
            decreases self.windows@.len() - i,
        {
            let ghost before = self@.windows;
            let taken = self.windows[i].app.take_window_open_request();
            proof {
                assert(before[i as int] == start.windows[i as int]);
                assert(self@.windows[i as int] == before[i as int].without_open());
                assert forall|k: int| 0 <= k < before.len() && k != i implies (
                #[trigger] self@.windows[k]) == before[k] by {}
                assert(start.windows.take(i + 1).drop_last() =~= start.windows.take(i as int));
                assert(start.windows.take(i + 1).last() == start.windows[i as int]);
            }
            if taken {
                requested = requested + 1;
            }
            i = i + 1;
        }
        let ghost cleared = self@;
        proof {
            assert(start.windows.take(i as int) =~= start.windows);
            assert(cleared.windows =~= start.each(|w: WindowView| w.without_open()).windows);
            requests_do_not_matter(start, cleared);
            move_requests_bounded(start.windows);
        }
        let mut n: usize = 0;
        while n < requested
            invariant
                n <= requested <= start.windows.len(),
                start.has_room(start.windows.len() as int),
                cleared.wf(),
                0 <= cleared.next_window_id == start.next_window_id,
                0 <= cleared.next_tab_id == start.next_tab_id,
                opens(cleared, n as nat, self@),
                self.windows@.len() > 0,
                self.next_window_id == start.next_window_id + n,
                self.next_tab_id == start.next_tab_id + n,
            decreases requested - n,
        {
            let ghost before = self@;
            let _index = self.open_window(None);
            proof {
                opens_one_more(cleared, n as nat, before, self@);
            }
            n = n + 1;
        }
        proof {
            opens_is_wf(cleared, requested as nat, self@);
        }
        requested > 0
    }

    /// Drops the windows whose close has been accepted. The first window stays:
    /// its close is the end of the application.
    pub fn close_finished_windows(&mut self) -> (closed: bool)
        requires
            old(self)@.wf(),
        ensures
            final(self)@.wf(),
            final(self)@ == old(self)@.without_finished(),
            closed == (final(self)@.windows.len() != old(self)@.windows.len()),
            final(self)@.windows.len() <= old(self)@.windows.len(),
    {
        let ghost start = self@;
        let ghost count = self@.windows.len();
        let mut closed = false;
        let mut i: usize = 0;
        let ghost mut seen: int = 0;
        proof {
            assert(start.windows.take(0).filter(|w: WindowView| w.stays()) =~= Seq::empty()) by {
                reveal(Seq::filter);
            }
            assert(start.windows.skip(0) =~= start.windows);
        }
        while i < self.windows.len()
            invariant
                i <= self.windows@.len(),
                0 <= seen <= start.windows.len(),
                self@.windows.len() == i + (start.windows.len() - seen),
                i <= seen,
                closed == (i < seen),
                self@.next_window_id == start.next_window_id,
                self@.next_tab_id == start.next_tab_id,
                self@.windows.take(i as int) == start.windows.take(seen).filter(
                    |w: WindowView| w.stays(),
                ),
                self@.windows.skip(i as int) == start.windows.skip(seen),
                self@.wf(),
            decreases self.windows@.len() - i,
        {
            let ghost before = self@;
            let accepted = self.windows[i].app.window_close_accepted();
            let primary = self.windows[i].id.is_primary();
            proof {
                let w = before.windows[i as int];
                assert(w == self.windows@[i as int]@);
                assert(before.windows.skip(i as int)[0] == w);
                assert(start.windows.skip(seen)[0] == start.windows[seen]);
                assert(start.windows[seen] == w);
                assert(start.windows.take(seen + 1).drop_last() =~= start.windows.take(seen));
                assert(start.windows.take(seen + 1).last() == w);
                assert(start.windows.take(seen + 1).filter(|w: WindowView| w.stays()) == if w.stays() {
                    start.windows.take(seen).filter(|w: WindowView| w.stays()).push(w)
                } else {
                    start.windows.take(seen).filter(|w: WindowView| w.stays())
                }) by {
                    reveal(Seq::filter);
                }
                assert(before.windows.skip(i as int).skip(1) =~= start.windows.skip(seen + 1));
            }
            if accepted && !primary {
                proof {
                    assert(i > 0) by {
                        assert(before.windows[0].id == WindowId::primary());
                    }
                    removed_is_wf(before, i as int);
                }
                let _window = self.windows.remove(i);
                closed = true;
                proof {
                    assert(self@.windows =~= before.windows.remove(i as int));
                    assert(self@.windows.take(i as int) =~= before.windows.take(i as int));
                    assert(self@.windows.skip(i as int) =~= before.windows.skip(i as int).skip(1));
                }
            } else {
                proof {
                    assert(self@.windows.take(i + 1) =~= before.windows.take(i as int).push(
                        before.windows[i as int],
                    ));
                    assert(self@.windows.skip(i + 1) =~= before.windows.skip(i as int).skip(1));
                }
                i = i + 1;
            }
            proof {
                seen = seen + 1;
            }
        }
        proof {
            assert(self@.windows.skip(i as int).len() == 0);
            assert(seen == start.windows.len());
            assert(start.windows.take(seen) =~= start.windows);
            assert(self@.windows.take(i as int) =~= self@.windows);
        }
        closed
    }
}

/// What the end of a pass asks of the windowing system and of the first window.
pub struct SettleEffects {
    /// The viewports that get the focus, in this order.
    pub focus: Vec<u64>,
    pub repaint: bool,
    /// The workspace that the first window is to write.
    pub workspace: Option<Workspace>,
}

impl ApplicationView {
    /// The application once committed documents have been handed round.
    pub open spec fn with_documents_shared(self) -> Self {
        ApplicationView { windows: broadcast_from(self.windows, 0), ..self }
    }
}

/// `after` and `effects` are what the end of a pass leads to, by way of `moved`
/// (tabs have changed windows) and `opened` (windows have opened).
pub open spec fn settles(
    before: ApplicationView,
    moved: ApplicationView,
    moves: MovesView,
    opened: ApplicationView,
    after: ApplicationView,
    effects: SettleEffects,
) -> bool {
    let shared = before.with_documents_shared();
    let closed = opened.without_finished();
    &&& moves_all(
        shared.each(|w: WindowView| w.without_move()),
        move_requests(shared.windows),
        moved,
        moves,
    )
    &&& opens(
        moved.each(|w: WindowView| w.without_open()),
        open_requests(moved.windows),
        opened,
    )
    &&& after == closed.each(|w: WindowView| w.without_save())
    &&& effects.focus@ == moves.focus
    &&& effects.repaint == (moves.repaint || open_requests(moved.windows) > 0
        || closed.windows.len() != opened.windows.len())
    &&& match effects.workspace {
        Some(workspace) => {
            &&& save_requested(closed.windows)
            &&& closed.windows[0].shell.documents.settings.restore_workspace
            &&& covers(workspace, closed.windows)
        },
        None => !save_requested(closed.windows)
            || !closed.windows[0].shell.documents.settings.restore_workspace,
    }
}

impl FesTermApplication {
    /// Ends a pass: hands committed documents round, moves tabs, opens and
    /// closes windows, and lists the workspace where one is to be saved.
    pub fn settle_windows(&mut self) -> (effects: SettleEffects)
        requires
            old(self)@.wf(),
            old(self)@.has_room(4 * old(self)@.windows.len() as int),
        ensures
            final(self)@.wf(),
            exists|moved: ApplicationView, moves: MovesView, opened: ApplicationView| #[trigger]
                settles(old(self)@, moved, moves, opened, final(self)@, effects),
            numbered_since(old(self)@, final(self)@),
    {
        let ghost before = self@;
        self.broadcast_committed_configuration();
        proof {
            broadcast_settles(before.windows, 0);
            assert forall|i: int| 0 <= i < before.windows.len() implies {
                &&& (#[trigger] self@.windows[i]).id == before.windows[i].id
                &&& self@.windows[i].tabs == before.windows[i].tabs
                &&& self@.windows[i].active == before.windows[i].active
            } by {
                assert(settled_document(before.windows[i], broadcast_from(before.windows, 0)[i]));
                reveal(settled_document);
            }
            requests_do_not_matter(before, self@);
        }
        let (focus, moves_repaint) = self.move_requested_tabs();
        let ghost moved = self@;
        let ghost moves = MovesView { focus: focus@, repaint: moves_repaint };
        let opened_any = self.open_requested_windows();
        let ghost opened = self@;
        let closed_any = self.close_finished_windows();
        let workspace = self.save_workspace_if_requested();
        let effects = SettleEffects {
            focus,
            repaint: moves_repaint || opened_any || closed_any,
            workspace,
        };
        assert(settles(before, moved, moves, opened, self@, effects));
        proof {
            passes_never_reuse_identifiers(before, moved, moves, opened, self@, effects);
        }
        effects
    }
}

/// No identifier has been given out again since `before`: the counter has not
/// fallen, and every window was there then or has an identifier not given out
/// then.
pub open spec fn numbered_since(before: ApplicationView, after: ApplicationView) -> bool {
    &&& after.next_window_id >= before.next_window_id
    &&& forall|i: int|
        0 <= i < after.windows.len() ==> window_position(
            before.windows,
            (#[trigger] after.windows[i]).id,
        ) is Some || after.windows[i].id.0 >= before.next_window_id
}

/// Windows that keep their identifiers keep their numbers.
proof fn same_numbers(before: ApplicationView, between: ApplicationView, after: ApplicationView)
    requires
        numbered_since(before, between),
        after.next_window_id == between.next_window_id,
        forall|i: int|
            0 <= i < after.windows.len() ==> exists|j: int|
                0 <= j < between.windows.len() && (#[trigger] between.windows[j]).id == (
                #[trigger] after.windows[i]).id,
    ensures
        numbered_since(before, after),
{
}

proof fn moves_never_reuse_identifiers(
    before: ApplicationView,
    start: ApplicationView,
    requests: Seq<(WindowId, TabMoveRequest)>,
    after: ApplicationView,
    effects: MovesView,
)
    requires
        moves_all(start, requests, after, effects),
        numbered_since(before, start),
        0 <= before.next_window_id,
        0 <= start.next_window_id,
        start.next_window_id + requests.len() < u64::MAX,
    ensures
        numbered_since(before, after),
        after.next_window_id <= start.next_window_id + requests.len(),
        after.windows.len() <= start.windows.len() + requests.len(),
    decreases requests.len(),
{
    if requests.len() > 0 {
        let (source, request) = requests.last();
        let (between, earlier) = choose|between: ApplicationView, earlier: MovesView|
            {
                &&& moves_all(start, requests.drop_last(), between, earlier)
                &&& #[trigger] one_move(between, earlier, source, request, after, effects)
            };
        moves_never_reuse_identifiers(before, start, requests.drop_last(), between, earlier);
        assert(between.moves_to(source, request, after));
        a_move_opens_at_most_one_window(between, source, request, after);
        assert forall|i: int| 0 <= i < after.windows.len() implies window_position(
            before.windows,
            (#[trigger] after.windows[i]).id,
        ) is Some || after.windows[i].id.0 >= before.next_window_id by {
            window_identifiers_are_never_reused(between, source, request, after, i);
            window_position_is_first(between.windows, after.windows[i].id);
        }
    }
}

proof fn openings_never_reuse_identifiers(
    before: ApplicationView,
    start: ApplicationView,
    count: nat,
    after: ApplicationView,
)
    requires
        opens(start, count, after),
        numbered_since(before, start),
        0 <= start.next_window_id,
        start.next_window_id + count < u64::MAX,
    ensures
        numbered_since(before, after),
        after.next_window_id == start.next_window_id + count,
        after.windows.len() == start.windows.len() + count,
        after.windows.take(start.windows.len() as int) == start.windows,
        forall|i: int|
            start.windows.len() <= i < after.windows.len() ==> {
                &&& (#[trigger] after.windows[i]).id.0 >= start.next_window_id
                &&& after.windows[i].tabs.len() == 1
                &&& after.windows[i].tabs[0].content is Launcher
            },
    decreases count,
{
    if count == 0 {
        assert(after.windows.take(start.windows.len() as int) =~= start.windows);
    } else {
        let between = choose|between: ApplicationView|
            {
                &&& opens(start, (count - 1) as nat, between)
                &&& after.windows.len() > 0
                &&& after == #[trigger] between.opened(after.windows.last().viewport, None)
            };
        openings_never_reuse_identifiers(before, start, (count - 1) as nat, between);
        assert forall|i: int| 0 <= i < between.windows.len() implies after.windows[i]
            == between.windows[i] by {}
        assert(after.windows.take(start.windows.len() as int) =~= between.windows.take(
            start.windows.len() as int,
        ));
        assert forall|i: int| 0 <= i < after.windows.len() implies window_position(
            before.windows,
            (#[trigger] after.windows[i]).id,
        ) is Some || after.windows[i].id.0 >= before.next_window_id by {
            if i < between.windows.len() {
                assert(after.windows[i] == between.windows[i]);
            }
        }
        assert forall|i: int| start.windows.len() <= i < after.windows.len() implies {
            &&& (#[trigger] after.windows[i]).id.0 >= start.next_window_id
            &&& after.windows[i].tabs.len() == 1
            &&& after.windows[i].tabs[0].content is Launcher
        } by {
            if i < between.windows.len() {
                assert(after.windows[i] == between.windows[i]);
            }
        }
    }
}

proof fn filtered_windows_were_there(windows: Seq<WindowView>, i: int)
    requires
        0 <= i < windows.filter(|w: WindowView| w.stays()).len(),
    ensures
        windows.filter(|w: WindowView| w.stays())[i].stays(),
        exists|j: int|
            0 <= j < windows.len() && #[trigger] windows[j] == windows.filter(
                |w: WindowView| w.stays(),
            )[i],
    decreases windows.len(),
{
    reveal(Seq::filter);
    if windows.len() > 0 {
        let rest = windows.drop_last();
        if i < rest.filter(|w: WindowView| w.stays()).len() {
            filtered_windows_were_there(rest, i);
            let j = choose|j: int|
                0 <= j < rest.len() && #[trigger] rest[j] == rest.filter(
                    |w: WindowView| w.stays(),
                )[i];
            assert(windows[j] == rest[j]);
        } else {
            assert(windows[windows.len() - 1] == windows.last());
        }
    }
}

/// Over a whole pass, no identifier is given out again: the counter never falls,
/// and a window that was not there before has an identifier not given out before.
/// Every window but the first whose close was accepted is gone, and every window
/// that was asked for has opened, on the launcher alone.
pub proof fn passes_never_reuse_identifiers(
    before: ApplicationView,
    moved: ApplicationView,
    moves: MovesView,
    opened: ApplicationView,
    after: ApplicationView,
    effects: SettleEffects,
)
    requires
        before.wf(),
        before.has_room(4 * before.windows.len() as int),
        0 <= before.next_window_id,
        settles(before, moved, moves, opened, after, effects),
    ensures
        numbered_since(before, after),
        opened.windows.len() == moved.windows.len() + open_requests(moved.windows),
        forall|i: int|
            moved.windows.len() <= i < opened.windows.len() ==> {
                &&& (#[trigger] opened.windows[i]).id.0 >= before.next_window_id
                &&& opened.windows[i].tabs.len() == 1
                &&& opened.windows[i].tabs[0].content is Launcher
            },
        forall|i: int| 0 <= i < after.windows.len() ==> (#[trigger] after.windows[i]).stays(),
{
    let shared = before.with_documents_shared();
    let asked = shared.each(|w: WindowView| w.without_move());
    broadcast_settles(before.windows, 0);
    assert forall|i: int| 0 <= i < before.windows.len() implies window_position(
        before.windows,
        (#[trigger] before.windows[i]).id,
    ) is Some by {
        window_position_is_first(before.windows, before.windows[i].id);
    }
    assert forall|i: int| 0 <= i < asked.windows.len() implies (#[trigger] asked.windows[i]).id
        == before.windows[i].id by {
        assert(settled_document(before.windows[i], broadcast_from(before.windows, 0)[i]));
        reveal(settled_document);
    }
    assert(numbered_since(before, asked));
    move_requests_bounded(shared.windows);
    moves_never_reuse_identifiers(before, asked, move_requests(shared.windows), moved, moves);
    let quiet = moved.each(|w: WindowView| w.without_open());
    assert forall|i: int| 0 <= i < quiet.windows.len() implies (#[trigger] quiet.windows[i]).id
        == moved.windows[i].id by {}
    assert(numbered_since(before, quiet));
    move_requests_bounded(moved.windows);
    openings_never_reuse_identifiers(before, quiet, open_requests(moved.windows), opened);
    let closed = opened.without_finished();
    assert forall|i: int| 0 <= i < after.windows.len() implies {
        &&& (#[trigger] after.windows[i]).stays()
        &&& exists|j: int|
            0 <= j < opened.windows.len() && (#[trigger] opened.windows[j]).id
                == after.windows[i].id
    } by {
        filtered_windows_were_there(opened.windows, i);
        let j = choose|j: int|
            0 <= j < opened.windows.len() && #[trigger] opened.windows[j] == closed.windows[i];
        assert(opened.windows[j].id == after.windows[i].id);
    }
    same_numbers(before, opened, after);
}

/// Every move that a window asks for is carried out, once and in the order of
/// the windows, and none that nobody asked for.
pub proof fn every_requested_move_is_made(windows: Seq<WindowView>)
    ensures
        move_requests(windows) == windows.filter(
            |w: WindowView| w.shell.requests.move_tab is Some,
        ).map_values(|w: WindowView| (w.id, w.shell.requests.move_tab->Some_0)),
    decreases windows.len(),
{
    reveal(Seq::filter);
    let asks = |w: WindowView| w.shell.requests.move_tab is Some;
    let request = |w: WindowView| (w.id, w.shell.requests.move_tab->Some_0);
    if windows.len() == 0 {
        assert(windows.filter(asks).map_values(request) =~= Seq::empty());
    } else {
        every_requested_move_is_made(windows.drop_last());
        let rest = windows.drop_last().filter(asks);
        assert(rest.push(windows.last()).map_values(request) =~= rest.map_values(request).push(
            request(windows.last()),
        ));
    }
}

/// As many windows open as ask for one.
pub proof fn every_requested_window_is_opened(windows: Seq<WindowView>)
    ensures
        open_requests(windows) == windows.filter(
            |w: WindowView| w.shell.requests.open_window,
        ).len(),
    decreases windows.len(),
{
    reveal(Seq::filter);
    if windows.len() > 0 {
        every_requested_window_is_opened(windows.drop_last());
    }
}

/// Any window can ask for the workspace to be saved, and it is saved only where
/// one does.
pub proof fn any_window_can_ask_for_a_save(windows: Seq<WindowView>, i: int)
    ensures
        0 <= i < windows.len() && windows[i].shell.requests.save_workspace ==> save_requested(
            windows,
        ),
        (forall|k: int|
            0 <= k < windows.len() ==> !(#[trigger] windows[k]).shell.requests.save_workspace)
            ==> !save_requested(windows),
{
}

/// A request that is taken is gone, and nothing else about the window changes.
pub proof fn taken_requests_are_gone(w: WindowView)
    ensures
        w.without_move().shell.requests.move_tab is None,
        !w.without_open().shell.requests.open_window,
        !w.without_save().shell.requests.save_workspace,
        w.without_move().shell.requests.open_window == w.shell.requests.open_window,
        w.without_move().shell.requests.save_workspace == w.shell.requests.save_workspace,
        w.without_open().shell.requests.move_tab == w.shell.requests.move_tab,
        w.without_open().shell.requests.save_workspace == w.shell.requests.save_workspace,
        w.without_save().shell.requests.move_tab == w.shell.requests.move_tab,
        w.without_save().shell.requests.open_window == w.shell.requests.open_window,
        forall|other: WindowView|
            other == w.without_move() || other == w.without_open() || other == w.without_save()
                ==> #[trigger] same_but_for_requests(w, other),
{
}

/// `b` is `a` with other requests at most.
pub open spec fn same_but_for_requests(a: WindowView, b: WindowView) -> bool {
    b == (WindowView { shell: Shell { requests: b.shell.requests, ..a.shell }, ..a })
}

/// The first window stays at the end of a pass, whatever has been asked of it;
/// any other goes exactly where its close was accepted or confirmed. Those that
/// stay keep their order and everything in them.
pub proof fn only_closed_windows_go(a: ApplicationView, i: int)
    requires
        a.wf(),
        0 <= i < a.windows.len(),
    ensures
        i == 0 ==> a.windows[i].stays(),
        i > 0 ==> (a.windows[i].stays() <==> !(a.windows[i].shell.exit.window_close_accepted
            || a.windows[i].shell.exit.quit_confirmed)),
        a.windows[i].stays() <==> a.without_finished().windows.contains(a.windows[i]),
        a.without_finished().windows == a.windows.filter(|w: WindowView| w.stays()),
        a.without_finished().next_window_id == a.next_window_id,
        a.without_finished().next_tab_id == a.next_tab_id,
{
    broadcast use vstd::seq_lib::group_filter_ensures;

    if i > 0 {
        assert(a.windows[0].id != a.windows[i].id);
    }
    let left = a.windows.filter(|w: WindowView| w.stays());
    if a.windows[i].stays() {
        assert(a.windows.contains(a.windows[i]));
    }
    if left.contains(a.windows[i]) {
        let j = choose|j: int| 0 <= j < left.len() && left[j] == a.windows[i];
        filtered_stay(a.windows, j);
    }
}

proof fn filtered_stay(windows: Seq<WindowView>, j: int)
    requires
        0 <= j < windows.filter(|w: WindowView| w.stays()).len(),
    ensures
        windows.filter(|w: WindowView| w.stays())[j].stays(),
    decreases windows.len(),
{
    reveal(Seq::filter);
    let rest = windows.drop_last().filter(|w: WindowView| w.stays());
    if j < rest.len() {
        filtered_stay(windows.drop_last(), j);
    }
}

/// A single request is carried out as it would be on its own; without one
/// nothing moves.
pub proof fn a_single_request_is_one_move(
    before: ApplicationView,
    source: WindowId,
    request: TabMoveRequest,
    after: ApplicationView,
    effects: MovesView,
)
    ensures
        moves_all(before, seq![(source, request)], after, effects) ==> before.moves_to(
            source,
            request,
            after,
        ) && effects.focus == if transfers(before, source, request) {
            seq![request.target->Some_0]
        } else {
            seq![]
        },
        moves_all(before, seq![], after, effects) ==> after == before && effects.focus.len() == 0
            && !effects.repaint,
{
    let requests = seq![(source, request)];
    if moves_all(before, requests, after, effects) {
        let (between, earlier) = choose|between: ApplicationView, earlier: MovesView|
            {
                &&& moves_all(before, requests.drop_last(), between, earlier)
                &&& #[trigger] one_move(
                    between,
                    earlier,
                    requests.last().0,
                    requests.last().1,
                    after,
                    effects,
                )
            };
        assert(requests.drop_last() =~= Seq::empty());
        assert(between == before);
        assert(earlier.focus =~= Seq::<u64>::empty());
        assert(earlier.focus.push(request.target->Some_0) =~= seq![request.target->Some_0]);
    }
}

proof fn moves_lose_no_tab(
    before: ApplicationView,
    requests: Seq<(WindowId, TabMoveRequest)>,
    after: ApplicationView,
    effects: MovesView,
    tab: Tab,
)
    requires
        moves_all(before, requests, after, effects),
        holds(before, tab),
    ensures
        holds(after, tab),
    decreases requests.len(),
{
    if requests.len() > 0 {
        let (between, earlier) = choose|between: ApplicationView, earlier: MovesView|
            {
                &&& moves_all(before, requests.drop_last(), between, earlier)
                &&& #[trigger] one_move(
                    between,
                    earlier,
                    requests.last().0,
                    requests.last().1,
                    after,
                    effects,
                )
            };
        moves_lose_no_tab(before, requests.drop_last(), between, earlier, tab);
        a_move_loses_no_tab(between, requests.last().0, requests.last().1, after, tab);
    }
}

proof fn openings_lose_no_tab(
    before: ApplicationView,
    count: nat,
    after: ApplicationView,
    tab: Tab,
)
    requires
        opens(before, count, after),
        holds(before, tab),
    ensures
        holds(after, tab),
    decreases count,
{
    if count > 0 {
        let between = choose|between: ApplicationView|
            {
                &&& opens(before, (count - 1) as nat, between)
                &&& after.windows.len() > 0
                &&& after == #[trigger] between.opened(after.windows.last().viewport, None)
            };
        openings_lose_no_tab(before, (count - 1) as nat, between, tab);
        let (i, p) = choose|i: int, p: int| #[trigger] stands_at(between, tab, i, p);
        assert(stands_at(after, tab, i, p));
    }
}

/// A whole pass loses no tab but those of windows whose close was accepted:
/// whatever a window held before, with its session and all, some window holds
/// once documents have been handed round, tabs moved and windows opened, and also
/// at the end where that window stays.
pub proof fn passes_lose_no_tab(
    before: ApplicationView,
    moved: ApplicationView,
    moves: MovesView,
    opened: ApplicationView,
    after: ApplicationView,
    effects: SettleEffects,
    tab: Tab,
)
    requires
        settles(before, moved, moves, opened, after, effects),
        holds(before, tab),
    ensures
        holds(opened, tab),
        (forall|i: int| 0 <= i < opened.windows.len() ==> (#[trigger] opened.windows[i]).stays())
            ==> holds(after, tab),
{
    let shared = before.with_documents_shared();
    broadcast_settles(before.windows, 0);
    let (i, p) = choose|i: int, p: int| #[trigger] stands_at(before, tab, i, p);
    assert(settled_document(before.windows[i], broadcast_from(before.windows, 0)[i]));
    reveal(settled_document);
    let quiet = shared.each(|w: WindowView| w.without_move());
    assert(stands_at(quiet, tab, i, p));
    moves_lose_no_tab(quiet, move_requests(shared.windows), moved, moves, tab);
    let (j, q) = choose|j: int, q: int| #[trigger] stands_at(moved, tab, j, q);
    let ready = moved.each(|w: WindowView| w.without_open());
    assert(stands_at(ready, tab, j, q));
    openings_lose_no_tab(ready, open_requests(moved.windows), opened, tab);
    if forall|k: int| 0 <= k < opened.windows.len() ==> (#[trigger] opened.windows[k]).stays() {
        all_stay(opened.windows);
        let (k, r) = choose|k: int, r: int| #[trigger] stands_at(opened, tab, k, r);
        assert(stands_at(after, tab, k, r));
    }
}

proof fn all_stay(windows: Seq<WindowView>)
    requires
        forall|k: int| 0 <= k < windows.len() ==> (#[trigger] windows[k]).stays(),
    ensures
        windows.filter(|w: WindowView| w.stays()) == windows,
    decreases windows.len(),
{
    reveal(Seq::filter);
    if windows.len() > 0 {
        let rest = windows.drop_last();
        assert forall|k: int| 0 <= k < rest.len() implies (#[trigger] rest[k]).stays() by {
            assert(windows[k].stays());
        }
        all_stay(rest);
        assert(windows[windows.len() - 1].stays());
        assert(rest.push(windows.last()) =~= windows);
    }
}

} // verus!
