//! The live port-forward tool of an SSH tab.
use vstd::prelude::*;

use crate::app::FesTermApp;
#[allow(unused_imports)]
use crate::app::Shell;
use crate::commands::one_or_none;
#[allow(unused_imports)]
use crate::commands::at_most_one;
use crate::effects::Effect;
use crate::overlays::{LivePortForwardManager, OverlayState, PortForwardDirection};
#[allow(unused_imports)]
use crate::state::session_of;
use crate::state::TabId;
use crate::text::push_decimal;
#[allow(unused_imports)]
use crate::text::decimal;

verus! {

/// Where a forward was set up.
#[derive(Clone, Copy, Debug, PartialEq, Eq, Structural)]
pub enum PortForwardSource {
    Profile,
    Ephemeral,
}

#[derive(Clone, Copy, Debug, PartialEq, Eq, Structural)]
pub enum PortForwardState {
    Active,
    Failed,
}

/// A forward of a live session.
#[derive(Debug)]
pub struct PortForward {
    pub direction: PortForwardDirection,
    pub bind_host: String,
    pub bind_port: u16,
    pub destination_host: String,
    pub destination_port: u16,
    pub source: PortForwardSource,
    pub state: PortForwardState,
    pub failure_reason: Option<String>,
}

impl PortForwardDirection {
    pub open spec fn text(self) -> Seq<char> {
        match self {
            PortForwardDirection::Local => "Local"@,
            PortForwardDirection::Remote => "Remote"@,
        }
    }
}

pub fn port_forward_direction_label(direction: PortForwardDirection) -> (label: &'static str)
    ensures
        label@ == direction.text(),
{
    match direction {
        PortForwardDirection::Local => "Local",
        PortForwardDirection::Remote => "Remote",
    }
}

impl PortForwardSource {
    pub open spec fn text(self) -> Seq<char> {
        match self {
            PortForwardSource::Profile => "Profile"@,
            PortForwardSource::Ephemeral => "Ephemeral"@,
        }
    }
}

pub fn port_forward_source_label(source: PortForwardSource) -> (label: &'static str)
    ensures
        label@ == source.text(),
{
    match source {
        PortForwardSource::Profile => "Profile",
        PortForwardSource::Ephemeral => "Ephemeral",
    }
}

impl PortForwardState {
    pub open spec fn text(self) -> Seq<char> {
        match self {
            PortForwardState::Active => "Active"@,
            PortForwardState::Failed => "Failed"@,
        }
    }
}

pub fn port_forward_state_label(state: PortForwardState) -> (label: &'static str)
    ensures
        label@ == state.text(),
{
    match state {
        PortForwardState::Active => "Active",
        PortForwardState::Failed => "Failed",
    }
}

/// An endpoint of a forward, as it is written.
pub open spec fn endpoint_text(host: Seq<char>, port: nat) -> Seq<char> {
    host + ":"@ + decimal(port)
}

fn endpoint(prefix: &str, host: &String, port: u16) -> (text: String)
    ensures
        text@ == prefix@ + endpoint_text(host@, port as nat),
{
    let mut text = prefix.to_owned();
    text.append(host.as_str());
    text.append(":");
    push_decimal(&mut text, port as u128);
    assert(text@ =~= prefix@ + endpoint_text(host@, port as nat));
    text
}

/// One line of the tool's list.
pub struct ForwardRow {
    pub direction: &'static str,
    pub bind: String,
    pub destination: String,
    pub remove_label: String,
    pub source: &'static str,
    pub state: PortForwardState,
    pub state_label: &'static str,
    pub failure_reason: Option<String>,
}

/// `row` is the line of `forward`.
pub open spec fn lists(row: ForwardRow, forward: PortForward) -> bool {
    let bind = endpoint_text(forward.bind_host@, forward.bind_port as nat);
    &&& row.direction@ == forward.direction.text()
    &&& row.bind@ == bind
    &&& row.destination@ == endpoint_text(
        forward.destination_host@,
        forward.destination_port as nat,
    )
    &&& row.remove_label@ == "Remove forward "@ + bind
    &&& row.source@ == forward.source.text()
    &&& row.state == forward.state
    &&& row.state_label@ == forward.state.text()
    &&& row.failure_reason == forward.failure_reason
}

fn row_of(forward: &PortForward) -> (row: ForwardRow)
    ensures
        lists(row, *forward),
{
    let bind = endpoint("", &forward.bind_host, forward.bind_port);
    let destination = endpoint("", &forward.destination_host, forward.destination_port);
    proof {
        reveal_strlit("");
        assert(""@ + endpoint_text(forward.bind_host@, forward.bind_port as nat) =~= endpoint_text(
            forward.bind_host@,
            forward.bind_port as nat,
        ));
        assert(""@ + endpoint_text(forward.destination_host@, forward.destination_port as nat)
            =~= endpoint_text(forward.destination_host@, forward.destination_port as nat));
    }
    let failure_reason = match &forward.failure_reason {
        Some(reason) => Some(reason.clone()),
        None => None,
    };
    ForwardRow {
        direction: port_forward_direction_label(forward.direction),
        bind,
        destination,
        remove_label: endpoint("Remove forward ", &forward.bind_host, forward.bind_port),
        source: port_forward_source_label(forward.source),
        state: forward.state,
        state_label: port_forward_state_label(forward.state),
        failure_reason,
    }
}

/// What the tool shows of a session's forwards.
pub enum ForwardListing {
    /// The session is not connected.
    Unavailable,
    Empty,
    Rows(Vec<ForwardRow>),
}

/// What was clicked in the tool.
#[derive(Clone, Copy, Debug, PartialEq, Eq, Structural)]
pub enum ForwardClick {
    Nothing,
    Close,
    Remove(usize),
    Add,
}

impl FesTermApp {
    /// The list to draw, where the tool is open for a session that still exists.
    /// `forwards` are the session's.
    pub fn port_forward_listing(&self, forwards: &Vec<PortForward>) -> (listing: Option<
        ForwardListing,
    >)
        ensures
            match self.shell.overlays.port_forward_manager {
                None => listing is None,
                Some(manager) => match session_of(self.state.tabs@, manager.tab) {
                    None => listing is None,
                    Some(session) => {
                        &&& listing is Some
                        &&& match listing->Some_0 {
                            ForwardListing::Unavailable => !session.live_port_forwarding,
                            ForwardListing::Empty => session.live_port_forwarding
                                && forwards@.len() == 0,
                            ForwardListing::Rows(rows) => {
                                &&& session.live_port_forwarding
                                &&& forwards@.len() > 0
                                &&& rows@.len() == forwards@.len()
                                &&& forall|i: int|
                                    0 <= i < rows@.len() ==> lists(
                                        #[trigger] rows@[i],
                                        forwards@[i],
                                    )
                            },
                        }
                    },
                },
            },
    {
        let tab = match &self.shell.overlays.port_forward_manager {
            Some(manager) => manager.tab,
            None => return None,
        };
        let available = match self.state.session_tab(tab) {
            Some(session) => session.live_port_forwarding,
            None => return None,
        };
        if !available {
            return Some(ForwardListing::Unavailable);
        }
        if forwards.len() == 0 {
            return Some(ForwardListing::Empty);
        }
        let mut rows: Vec<ForwardRow> = Vec::new();
        let mut i: usize = 0;
        while i < forwards.len()
            invariant
                i <= forwards@.len(),
                rows@.len() == i,
                forall|k: int| 0 <= k < i ==> lists(#[trigger] rows@[k], forwards@[k]),
            decreases forwards@.len() - i,
        {
            rows.push(row_of(&forwards[i]));
            i = i + 1;
        }
        Some(ForwardListing::Rows(rows))
    }

    /// What the tool, where it is open, leads to. `draft` is what is wrong with
    /// the forward that has been filled in, if anything is.
    pub open spec fn forwards_outcome(self, click: ForwardClick, draft: Option<String>) -> (
        Self,
        Seq<Effect>,
    ) {
        match self.shell.overlays.port_forward_manager {
            None => (self, seq![]),
            Some(manager) => if session_of(self.state.tabs@, manager.tab) is None {
                (
                    self.with_overlays(
                        OverlayState { port_forward_manager: None, ..self.shell.overlays },
                    ),
                    seq![],
                )
            } else {
                match click {
                    ForwardClick::Nothing => (self, seq![]),
                    ForwardClick::Close => self.forwards_closed(),
                    ForwardClick::Remove(index) => (
                        self,
                        seq![Effect::RemovePortForward(manager.tab, index), Effect::Repaint],
                    ),
                    ForwardClick::Add => match draft {
                        Some(error) => (
                            self.with_overlays(
                                OverlayState {
                                    port_forward_manager: Some(
                                        LivePortForwardManager { error: Some(error), ..manager },
                                    ),
                                    ..self.shell.overlays
                                },
                            ),
                            seq![Effect::Repaint],
                        ),
                        None => (
                            self,
                            seq![Effect::AddPortForward(manager.tab), Effect::Repaint],
                        ),
                    },
                }
            },
        }
    }

    /// Takes in what was done in the tool. One whose session is gone closes.
    pub fn show_port_forward_manager(&mut self, click: ForwardClick, draft: Option<String>) -> (
    effects: Vec<Effect>)
        ensures
            (*final(self), effects@) == old(self).forwards_outcome(click, draft),
    {
        let tab = match &self.shell.overlays.port_forward_manager {
            Some(manager) => manager.tab,
            None => return one_or_none(None),
        };
        if self.state.session_tab(tab).is_none() {
            self.shell.overlays.port_forward_manager = None;
            return one_or_none(None);
        }
        match click {
            ForwardClick::Nothing => one_or_none(None),
            ForwardClick::Close => self.close_port_forward_manager(),
            ForwardClick::Remove(index) => {
                let mut effects = Vec::new();
                effects.push(Effect::RemovePortForward(tab, index));
                effects.push(Effect::Repaint);
                assert(effects@ =~= old(self).forwards_outcome(click, draft).1);
                effects
            },
            ForwardClick::Add => match draft {
                Some(error) => {
                    self.port_forward_result(tab, Some(error));
                    one_or_none(Some(Effect::Repaint))
                },
                None => {
                    let mut effects = Vec::new();
                    effects.push(Effect::AddPortForward(tab));
                    effects.push(Effect::Repaint);
                    assert(effects@ =~= old(self).forwards_outcome(click, draft).1);
                    effects
                },
            },
        }
    }

    /// Takes in how adding the forward that was filled in went: once it is
    /// added, the form is emptied.
    pub fn port_forward_added(&mut self, tab: TabId, error: Option<String>) -> (effect: Option<
        Effect,
    >)
        ensures
            effect == if error is None {
                Some(Effect::ResetPortForwardDraft)
            } else {
                None
            },
            *final(self) == match old(self).shell.overlays.port_forward_manager {
                Some(manager) => if manager.tab == tab {
                    old(self).with_overlays(
                        OverlayState {
                            port_forward_manager: Some(
                                LivePortForwardManager { error, ..manager },
                            ),
                            ..old(self).shell.overlays
                        },
                    )
                } else {
                    *old(self)
                },
                None => *old(self),
            },
    {
        let added = error.is_none();
        self.port_forward_result(tab, error);
        if added {
            Some(Effect::ResetPortForwardDraft)
        } else {
            None
        }
    }
}

/// Each row has its own removal: where the tool is open for a session, clicking
/// Remove in row `index` asks to remove that row of that session's tab and
/// nothing else, and removals in different rows, or for different tabs, differ.
pub proof fn the_clicked_row_is_removed(
    app: FesTermApp,
    other: FesTermApp,
    index: usize,
    other_index: usize,
    draft: Option<String>,
)
    requires
        app.shell.overlays.port_forward_manager is Some,
        session_of(app.state.tabs@, app.shell.overlays.port_forward_manager->Some_0.tab) is Some,
        other.shell.overlays.port_forward_manager is Some,
        session_of(
            other.state.tabs@,
            other.shell.overlays.port_forward_manager->Some_0.tab,
        ) is Some,
    ensures
        ({
            let tab = app.shell.overlays.port_forward_manager->Some_0.tab;
            let other_tab = other.shell.overlays.port_forward_manager->Some_0.tab;
            let (after, effects) = app.forwards_outcome(ForwardClick::Remove(index), draft);
            let (_, other_effects) = other.forwards_outcome(
                ForwardClick::Remove(other_index),
                draft,
            );
            &&& after == app
            &&& effects.contains(Effect::RemovePortForward(tab, index))
            &&& effects.contains(Effect::Repaint)
            &&& forall|i: int|
                0 <= i < effects.len() ==> {
                    ||| #[trigger] effects[i] == Effect::Repaint
                    ||| effects[i] == Effect::RemovePortForward(tab, index)
                }
            &&& effects == other_effects ==> index == other_index && tab == other_tab
        }),
{
    let tab = app.shell.overlays.port_forward_manager->Some_0.tab;
    let (_, effects) = app.forwards_outcome(ForwardClick::Remove(index), draft);
    let (_, other_effects) = other.forwards_outcome(ForwardClick::Remove(other_index), draft);
    assert(effects[0] == Effect::RemovePortForward(tab, index));
    assert(effects[1] == Effect::Repaint);
    assert(other_effects[0] is RemovePortForward);
}

/// A forward that is filled in rightly is added to the tool's tab and nowhere
/// else; a wrong one is added nowhere, and the tool says what is wrong. Either
/// way the tool stays open for its tab.
pub proof fn only_valid_drafts_are_added(app: FesTermApp, draft: Option<String>)
    requires
        app.shell.overlays.port_forward_manager is Some,
        session_of(app.state.tabs@, app.shell.overlays.port_forward_manager->Some_0.tab) is Some,
    ensures
        ({
            let manager = app.shell.overlays.port_forward_manager->Some_0;
            let (after, effects) = app.forwards_outcome(ForwardClick::Add, draft);
            let open = after.shell.overlays.port_forward_manager;
            &&& effects.contains(Effect::AddPortForward(manager.tab)) <==> draft is None
            &&& forall|i: int|
                0 <= i < effects.len() ==> {
                    ||| #[trigger] effects[i] == Effect::Repaint
                    ||| effects[i] == Effect::AddPortForward(manager.tab)
                }
            &&& effects.contains(Effect::Repaint)
            &&& open is Some
            &&& open->Some_0.tab == manager.tab
            &&& draft is Some ==> open->Some_0.error == draft
            &&& draft is None ==> open->Some_0 == manager
            &&& after.state == app.state
        }),
{
    let manager = app.shell.overlays.port_forward_manager->Some_0;
    let (_, effects) = app.forwards_outcome(ForwardClick::Add, draft);
    if draft is None {
        assert(effects[0] == Effect::AddPortForward(manager.tab));
        assert(effects[1] == Effect::Repaint);
    } else {
        assert(effects[0] == Effect::Repaint);
    }
}

/// The tool acts for a session that is there only: where it is closed, nothing
/// happens, and where its session is gone, it closes and nothing else happens,
/// whatever was clicked. Without a click it stays as it is.
pub proof fn the_tool_needs_its_session(app: FesTermApp, click: ForwardClick, draft: Option<String>)
    ensures
        ({
            let manager = app.shell.overlays.port_forward_manager;
            let (after, effects) = app.forwards_outcome(click, draft);
            &&& manager is None ==> after == app && effects.len() == 0
            &&& manager is Some && session_of(app.state.tabs@, manager->Some_0.tab) is None ==> {
                &&& effects.len() == 0
                &&& after.shell.overlays.port_forward_manager is None
                &&& after.state == app.state
                &&& after.shell.focus == app.shell.focus
            }
            &&& click == ForwardClick::Nothing && manager is Some && session_of(
                app.state.tabs@,
                manager->Some_0.tab,
            ) is Some ==> after == app && effects.len() == 0
            &&& click == ForwardClick::Close ==> after.shell.overlays.port_forward_manager is None
            &&& click == ForwardClick::Close ==> forall|i: int|
                0 <= i < effects.len() ==> (#[trigger] effects[i]) !is AddPortForward && effects[i]
                    !is RemovePortForward
        }),
{
}

/// A row shows the forward it stands for: two forwards with the same line have
/// the same endpoints as they are written, the same direction and state.
pub proof fn rows_tell_forwards_apart(row: ForwardRow, a: PortForward, b: PortForward)
    requires
        lists(row, a),
        lists(row, b),
    ensures
        a.direction == b.direction,
        a.source == b.source,
        a.state == b.state,
        a.failure_reason == b.failure_reason,
        endpoint_text(a.bind_host@, a.bind_port as nat) == endpoint_text(
            b.bind_host@,
            b.bind_port as nat,
        ),
{
    reveal_strlit("Local");
    reveal_strlit("Remote");
    reveal_strlit("Profile");
    reveal_strlit("Ephemeral");
    assert("Local"@.len() == 5 && "Remote"@.len() == 6);
    assert("Profile"@.len() == 7 && "Ephemeral"@.len() == 9);
}

} // verus!
