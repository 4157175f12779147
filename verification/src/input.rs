//! One frame's input: in which order events reach shortcuts and the terminal,
//! which of them wait for the next frame, and which are dropped together with
//! a clipboard read that they were waiting behind.
use vstd::prelude::*;

use crate::app::{FesTermApp, FocusState};
#[allow(unused_imports)]
use crate::app::Shell;
use crate::effects::{AppCommand, Effect};
use crate::overlays::Notice;
use crate::shortcuts::KeyboardAction;

verus! {

/// What matters about an event here.
#[derive(Clone, Copy, Debug, PartialEq, Eq, Structural)]
pub enum EventClass {
    Key { pressed: bool, repeat: bool },
    Text,
    Ime,
    Copy,
    Cut,
    Paste,
    FocusLost,
    Other,
}

/// An event, by its place among the platform's events.
#[derive(Clone, Copy, Debug, PartialEq, Eq, Structural)]
pub struct InputEvent {
    pub handle: u64,
    pub class: EventClass,
}

impl EventClass {
    /// Keys, text and clipboard gestures: what a terminal would be sent.
    pub open spec fn keyboard(self) -> bool {
        match self {
            EventClass::Key { .. } => true,
            EventClass::Text => true,
            EventClass::Ime => true,
            EventClass::Copy => true,
            EventClass::Cut => true,
            EventClass::Paste => true,
            EventClass::FocusLost => false,
            EventClass::Other => false,
        }
    }

    pub fn is_keyboard(self) -> (result: bool)
        ensures
            result == self.keyboard(),
    {
        !matches!(self, EventClass::FocusLost | EventClass::Other)
    }

    /// Input that must be delivered before a later shortcut moves the keyboard
    /// elsewhere.
    pub open spec fn ordered(self) -> bool {
        match self {
            EventClass::Key { pressed, .. } => pressed,
            _ => self.keyboard(),
        }
    }

    pub fn is_ordered(self) -> (result: bool)
        ensures
            result == self.ordered(),
    {
        match self {
            EventClass::Key { pressed, .. } => pressed,
            _ => self.is_keyboard(),
        }
    }

    /// A clipboard gesture that the platform derives from a key press.
    pub open spec fn gesture(self) -> bool {
        self == EventClass::Copy || self == EventClass::Cut || self == EventClass::Paste
    }

    pub fn is_gesture(self) -> (result: bool)
        ensures
            result == self.gesture(),
    {
        matches!(self, EventClass::Copy | EventClass::Cut | EventClass::Paste)
    }
}

/// `events` without those that a terminal would be sent.
pub open spec fn without_keyboard(events: Seq<InputEvent>) -> Seq<InputEvent>
    decreases events.len(),
{
    if events.len() == 0 {
        Seq::empty()
    } else {
        let rest = without_keyboard(events.drop_last());
        if events.last().class.keyboard() {
            rest
        } else {
            rest.push(events.last())
        }
    }
}

/// `events` without those that a terminal would be sent, except for those that
/// are shortcuts.
pub open spec fn only_shortcuts(events: Seq<InputEvent>, activates: Seq<bool>) -> Seq<InputEvent>
    decreases events.len(),
{
    if events.len() == 0 {
        Seq::empty()
    } else {
        let rest = only_shortcuts(events.drop_last(), activates);
        if activates[events.len() - 1] || !events.last().class.keyboard() {
            rest.push(events.last())
        } else {
            rest
        }
    }
}

pub open spec fn any_ordered(events: Seq<InputEvent>) -> bool {
    exists|i: int| 0 <= i < events.len() && (#[trigger] events[i]).class.ordered()
}

/// Drops what a terminal would be sent, except for shortcuts, and says how many
/// events that were.
pub fn retain_shortcuts(events: &Vec<InputEvent>, activates: &Vec<bool>) -> (kept: (
    Vec<InputEvent>,
    usize,
))
    requires
        activates@.len() == events@.len(),
    ensures
        kept.0@ == only_shortcuts(events@, activates@),
        kept.1 == events@.len() - kept.0@.len(),
{
    let mut kept: Vec<InputEvent> = Vec::new();
    let mut i: usize = 0;
    while i < events.len()
        invariant
            i <= events@.len() == activates@.len(),
            kept@ == only_shortcuts(events@.take(i as int), activates@),
            kept@.len() <= i,
        decreases events@.len() - i,
    {
        proof {
            assert(events@.take(i + 1).drop_last() =~= events@.take(i as int));
        }
        if activates[i] || !events[i].class.is_keyboard() {
            kept.push(events[i]);
        }
        i = i + 1;
    }
    assert(events@.take(i as int) =~= events@);
    let dropped: usize = events.len() - kept.len();
    (kept, dropped)
}

/// The events of one frame: those that have been dealt with and go on to the
/// focused surface, and those still to come.
#[derive(Debug)]
pub struct InputBatch {
    pub remaining: Vec<InputEvent>,
    pub events: Vec<InputEvent>,
    pub next: usize,
}

/// What the next events of a batch are to be.
pub enum BatchStep {
    /// The batch is through.
    Finished,
    /// A key with what belongs to it, to be tried as a shortcut.
    Packet(Vec<InputEvent>),
    /// The rest waits for the next frame.
    Deferred(Vec<InputEvent>),
}

impl InputBatch {
    pub open spec fn wf(self) -> bool {
        self.next <= self.events@.len()
    }

    /// The events still to come.
    pub open spec fn pending(self) -> Seq<InputEvent> {
        self.events@.skip(self.next as int)
    }

    /// Every event of the batch that is still there, in its order.
    pub open spec fn whole(self) -> Seq<InputEvent> {
        self.remaining@ + self.pending()
    }

    /// A batch of the events put off by the last frame and then the new ones.
    pub fn begin(deferred: Vec<InputEvent>, fresh: Vec<InputEvent>) -> (batch: Self)
        ensures
            batch.wf(),
            batch.next == 0,
            batch.remaining@.len() == 0,
            batch.pending() == deferred@ + fresh@,
            batch.whole() == deferred@ + fresh@,
    {
        let ghost all = deferred@ + fresh@;
        let mut events = deferred;
        let mut more = fresh;
        events.append(&mut more);
        let batch = InputBatch { remaining: Vec::new(), events, next: 0 };
        assert(batch.pending() =~= all);
        assert(batch.whole() =~= all);
        batch
    }

    /// Tells whether the window loses the focus in this batch.
    pub fn loses_focus(&self) -> (result: bool)
        requires
            self.wf(),
        ensures
            result == exists|i: int|
                0 <= i < self.pending().len() && (#[trigger] self.pending()[i]).class
                    == EventClass::FocusLost,
    {
        let mut i: usize = self.next;
        while i < self.events.len()
            invariant
                self.next <= i <= self.events@.len(),
                forall|k: int|
                    0 <= k < i - self.next ==> (#[trigger] self.pending()[k]).class
                        != EventClass::FocusLost,
            decreases self.events@.len() - i,
        {
            assert(self.pending()[i - self.next] == self.events@[i as int]);
            if matches!(self.events[i].class, EventClass::FocusLost) {
                return true;
            }
            i = i + 1;
        }
        false
    }

    /// Drops what would have followed a clipboard read that the loss of the
    /// focus has cancelled, and says how many events that were.
    pub fn drop_on_focus_loss(&mut self, activates: &Vec<bool>) -> (dropped: usize)
        requires
            old(self).next == 0,
            activates@.len() == old(self).events@.len(),
        ensures
            final(self).next == 0,
            final(self).remaining == old(self).remaining,
            final(self).events@ == only_shortcuts(old(self).events@, activates@),
            dropped == old(self).events@.len() - final(self).events@.len(),
    {
        let (kept, dropped) = retain_shortcuts(&self.events, activates);
        self.events = kept;
        dropped
    }

    /// Drops the input that was waiting behind a clipboard read, and says how
    /// many events that were.
    pub fn drop_waiting(&mut self) -> (dropped: usize)
        ensures
            final(self).events == old(self).events,
            final(self).next == old(self).next,
            final(self).remaining@ == without_keyboard(old(self).remaining@),
            dropped == old(self).remaining@.len() - final(self).remaining@.len(),
    {
        let mut kept: Vec<InputEvent> = Vec::new();
        let mut i: usize = 0;
        while i < self.remaining.len()
            invariant
                i <= self.remaining@.len(),
                *self == *old(self),
                kept@ == without_keyboard(self.remaining@.take(i as int)),
                kept@.len() <= i,
            decreases self.remaining@.len() - i,
        {
            proof {
                assert(self.remaining@.take(i + 1).drop_last() =~= self.remaining@.take(i as int));
            }
            if !self.remaining[i].class.is_keyboard() {
                kept.push(self.remaining[i]);
            }
            i = i + 1;
        }
        assert(self.remaining@.take(i as int) =~= self.remaining@);
        let dropped: usize = self.remaining.len() - kept.len();
        self.remaining = kept;
        dropped
    }

    /// The next event.
    pub fn front(&self) -> (event: Option<InputEvent>)
        requires
            self.wf(),
        ensures
            event == if self.pending().len() > 0 {
                Some(self.pending()[0])
            } else {
                None
            },
    {
        if self.next < self.events.len() {
            Some(self.events[self.next])
        } else {
            None
        }
    }

    fn has_ordered(&self) -> (result: bool)
        ensures
            result == any_ordered(self.remaining@),
    {
        let mut i: usize = 0;
        while i < self.remaining.len()
            invariant
                i <= self.remaining@.len(),
                forall|k: int| 0 <= k < i ==> !(#[trigger] self.remaining@[k]).class.ordered(),
            decreases self.remaining@.len() - i,
        {
            if self.remaining[i].class.is_ordered() {
                return true;
            }
            i = i + 1;
        }
        false
    }

    /// How many of the events to come belong together: a key press and the
    /// clipboard gesture that the platform derived from it.
    pub open spec fn packet_length(self) -> int {
        let pending = self.pending();
        if pending.len() > 1 && pending[0].class is Key && pending[1].class.gesture() {
            2
        } else if pending.len() > 0 {
            1
        } else {
            0
        }
    }

    /// Goes on to the next events. `activates` says that the next event is a
    /// shortcut; one that follows input not delivered yet waits, with all that
    /// comes after it, until the next frame.
    pub fn advance(&mut self, activates: bool) -> (step: BatchStep)
        requires
            old(self).wf(),
        ensures
            final(self).wf(),
            final(self).remaining == old(self).remaining,
            match step {
                BatchStep::Finished => {
                    &&& old(self).pending().len() == 0
                    &&& *final(self) == *old(self)
                },
                BatchStep::Deferred(rest) => {
                    &&& old(self).pending().len() > 0
                    &&& activates && any_ordered(old(self).remaining@)
                    &&& rest@ == old(self).pending()
                    &&& final(self).pending().len() == 0
                },
                BatchStep::Packet(packet) => {
                    &&& old(self).pending().len() > 0
                    &&& !(activates && any_ordered(old(self).remaining@))
                    &&& packet@ == old(self).pending().take(old(self).packet_length())
                    &&& packet@ + final(self).pending() == old(self).pending()
                },
            },
    {
        if self.next >= self.events.len() {
            assert(self.pending().len() == 0);
            return BatchStep::Finished;
        }
        let ghost before = self.pending();
        if activates && self.has_ordered() {
            let mut rest: Vec<InputEvent> = Vec::new();
            let mut i: usize = self.next;
            while i < self.events.len()
                invariant
                    *self == *old(self),
                    self.next <= i <= self.events@.len(),
                    rest@ == self.pending().take(i - self.next),
                decreases self.events@.len() - i,
            {
                rest.push(self.events[i]);
                i = i + 1;
                assert(rest@ =~= self.pending().take(i - self.next));
            }
            assert(rest@ =~= before);
            self.next = self.events.len();
            return BatchStep::Deferred(rest);
        }
        let mut packet: Vec<InputEvent> = Vec::new();
        packet.push(self.events[self.next]);
        let paired = matches!(self.events[self.next].class, EventClass::Key { .. }) && self.next + 1
            < self.events.len() && self.events[self.next + 1].class.is_gesture();
        if paired {
            packet.push(self.events[self.next + 1]);
            self.next = self.next + 2;
        } else {
            self.next = self.next + 1;
        }
        proof {
            assert(before[0] == old(self).events@[old(self).next as int]);
            if before.len() > 1 {
                assert(before[1] == old(self).events@[old(self).next + 1]);
            }
            assert(packet@ =~= before.take(old(self).packet_length()));
            assert(packet@ + self.pending() =~= before);
        }
        BatchStep::Packet(packet)
    }

    /// Takes back what shortcuts left of a packet.
    pub fn keep(&mut self, left: Vec<InputEvent>)
        ensures
            final(self).events == old(self).events,
            final(self).next == old(self).next,
            final(self).remaining@ == old(self).remaining@ + left@,
    {
        let mut left = left;
        self.remaining.append(&mut left);
    }
}

/// Dropping input keeps everything else, in its order.
pub proof fn dropping_keeps_other_events(events: Seq<InputEvent>)
    ensures
        without_keyboard(events) == events.filter(|e: InputEvent| !e.class.keyboard()),
    decreases events.len(),
{
    reveal(Seq::filter);
    if events.len() > 0 {
        dropping_keeps_other_events(events.drop_last());
    }
}

/// Until something is dropped on purpose, no event is lost and none overtakes
/// another: a packet with whatever follows it is what was to come, and what is
/// put off together with what has been dealt with is the whole batch.
pub proof fn batches_keep_their_order(
    before: InputBatch,
    after: InputBatch,
    packet: Seq<InputEvent>,
)
    requires
        after.remaining@ == before.remaining@ + packet,
        packet + after.pending() == before.pending(),
    ensures
        after.whole() == before.whole(),
{
    assert(after.whole() =~= before.remaining@ + (packet + after.pending()));
}

/// What is to be done about a clipboard read before an event is tried as a
/// shortcut.
#[derive(Clone, Copy, Debug, PartialEq, Eq, Structural)]
pub struct BarrierDecision {
    /// The read, and the input that waits behind it, are given up.
    pub cancel_read: bool,
    /// So is the question that it has opened in this very frame.
    pub cancel_confirmation: bool,
}

impl FesTermApp {
    /// Whether an event gives up the clipboard read that input is waiting for.
    /// `activates_before` says that the event would be a shortcut if the
    /// question of this frame had not opened, `activates_now` that it is one
    /// now that counts although a read is waited for.
    pub fn clipboard_barrier(
        &self,
        frame: u64,
        activates_before: bool,
        activates_now: bool,
    ) -> (decision: BarrierDecision)
        ensures
            decision.cancel_confirmation == (self.confirmation_opening(frame) && activates_before),
            decision.cancel_read == (decision.cancel_confirmation || (
            self.shell.focus.clipboard_paste is Some && activates_now)),
    {
        let cancel_confirmation = self.clipboard_confirmation_opening(frame) && activates_before;
        BarrierDecision {
            cancel_confirmation,
            cancel_read: cancel_confirmation || (self.shell.focus.clipboard_paste.is_some()
                && activates_now),
        }
    }

    /// Takes in how many events were dropped because the window lost the focus
    /// while a clipboard read was waited for.
    pub fn focus_lost_while_reading(&mut self, dropped: usize, now_ms: u64)
        ensures
            *final(self) == old(self).with_notice(
                if dropped > 0 {
                    Some(Notice::ClipboardCancelledOnFocusLoss)
                } else {
                    None
                },
                now_ms,
                5_000,
            ),
    {
        if dropped > 0 {
            self.shell.overlays.notify(Notice::ClipboardCancelledOnFocusLoss, now_ms, 5_000);
        }
    }
}

/// Some event is the repeat or the release of a key.
pub open spec fn holds_back_keys(packet: Seq<InputEvent>) -> bool {
    exists|i: int|
        0 <= i < packet.len() && match (#[trigger] packet[i]).class {
            EventClass::Key { pressed, repeat } => !pressed || repeat,
            _ => false,
        }
}

/// Whether key repeats and releases are swallowed while the question about a
/// paste opens: they are neither shortcuts nor input for the terminal.
pub fn swallows_repeats(blocked: bool, blocked_before: bool, packet: &Vec<InputEvent>) -> (result:
    bool)
    ensures
        result == (blocked && !blocked_before && holds_back_keys(packet@)),
{
    if !blocked || blocked_before {
        return false;
    }
    let mut i: usize = 0;
    while i < packet.len()
        invariant
            i <= packet@.len(),
            blocked && !blocked_before,
            forall|k: int|
                0 <= k < i ==> !match (#[trigger] packet@[k]).class {
                    EventClass::Key { pressed, repeat } => !pressed || repeat,
                    _ => false,
                },
        decreases packet@.len() - i,
    {
        let suppressed = match packet[i].class {
            EventClass::Key { pressed, repeat } => !pressed || repeat,
            _ => false,
        };
        if suppressed {
            return true;
        }
        i = i + 1;
    }
    false
}

/// The shortcuts that count even while the palette is open.
#[derive(Clone, Copy, Debug, PartialEq, Eq, Structural)]
pub struct PaletteShortcuts {
    /// The fixed chord that leads back to the keyboard settings.
    pub recovery: bool,
    pub command_palette: bool,
    /// The tab, counted from zero, that is switched to.
    pub quick_switch: Option<usize>,
}

impl FesTermApp {
    /// Whether the palette is open once these shortcuts have been carried out.
    pub open spec fn palette_after(self, shortcuts: PaletteShortcuts) -> bool {
        let open = self.shell.focus.palette_open && !shortcuts.recovery;
        let open = if shortcuts.command_palette {
            !open
        } else {
            open
        };
        open && shortcuts.quick_switch is None
    }

    /// What these shortcuts lead to besides.
    pub open spec fn palette_effects(self, shortcuts: PaletteShortcuts) -> Seq<Effect> {
        (if shortcuts.recovery {
            seq![Effect::Dispatch(AppCommand::OpenSettings), Effect::OfferKeyboardRecovery]
        } else {
            seq![]
        }) + (match shortcuts.quick_switch {
            Some(index) => if index < self.state.tabs@.len() {
                seq![Effect::Dispatch(AppCommand::ActivateTab(self.state.tabs@[index as int].id))]
            } else {
                seq![]
            },
            None => seq![],
        })
    }

    /// Carries out the shortcuts that count even while the palette is open. The
    /// others count only if it is closed afterwards.
    pub fn apply_palette_shortcuts(&mut self, shortcuts: PaletteShortcuts) -> (effects: Vec<Effect>)
        ensures
            *final(self) == old(self).with_focus(
                FocusState {
                    palette_open: old(self).palette_after(shortcuts),
                    ..old(self).shell.focus
                },
            ),
            effects@ == old(self).palette_effects(shortcuts),
    {
        let mut effects = Vec::new();
        if shortcuts.recovery {
            self.shell.focus.palette_open = false;
            effects.push(Effect::Dispatch(AppCommand::OpenSettings));
            effects.push(Effect::OfferKeyboardRecovery);
        }
        if shortcuts.command_palette {
            self.shell.focus.palette_open = !self.shell.focus.palette_open;
        }
        if let Some(index) = shortcuts.quick_switch {
            if index < self.state.tabs.len() {
                let target = self.state.tabs[index].id;
                effects.push(Effect::Dispatch(AppCommand::ActivateTab(target)));
            }
            self.shell.focus.palette_open = false;
        }
        assert(effects@ =~= old(self).palette_effects(shortcuts));
        effects
    }
}

impl KeyboardAction {
    /// The action that this one is another binding for.
    pub open spec fn principal_action(self) -> KeyboardAction {
        match self {
            KeyboardAction::CopyAlternate => KeyboardAction::Copy,
            KeyboardAction::PasteAlternate => KeyboardAction::Paste,
            KeyboardAction::ZoomInAlternate => KeyboardAction::ZoomIn,
            KeyboardAction::SettingsHotkey => KeyboardAction::Settings,
            action => action,
        }
    }

    pub fn principal(self) -> (action: KeyboardAction)
        ensures
            action == self.principal_action(),
    {
        match self {
            KeyboardAction::CopyAlternate => KeyboardAction::Copy,
            KeyboardAction::PasteAlternate => KeyboardAction::Paste,
            KeyboardAction::ZoomInAlternate => KeyboardAction::ZoomIn,
            KeyboardAction::SettingsHotkey => KeyboardAction::Settings,
            action => action,
        }
    }
}

/// The order in which actions of one packet are carried out.
pub open spec fn dispatch_order() -> Seq<KeyboardAction> {
    seq![
        KeyboardAction::Copy,
        KeyboardAction::Paste,
        KeyboardAction::NewSession,
        KeyboardAction::NewWindow,
        KeyboardAction::StartLocalShell,
        KeyboardAction::CloseActiveSurface,
        KeyboardAction::NextSession,
        KeyboardAction::PreviousSession,
        KeyboardAction::Settings,
        KeyboardAction::ZoomIn,
        KeyboardAction::ZoomOut,
        KeyboardAction::ZoomReset,
        KeyboardAction::ClearTerminal,
        KeyboardAction::ResetTerminal,
        KeyboardAction::ToggleFocusMode,
        KeyboardAction::PortForwardManager,
        KeyboardAction::Find,
        KeyboardAction::MarkdownFind,
        KeyboardAction::MarkdownReload,
        KeyboardAction::MarkdownPreviewSource,
        KeyboardAction::MarkdownOutline,
        KeyboardAction::OpenMarkdownFile,
    ]
}

pub open spec fn triggered(consumed: Seq<KeyboardAction>, action: KeyboardAction) -> bool {
    exists|i: int| 0 <= i < consumed.len() && (#[trigger] consumed[i]).principal_action() == action
}

/// The first `n` actions of the order that `consumed` triggers.
pub open spec fn in_order(consumed: Seq<KeyboardAction>, n: int) -> Seq<KeyboardAction>
    decreases n,
{
    if n <= 0 {
        Seq::empty()
    } else if triggered(consumed, dispatch_order()[n - 1]) {
        in_order(consumed, n - 1).push(dispatch_order()[n - 1])
    } else {
        in_order(consumed, n - 1)
    }
}

fn is_triggered(consumed: &Vec<KeyboardAction>, action: KeyboardAction) -> (result: bool)
    ensures
        result == triggered(consumed@, action),
{
    let mut i: usize = 0;
    while i < consumed.len()
        invariant
            i <= consumed@.len(),
            forall|k: int| 0 <= k < i ==> (#[trigger] consumed@[k]).principal_action() != action,
        decreases consumed@.len() - i,
    {
        if consumed[i].principal() == action {
            return true;
        }
        i = i + 1;
    }
    false
}

/// Brings the actions of one packet into the order in which they are carried
/// out, each of them once however many of its bindings were pressed.
pub fn order_actions(consumed: &Vec<KeyboardAction>) -> (actions: Vec<KeyboardAction>)
    ensures
        actions@ == in_order(consumed@, dispatch_order().len() as int),
{
    let order: Vec<KeyboardAction> = vec![
        KeyboardAction::Copy,
        KeyboardAction::Paste,
        KeyboardAction::NewSession,
        KeyboardAction::NewWindow,
        KeyboardAction::StartLocalShell,
        KeyboardAction::CloseActiveSurface,
        KeyboardAction::NextSession,
        KeyboardAction::PreviousSession,
        KeyboardAction::Settings,
        KeyboardAction::ZoomIn,
        KeyboardAction::ZoomOut,
        KeyboardAction::ZoomReset,
        KeyboardAction::ClearTerminal,
        KeyboardAction::ResetTerminal,
        KeyboardAction::ToggleFocusMode,
        KeyboardAction::PortForwardManager,
        KeyboardAction::Find,
        KeyboardAction::MarkdownFind,
        KeyboardAction::MarkdownReload,
        KeyboardAction::MarkdownPreviewSource,
        KeyboardAction::MarkdownOutline,
        KeyboardAction::OpenMarkdownFile,
    ];
    assert(order@ =~= dispatch_order());
    let mut actions: Vec<KeyboardAction> = Vec::new();
    let mut n: usize = 0;
    while n < order.len()
        invariant
            n <= order@.len(),
            order@ == dispatch_order(),
            actions@ == in_order(consumed@, n as int),
        decreases order@.len() - n,
    {
        if is_triggered(consumed, order[n]) {
            actions.push(order[n]);
        }
        n = n + 1;
    }
    actions
}

/// Dropping input keeps shortcuts and everything that no terminal would be sent,
/// all of it and in its order, and nothing else.
pub proof fn shortcuts_survive(events: Seq<InputEvent>, activates: Seq<bool>)
    requires
        activates.len() == events.len(),
    ensures
        only_shortcuts(events, activates) == events.zip_with(activates).filter(
            |pair: (InputEvent, bool)| pair.1 || !pair.0.class.keyboard(),
        ).map_values(|pair: (InputEvent, bool)| pair.0),
        (forall|i: int| 0 <= i < activates.len() ==> !#[trigger] activates[i])
            ==> only_shortcuts(events, activates) == without_keyboard(events),
    decreases events.len(),
{
    reveal(Seq::filter);
    let pairs = events.zip_with(activates);
    let kept = |pair: (InputEvent, bool)| pair.1 || !pair.0.class.keyboard();
    let first = |pair: (InputEvent, bool)| pair.0;
    if events.len() == 0 {
        assert(pairs.filter(kept).map_values(first) =~= Seq::empty());
    } else {
        let n = events.len() as int;
        shortcuts_survive(events.drop_last(), activates.drop_last());
        only_the_first_count(events.drop_last(), activates.drop_last(), activates);
        assert(pairs.drop_last() =~= events.drop_last().zip_with(activates.drop_last()));
        assert(pairs.last() == (events.last(), activates[n - 1]));
        let rest = pairs.drop_last().filter(kept);
        assert(rest.push(pairs.last()).map_values(first) =~= rest.map_values(first).push(
            events.last(),
        ));
        if forall|i: int| 0 <= i < activates.len() ==> !#[trigger] activates[i] {
            assert forall|i: int| 0 <= i < activates.drop_last().len() implies !(
            #[trigger] activates.drop_last()[i]) by {
                assert(!activates[i]);
            }
            assert(!activates[n - 1]);
        }
    }
}

proof fn only_the_first_count(events: Seq<InputEvent>, a: Seq<bool>, b: Seq<bool>)
    requires
        events.len() <= a.len(),
        events.len() <= b.len(),
        forall|i: int| 0 <= i < events.len() ==> a[i] == #[trigger] b[i],
    ensures
        only_shortcuts(events, a) == only_shortcuts(events, b),
    decreases events.len(),
{
    if events.len() > 0 {
        only_the_first_count(events.drop_last(), a, b);
        assert(a[events.len() - 1] == b[events.len() - 1]);
    }
}

/// What a terminal would be sent is what keys, text and the clipboard bring, and
/// nothing else; what has to be delivered in its order is all of that but for the
/// release of a key.
pub proof fn only_typed_input_is_sent(class: EventClass)
    ensures
        class.keyboard() <==> class != EventClass::FocusLost && class != EventClass::Other,
        class.ordered() ==> class.keyboard(),
        class.gesture() ==> class.ordered(),
        class.keyboard() && !class.ordered() <==> class is Key && !class->pressed,
        class.gesture() <==> class == EventClass::Copy || class == EventClass::Cut || class
            == EventClass::Paste,
{
}

/// A packet is the next event, with the clipboard gesture that the platform
/// derived from it where it is a key, and never more; it is empty only at the end.
pub proof fn packets_hold_one_key(batch: InputBatch)
    ensures
        ({
            let pending = batch.pending();
            let n = batch.packet_length();
            &&& 0 <= n <= pending.len()
            &&& n == 0 <==> pending.len() == 0
            &&& n <= 2
            &&& n == 2 <==> pending.len() >= 2 && pending[0].class is Key && (pending[1].class
                == EventClass::Copy || pending[1].class == EventClass::Cut || pending[1].class
                == EventClass::Paste)
        }),
{
}

/// The palette's chord opens a closed palette and closes an open one; the chord
/// that leads back to the keyboard settings closes it, opens them and offers to
/// restore the bindings; and switching to a tab closes it and goes to the tab at
/// that place, where there is one.
pub proof fn palette_shortcuts_do_what_they_say(app: FesTermApp, shortcuts: PaletteShortcuts)
    ensures
        ({
            let open = app.palette_after(shortcuts);
            let effects = app.palette_effects(shortcuts);
            let tabs = app.state.tabs@;
            &&& shortcuts.quick_switch is Some ==> !open
            &&& shortcuts.recovery && !shortcuts.command_palette ==> !open
            &&& shortcuts.quick_switch is None && !shortcuts.recovery
                && shortcuts.command_palette ==> open != app.shell.focus.palette_open
            &&& shortcuts.quick_switch is None && !shortcuts.recovery
                && !shortcuts.command_palette ==> open == app.shell.focus.palette_open
            &&& shortcuts.recovery <==> effects.contains(Effect::OfferKeyboardRecovery)
            &&& shortcuts.recovery ==> effects.len() >= 2 && effects[0] == Effect::Dispatch(
                AppCommand::OpenSettings,
            )
            &&& shortcuts.quick_switch is Some && shortcuts.quick_switch->Some_0 < tabs.len()
                ==> effects.len() > 0 && effects.last() == Effect::Dispatch(
                AppCommand::ActivateTab(tabs[shortcuts.quick_switch->Some_0 as int].id),
            )
            &&& !(shortcuts.quick_switch is Some && shortcuts.quick_switch->Some_0 < tabs.len())
                ==> forall|i: int|
                0 <= i < effects.len() ==> {
                    ||| #[trigger] effects[i] == Effect::OfferKeyboardRecovery
                    ||| effects[i] == Effect::Dispatch(AppCommand::OpenSettings)
                }
            &&& !shortcuts.recovery && shortcuts.quick_switch is None ==> effects.len() == 0
        }),
{
    let effects = app.palette_effects(shortcuts);
    if shortcuts.recovery {
        assert(effects[1] == Effect::OfferKeyboardRecovery);
    }
}

/// Each action that a packet triggers is carried out once, however many of its
/// bindings were pressed, in one fixed order; nothing that was not triggered is.
pub proof fn triggered_actions_are_carried_out_once(consumed: Seq<KeyboardAction>, n: int)
    requires
        0 <= n <= dispatch_order().len(),
    ensures
        in_order(consumed, n) == dispatch_order().take(n).filter(
            |action: KeyboardAction|
                exists|i: int|
                    0 <= i < consumed.len() && (#[trigger] consumed[i]).principal_action()
                        == action,
        ),
    decreases n,
{
    reveal(Seq::filter);
    if n > 0 {
        triggered_actions_are_carried_out_once(consumed, n - 1);
        let order = dispatch_order().take(n);
        assert(order.drop_last() =~= dispatch_order().take(n - 1));
        assert(order.last() == dispatch_order()[n - 1]);
    }
}

/// Every action but the palette's own and the switches to a tab has a place in
/// the order, and only one; a second binding stands for the first.
pub proof fn every_action_has_one_place(action: KeyboardAction)
    ensures
        dispatch_order().no_duplicates(),
        action != KeyboardAction::CommandPalette && !(action is QuickSwitch)
            ==> dispatch_order().contains(action.principal_action()),
        action.principal_action().principal_action() == action.principal_action(),
        dispatch_order()[0] == KeyboardAction::Copy,
        dispatch_order()[1] == KeyboardAction::Paste,
{
    let order = dispatch_order();
    let principal = action.principal_action();
    assert(order.len() == 22);
    if action != KeyboardAction::CommandPalette && !(action is QuickSwitch) {
        let i: int = match principal {
            KeyboardAction::Copy => 0,
            KeyboardAction::Paste => 1,
            KeyboardAction::NewSession => 2,
            KeyboardAction::NewWindow => 3,
            KeyboardAction::StartLocalShell => 4,
            KeyboardAction::CloseActiveSurface => 5,
            KeyboardAction::NextSession => 6,
            KeyboardAction::PreviousSession => 7,
            KeyboardAction::Settings => 8,
            KeyboardAction::ZoomIn => 9,
            KeyboardAction::ZoomOut => 10,
            KeyboardAction::ZoomReset => 11,
            KeyboardAction::ClearTerminal => 12,
            KeyboardAction::ResetTerminal => 13,
            KeyboardAction::ToggleFocusMode => 14,
            KeyboardAction::PortForwardManager => 15,
            KeyboardAction::Find => 16,
            KeyboardAction::MarkdownFind => 17,
            KeyboardAction::MarkdownReload => 18,
            KeyboardAction::MarkdownPreviewSource => 19,
            KeyboardAction::MarkdownOutline => 20,
            _ => 21,
        };
        assert(order[i] == principal);
    }
}

} // verus!
