//! The way of one frame's input through the shortcuts, step by step. Whether an
//! event matches a binding, and what a command changes, is up to the caller;
//! what is asked for next, and what becomes of the answer, is decided here.
use vstd::prelude::*;

use crate::app::{FesTermApp, ShortcutContext};
#[allow(unused_imports)]
use crate::app::{FocusState, Shell};
use crate::confirmations::OpenDocument;
use crate::effects::Effect;
#[allow(unused_imports)]
use crate::clipboard::discard_notice;
#[allow(unused_imports)]
use crate::input::{
    any_ordered, dispatch_order, every_action_has_one_place, holds_back_keys, in_order,
    only_shortcuts, triggered_actions_are_carried_out_once, without_keyboard,
};
use crate::input::{
    order_actions, swallows_repeats, BatchStep, EventClass, InputBatch, InputEvent,
    PaletteShortcuts,
};
#[allow(unused_imports)]
use crate::overlays::{Notice, OverlayState};
use crate::shortcuts::{KeyboardAction, Platform};
#[allow(unused_imports)]
use crate::text::optional_text;

verus! {

/// How far a packet of events has come.
#[derive(Clone, Copy, Debug, PartialEq, Eq, Structural)]
pub enum PacketStage {
    /// Every binding is to be taken out of the packet, and nothing done.
    Swallow,
    /// The paste bindings are to be taken out.
    Paste,
    /// Then those that count even while the palette is open.
    Palette,
    /// Then all others.
    Actions,
    /// The actions are carried out one by one.
    Run,
    Finished,
}

/// A packet of events on its way through the shortcuts: a key, with the
/// clipboard gesture that belongs to it.
#[derive(Debug)]
pub struct PacketRun {
    pub stage: PacketStage,
    /// What bindings are matched against.
    pub scope: ShortcutContext,
    /// The terminal owned the keyboard when the packet came in.
    pub terminal: bool,
    pub paste: bool,
    /// The text that came with the paste, where the platform gave it along.
    pub text: Option<String>,
    pub actions: Vec<KeyboardAction>,
    pub next: usize,
}

pub struct PacketView {
    pub stage: PacketStage,
    pub scope: ShortcutContext,
    pub terminal: bool,
    pub paste: bool,
    pub text: Option<Seq<char>>,
    pub actions: Seq<KeyboardAction>,
    pub next: int,
}

impl View for PacketRun {
    type V = PacketView;

    open spec fn view(&self) -> PacketView {
        PacketView {
            stage: self.stage,
            scope: self.scope,
            terminal: self.terminal,
            paste: self.paste,
            text: optional_text(self.text),
            actions: self.actions@,
            next: self.next as int,
        }
    }
}

/// What the caller has found out, or done, since the last step.
#[derive(Debug)]
pub enum PacketAnswer {
    /// The effects have been carried out, or the bindings swallowed.
    Done,
    /// Whether a paste binding was pressed, and the text that came with it.
    Paste { pressed: bool, text: Option<String> },
    Palette(PaletteShortcuts),
    /// The actions whose bindings were pressed, the paste left out.
    Actions(Vec<KeyboardAction>),
}

/// The actions to carry out, once `consumed` have been pressed besides a paste.
pub open spec fn actions_pressed(consumed: Seq<KeyboardAction>, paste: bool) -> Seq<KeyboardAction> {
    in_order(
        if paste {
            consumed.push(KeyboardAction::Paste)
        } else {
            consumed
        },
        dispatch_order().len() as int,
    )
}

impl PacketView {
    /// A packet that comes in now. While an input method holds the keys nothing
    /// is taken out; while something blocks the shortcuts only repeats and
    /// releases are, and only if it is a question of this very frame.
    pub open spec fn begun(
        app: FesTermApp,
        platform: Platform,
        frame: u64,
        composing: bool,
        held: bool,
        packet: Seq<InputEvent>,
    ) -> Self {
        let scope = app.shortcuts_apply_to(platform, frame, composing, false);
        let opening = app.shortcuts_apply_to(platform, frame, composing, true);
        let swallow = holds_back_keys(packet) && !opening.blocked;
        PacketView {
            stage: if held {
                PacketStage::Finished
            } else if !scope.blocked {
                PacketStage::Paste
            } else if swallow {
                PacketStage::Swallow
            } else {
                PacketStage::Finished
            },
            scope: if !held && scope.blocked && swallow {
                opening
            } else {
                scope
            },
            terminal: app.owns_input(),
            paste: false,
            text: None,
            actions: Seq::empty(),
            next: 0,
        }
    }

    /// The step from `self` and `app` to `after` and `app_after`. An answer that
    /// was not asked for changes nothing.
    pub open spec fn steps_to(
        self,
        app: FesTermApp,
        answer: PacketAnswer,
        documents: Seq<OpenDocument>,
        chord: Option<String>,
        frame: u64,
        now_ms: u64,
        after: Self,
        app_after: FesTermApp,
        effects: Seq<Effect>,
    ) -> bool {
        match (self.stage, answer) {
            (PacketStage::Swallow, PacketAnswer::Done) => {
                &&& after == (PacketView { stage: PacketStage::Finished, ..self })
                &&& app_after == app
                &&& effects.len() == 0
            },
            (PacketStage::Paste, PacketAnswer::Paste { pressed, text }) => {
                &&& after == (PacketView {
                    stage: PacketStage::Palette,
                    paste: pressed,
                    text: if self.terminal {
                        optional_text(text)
                    } else {
                        None
                    },
                    ..self
                })
                &&& app_after == app
                &&& effects.len() == 0
            },
            (PacketStage::Palette, PacketAnswer::Palette(shortcuts)) => {
                &&& after == (PacketView {
                    stage: if app.palette_after(shortcuts) {
                        PacketStage::Finished
                    } else {
                        PacketStage::Actions
                    },
                    ..self
                })
                &&& app_after == app.with_focus(
                    FocusState { palette_open: app.palette_after(shortcuts), ..app.shell.focus },
                )
                &&& effects == app.palette_effects(shortcuts)
            },
            (PacketStage::Actions, PacketAnswer::Actions(consumed)) => {
                &&& after == (PacketView {
                    stage: PacketStage::Run,
                    actions: actions_pressed(consumed@, self.paste),
                    next: 0,
                    ..self
                })
                &&& app_after == app
                &&& effects.len() == 0
            },
            (PacketStage::Run, PacketAnswer::Done) => if self.next >= self.actions.len() {
                &&& after == (PacketView { stage: PacketStage::Finished, ..self })
                &&& app_after == app
                &&& effects.len() == 0
            } else if self.actions[self.next] == KeyboardAction::Paste {
                &&& after == (PacketView { next: self.next + 1, ..self })
                &&& app.pastes(self.text, frame, app_after, effects)
            } else {
                &&& after == (PacketView { next: self.next + 1, ..self })
                &&& (app_after, effects) == app.action_outcome(
                    self.actions[self.next],
                    documents,
                    chord,
                    now_ms,
                )
            },
            _ => after == self && app_after == app && effects.len() == 0,
        }
    }

    /// How much is left to do.
    pub open spec fn steps_left(self) -> int {
        match self.stage {
            PacketStage::Swallow => 1,
            PacketStage::Paste => 30,
            PacketStage::Palette => 29,
            PacketStage::Actions => 28,
            PacketStage::Run => 1 + self.actions.len() - self.next,
            PacketStage::Finished => 0,
        }
    }

    /// The answer that the stage asks for.
    pub open spec fn asks_for(self, answer: PacketAnswer) -> bool {
        match self.stage {
            PacketStage::Swallow => answer is Done,
            PacketStage::Paste => answer is Paste,
            PacketStage::Palette => answer is Palette,
            PacketStage::Actions => answer is Actions,
            PacketStage::Run => answer is Done,
            PacketStage::Finished => false,
        }
    }
}

impl PacketRun {
    /// Takes a packet in. `composing` says that an input method is at work, and
    /// `held` that it holds the keys of this packet.
    pub fn handle_shortcut_packet(
        app: &FesTermApp,
        platform: Platform,
        frame: u64,
        composing: bool,
        held: bool,
        packet: &Vec<InputEvent>,
    ) -> (run: Self)
        ensures
            run@ == PacketView::begun(*app, platform, frame, composing, held, packet@),
    {
        let scope = app.shortcut_context(platform, frame, composing, false);
        let opening = app.shortcut_context(platform, frame, composing, true);
        let swallow = swallows_repeats(scope.blocked, opening.blocked, packet);
        let stage = if held {
            PacketStage::Finished
        } else if !scope.blocked {
            PacketStage::Paste
        } else if swallow {
            PacketStage::Swallow
        } else {
            PacketStage::Finished
        };
        let run = PacketRun {
            stage,
            scope: if !held && swallow {
                opening
            } else {
                scope
            },
            terminal: app.terminal_owns_input(),
            paste: false,
            text: None,
            actions: Vec::new(),
            next: 0,
        };
        assert(run.actions@ =~= Seq::empty());
        run
    }

    /// Goes on with the caller's answer. The effects are to be carried out
    /// before the next step.
    pub fn step(
        &mut self,
        app: &mut FesTermApp,
        answer: PacketAnswer,
        documents: &Vec<OpenDocument>,
        chord: Option<String>,
        frame: u64,
        now_ms: u64,
    ) -> (effects: Vec<Effect>)
        ensures
            old(self)@.steps_to(
                *old(app),
                answer,
                documents@,
                chord,
                frame,
                now_ms,
                final(self)@,
                *final(app),
                effects@,
            ),
    {
        let nothing: Vec<Effect> = Vec::new();
        match (self.stage, answer) {
            (PacketStage::Swallow, PacketAnswer::Done) => {
                self.stage = PacketStage::Finished;
                nothing
            },
            (PacketStage::Paste, PacketAnswer::Paste { pressed, text }) => {
                self.stage = PacketStage::Palette;
                self.paste = pressed;
                self.text = if self.terminal {
                    text
                } else {
                    None
                };
                nothing
            },
            (PacketStage::Palette, PacketAnswer::Palette(shortcuts)) => {
                let effects = app.apply_palette_shortcuts(shortcuts);
                self.stage = if app.shell.focus.palette_open {
                    PacketStage::Finished
                } else {
                    PacketStage::Actions
                };
                effects
            },
            (PacketStage::Actions, PacketAnswer::Actions(consumed)) => {
                let mut consumed = consumed;
                if self.paste {
                    consumed.push(KeyboardAction::Paste);
                }
                self.actions = order_actions(&consumed);
                self.next = 0;
                self.stage = PacketStage::Run;
                nothing
            },
            (PacketStage::Run, PacketAnswer::Done) => {
                if self.next >= self.actions.len() {
                    self.stage = PacketStage::Finished;
                    return nothing;
                }
                let action = self.actions[self.next];
                self.next = self.next + 1;
                if action == KeyboardAction::Paste {
                    match &self.text {
                        Some(text) => app.paste_into_active_session_with_text(
                            Some(text.as_str()),
                            frame,
                        ),
                        None => app.paste_into_active_session_with_text(None, frame),
                    }
                } else {
                    app.perform_action(action, documents, chord, now_ms)
                }
            },
            _ => nothing,
        }
    }
}

/// The number of actions carried out for one packet is bounded.
proof fn in_order_is_bounded(consumed: Seq<KeyboardAction>, n: int)
    requires
        0 <= n,
    ensures
        in_order(consumed, n).len() <= n,
    decreases n,
{
    if n > 0 {
        in_order_is_bounded(consumed, n - 1);
    }
}

/// Every answer that was asked for brings a packet closer to its end, whatever
/// the answer is.
pub proof fn packets_come_to_an_end(
    run: PacketView,
    app: FesTermApp,
    answer: PacketAnswer,
    documents: Seq<OpenDocument>,
    chord: Option<String>,
    frame: u64,
    now_ms: u64,
    after: PacketView,
    app_after: FesTermApp,
    effects: Seq<Effect>,
)
    requires
        0 <= run.next <= run.actions.len(),
        run.asks_for(answer),
        run.steps_to(
            app,
            answer,
            documents,
            chord,
            frame,
            now_ms,
            after,
            app_after,
            effects,
        ),
    ensures
        0 <= after.next <= after.actions.len(),
        0 <= after.steps_left() < run.steps_left(),
{
    if let PacketAnswer::Actions(consumed) = answer {
        let pressed = if run.paste {
            consumed@.push(KeyboardAction::Paste)
        } else {
            consumed@
        };
        in_order_is_bounded(pressed, dispatch_order().len() as int);
    }
}

/// A packet that comes in while something blocks the shortcuts leads to
/// nothing, whatever is answered.
pub proof fn blocked_packets_do_nothing(
    app: FesTermApp,
    platform: Platform,
    frame: u64,
    composing: bool,
    held: bool,
    packet: Seq<InputEvent>,
    later: FesTermApp,
    answer: PacketAnswer,
    documents: Seq<OpenDocument>,
    chord: Option<String>,
    now_ms: u64,
    after: PacketView,
    later_after: FesTermApp,
    effects: Seq<Effect>,
)
    requires
        held || app.shortcuts_apply_to(platform, frame, composing, false).blocked,
        PacketView::begun(app, platform, frame, composing, held, packet).steps_to(
            later,
            answer,
            documents,
            chord,
            frame,
            now_ms,
            after,
            later_after,
            effects,
        ),
    ensures
        later_after == later,
        effects.len() == 0,
        after.stage == PacketStage::Swallow || after.stage == PacketStage::Finished,
{
}

/// How far the events of one frame have come.
#[derive(Clone, Copy, Debug, PartialEq, Eq, Structural)]
pub enum PassStage {
    /// The keyboard settings record a binding: the events are theirs.
    Recording,
    /// The window loses the focus while a clipboard read is waited for.
    FocusLoss,
    /// A clipboard read may have been answered.
    Reply,
    /// The next event comes up.
    Front,
    /// Does it give up a clipboard read?
    Barrier,
    /// It did, and this many events were dropped.
    Settle(usize),
    /// Is it a shortcut now?
    Turn,
    /// A packet is on its way.
    Packet,
    Finished,
}

/// The events of one frame on their way through the shortcuts.
#[derive(Debug)]
pub struct ShortcutPass {
    pub stage: PassStage,
    pub batch: InputBatch,
    /// The packet that is on its way.
    pub packet: Vec<InputEvent>,
    /// What waits for the next frame.
    pub deferred: Vec<InputEvent>,
}

pub struct PassView {
    pub stage: PassStage,
    /// What shortcuts have left, for the focused surface.
    pub remaining: Seq<InputEvent>,
    /// What is still to come.
    pub pending: Seq<InputEvent>,
    pub packet: Seq<InputEvent>,
    pub deferred: Seq<InputEvent>,
}

impl View for ShortcutPass {
    type V = PassView;

    open spec fn view(&self) -> PassView {
        PassView {
            stage: self.stage,
            remaining: self.batch.remaining@,
            pending: self.batch.pending(),
            packet: self.packet@,
            deferred: self.deferred@,
        }
    }
}

/// What the caller has found out, or done, since the last step.
#[derive(Debug)]
pub enum PassAnswer {
    /// The effects have been carried out.
    Done,
    /// For every event to come, whether it is a shortcut that counts although a
    /// clipboard read is waited for.
    Verdicts(Vec<bool>),
    /// The clipboard read that was answered, and its text if it did not fail.
    Reply(Option<(u64, Option<String>)>),
    /// Whether the next event would be a shortcut had a question of this frame
    /// not opened, and whether it is one now that counts although a clipboard
    /// read is waited for.
    Barrier { before: bool, replaces: bool },
    /// How many queued bytes a clipboard read took along.
    Dropped(u64),
    /// Whether the next event is a shortcut now.
    Activates(bool),
    /// What shortcuts have left of the packet.
    Left(Vec<InputEvent>),
}

/// How many of the events to come belong together.
pub open spec fn packet_length(pending: Seq<InputEvent>) -> int {
    if pending.len() > 1 && pending[0].class is Key && pending[1].class.gesture() {
        2
    } else if pending.len() > 0 {
        1
    } else {
        0
    }
}

pub open spec fn focus_lost(events: Seq<InputEvent>) -> bool {
    exists|i: int| 0 <= i < events.len() && (#[trigger] events[i]).class == EventClass::FocusLost
}

impl PassView {
    /// A frame's events, those put off by the last frame first. A clipboard read
    /// that can no longer be used is given up, and so is any other if the window
    /// loses the focus.
    pub open spec fn begun(app: FesTermApp, events: Seq<InputEvent>, recording: bool) -> (
        Self,
        FesTermApp,
        Seq<Effect>,
    ) {
        let (checked, effects) = app.read_checked();
        let lost = focus_lost(events);
        (
            PassView {
                stage: if recording {
                    PassStage::Recording
                } else if lost && checked.shell.focus.clipboard_paste is Some {
                    PassStage::FocusLoss
                } else {
                    PassStage::Reply
                },
                remaining: Seq::empty(),
                pending: events,
                packet: Seq::empty(),
                deferred: Seq::empty(),
            },
            if !recording && lost {
                checked.without_clipboard_read()
            } else {
                checked
            },
            if !recording && lost {
                effects + checked.reads_given_up()
            } else {
                effects
            },
        )
    }

    /// What an event does to a clipboard read that input is waiting for.
    pub open spec fn barrier(self, app: FesTermApp, frame: u64, before: bool, replaces: bool) -> (
        Self,
        FesTermApp,
        Seq<Effect>,
    ) {
        let question = app.confirmation_opening(frame) && before;
        let read = question || (app.shell.focus.clipboard_paste is Some && replaces);
        let free = app.without_clipboard_read();
        if !read {
            (PassView { stage: PassStage::Turn, ..self }, app, seq![])
        } else {
            let kept = without_keyboard(self.remaining);
            (
                PassView {
                    stage: PassStage::Settle((self.remaining.len() - kept.len()) as usize),
                    remaining: kept,
                    ..self
                },
                if question {
                    free.with_overlays(OverlayState { pending_paste: None, ..app.shell.overlays })
                } else {
                    free
                },
                app.reads_given_up() + (if question {
                    free.paste_cancelled(app.shell.overlays.pending_paste->Some_0)
                } else {
                    seq![]
                }),
            )
        }
    }

    /// The step from `self` and `app` to `after` and `app_after`. An answer that
    /// was not asked for changes nothing.
    pub open spec fn steps_to(
        self,
        app: FesTermApp,
        answer: PassAnswer,
        frame: u64,
        now_ms: u64,
        after: Self,
        app_after: FesTermApp,
        effects: Seq<Effect>,
    ) -> bool {
        match (self.stage, answer) {
            (PassStage::FocusLoss, PassAnswer::Verdicts(verdicts)) => if verdicts@.len()
                != self.pending.len() {
                after == self && app_after == app && effects.len() == 0
            } else {
                let kept = only_shortcuts(self.pending, verdicts@);
                &&& after == (PassView { stage: PassStage::Reply, pending: kept, ..self })
                &&& app_after == app.with_notice(
                    if kept.len() < self.pending.len() {
                        Some(Notice::ClipboardCancelledOnFocusLoss)
                    } else {
                        None
                    },
                    now_ms,
                    5_000,
                )
                &&& effects.len() == 0
            },
            (PassStage::Reply, PassAnswer::Reply(reply)) => {
                &&& after == (PassView {
                    stage: if self.pending.len() == 0 {
                        PassStage::Packet
                    } else {
                        PassStage::Front
                    },
                    ..self
                })
                &&& match reply {
                    Some((token, text)) => app.takes_reply(
                        token,
                        optional_text(text),
                        frame,
                        app_after,
                        effects,
                    ),
                    None => app_after == app && effects.len() == 0,
                }
            },
            (PassStage::Front, PassAnswer::Done) => {
                let lost = self.pending.len() > 0 && self.pending[0].class == EventClass::FocusLost;
                &&& after == (PassView {
                    stage: if self.pending.len() == 0 {
                        PassStage::Finished
                    } else {
                        PassStage::Barrier
                    },
                    ..self
                })
                &&& app_after == if lost {
                    app.without_clipboard_read()
                } else {
                    app
                }
                &&& effects == if lost {
                    app.reads_given_up()
                } else {
                    seq![]
                }
            },
            (PassStage::Barrier, PassAnswer::Barrier { before, replaces }) => (
                after,
                app_after,
                effects,
            ) == self.barrier(app, frame, before, replaces),
            (PassStage::Settle(events), PassAnswer::Dropped(bytes)) => {
                &&& after == (PassView { stage: PassStage::Turn, ..self })
                &&& app_after == app.with_notice(discard_notice(bytes, events), now_ms, 5_000)
                &&& effects.len() == 0
            },
            (PassStage::Turn, PassAnswer::Activates(activates)) => {
                &&& app_after == app
                &&& if self.pending.len() == 0 {
                    &&& after == (PassView { stage: PassStage::Finished, ..self })
                    &&& effects.len() == 0
                } else if activates && any_ordered(self.remaining) {
                    &&& after == (PassView {
                        stage: PassStage::Finished,
                        pending: Seq::empty(),
                        deferred: self.pending,
                        ..self
                    })
                    &&& effects == seq![Effect::Repaint]
                } else {
                    &&& after == (PassView {
                        stage: PassStage::Packet,
                        packet: self.pending.take(packet_length(self.pending)),
                        pending: self.pending.skip(packet_length(self.pending)),
                        ..self
                    })
                    &&& effects.len() == 0
                }
            },
            (PassStage::Packet, PassAnswer::Left(left)) => {
                &&& after == (PassView {
                    stage: if self.pending.len() == 0 {
                        PassStage::Finished
                    } else {
                        PassStage::Front
                    },
                    remaining: self.remaining + left@,
                    packet: Seq::empty(),
                    ..self
                })
                &&& (app_after, effects) == app.read_checked()
            },
            _ => after == self && app_after == app && effects.len() == 0,
        }
    }
}

impl ShortcutPass {
    pub open spec fn wf(self) -> bool {
        &&& self.batch.wf()
        &&& self.stage == PassStage::FocusLoss ==> self.batch.next == 0
    }

    /// Takes a frame's events in: those put off by the last frame, and the new
    /// ones. `recording` says that the keyboard settings record a binding.
    pub fn handle_shortcuts(
        app: &mut FesTermApp,
        deferred: Vec<InputEvent>,
        fresh: Vec<InputEvent>,
        recording: bool,
    ) -> (result: (Self, Vec<Effect>))
        ensures
            result.0.wf(),
            (result.0@, *final(app), result.1@) == PassView::begun(
                *old(app),
                deferred@ + fresh@,
                recording,
            ),
    {
        let ghost events = deferred@ + fresh@;
        let mut effects = app.cancel_invalid_clipboard_paste();
        let ghost checked = *app;
        let ghost first = effects@;
        let batch = InputBatch::begin(deferred, fresh);
        let lost = batch.loses_focus();
        assert(lost == focus_lost(events));
        let mut stage = PassStage::Reply;
        if recording {
            stage = PassStage::Recording;
        } else if lost {
            if app.shell.focus.clipboard_paste.is_some() {
                stage = PassStage::FocusLoss;
            }
            let mut more = app.cancel_clipboard_paste();
            effects.append(&mut more);
            assert(effects@ =~= first + checked.reads_given_up());
        }
        let pass = ShortcutPass { stage, batch, packet: Vec::new(), deferred: Vec::new() };
        assert(pass.batch.remaining@ =~= Seq::empty());
        assert(pass.packet@ =~= Seq::empty());
        assert(pass.deferred@ =~= Seq::empty());
        (pass, effects)
    }

    /// Goes on with the caller's answer. The effects are to be carried out
    /// before the next step.
    pub fn step(
        &mut self,
        app: &mut FesTermApp,
        answer: PassAnswer,
        frame: u64,
        now_ms: u64,
    ) -> (effects: Vec<Effect>)
        requires
            old(self).wf(),
        ensures
            final(self).wf(),
            old(self)@.steps_to(
                *old(app),
                answer,
                frame,
                now_ms,
                final(self)@,
                *final(app),
                effects@,
            ),
    {
        let nothing: Vec<Effect> = Vec::new();
        assert(nothing@ =~= seq![]);
        match (self.stage, answer) {
            (PassStage::FocusLoss, PassAnswer::Verdicts(verdicts)) => {
                assert(self.batch.pending() =~= self.batch.events@);
                if verdicts.len() == self.batch.events.len() {
                    let dropped = self.batch.drop_on_focus_loss(&verdicts);
                    assert(self.batch.pending() =~= self.batch.events@);
                    app.focus_lost_while_reading(dropped, now_ms);
                    self.stage = PassStage::Reply;
                }
                nothing
            },
            (PassStage::Reply, PassAnswer::Reply(reply)) => {
                self.stage = if self.batch.front().is_none() {
                    PassStage::Packet
                } else {
                    PassStage::Front
                };
                match reply {
                    Some((token, text)) => match &text {
                        Some(text) => app.complete_clipboard_paste(
                            token,
                            Some(text.as_str()),
                            frame,
                        ),
                        None => app.complete_clipboard_paste(token, None, frame),
                    },
                    None => nothing,
                }
            },
            (PassStage::Front, PassAnswer::Done) => match self.batch.front() {
                None => {
                    self.stage = PassStage::Finished;
                    nothing
                },
                Some(event) => {
                    self.stage = PassStage::Barrier;
                    if matches!(event.class, EventClass::FocusLost) {
                        app.cancel_clipboard_paste()
                    } else {
                        nothing
                    }
                },
            },
            (PassStage::Barrier, PassAnswer::Barrier { before, replaces }) => {
                let decision = app.clipboard_barrier(frame, before, replaces);
                if !decision.cancel_read {
                    self.stage = PassStage::Turn;
                    return nothing;
                }
                let ghost earlier = *app;
                let dropped = self.batch.drop_waiting();
                self.stage = PassStage::Settle(dropped);
                let mut effects = app.cancel_clipboard_paste();
                assert(effects@ =~= earlier.reads_given_up() + seq![]);
                if decision.cancel_confirmation {
                    let mut more = app.cancel_paste_confirmation();
                    effects.append(&mut more);
                }
                effects
            },
            (PassStage::Settle(events), PassAnswer::Dropped(bytes)) => {
                app.clipboard_paste_cancelled(bytes, events, now_ms);
                self.stage = PassStage::Turn;
                nothing
            },
            (PassStage::Turn, PassAnswer::Activates(activates)) => {
                let ghost before = self.batch;
                match self.batch.advance(activates) {
                    BatchStep::Finished => {
                        self.stage = PassStage::Finished;
                        nothing
                    },
                    BatchStep::Deferred(rest) => {
                        self.stage = PassStage::Finished;
                        self.deferred = rest;
                        assert(self.batch.pending() =~= Seq::empty());
                        let mut effects = nothing;
                        effects.push(Effect::Repaint);
                        assert(effects@ =~= seq![Effect::Repaint]);
                        effects
                    },
                    BatchStep::Packet(packet) => {
                        assert(self.batch.pending() =~= before.pending().skip(
                            before.packet_length(),
                        ));
                        self.packet = packet;
                        self.stage = PassStage::Packet;
                        nothing
                    },
                }
            },
            (PassStage::Packet, PassAnswer::Left(left)) => {
                self.batch.keep(left);
                self.packet = Vec::new();
                assert(self.packet@ =~= Seq::empty());
                self.stage = if self.batch.front().is_none() {
                    PassStage::Finished
                } else {
                    PassStage::Front
                };
                app.cancel_invalid_clipboard_paste()
            },
            _ => nothing,
        }
    }
}

impl PassView {
    /// Every event of the frame that is still there, in its order.
    pub open spec fn whole(self) -> Seq<InputEvent> {
        self.remaining + self.packet + self.pending + self.deferred
    }

    /// A packet is only there while it is on its way, and only a pass that is
    /// through has put anything off.
    pub open spec fn wf(self) -> bool {
        &&& self.stage != PassStage::Packet ==> self.packet.len() == 0
        &&& self.stage != PassStage::Finished ==> self.deferred.len() == 0
        &&& self.stage == PassStage::Finished ==> self.pending.len() == 0
    }

    /// The answer that the stage asks for.
    pub open spec fn asks_for(self, answer: PassAnswer) -> bool {
        match self.stage {
            PassStage::Recording => false,
            PassStage::FocusLoss => answer is Verdicts && answer->Verdicts_0@.len()
                == self.pending.len(),
            PassStage::Reply => answer is Reply,
            PassStage::Front => answer is Done,
            PassStage::Barrier => answer is Barrier,
            PassStage::Settle(_) => answer is Dropped,
            PassStage::Turn => answer is Activates,
            PassStage::Packet => answer is Left,
            PassStage::Finished => false,
        }
    }

    /// How much is left to do.
    pub open spec fn steps_left(self) -> int {
        16 * self.pending.len() + match self.stage {
            PassStage::Recording => 0int,
            PassStage::FocusLoss => 9,
            PassStage::Reply => 8,
            PassStage::Packet => 7,
            PassStage::Front => 6,
            PassStage::Barrier => 4,
            PassStage::Settle(_) => 3,
            PassStage::Turn => 2,
            PassStage::Finished => 0,
        }
    }
}

proof fn only_shortcuts_is_bounded(events: Seq<InputEvent>, activates: Seq<bool>)
    ensures
        only_shortcuts(events, activates).len() <= events.len(),
    decreases events.len(),
{
    if events.len() > 0 {
        only_shortcuts_is_bounded(events.drop_last(), activates);
    }
}

/// Every answer that was asked for brings a frame's input closer to its end,
/// whatever the answer is.
pub proof fn passes_come_to_an_end(
    pass: PassView,
    app: FesTermApp,
    answer: PassAnswer,
    frame: u64,
    now_ms: u64,
    after: PassView,
    app_after: FesTermApp,
    effects: Seq<Effect>,
)
    requires
        pass.wf(),
        pass.asks_for(answer),
        pass.steps_to(app, answer, frame, now_ms, after, app_after, effects),
    ensures
        after.wf(),
        0 <= after.steps_left() < pass.steps_left(),
{
    if let PassAnswer::Verdicts(verdicts) = answer {
        only_shortcuts_is_bounded(pass.pending, verdicts@);
    }
}

/// No event overtakes another, and none is lost but those that shortcuts take
/// out of their packet and those that are dropped together with a clipboard
/// read: where neither happens, a step leaves the frame's events as they were.
pub proof fn input_keeps_its_order(
    pass: PassView,
    app: FesTermApp,
    answer: PassAnswer,
    frame: u64,
    now_ms: u64,
    after: PassView,
    app_after: FesTermApp,
    effects: Seq<Effect>,
)
    requires
        pass.wf(),
        pass.steps_to(app, answer, frame, now_ms, after, app_after, effects),
        answer is Left ==> answer->Left_0@ == pass.packet,
        pass.stage != PassStage::FocusLoss,
        !(after.stage is Settle),
    ensures
        after.whole() == pass.whole(),
{
    assert(after.whole() =~= pass.whole());
}

/// Input that waits behind a clipboard read is never delivered once an event
/// has given the read up: what is left for the focused surface holds no key, no
/// text and no clipboard gesture.
pub proof fn given_up_reads_release_nothing(
    pass: PassView,
    app: FesTermApp,
    frame: u64,
    before: bool,
    replaces: bool,
)
    requires
        app.shell.focus.clipboard_paste is Some && replaces || app.confirmation_opening(frame)
            && before,
    ensures
        ({
            let (after, app_after, _) = pass.barrier(app, frame, before, replaces);
            &&& app_after.shell.focus.clipboard_paste is None
            &&& app.confirmation_opening(frame) && before
                ==> app_after.shell.overlays.pending_paste is None
            &&& forall|i: int|
                0 <= i < after.remaining.len() ==> !(#[trigger] after.remaining[i]).class.keyboard()
        }),
{
    nothing_typed_is_left(pass.remaining);
}

proof fn nothing_typed_is_left(events: Seq<InputEvent>)
    ensures
        forall|i: int|
            0 <= i < without_keyboard(events).len() ==> !(#[trigger] without_keyboard(
                events,
            )[i]).class.keyboard(),
    decreases events.len(),
{
    if events.len() > 0 {
        nothing_typed_is_left(events.drop_last());
    }
}

/// A packet goes through the shortcuts exactly where nothing holds or blocks it;
/// while a question of this very frame blocks it, repeats and releases are
/// swallowed, and otherwise it is left as it is.
pub proof fn free_packets_are_tried_as_shortcuts(
    app: FesTermApp,
    platform: Platform,
    frame: u64,
    composing: bool,
    held: bool,
    packet: Seq<InputEvent>,
)
    ensures
        ({
            let run = PacketView::begun(app, platform, frame, composing, held, packet);
            let blocked = app.shell.overlays.blocking() || composing;
            &&& run.stage == PacketStage::Paste <==> !held && !blocked
            &&& run.stage == PacketStage::Swallow ==> !held && blocked && !composing
                && app.confirmation_opening(frame) && !app.shell.overlays.blocking_except_paste()
            &&& run.stage == PacketStage::Paste || run.stage == PacketStage::Swallow || run.stage
                == PacketStage::Finished
            &&& run.terminal == app.owns_input()
            &&& !run.paste
            &&& run.text is None
            &&& run.actions.len() == 0
            &&& run.next == 0
        }),
{
}

/// A pressed paste is carried out with the text that came with it, where the
/// terminal owned the keyboard, and so is every other action whose binding was
/// pressed; nothing else is.
pub proof fn pressed_actions_are_carried_out(
    run: PacketView,
    app: FesTermApp,
    consumed: Vec<KeyboardAction>,
    documents: Seq<OpenDocument>,
    chord: Option<String>,
    frame: u64,
    now_ms: u64,
    after: PacketView,
    app_after: FesTermApp,
    effects: Seq<Effect>,
    action: KeyboardAction,
)
    requires
        run.stage == PacketStage::Actions,
        run.steps_to(
            app,
            PacketAnswer::Actions(consumed),
            documents,
            chord,
            frame,
            now_ms,
            after,
            app_after,
            effects,
        ),
    ensures
        app_after == app,
        effects.len() == 0,
        after.stage == PacketStage::Run,
        after.next == 0,
        after.text == run.text,
        run.paste ==> after.actions.contains(KeyboardAction::Paste),
        consumed@.contains(action) && action != KeyboardAction::CommandPalette && !(
        action is QuickSwitch) ==> after.actions.contains(action.principal_action()),
        after.actions.contains(action) ==> (action == KeyboardAction::Paste && run.paste)
            || exists|i: int|
            0 <= i < consumed@.len() && (#[trigger] consumed@[i]).principal_action() == action,
{
    broadcast use vstd::seq_lib::group_filter_ensures;

    let pressed = if run.paste {
        consumed@.push(KeyboardAction::Paste)
    } else {
        consumed@
    };
    let n = dispatch_order().len() as int;
    let order = dispatch_order();
    assert(order.take(n) =~= order);
    triggered_actions_are_carried_out_once(pressed, n);
    every_action_has_one_place(action);
    every_action_has_one_place(KeyboardAction::Paste);
    let wanted = |action: KeyboardAction|
        exists|i: int|
            0 <= i < pressed.len() && (#[trigger] pressed[i]).principal_action() == action;
    assert(after.actions == order.filter(wanted));
    if run.paste {
        assert(pressed[pressed.len() - 1].principal_action() == KeyboardAction::Paste);
        assert(wanted(KeyboardAction::Paste));
        assert(order.contains(KeyboardAction::Paste));
        assert(order.filter(wanted).contains(KeyboardAction::Paste));
    }
    if consumed@.contains(action) && action != KeyboardAction::CommandPalette && !(
    action is QuickSwitch) {
        let i = choose|i: int| 0 <= i < consumed@.len() && consumed@[i] == action;
        assert(pressed[i] == action);
        assert(wanted(action.principal_action()));
        assert(order.filter(wanted).contains(action.principal_action()));
    }
    if after.actions.contains(action) {
        kept_are_wanted(order, wanted, action);
        let i = choose|i: int|
            0 <= i < pressed.len() && (#[trigger] pressed[i]).principal_action() == action;
        if i < consumed@.len() {
            assert(consumed@[i] == pressed[i]);
        }
    }
}

proof fn kept_are_wanted(
    order: Seq<KeyboardAction>,
    wanted: spec_fn(KeyboardAction) -> bool,
    action: KeyboardAction,
)
    requires
        order.filter(wanted).contains(action),
    ensures
        wanted(action),
    decreases order.len(),
{
    reveal(Seq::filter);
    if order.len() > 0 {
        let rest = order.drop_last().filter(wanted);
        let k = choose|k: int| 0 <= k < order.filter(wanted).len() && order.filter(wanted)[k]
            == action;
        if k < rest.len() {
            assert(rest[k] == action);
            kept_are_wanted(order.drop_last(), wanted, action);
        }
    }
}

/// The actions of a packet are carried out one after the other, each on what the
/// one before left: a paste brings the packet's own text to the terminal in front,
/// and any other does what it is called.
pub proof fn actions_run_one_by_one(
    run: PacketView,
    app: FesTermApp,
    documents: Seq<OpenDocument>,
    chord: Option<String>,
    frame: u64,
    now_ms: u64,
    after: PacketView,
    app_after: FesTermApp,
    effects: Seq<Effect>,
)
    requires
        run.stage == PacketStage::Run,
        0 <= run.next < run.actions.len(),
        run.steps_to(
            app,
            PacketAnswer::Done,
            documents,
            chord,
            frame,
            now_ms,
            after,
            app_after,
            effects,
        ),
    ensures
        after.next == run.next + 1,
        after.stage == PacketStage::Run,
        after.actions == run.actions,
        after.text == run.text,
        run.actions[run.next] == KeyboardAction::Paste ==> app.pastes(
            run.text,
            frame,
            app_after,
            effects,
        ),
        run.actions[run.next] != KeyboardAction::Paste ==> (app_after, effects)
            == app.action_outcome(run.actions[run.next], documents, chord, now_ms),
{
}

/// The first answers of a packet are taken as they are: a paste with its text,
/// which only a terminal that owned the keyboard gets; then the shortcuts that
/// count while the palette is open, after which the others count only where it is
/// closed.
pub proof fn packets_take_what_was_pressed(
    run: PacketView,
    app: FesTermApp,
    pressed: bool,
    text: Option<String>,
    shortcuts: PaletteShortcuts,
    documents: Seq<OpenDocument>,
    chord: Option<String>,
    frame: u64,
    now_ms: u64,
    after: PacketView,
    app_after: FesTermApp,
    effects: Seq<Effect>,
)
    ensures
        run.stage == PacketStage::Paste && run.steps_to(
            app,
            PacketAnswer::Paste { pressed, text },
            documents,
            chord,
            frame,
            now_ms,
            after,
            app_after,
            effects,
        ) ==> {
            &&& app_after == app
            &&& effects.len() == 0
            &&& after.stage == PacketStage::Palette
            &&& after.paste == pressed
            &&& run.terminal ==> after.text == optional_text(text)
            &&& !run.terminal ==> after.text is None
        },
        run.stage == PacketStage::Palette && run.steps_to(
            app,
            PacketAnswer::Palette(shortcuts),
            documents,
            chord,
            frame,
            now_ms,
            after,
            app_after,
            effects,
        ) ==> {
            &&& app_after.state == app.state
            &&& app_after.shell.overlays == app.shell.overlays
            &&& app_after.shell.focus.palette_open == app.palette_after(shortcuts)
            &&& effects == app.palette_effects(shortcuts)
            &&& after.stage == PacketStage::Actions <==> !app_after.shell.focus.palette_open
            &&& after.paste == run.paste
            &&& after.text == run.text
        },
{
}

/// A shortcut never overtakes input that has not been delivered yet: it waits,
/// with all that follows it, for the next frame. Any other event goes on with the
/// gesture that belongs to it, and the rest stays to come.
pub proof fn shortcuts_wait_for_earlier_input(
    pass: PassView,
    app: FesTermApp,
    activates: bool,
    frame: u64,
    now_ms: u64,
    after: PassView,
    app_after: FesTermApp,
    effects: Seq<Effect>,
)
    requires
        pass.stage == PassStage::Turn,
        pass.pending.len() > 0,
        pass.steps_to(
            app,
            PassAnswer::Activates(activates),
            frame,
            now_ms,
            after,
            app_after,
            effects,
        ),
    ensures
        app_after == app,
        after.remaining == pass.remaining,
        activates && any_ordered(pass.remaining) ==> {
            &&& after.deferred == pass.pending
            &&& after.pending.len() == 0
            &&& after.stage == PassStage::Finished
            &&& effects.contains(Effect::Repaint)
        },
        !(activates && any_ordered(pass.remaining)) ==> {
            &&& after.stage == PassStage::Packet
            &&& after.packet.len() >= 1
            &&& after.packet[0] == pass.pending[0]
            &&& after.packet + after.pending == pass.pending
            &&& after.deferred == pass.deferred
            &&& effects.len() == 0
        },
{
    if activates && any_ordered(pass.remaining) {
        assert(effects[0] == Effect::Repaint);
    } else {
        assert(after.packet + after.pending =~= pass.pending);
    }
}

/// What shortcuts leave of a packet goes on to the focused surface behind what
/// went before, and a clipboard read that has become useless is given up.
pub proof fn the_rest_of_a_packet_goes_on(
    pass: PassView,
    app: FesTermApp,
    left: Vec<InputEvent>,
    frame: u64,
    now_ms: u64,
    after: PassView,
    app_after: FesTermApp,
    effects: Seq<Effect>,
)
    requires
        pass.stage == PassStage::Packet,
        pass.steps_to(app, PassAnswer::Left(left), frame, now_ms, after, app_after, effects),
    ensures
        after.remaining == pass.remaining + left@,
        after.packet.len() == 0,
        after.pending == pass.pending,
        after.stage == PassStage::Finished <==> pass.pending.len() == 0,
        (app_after, effects) == app.read_checked(),
{
}

/// The answer to a clipboard read reaches the window that waits for it, before
/// any event of the frame; without an answer nothing changes.
pub proof fn replies_reach_the_window(
    pass: PassView,
    app: FesTermApp,
    reply: Option<(u64, Option<String>)>,
    frame: u64,
    now_ms: u64,
    after: PassView,
    app_after: FesTermApp,
    effects: Seq<Effect>,
)
    requires
        pass.stage == PassStage::Reply,
        pass.steps_to(app, PassAnswer::Reply(reply), frame, now_ms, after, app_after, effects),
    ensures
        after.pending == pass.pending,
        after.remaining == pass.remaining,
        reply is None ==> app_after == app && effects.len() == 0,
        reply is Some ==> app.takes_reply(
            reply->Some_0.0,
            optional_text(reply->Some_0.1),
            frame,
            app_after,
            effects,
        ),
{
}

/// A window that loses the focus waits for no clipboard read any more: the read
/// is given up as the frame begins, and again when the event itself comes up.
/// Events that a recording of bindings owns are left to it.
pub proof fn losing_the_focus_gives_reads_up(
    app: FesTermApp,
    events: Seq<InputEvent>,
    recording: bool,
    i: int,
)
    requires
        0 <= i < events.len(),
        events[i].class == EventClass::FocusLost,
    ensures
        ({
            let (pass, after, effects) = PassView::begun(app, events, recording);
            &&& !recording ==> after.shell.focus.clipboard_paste is None
            &&& !recording && app.shell.focus.clipboard_paste is Some ==> effects.contains(
                Effect::CancelClipboardRequest(app.shell.focus.clipboard_paste->Some_0.token),
            )
            &&& recording ==> pass.stage == PassStage::Recording
            &&& pass.pending == events
            &&& pass.remaining.len() == 0
            &&& pass.deferred.len() == 0
            &&& after.state == app.state
            &&& after.shell.overlays == app.shell.overlays
        }),
{
    assert(focus_lost(events));
    let (checked, given_up) = app.read_checked();
    let (_, _, effects) = PassView::begun(app, events, recording);
    if !recording && app.shell.focus.clipboard_paste is Some {
        let origin = app.shell.focus.clipboard_paste->Some_0;
        if app.clipboard_read_valid(origin) {
            assert(given_up.len() == 0);
            assert(effects[0] == checked.reads_given_up()[0]);
        } else {
            assert(effects[0] == given_up[0]);
        }
        assert(effects[0] == Effect::CancelClipboardRequest(origin.token));
    }
}

/// Without a loss of the focus a frame begins with its events as they came, and
/// keeps a clipboard read that can still be used.
pub proof fn quiet_frames_begin_with_their_events(
    app: FesTermApp,
    events: Seq<InputEvent>,
)
    requires
        forall|i: int|
            0 <= i < events.len() ==> (#[trigger] events[i]).class != EventClass::FocusLost,
    ensures
        ({
            let (pass, after, effects) = PassView::begun(app, events, false);
            &&& pass.stage == PassStage::Reply
            &&& pass.pending == events
            &&& (after, effects) == app.read_checked()
        }),
{
}

/// What would have followed a clipboard read that the loss of the focus has
/// cancelled is dropped, but for shortcuts and what no terminal would be sent; and
/// that it was is said.
pub proof fn dropped_on_focus_loss_is_told(
    pass: PassView,
    app: FesTermApp,
    verdicts: Vec<bool>,
    frame: u64,
    now_ms: u64,
    after: PassView,
    app_after: FesTermApp,
    effects: Seq<Effect>,
)
    requires
        pass.stage == PassStage::FocusLoss,
        verdicts@.len() == pass.pending.len(),
        pass.steps_to(app, PassAnswer::Verdicts(verdicts), frame, now_ms, after, app_after, effects),
    ensures
        after.pending == only_shortcuts(pass.pending, verdicts@),
        after.stage == PassStage::Reply,
        effects.len() == 0,
        after.pending.len() < pass.pending.len() ==> {
            &&& app_after.shell.overlays.transient_notice is Some
            &&& app_after.shell.overlays.transient_notice->Some_0.notice
                == Notice::ClipboardCancelledOnFocusLoss
        },
        after.pending.len() == pass.pending.len() ==> app_after == app,
        app_after.state == app.state,
{
    only_shortcuts_is_bounded(pass.pending, verdicts@);
}

/// An event that gives no read up leaves everything as it is.
pub proof fn harmless_events_give_no_read_up(
    pass: PassView,
    app: FesTermApp,
    frame: u64,
    before: bool,
    replaces: bool,
)
    requires
        !(app.confirmation_opening(frame) && before),
        !(app.shell.focus.clipboard_paste is Some && replaces),
    ensures
        ({
            let (after, app_after, effects) = pass.barrier(app, frame, before, replaces);
            &&& app_after == app
            &&& effects.len() == 0
            &&& after == (PassView { stage: PassStage::Turn, ..pass })
        }),
{
}

} // verus!
