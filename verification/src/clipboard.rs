//! Pasting into a terminal: which clipboard reads still count, what becomes of
//! the text they bring, and of the input that was waiting behind them.
use vstd::prelude::*;

use crate::app::{ClipboardPasteOrigin, FesTermApp, FocusState};
#[allow(unused_imports)]
use crate::app::Shell;
use crate::dialogs::refocus;
#[allow(unused_imports)]
use crate::dialogs::DialogClick;
use crate::effects::Effect;
use crate::overlays::{Notice, OverlayState, PendingPasteConfirmation, TransientNotice};
use crate::paste::{normalize_paste_line_endings, requires_confirmation};
#[allow(unused_imports)]
use crate::paste::{needs_confirmation, normalized};
#[allow(unused_imports)]
use crate::state::session_of;
use crate::state::{SessionTab, TabId};

verus! {

/// How long notices about the clipboard stay.
pub const CLIPBOARD_NOTICE_MS: u64 = 5_000;

/// The characters of text that is lent, where there is any.
pub open spec fn borrowed_text(text: Option<&str>) -> Option<Seq<char>> {
    match text {
        Some(text) => Some(text@),
        None => None,
    }
}

/// `effect` sends `text` to the session in `tab`, in the place of `token`.
pub open spec fn delivers(effect: Effect, tab: TabId, token: Option<u64>, text: Seq<char>) -> bool {
    match effect {
        Effect::DeliverPaste { tab: to, token: place, text: sent } => {
            &&& to == tab
            &&& place == token
            &&& sent@ == text
        },
        _ => false,
    }
}

/// `pending` asks about sending `text` to `session` in `tab`.
pub open spec fn asks_about(
    pending: PendingPasteConfirmation,
    session: SessionTab,
    tab: TabId,
    text: Seq<char>,
    token: Option<u64>,
    epoch: u64,
    frame: u64,
) -> bool {
    &&& pending.clipboard_token == token
    &&& pending.opened_frame == frame
    &&& pending.tab == tab
    &&& pending.identity == session.label
    &&& pending.text@ == text
    &&& pending.transport_state == session.status_label
    &&& pending.lifecycle_generation == session.lifecycle_generation
    &&& pending.input_ownership_epoch == epoch
    &&& pending.bracketed_paste == session.bracketed_paste
    &&& !pending.cancel_focus_requested
}

/// What is said about input that was dropped behind a clipboard read: `bytes`
/// already queued, or better still how many `events` of the current frame.
pub open spec fn discard_notice(bytes: u64, events: usize) -> Option<Notice> {
    if events > 0 {
        Some(Notice::ClipboardEventsDiscarded(events))
    } else if bytes > 0 {
        Some(Notice::ClipboardBytesDiscarded(bytes))
    } else {
        None
    }
}

impl FesTermApp {
    /// The window with a notice put up now, where there is one.
    pub open spec fn with_notice(self, notice: Option<Notice>, now_ms: u64, duration_ms: u64) -> Self {
        match notice {
            Some(notice) => self.with_overlays(
                OverlayState {
                    transient_notice: Some(
                        TransientNotice { notice, shown_at_ms: now_ms, duration_ms },
                    ),
                    ..self.shell.overlays
                },
            ),
            None => self,
        }
    }

    /// Takes in text that is to be pasted into `tab`. Line endings are
    /// normalised; text for a session that takes no input is dropped; small
    /// text goes out at once; the rest is asked about.
    pub fn handle_paste_request(
        &mut self,
        tab: TabId,
        text: &str,
        token: Option<u64>,
        frame: u64,
    ) -> (effects: Vec<Effect>)
        ensures
            match session_of(old(self).state.tabs@, tab) {
                None => *final(self) == *old(self) && effects@.len() == 0,
                Some(session) => if !session.accepts_input {
                    &&& *final(self) == *old(self)
                    &&& effects@ == (match token {
                        Some(token) => seq![Effect::CancelClipboardInput { tab, token }],
                        None => seq![],
                    }) + seq![Effect::ReportClipboardDiscards(tab)]
                } else if !needs_confirmation(normalized(text@), session.bracketed_paste) {
                    &&& *final(self) == *old(self)
                    &&& effects@.len() == 1
                    &&& delivers(effects@[0], tab, token, normalized(text@))
                } else {
                    &&& effects@.len() == 0
                    &&& *final(self) == old(self).with_overlays(
                        OverlayState {
                            pending_paste: final(self).shell.overlays.pending_paste,
                            ..old(self).shell.overlays
                        },
                    )
                    &&& final(self).shell.overlays.pending_paste is Some
                    &&& asks_about(
                        final(self).shell.overlays.pending_paste->Some_0,
                        session,
                        tab,
                        normalized(text@),
                        token,
                        old(self).shell.focus.ownership_epoch,
                        frame,
                    )
                },
            },
    {
        let mut effects = Vec::new();
        let text = normalize_paste_line_endings(text);
        let session = match self.state.session_tab(tab) {
            Some(session) => session,
            None => return effects,
        };
        if !session.accepts_input {
            if let Some(token) = token {
                effects.push(Effect::CancelClipboardInput { tab, token });
            }
            effects.push(Effect::ReportClipboardDiscards(tab));
            assert(effects@ =~= (match token {
                Some(token) => seq![Effect::CancelClipboardInput { tab, token }],
                None => seq![],
            }) + seq![Effect::ReportClipboardDiscards(tab)]);
            return effects;
        }
        if !requires_confirmation(text.as_str(), session.bracketed_paste) {
            effects.push(Effect::DeliverPaste { tab, token, text });
            return effects;
        }
        let pending = PendingPasteConfirmation {
            clipboard_token: token,
            opened_frame: frame,
            tab,
            identity: session.label.clone(),
            text,
            transport_state: session.status_label.clone(),
            lifecycle_generation: session.lifecycle_generation,
            input_ownership_epoch: self.shell.focus.ownership_epoch,
            bracketed_paste: session.bracketed_paste,
            cancel_focus_requested: false,
        };
        self.shell.overlays.pending_paste = Some(pending);
        effects
    }

    /// The clipboard read that is waited for can still be used: the terminal
    /// that asked still owns the keyboard, and its session is the same.
    pub open spec fn clipboard_read_valid(self, origin: ClipboardPasteOrigin) -> bool {
        &&& self.owns_input()
        &&& self.state.active == origin.tab
        &&& self.shell.focus.ownership_epoch == origin.ownership_epoch
        &&& match session_of(self.state.tabs@, origin.tab) {
            Some(session) => {
                &&& session.accepts_input
                &&& session.clipboard_pending == Some(origin.token)
                &&& session.lifecycle_generation == origin.generation
            },
            None => false,
        }
    }

    /// The window without the clipboard read that it waited for.
    pub open spec fn without_clipboard_read(self) -> Self {
        self.with_focus(FocusState { clipboard_paste: None, ..self.shell.focus })
    }

    /// What giving up a clipboard read asks for.
    pub open spec fn read_given_up(self, origin: ClipboardPasteOrigin) -> Seq<Effect> {
        seq![Effect::CancelClipboardRequest(origin.token)] + (if session_of(
            self.state.tabs@,
            origin.tab,
        ) is Some {
            seq![Effect::FailClipboardInput { tab: origin.tab, token: origin.token }]
        } else {
            seq![]
        })
    }

    /// What giving up the clipboard read that is waited for, if there is one,
    /// leads to.
    pub open spec fn reads_given_up(self) -> Seq<Effect> {
        match self.shell.focus.clipboard_paste {
            Some(origin) => self.read_given_up(origin),
            None => seq![],
        }
    }

    /// Gives up the clipboard read that is waited for. Once the effects are
    /// carried out, `clipboard_paste_cancelled` takes in what was dropped.
    pub fn cancel_clipboard_paste(&mut self) -> (effects: Vec<Effect>)
        ensures
            *final(self) == old(self).without_clipboard_read(),
            effects@ == old(self).reads_given_up(),
    {
        let mut effects = Vec::new();
        if let Some(origin) = self.shell.focus.clipboard_paste.take() {
            effects.push(Effect::CancelClipboardRequest(origin.token));
            if self.state.session_tab(origin.tab).is_some() {
                effects.push(
                    Effect::FailClipboardInput { tab: origin.tab, token: origin.token },
                );
            }
            assert(effects@ =~= old(self).read_given_up(origin));
        } else {
            assert(effects@ =~= seq![]);
        }
        effects
    }

    /// Takes in what giving up a clipboard read dropped: queued bytes, and
    /// events of the current frame.
    pub fn clipboard_paste_cancelled(&mut self, bytes: u64, events: usize, now_ms: u64)
        ensures
            *final(self) == old(self).with_notice(
                discard_notice(bytes, events),
                now_ms,
                CLIPBOARD_NOTICE_MS,
            ),
    {
        if events > 0 {
            self.shell.overlays.notify(
                Notice::ClipboardEventsDiscarded(events),
                now_ms,
                CLIPBOARD_NOTICE_MS,
            );
        } else if bytes > 0 {
            self.shell.overlays.notify(
                Notice::ClipboardBytesDiscarded(bytes),
                now_ms,
                CLIPBOARD_NOTICE_MS,
            );
        }
    }

    /// Takes in how many bytes of a tab's input queue were dropped.
    pub fn show_clipboard_discard_notice(&mut self, bytes: u64, now_ms: u64)
        ensures
            *final(self) == old(self).with_notice(
                discard_notice(bytes, 0),
                now_ms,
                CLIPBOARD_NOTICE_MS,
            ),
    {
        self.clipboard_paste_cancelled(bytes, 0, now_ms);
    }

    /// What is left of the clipboard read that is waited for: one that can no
    /// longer be used is given up.
    pub open spec fn read_checked(self) -> (Self, Seq<Effect>) {
        match self.shell.focus.clipboard_paste {
            Some(origin) => if self.clipboard_read_valid(origin) {
                (self, seq![])
            } else {
                (self.without_clipboard_read(), self.read_given_up(origin))
            },
            None => (self, seq![]),
        }
    }

    /// Gives up the clipboard read that is waited for, where it can no longer
    /// be used.
    pub fn cancel_invalid_clipboard_paste(&mut self) -> (effects: Vec<Effect>)
        ensures
            (*final(self), effects@) == old(self).read_checked(),
    {
        let nothing: Vec<Effect> = Vec::new();
        assert(nothing@ =~= seq![]);
        let origin = match self.shell.focus.clipboard_paste {
            Some(origin) => origin,
            None => return nothing,
        };
        let same_session = match self.state.session_tab(origin.tab) {
            Some(session) => session.accepts_input && session.lifecycle_generation
                == origin.generation && match session.clipboard_pending {
                Some(token) => token == origin.token,
                None => false,
            },
            None => false,
        };
        if self.terminal_owns_input() && self.state.active == origin.tab
            && self.shell.focus.ownership_epoch == origin.ownership_epoch && same_session {
            return nothing;
        }
        self.cancel_clipboard_paste()
    }

    /// `after` and `effects` are what pasting into the terminal in front leads
    /// to: `text` is sent or asked about, and without any the clipboard is asked
    /// for.
    pub open spec fn pastes(
        self,
        text: Option<Seq<char>>,
        frame: u64,
        after: Self,
        effects: Seq<Effect>,
    ) -> bool {
        let tab = self.state.active;
        let given_up = self.reads_given_up();
        let free = self.without_clipboard_read();
        if !self.owns_input() {
            after == self && effects.len() == 0
        } else if !self.state.active_session()->Some_0.accepts_input {
            after == free && effects == given_up
        } else {
            match text {
                None => {
                    &&& after == free
                    &&& effects == given_up + seq![Effect::RequestClipboard(tab)]
                },
                Some(text) => {
                    let session = self.state.active_session()->Some_0;
                    let start = given_up + seq![Effect::FinishFailedClipboardInput(tab)];
                    let end = seq![Effect::FocusTerminal(tab), Effect::Repaint];
                    if needs_confirmation(normalized(text), session.bracketed_paste) {
                        &&& effects == start + end
                        &&& after == free.with_overlays(
                            OverlayState {
                                pending_paste: after.shell.overlays.pending_paste,
                                ..self.shell.overlays
                            },
                        )
                        &&& after.shell.overlays.pending_paste is Some
                        &&& asks_about(
                            after.shell.overlays.pending_paste->Some_0,
                            session,
                            tab,
                            normalized(text),
                            None,
                            self.shell.focus.ownership_epoch,
                            frame,
                        )
                    } else {
                        &&& after == free
                        &&& effects.len() == start.len() + 1 + end.len()
                        &&& effects.take(start.len() as int) == start
                        &&& delivers(effects[start.len() as int], tab, None, normalized(text))
                        &&& effects.skip(start.len() as int + 1) == end
                    }
                },
            }
        }
    }

    /// Begins to paste into the terminal in front, where that owns the keyboard
    /// and takes input. A clipboard read that was still waited for is given up,
    /// and a new one asked for; `text` is what came with the key press itself
    /// and needs no read.
    pub fn paste_into_active_session_with_text(
        &mut self,
        text: Option<&str>,
        frame: u64,
    ) -> (effects: Vec<Effect>)
        ensures
            old(self).pastes(borrowed_text(text), frame, *final(self), effects@),
    {
        if !self.terminal_owns_input() {
            return Vec::new();
        }
        let tab = self.state.active;
        let ghost given_up = self.reads_given_up();
        let mut effects = self.cancel_clipboard_paste();
        let accepts = match self.state.session_tab(tab) {
            Some(session) => session.accepts_input,
            None => false,
        };
        if !accepts {
            return effects;
        }
        match text {
            None => {
                effects.push(Effect::RequestClipboard(tab));
                assert(effects@ =~= given_up + seq![Effect::RequestClipboard(tab)]);
            },
            Some(text) => {
                effects.push(Effect::FinishFailedClipboardInput(tab));
                let ghost start = given_up + seq![Effect::FinishFailedClipboardInput(tab)];
                assert(effects@ =~= start);
                let mut more = self.handle_paste_request(tab, text, None, frame);
                let ghost sent = more@;
                effects.append(&mut more);
                effects.push(Effect::FocusTerminal(tab));
                effects.push(Effect::Repaint);
                let ghost end = seq![Effect::FocusTerminal(tab), Effect::Repaint];
                proof {
                    assert(effects@ =~= start + sent + end);
                    if sent.len() == 0 {
                        assert(effects@ =~= start + end);
                    } else {
                        assert(effects@.take(start.len() as int) =~= start);
                        assert(effects@[start.len() as int] == sent[0]);
                        assert(effects@.skip(start.len() as int + 1) =~= end);
                    }
                }
            },
        }
        effects
    }

    /// What asking to paste into the terminal in front leads to.
    pub open spec fn paste_requested(self) -> (Self, Seq<Effect>) {
        let given_up = self.reads_given_up();
        if !self.owns_input() {
            (self, seq![])
        } else if !self.state.active_session()->Some_0.accepts_input {
            (self.without_clipboard_read(), given_up)
        } else {
            (
                self.without_clipboard_read(),
                given_up + seq![Effect::RequestClipboard(self.state.active)],
            )
        }
    }

    /// Asks for the clipboard, to paste it into the terminal in front.
    pub fn paste_into_active_session(&mut self) -> (effects: Vec<Effect>)
        ensures
            (*final(self), effects@) == old(self).paste_requested(),
    {
        let effects = self.paste_into_active_session_with_text(None, 0);
        assert(effects@ =~= old(self).paste_requested().1);
        effects
    }

    /// Takes in what asking for the clipboard gave: a token for the read, and
    /// whether the session could keep a place for it.
    pub fn clipboard_requested(&mut self, tab: TabId, token: Option<u64>, begun: bool) -> (effects:
        Vec<Effect>)
        requires
            session_of(old(self).state.tabs@, tab) is Some,
        ensures
            match token {
                Some(token) => if begun {
                    &&& *final(self) == old(self).with_focus(
                        FocusState {
                            clipboard_paste: Some(
                                ClipboardPasteOrigin {
                                    token,
                                    tab,
                                    generation: session_of(
                                        old(self).state.tabs@,
                                        tab,
                                    )->Some_0.lifecycle_generation,
                                    ownership_epoch: old(self).shell.focus.ownership_epoch,
                                },
                            ),
                            ..old(self).shell.focus
                        },
                    )
                    &&& effects@ == refocus(*old(self), old(self).state.active) + seq![
                        Effect::Repaint,
                    ]
                } else {
                    &&& *final(self) == *old(self)
                    &&& effects@ == seq![Effect::CancelClipboardRequest(token)]
                },
                None => {
                    &&& *final(self) == *old(self)
                    &&& effects@ == refocus(*old(self), old(self).state.active) + seq![
                        Effect::Repaint,
                    ]
                },
            },
    {
        let mut effects = Vec::new();
        if let Some(token) = token {
            if !begun {
                effects.push(Effect::CancelClipboardRequest(token));
                assert(effects@ =~= seq![Effect::CancelClipboardRequest(token)]);
                return effects;
            }
            let generation: u64 = match self.state.session_tab(tab) {
                Some(session) => session.lifecycle_generation,
                None => 0,
            };
            self.shell.focus.clipboard_paste = Some(
                ClipboardPasteOrigin {
                    token,
                    tab,
                    generation,
                    ownership_epoch: self.shell.focus.ownership_epoch,
                },
            );
        }
        self.push_refocus(self.state.active, &mut effects);
        effects.push(Effect::Repaint);
        assert(effects@ =~= refocus(*old(self), old(self).state.active) + seq![Effect::Repaint]);
        effects
    }

    /// `after` and `effects` are what the answer to the clipboard read `token`
    /// leads to; `text` is absent where the read failed.
    pub open spec fn takes_reply(
        self,
        token: u64,
        text: Option<Seq<char>>,
        frame: u64,
        after: Self,
        effects: Seq<Effect>,
    ) -> bool {
        match self.shell.focus.clipboard_paste {
            Some(origin) => if origin.token != token {
                after == self && effects.len() == 0
            } else {
                match text {
                    Some(text) => {
                        let free = self.without_clipboard_read();
                        match session_of(self.state.tabs@, origin.tab) {
                            None => after == free && effects.len() == 0,
                            Some(session) => if !session.accepts_input {
                                &&& after == free
                                &&& effects == seq![
                                    Effect::CancelClipboardInput { tab: origin.tab, token },
                                    Effect::ReportClipboardDiscards(origin.tab),
                                ]
                            } else if !needs_confirmation(
                                normalized(text),
                                session.bracketed_paste,
                            ) {
                                &&& after == free
                                &&& effects.len() == 1
                                &&& delivers(
                                    effects[0],
                                    origin.tab,
                                    Some(token),
                                    normalized(text),
                                )
                            } else {
                                &&& effects.len() == 0
                                &&& after == free.with_overlays(
                                    OverlayState {
                                        pending_paste: after.shell.overlays.pending_paste,
                                        ..self.shell.overlays
                                    },
                                )
                                &&& after.shell.overlays.pending_paste is Some
                                &&& asks_about(
                                    after.shell.overlays.pending_paste->Some_0,
                                    session,
                                    origin.tab,
                                    normalized(text),
                                    Some(token),
                                    self.shell.focus.ownership_epoch,
                                    frame,
                                )
                            },
                        }
                    },
                    None => {
                        &&& after == self
                        &&& effects == (if session_of(self.state.tabs@, origin.tab) is Some {
                            seq![Effect::FailClipboardInput { tab: origin.tab, token }]
                        } else {
                            seq![]
                        }) + seq![Effect::ReportClipboardDiscards(origin.tab)]
                    },
                }
            },
            None => after == self && effects.len() == 0,
        }
    }

    /// Takes in the answer to a clipboard read. Only the answer to the read
    /// that is waited for counts; a late or repeated one changes nothing.
    pub fn complete_clipboard_paste(
        &mut self,
        token: u64,
        text: Option<&str>,
        frame: u64,
    ) -> (effects: Vec<Effect>)
        ensures
            old(self).takes_reply(token, borrowed_text(text), frame, *final(self), effects@),
    {
        let mut effects = Vec::new();
        let origin = match self.shell.focus.clipboard_paste {
            Some(origin) => origin,
            None => return effects,
        };
        if origin.token != token {
            return effects;
        }
        match text {
            Some(text) => {
                self.shell.focus.clipboard_paste = None;
                let effects = self.handle_paste_request(origin.tab, text, Some(token), frame);
                proof {
                    assert(seq![Effect::CancelClipboardInput { tab: origin.tab, token }] + seq![
                        Effect::ReportClipboardDiscards(origin.tab),
                    ] =~= seq![
                        Effect::CancelClipboardInput { tab: origin.tab, token },
                        Effect::ReportClipboardDiscards(origin.tab),
                    ]);
                }
                effects
            },
            None => {
                if self.state.session_tab(origin.tab).is_some() {
                    effects.push(Effect::FailClipboardInput { tab: origin.tab, token });
                }
                effects.push(Effect::ReportClipboardDiscards(origin.tab));
                assert(effects@ =~= (if session_of(old(self).state.tabs@, origin.tab) is Some {
                    seq![Effect::FailClipboardInput { tab: origin.tab, token }]
                } else {
                    seq![]
                }) + seq![Effect::ReportClipboardDiscards(origin.tab)]);
                effects
            },
        }
    }

    /// Takes in that sending the text of a clipboard read failed: the read is
    /// waited for again, so that what follows it stays held back.
    pub fn clipboard_delivery_checked(&mut self, origin: ClipboardPasteOrigin)
        ensures
            *final(self) == match session_of(old(self).state.tabs@, origin.tab) {
                Some(session) => if session.clipboard_failed == Some(origin.token) {
                    old(self).with_focus(
                        FocusState { clipboard_paste: Some(origin), ..old(self).shell.focus },
                    )
                } else {
                    *old(self)
                },
                None => *old(self),
            },
    {
        let failed = match self.state.session_tab(origin.tab) {
            Some(session) => match session.clipboard_failed {
                Some(token) => token == origin.token,
                None => false,
            },
            None => false,
        };
        if failed {
            self.shell.focus.clipboard_paste = Some(origin);
        }
    }
}

/// Whether text is handed to its session: text without a clipboard read always
/// is, and any other once its place in the input queue is ready.
pub fn delivery_goes_ahead(token: Option<u64>, prepared: bool) -> (result: bool)
    ensures
        result == (token is None || prepared),
{
    token.is_none() || prepared
}

/// The place to give up after an attempt to send text: one that is still open
/// was not filled, and what follows it must not go out.
pub fn delivery_to_fail(token: Option<u64>, still_pending: bool) -> (failed: Option<u64>)
    ensures
        failed == if still_pending {
            token
        } else {
            None
        },
{
    if still_pending {
        token
    } else {
        None
    }
}

/// A clipboard read that the keyboard has moved away from is never used: as
/// soon as another tab is in front, its session has started anew, another
/// surface has had the keyboard, or something blocks the terminal, it is invalid.
pub proof fn stale_clipboard_reads_are_invalid(app: FesTermApp, origin: ClipboardPasteOrigin)
    requires
        app.shell.overlays.blocking() || app.state.active != origin.tab
            || app.shell.focus.ownership_epoch != origin.ownership_epoch || app.shell.focus.palette_open
            || app.shell.focus.inspector_open || app.shell.focus.rename_restore_tab is Some || (
        session_of(app.state.tabs@, origin.tab) is Some && session_of(
            app.state.tabs@,
            origin.tab,
        )->Some_0.lifecycle_generation != origin.generation),
    ensures
        !app.clipboard_read_valid(origin),
{
}

/// A clipboard read that has just been asked for can be used, as long as nothing
/// changes: the terminal in front owns the keyboard, takes input and keeps a place
/// for it.
pub proof fn fresh_clipboard_reads_are_valid(app: FesTermApp, token: u64)
    requires
        app.owns_input(),
        app.state.active_session()->Some_0.accepts_input,
        app.state.active_session()->Some_0.clipboard_pending == Some(token),
    ensures
        app.clipboard_read_valid(
            ClipboardPasteOrigin {
                token,
                tab: app.state.active,
                generation: app.state.active_session()->Some_0.lifecycle_generation,
                ownership_epoch: app.shell.focus.ownership_epoch,
            },
        ),
{
}

/// A read that can still be used is left alone; one that cannot is no longer
/// waited for, and the place that its own tab kept for it is given up. Nothing
/// else about the window changes.
pub proof fn useless_clipboard_reads_are_given_up(app: FesTermApp)
    ensures
        ({
            let (after, effects) = app.read_checked();
            let origin = app.shell.focus.clipboard_paste;
            &&& origin is None ==> after == app && effects.len() == 0
            &&& origin is Some && app.clipboard_read_valid(origin->Some_0) ==> after == app
                && effects.len() == 0
            &&& origin is Some && !app.clipboard_read_valid(origin->Some_0) ==> {
                &&& after.shell.focus.clipboard_paste is None
                &&& after == app.with_focus(after.shell.focus)
                &&& after.shell.focus == (FocusState { clipboard_paste: None, ..app.shell.focus })
                &&& effects.len() > 0
                &&& effects[0] == Effect::CancelClipboardRequest(origin->Some_0.token)
                &&& session_of(app.state.tabs@, origin->Some_0.tab) is Some ==> effects.len() == 2
                    && effects[1] == (Effect::FailClipboardInput {
                    tab: origin->Some_0.tab,
                    token: origin->Some_0.token,
                })
                &&& session_of(app.state.tabs@, origin->Some_0.tab) is None ==> effects.len() == 1
            }
        }),
{
}

/// Only the answer to the read that is waited for counts: any other changes
/// nothing and sends nothing.
pub proof fn late_replies_change_nothing(
    app: FesTermApp,
    token: u64,
    text: Option<Seq<char>>,
    frame: u64,
    after: FesTermApp,
    effects: Seq<Effect>,
)
    requires
        app.takes_reply(token, text, frame, after, effects),
        app.shell.focus.clipboard_paste is None || app.shell.focus.clipboard_paste->Some_0.token
            != token,
    ensures
        after == app,
        effects.len() == 0,
{
}

/// The text of a clipboard read goes to the tab that asked for it, in the place
/// that was kept for it and with its line endings normalised: at once where
/// nothing has to be asked, and otherwise as a question about just that. A
/// session that takes no input gets nothing, and its place is given up. Either
/// way the read is answered, and another answer to it changes nothing.
pub proof fn replies_go_to_the_tab_that_asked(
    app: FesTermApp,
    text: Seq<char>,
    frame: u64,
    after: FesTermApp,
    effects: Seq<Effect>,
)
    requires
        app.shell.focus.clipboard_paste is Some,
        app.takes_reply(
            app.shell.focus.clipboard_paste->Some_0.token,
            Some(text),
            frame,
            after,
            effects,
        ),
    ensures
        after.shell.focus.clipboard_paste is None,
        after.state == app.state,
        ({
            let origin = app.shell.focus.clipboard_paste->Some_0;
            let session = session_of(app.state.tabs@, origin.tab);
            let asks = needs_confirmation(normalized(text), session->Some_0.bracketed_paste);
            let pending = after.shell.overlays.pending_paste;
            &&& session is Some && session->Some_0.accepts_input && !asks ==> {
                &&& effects.len() == 1
                &&& effects[0] is DeliverPaste
                &&& effects[0]->DeliverPaste_tab == origin.tab
                &&& effects[0]->DeliverPaste_token == Some(origin.token)
                &&& effects[0]->DeliverPaste_text@ == normalized(text)
                &&& after.shell.overlays == app.shell.overlays
            }
            &&& session is Some && session->Some_0.accepts_input && asks ==> {
                &&& effects.len() == 0
                &&& pending is Some
                &&& pending->Some_0.tab == origin.tab
                &&& pending->Some_0.clipboard_token == Some(origin.token)
                &&& pending->Some_0.text@ == normalized(text)
                &&& pending->Some_0.lifecycle_generation == session->Some_0.lifecycle_generation
                &&& pending->Some_0.identity == session->Some_0.label
                &&& pending->Some_0.opened_frame == frame
            }
            &&& !(session is Some && session->Some_0.accepts_input) ==> {
                &&& after.shell.overlays == app.shell.overlays
                &&& forall|i: int|
                    0 <= i < effects.len() ==> (#[trigger] effects[i]) !is DeliverPaste
            }
            &&& session is Some && !session->Some_0.accepts_input ==> effects.len() == 2
                && effects[0] == (Effect::CancelClipboardInput {
                tab: origin.tab,
                token: origin.token,
            })
        }),
{
}

/// A paste that was asked about and confirmed, with nothing changed in between,
/// sends what the clipboard held to the tab that asked for it.
pub proof fn confirmed_replies_arrive(
    app: FesTermApp,
    text: Seq<char>,
    frame: u64,
    after: FesTermApp,
    effects: Seq<Effect>,
    later: u64,
)
    requires
        app.shell.focus.clipboard_paste is Some,
        app.clipboard_read_valid(app.shell.focus.clipboard_paste->Some_0),
        needs_confirmation(normalized(text), app.state.active_session()->Some_0.bracketed_paste),
        app.takes_reply(
            app.shell.focus.clipboard_paste->Some_0.token,
            Some(text),
            frame,
            after,
            effects,
        ),
    ensures
        ({
            let (_, sent) = after.paste_answered(later, false, DialogClick::Confirm);
            let origin = app.shell.focus.clipboard_paste->Some_0;
            &&& sent.len() > 0
            &&& sent.last() is DeliverPaste
            &&& sent.last()->DeliverPaste_tab == origin.tab
            &&& sent.last()->DeliverPaste_token == Some(origin.token)
            &&& sent.last()->DeliverPaste_text@ == normalized(text)
        }),
{
    assert(after.paste_still_applies(after.shell.overlays.pending_paste->Some_0));
}

/// A read that failed sends nothing: the place kept for it is given up, in its
/// own tab, and what was dropped is told.
pub proof fn failed_reads_send_nothing(
    app: FesTermApp,
    frame: u64,
    after: FesTermApp,
    effects: Seq<Effect>,
)
    requires
        app.shell.focus.clipboard_paste is Some,
        app.takes_reply(app.shell.focus.clipboard_paste->Some_0.token, None, frame, after, effects),
    ensures
        after == app,
        ({
            let origin = app.shell.focus.clipboard_paste->Some_0;
            &&& effects.len() > 0
            &&& effects.last() == Effect::ReportClipboardDiscards(origin.tab)
            &&& session_of(app.state.tabs@, origin.tab) is Some ==> effects.len() == 2 && effects[0]
                == (Effect::FailClipboardInput { tab: origin.tab, token: origin.token })
            &&& session_of(app.state.tabs@, origin.tab) is None ==> effects.len() == 1
        }),
{
}

/// Pasting goes into the terminal in front and nowhere else, and only where that
/// owns the keyboard. The text is sent as it is but for its line endings, once, or
/// asked about; without any, the clipboard is asked for on behalf of that tab. A
/// read that was still waited for is given up first.
pub proof fn pastes_go_into_the_terminal_in_front(
    app: FesTermApp,
    text: Option<Seq<char>>,
    frame: u64,
    after: FesTermApp,
    effects: Seq<Effect>,
)
    requires
        app.pastes(text, frame, after, effects),
    ensures
        after.state == app.state,
        !app.owns_input() ==> after == app && effects.len() == 0,
        app.owns_input() ==> after.shell.focus.clipboard_paste is None,
        app.owns_input() && app.shell.focus.clipboard_paste is Some ==> effects.len() > 0
            && effects[0] == Effect::CancelClipboardRequest(
            app.shell.focus.clipboard_paste->Some_0.token,
        ),
        ({
            let tab = app.state.active;
            let session = app.state.active_session();
            let ready = app.owns_input() && session->Some_0.accepts_input;
            let asks = text is Some && needs_confirmation(
                normalized(text->Some_0),
                session->Some_0.bracketed_paste,
            );
            let pending = after.shell.overlays.pending_paste;
            &&& forall|i: int|
                0 <= i < effects.len() ==> match #[trigger] effects[i] {
                    Effect::DeliverPaste { tab: to, token, text: sent } => ready && !asks
                        && text is Some && to == tab && token is None && sent@ == normalized(
                        text->Some_0,
                    ) && i == effects.len() - 3,
                    Effect::RequestClipboard(to) => ready && text is None && to == tab && i
                        == effects.len() - 1,
                    _ => true,
                }
            &&& ready && text is None ==> effects.len() > 0 && effects.last()
                == Effect::RequestClipboard(tab)
            &&& ready && text is Some ==> effects.len() >= 2 && effects[effects.len() - 2]
                == Effect::FocusTerminal(tab)
            &&& ready && text is Some && !asks ==> effects.len() >= 3 && effects[effects.len() - 3]
                is DeliverPaste
            &&& ready && asks ==> {
                &&& pending is Some
                &&& pending->Some_0.tab == tab
                &&& pending->Some_0.clipboard_token is None
                &&& pending->Some_0.text@ == normalized(text->Some_0)
                &&& pending->Some_0.lifecycle_generation == session->Some_0.lifecycle_generation
                &&& pending->Some_0.input_ownership_epoch == app.shell.focus.ownership_epoch
            }
            &&& !(ready && asks) ==> after.shell.overlays == app.shell.overlays
        }),
{
    if app.owns_input() && app.state.active_session()->Some_0.accepts_input && text is Some {
        let tab = app.state.active;
        let start = app.reads_given_up() + seq![Effect::FinishFailedClipboardInput(tab)];
        let end = seq![Effect::FocusTerminal(tab), Effect::Repaint];
        let n = start.len() as int;
        if !needs_confirmation(
            normalized(text->Some_0),
            app.state.active_session()->Some_0.bracketed_paste,
        ) {
            assert(forall|i: int| 0 <= i < n ==> #[trigger] effects[i] == effects.take(n)[i]);
            assert(forall|i: int|
                n < i < effects.len() ==> #[trigger] effects[i] == effects.skip(n + 1)[i - n - 1]);
            assert(effects[n + 1] == effects.skip(n + 1)[0]);
            if app.shell.focus.clipboard_paste is Some {
                assert(effects[0] == effects.take(n)[0]);
            }
        }
    }
}

/// Asking to paste, without text of its own, is pasting without text.
pub proof fn asking_to_paste_is_pasting(app: FesTermApp, frame: u64)
    ensures
        app.pastes(None, frame, app.paste_requested().0, app.paste_requested().1),
{
}

/// A confirmed paste that came with its key press is sent where it was asked
/// about, with nothing changed in between.
pub proof fn confirmed_pastes_arrive(
    app: FesTermApp,
    text: Seq<char>,
    frame: u64,
    after: FesTermApp,
    effects: Seq<Effect>,
    later: u64,
)
    requires
        app.owns_input(),
        app.state.active_session()->Some_0.accepts_input,
        needs_confirmation(normalized(text), app.state.active_session()->Some_0.bracketed_paste),
        app.pastes(Some(text), frame, after, effects),
    ensures
        ({
            let (_, sent) = after.paste_answered(later, false, DialogClick::Confirm);
            &&& sent.len() > 0
            &&& sent.last() is DeliverPaste
            &&& sent.last()->DeliverPaste_tab == app.state.active
            &&& sent.last()->DeliverPaste_token is None
            &&& sent.last()->DeliverPaste_text@ == normalized(text)
        }),
{
    assert(after.paste_still_applies(after.shell.overlays.pending_paste->Some_0));
}

/// Dropped input is always told, and only that: by the events of the frame where
/// there are any, and otherwise by the bytes.
pub proof fn dropped_input_is_told(bytes: u64, events: usize)
    ensures
        discard_notice(bytes, events) is None <==> bytes == 0 && events == 0,
        events > 0 ==> discard_notice(bytes, events) == Some(
            Notice::ClipboardEventsDiscarded(events),
        ),
        events == 0 && bytes > 0 ==> discard_notice(bytes, events) == Some(
            Notice::ClipboardBytesDiscarded(bytes),
        ),
{
}

/// A notice that is put up is shown until its time is over and no longer, and
/// nothing else about the window changes.
pub proof fn notices_stay_for_their_time(
    app: FesTermApp,
    notice: Notice,
    now_ms: u64,
    duration_ms: u64,
    later_ms: u64,
)
    ensures
        ({
            let after = app.with_notice(Some(notice), now_ms, duration_ms);
            let shown = after.shell.overlays.transient_notice;
            &&& shown is Some
            &&& shown->Some_0.notice == notice
            &&& shown->Some_0.over(later_ms) <==> later_ms - now_ms >= duration_ms
            &&& after.state == app.state
            &&& after.shell == (Shell { overlays: after.shell.overlays, ..app.shell })
            &&& after.shell.overlays == (OverlayState {
                transient_notice: shown,
                ..app.shell.overlays
            })
            &&& app.with_notice(None, now_ms, duration_ms) == app
        }),
{
}

} // verus!
