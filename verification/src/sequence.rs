//! The order of one frame: which surface comes up when, and what its answer
//! leads to. Drawing is up to the caller; so is carrying out the effects of a
//! step before the next one.
use vstd::prelude::*;

use crate::about::{AboutClick, UpdateStatus};
use crate::app::FesTermApp;
use crate::chrome::ChromeAction;
use crate::commands::one_or_none;
use crate::confirmations::OpenDocument;
use crate::credentials::{StorePoll, WorkerEvent};
use crate::dialogs::{ConfirmationAnswer, DialogClick, DocumentChoice};
use crate::effects::{AppCommand, Effect};
use crate::forwards::ForwardClick;
use crate::frame::{EscapeRoute, OverlayAction, ScreenCommand};
#[allow(unused_imports)]
use crate::overlays::{OverlayState, TransientNotice};
use crate::state::{Tab, TabContent, TabId};
use crate::status::InspectorAction;

verus! {

/// How far a frame has come.
#[derive(Clone, Copy, Debug, PartialEq, Eq, Structural)]
pub enum FrameStage {
    /// The worker that stores a credential is looked at.
    Credential,
    /// The state of an update is looked at.
    Update,
    /// The commands of the menu bar and the keyboard have gone through.
    Input,
    /// Was Escape pressed, for something that blocks the terminal?
    Escape,
    /// The top row, gesture by gesture.
    Chrome,
    /// Was Escape pressed, for the inspector or the search?
    SurfaceEscape,
    Palette,
    /// The tab in front is about to be drawn.
    Front,
    /// It is drawn.
    Surface,
    /// The commands of a viewer, one by one.
    Viewer,
    /// Text may have reached the terminal past a question about a paste.
    Supersede,
    /// The terminal may have asked for the clipboard.
    Read,
    /// The links that were followed, one by one.
    Links,
    Inspector,
    /// The tab in front may have asked for something.
    Screen,
    Overlay,
    /// A clipboard read may no longer be of use.
    Validate,
    /// What clipboard reads took along is told.
    Discards,
    Confirmation,
    Forwards,
    Picker,
    About,
    Notice,
    /// A profile may have been launched.
    Launch,
    Finished,
}

/// A frame on its way.
#[derive(Clone, Copy, Debug, PartialEq, Eq, Structural)]
pub struct FramePass {
    pub stage: FrameStage,
    pub frame: u64,
    /// The question about a clipboard read opened in this very frame.
    pub opening: bool,
    /// The tab that this frame's keys were meant for.
    pub target: Option<TabId>,
    /// The tab that was drawn. Commands that are carried out later in the frame
    /// can bring another one to the front.
    pub drawn: Option<TabId>,
    pub escape: EscapeRoute,
    pub inspector_escape: bool,
    pub search_escape: bool,
    /// A question about a paste was open before the tab was drawn.
    pub paste_was_pending: bool,
    pub paste_arrived: bool,
    pub read_requested: bool,
}

/// What was done in the palette.
#[derive(Clone, Copy, Debug, PartialEq, Eq, Structural)]
pub enum PaletteDecision {
    Nothing,
    Dismissed,
    Selected(u64),
}

/// What was done in the file picker.
#[derive(Debug)]
pub enum PickerOutcome {
    Pending,
    Cancelled,
    Open(String),
}

/// What the caller has found out, or done, since the last step.
#[derive(Debug)]
pub enum FrameAnswer {
    Done,
    Credential(WorkerEvent),
    Update(UpdateStatus),
    /// Whether Escape was pressed.
    Escape(bool),
    Chrome(Option<ChromeAction>),
    Palette(PaletteDecision),
    /// Whether pasted text reached the terminal while it was drawn, and whether
    /// it asked for the clipboard.
    Surface { paste_arrived: bool, read_requested: bool },
    /// A command of a viewer.
    Viewer(Option<AppCommand>),
    /// A link that was followed, in its normal form if it is a web address.
    Link(Option<Option<String>>),
    Inspector(Option<InspectorAction>),
    Screen(Option<ScreenCommand>),
    Overlay(Option<OverlayAction>),
    /// `at_defaults` says that the interface settings are the defaults.
    Confirmation { click: DialogClick, choice: DocumentChoice, at_defaults: bool },
    /// `draft` is what is wrong with the forward that is being written, if
    /// anything is.
    Forwards { pressed: ForwardClick, draft: Option<String> },
    /// `directory` is the one that the picker is browsing.
    Picker { outcome: PickerOutcome, directory: Option<String> },
    About(AboutClick),
    /// The profile that was launched, where one was.
    Launch(Option<String>),
}

/// What follows a look at the worker that stores a credential.
pub open spec fn poll_effects(poll: StorePoll) -> Seq<Effect> {
    match poll {
        StorePoll::Idle => seq![],
        StorePoll::Again(pause) => seq![Effect::RepaintAfterMs(pause)],
        StorePoll::Link(pending) => seq![Effect::LinkCredential(pending)],
    }
}

/// The effects that tell what clipboard reads took along, for the sessions
/// among the first `n` tabs.
pub open spec fn discards_told(tabs: Seq<Tab>, n: int) -> Seq<Effect>
    decreases n,
{
    if n <= 0 {
        Seq::empty()
    } else if tabs[n - 1].content is Session {
        discards_told(tabs, n - 1).push(
            Effect::FinishFailedClipboardInput(tabs[n - 1].id),
        ).push(Effect::ReportClipboardDiscards(tabs[n - 1].id))
    } else {
        discards_told(tabs, n - 1)
    }
}

impl FesTermApp {
    /// A notice that has been up for its time goes away; any other is looked at
    /// again before long.
    pub open spec fn notice_aged(self, now_ms: u64) -> (Self, Seq<Effect>) {
        match self.shell.overlays.transient_notice {
            Some(notice) => if notice.over(now_ms) {
                (
                    self.with_overlays(
                        OverlayState { transient_notice: None, ..self.shell.overlays },
                    ),
                    seq![],
                )
            } else {
                (self, seq![Effect::RepaintAfterMs(100)])
            },
            None => (self, seq![]),
        }
    }

    fn answer_palette(
        &mut self,
        decision: PaletteDecision,
        documents: &Vec<OpenDocument>,
        chord: Option<String>,
        now_ms: u64,
    ) -> (effects: Vec<Effect>)
        ensures
            (*final(self), effects@) == old(self).palette_answered(
                decision,
                documents@,
                chord,
                now_ms,
            ),
    {
        proof {
            reveal(FesTermApp::palette_answered);
        }
        match decision {
            PaletteDecision::Nothing => one_or_none(None),
            PaletteDecision::Dismissed => {
                self.close_palette();
                one_or_none(None)
            },
            PaletteDecision::Selected(id) => {
                self.close_palette();
                self.dispatch_palette_selection(id, documents, chord, now_ms)
            },
        }
    }

    fn close_palette(&mut self)
        ensures
            *final(self) == old(self).palette_closed(),
    {
        self.shell.focus.palette_open = false;
    }

    /// What an answer of the palette leads to.
    #[verifier::opaque]
    pub open spec fn palette_answered(
        self,
        decision: PaletteDecision,
        documents: Seq<OpenDocument>,
        chord: Option<String>,
        now_ms: u64,
    ) -> (Self, Seq<Effect>) {
        match decision {
            PaletteDecision::Nothing => (self, seq![]),
            PaletteDecision::Dismissed => (self.palette_closed(), seq![]),
            PaletteDecision::Selected(id) => self.palette_closed().selection_outcome(
                id,
                documents,
                chord,
                now_ms,
            ),
        }
    }

    /// What an answer of the file picker leads to.
    pub open spec fn picker_answered(
        self,
        escape: bool,
        outcome: PickerOutcome,
        directory: Option<String>,
    ) -> (Self, Seq<Effect>) {
        if escape || outcome is Cancelled {
            self.picker_closed(directory)
        } else if self.shell.overlays.markdown_file_picker && outcome is Open {
            self.file_picked(outcome->Open_0, directory)
        } else {
            (self, seq![])
        }
    }
}

impl FramePass {
    pub open spec fn at(self, stage: FrameStage) -> Self {
        FramePass { stage, ..self }
    }

    /// A frame that begins.
    pub open spec fn begun(frame: u64) -> Self {
        FramePass {
            stage: FrameStage::Credential,
            frame,
            opening: false,
            target: None,
            drawn: None,
            escape: EscapeRoute {
                consumed: false,
                confirmation: false,
                port_forwards: false,
                file_picker: false,
                about: false,
            },
            inspector_escape: false,
            search_escape: false,
            paste_was_pending: false,
            paste_arrived: false,
            read_requested: false,
        }
    }

    /// What the state of an update leads to.
    #[verifier::opaque]
    pub open spec fn update_taken(
        self,
        app: FesTermApp,
        status: UpdateStatus,
    ) -> (Self, FesTermApp, Seq<Effect>) {
        let (after, effects) = app.update_observed(status);
        (self.at(FrameStage::Input), after, effects)
    }

    /// What a gesture in the top row leads to.
    #[verifier::opaque]
    pub open spec fn chrome_taken(
        self,
        app: FesTermApp,
        action: ChromeAction,
        documents: Seq<OpenDocument>,
        focused: Option<u64>,
    ) -> (Self, FesTermApp, Seq<Effect>) {
        let (after, effects) = app.chrome_outcome(action, documents, focused);
        (self, after, effects)
    }

    /// What the inspector of the tab that was drawn leads to.
    #[verifier::opaque]
    pub open spec fn inspector_taken(
        self,
        app: FesTermApp,
        action: InspectorAction,
    ) -> (Self, FesTermApp, Seq<Effect>) {
        let (after, effects) = match self.drawn {
            Some(tab) => app.inspector_outcome(tab, action),
            None => (app, seq![]),
        };
        (self.at(FrameStage::Screen), after, effects)
    }

    /// What the tab in front asked for leads to.
    #[verifier::opaque]
    pub open spec fn screen_taken(
        self,
        app: FesTermApp,
        command: ScreenCommand,
        documents: Seq<OpenDocument>,
        now_ms: u64,
    ) -> (Self, FesTermApp, Seq<Effect>) {
        let (after, effects) = app.screen_outcome(command, documents, now_ms);
        (self.at(FrameStage::Overlay), after, effects)
    }

    /// What the overlay of a session leads to.
    #[verifier::opaque]
    pub open spec fn overlay_taken(
        self,
        app: FesTermApp,
        action: OverlayAction,
    ) -> (Self, FesTermApp, Seq<Effect>) {
        let (after, effects) = app.overlay_outcome(action);
        (self.at(FrameStage::Validate), after, effects)
    }

    /// What the answer to the question that is shown leads to.
    #[verifier::opaque]
    pub open spec fn confirmation_taken(
        self,
        app: FesTermApp,
        click: DialogClick,
        choice: DocumentChoice,
        at_defaults: bool,
    ) -> (Self, FesTermApp, Seq<Effect>) {
        let (after, effects) = app.confirmation_answered(
            self.frame,
            at_defaults,
            ConfirmationAnswer { escape: self.escape.confirmation, click, choice },
        );
        (self.at(FrameStage::Forwards), after, effects)
    }

    /// What the port-forward tool leads to.
    #[verifier::opaque]
    pub open spec fn forwards_taken(
        self,
        app: FesTermApp,
        click: ForwardClick,
        draft: Option<String>,
    ) -> (Self, FesTermApp, Seq<Effect>) {
        let (after, effects) = if self.escape.port_forwards {
            app.forwards_closed()
        } else {
            app.forwards_outcome(click, draft)
        };
        (self.at(FrameStage::Picker), after, effects)
    }

    /// What the About dialog leads to.
    #[verifier::opaque]
    pub open spec fn about_taken(
        self,
        app: FesTermApp,
        click: AboutClick,
    ) -> (Self, FesTermApp, Seq<Effect>) {
        let (after, effects) = app.about_outcome(self.escape.about, click);
        (self.at(FrameStage::Notice), after, effects)
    }

    /// What the palette leads to.
    #[verifier::opaque]
    pub open spec fn palette_taken(
        self,
        app: FesTermApp,
        decision: PaletteDecision,
        documents: Seq<OpenDocument>,
        chord: Option<String>,
        now_ms: u64,
    ) -> (Self, FesTermApp, Seq<Effect>) {
        let (after, effects) = app.palette_answered(decision, documents, chord, now_ms);
        (self.at(FrameStage::Front), after, effects)
    }

    /// Settles, once the keys have gone through, whom this frame's keys are for.
    #[verifier::opaque]
    pub open spec fn input_taken(
        self,
        app: FesTermApp,
    ) -> (Self, FesTermApp, Seq<Effect>) {
        (
            FramePass {
                stage: FrameStage::Escape,
                opening: app.confirmation_opening(self.frame),
                target: app.input_target(self.frame),
                ..self
            },
            app.forwards_synced().focus_mode_settled(),
            seq![],
        )
    }

    /// Who gets Escape among those that block the terminal. Focus mode has no top
    /// row.
    #[verifier::opaque]
    pub open spec fn escape_taken(
        self,
        app: FesTermApp,
        pressed: bool,
    ) -> (Self, FesTermApp, Seq<Effect>) {
        (
            FramePass {
                stage: if app.shell.focus.focus_mode {
                    FrameStage::SurfaceEscape
                } else {
                    FrameStage::Chrome
                },
                escape: app.escape_goes_to(pressed),
                ..self
            },
            app,
            seq![],
        )
    }

    /// Who gets Escape among the inspector and the search.
    #[verifier::opaque]
    pub open spec fn surface_escape_taken(
        self,
        app: FesTermApp,
        pressed: bool,
    ) -> (Self, FesTermApp, Seq<Effect>) {
        (
            FramePass {
                stage: FrameStage::Palette,
                inspector_escape: pressed && app.shell.focus.inspector_open,
                search_escape: pressed && !app.shell.focus.inspector_open && app.searching(),
                ..self
            },
            app,
            seq![],
        )
    }

    /// The tab in front is about to be drawn.
    #[verifier::opaque]
    pub open spec fn front_taken(
        self,
        app: FesTermApp,
    ) -> (Self, FesTermApp, Seq<Effect>) {
        (
            FramePass {
                stage: FrameStage::Surface,
                drawn: Some(app.state.active),
                paste_was_pending: app.shell.overlays.pending_paste is Some,
                ..self
            },
            app,
            seq![],
        )
    }

    /// Once a viewer has no more commands, the search that Escape was pressed in
    /// closes.
    #[verifier::opaque]
    pub open spec fn viewers_done(
        self,
        app: FesTermApp,
    ) -> (Self, FesTermApp, Seq<Effect>) {
        (
            self.at(FrameStage::Supersede),
            app,
            if self.search_escape {
                app.search_closed_effects()
            } else {
                seq![]
            },
        )
    }

    /// A question about a paste falls where other text has come in.
    #[verifier::opaque]
    pub open spec fn supersede_taken(
        self,
        app: FesTermApp,
    ) -> (Self, FesTermApp, Seq<Effect>) {
        let (after, effects) = app.after_other_paste(
            self.paste_was_pending,
            self.paste_arrived,
        );
        (self.at(FrameStage::Read), after, effects)
    }

    /// The clipboard is asked for where the tab that was drawn wants it, and the
    /// keys were meant for that tab.
    #[verifier::opaque]
    pub open spec fn read_taken(
        self,
        app: FesTermApp,
    ) -> (Self, FesTermApp, Seq<Effect>) {
        let (after, effects) = if self.read_requested && self.drawn is Some && self.target == self.drawn {
            app.paste_requested()
        } else {
            (app, seq![])
        };
        (self.at(FrameStage::Links), after, effects)
    }

    /// What a link leads to.
    #[verifier::opaque]
    pub open spec fn link_taken(
        self,
        app: FesTermApp,
        target: Option<String>,
        now_ms: u64,
    ) -> (Self, FesTermApp, Seq<Effect>) {
        let (after, effect) = app.link_followed(target, now_ms);
        (self, after, seq![effect])
    }

    /// A clipboard read that is of no more use is given up.
    #[verifier::opaque]
    pub open spec fn validate_taken(
        self,
        app: FesTermApp,
    ) -> (Self, FesTermApp, Seq<Effect>) {
        let (after, effects) = app.read_checked();
        (self.at(FrameStage::Discards), after, effects)
    }

    /// What clipboard reads took along is told, session by session.
    #[verifier::opaque]
    pub open spec fn discards_taken(
        self,
        app: FesTermApp,
    ) -> (Self, FesTermApp, Seq<Effect>) {
        (
            self.at(FrameStage::Confirmation),
            app.forwards_synced(),
            discards_told(app.state.tabs@, app.state.tabs@.len() as int),
        )
    }

    /// What the file picker leads to.
    #[verifier::opaque]
    pub open spec fn picker_taken(
        self,
        app: FesTermApp,
        outcome: PickerOutcome,
        directory: Option<String>,
    ) -> (Self, FesTermApp, Seq<Effect>) {
        let (after, effects) = app.picker_answered(self.escape.file_picker, outcome, directory);
        (self.at(FrameStage::About), after, effects)
    }

    /// What the worker that stores a credential leads to.
    #[verifier::opaque]
    pub open spec fn credential_taken(
        self,
        app: FesTermApp,
        event: WorkerEvent,
    ) -> (Self, FesTermApp, Seq<Effect>) {
        let (after, poll) = app.store_polled(event);
        (self.at(FrameStage::Update), after, poll_effects(poll))
    }

    /// The frame ends: the launch of a profile is noted, and a smoke run goes on
    /// before long.
    #[verifier::opaque]
    pub open spec fn launch_taken(
        self,
        app: FesTermApp,
        profile: Option<String>,
    ) -> (Self, FesTermApp, Seq<Effect>) {
        (
            self.at(FrameStage::Finished),
            app,
            (match profile {
                Some(profile) => seq![Effect::NoteProfileLaunch(profile)],
                None => seq![],
            }) + (if app.shell.native_smoke {
                seq![Effect::RepaintAfterMs(10)]
            } else {
                seq![]
            }),
        )
    }

    /// Notices go away in time, and changed tabs are saved.
    #[verifier::opaque]
    pub open spec fn notice_taken(
        self,
        app: FesTermApp,
        now_ms: u64,
    ) -> (Self, FesTermApp, Seq<Effect>) {
        let (after, effects) = app.notice_aged(now_ms);
        (self.at(FrameStage::Launch), after.save_asked_for(), effects)
    }

    /// The first half of a frame, up to the drawing of the tab in front.
    pub open spec fn routed(
        self,
        app: FesTermApp,
        answer: FrameAnswer,
        documents: Seq<OpenDocument>,
        chord: Option<String>,
        focused: Option<u64>,
        now_ms: u64,
    ) -> (Self, FesTermApp, Seq<Effect>) {
        match (self.stage, answer) {
            (FrameStage::Credential, FrameAnswer::Credential(event)) => self.credential_taken(
                app,
                event,
            ),
            (FrameStage::Update, FrameAnswer::Update(status)) => self.update_taken(app, status),
            (FrameStage::Input, FrameAnswer::Done) => self.input_taken(app),
            (FrameStage::Escape, FrameAnswer::Escape(pressed)) => self.escape_taken(app, pressed),
            (FrameStage::Chrome, FrameAnswer::Chrome(Some(action))) => self.chrome_taken(
                app,
                action,
                documents,
                focused,
            ),
            (FrameStage::Chrome, FrameAnswer::Chrome(None)) => (
                self.at(FrameStage::SurfaceEscape),
                app,
                seq![],
            ),
            (FrameStage::SurfaceEscape, FrameAnswer::Escape(pressed)) => self.surface_escape_taken(
                app,
                pressed,
            ),
            (FrameStage::Palette, FrameAnswer::Palette(decision)) => self.palette_taken(
                app,
                decision,
                documents,
                chord,
                now_ms,
            ),
            _ => (self, app, seq![]),
        }
    }

    /// What the tab in front has led to while it was drawn.
    pub open spec fn drawn(
        self,
        app: FesTermApp,
        answer: FrameAnswer,
        documents: Seq<OpenDocument>,
        now_ms: u64,
    ) -> (Self, FesTermApp, Seq<Effect>) {
        match (self.stage, answer) {
            (FrameStage::Front, FrameAnswer::Done) => self.front_taken(app),
            (FrameStage::Surface, FrameAnswer::Surface { paste_arrived, read_requested }) => (
                FramePass { stage: FrameStage::Viewer, paste_arrived, read_requested, ..self },
                app,
                seq![],
            ),
            (FrameStage::Viewer, FrameAnswer::Viewer(Some(command))) => (
                self,
                app,
                seq![Effect::Dispatch(command)],
            ),
            (FrameStage::Viewer, FrameAnswer::Viewer(None)) => self.viewers_done(app),
            (FrameStage::Supersede, FrameAnswer::Done) => self.supersede_taken(app),
            (FrameStage::Read, FrameAnswer::Done) => self.read_taken(app),
            (FrameStage::Links, FrameAnswer::Link(Some(target))) => self.link_taken(
                app,
                target,
                now_ms,
            ),
            (FrameStage::Links, FrameAnswer::Link(None)) => (
                self.at(FrameStage::Inspector),
                app,
                seq![],
            ),
            (FrameStage::Inspector, FrameAnswer::Inspector(action)) => match action {
                Some(action) => self.inspector_taken(app, action),
                None => (self.at(FrameStage::Screen), app, seq![]),
            },
            (FrameStage::Screen, FrameAnswer::Screen(command)) => match command {
                Some(command) => self.screen_taken(app, command, documents, now_ms),
                None => (self.at(FrameStage::Overlay), app, seq![]),
            },
            (FrameStage::Overlay, FrameAnswer::Overlay(action)) => match action {
                Some(action) => self.overlay_taken(app, action),
                None => (self.at(FrameStage::Validate), app, seq![]),
            },
            (FrameStage::Validate, FrameAnswer::Done) => self.validate_taken(app),
            (FrameStage::Discards, FrameAnswer::Done) => self.discards_taken(app),
            _ => (self, app, seq![]),
        }
    }

    /// What the dialogs above it lead to.
    pub open spec fn answered(self, app: FesTermApp, answer: FrameAnswer, now_ms: u64) -> (
        Self,
        FesTermApp,
        Seq<Effect>,
    ) {
        match (self.stage, answer) {
            (
                FrameStage::Confirmation,
                FrameAnswer::Confirmation { click, choice, at_defaults },
            ) => self.confirmation_taken(app, click, choice, at_defaults),
            (FrameStage::Forwards, FrameAnswer::Forwards { pressed, draft }) => self.forwards_taken(
                app,
                pressed,
                draft,
            ),
            (FrameStage::Picker, FrameAnswer::Picker { outcome, directory }) => self.picker_taken(
                app,
                outcome,
                directory,
            ),
            (FrameStage::About, FrameAnswer::About(click)) => self.about_taken(app, click),
            (FrameStage::Notice, FrameAnswer::Done) => self.notice_taken(app, now_ms),
            (FrameStage::Launch, FrameAnswer::Launch(profile)) => self.launch_taken(app, profile),
            _ => (self, app, seq![]),
        }
    }

    /// The stages up to the drawing of the tab in front.
    pub open spec fn before_surface(self) -> bool {
        match self.stage {
            FrameStage::Credential => true,
            FrameStage::Update => true,
            FrameStage::Input => true,
            FrameStage::Escape => true,
            FrameStage::Chrome => true,
            FrameStage::SurfaceEscape => true,
            FrameStage::Palette => true,
            _ => false,
        }
    }

    /// The stages that end a frame.
    pub open spec fn after_surface(self) -> bool {
        match self.stage {
            FrameStage::Confirmation => true,
            FrameStage::Forwards => true,
            FrameStage::Picker => true,
            FrameStage::About => true,
            FrameStage::Notice => true,
            FrameStage::Launch => true,
            FrameStage::Finished => true,
            _ => false,
        }
    }

    /// The step that `answer` leads to. One that was not asked for leads to
    /// nothing.
    pub open spec fn outcome(
        self,
        app: FesTermApp,
        answer: FrameAnswer,
        documents: Seq<OpenDocument>,
        chord: Option<String>,
        focused: Option<u64>,
        now_ms: u64,
    ) -> (Self, FesTermApp, Seq<Effect>) {
        if self.before_surface() {
            self.routed(app, answer, documents, chord, focused, now_ms)
        } else if self.after_surface() {
            self.answered(app, answer, now_ms)
        } else {
            self.drawn(app, answer, documents, now_ms)
        }
    }

    /// Begins a frame.
    pub fn ui_content(frame: u64) -> (pass: Self)
        ensures
            pass == Self::begun(frame),
    {
        FramePass {
            stage: FrameStage::Credential,
            frame,
            opening: false,
            target: None,
            drawn: None,
            escape: EscapeRoute {
                consumed: false,
                confirmation: false,
                port_forwards: false,
                file_picker: false,
                about: false,
            },
            inspector_escape: false,
            search_escape: false,
            paste_was_pending: false,
            paste_arrived: false,
            read_requested: false,
        }
    }

    fn take_update(
        &mut self,
        app: &mut FesTermApp,
        status: UpdateStatus,
    ) -> (effects: Vec<Effect>)
        ensures
            (*final(self), *final(app), effects@) == old(self).update_taken(*old(app), status),
    {
        proof {
            reveal(FramePass::update_taken);
        }
        self.stage = FrameStage::Input;
        app.observe_update(&status)
    }

    fn take_chrome(
        &mut self,
        app: &mut FesTermApp,
        action: ChromeAction,
        documents: &Vec<OpenDocument>,
        focused: Option<u64>,
    ) -> (effects: Vec<Effect>)
        ensures
            (*final(self), *final(app), effects@) == old(self).chrome_taken(*old(app), action, documents@, focused),
    {
        proof {
            reveal(FramePass::chrome_taken);
        }
        app.dispatch_chrome_action(action, documents, focused)
    }

    fn take_inspector(
        &mut self,
        app: &mut FesTermApp,
        action: InspectorAction,
    ) -> (effects: Vec<Effect>)
        ensures
            (*final(self), *final(app), effects@) == old(self).inspector_taken(*old(app), action),
    {
        proof {
            reveal(FramePass::inspector_taken);
        }
        self.stage = FrameStage::Screen;
        match self.drawn {
            Some(tab) => app.dispatch_inspector_action(tab, action),
            None => one_or_none(None),
        }
    }

    fn take_screen(
        &mut self,
        app: &mut FesTermApp,
        command: ScreenCommand,
        documents: &Vec<OpenDocument>,
        now_ms: u64,
    ) -> (effects: Vec<Effect>)
        ensures
            (*final(self), *final(app), effects@) == old(self).screen_taken(*old(app), command, documents@, now_ms),
    {
        proof {
            reveal(FramePass::screen_taken);
        }
        self.stage = FrameStage::Overlay;
        app.route_screen_command(command, documents, now_ms)
    }

    fn take_overlay(
        &mut self,
        app: &mut FesTermApp,
        action: OverlayAction,
    ) -> (effects: Vec<Effect>)
        ensures
            (*final(self), *final(app), effects@) == old(self).overlay_taken(*old(app), action),
    {
        proof {
            reveal(FramePass::overlay_taken);
        }
        self.stage = FrameStage::Validate;
        app.dispatch_overlay_action(action)
    }

    fn take_confirmation(
        &mut self,
        app: &mut FesTermApp,
        click: DialogClick,
        choice: DocumentChoice,
        at_defaults: bool,
    ) -> (effects: Vec<Effect>)
        ensures
            (*final(self), *final(app), effects@) == old(self).confirmation_taken(*old(app), click, choice, at_defaults),
    {
        proof {
            reveal(FramePass::confirmation_taken);
        }
        self.stage = FrameStage::Forwards;
        app.answer_confirmation(
            self.frame,
            at_defaults,
            ConfirmationAnswer { escape: self.escape.confirmation, click, choice },
        )
    }

    fn take_forwards(
        &mut self,
        app: &mut FesTermApp,
        click: ForwardClick,
        draft: Option<String>,
    ) -> (effects: Vec<Effect>)
        ensures
            (*final(self), *final(app), effects@) == old(self).forwards_taken(*old(app), click, draft),
    {
        proof {
            reveal(FramePass::forwards_taken);
        }
        self.stage = FrameStage::Picker;
        if self.escape.port_forwards {
            app.close_port_forward_manager()
        } else {
            app.show_port_forward_manager(click, draft)
        }
    }

    fn take_about(
        &mut self,
        app: &mut FesTermApp,
        click: AboutClick,
    ) -> (effects: Vec<Effect>)
        ensures
            (*final(self), *final(app), effects@) == old(self).about_taken(*old(app), click),
    {
        proof {
            reveal(FramePass::about_taken);
        }
        self.stage = FrameStage::Notice;
        app.show_about(self.escape.about, click)
    }

    fn take_palette(
        &mut self,
        app: &mut FesTermApp,
        decision: PaletteDecision,
        documents: &Vec<OpenDocument>,
        chord: Option<String>,
        now_ms: u64,
    ) -> (effects: Vec<Effect>)
        ensures
            (*final(self), *final(app), effects@) == old(self).palette_taken(
                *old(app),
                decision,
                documents@,
                chord,
                now_ms,
            ),
    {
        proof {
            reveal(FramePass::palette_taken);
        }
        self.stage = FrameStage::Front;
        app.answer_palette(decision, documents, chord, now_ms)
    }

    fn take_input(
        &mut self,
        app: &mut FesTermApp,
    ) -> (effects: Vec<Effect>)
        ensures
            (*final(self), *final(app), effects@) == old(self).input_taken(*old(app)),
    {
        proof {
            reveal(FramePass::input_taken);
        }
        self.stage = FrameStage::Escape;
        self.opening = app.clipboard_confirmation_opening(self.frame);
        self.target = app.terminal_input_target(self.frame);
        app.sync_port_forward_manager();
        app.leave_focus_mode_without_session();
        one_or_none(None)
    }

    fn take_escape(
        &mut self,
        app: &mut FesTermApp,
        pressed: bool,
    ) -> (effects: Vec<Effect>)
        ensures
            (*final(self), *final(app), effects@) == old(self).escape_taken(*old(app), pressed),
    {
        proof {
            reveal(FramePass::escape_taken);
        }
        self.stage = if app.shell.focus.focus_mode {
            FrameStage::SurfaceEscape
        } else {
            FrameStage::Chrome
        };
        self.escape = app.route_escape(pressed);
        one_or_none(None)
    }

    fn take_surface_escape(
        &mut self,
        app: &mut FesTermApp,
        pressed: bool,
    ) -> (effects: Vec<Effect>)
        ensures
            (*final(self), *final(app), effects@) == old(self).surface_escape_taken(*old(app), pressed),
    {
        proof {
            reveal(FramePass::surface_escape_taken);
        }
        self.stage = FrameStage::Palette;
        let (inspector, search) = app.route_surface_escape(pressed);
        self.inspector_escape = inspector;
        self.search_escape = search;
        one_or_none(None)
    }

    fn take_front(
        &mut self,
        app: &mut FesTermApp,
    ) -> (effects: Vec<Effect>)
        ensures
            (*final(self), *final(app), effects@) == old(self).front_taken(*old(app)),
    {
        proof {
            reveal(FramePass::front_taken);
        }
        self.stage = FrameStage::Surface;
        self.drawn = Some(app.state.active);
        self.paste_was_pending = app.shell.overlays.pending_paste.is_some();
        one_or_none(None)
    }

    fn finish_viewers(
        &mut self,
        app: &mut FesTermApp,
    ) -> (effects: Vec<Effect>)
        ensures
            (*final(self), *final(app), effects@) == old(self).viewers_done(*old(app)),
    {
        proof {
            reveal(FramePass::viewers_done);
        }
        self.stage = FrameStage::Supersede;
        if self.search_escape {
            app.close_terminal_search()
        } else {
            one_or_none(None)
        }
    }

    fn take_supersede(
        &mut self,
        app: &mut FesTermApp,
    ) -> (effects: Vec<Effect>)
        ensures
            (*final(self), *final(app), effects@) == old(self).supersede_taken(*old(app)),
    {
        proof {
            reveal(FramePass::supersede_taken);
        }
        self.stage = FrameStage::Read;
        app.paste_superseded(self.paste_was_pending, self.paste_arrived)
    }

    fn take_read(
        &mut self,
        app: &mut FesTermApp,
    ) -> (effects: Vec<Effect>)
        ensures
            (*final(self), *final(app), effects@) == old(self).read_taken(*old(app)),
    {
        proof {
            reveal(FramePass::read_taken);
        }
        self.stage = FrameStage::Links;
        let meant = match (self.target, self.drawn) {
            (Some(target), Some(drawn)) => target == drawn,
            _ => false,
        };
        if self.read_requested && meant {
            app.paste_into_active_session()
        } else {
            one_or_none(None)
        }
    }

    fn take_link(
        &mut self,
        app: &mut FesTermApp,
        target: Option<String>,
        now_ms: u64,
    ) -> (effects: Vec<Effect>)
        ensures
            (*final(self), *final(app), effects@) == old(self).link_taken(*old(app), target, now_ms),
    {
        proof {
            reveal(FramePass::link_taken);
        }
        let effect = app.request_external_link(target, now_ms);
        one_or_none(Some(effect))
    }

    fn take_validate(
        &mut self,
        app: &mut FesTermApp,
    ) -> (effects: Vec<Effect>)
        ensures
            (*final(self), *final(app), effects@) == old(self).validate_taken(*old(app)),
    {
        proof {
            reveal(FramePass::validate_taken);
        }
        self.stage = FrameStage::Discards;
        app.cancel_invalid_clipboard_paste()
    }

    fn take_discards(
        &mut self,
        app: &mut FesTermApp,
    ) -> (effects: Vec<Effect>)
        ensures
            (*final(self), *final(app), effects@) == old(self).discards_taken(*old(app)),
    {
        proof {
            reveal(FramePass::discards_taken);
        }
        self.stage = FrameStage::Confirmation;
        let effects = app.tell_discards();
        app.sync_port_forward_manager();
        effects
    }

    fn take_picker(
        &mut self,
        app: &mut FesTermApp,
        outcome: PickerOutcome,
        directory: Option<String>,
    ) -> (effects: Vec<Effect>)
        ensures
            (*final(self), *final(app), effects@) == old(self).picker_taken(*old(app), outcome, directory),
    {
        proof {
            reveal(FramePass::picker_taken);
        }
        self.stage = FrameStage::About;
        if self.escape.file_picker || matches!(outcome, PickerOutcome::Cancelled) {
            return app.close_markdown_file_picker(directory);
        }
        match outcome {
            PickerOutcome::Open(path) => if app.shell.overlays.markdown_file_picker {
                app.markdown_file_picked(path, directory)
            } else {
                one_or_none(None)
            },
            _ => one_or_none(None),
        }
    }

    fn take_notice(
        &mut self,
        app: &mut FesTermApp,
        now_ms: u64,
    ) -> (effects: Vec<Effect>)
        ensures
            (*final(self), *final(app), effects@) == old(self).notice_taken(*old(app), now_ms),
    {
        proof {
            reveal(FramePass::notice_taken);
        }
        self.stage = FrameStage::Launch;
        let shown = app.show_transient_notice(now_ms);
        app.request_workspace_save();
        match shown {
            Some((_, effect)) => one_or_none(Some(effect)),
            None => one_or_none(None),
        }
    }

    fn take_credential(&mut self, app: &mut FesTermApp, event: WorkerEvent) -> (effects: Vec<Effect>)
        ensures
            (*final(self), *final(app), effects@) == old(self).credential_taken(*old(app), event),
    {
        proof {
            reveal(FramePass::credential_taken);
        }
        self.stage = FrameStage::Update;
        match app.process_pending_password_store(event) {
            StorePoll::Idle => one_or_none(None),
            StorePoll::Again(pause) => one_or_none(Some(Effect::RepaintAfterMs(pause))),
            StorePoll::Link(pending) => one_or_none(Some(Effect::LinkCredential(pending))),
        }
    }

    fn take_launch(&mut self, app: &mut FesTermApp, profile: Option<String>) -> (effects: Vec<Effect>)
        ensures
            (*final(self), *final(app), effects@) == old(self).launch_taken(*old(app), profile),
    {
        proof {
            reveal(FramePass::launch_taken);
        }
        self.stage = FrameStage::Finished;
        let mut effects = match profile {
            Some(profile) => one_or_none(Some(Effect::NoteProfileLaunch(profile))),
            None => one_or_none(None),
        };
        if app.shell.native_smoke {
            effects.push(Effect::RepaintAfterMs(10));
        }
        assert(effects@ =~= old(self).launch_taken(*old(app), profile).2);
        effects
    }

    fn route(
        &mut self,
        app: &mut FesTermApp,
        answer: FrameAnswer,
        documents: &Vec<OpenDocument>,
        chord: Option<String>,
        focused: Option<u64>,
        now_ms: u64,
    ) -> (effects: Vec<Effect>)
        ensures
            (*final(self), *final(app), effects@) == old(self).routed(
                *old(app),
                answer,
                documents@,
                chord,
                focused,
                now_ms,
            ),
    {
        match (self.stage, answer) {
            (FrameStage::Credential, FrameAnswer::Credential(event)) => self.take_credential(
                app,
                event,
            ),
            (FrameStage::Update, FrameAnswer::Update(status)) => self.take_update(app, status),
            (FrameStage::Input, FrameAnswer::Done) => self.take_input(app),
            (FrameStage::Escape, FrameAnswer::Escape(pressed)) => self.take_escape(app, pressed),
            (FrameStage::Chrome, FrameAnswer::Chrome(Some(action))) => self.take_chrome(
                app,
                action,
                documents,
                focused,
            ),
            (FrameStage::Chrome, FrameAnswer::Chrome(None)) => {
                self.stage = FrameStage::SurfaceEscape;
                one_or_none(None)
            },
            (FrameStage::SurfaceEscape, FrameAnswer::Escape(pressed)) => self.take_surface_escape(
                app,
                pressed,
            ),
            (FrameStage::Palette, FrameAnswer::Palette(decision)) => self.take_palette(
                app,
                decision,
                documents,
                chord,
                now_ms,
            ),
            _ => one_or_none(None),
        }
    }

    fn draw(
        &mut self,
        app: &mut FesTermApp,
        answer: FrameAnswer,
        documents: &Vec<OpenDocument>,
        now_ms: u64,
    ) -> (effects: Vec<Effect>)
        ensures
            (*final(self), *final(app), effects@) == old(self).drawn(
                *old(app),
                answer,
                documents@,
                now_ms,
            ),
    {
        match (self.stage, answer) {
            (FrameStage::Front, FrameAnswer::Done) => self.take_front(app),
            (FrameStage::Surface, FrameAnswer::Surface { paste_arrived, read_requested }) => {
                self.stage = FrameStage::Viewer;
                self.paste_arrived = paste_arrived;
                self.read_requested = read_requested;
                one_or_none(None)
            },
            (FrameStage::Viewer, FrameAnswer::Viewer(Some(command))) => one_or_none(
                Some(Effect::Dispatch(command)),
            ),
            (FrameStage::Viewer, FrameAnswer::Viewer(None)) => self.finish_viewers(app),
            (FrameStage::Supersede, FrameAnswer::Done) => self.take_supersede(app),
            (FrameStage::Read, FrameAnswer::Done) => self.take_read(app),
            (FrameStage::Links, FrameAnswer::Link(Some(target))) => self.take_link(
                app,
                target,
                now_ms,
            ),
            (FrameStage::Links, FrameAnswer::Link(None)) => {
                self.stage = FrameStage::Inspector;
                one_or_none(None)
            },
            (FrameStage::Inspector, FrameAnswer::Inspector(action)) => match action {
                Some(action) => self.take_inspector(app, action),
                None => {
                    self.stage = FrameStage::Screen;
                    one_or_none(None)
                },
            },
            (FrameStage::Screen, FrameAnswer::Screen(command)) => match command {
                Some(command) => self.take_screen(app, command, documents, now_ms),
                None => {
                    self.stage = FrameStage::Overlay;
                    one_or_none(None)
                },
            },
            (FrameStage::Overlay, FrameAnswer::Overlay(action)) => match action {
                Some(action) => self.take_overlay(app, action),
                None => {
                    self.stage = FrameStage::Validate;
                    one_or_none(None)
                },
            },
            (FrameStage::Validate, FrameAnswer::Done) => self.take_validate(app),
            (FrameStage::Discards, FrameAnswer::Done) => self.take_discards(app),
            _ => one_or_none(None),
        }
    }

    fn answer(&mut self, app: &mut FesTermApp, answer: FrameAnswer, now_ms: u64) -> (effects: Vec<
        Effect,
    >)
        ensures
            (*final(self), *final(app), effects@) == old(self).answered(*old(app), answer, now_ms),
    {
        match (self.stage, answer) {
            (
                FrameStage::Confirmation,
                FrameAnswer::Confirmation { click, choice, at_defaults },
            ) => self.take_confirmation(app, click, choice, at_defaults),
            (FrameStage::Forwards, FrameAnswer::Forwards { pressed, draft }) => self.take_forwards(
                app,
                pressed,
                draft,
            ),
            (FrameStage::Picker, FrameAnswer::Picker { outcome, directory }) => self.take_picker(
                app,
                outcome,
                directory,
            ),
            (FrameStage::About, FrameAnswer::About(click)) => self.take_about(app, click),
            (FrameStage::Notice, FrameAnswer::Done) => self.take_notice(app, now_ms),
            (FrameStage::Launch, FrameAnswer::Launch(profile)) => self.take_launch(app, profile),
            _ => one_or_none(None),
        }
    }

    /// Goes on with the caller's answer. `focused` is the widget that has the
    /// keyboard, and `chord` how the palette is opened.
    pub fn step(
        &mut self,
        app: &mut FesTermApp,
        answer: FrameAnswer,
        documents: &Vec<OpenDocument>,
        chord: Option<String>,
        focused: Option<u64>,
        now_ms: u64,
    ) -> (effects: Vec<Effect>)
        ensures
            (*final(self), *final(app), effects@) == old(self).outcome(
                *old(app),
                answer,
                documents@,
                chord,
                focused,
                now_ms,
            ),
    {
        match self.stage {
            FrameStage::Credential
            | FrameStage::Update
            | FrameStage::Input
            | FrameStage::Escape
            | FrameStage::Chrome
            | FrameStage::SurfaceEscape
            | FrameStage::Palette => self.route(app, answer, documents, chord, focused, now_ms),
            FrameStage::Confirmation
            | FrameStage::Forwards
            | FrameStage::Picker
            | FrameStage::About
            | FrameStage::Notice
            | FrameStage::Launch
            | FrameStage::Finished => self.answer(app, answer, now_ms),
            _ => self.draw(app, answer, documents, now_ms),
        }
    }
}

impl FesTermApp {
    fn tell_discards(&self) -> (effects: Vec<Effect>)
        ensures
            effects@ == discards_told(self.state.tabs@, self.state.tabs@.len() as int),
    {
        let mut effects: Vec<Effect> = Vec::new();
        let mut n: usize = 0;
        while n < self.state.tabs.len()
            invariant
                n <= self.state.tabs@.len(),
                effects@ == discards_told(self.state.tabs@, n as int),
            decreases self.state.tabs@.len() - n,
        {
            if matches!(self.state.tabs[n].content, TabContent::Session(_)) {
                let id = self.state.tabs[n].id;
                effects.push(Effect::FinishFailedClipboardInput(id));
                effects.push(Effect::ReportClipboardDiscards(id));
            }
            n = n + 1;
        }
        effects
    }
}

impl FrameStage {
    /// How many stages follow.
    pub open spec fn stages_left(self) -> int {
        match self {
            FrameStage::Credential => 24,
            FrameStage::Update => 23,
            FrameStage::Input => 22,
            FrameStage::Escape => 21,
            FrameStage::Chrome => 20,
            FrameStage::SurfaceEscape => 19,
            FrameStage::Palette => 18,
            FrameStage::Front => 17,
            FrameStage::Surface => 16,
            FrameStage::Viewer => 15,
            FrameStage::Supersede => 14,
            FrameStage::Read => 13,
            FrameStage::Links => 12,
            FrameStage::Inspector => 11,
            FrameStage::Screen => 10,
            FrameStage::Overlay => 9,
            FrameStage::Validate => 8,
            FrameStage::Discards => 7,
            FrameStage::Confirmation => 6,
            FrameStage::Forwards => 5,
            FrameStage::Picker => 4,
            FrameStage::About => 3,
            FrameStage::Notice => 2,
            FrameStage::Launch => 1,
            FrameStage::Finished => 0,
        }
    }

    /// The answer that the stage asks for.
    pub open spec fn asks_for(self, answer: FrameAnswer) -> bool {
        match self {
            FrameStage::Credential => answer is Credential,
            FrameStage::Update => answer is Update,
            FrameStage::Input => answer is Done,
            FrameStage::Escape => answer is Escape,
            FrameStage::Chrome => answer is Chrome,
            FrameStage::SurfaceEscape => answer is Escape,
            FrameStage::Palette => answer is Palette,
            FrameStage::Front => answer is Done,
            FrameStage::Surface => answer is Surface,
            FrameStage::Viewer => answer is Viewer,
            FrameStage::Supersede => answer is Done,
            FrameStage::Read => answer is Done,
            FrameStage::Links => answer is Link,
            FrameStage::Inspector => answer is Inspector,
            FrameStage::Screen => answer is Screen,
            FrameStage::Overlay => answer is Overlay,
            FrameStage::Validate => answer is Done,
            FrameStage::Discards => answer is Done,
            FrameStage::Confirmation => answer is Confirmation,
            FrameStage::Forwards => answer is Forwards,
            FrameStage::Picker => answer is Picker,
            FrameStage::About => answer is About,
            FrameStage::Notice => answer is Done,
            FrameStage::Launch => answer is Launch,
            FrameStage::Finished => false,
        }
    }
}

/// Every answer that was asked for takes a frame to a later stage, except for a
/// gesture in the top row, a viewer's command and a link, after which the same is
/// asked again.
pub proof fn frames_come_to_an_end(
    pass: FramePass,
    app: FesTermApp,
    answer: FrameAnswer,
    documents: Seq<OpenDocument>,
    chord: Option<String>,
    focused: Option<u64>,
    now_ms: u64,
)
    requires
        pass.stage.asks_for(answer),
    ensures
        ({
            let after = pass.outcome(app, answer, documents, chord, focused, now_ms).0;
            let again = answer is Chrome && answer->Chrome_0 is Some || answer is Link
                && answer->Link_0 is Some || answer is Viewer && answer->Viewer_0 is Some;
            if again {
                after == pass
            } else {
                after.stage.stages_left() < pass.stage.stages_left()
            }
        }),
{
    reveal(FramePass::credential_taken);
    reveal(FramePass::launch_taken);
    reveal(FramePass::update_taken);
    reveal(FramePass::chrome_taken);
    reveal(FramePass::inspector_taken);
    reveal(FramePass::screen_taken);
    reveal(FramePass::overlay_taken);
    reveal(FramePass::confirmation_taken);
    reveal(FramePass::forwards_taken);
    reveal(FramePass::about_taken);
    reveal(FramePass::palette_taken);
    reveal(FramePass::input_taken);
    reveal(FramePass::escape_taken);
    reveal(FramePass::surface_escape_taken);
    reveal(FramePass::front_taken);
    reveal(FramePass::viewers_done);
    reveal(FramePass::supersede_taken);
    reveal(FramePass::read_taken);
    reveal(FramePass::link_taken);
    reveal(FramePass::validate_taken);
    reveal(FramePass::discards_taken);
    reveal(FramePass::picker_taken);
    reveal(FramePass::notice_taken);
}

/// The question about a clipboard read that opened in this very frame does not
/// keep the terminal from the keys that came before it: whatever the tab's
/// surface is drawn with, those keys still have their target.
pub proof fn an_opening_question_keeps_the_target(pass: FramePass, app: FesTermApp)
    requires
        app.confirmation_opening(pass.frame),
    ensures
        pass.input_taken(app).0.opening,
        pass.input_taken(app).0.target == Some(app.state.active),
{
    reveal(FramePass::input_taken);
}

/// Whatever is carried out after the tab in front was drawn, the inspector acts
/// on that tab, and a read of the clipboard that it asked for is not dropped.
pub proof fn the_drawn_tab_is_remembered(
    pass: FramePass,
    app: FesTermApp,
    later: FesTermApp,
    action: InspectorAction,
)
    ensures
        ({
            let front = pass.front_taken(app).0;
            let ready = FramePass { read_requested: true, target: front.drawn, ..front };
            &&& front.inspector_taken(later, action) == {
                let (after, effects) = later.inspector_outcome(app.state.active, action);
                (front.at(FrameStage::Screen), after, effects)
            }
            &&& ready.read_taken(later) == {
                let (after, effects) = later.paste_requested();
                (ready.at(FrameStage::Links), after, effects)
            }
        }),
{
    reveal(FramePass::front_taken);
    reveal(FramePass::inspector_taken);
    reveal(FramePass::read_taken);
}

/// Whatever is answered in the first half of a frame reaches what it is about:
/// the worker's word the credential on its way, the state of an update the
/// window, gestures the top row, and a choice the palette, which closes. Escape
/// goes to what is open.
pub proof fn first_answers_reach_what_they_are_about(
    pass: FramePass,
    app: FesTermApp,
    event: WorkerEvent,
    status: UpdateStatus,
    action: ChromeAction,
    decision: PaletteDecision,
    pressed: bool,
    documents: Seq<OpenDocument>,
    chord: Option<String>,
    focused: Option<u64>,
    now_ms: u64,
)
    ensures
        ({
            let step = |stage: FrameStage, answer: FrameAnswer|
                pass.at(stage).outcome(app, answer, documents, chord, focused, now_ms);
            let worker = step(FrameStage::Credential, FrameAnswer::Credential(event));
            let update = step(FrameStage::Update, FrameAnswer::Update(status));
            let gesture = step(FrameStage::Chrome, FrameAnswer::Chrome(Some(action)));
            let chosen = step(FrameStage::Palette, FrameAnswer::Palette(decision));
            let escape = step(FrameStage::Escape, FrameAnswer::Escape(pressed));
            let surface = step(FrameStage::SurfaceEscape, FrameAnswer::Escape(pressed));
            &&& worker.1 == app.store_polled(event).0
            &&& app.store_polled(event).1 is Link ==> worker.2 == seq![
                Effect::LinkCredential(app.store_polled(event).1->Link_0),
            ]
            &&& app.store_polled(event).1 is Idle ==> worker.2.len() == 0
            &&& (update.1, update.2) == app.update_observed(status)
            &&& (gesture.1, gesture.2) == app.chrome_outcome(action, documents, focused)
            &&& gesture.0.stage == FrameStage::Chrome
            &&& decision == PaletteDecision::Nothing ==> chosen.1 == app && chosen.2.len() == 0
            &&& decision != PaletteDecision::Nothing ==> !chosen.1.shell.focus.palette_open
                || decision is Selected
            &&& decision == PaletteDecision::Dismissed ==> chosen.1 == app.palette_closed()
                && chosen.2.len() == 0
            &&& decision is Selected ==> (chosen.1, chosen.2)
                == app.palette_closed().selection_outcome(
                decision->Selected_0,
                documents,
                chord,
                now_ms,
            )
            &&& escape.0.escape == app.escape_goes_to(pressed)
            &&& escape.1 == app && escape.2.len() == 0
            &&& escape.0.stage == if app.shell.focus.focus_mode {
                FrameStage::SurfaceEscape
            } else {
                FrameStage::Chrome
            }
            &&& surface.0.inspector_escape <==> pressed && app.shell.focus.inspector_open
            &&& surface.0.search_escape <==> pressed && !app.shell.focus.inspector_open
                && app.searching()
            &&& surface.1 == app && surface.2.len() == 0
        }),
{
    reveal(FramePass::credential_taken);
    reveal(FramePass::update_taken);
    reveal(FramePass::chrome_taken);
    reveal(FramePass::palette_taken);
    reveal(FesTermApp::palette_answered);
    reveal(FramePass::escape_taken);
    reveal(FramePass::surface_escape_taken);
}

/// Whatever the tab that was drawn has led to reaches what it is about: a
/// viewer's commands go to the tabs in their order, a link is opened, what a
/// surface or an overlay asked for is done. The search closes where Escape was
/// pressed in it.
pub proof fn drawn_answers_reach_what_they_are_about(
    pass: FramePass,
    app: FesTermApp,
    command: AppCommand,
    target: Option<String>,
    asked: ScreenCommand,
    action: OverlayAction,
    documents: Seq<OpenDocument>,
    chord: Option<String>,
    focused: Option<u64>,
    now_ms: u64,
)
    ensures
        ({
            let step = |stage: FrameStage, answer: FrameAnswer|
                pass.at(stage).outcome(app, answer, documents, chord, focused, now_ms);
            let viewer = step(FrameStage::Viewer, FrameAnswer::Viewer(Some(command)));
            let through = step(FrameStage::Viewer, FrameAnswer::Viewer(None));
            let link = step(FrameStage::Links, FrameAnswer::Link(Some(target)));
            let screen = step(FrameStage::Screen, FrameAnswer::Screen(Some(asked)));
            let overlay = step(FrameStage::Overlay, FrameAnswer::Overlay(Some(action)));
            let superseded = step(FrameStage::Supersede, FrameAnswer::Done);
            let checked = step(FrameStage::Validate, FrameAnswer::Done);
            &&& viewer == (pass.at(FrameStage::Viewer), app, seq![Effect::Dispatch(command)])
            &&& through.1 == app
            &&& pass.search_escape ==> through.2 == app.search_closed_effects()
            &&& !pass.search_escape ==> through.2.len() == 0
            &&& link.1 == app.link_followed(target, now_ms).0
            &&& link.2 == seq![app.link_followed(target, now_ms).1]
            &&& link.0.stage == FrameStage::Links
            &&& (screen.1, screen.2) == app.screen_outcome(asked, documents, now_ms)
            &&& (overlay.1, overlay.2) == app.overlay_outcome(action)
            &&& (superseded.1, superseded.2) == app.after_other_paste(
                pass.paste_was_pending,
                pass.paste_arrived,
            )
            &&& (checked.1, checked.2) == app.read_checked()
        }),
{
    reveal(FramePass::viewers_done);
    reveal(FramePass::link_taken);
    reveal(FramePass::screen_taken);
    reveal(FramePass::overlay_taken);
    reveal(FramePass::supersede_taken);
    reveal(FramePass::validate_taken);
}

/// Whatever is answered above the tab reaches the dialog it is about, and Escape
/// closes that dialog instead: the question that is shown, the port-forward tool,
/// the file picker or the About dialog.
pub proof fn last_answers_reach_what_they_are_about(
    pass: FramePass,
    app: FesTermApp,
    click: DialogClick,
    choice: DocumentChoice,
    at_defaults: bool,
    pressed: ForwardClick,
    draft: Option<String>,
    directory: Option<String>,
    path: String,
    about: AboutClick,
    documents: Seq<OpenDocument>,
    chord: Option<String>,
    focused: Option<u64>,
    now_ms: u64,
)
    ensures
        ({
            let step = |stage: FrameStage, answer: FrameAnswer|
                pass.at(stage).outcome(app, answer, documents, chord, focused, now_ms);
            let question = step(
                FrameStage::Confirmation,
                FrameAnswer::Confirmation { click, choice, at_defaults },
            );
            let tool = step(FrameStage::Forwards, FrameAnswer::Forwards { pressed, draft });
            let picked = step(
                FrameStage::Picker,
                FrameAnswer::Picker { outcome: PickerOutcome::Open(path), directory },
            );
            let waiting = step(
                FrameStage::Picker,
                FrameAnswer::Picker { outcome: PickerOutcome::Pending, directory },
            );
            let cancelled = step(
                FrameStage::Picker,
                FrameAnswer::Picker { outcome: PickerOutcome::Cancelled, directory },
            );
            let info = step(FrameStage::About, FrameAnswer::About(about));
            &&& (question.1, question.2) == app.confirmation_answered(
                pass.frame,
                at_defaults,
                ConfirmationAnswer { escape: pass.escape.confirmation, click, choice },
            )
            &&& pass.escape.port_forwards ==> (tool.1, tool.2) == app.forwards_closed()
            &&& !pass.escape.port_forwards ==> (tool.1, tool.2) == app.forwards_outcome(
                pressed,
                draft,
            )
            &&& pass.escape.file_picker ==> (picked.1, picked.2) == app.picker_closed(directory)
            &&& !pass.escape.file_picker && app.shell.overlays.markdown_file_picker ==> (
                picked.1,
                picked.2,
            ) == app.file_picked(path, directory)
            &&& !app.shell.overlays.markdown_file_picker ==> picked.1 == app && picked.2.len() == 0
            &&& !pass.escape.file_picker ==> waiting.1 == app && waiting.2.len() == 0
            &&& (cancelled.1, cancelled.2) == app.picker_closed(directory)
            &&& (info.1, info.2) == app.about_outcome(pass.escape.about, about)
        }),
{
    reveal(FramePass::confirmation_taken);
    reveal(FramePass::forwards_taken);
    reveal(FramePass::picker_taken);
    reveal(FramePass::about_taken);
}

/// The end of a frame: notices go away once their time is over and no earlier,
/// changed tabs ask for a save, and the profile that was launched is noted.
pub proof fn frames_end_with_what_is_left(
    pass: FramePass,
    app: FesTermApp,
    profile: Option<String>,
    documents: Seq<OpenDocument>,
    chord: Option<String>,
    focused: Option<u64>,
    now_ms: u64,
)
    ensures
        ({
            let step = |stage: FrameStage, answer: FrameAnswer|
                pass.at(stage).outcome(app, answer, documents, chord, focused, now_ms);
            let aged = step(FrameStage::Notice, FrameAnswer::Done);
            let launched = step(FrameStage::Launch, FrameAnswer::Launch(profile));
            let notice = app.shell.overlays.transient_notice;
            let over = notice is Some && now_ms - notice->Some_0.shown_at_ms
                >= notice->Some_0.duration_ms;
            &&& over ==> aged.1.shell.overlays.transient_notice is None
            &&& !over ==> aged.1.shell.overlays.transient_notice == notice
            &&& notice is Some && !over ==> aged.2 == seq![Effect::RepaintAfterMs(100)]
            &&& notice is None || over ==> aged.2.len() == 0
            &&& aged.1.shell.requests == app.save_asked_for().shell.requests
            &&& aged.1.state == app.state
            &&& launched.0.stage == FrameStage::Finished
            &&& launched.1 == app
            &&& profile is Some ==> launched.2.contains(
                Effect::NoteProfileLaunch(profile->Some_0),
            )
            &&& profile is None && !app.shell.native_smoke ==> launched.2.len() == 0
        }),
{
    reveal(FramePass::notice_taken);
    reveal(FramePass::launch_taken);
    if profile is Some {
        let launched = pass.at(FrameStage::Launch).launch_taken(app, profile);
        assert(launched.2[0] == Effect::NoteProfileLaunch(profile->Some_0));
    }
}

/// The clipboard is asked for exactly where the tab that was drawn wants it and
/// this frame's keys were meant for that tab.
pub proof fn reads_are_asked_for_by_the_drawn_tab(pass: FramePass, app: FesTermApp)
    ensures
        ({
            let (after, window, effects) = pass.read_taken(app);
            let wanted = pass.read_requested && pass.drawn is Some && pass.target == pass.drawn;
            &&& wanted ==> (window, effects) == app.paste_requested()
            &&& !wanted ==> window == app && effects.len() == 0
            &&& after.stage == FrameStage::Links
        }),
{
    reveal(FramePass::read_taken);
}

/// The inspector acts on the tab that was drawn.
pub proof fn the_inspector_acts_on_the_drawn_tab(
    pass: FramePass,
    app: FesTermApp,
    action: InspectorAction,
)
    ensures
        pass.drawn is Some ==> (
            pass.inspector_taken(app, action).1,
            pass.inspector_taken(app, action).2,
        ) == app.inspector_outcome(pass.drawn->Some_0, action),
        pass.drawn is None ==> pass.inspector_taken(app, action).1 == app,
{
    reveal(FramePass::inspector_taken);
}

proof fn discards_of_tab(tabs: Seq<Tab>, n: int, i: int)
    requires
        0 <= i < n <= tabs.len(),
        tabs[i].content is Session,
    ensures
        discards_told(tabs, n).contains(Effect::ReportClipboardDiscards(tabs[i].id)),
        discards_told(tabs, n).contains(Effect::FinishFailedClipboardInput(tabs[i].id)),
    decreases n,
{
    let all = discards_told(tabs, n);
    let rest = discards_told(tabs, n - 1);
    if i < n - 1 {
        discards_of_tab(tabs, n - 1, i);
        let told = Effect::ReportClipboardDiscards(tabs[i].id);
        let finished = Effect::FinishFailedClipboardInput(tabs[i].id);
        let a = choose|a: int| 0 <= a < rest.len() && rest[a] == told;
        let b = choose|b: int| 0 <= b < rest.len() && rest[b] == finished;
        assert(all[a] == told);
        assert(all[b] == finished);
    } else {
        assert(all[all.len() - 1] == Effect::ReportClipboardDiscards(tabs[i].id));
        assert(all[all.len() - 2] == Effect::FinishFailedClipboardInput(tabs[i].id));
    }
}

/// What clipboard reads took along is told of every session, and of nothing
/// else.
pub proof fn every_session_tells_its_discards(pass: FramePass, app: FesTermApp, i: int)
    requires
        0 <= i < app.state.tabs@.len(),
        app.state.tabs@[i].content is Session,
    ensures
        pass.discards_taken(app).2.contains(
            Effect::ReportClipboardDiscards(app.state.tabs@[i].id),
        ),
        pass.discards_taken(app).2.contains(
            Effect::FinishFailedClipboardInput(app.state.tabs@[i].id),
        ),
        pass.discards_taken(app).1 == app.forwards_synced(),
{
    reveal(FramePass::discards_taken);
    discards_of_tab(app.state.tabs@, app.state.tabs@.len() as int, i);
}

/// Once the keys have gone through, it is settled whom they were for, the
/// port-forward tool of another tab is gone and so is focus mode without a
/// session.
pub proof fn keys_have_their_target(pass: FramePass, app: FesTermApp)
    ensures
        ({
            let (after, window, effects) = pass.input_taken(app);
            &&& after.target == app.input_target(pass.frame)
            &&& after.opening == app.confirmation_opening(pass.frame)
            &&& window == app.forwards_synced().focus_mode_settled()
            &&& effects.len() == 0
            &&& after.stage == FrameStage::Escape
        }),
{
    reveal(FramePass::input_taken);
}

/// A frame begins with nothing done: no key is taken, no tab drawn, nothing read
/// or asked for, and what a worker found out comes first.
pub proof fn frames_begin_with_nothing_done(frame: u64)
    ensures
        ({
            let pass = FramePass::begun(frame);
            &&& pass.frame == frame
            &&& pass.stage == FrameStage::Credential
            &&& pass.target is None
            &&& pass.drawn is None
            &&& !pass.opening
            &&& !pass.escape.consumed
            &&& !pass.escape.confirmation
            &&& !pass.escape.port_forwards
            &&& !pass.escape.file_picker
            &&& !pass.escape.about
            &&& !pass.inspector_escape
            &&& !pass.search_escape
            &&& !pass.paste_was_pending
            &&& !pass.paste_arrived
            &&& !pass.read_requested
        }),
{
}

} // verus!
