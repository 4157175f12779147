//! The About dialog: what it says about updates, and what its buttons do.
use vstd::prelude::*;

use crate::app::{ExitState, FesTermApp};
#[allow(unused_imports)]
use crate::app::Shell;
use crate::commands::one_or_none;
#[allow(unused_imports)]
use crate::commands::at_most_one;
use crate::dialogs::refocus;
use crate::effects::Effect;
use crate::overlays::OverlayState;
use crate::text::is_white_space;
#[allow(unused_imports)]
use crate::text::{holds_text, optional_text, white_space};

verus! {

/// How far an update has got.
#[derive(Debug)]
pub enum UpdateStatus {
    Unavailable(String),
    Idle,
    Checking,
    Current,
    Available { version: String, notes: Option<String> },
    Downloading(String),
    ReadyToInstall(String),
    Installing(String),
    Installed(String),
    Failed { message: String, retry_check: bool },
}

impl UpdateStatus {
    /// A worker is busy with the update.
    pub open spec fn busy(self) -> bool {
        self is Checking || self is Downloading || self is Installing
    }

    pub fn is_busy(&self) -> (result: bool)
        ensures
            result == self.busy(),
    {
        matches!(
            self,
            UpdateStatus::Checking | UpdateStatus::Downloading(_) | UpdateStatus::Installing(_)
        )
    }
}

/// A step that the user can ask for.
#[derive(Clone, Copy, Debug, PartialEq, Eq, Structural)]
pub enum UpdateAction {
    Check,
    Download,
    Install,
}

/// Release notes are cut off after this many characters.
pub const UPDATE_NOTES_LIMIT: usize = 600;

/// What the dialog says about updates.
pub struct UpdatePanel {
    pub text: Option<String>,
    pub busy: bool,
    pub error: bool,
    pub notes: Option<String>,
    pub action: Option<(UpdateAction, &'static str)>,
    /// The installation is updated by a package manager.
    pub package_managed: bool,
    /// It is said where updates come from and what is sent.
    pub explains_checks: bool,
}

pub struct UpdatePanelView {
    pub text: Option<Seq<char>>,
    pub busy: bool,
    pub error: bool,
    pub notes: Option<Seq<char>>,
    pub action: Option<(UpdateAction, Seq<char>)>,
    pub package_managed: bool,
    pub explains_checks: bool,
}

impl View for UpdatePanel {
    type V = UpdatePanelView;

    open spec fn view(&self) -> UpdatePanelView {
        UpdatePanelView {
            text: optional_text(self.text),
            busy: self.busy,
            error: self.error,
            notes: optional_text(self.notes),
            action: match self.action {
                Some((action, label)) => Some((action, label@)),
                None => None,
            },
            package_managed: self.package_managed,
            explains_checks: self.explains_checks,
        }
    }
}

/// The part of release notes that is shown: their start, unless that is blank.
pub open spec fn shown_notes(notes: Option<String>) -> Option<Seq<char>> {
    match notes {
        Some(notes) => {
            let start = if notes@.len() <= UPDATE_NOTES_LIMIT {
                notes@
            } else {
                notes@.take(UPDATE_NOTES_LIMIT as int)
            };
            if blank(start) {
                None
            } else {
                Some(start)
            }
        },
        None => None,
    }
}

pub open spec fn blank(s: Seq<char>) -> bool {
    forall|i: int| 0 <= i < s.len() ==> white_space(#[trigger] s[i])
}

fn bounded_notes(notes: &Option<String>) -> (shown: Option<String>)
    ensures
        optional_text(shown) == shown_notes(*notes),
{
    let notes = match notes {
        Some(notes) => notes,
        None => return None,
    };
    let length: usize = notes.as_str().unicode_len();
    let limit: usize = if length <= UPDATE_NOTES_LIMIT {
        length
    } else {
        UPDATE_NOTES_LIMIT
    };
    let mut start = String::new();
    let mut empty = true;
    let mut i: usize = 0;
    assert(notes@.take(0) =~= Seq::empty());
    while i < limit
        invariant
            i <= limit <= notes@.len(),
            start@ == notes@.take(i as int),
            empty == blank(notes@.take(i as int)),
        decreases limit - i,
    {
        let c = notes.as_str().get_char(i);
        proof {
            let longer = notes@.take(i + 1);
            assert(longer =~= notes@.take(i as int).push(c));
            assert(longer[i as int] == c);
            assert(forall|k: int| 0 <= k < i ==> longer[k] == #[trigger] notes@.take(i as int)[k]);
        }
        if !is_white_space(c) {
            empty = false;
        }
        start.push(c);
        i = i + 1;
    }
    assert(notes@.take(limit as int) =~= if notes@.len() <= UPDATE_NOTES_LIMIT {
        notes@
    } else {
        notes@.take(UPDATE_NOTES_LIMIT as int)
    });
    if empty {
        None
    } else {
        Some(start)
    }
}

impl UpdatePanelView {
    /// A panel that says nothing yet.
    pub open spec fn plain() -> Self {
        UpdatePanelView {
            text: None,
            busy: false,
            error: false,
            notes: None,
            action: None,
            package_managed: false,
            explains_checks: true,
        }
    }

    /// What the dialog says about `status`. `can_install` tells an installation
    /// that can replace itself from one that a package manager owns.
    pub open spec fn of(status: UpdateStatus, can_install: bool) -> Self {
        match status {
            UpdateStatus::Unavailable(message) => UpdatePanelView {
                text: Some(message@),
                explains_checks: false,
                ..Self::plain()
            },
            UpdateStatus::Idle => UpdatePanelView {
                action: Some((UpdateAction::Check, "Check for Updates"@)),
                ..Self::plain()
            },
            UpdateStatus::Checking => UpdatePanelView {
                text: Some("Checking GitHub Releases…"@),
                busy: true,
                ..Self::plain()
            },
            UpdateStatus::Current => UpdatePanelView {
                text: Some("fesTerm is up to date."@),
                action: Some((UpdateAction::Check, "Check Again"@)),
                ..Self::plain()
            },
            UpdateStatus::Available { version, notes } => UpdatePanelView {
                text: Some("fesTerm "@ + version@ + " is available."@),
                notes: shown_notes(notes),
                action: if can_install {
                    Some((UpdateAction::Download, "Download Update"@))
                } else {
                    None
                },
                package_managed: !can_install,
                ..Self::plain()
            },
            UpdateStatus::Downloading(version) => UpdatePanelView {
                text: Some("Downloading and verifying fesTerm "@ + version@ + "…"@),
                busy: true,
                ..Self::plain()
            },
            UpdateStatus::ReadyToInstall(version) => UpdatePanelView {
                text: Some("fesTerm "@ + version@ + " is downloaded and verified."@),
                action: Some((UpdateAction::Install, "Install and Restart"@)),
                ..Self::plain()
            },
            UpdateStatus::Installing(version) => UpdatePanelView {
                text: Some("Installing fesTerm "@ + version@ + "…"@),
                busy: true,
                ..Self::plain()
            },
            UpdateStatus::Installed(version) => UpdatePanelView {
                text: Some(
                    "fesTerm "@ + version@
                        + " was installed. Restart fesTerm if it remains open."@,
                ),
                ..Self::plain()
            },
            UpdateStatus::Failed { message, retry_check } => UpdatePanelView {
                text: Some(message@),
                error: true,
                action: if retry_check {
                    Some((UpdateAction::Check, "Try Again"@))
                } else {
                    None
                },
                ..Self::plain()
            },
        }
    }
}

fn around(before: &str, version: &String, after: &str) -> (text: String)
    ensures
        text@ == before@ + version@ + after@,
{
    let mut text = before.to_owned();
    text.append(version.as_str());
    text.append(after);
    text
}

/// Puts together what the dialog says about updates.
pub fn update_panel(status: &UpdateStatus, can_install: bool) -> (panel: UpdatePanel)
    ensures
        panel@ == UpdatePanelView::of(*status, can_install),
{
    let mut panel = UpdatePanel {
        text: None,
        busy: false,
        error: false,
        notes: None,
        action: None,
        package_managed: false,
        explains_checks: true,
    };
    match status {
        UpdateStatus::Unavailable(message) => {
            panel.text = Some(message.clone());
            panel.explains_checks = false;
        },
        UpdateStatus::Idle => {
            panel.action = Some((UpdateAction::Check, "Check for Updates"));
        },
        UpdateStatus::Checking => {
            panel.text = Some("Checking GitHub Releases…".to_owned());
            panel.busy = true;
        },
        UpdateStatus::Current => {
            panel.text = Some("fesTerm is up to date.".to_owned());
            panel.action = Some((UpdateAction::Check, "Check Again"));
        },
        UpdateStatus::Available { version, notes } => {
            panel.text = Some(around("fesTerm ", version, " is available."));
            panel.notes = bounded_notes(notes);
            if can_install {
                panel.action = Some((UpdateAction::Download, "Download Update"));
            } else {
                panel.package_managed = true;
            }
        },
        UpdateStatus::Downloading(version) => {
            panel.text = Some(around("Downloading and verifying fesTerm ", version, "…"));
            panel.busy = true;
        },
        UpdateStatus::ReadyToInstall(version) => {
            panel.text = Some(around("fesTerm ", version, " is downloaded and verified."));
            panel.action = Some((UpdateAction::Install, "Install and Restart"));
        },
        UpdateStatus::Installing(version) => {
            panel.text = Some(around("Installing fesTerm ", version, "…"));
            panel.busy = true;
        },
        UpdateStatus::Installed(version) => {
            panel.text = Some(
                around(
                    "fesTerm ",
                    version,
                    " was installed. Restart fesTerm if it remains open.",
                ),
            );
        },
        UpdateStatus::Failed { message, retry_check } => {
            panel.text = Some(message.clone());
            panel.error = true;
            if *retry_check {
                panel.action = Some((UpdateAction::Check, "Try Again"));
            }
        },
    }
    panel
}

/// What the dialog copies about this build.
pub open spec fn version_text(
    version: Seq<char>,
    os: Seq<char>,
    architecture: Seq<char>,
    authorship: Seq<char>,
    commit: Option<Seq<char>>,
) -> Seq<char> {
    "fesTerm "@ + version + "\nOS: "@ + os + "\nArchitecture: "@ + architecture
        + "\nUI: egui/eframe 0.36\nAuthorship: "@ + authorship + (match commit {
        Some(commit) => "\nBuild: "@ + commit,
        None => Seq::empty(),
    })
}

pub fn version_information(
    version: &str,
    os: &str,
    architecture: &str,
    authorship: &str,
    commit: Option<&str>,
) -> (text: String)
    ensures
        text@ == version_text(
            version@,
            os@,
            architecture@,
            authorship@,
            match commit {
                Some(commit) => Some(commit@),
                None => None,
            },
        ),
{
    let mut text = "fesTerm ".to_owned();
    text.append(version);
    text.append("\nOS: ");
    text.append(os);
    text.append("\nArchitecture: ");
    text.append(architecture);
    text.append("\nUI: egui/eframe 0.36\nAuthorship: ");
    text.append(authorship);
    if let Some(commit) = commit {
        text.append("\nBuild: ");
        text.append(commit);
    }
    assert(text@ =~= version_text(
        version@,
        os@,
        architecture@,
        authorship@,
        match commit {
            Some(commit) => Some(commit@),
            None => None,
        },
    ));
    text
}

/// What was clicked in the dialog.
#[derive(Clone, Copy, Debug, PartialEq, Eq, Structural)]
pub enum AboutClick {
    Nothing,
    Update(UpdateAction),
    CopyVersion,
    ToggleLicenses,
    Close,
}

impl FesTermApp {
    /// The window without the dialog.
    pub open spec fn about_closed(self) -> Self {
        self.with_overlays(
            OverlayState {
                about_open: false,
                about_licenses_open: false,
                ..self.shell.overlays
            },
        )
    }

    /// What the dialog, where it is open, leads to.
    pub open spec fn about_outcome(self, escape: bool, click: AboutClick) -> (Self, Seq<Effect>) {
        if !self.shell.overlays.about_open {
            (self, seq![])
        } else if escape || click == AboutClick::Close {
            (self.about_closed(), refocus(self, self.state.active))
        } else {
            match click {
                AboutClick::Update(UpdateAction::Check) => (self, seq![Effect::BeginUpdateCheck]),
                AboutClick::Update(UpdateAction::Download) => (
                    self,
                    seq![Effect::BeginUpdateDownload],
                ),
                AboutClick::Update(UpdateAction::Install) => {
                    let (after, effect) = self.install_requested();
                    (after, at_most_one(effect))
                },
                AboutClick::CopyVersion => (self, seq![Effect::CopyVersionInformation]),
                AboutClick::ToggleLicenses => (
                    self.with_overlays(
                        OverlayState {
                            about_licenses_open: !self.shell.overlays.about_licenses_open,
                            ..self.shell.overlays
                        },
                    ),
                    seq![],
                ),
                _ => (self, seq![]),
            }
        }
    }

    /// Takes in what was done in the dialog. Closing it gives the keyboard back.
    pub fn show_about(&mut self, escape: bool, click: AboutClick) -> (effects: Vec<Effect>)
        ensures
            (*final(self), effects@) == old(self).about_outcome(escape, click),
    {
        if !self.shell.overlays.about_open {
            return one_or_none(None);
        }
        if escape || matches!(click, AboutClick::Close) {
            self.shell.overlays.about_open = false;
            self.shell.overlays.about_licenses_open = false;
            let mut effects = Vec::new();
            self.push_refocus(self.state.active, &mut effects);
            assert(effects@ =~= refocus(*old(self), old(self).state.active));
            return effects;
        }
        match click {
            AboutClick::Update(UpdateAction::Check) => one_or_none(Some(Effect::BeginUpdateCheck)),
            AboutClick::Update(UpdateAction::Download) => one_or_none(
                Some(Effect::BeginUpdateDownload),
            ),
            AboutClick::Update(UpdateAction::Install) => {
                let effect = self.request_update_install();
                one_or_none(effect)
            },
            AboutClick::CopyVersion => one_or_none(Some(Effect::CopyVersionInformation)),
            AboutClick::ToggleLicenses => {
                self.shell.overlays.about_licenses_open = !self.shell.overlays.about_licenses_open;
                one_or_none(None)
            },
            _ => one_or_none(None),
        }
    }

    /// What the state of an update means for the window: a failed installation
    /// takes back the consent to restart, and one that succeeded after consent
    /// closes the application, once.
    pub open spec fn update_observed(self, status: UpdateStatus) -> (Self, Seq<Effect>) {
        let exit = self.shell.exit;
        let closes = status is Installed && exit.update_restart_authorized
            && !exit.update_exit_requested;
        (
            if status is Failed {
                self.with_exit(ExitState { update_restart_authorized: false, ..exit })
            } else if closes {
                self.with_exit(
                    ExitState { update_exit_requested: true, quit_confirmed: true, ..exit },
                )
            } else {
                self
            },
            (if closes {
                seq![Effect::CloseViewport]
            } else {
                seq![]
            }) + (if status.busy() {
                seq![Effect::RepaintAfterMs(100)]
            } else {
                seq![]
            }),
        )
    }

    /// Takes in the state of an update, once per frame.
    pub fn observe_update(&mut self, status: &UpdateStatus) -> (effects: Vec<Effect>)
        ensures
            (*final(self), effects@) == old(self).update_observed(*status),
    {
        let mut effects = Vec::new();
        if matches!(status, UpdateStatus::Failed { .. }) {
            self.shell.exit.update_restart_authorized = false;
        }
        if matches!(status, UpdateStatus::Installed(_)) && self.shell.exit.update_restart_authorized
            && !self.shell.exit.update_exit_requested {
            self.shell.exit.update_exit_requested = true;
            self.shell.exit.quit_confirmed = true;
            effects.push(Effect::CloseViewport);
        }
        if status.is_busy() {
            effects.push(Effect::RepaintAfterMs(100));
        }
        assert(effects@ =~= old(self).update_observed(*status).1);
        effects
    }
}

/// A successful update asks for the application's end exactly once, however
/// often it is looked at.
pub proof fn update_closes_once(app: FesTermApp, first: UpdateStatus, second: UpdateStatus)
    requires
        app.update_observed(first).1.contains(Effect::CloseViewport),
    ensures
        !app.update_observed(first).0.update_observed(second).1.contains(Effect::CloseViewport),
{
    let after = app.update_observed(first).0;
    let later = after.update_observed(second).1;
    assert(first is Installed) by {
        if !(first is Installed) {
            assert(forall|i: int|
                0 <= i < app.update_observed(first).1.len() ==> #[trigger] app.update_observed(
                    first,
                ).1[i] != Effect::CloseViewport);
        }
    }
    assert(forall|i: int| 0 <= i < later.len() ==> #[trigger] later[i] != Effect::CloseViewport);
}

/// A failed installation restores the ordinary protection: after it, nothing
/// closes the application until the user consents anew, and quitting asks again.
pub proof fn failed_update_restores_protection(
    app: FesTermApp,
    failed: UpdateStatus,
    later: UpdateStatus,
)
    requires
        failed is Failed,
        !app.shell.exit.quit_confirmed,
    ensures
        ({
            let after = app.update_observed(failed).0;
            &&& !after.shell.exit.update_restart_authorized
            &&& !after.shell.exit.quit_confirmed
            &&& !after.update_observed(later).0.shell.exit.quit_confirmed
            &&& after.sessions_to_confirm() == app.sessions_to_confirm()
        }),
{
}

/// Without consent to restart, an installed update never closes the application.
pub proof fn update_needs_consent(app: FesTermApp, status: UpdateStatus)
    requires
        !app.shell.exit.update_restart_authorized,
        !app.shell.exit.quit_confirmed,
    ensures
        !app.update_observed(status).0.shell.exit.quit_confirmed,
{
}

/// What the dialog offers fits the update: nothing while a worker is busy, a
/// download only of an update that can be installed here, installing only what is
/// downloaded and verified, and checking where there is nothing yet or it is
/// worth another try. A failure is shown as one, and so is that a package manager
/// owns the installation.
pub proof fn offered_steps_fit_the_update(status: UpdateStatus, can_install: bool)
    ensures
        ({
            let panel = UpdatePanelView::of(status, can_install);
            let offered = match panel.action {
                Some((action, _)) => Some(action),
                None => None,
            };
            &&& panel.busy <==> status is Checking || status is Downloading || status is Installing
            &&& panel.busy ==> offered is None
            &&& panel.error <==> status is Failed
            &&& offered == Some(UpdateAction::Install) <==> status is ReadyToInstall
            &&& offered == Some(UpdateAction::Download) <==> status is Available && can_install
            &&& offered == Some(UpdateAction::Check) <==> status is Idle || status is Current || (
            status is Failed && status->retry_check)
            &&& panel.package_managed <==> status is Available && !can_install
            &&& panel.explains_checks <==> !(status is Unavailable)
            &&& panel.text is None <==> status is Idle
            &&& status is Failed ==> panel.text == Some(status->Failed_message@)
            &&& status is Unavailable ==> panel.text == Some(status->Unavailable_0@)
            &&& panel.notes is Some ==> status is Available
        }),
{
}

proof fn version_is_shown(before: Seq<char>, version: Seq<char>, after: Seq<char>)
    ensures
        holds_text(before + version + after, version),
{
    let s = before + version + after;
    assert(s.subrange(before.len() as int, before.len() as int + version.len()) =~= version);
}

/// Wherever an update has a version, the dialog names it.
pub proof fn updates_are_named(status: UpdateStatus, can_install: bool)
    ensures
        ({
            let text = UpdatePanelView::of(status, can_install).text->Some_0;
            &&& status is Available ==> holds_text(text, status->Available_version@)
            &&& status is Downloading ==> holds_text(text, status->Downloading_0@)
            &&& status is ReadyToInstall ==> holds_text(text, status->ReadyToInstall_0@)
            &&& status is Installing ==> holds_text(text, status->Installing_0@)
            &&& status is Installed ==> holds_text(text, status->Installed_0@)
        }),
{
    match status {
        UpdateStatus::Available { version, notes } => version_is_shown(
            "fesTerm "@,
            version@,
            " is available."@,
        ),
        UpdateStatus::Downloading(version) => version_is_shown(
            "Downloading and verifying fesTerm "@,
            version@,
            "…"@,
        ),
        UpdateStatus::ReadyToInstall(version) => version_is_shown(
            "fesTerm "@,
            version@,
            " is downloaded and verified."@,
        ),
        UpdateStatus::Installing(version) => version_is_shown(
            "Installing fesTerm "@,
            version@,
            "…"@,
        ),
        UpdateStatus::Installed(version) => version_is_shown(
            "fesTerm "@,
            version@,
            " was installed. Restart fesTerm if it remains open."@,
        ),
        _ => {},
    }
}

/// Release notes are shown from their start and never beyond the limit; short
/// ones are shown whole, unless they are blank.
pub proof fn notes_are_shown_from_their_start(notes: String)
    ensures
        ({
            let shown = shown_notes(Some(notes));
            &&& shown is Some ==> {
                let text = shown->Some_0;
                &&& text.len() <= 600
                &&& text.len() <= notes@.len()
                &&& text == notes@.take(text.len() as int)
                &&& text.len() == 600 || text == notes@
                &&& !blank(text)
            }
            &&& shown is None && notes@.len() <= 600 ==> blank(notes@)
            &&& shown_notes(None) is None
        }),
{
    if notes@.len() <= UPDATE_NOTES_LIMIT {
        assert(notes@.take(notes@.len() as int) =~= notes@);
    }
}

/// What is copied about this build names its version first, then the platform,
/// and the commit exactly where it is known.
pub proof fn builds_are_identified(
    version: Seq<char>,
    os: Seq<char>,
    architecture: Seq<char>,
    authorship: Seq<char>,
    commit: Seq<char>,
)
    ensures
        ({
            let plain = version_text(version, os, architecture, authorship, None);
            let built = version_text(version, os, architecture, authorship, Some(commit));
            &&& built == plain + "\nBuild: "@ + commit
            &&& holds_text(plain, version)
            &&& holds_text(plain, os)
            &&& holds_text(plain, architecture)
            &&& holds_text(plain, authorship)
        }),
{
    let plain = version_text(version, os, architecture, authorship, None);
    let built = version_text(version, os, architecture, authorship, Some(commit));
    assert(built =~= plain + "\nBuild: "@ + commit);
    let a = "fesTerm "@;
    let b = "\nOS: "@;
    let c = "\nArchitecture: "@;
    let d = "\nUI: egui/eframe 0.36\nAuthorship: "@;
    let after_os = c + architecture + d + authorship;
    let after_architecture = d + authorship;
    assert(plain =~= a + version + (b + os + after_os));
    version_is_shown(a, version, b + os + after_os);
    assert(plain =~= (a + version + b) + os + after_os);
    version_is_shown(a + version + b, os, after_os);
    assert(plain =~= (a + version + b + os + c) + architecture + after_architecture);
    version_is_shown(a + version + b + os + c, architecture, after_architecture);
    assert(plain =~= (a + version + b + os + c + architecture + d) + authorship + Seq::empty());
    version_is_shown(a + version + b + os + c + architecture + d, authorship, Seq::empty());
}

/// The dialog does what is clicked in it, only while it is open; Escape and Close
/// close it, with its licences, and give the keyboard back.
pub proof fn the_dialog_does_what_is_clicked(app: FesTermApp, escape: bool, click: AboutClick)
    ensures
        ({
            let (after, effects) = app.about_outcome(escape, click);
            let open = app.shell.overlays.about_open;
            let closes = escape || click == AboutClick::Close;
            &&& !open ==> after == app && effects.len() == 0
            &&& open && closes ==> {
                &&& !after.shell.overlays.about_open
                &&& !after.shell.overlays.about_licenses_open
                &&& forall|i: int|
                    0 <= i < effects.len() ==> #[trigger] effects[i] == Effect::FocusTerminal(
                        app.state.active,
                    )
                &&& app.state.active_session() is Some <==> effects.len() == 1
            }
            &&& open && !closes ==> {
                &&& after.shell.overlays.about_open
                &&& click == AboutClick::Update(UpdateAction::Check) ==> effects == seq![
                    Effect::BeginUpdateCheck,
                ] && after == app
                &&& click == AboutClick::Update(UpdateAction::Download) ==> effects == seq![
                    Effect::BeginUpdateDownload,
                ] && after == app
                &&& click == AboutClick::Update(UpdateAction::Install) ==> after
                    == app.install_requested().0 && (app.install_requested().1 is Some ==> effects
                    == seq![Effect::BeginUpdateInstall]) && (app.install_requested().1 is None
                    ==> effects.len() == 0)
                &&& click == AboutClick::CopyVersion ==> effects == seq![
                    Effect::CopyVersionInformation,
                ] && after == app
                &&& click == AboutClick::ToggleLicenses
                    ==> after.shell.overlays.about_licenses_open
                    != app.shell.overlays.about_licenses_open && effects.len() == 0
                    && after.about_outcome(false, AboutClick::ToggleLicenses).0 == app
                &&& click == AboutClick::Nothing ==> after == app && effects.len() == 0
            }
            &&& after.state == app.state
        }),
{
}

/// An installed update closes the application exactly where the restart was
/// agreed to and not asked for yet; a busy worker is looked at again before long;
/// any other state changes nothing but for a failure, which takes the consent
/// back.
pub proof fn installed_updates_close_with_consent(app: FesTermApp, status: UpdateStatus)
    ensures
        ({
            let (after, effects) = app.update_observed(status);
            let exit = app.shell.exit;
            let closes = status is Installed && exit.update_restart_authorized
                && !exit.update_exit_requested;
            &&& closes <==> effects.contains(Effect::CloseViewport)
            &&& after.shell.exit.quit_confirmed <==> exit.quit_confirmed || closes
            &&& after.shell.exit.update_exit_requested <==> exit.update_exit_requested || closes
            &&& after.shell.exit.update_restart_authorized <==> exit.update_restart_authorized && !(
            status is Failed)
            &&& after.shell.exit.window_close_accepted == exit.window_close_accepted
            &&& effects.contains(Effect::RepaintAfterMs(100)) <==> status.busy()
            &&& after.state == app.state
            &&& after.shell.overlays == app.shell.overlays
        }),
{
    let (_, effects) = app.update_observed(status);
    let exit = app.shell.exit;
    if status is Installed && exit.update_restart_authorized && !exit.update_exit_requested {
        assert(effects[0] == Effect::CloseViewport);
        assert(effects.len() == 1);
    } else if status.busy() {
        assert(effects[0] == Effect::RepaintAfterMs(100));
        assert(effects.len() == 1);
    } else {
        assert(effects.len() == 0);
    }
}

} // verus!
