//! Saved SSH credentials: what native secure storage allows, how a credential
//! gets there, and how saved profiles are launched with it.
use std::sync::Arc;

use vstd::prelude::*;

use crate::app::{CredentialState, DocumentState, FesTermApp, Shell};
#[allow(unused_imports)]
use crate::configuration::ssh_profile;
use crate::configuration::{
    Configuration, ConfigurationLoadFailure, ConfigurationStatus, ConfigurationWrite,
    SessionStrategy,
};
use crate::commands::one_or_none;
use crate::effects::Effect;
use crate::overlays::{OverlayState, PendingPasswordStore, StoredCredentialLaunch};

verus! {

/// Why native secure storage cannot be used.
#[derive(Clone, Copy, Debug, PartialEq, Eq, Structural)]
pub enum SecretStoreError {
    LockedOrUnavailable,
    Unsupported,
    BackendFailure,
    Missing,
    InvalidReference,
}

impl SecretStoreError {
    pub open spec fn message_text(self) -> Seq<char> {
        match self {
            SecretStoreError::LockedOrUnavailable | SecretStoreError::Unsupported =>
                "Native secure storage is unavailable or locked. Unlock or enable it to use saved SSH passwords."@,
            SecretStoreError::BackendFailure =>
                "Native secure storage failed. Saved SSH passwords are unavailable; try again after checking the platform service."@,
            SecretStoreError::Missing | SecretStoreError::InvalidReference =>
                "Native secure storage could not use the requested saved SSH password."@,
        }
    }
}

pub fn secret_store_message(error: SecretStoreError) -> (message: &'static str)
    ensures
        message@ == error.message_text(),
{
    match error {
        SecretStoreError::LockedOrUnavailable | SecretStoreError::Unsupported =>
            "Native secure storage is unavailable or locked. Unlock or enable it to use saved SSH passwords.",
        SecretStoreError::BackendFailure =>
            "Native secure storage failed. Saved SSH passwords are unavailable; try again after checking the platform service.",
        SecretStoreError::Missing | SecretStoreError::InvalidReference =>
            "Native secure storage could not use the requested saved SSH password.",
    }
}

/// What Settings and the launcher say about secure storage.
#[derive(Clone, Copy, Debug, PartialEq, Eq, Structural)]
pub enum StorageFeedback {
    StoreError(SecretStoreError),
    InvalidPortForwards,
    NoStoredSshPassword,
    NoStoredSftpPassword,
    NoStoredSftpCredential,
    AlreadySaving,
    Saving,
    WorkerFailed,
    Saved,
    SavedButPreviousKept,
    NotLinkedRemoved,
    NotLinkedKept,
    Interrupted,
}

impl StorageFeedback {
    pub open spec fn message_text(self) -> Seq<char> {
        match self {
            StorageFeedback::StoreError(error) => error.message_text(),
            StorageFeedback::InvalidPortForwards =>
                "This saved SSH profile has invalid port-forward settings."@,
            StorageFeedback::NoStoredSshPassword =>
                "This saved SSH profile has no stored password. Enter and remember a password first."@,
            StorageFeedback::NoStoredSftpPassword =>
                "This saved SFTP destination has no stored password. Enter and remember a password first."@,
            StorageFeedback::NoStoredSftpCredential =>
                "This saved SFTP destination has no stored credential."@,
            StorageFeedback::AlreadySaving =>
                "A saved SSH credential update is already in progress. Please wait."@,
            StorageFeedback::Saving => "Saving SSH credential in native secure storage…"@,
            StorageFeedback::WorkerFailed =>
                "Native secure storage could not start a credential-save worker. Try again."@,
            StorageFeedback::Saved => "SSH credential saved in native secure storage."@,
            StorageFeedback::SavedButPreviousKept =>
                "SSH credential saved, but the previous native secret could not be removed."@,
            StorageFeedback::NotLinkedRemoved =>
                "SSH credential was not linked because configuration could not be saved; the new native secret was removed."@,
            StorageFeedback::NotLinkedKept =>
                "SSH credential was not linked because configuration could not be saved; native-secret cleanup also failed."@,
            StorageFeedback::Interrupted =>
                "Native secure storage did not complete the password save. Try again."@,
        }
    }

    pub fn message(self) -> (message: &'static str)
        ensures
            message@ == self.message_text(),
    {
        match self {
            StorageFeedback::StoreError(error) => secret_store_message(error),
            StorageFeedback::InvalidPortForwards =>
                "This saved SSH profile has invalid port-forward settings.",
            StorageFeedback::NoStoredSshPassword =>
                "This saved SSH profile has no stored password. Enter and remember a password first.",
            StorageFeedback::NoStoredSftpPassword =>
                "This saved SFTP destination has no stored password. Enter and remember a password first.",
            StorageFeedback::NoStoredSftpCredential =>
                "This saved SFTP destination has no stored credential.",
            StorageFeedback::AlreadySaving =>
                "A saved SSH credential update is already in progress. Please wait.",
            StorageFeedback::Saving => "Saving SSH credential in native secure storage…",
            StorageFeedback::WorkerFailed =>
                "Native secure storage could not start a credential-save worker. Try again.",
            StorageFeedback::Saved => "SSH credential saved in native secure storage.",
            StorageFeedback::SavedButPreviousKept =>
                "SSH credential saved, but the previous native secret could not be removed.",
            StorageFeedback::NotLinkedRemoved =>
                "SSH credential was not linked because configuration could not be saved; the new native secret was removed.",
            StorageFeedback::NotLinkedKept =>
                "SSH credential was not linked because configuration could not be saved; native-secret cleanup also failed.",
            StorageFeedback::Interrupted =>
                "Native secure storage did not complete the password save. Try again.",
        }
    }
}

/// The kinds of sessions that a stored credential starts.
#[derive(Clone, Copy, Debug, PartialEq, Eq, Structural)]
pub enum StoredLaunch {
    Ssh,
    Sftp,
    SftpFileManager,
}

impl StoredLaunch {
    /// What is said where the profile turns out to have no stored credential.
    pub open spec fn missing(self) -> StorageFeedback {
        match self {
            StoredLaunch::Ssh => StorageFeedback::NoStoredSshPassword,
            StoredLaunch::Sftp => StorageFeedback::NoStoredSftpPassword,
            StoredLaunch::SftpFileManager => StorageFeedback::NoStoredSftpCredential,
        }
    }
}

/// How a saved profile is launched.
#[derive(Clone, Copy, Debug, PartialEq, Eq, Structural)]
pub enum ProfileLaunch {
    /// Nothing is launched.
    Nothing,
    /// With the stored credential, over this strategy.
    StoredSsh(SessionStrategy),
    InteractiveSsh,
    StoredSftp,
    InteractiveSftp,
    SftpFileManager,
}

/// What became of a credential that a worker was storing.
#[derive(Clone, Copy, Debug, PartialEq, Eq, Structural)]
pub enum WorkerEvent {
    Stored,
    Failed(SecretStoreError),
    Waiting,
    Lost,
}

/// What follows a look at the worker.
pub enum StorePoll {
    /// Nothing is being stored, or it has come to nothing.
    Idle,
    /// The worker is looked at again after this many milliseconds.
    Again(u64),
    /// The stored credential is to be entered into its profile.
    Link(PendingPasswordStore),
}

/// How entering a stored credential into its profile went, once the secret that
/// `secret_to_delete` names is gone or could not be removed.
pub enum LinkOutcome {
    /// The document is on disk. `previous_removed` tells of the credential that
    /// the profile had before, where it had one.
    Saved { configuration: Arc<Configuration>, previous_removed: Option<bool> },
    /// It is not, and the new credential was to be removed again.
    NotSaved { removed: bool },
}

impl FesTermApp {
    /// The window with something said about secure storage.
    pub open spec fn with_feedback(self, feedback: StorageFeedback) -> Self {
        FesTermApp {
            shell: Shell {
                credentials: CredentialState {
                    feedback: Some(feedback),
                    ..self.shell.credentials
                },
                ..self.shell
            },
            ..self
        }
    }

    /// Tells whether native secure storage could be opened.
    pub fn native_store_available(&self) -> (result: bool)
        ensures
            result == (self.shell.credentials.store is Ok),
    {
        self.shell.credentials.store.is_ok()
    }

    pub open spec fn storage_status(self) -> Option<StorageFeedback> {
        match (self.shell.credentials.feedback, self.shell.credentials.store) {
            (Some(feedback), _) => Some(feedback),
            (None, Err(error)) => Some(StorageFeedback::StoreError(error)),
            (None, Ok(_)) => None,
        }
    }

    /// What is said about secure storage: the last thing that happened, or why
    /// it cannot be used.
    pub fn secure_storage_status_message(&self) -> (message: Option<&'static str>)
        ensures
            match (self.storage_status(), message) {
                (Some(feedback), Some(message)) => message@ == feedback.message_text(),
                (None, None) => true,
                _ => false,
            },
    {
        match self.shell.credentials.feedback {
            Some(feedback) => Some(feedback.message()),
            None => match self.shell.credentials.store {
                Err(error) => Some(secret_store_message(error)),
                Ok(_) => None,
            },
        }
    }

    /// Goes on only where secure storage is open, and says why not otherwise.
    pub fn secure_storage_ready(&mut self) -> (ready: bool)
        ensures
            ready == (old(self).shell.credentials.store is Ok),
            *final(self) == match old(self).shell.credentials.store {
                Ok(_) => *old(self),
                Err(error) => old(self).with_feedback(StorageFeedback::StoreError(error)),
            },
    {
        match self.shell.credentials.store {
            Ok(_) => true,
            Err(error) => {
                self.shell.credentials.feedback = Some(StorageFeedback::StoreError(error));
                false
            },
        }
    }

    /// Takes in whether a session with a stored credential could be started.
    pub fn stored_launch_tried(&mut self, launch: StoredLaunch, started: bool)
        ensures
            *final(self) == if started {
                *old(self)
            } else {
                old(self).with_feedback(launch.missing())
            },
    {
        if !started {
            self.shell.credentials.feedback = Some(
                match launch {
                    StoredLaunch::Ssh => StorageFeedback::NoStoredSshPassword,
                    StoredLaunch::Sftp => StorageFeedback::NoStoredSftpPassword,
                    StoredLaunch::SftpFileManager => StorageFeedback::NoStoredSftpCredential,
                },
            );
        }
    }

    /// Launching a saved SSH profile with its stored credential.
    pub open spec fn stored_ssh_launch(self, identifier: Seq<char>) -> (Self, ProfileLaunch) {
        match ssh_profile(self.shell.documents.configuration.profiles@, identifier) {
            Some(profile) => if !profile.port_forwards_valid {
                (
                    self.with_feedback(StorageFeedback::InvalidPortForwards),
                    ProfileLaunch::Nothing,
                )
            } else {
                match self.shell.credentials.store {
                    Err(error) => (
                        self.with_feedback(StorageFeedback::StoreError(error)),
                        ProfileLaunch::Nothing,
                    ),
                    Ok(_) => (
                        self,
                        ProfileLaunch::StoredSsh(
                            match profile.session_strategy {
                                Some(strategy) => strategy,
                                None => SessionStrategy::PlainShell,
                            },
                        ),
                    ),
                }
            },
            None => (
                self.with_feedback(StorageFeedback::InvalidPortForwards),
                ProfileLaunch::Nothing,
            ),
        }
    }

    pub fn start_stored_password_profile(&mut self, identifier: &str) -> (launch: ProfileLaunch)
        ensures
            (*final(self), launch) == old(self).stored_ssh_launch(identifier@),
    {
        let profile = self.shell.documents.configuration.ssh_profile(identifier);
        let strategy = match profile {
            Some(profile) => if profile.port_forwards_valid {
                match profile.session_strategy {
                    Some(strategy) => Some(strategy),
                    None => Some(SessionStrategy::PlainShell),
                }
            } else {
                None
            },
            None => None,
        };
        match strategy {
            Some(strategy) => if self.secure_storage_ready() {
                ProfileLaunch::StoredSsh(strategy)
            } else {
                ProfileLaunch::Nothing
            },
            None => {
                self.shell.credentials.feedback = Some(StorageFeedback::InvalidPortForwards);
                ProfileLaunch::Nothing
            },
        }
    }

    /// Launching a saved SSH profile: with its stored credential where it has
    /// one, and otherwise with a prompt in the terminal.
    pub open spec fn ssh_launch(self, identifier: Seq<char>) -> (Self, ProfileLaunch) {
        match ssh_profile(self.shell.documents.configuration.profiles@, identifier) {
            Some(profile) => if profile.credential is Some {
                self.stored_ssh_launch(identifier)
            } else {
                (self, ProfileLaunch::InteractiveSsh)
            },
            None => (self, ProfileLaunch::InteractiveSsh),
        }
    }

    pub fn start_configured_ssh_profile(&mut self, identifier: &str) -> (launch: ProfileLaunch)
        ensures
            (*final(self), launch) == old(self).ssh_launch(identifier@),
    {
        let profile = self.shell.documents.configuration.ssh_profile(identifier);
        let stored = match profile {
            Some(profile) => profile.credential.is_some(),
            None => false,
        };
        if stored {
            self.start_stored_password_profile(identifier)
        } else {
            ProfileLaunch::InteractiveSsh
        }
    }

    /// Launching SFTP for a saved SSH profile: graphically where the profile
    /// says so, and otherwise with its stored credential or with a prompt.
    pub open spec fn sftp_launch(self, identifier: Seq<char>) -> (Self, ProfileLaunch) {
        match ssh_profile(self.shell.documents.configuration.profiles@, identifier) {
            None => (self, ProfileLaunch::Nothing),
            Some(profile) => if profile.sftp_gui_mode {
                (self, ProfileLaunch::SftpFileManager)
            } else if profile.credential is None {
                (self, ProfileLaunch::InteractiveSftp)
            } else {
                match self.shell.credentials.store {
                    Ok(_) => (self, ProfileLaunch::StoredSftp),
                    Err(error) => (
                        self.with_feedback(StorageFeedback::StoreError(error)),
                        ProfileLaunch::Nothing,
                    ),
                }
            },
        }
    }

    pub fn start_configured_sftp_profile(&mut self, identifier: &str) -> (launch: ProfileLaunch)
        ensures
            (*final(self), launch) == old(self).sftp_launch(identifier@),
    {
        let profile = match self.shell.documents.configuration.ssh_profile(identifier) {
            Some(profile) => profile,
            None => return ProfileLaunch::Nothing,
        };
        if profile.sftp_gui_mode {
            return ProfileLaunch::SftpFileManager;
        }
        if profile.credential.is_none() {
            return ProfileLaunch::InteractiveSftp;
        }
        if self.secure_storage_ready() {
            ProfileLaunch::StoredSftp
        } else {
            ProfileLaunch::Nothing
        }
    }

    /// Starting a session with a credential that a profile has stored, where
    /// secure storage is open.
    pub open spec fn stored_launch(self, profile: String, launch: StoredLaunch) -> (
        Self,
        Seq<Effect>,
    ) {
        match self.shell.credentials.store {
            Ok(_) => (self, seq![Effect::LaunchStored { profile, launch }]),
            Err(error) => (self.with_feedback(StorageFeedback::StoreError(error)), seq![]),
        }
    }

    pub fn start_stored_profile(&mut self, profile: String, launch: StoredLaunch) -> (effects: Vec<
        Effect,
    >)
        ensures
            (*final(self), effects@) == old(self).stored_launch(profile, launch),
    {
        if self.secure_storage_ready() {
            one_or_none(Some(Effect::LaunchStored { profile, launch }))
        } else {
            one_or_none(None)
        }
    }

    /// Whether a worker may store a credential now: secure storage must be open,
    /// and no other credential on its way.
    pub open spec fn credential_asked(self) -> (Self, bool) {
        match self.shell.credentials.store {
            Err(error) => (self.with_feedback(StorageFeedback::StoreError(error)), false),
            Ok(_) => if self.shell.overlays.pending_password_store is Some {
                (self.with_feedback(StorageFeedback::AlreadySaving), false)
            } else {
                (self, true)
            },
        }
    }

    pub fn store_credential_for_profile(&mut self) -> (start: bool)
        ensures
            (*final(self), start) == old(self).credential_asked(),
    {
        if !self.secure_storage_ready() {
            return false;
        }
        if self.shell.overlays.pending_password_store.is_some() {
            self.shell.credentials.feedback = Some(StorageFeedback::AlreadySaving);
            return false;
        }
        true
    }

    /// Takes in whether the worker could be started, and says whether to
    /// repaint.
    pub fn credential_worker_started(&mut self, pending: PendingPasswordStore, started: bool) -> (
    repaint: bool)
        ensures
            repaint == started,
            *final(self) == if started {
                old(self).with_feedback(StorageFeedback::Saving).with_overlays(
                    OverlayState {
                        pending_password_store: Some(pending),
                        ..old(self).shell.overlays
                    },
                )
            } else {
                old(self).with_feedback(StorageFeedback::WorkerFailed)
            },
    {
        if started {
            self.shell.overlays.pending_password_store = Some(pending);
            self.shell.credentials.feedback = Some(StorageFeedback::Saving);
        } else {
            self.shell.credentials.feedback = Some(StorageFeedback::WorkerFailed);
        }
        started
    }

    /// The window once no credential is on its way any more.
    pub open spec fn store_ended(self) -> Self {
        self.with_overlays(OverlayState { pending_password_store: None, ..self.shell.overlays })
    }

    /// What the worker has to say leads to. A stored credential is to be entered
    /// into its profile next; anything else that ends the wait is told.
    pub open spec fn store_polled(self, event: WorkerEvent) -> (Self, StorePoll) {
        match self.shell.overlays.pending_password_store {
            None => (self, StorePoll::Idle),
            Some(pending) => match event {
                WorkerEvent::Stored => (self.store_ended(), StorePoll::Link(pending)),
                WorkerEvent::Failed(error) => (
                    self.store_ended().with_feedback(StorageFeedback::StoreError(error)),
                    StorePoll::Idle,
                ),
                WorkerEvent::Waiting => (self, StorePoll::Again(20)),
                WorkerEvent::Lost => (
                    self.store_ended().with_feedback(StorageFeedback::Interrupted),
                    StorePoll::Idle,
                ),
            },
        }
    }

    pub fn process_pending_password_store(&mut self, event: WorkerEvent) -> (poll: StorePoll)
        ensures
            (*final(self), poll) == old(self).store_polled(event),
    {
        if self.shell.overlays.pending_password_store.is_none() {
            return StorePoll::Idle;
        }
        match event {
            WorkerEvent::Waiting => StorePoll::Again(20),
            WorkerEvent::Stored => match self.shell.overlays.pending_password_store.take() {
                Some(pending) => StorePoll::Link(pending),
                None => StorePoll::Idle,
            },
            WorkerEvent::Failed(error) => {
                self.shell.overlays.pending_password_store = None;
                self.shell.credentials.feedback = Some(StorageFeedback::StoreError(error));
                StorePoll::Idle
            },
            WorkerEvent::Lost => {
                self.shell.overlays.pending_password_store = None;
                self.shell.credentials.feedback = Some(StorageFeedback::Interrupted);
                StorePoll::Idle
            },
        }
    }

    /// The document and what is said, once entering a stored credential into its
    /// profile has been tried. The document in use changes only where it is on
    /// disk; otherwise the new credential is not kept.
    pub open spec fn link_noted(self, outcome: LinkOutcome) -> Self {
        match outcome {
            LinkOutcome::Saved { configuration, previous_removed } => self.with_documents(
                self.committed(
                    configuration,
                    ConfigurationStatus::after_write(
                        ConfigurationWrite::PasswordCredential,
                        Ok(()),
                    ),
                ),
            ).with_feedback(
                if previous_removed == Some(false) {
                    StorageFeedback::SavedButPreviousKept
                } else {
                    StorageFeedback::Saved
                },
            ),
            LinkOutcome::NotSaved { removed } => self.with_documents(
                DocumentState {
                    status: ConfigurationStatus::after_write(
                        ConfigurationWrite::PasswordCredential,
                        Err(ConfigurationLoadFailure::Unreadable),
                    ),
                    ..self.shell.documents
                },
            ).with_feedback(
                if removed {
                    StorageFeedback::NotLinkedRemoved
                } else {
                    StorageFeedback::NotLinkedKept
                },
            ),
        }
    }

    /// What entering a stored credential into its profile leads to: where that
    /// went well, the session that was waiting for it.
    pub open spec fn link_outcome(self, pending: PendingPasswordStore, outcome: LinkOutcome) -> (
        Self,
        Seq<Effect>,
    ) {
        let after = self.link_noted(outcome);
        match (outcome, pending.launch_after_store) {
            (LinkOutcome::Saved { .. }, Some(StoredCredentialLaunch::Ssh)) => after.stored_launch(
                pending.profile_id,
                StoredLaunch::Ssh,
            ),
            (LinkOutcome::Saved { .. }, Some(StoredCredentialLaunch::Sftp)) => after.stored_launch(
                pending.profile_id,
                StoredLaunch::Sftp,
            ),
            _ => (after, seq![]),
        }
    }

    fn note_link(&mut self, outcome: LinkOutcome) -> (saved: bool)
        ensures
            *final(self) == old(self).link_noted(outcome),
            saved == (outcome is Saved),
    {
        match outcome {
            LinkOutcome::Saved { configuration, previous_removed } => {
                let _saved = self.apply_configuration_save(
                    ConfigurationWrite::PasswordCredential,
                    Some(configuration),
                    Ok(()),
                );
                self.shell.credentials.feedback = Some(
                    match previous_removed {
                        Some(false) => StorageFeedback::SavedButPreviousKept,
                        _ => StorageFeedback::Saved,
                    },
                );
                true
            },
            LinkOutcome::NotSaved { removed } => {
                self.shell.documents.status = ConfigurationStatus::of_write(
                    ConfigurationWrite::PasswordCredential,
                    Err(ConfigurationLoadFailure::Unreadable),
                );
                self.shell.credentials.feedback = Some(
                    if removed {
                        StorageFeedback::NotLinkedRemoved
                    } else {
                        StorageFeedback::NotLinkedKept
                    },
                );
                false
            },
        }
    }

    /// Takes in how entering a stored credential into its profile went.
    pub fn credential_linked(&mut self, pending: PendingPasswordStore, outcome: LinkOutcome) -> (
    effects: Vec<Effect>)
        ensures
            (*final(self), effects@) == old(self).link_outcome(pending, outcome),
    {
        if !self.note_link(outcome) {
            return one_or_none(None);
        }
        match pending.launch_after_store {
            Some(StoredCredentialLaunch::Ssh) => self.start_stored_profile(
                pending.profile_id,
                StoredLaunch::Ssh,
            ),
            Some(StoredCredentialLaunch::Sftp) => self.start_stored_profile(
                pending.profile_id,
                StoredLaunch::Sftp,
            ),
            None => one_or_none(None),
        }
    }
}

/// The secret to delete once entering the new one into its profile has been
/// tried: the one that the profile had before, if it had one, and where the
/// document was not saved the new one instead.
pub fn secret_to_delete(saved: bool, previous: Option<u64>, new: u64) -> (gone: Option<u64>)
    ensures
        gone == if saved {
            previous
        } else {
            Some(new)
        },
{
    if saved {
        previous
    } else {
        Some(new)
    }
}

/// Nothing is launched with a stored credential, and none is stored, while
/// native secure storage cannot be used; why not is said. Where it can, what is
/// launched is the profile that was named, in the way that was asked for.
pub proof fn stored_credentials_need_storage(
    app: FesTermApp,
    profile: String,
    launch: StoredLaunch,
    identifier: Seq<char>,
)
    ensures
        ({
            let (after, effects) = app.stored_launch(profile, launch);
            let (asked, start) = app.credential_asked();
            let (_, ssh) = app.stored_ssh_launch(identifier);
            let (_, sftp) = app.sftp_launch(identifier);
            &&& app.shell.credentials.store is Ok ==> after == app && effects == seq![
                Effect::LaunchStored { profile, launch },
            ]
            &&& app.shell.credentials.store is Err ==> {
                &&& effects.len() == 0
                &&& !start
                &&& ssh == ProfileLaunch::Nothing
                &&& sftp != ProfileLaunch::StoredSftp
                &&& after.storage_status() == Some(
                    StorageFeedback::StoreError(app.shell.credentials.store->Err_0),
                )
                &&& asked.storage_status() == after.storage_status()
            }
            &&& start <==> app.shell.credentials.store is Ok
                && app.shell.overlays.pending_password_store is None
            &&& start ==> asked == app
            &&& app.shell.credentials.store is Ok && !start ==> asked.storage_status() == Some(
                StorageFeedback::AlreadySaving,
            )
            &&& asked.shell.overlays == app.shell.overlays
            &&& after.state == app.state
            &&& asked.state == app.state
        }),
{
}

/// A saved SSH profile is launched with its stored credential exactly where it
/// has one, its forwards are valid and storage is open, over the strategy that it
/// names or else a plain shell; without a credential it asks in the terminal.
/// What stands in the way is said, and nothing else about the window changes.
pub proof fn ssh_profiles_are_launched_as_configured(app: FesTermApp, identifier: Seq<char>)
    ensures
        ({
            let profile = ssh_profile(app.shell.documents.configuration.profiles@, identifier);
            let (after, launch) = app.ssh_launch(identifier);
            let stored = profile is Some && profile->Some_0.credential is Some;
            let open = app.shell.credentials.store is Ok;
            &&& !stored ==> launch == ProfileLaunch::InteractiveSsh && after == app
            &&& stored && profile->Some_0.port_forwards_valid && open ==> after == app && launch
                == ProfileLaunch::StoredSsh(
                if profile->Some_0.session_strategy is Some {
                    profile->Some_0.session_strategy->Some_0
                } else {
                    SessionStrategy::PlainShell
                },
            )
            &&& stored && !(profile->Some_0.port_forwards_valid && open) ==> launch
                == ProfileLaunch::Nothing && after.shell.credentials.feedback is Some
            &&& stored && !profile->Some_0.port_forwards_valid
                ==> after.shell.credentials.feedback == Some(StorageFeedback::InvalidPortForwards)
            &&& after == (FesTermApp {
                shell: Shell { credentials: after.shell.credentials, ..app.shell },
                ..app
            })
            &&& after.shell.credentials.store == app.shell.credentials.store
        }),
{
}

/// SFTP for a saved profile is graphical where the profile says so, and otherwise
/// runs with its stored credential where it has one and storage is open, or asks;
/// for an unknown profile nothing is launched.
pub proof fn sftp_profiles_are_launched_as_configured(app: FesTermApp, identifier: Seq<char>)
    ensures
        ({
            let profile = ssh_profile(app.shell.documents.configuration.profiles@, identifier);
            let (after, launch) = app.sftp_launch(identifier);
            &&& profile is None ==> launch == ProfileLaunch::Nothing && after == app
            &&& profile is Some ==> {
                let known = profile->Some_0;
                &&& launch == ProfileLaunch::SftpFileManager <==> known.sftp_gui_mode
                &&& launch == ProfileLaunch::InteractiveSftp <==> !known.sftp_gui_mode
                    && known.credential is None
                &&& launch == ProfileLaunch::StoredSftp <==> !known.sftp_gui_mode
                    && known.credential is Some && app.shell.credentials.store is Ok
                &&& launch == ProfileLaunch::Nothing <==> !known.sftp_gui_mode
                    && known.credential is Some && app.shell.credentials.store is Err
                &&& launch != ProfileLaunch::Nothing ==> after == app
            }
            &&& after.state == app.state
            &&& after.shell.documents == app.shell.documents
        }),
{
}

/// A credential on its way is entered into the profile it was entered for once
/// it is stored, and into none otherwise; while the worker is busy it stays on
/// its way, and any other end is told. What nobody waits for changes nothing.
pub proof fn only_stored_credentials_are_linked(app: FesTermApp, event: WorkerEvent)
    ensures
        ({
            let (after, poll) = app.store_polled(event);
            let pending = app.shell.overlays.pending_password_store;
            &&& pending is None ==> after == app && poll is Idle
            &&& pending is Some ==> {
                &&& poll is Link <==> event == WorkerEvent::Stored
                &&& poll is Link ==> poll->Link_0 == pending->Some_0
                &&& poll is Again <==> event == WorkerEvent::Waiting
                &&& event == WorkerEvent::Waiting ==> after == app
                &&& event != WorkerEvent::Waiting
                    ==> after.shell.overlays.pending_password_store is None
                &&& event == WorkerEvent::Lost ==> after.shell.credentials.feedback == Some(
                    StorageFeedback::Interrupted,
                )
                &&& event is Failed ==> after.shell.credentials.feedback == Some(
                    StorageFeedback::StoreError(event->Failed_0),
                )
                &&& event == WorkerEvent::Stored ==> after.shell.credentials
                    == app.shell.credentials
            }
            &&& after.state == app.state
            &&& after.shell.documents == app.shell.documents
            &&& after.shell.overlays == (OverlayState {
                pending_password_store: after.shell.overlays.pending_password_store,
                ..app.shell.overlays
            })
        }),
{
}

/// A session that waited for its credential is started once the document that
/// names the credential is on disk, for the profile it was entered for and in the
/// way it was asked for; where the document is not, nothing is started, the
/// document in use stays and nobody is handed another.
pub proof fn sessions_start_once_their_credential_is_linked(
    app: FesTermApp,
    pending: PendingPasswordStore,
    outcome: LinkOutcome,
)
    ensures
        ({
            let (after, effects) = app.link_outcome(pending, outcome);
            let documents = after.shell.documents;
            let saved = outcome is Saved;
            let starts = saved && pending.launch_after_store is Some
                && app.shell.credentials.store is Ok;
            &&& starts ==> effects == seq![
                Effect::LaunchStored {
                    profile: pending.profile_id,
                    launch: match pending.launch_after_store->Some_0 {
                        StoredCredentialLaunch::Ssh => StoredLaunch::Ssh,
                        StoredCredentialLaunch::Sftp => StoredLaunch::Sftp,
                    },
                },
            ]
            &&& !starts ==> effects.len() == 0
            &&& saved ==> documents.configuration == outcome->configuration
                && documents.pending_broadcast == Some(outcome->configuration)
                && documents.status.saved()
            &&& !saved ==> documents.configuration == app.shell.documents.configuration
                && documents.pending_broadcast == app.shell.documents.pending_broadcast
                && !documents.status.saved()
            &&& documents.settings == app.shell.documents.settings
            &&& documents.pending_restored == app.shell.documents.pending_restored
            &&& saved && !(pending.launch_after_store is Some && app.shell.credentials.store is Err)
                ==> after.shell.credentials.feedback == Some(
                if outcome->previous_removed == Some(false) {
                    StorageFeedback::SavedButPreviousKept
                } else {
                    StorageFeedback::Saved
                },
            )
            &&& !saved ==> after.shell.credentials.feedback == Some(
                if outcome->removed {
                    StorageFeedback::NotLinkedRemoved
                } else {
                    StorageFeedback::NotLinkedKept
                },
            )
            &&& after.state == app.state
            &&& after.shell.overlays == app.shell.overlays
        }),
{
}

/// What is said about storage is the last thing that happened, or why it cannot
/// be used; where it can and nothing happened, nothing is said.
pub proof fn storage_problems_are_said(app: FesTermApp, feedback: StorageFeedback)
    ensures
        app.with_feedback(feedback).storage_status() == Some(feedback),
        app.shell.credentials.feedback is None ==> (app.storage_status() is None
            <==> app.shell.credentials.store is Ok),
        app.with_feedback(feedback).state == app.state,
        app.with_feedback(feedback).shell.credentials.store == app.shell.credentials.store,
        app.with_feedback(feedback).shell.overlays == app.shell.overlays,
        app.with_feedback(feedback).shell.documents == app.shell.documents,
        StoredLaunch::Ssh.missing() != StoredLaunch::Sftp.missing(),
        StoredLaunch::Ssh.missing() == StorageFeedback::NoStoredSshPassword,
        StoredLaunch::Sftp.missing() == StorageFeedback::NoStoredSftpPassword,
        StoredLaunch::SftpFileManager.missing() == StorageFeedback::NoStoredSftpCredential,
{
}

} // verus!
