//! Saved profiles: what the surfaces that show them ask for.
use vstd::prelude::*;

use crate::app::FesTermApp;
use crate::commands::one_or_none;
#[allow(unused_imports)]
use crate::commands::dispatched;
use crate::credentials::{ProfileLaunch, StoredLaunch};
#[allow(unused_imports)]
use crate::app::Shell;
#[allow(unused_imports)]
use crate::credentials::{LinkOutcome, StorePoll, WorkerEvent};
#[allow(unused_imports)]
use crate::overlays::OverlayState;
use crate::effects::{AppCommand, Effect};
use crate::overlays::{CredentialKind, PendingPasswordStore, StoredCredentialLaunch};

verus! {

/// Something asked for about a saved profile, which is named by its identifier.
/// What was entered, a profile or a secret, stays with the surface.
#[derive(Debug)]
pub enum ProfileCommand {
    /// An SSH session with the stored password.
    StartStoredPasswordSsh(String),
    StartConfiguredSsh(String),
    StartConfiguredSftp(String),
    /// An SFTP session with the stored password.
    StartStoredPasswordSftp(String),
    /// A graphical SFTP session with the stored credential.
    StartStoredSftpFileManager(String),
    /// The password is stored, and an SSH session started with it.
    StoreSshPassword(String),
    /// The password is stored, and an SFTP session started with it.
    StoreSftpPassword(String),
    StoreProfilePassword(String),
    StoreProfilePrivateKey(String),
    Save,
    SaveWithCredential { profile: String, kind: CredentialKind },
    Delete(String),
    Reorder { moved: String, before: Option<String> },
}

/// How launching a profile goes on.
pub open spec fn launched(profile: String, launch: ProfileLaunch) -> Seq<Effect> {
    match launch {
        ProfileLaunch::Nothing => seq![],
        ProfileLaunch::SftpFileManager => dispatched(
            AppCommand::OpenConfiguredSftpFileManagerProfile(profile),
        ),
        _ => seq![Effect::LaunchProfile { profile, launch }],
    }
}

fn launch_effects(profile: String, launch: ProfileLaunch) -> (effects: Vec<Effect>)
    ensures
        effects@ == launched(profile, launch),
{
    match launch {
        ProfileLaunch::Nothing => one_or_none(None),
        ProfileLaunch::SftpFileManager => one_or_none(
            Some(Effect::Dispatch(AppCommand::OpenConfiguredSftpFileManagerProfile(profile))),
        ),
        _ => one_or_none(Some(Effect::LaunchProfile { profile, launch })),
    }
}

impl FesTermApp {
    /// What entering a credential for a profile leads to: a worker stores it,
    /// where one may.
    pub open spec fn credential_entered(
        self,
        profile_id: String,
        credential_kind: CredentialKind,
        launch_after_store: Option<StoredCredentialLaunch>,
    ) -> (Self, Seq<Effect>) {
        let (after, start) = self.credential_asked();
        (
            after,
            if start {
                seq![
                    Effect::StoreCredential(
                        PendingPasswordStore { profile_id, credential_kind, launch_after_store },
                    ),
                ]
            } else {
                seq![]
            },
        )
    }

    pub fn store_entered_credential(
        &mut self,
        profile_id: String,
        credential_kind: CredentialKind,
        launch_after_store: Option<StoredCredentialLaunch>,
    ) -> (effects: Vec<Effect>)
        ensures
            (*final(self), effects@) == old(self).credential_entered(
                profile_id,
                credential_kind,
                launch_after_store,
            ),
    {
        if self.store_credential_for_profile() {
            one_or_none(
                Some(
                    Effect::StoreCredential(
                        PendingPasswordStore { profile_id, credential_kind, launch_after_store },
                    ),
                ),
            )
        } else {
            one_or_none(None)
        }
    }

    /// What a command about a saved profile leads to.
    pub open spec fn profile_outcome(self, command: ProfileCommand) -> (Self, Seq<Effect>) {
        match command {
            ProfileCommand::StartStoredPasswordSsh(profile) => self.stored_launch(
                profile,
                StoredLaunch::Ssh,
            ),
            ProfileCommand::StartConfiguredSsh(profile) => {
                let (after, launch) = self.ssh_launch(profile@);
                (after, launched(profile, launch))
            },
            ProfileCommand::StartConfiguredSftp(profile) => {
                let (after, launch) = self.sftp_launch(profile@);
                (after, launched(profile, launch))
            },
            ProfileCommand::StartStoredPasswordSftp(profile) => self.stored_launch(
                profile,
                StoredLaunch::Sftp,
            ),
            ProfileCommand::StartStoredSftpFileManager(profile) => self.stored_launch(
                profile,
                StoredLaunch::SftpFileManager,
            ),
            ProfileCommand::StoreSshPassword(profile) => self.credential_entered(
                profile,
                CredentialKind::Password,
                Some(StoredCredentialLaunch::Ssh),
            ),
            ProfileCommand::StoreSftpPassword(profile) => self.credential_entered(
                profile,
                CredentialKind::Password,
                Some(StoredCredentialLaunch::Sftp),
            ),
            ProfileCommand::StoreProfilePassword(profile) => self.credential_entered(
                profile,
                CredentialKind::Password,
                None,
            ),
            ProfileCommand::StoreProfilePrivateKey(profile) => self.credential_entered(
                profile,
                CredentialKind::PrivateKey,
                None,
            ),
            ProfileCommand::Save => (self, seq![Effect::SaveProfile]),
            ProfileCommand::SaveWithCredential { profile, kind } => (
                self,
                seq![Effect::SaveProfileWithCredential { profile, kind }],
            ),
            ProfileCommand::Delete(profile) => (self, seq![Effect::DeleteProfile(profile)]),
            ProfileCommand::Reorder { moved, before } => (
                self,
                seq![Effect::ReorderProfiles { moved, before }],
            ),
        }
    }

    /// Carries out a command about a saved profile.
    pub fn route_profile_command(&mut self, command: ProfileCommand) -> (effects: Vec<Effect>)
        ensures
            (*final(self), effects@) == old(self).profile_outcome(command),
    {
        match command {
            ProfileCommand::StartStoredPasswordSsh(profile) => self.start_stored_profile(
                profile,
                StoredLaunch::Ssh,
            ),
            ProfileCommand::StartConfiguredSsh(profile) => {
                let launch = self.start_configured_ssh_profile(profile.as_str());
                launch_effects(profile, launch)
            },
            ProfileCommand::StartConfiguredSftp(profile) => {
                let launch = self.start_configured_sftp_profile(profile.as_str());
                launch_effects(profile, launch)
            },
            ProfileCommand::StartStoredPasswordSftp(profile) => self.start_stored_profile(
                profile,
                StoredLaunch::Sftp,
            ),
            ProfileCommand::StartStoredSftpFileManager(profile) => self.start_stored_profile(
                profile,
                StoredLaunch::SftpFileManager,
            ),
            ProfileCommand::StoreSshPassword(profile) => self.store_entered_credential(
                profile,
                CredentialKind::Password,
                Some(StoredCredentialLaunch::Ssh),
            ),
            ProfileCommand::StoreSftpPassword(profile) => self.store_entered_credential(
                profile,
                CredentialKind::Password,
                Some(StoredCredentialLaunch::Sftp),
            ),
            ProfileCommand::StoreProfilePassword(profile) => self.store_entered_credential(
                profile,
                CredentialKind::Password,
                None,
            ),
            ProfileCommand::StoreProfilePrivateKey(profile) => self.store_entered_credential(
                profile,
                CredentialKind::PrivateKey,
                None,
            ),
            ProfileCommand::Save => one_or_none(Some(Effect::SaveProfile)),
            ProfileCommand::SaveWithCredential { profile, kind } => one_or_none(
                Some(Effect::SaveProfileWithCredential { profile, kind }),
            ),
            ProfileCommand::Delete(profile) => one_or_none(Some(Effect::DeleteProfile(profile))),
            ProfileCommand::Reorder { moved, before } => one_or_none(
                Some(Effect::ReorderProfiles { moved, before }),
            ),
        }
    }
}

/// A command about a profile is about the profile it names, and about no other.
pub proof fn profile_commands_name_their_profile(app: FesTermApp, profile: String, before: Option<
    String,
>, kind: CredentialKind)
    ensures
        ({
            let effects = |command: ProfileCommand| app.profile_outcome(command).1;
            let stored = |command: ProfileCommand, launch: StoredLaunch|
                app.shell.credentials.store is Ok ==> effects(command) == seq![
                    Effect::LaunchStored { profile, launch },
                ];
            let free = app.shell.credentials.store is Ok
                && app.shell.overlays.pending_password_store is None;
            let entered = |command: ProfileCommand, kind: CredentialKind, launch: Option<
                StoredCredentialLaunch,
            >|
                if free {
                    effects(command) == seq![
                        Effect::StoreCredential(
                            PendingPasswordStore {
                                profile_id: profile,
                                credential_kind: kind,
                                launch_after_store: launch,
                            },
                        ),
                    ]
                } else {
                    effects(command).len() == 0
                };
            &&& stored(ProfileCommand::StartStoredPasswordSsh(profile), StoredLaunch::Ssh)
            &&& stored(ProfileCommand::StartStoredPasswordSftp(profile), StoredLaunch::Sftp)
            &&& stored(
                ProfileCommand::StartStoredSftpFileManager(profile),
                StoredLaunch::SftpFileManager,
            )
            &&& entered(
                ProfileCommand::StoreSshPassword(profile),
                CredentialKind::Password,
                Some(StoredCredentialLaunch::Ssh),
            )
            &&& entered(
                ProfileCommand::StoreSftpPassword(profile),
                CredentialKind::Password,
                Some(StoredCredentialLaunch::Sftp),
            )
            &&& entered(
                ProfileCommand::StoreProfilePassword(profile),
                CredentialKind::Password,
                None,
            )
            &&& entered(
                ProfileCommand::StoreProfilePrivateKey(profile),
                CredentialKind::PrivateKey,
                None,
            )
            &&& app.profile_outcome(ProfileCommand::Delete(profile)) == (
                app,
                seq![Effect::DeleteProfile(profile)],
            )
            &&& app.profile_outcome(ProfileCommand::Reorder { moved: profile, before }) == (
                app,
                seq![Effect::ReorderProfiles { moved: profile, before }],
            )
            &&& app.profile_outcome(ProfileCommand::Save) == (app, seq![Effect::SaveProfile])
            &&& app.profile_outcome(ProfileCommand::SaveWithCredential { profile, kind }) == (
                app,
                seq![Effect::SaveProfileWithCredential { profile, kind }],
            )
        }),
{
}

/// A saved profile that is launched is the one that was named, in the way that
/// its configuration says; where nothing can be launched, nothing is.
pub proof fn the_named_profile_is_launched(app: FesTermApp, profile: String)
    ensures
        ({
            let ssh = app.ssh_launch(profile@).1;
            let sftp = app.sftp_launch(profile@).1;
            let (after_ssh, ssh_effects) = app.profile_outcome(
                ProfileCommand::StartConfiguredSsh(profile),
            );
            let (after_sftp, sftp_effects) = app.profile_outcome(
                ProfileCommand::StartConfiguredSftp(profile),
            );
            &&& after_ssh == app.ssh_launch(profile@).0
            &&& after_sftp == app.sftp_launch(profile@).0
            &&& ssh == ProfileLaunch::Nothing <==> ssh_effects.len() == 0
            &&& sftp == ProfileLaunch::Nothing <==> sftp_effects.len() == 0
            &&& ssh != ProfileLaunch::Nothing ==> ssh_effects == seq![
                Effect::LaunchProfile { profile, launch: ssh },
            ]
            &&& sftp == ProfileLaunch::SftpFileManager ==> sftp_effects == seq![
                Effect::Dispatch(AppCommand::OpenConfiguredSftpFileManagerProfile(profile)),
            ]
            &&& sftp != ProfileLaunch::Nothing && sftp != ProfileLaunch::SftpFileManager
                ==> sftp_effects == seq![Effect::LaunchProfile { profile, launch: sftp }]
        }),
{
}

/// From entering a credential to the session that waited for it, the profile
/// stays the same: what a worker is asked to store is what is linked once it is
/// stored, and what is started once that is on disk.
pub proof fn credentials_keep_their_profile(
    app: FesTermApp,
    profile: String,
    kind: CredentialKind,
    outcome: LinkOutcome,
)
    requires
        app.shell.credentials.store is Ok,
        app.shell.overlays.pending_password_store is None,
        outcome is Saved,
    ensures
        ({
            let (asked, effects) = app.credential_entered(
                profile,
                kind,
                Some(StoredCredentialLaunch::Ssh),
            );
            let pending = effects[0]->StoreCredential_0;
            let waiting = asked.with_overlays(
                OverlayState { pending_password_store: Some(pending), ..asked.shell.overlays },
            );
            let (stored, poll) = waiting.store_polled(WorkerEvent::Stored);
            let (_, started) = stored.link_outcome(poll->Link_0, outcome);
            &&& effects.len() == 1
            &&& effects[0] is StoreCredential
            &&& pending.profile_id == profile
            &&& pending.credential_kind == kind
            &&& poll is Link
            &&& poll->Link_0 == pending
            &&& started == seq![Effect::LaunchStored { profile, launch: StoredLaunch::Ssh }]
        }),
{
}

} // verus!
