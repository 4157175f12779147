//! Writing the configuration document back. A document comes into use, and is
//! handed to the other windows, only once it is on disk; preferences apply at
//! once.
use std::sync::Arc;

use vstd::prelude::*;

use crate::app::{DocumentState, FesTermApp, Shell, WindowRole};
use crate::configuration::{
    Configuration, ConfigurationLoadFailure, ConfigurationStatus, ConfigurationWrite,
    InterfaceSettings,
};
use crate::commands::one_or_none;
use crate::effects::Effect;
use crate::overlays::CredentialKind;
use crate::state::{HostKeyPrompt, TabContent, TabId};
#[allow(unused_imports)]
use crate::state::{tab_of, tabs_are_found_by_their_identifier};

verus! {

impl FesTermApp {
    /// The window with other documents.
    pub open spec fn with_documents(self, documents: DocumentState) -> Self {
        FesTermApp { shell: Shell { documents, ..self.shell }, ..self }
    }

    /// The documents once `replacement` is on disk.
    pub open spec fn committed(self, replacement: Arc<Configuration>, status: ConfigurationStatus) -> DocumentState {
        DocumentState {
            configuration: replacement,
            status,
            pending_broadcast: Some(replacement),
            ..self.shell.documents
        }
    }

    /// The window once `replacement` was to be written for `write`; without one,
    /// what was to be written was not valid. The document in use changes only
    /// after a write that succeeded, and only then do the other windows get it.
    pub open spec fn after_save(
        self,
        write: ConfigurationWrite,
        replacement: Option<Arc<Configuration>>,
        saved: Result<(), ConfigurationLoadFailure>,
    ) -> Self {
        self.with_documents(
            match (replacement, saved) {
                (None, _) => DocumentState {
                    status: ConfigurationStatus::after_write(
                        write,
                        Err(ConfigurationLoadFailure::Invalid),
                    ),
                    ..self.shell.documents
                },
                (Some(_), Err(failure)) => DocumentState {
                    status: ConfigurationStatus::after_write(write, Err(failure)),
                    ..self.shell.documents
                },
                (Some(replacement), Ok(_)) => self.committed(
                    replacement,
                    ConfigurationStatus::after_write(write, Ok(())),
                ),
            },
        )
    }

    /// Takes in how writing `replacement` went.
    pub fn apply_configuration_save(
        &mut self,
        write: ConfigurationWrite,
        replacement: Option<Arc<Configuration>>,
        saved: Result<(), ConfigurationLoadFailure>,
    ) -> (was_saved: bool)
        ensures
            was_saved == (replacement is Some && saved is Ok),
            *final(self) == old(self).after_save(write, replacement, saved),
    {
        let replacement = match replacement {
            Some(replacement) => replacement,
            None => {
                self.shell.documents.status = ConfigurationStatus::of_write(
                    write,
                    Err(ConfigurationLoadFailure::Invalid),
                );
                return false;
            },
        };
        let status = ConfigurationStatus::of_write(write, saved);
        let was_saved = status.was_saved();
        if was_saved {
            self.shell.documents.pending_broadcast = Some(replacement.clone());
            self.shell.documents.configuration = replacement;
        }
        self.shell.documents.status = status;
        was_saved
    }

    /// Takes in how writing a workspace that covers every window went. Only the
    /// first window writes it.
    pub fn save_workspace(
        &mut self,
        replacement: Option<Arc<Configuration>>,
        saved: Result<(), ConfigurationLoadFailure>,
    ) -> (was_saved: bool)
        ensures
            if old(self).shell.role == WindowRole::Secondary {
                !was_saved && *final(self) == *old(self)
            } else {
                &&& was_saved == (replacement is Some && saved is Ok)
                &&& *final(self) == old(self).after_save(
                    ConfigurationWrite::Workspace,
                    replacement,
                    saved,
                )
            },
    {
        if matches!(self.shell.role, WindowRole::Secondary) {
            return false;
        }
        self.apply_configuration_save(ConfigurationWrite::Workspace, replacement, saved)
    }

    /// Takes in how noting a profile's last use went. Nobody asked for that
    /// write, so that nothing is said about it; it counts like any other.
    pub fn record_profile_launch(
        &mut self,
        replacement: Option<Arc<Configuration>>,
        saved: bool,
    )
        ensures
            *final(self) == match replacement {
                Some(replacement) => if saved {
                    old(self).with_documents(
                        old(self).committed(replacement, old(self).shell.documents.status),
                    )
                } else {
                    *old(self)
                },
                None => *old(self),
            },
    {
        if let Some(replacement) = replacement {
            if saved {
                self.shell.documents.pending_broadcast = Some(replacement.clone());
                self.shell.documents.configuration = replacement;
            }
        }
    }

    /// The document to write once saved workspaces are no longer wanted.
    pub fn cleared_workspace(&self) -> (replacement: Arc<Configuration>)
        ensures
            *replacement == (Configuration {
                workspace: None,
                ..*self.shell.documents.configuration
            }),
    {
        Arc::new(self.shell.documents.configuration.without_workspace())
    }

    /// The host key that tab `id` asks about.
    pub open spec fn host_key_asked(self, id: TabId) -> Option<HostKeyPrompt> {
        match tab_of(self.state.tabs@, id) {
            Some(tab) => match tab.content {
                TabContent::Session(session) => session.host_key_prompt,
                TabContent::SftpFileManager(manager) => manager.host_key_prompt,
                _ => None,
            },
            None => None,
        }
    }

    /// The host, port and fingerprint that are to be trusted from now on, where
    /// tab `id` asks about a host key.
    pub fn known_host_to_trust(&self, id: TabId) -> (host: Option<(String, u16, String)>)
        ensures
            host == match self.host_key_asked(id) {
                Some(prompt) => Some((prompt.host, prompt.port, prompt.fingerprint)),
                None => None,
            },
    {
        let tab = match self.state.tab(id) {
            Some(tab) => tab,
            None => return None,
        };
        let prompt = match &tab.content {
            TabContent::Session(session) => &session.host_key_prompt,
            TabContent::SftpFileManager(manager) => &manager.host_key_prompt,
            _ => return None,
        };
        match prompt {
            Some(prompt) => Some((prompt.host.clone(), prompt.port, prompt.fingerprint.clone())),
            None => None,
        }
    }
}

impl FesTermApp {
    /// What saving a profile leads to whose credential is to be stored next.
    /// Nothing is stored for a profile that could not be saved.
    pub open spec fn profile_with_credential_saved(
        self,
        profile_id: String,
        credential_kind: CredentialKind,
        replacement: Option<Arc<Configuration>>,
        saved: Result<(), ConfigurationLoadFailure>,
    ) -> (Self, Seq<Effect>) {
        let after = self.after_save(ConfigurationWrite::Profile, replacement, saved);
        if replacement is None || saved is Err {
            (after, seq![])
        } else {
            after.credential_entered(profile_id, credential_kind, None)
        }
    }

    /// Takes in how saving a profile went whose credential is to be stored next.
    pub fn save_profile_with_credential(
        &mut self,
        profile_id: String,
        credential_kind: CredentialKind,
        replacement: Option<Arc<Configuration>>,
        saved: Result<(), ConfigurationLoadFailure>,
    ) -> (effects: Vec<Effect>)
        ensures
            (*final(self), effects@) == old(self).profile_with_credential_saved(
                profile_id,
                credential_kind,
                replacement,
                saved,
            ),
    {
        if !self.apply_configuration_save(ConfigurationWrite::Profile, replacement, saved) {
            return one_or_none(None);
        }
        self.store_entered_credential(profile_id, credential_kind, None)
    }
}

/// A write that fails, or was never valid, reaches nobody: neither this
/// window's document nor what the other windows are handed changes.
pub proof fn failed_writes_change_no_document(
    app: FesTermApp,
    write: ConfigurationWrite,
    replacement: Option<Arc<Configuration>>,
    saved: Result<(), ConfigurationLoadFailure>,
)
    requires
        replacement is None || saved is Err,
    ensures
        ({
            let after = app.after_save(write, replacement, saved);
            &&& after.shell.documents.configuration == app.shell.documents.configuration
            &&& after.shell.documents.pending_broadcast == app.shell.documents.pending_broadcast
            &&& !after.shell.documents.status.saved()
        }),
{
}

/// A write that succeeds is the document in use and the one that the other
/// windows are handed.
pub proof fn successful_writes_are_shared(
    app: FesTermApp,
    write: ConfigurationWrite,
    replacement: Arc<Configuration>,
)
    ensures
        ({
            let after = app.after_save(write, Some(replacement), Ok(()));
            &&& after.shell.documents.configuration == replacement
            &&& after.shell.documents.pending_broadcast == Some(
                after.shell.documents.configuration,
            )
            &&& after.shell.documents.status.saved()
        }),
{
}

impl FesTermApp {
    /// The window with other preferences in use.
    pub open spec fn with_preferences(self, settings: InterfaceSettings) -> Self {
        self.with_documents(DocumentState { settings, ..self.shell.documents })
    }

    /// Takes in that preferences were changed. They apply at once, whatever
    /// becomes of writing them.
    pub fn preference_changed(&mut self, settings: InterfaceSettings)
        ensures
            *final(self) == old(self).with_preferences(settings),
    {
        self.shell.documents.settings = settings;
    }

    /// The document to write once preferences have changed: the one on disk,
    /// with the preferences in use.
    pub open spec fn with_preferences_written(self) -> Configuration {
        Configuration {
            settings: self.shell.documents.settings,
            ..*self.shell.documents.configuration
        }
    }

    pub fn interface_document(&self) -> (replacement: Arc<Configuration>)
        ensures
            *replacement == self.with_preferences_written(),
    {
        let current = &self.shell.documents.configuration;
        Arc::new(
            Configuration {
                settings: self.shell.documents.settings,
                profiles: current.profiles.clone(),
                workspace: match &current.workspace {
                    Some(workspace) => Some(workspace.clone()),
                    None => None,
                },
            },
        )
    }
}

/// A preference applies at once, whatever any write of a document does: one that
/// fails only means that the preference is not on disk.
pub proof fn preferences_apply_at_once(
    app: FesTermApp,
    settings: InterfaceSettings,
    write: ConfigurationWrite,
    replacement: Option<Arc<Configuration>>,
    saved: Result<(), ConfigurationLoadFailure>,
)
    ensures
        ({
            let after = app.with_preferences(settings).after_save(write, replacement, saved);
            &&& after.shell.documents.settings == settings
            &&& replacement is None || saved is Err ==> after.shell.documents.configuration
                == app.shell.documents.configuration
        }),
{
}

/// A preference that was written is on disk, and reaches the other windows with
/// the document.
pub proof fn written_preferences_survive(
    app: FesTermApp,
    settings: InterfaceSettings,
    replacement: Arc<Configuration>,
)
    requires
        *replacement == app.with_preferences(settings).with_preferences_written(),
    ensures
        ({
            let after = app.with_preferences(settings).after_save(
                ConfigurationWrite::InterfaceSettings,
                Some(replacement),
                Ok(()),
            );
            &&& after.shell.documents.configuration.settings == settings
            &&& after.shell.documents.settings == settings
            &&& after.shell.documents.pending_broadcast == Some(replacement)
        }),
{
}

/// Writing a document changes documents only: neither tabs nor questions nor
/// preferences nor requests, whatever becomes of it; and what is said tells what
/// was written and whether it was.
pub proof fn writes_change_documents_only(
    app: FesTermApp,
    write: ConfigurationWrite,
    replacement: Option<Arc<Configuration>>,
    saved: Result<(), ConfigurationLoadFailure>,
)
    ensures
        ({
            let after = app.after_save(write, replacement, saved);
            let documents = after.shell.documents;
            &&& after.state == app.state
            &&& after.shell == (Shell { documents, ..app.shell })
            &&& documents.settings == app.shell.documents.settings
            &&& documents.pending_restored == app.shell.documents.pending_restored
            &&& documents.status.saved() <==> replacement is Some && saved is Ok
            &&& replacement is Some && saved is Ok ==> documents.status
                == ConfigurationStatus::after_write(write, Ok(()))
            &&& replacement is Some && saved is Err ==> documents.status
                == ConfigurationStatus::after_write(write, saved)
            &&& replacement is None ==> documents.status == ConfigurationStatus::after_write(
                write,
                Err(ConfigurationLoadFailure::Invalid),
            )
        }),
{
}

/// What is said about a write names what was written and why it failed: two
/// writes, or two failures, are never told alike.
pub proof fn writes_are_told_apart(
    a: ConfigurationWrite,
    b: ConfigurationWrite,
    x: Result<(), ConfigurationLoadFailure>,
    y: Result<(), ConfigurationLoadFailure>,
)
    requires
        ConfigurationStatus::after_write(a, x) == ConfigurationStatus::after_write(b, y),
    ensures
        a == b,
        x is Ok <==> y is Ok,
        x is Err ==> x->Err_0 == y->Err_0,
{
}

/// A credential is stored for a profile only once that profile is on disk, and
/// for that profile.
pub proof fn credentials_follow_their_profile(
    app: FesTermApp,
    profile: String,
    kind: CredentialKind,
    replacement: Option<Arc<Configuration>>,
    saved: Result<(), ConfigurationLoadFailure>,
)
    ensures
        ({
            let (after, effects) = app.profile_with_credential_saved(
                profile,
                kind,
                replacement,
                saved,
            );
            let written = replacement is Some && saved is Ok;
            let free = app.shell.credentials.store is Ok
                && app.shell.overlays.pending_password_store is None;
            &&& !(written && free) ==> effects.len() == 0
            &&& written && free ==> {
                &&& effects.len() == 1
                &&& effects[0] is StoreCredential
                &&& effects[0]->StoreCredential_0.profile_id == profile
                &&& effects[0]->StoreCredential_0.credential_kind == kind
                &&& effects[0]->StoreCredential_0.launch_after_store is None
            }
            &&& written ==> after.shell.documents.configuration == replacement->Some_0
                && after.shell.documents.pending_broadcast == replacement
            &&& !written ==> after.shell.documents.configuration
                == app.shell.documents.configuration
            &&& after.state == app.state
        }),
{
}

/// The host key that is to be trusted is the one that the tab itself asks about.
pub proof fn the_asked_host_key_is_trusted(app: FesTermApp, i: int)
    requires
        app.state.wf(),
        0 <= i < app.state.tabs@.len(),
    ensures
        app.host_key_asked(app.state.tabs@[i].id) == match app.state.tabs@[i].content {
            TabContent::Session(session) => session.host_key_prompt,
            TabContent::SftpFileManager(manager) => manager.host_key_prompt,
            _ => None,
        },
{
    tabs_are_found_by_their_identifier(app.state.tabs@, i, app.state.tabs@[i].id);
}

/// Writing preferences back changes nothing else in the document: profiles and
/// workspace stay.
pub proof fn written_preferences_keep_the_rest(app: FesTermApp, settings: InterfaceSettings)
    ensures
        ({
            let written = app.with_preferences(settings).with_preferences_written();
            let current = app.shell.documents.configuration;
            &&& written.settings == settings
            &&& written.profiles == current.profiles
            &&& written.workspace == current.workspace
            &&& app.with_preferences(settings).shell.documents.configuration == current
            &&& app.with_preferences(settings).state == app.state
        }),
{
}

} // verus!
