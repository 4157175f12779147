//! What the status bar and the session inspector say about the tab in front.
use vstd::prelude::*;

use crate::app::{FesTermApp, FocusState};
#[allow(unused_imports)]
use crate::app::Shell;
#[allow(unused_imports)]
use crate::chips::possible_file_name;
#[allow(unused_imports)]
use crate::commands::dispatched;
use crate::effects::{AppCommand, Effect};
use crate::state::{
    ChipStatus, Persistence, SerialDataBits, SerialFlowControl, SerialParity, SerialStopBits,
    SessionTab, TabContent, TabId, Transport,
};
#[allow(unused_imports)]
use crate::state::{session_of, Tab};
use crate::text::push_decimal;
#[allow(unused_imports)]
use crate::text::{decimal, optional_text};

verus! {

/// What the status bar says about running port forwards.
pub open spec fn forward_count_text(count: nat) -> Option<Seq<char>> {
    if count == 0 {
        None
    } else if count == 1 {
        Some("1 active forward"@)
    } else {
        Some(decimal(count) + " active forwards"@)
    }
}

pub fn port_forward_count_label(count: usize) -> (label: Option<String>)
    ensures
        optional_text(label) == forward_count_text(count as nat),
{
    if count == 0 {
        return None;
    }
    if count == 1 {
        return Some("1 active forward".to_owned());
    }
    let mut label = String::new();
    push_decimal(&mut label, count as u128);
    label.append(" active forwards");
    assert(label@ =~= decimal(count as nat) + " active forwards"@);
    Some(label)
}

#[derive(Debug)]
pub struct StatusBarContent {
    pub context: Option<String>,
    pub dimensions: Option<String>,
    pub system: Option<String>,
    pub status: ChipStatus,
    pub status_label: String,
    pub detail: Option<String>,
    pub durable_session: Option<String>,
    pub port_forwards: Option<String>,
}

pub struct StatusBarView {
    pub context: Option<Seq<char>>,
    pub dimensions: Option<Seq<char>>,
    pub system: Option<Seq<char>>,
    pub status: ChipStatus,
    pub status_label: Seq<char>,
    pub detail: Option<Seq<char>>,
    pub durable_session: Option<Seq<char>>,
    pub port_forwards: Option<Seq<char>>,
}

impl View for StatusBarContent {
    type V = StatusBarView;

    open spec fn view(&self) -> StatusBarView {
        StatusBarView {
            context: optional_text(self.context),
            dimensions: optional_text(self.dimensions),
            system: optional_text(self.system),
            status: self.status,
            status_label: self.status_label@,
            detail: optional_text(self.detail),
            durable_session: optional_text(self.durable_session),
            port_forwards: optional_text(self.port_forwards),
        }
    }
}

impl StatusBarView {
    /// The bar without anything on it.
    pub open spec fn empty() -> Self {
        StatusBarView {
            context: None,
            dimensions: None,
            system: None,
            status: ChipStatus::Neutral,
            status_label: Seq::empty(),
            detail: None,
            durable_session: None,
            port_forwards: None,
        }
    }
}

fn copy_text(text: &Option<String>) -> (copy: Option<String>)
    ensures
        copy == *text,
{
    match text {
        Some(text) => Some(text.clone()),
        None => None,
    }
}

impl FesTermApp {
    /// What the status bar says about a session. Its second line is only
    /// repeated here while the chips do not show it, and the name of a session
    /// that outlives its connection only where that is wanted.
    pub open spec fn session_status(self, session: SessionTab, name: Option<Seq<char>>) -> StatusBarView {
        let settings = self.shell.documents.settings;
        StatusBarView {
            context: None,
            dimensions: optional_text(session.dimensions),
            system: Some(session.system_label@),
            status: session.chip_status,
            status_label: session.status_label@,
            detail: if settings.show_session_details {
                None
            } else {
                session.secondary_text(name)
            },
            durable_session: if settings.show_durable_session_in_status_bar {
                optional_text(session.durable_label)
            } else {
                None
            },
            port_forwards: forward_count_text(session.active_port_forwards as nat),
        }
    }

    /// What the status bar says about the tab in front, where `name` is the
    /// file name of a session's title.
    pub open spec fn status_bar_text(self, name: Option<Seq<char>>) -> StatusBarView {
        match self.state.active_tab() {
            Some(tab) => match tab.content {
                TabContent::TextEditor(tab) => StatusBarView {
                    context: Some(tab.language@),
                    dimensions: Some(tab.position@),
                    system: Some(tab.encoding@),
                    status: tab.status,
                    status_label: tab.status_label@,
                    detail: Some(tab.size@),
                    ..StatusBarView::empty()
                },
                TabContent::MarkdownViewer(tab) => StatusBarView {
                    context: Some(tab.status_context@),
                    system: Some(tab.status_encoding@),
                    status: tab.status,
                    status_label: tab.status_label@,
                    ..StatusBarView::empty()
                },
                TabContent::SftpFileManager(tab) => StatusBarView {
                    context: Some("SFTP"@),
                    system: Some(tab.endpoints@),
                    status: tab.status,
                    status_label: tab.status_label@,
                    ..StatusBarView::empty()
                },
                TabContent::Session(session) => self.session_status(session, name),
                _ => StatusBarView::empty(),
            },
            None => StatusBarView::empty(),
        }
    }

    /// `name` can be the file name of the title in front.
    pub open spec fn possible_front_name(self, name: Option<Seq<char>>) -> bool {
        match self.state.active_session() {
            Some(session) => possible_file_name(session.terminal_title@, name),
            None => true,
        }
    }

    fn session_status_bar(&self, session: &SessionTab) -> (content: StatusBarContent)
        ensures
            exists|name: Option<Seq<char>>|
                possible_file_name(session.terminal_title@, name) && content@
                    == #[trigger] self.session_status(*session, name),
    {
        let settings = self.shell.documents.settings;
        let secondary = session.secondary();
        let ghost name = choose|name: Option<Seq<char>>|
            possible_file_name(session.terminal_title@, name) && optional_text(secondary)
                == #[trigger] session.secondary_text(name);
        let detail = if settings.show_session_details {
            None
        } else {
            secondary
        };
        let durable_session = if settings.show_durable_session_in_status_bar {
            copy_text(&session.durable_label)
        } else {
            None
        };
        let content = StatusBarContent {
            context: None,
            dimensions: copy_text(&session.dimensions),
            system: Some(session.system_label.clone()),
            status: session.chip_status,
            status_label: session.status_label.clone(),
            detail,
            durable_session,
            port_forwards: port_forward_count_label(session.active_port_forwards),
        };
        assert(content@ == self.session_status(*session, name));
        content
    }

    /// Gathers what the status bar says about the tab in front.
    pub fn status_bar(&self) -> (content: StatusBarContent)
        ensures
            exists|name: Option<Seq<char>>|
                self.possible_front_name(name) && content@ == #[trigger] self.status_bar_text(name),
    {
        let mut content = StatusBarContent {
            context: None,
            dimensions: None,
            system: None,
            status: ChipStatus::Neutral,
            status_label: String::new(),
            detail: None,
            durable_session: None,
            port_forwards: None,
        };
        assert(content.status_label@ =~= Seq::empty());
        let ghost mut name: Option<Seq<char>> = None;
        if let Some(tab) = self.state.tab(self.state.active) {
            match &tab.content {
                TabContent::TextEditor(tab) => {
                    content.context = Some(tab.language.clone());
                    content.dimensions = Some(tab.position.clone());
                    content.system = Some(tab.encoding.clone());
                    content.status = tab.status;
                    content.status_label = tab.status_label.clone();
                    content.detail = Some(tab.size.clone());
                },
                TabContent::MarkdownViewer(tab) => {
                    content.context = Some(tab.status_context.clone());
                    content.system = Some(tab.status_encoding.clone());
                    content.status = tab.status;
                    content.status_label = tab.status_label.clone();
                },
                TabContent::SftpFileManager(tab) => {
                    content.context = Some("SFTP".to_owned());
                    content.system = Some(tab.endpoints.clone());
                    content.status = tab.status;
                    content.status_label = tab.status_label.clone();
                },
                TabContent::Session(session) => {
                    content = self.session_status_bar(session);
                    proof {
                        name = choose|name: Option<Seq<char>>|
                            possible_file_name(session.terminal_title@, name) && content@
                                == #[trigger] self.session_status(*session, name);
                    }
                },
                _ => {},
            }
        }
        assert(content@ == self.status_bar_text(name));
        content
    }
}

impl SerialDataBits {
    pub open spec fn text(self) -> Seq<char> {
        match self {
            SerialDataBits::Five => "5"@,
            SerialDataBits::Six => "6"@,
            SerialDataBits::Seven => "7"@,
            SerialDataBits::Eight => "8"@,
        }
    }
}

pub fn serial_data_bits_label(value: SerialDataBits) -> (label: &'static str)
    ensures
        label@ == value.text(),
{
    match value {
        SerialDataBits::Five => "5",
        SerialDataBits::Six => "6",
        SerialDataBits::Seven => "7",
        SerialDataBits::Eight => "8",
    }
}

impl SerialParity {
    pub open spec fn text(self) -> Seq<char> {
        match self {
            SerialParity::Absent => "None"@,
            SerialParity::Odd => "Odd"@,
            SerialParity::Even => "Even"@,
        }
    }
}

pub fn serial_parity_label(value: SerialParity) -> (label: &'static str)
    ensures
        label@ == value.text(),
{
    match value {
        SerialParity::Absent => "None",
        SerialParity::Odd => "Odd",
        SerialParity::Even => "Even",
    }
}

impl SerialStopBits {
    pub open spec fn text(self) -> Seq<char> {
        match self {
            SerialStopBits::One => "1"@,
            SerialStopBits::Two => "2"@,
        }
    }
}

pub fn serial_stop_bits_label(value: SerialStopBits) -> (label: &'static str)
    ensures
        label@ == value.text(),
{
    match value {
        SerialStopBits::One => "1",
        SerialStopBits::Two => "2",
    }
}

impl SerialFlowControl {
    pub open spec fn text(self) -> Seq<char> {
        match self {
            SerialFlowControl::Absent => "None"@,
            SerialFlowControl::Software => "Software (XON/XOFF)"@,
            SerialFlowControl::Hardware => "Hardware (RTS/CTS)"@,
        }
    }
}

pub fn serial_flow_control_label(value: SerialFlowControl) -> (label: &'static str)
    ensures
        label@ == value.text(),
{
    match value {
        SerialFlowControl::Absent => "None",
        SerialFlowControl::Software => "Software (XON/XOFF)",
        SerialFlowControl::Hardware => "Hardware (RTS/CTS)",
    }
}

/// What the inspector says about a transport.
#[derive(Debug)]
#[allow(inconsistent_fields)]
pub enum TransportFacts {
    Local,
    Ssh { username: String, host: String, port: u16 },
    Sftp { username: String, host: String, port: u16 },
    Serial {
        device: String,
        baud_rate: u32,
        data_bits: &'static str,
        parity: &'static str,
        stop_bits: &'static str,
        flow_control: &'static str,
    },
}

/// `facts` are those of `transport`.
pub open spec fn describes(facts: TransportFacts, transport: Transport) -> bool {
    match transport {
        Transport::Local { .. } => facts == TransportFacts::Local,
        Transport::Ssh { username, host, port, .. } => facts == (TransportFacts::Ssh {
            username,
            host,
            port,
        }),
        Transport::Sftp { username, host, port } => facts == (TransportFacts::Sftp {
            username,
            host,
            port,
        }),
        Transport::Serial { device, baud_rate, data_bits, parity, stop_bits, flow_control } => {
            match facts {
                TransportFacts::Serial {
                    device: d,
                    baud_rate: b,
                    data_bits: bits,
                    parity: p,
                    stop_bits: stop,
                    flow_control: flow,
                } => {
                    &&& d == device
                    &&& b == baud_rate
                    &&& bits@ == data_bits.text()
                    &&& p@ == parity.text()
                    &&& stop@ == stop_bits.text()
                    &&& flow@ == flow_control.text()
                },
                _ => false,
            }
        },
    }
}

fn transport_facts(transport: &Transport) -> (facts: TransportFacts)
    ensures
        describes(facts, *transport),
{
    match transport {
        Transport::Local { .. } => TransportFacts::Local,
        Transport::Ssh { username, host, port, .. } => TransportFacts::Ssh {
            username: username.clone(),
            host: host.clone(),
            port: *port,
        },
        Transport::Sftp { username, host, port } => TransportFacts::Sftp {
            username: username.clone(),
            host: host.clone(),
            port: *port,
        },
        Transport::Serial { device, baud_rate, data_bits, parity, stop_bits, flow_control } => {
            TransportFacts::Serial {
                device: device.clone(),
                baud_rate: *baud_rate,
                data_bits: serial_data_bits_label(*data_bits),
                parity: serial_parity_label(*parity),
                stop_bits: serial_stop_bits_label(*stop_bits),
                flow_control: serial_flow_control_label(*flow_control),
            }
        },
    }
}

impl Transport {
    /// The provider that keeps the session alive.
    pub open spec fn durable(self) -> Option<Persistence> {
        match self {
            Transport::Local { persistence } => persistence,
            Transport::Ssh { persistence, .. } => persistence,
            _ => None,
        }
    }

    fn persistence(&self) -> (persistence: Option<&Persistence>)
        ensures
            match persistence {
                Some(persistence) => self.durable() == Some(*persistence),
                None => self.durable() is None,
            },
    {
        match self {
            Transport::Local { persistence: Some(persistence) } => Some(persistence),
            Transport::Ssh { persistence: Some(persistence), .. } => Some(persistence),
            _ => None,
        }
    }

    /// What the transport is called.
    pub open spec fn type_text(self) -> Seq<char> {
        match self {
            Transport::Local { .. } => "Local shell"@,
            Transport::Ssh { .. } => "SSH"@,
            Transport::Sftp { .. } => "SFTP"@,
            Transport::Serial { .. } => "Serial"@,
        }
    }

    fn type_label(&self) -> (label: &'static str)
        ensures
            label@ == self.type_text(),
    {
        match self {
            Transport::Local { .. } => "Local shell",
            Transport::Ssh { .. } => "SSH",
            Transport::Sftp { .. } => "SFTP",
            Transport::Serial { .. } => "Serial",
        }
    }

    /// What is said of a session over the transport that did not start.
    pub open spec fn failure_text(self) -> Seq<char> {
        match self {
            Transport::Local { .. } =>
                "The local shell could not start. Review Diagnostics for the failure detail."@,
            Transport::Ssh { .. } =>
                "The SSH session could not start. Review Diagnostics for the failure detail."@,
            Transport::Sftp { .. } =>
                "The SFTP session could not start. Review Diagnostics for the failure detail."@,
            Transport::Serial { .. } =>
                "The serial session could not start. Review Diagnostics for the failure detail."@,
        }
    }
}

impl SessionTab {
    /// What the inspector says about the session's state.
    pub open spec fn state_text(self) -> Option<Seq<char>> {
        match self.chip_status {
            ChipStatus::Failed => Some(self.transport.failure_text()),
            ChipStatus::Disconnected => Some("The connection has been lost."@),
            ChipStatus::Exited => Some("The session has exited."@),
            ChipStatus::Reconnecting => Some(
                if self.transport.durable() is Some {
                    "Attempting to resume the durable remote session."@
                } else {
                    "Attempting to reconnect to the host."@
                },
            ),
            ChipStatus::AuthRequired => Some("Authentication is required to continue."@),
            _ => None,
        }
    }

    fn state_message(&self) -> (message: Option<&'static str>)
        ensures
            match message {
                Some(message) => self.state_text() == Some(message@),
                None => self.state_text() is None,
            },
    {
        match self.chip_status {
            ChipStatus::Failed => Some(
                match self.transport {
                    Transport::Local { .. } =>
                        "The local shell could not start. Review Diagnostics for the failure detail.",
                    Transport::Ssh { .. } =>
                        "The SSH session could not start. Review Diagnostics for the failure detail.",
                    Transport::Sftp { .. } =>
                        "The SFTP session could not start. Review Diagnostics for the failure detail.",
                    Transport::Serial { .. } =>
                        "The serial session could not start. Review Diagnostics for the failure detail.",
                },
            ),
            ChipStatus::Disconnected => Some("The connection has been lost."),
            ChipStatus::Exited => Some("The session has exited."),
            ChipStatus::Reconnecting => Some(
                if self.transport.persistence().is_some() {
                    "Attempting to resume the durable remote session."
                } else {
                    "Attempting to reconnect to the host."
                },
            ),
            ChipStatus::AuthRequired => Some("Authentication is required to continue."),
            _ => None,
        }
    }
}

/// What the inspector shows of a session.
pub struct InspectorContent {
    pub subject: TabId,
    pub identity: String,
    pub type_label: &'static str,
    pub state: String,
    pub state_message: Option<&'static str>,
    pub status: ChipStatus,
    pub grid: Option<String>,
    pub terminal_title: Option<String>,
    pub profile: Option<String>,
    pub transport: TransportFacts,
    pub trust_fingerprint: Option<String>,
    pub input_recording: bool,
    pub reconnect_available: bool,
    pub open_sftp_available: bool,
    /// Provider and name of a session that outlives its connection.
    pub persistent_session: Option<(String, String)>,
}

/// `content` is what the inspector shows of `session` in tab `tab`.
pub open spec fn inspects(content: InspectorContent, tab: TabId, session: SessionTab) -> bool {
    &&& content.subject == tab
    &&& content.identity == session.label
    &&& content.type_label@ == session.transport.type_text()
    &&& content.state == session.status_label
    &&& match content.state_message {
        Some(message) => session.state_text() == Some(message@),
        None => session.state_text() is None,
    }
    &&& content.status == session.chip_status
    &&& content.grid == session.dimensions
    &&& content.terminal_title == if session.terminal_title@.len() > 0 {
        Some(session.terminal_title)
    } else {
        None
    }
    &&& content.profile == session.profile_identifier
    &&& describes(content.transport, session.transport)
    &&& content.trust_fingerprint == match session.host_key_prompt {
        Some(prompt) => Some(prompt.fingerprint),
        None => None,
    }
    &&& content.input_recording == session.input_recording
    &&& content.reconnect_available == session.reconnect_available
    &&& content.open_sftp_available == (session.transport is Ssh)
    &&& content.persistent_session == match session.transport.durable() {
        Some(persistence) => Some((persistence.provider_label, persistence.session_name)),
        None => None,
    }
}

/// What was asked for in the inspector.
#[derive(Clone, Copy, Debug, PartialEq, Eq, Structural)]
pub enum InspectorAction {
    Close,
    Reconnect,
    OpenSftp,
    ToggleInputRecording,
    ClearInputRecording,
    CopyInputRecording,
}

impl FesTermApp {
    /// Gathers what the inspector shows, where a session is in front.
    pub fn session_inspector(&self) -> (content: Option<InspectorContent>)
        ensures
            match (self.state.active_session(), content) {
                (Some(session), Some(content)) => inspects(content, self.state.active, session),
                (None, None) => true,
                _ => false,
            },
    {
        let session = match self.state.session_tab(self.state.active) {
            Some(session) => session,
            None => return None,
        };
        let terminal_title = if session.terminal_title.as_str().is_empty() {
            None
        } else {
            Some(session.terminal_title.clone())
        };
        let trust_fingerprint = match &session.host_key_prompt {
            Some(prompt) => Some(prompt.fingerprint.clone()),
            None => None,
        };
        let persistent_session = match session.transport.persistence() {
            Some(persistence) => Some(
                (persistence.provider_label.clone(), persistence.session_name.clone()),
            ),
            None => None,
        };
        Some(
            InspectorContent {
                subject: self.state.active,
                identity: session.label.clone(),
                type_label: session.transport.type_label(),
                state: session.status_label.clone(),
                state_message: session.state_message(),
                status: session.chip_status,
                grid: copy_text(&session.dimensions),
                terminal_title,
                profile: copy_text(&session.profile_identifier),
                transport: transport_facts(&session.transport),
                trust_fingerprint,
                input_recording: session.input_recording,
                reconnect_available: session.reconnect_available,
                open_sftp_available: matches!(session.transport, Transport::Ssh { .. }),
                persistent_session,
            },
        )
    }

    /// Tab `id` holds an SSH session.
    pub open spec fn ssh_in(self, id: TabId) -> bool {
        &&& session_of(self.state.tabs@, id) is Some
        &&& session_of(self.state.tabs@, id)->Some_0.transport is Ssh
    }

    /// What an action of the inspector of tab `tab` leads to.
    pub open spec fn inspector_outcome(self, tab: TabId, action: InspectorAction) -> (
        Self,
        Seq<Effect>,
    ) {
        match action {
            InspectorAction::Close => (
                self.with_focus(FocusState { inspector_restore_focus: None, ..self.shell.focus }),
                (match self.shell.focus.inspector_restore_focus {
                    Some(widget) => seq![Effect::FocusWidget(widget)],
                    None => if session_of(self.state.tabs@, tab) is Some {
                        seq![Effect::FocusTerminal(tab)]
                    } else {
                        seq![]
                    },
                }) + dispatched(AppCommand::ToggleSessionInspector),
            ),
            InspectorAction::Reconnect => (self, dispatched(AppCommand::ReconnectSession(tab))),
            InspectorAction::OpenSftp => (
                self,
                if self.ssh_in(tab) {
                    dispatched(AppCommand::OpenSftpFileManager(tab))
                } else {
                    seq![]
                },
            ),
            InspectorAction::ToggleInputRecording => (
                self,
                match session_of(self.state.tabs@, tab) {
                    Some(session) => dispatched(
                        AppCommand::SetInputRecording {
                            tab,
                            enabled: !session.input_recording,
                        },
                    ),
                    None => seq![],
                },
            ),
            InspectorAction::ClearInputRecording => (
                self,
                dispatched(AppCommand::ClearInputRecording(tab)),
            ),
            InspectorAction::CopyInputRecording => (
                self,
                dispatched(AppCommand::CopyInputRecording(tab)),
            ),
        }
    }

    /// Carries out an action of the inspector of tab `tab`. Closing it gives the
    /// keyboard back to what had it, or to the tab's terminal.
    pub fn dispatch_inspector_action(&mut self, tab: TabId, action: InspectorAction) -> (effects:
        Vec<Effect>)
        ensures
            (*final(self), effects@) == old(self).inspector_outcome(tab, action),
    {
        let mut effects = Vec::new();
        match action {
            InspectorAction::Close => {
                if let Some(widget) = self.shell.focus.inspector_restore_focus.take() {
                    effects.push(Effect::FocusWidget(widget));
                } else if self.state.session_tab(tab).is_some() {
                    effects.push(Effect::FocusTerminal(tab));
                }
                effects.push(Effect::Dispatch(AppCommand::ToggleSessionInspector));
            },
            InspectorAction::Reconnect => effects.push(
                Effect::Dispatch(AppCommand::ReconnectSession(tab)),
            ),
            InspectorAction::OpenSftp => {
                let ssh = match self.state.session_tab(tab) {
                    Some(session) => matches!(session.transport, Transport::Ssh { .. }),
                    None => false,
                };
                if ssh {
                    effects.push(Effect::Dispatch(AppCommand::OpenSftpFileManager(tab)));
                }
            },
            InspectorAction::ToggleInputRecording => {
                if let Some(session) = self.state.session_tab(tab) {
                    effects.push(
                        Effect::Dispatch(
                            AppCommand::SetInputRecording {
                                tab,
                                enabled: !session.input_recording,
                            },
                        ),
                    );
                }
            },
            InspectorAction::ClearInputRecording => effects.push(
                Effect::Dispatch(AppCommand::ClearInputRecording(tab)),
            ),
            InspectorAction::CopyInputRecording => effects.push(
                Effect::Dispatch(AppCommand::CopyInputRecording(tab)),
            ),
        }
        assert(effects@ =~= old(self).inspector_outcome(tab, action).1);
        effects
    }
}

/// The number of running forwards is said exactly where there are any.
pub proof fn running_forwards_are_counted(count: nat)
    ensures
        forward_count_text(count) is None <==> count == 0,
        count > 0 ==> forward_count_text(count)->Some_0.len() >= decimal(count).len(),
        count > 0 ==> forward_count_text(count)->Some_0.take(decimal(count).len() as int)
            == decimal(count),
{
    if count > 1 {
        assert((decimal(count) + " active forwards"@).take(decimal(count).len() as int) =~= decimal(
            count,
        ));
    } else if count == 1 {
        reveal_strlit("1 active forward");
        assert("1 active forward"@.take(1) =~= decimal(1));
    }
}

/// The status bar is about the tab in front: a session's own state, size and
/// forwards, its second line only while chips do not show it and its durable name
/// only where that is wanted; a document's own place and encoding; and nothing
/// for tabs that have no state.
pub proof fn the_status_bar_is_about_the_tab_in_front(
    app: FesTermApp,
    name: Option<Seq<char>>,
    tab: Tab,
)
    requires
        app.state.active_tab() == Some(tab),
    ensures
        ({
            let bar = app.status_bar_text(name);
            let settings = app.shell.documents.settings;
            match tab.content {
                TabContent::Session(session) => {
                    &&& bar.status == session.chip_status
                    &&& bar.status_label == session.status_label@
                    &&& bar.dimensions == optional_text(session.dimensions)
                    &&& bar.system == Some(session.system_label@)
                    &&& bar.port_forwards is Some <==> session.active_port_forwards > 0
                    &&& settings.show_session_details ==> bar.detail is None
                    &&& !settings.show_session_details && session.dynamic_secondary is Some
                        ==> bar.detail == Some(session.dynamic_secondary->Some_0@)
                    &&& bar.durable_session is Some ==> bar.durable_session == optional_text(
                        session.durable_label,
                    )
                    &&& bar.durable_session is Some <==> session.durable_label is Some
                        && settings.show_durable_session_in_status_bar
                    &&& bar.context is None
                },
                TabContent::TextEditor(editor) => {
                    &&& bar.status == editor.status
                    &&& bar.status_label == editor.status_label@
                    &&& bar.context == Some(editor.language@)
                    &&& bar.dimensions == Some(editor.position@)
                    &&& bar.system == Some(editor.encoding@)
                    &&& bar.detail == Some(editor.size@)
                    &&& bar.port_forwards is None
                },
                TabContent::MarkdownViewer(viewer) => {
                    &&& bar.status == viewer.status
                    &&& bar.status_label == viewer.status_label@
                    &&& bar.context == Some(viewer.status_context@)
                    &&& bar.system == Some(viewer.status_encoding@)
                    &&& bar.port_forwards is None
                },
                TabContent::SftpFileManager(manager) => {
                    &&& bar.status == manager.status
                    &&& bar.status_label == manager.status_label@
                    &&& bar.system == Some(manager.endpoints@)
                },
                _ => {
                    &&& bar.status == ChipStatus::Neutral
                    &&& bar.status_label.len() == 0
                    &&& bar.context is None
                    &&& bar.port_forwards is None
                },
            }
        }),
{
}

/// An action of a tab's inspector is about that tab and about no other, whichever
/// is in front.
pub proof fn inspector_actions_are_about_their_tab(app: FesTermApp, tab: TabId)
    ensures
        ({
            let outcome = |action: InspectorAction| app.inspector_outcome(tab, action);
            let session = session_of(app.state.tabs@, tab);
            let (closed, effects) = outcome(InspectorAction::Close);
            &&& outcome(InspectorAction::Reconnect) == (
                app,
                seq![Effect::Dispatch(AppCommand::ReconnectSession(tab))],
            )
            &&& outcome(InspectorAction::ClearInputRecording) == (
                app,
                seq![Effect::Dispatch(AppCommand::ClearInputRecording(tab))],
            )
            &&& outcome(InspectorAction::CopyInputRecording) == (
                app,
                seq![Effect::Dispatch(AppCommand::CopyInputRecording(tab))],
            )
            &&& session is Some && session->Some_0.transport is Ssh ==> outcome(
                InspectorAction::OpenSftp,
            ) == (app, seq![Effect::Dispatch(AppCommand::OpenSftpFileManager(tab))])
            &&& !(session is Some && session->Some_0.transport is Ssh) ==> outcome(
                InspectorAction::OpenSftp,
            ).1.len() == 0
            &&& session is Some ==> outcome(InspectorAction::ToggleInputRecording) == (
                app,
                seq![
                    Effect::Dispatch(
                        AppCommand::SetInputRecording {
                            tab,
                            enabled: !session->Some_0.input_recording,
                        },
                    ),
                ],
            )
            &&& session is None ==> outcome(InspectorAction::ToggleInputRecording).1.len() == 0
            &&& closed.shell.focus.inspector_restore_focus is None
            &&& closed.state == app.state
            &&& effects.len() > 0
            &&& effects.last() == Effect::Dispatch(AppCommand::ToggleSessionInspector)
            &&& app.shell.focus.inspector_restore_focus is Some ==> effects.len() == 2 && effects[0]
                == Effect::FocusWidget(app.shell.focus.inspector_restore_focus->Some_0)
            &&& app.shell.focus.inspector_restore_focus is None && session is Some ==> effects.len()
                == 2 && effects[0] == Effect::FocusTerminal(tab)
            &&& app.shell.focus.inspector_restore_focus is None && session is None ==> effects.len()
                == 1
        }),
{
}

/// The inspector tells transports apart, and of each gives what it was reached
/// with.
pub proof fn facts_tell_transports_apart(facts: TransportFacts, a: Transport, b: Transport)
    requires
        describes(facts, a),
        describes(facts, b),
    ensures
        a is Local <==> b is Local,
        a is Ssh <==> b is Ssh,
        a is Sftp <==> b is Sftp,
        a is Serial <==> b is Serial,
        a is Ssh ==> a->Ssh_host == b->Ssh_host && a->Ssh_port == b->Ssh_port && a->Ssh_username
            == b->Ssh_username,
        a is Sftp ==> a->Sftp_host == b->Sftp_host && a->Sftp_port == b->Sftp_port
            && a->Sftp_username == b->Sftp_username,
        a is Serial ==> a->device == b->device && a->baud_rate == b->baud_rate && a->data_bits
            == b->data_bits && a->parity == b->parity && a->stop_bits == b->stop_bits
            && a->flow_control == b->flow_control,
{
    if a is Serial {
        serial_texts_differ(a->data_bits, b->data_bits, a->stop_bits, b->stop_bits);
        serial_modes_differ(a->parity, b->parity, a->flow_control, b->flow_control);
    }
}

proof fn serial_texts_differ(
    a: SerialDataBits,
    b: SerialDataBits,
    c: SerialStopBits,
    d: SerialStopBits,
)
    ensures
        a.text() == b.text() ==> a == b,
        c.text() == d.text() ==> c == d,
{
    reveal_strlit("5");
    reveal_strlit("6");
    reveal_strlit("7");
    reveal_strlit("8");
    reveal_strlit("1");
    reveal_strlit("2");
    assert("5"@[0] == '5' && "6"@[0] == '6' && "7"@[0] == '7' && "8"@[0] == '8');
    assert("1"@[0] == '1' && "2"@[0] == '2');
}

proof fn serial_modes_differ(
    a: SerialParity,
    b: SerialParity,
    c: SerialFlowControl,
    d: SerialFlowControl,
)
    ensures
        a.text() == b.text() ==> a == b,
        c.text() == d.text() ==> c == d,
{
    reveal_strlit("None");
    reveal_strlit("Odd");
    reveal_strlit("Even");
    reveal_strlit("Software (XON/XOFF)");
    reveal_strlit("Hardware (RTS/CTS)");
    assert("None"@[0] == 'N' && "Odd"@[0] == 'O' && "Even"@[0] == 'E');
    assert("Software (XON/XOFF)"@[0] == 'S' && "Hardware (RTS/CTS)"@[0] == 'H');
}

/// The inspector says something about a session's state exactly where it is not
/// simply running, and what it says of a session that reconnects depends on
/// whether that outlives its connection.
pub proof fn troubled_sessions_are_explained(session: SessionTab)
    ensures
        session.state_text() is Some <==> {
            ||| session.chip_status == ChipStatus::Failed
            ||| session.chip_status == ChipStatus::Disconnected
            ||| session.chip_status == ChipStatus::Exited
            ||| session.chip_status == ChipStatus::Reconnecting
            ||| session.chip_status == ChipStatus::AuthRequired
        },
        session.chip_status == ChipStatus::Failed ==> session.state_text() == Some(
            session.transport.failure_text(),
        ),
        session.transport.durable() is Some ==> session.transport is Local
            || session.transport is Ssh,
        session.transport is Local ==> session.transport.durable()
            == session.transport->Local_persistence,
        session.transport is Ssh ==> session.transport.durable()
            == session.transport->Ssh_persistence,
{
}

/// The inspector shows the session it is opened for: its identity, state, title,
/// profile and what can be done with it.
pub proof fn the_inspector_shows_its_session(
    content: InspectorContent,
    tab: TabId,
    session: SessionTab,
)
    requires
        inspects(content, tab, session),
    ensures
        content.subject == tab,
        content.identity == session.label,
        content.state == session.status_label,
        content.status == session.chip_status,
        content.profile == session.profile_identifier,
        content.grid == session.dimensions,
        content.input_recording == session.input_recording,
        content.reconnect_available == session.reconnect_available,
        content.open_sftp_available <==> session.transport is Ssh,
        content.terminal_title is Some <==> session.terminal_title@.len() > 0,
        content.trust_fingerprint is Some <==> session.host_key_prompt is Some,
        content.state_message is Some <==> session.state_text() is Some,
        content.persistent_session is Some <==> session.transport.durable() is Some,
{
}

} // verus!
