//! The typed model of the messages this client sends to the host, and the
//! builders that pin down every field of each command.

use vstd::prelude::*;

verus! {

/// The command names this client issues.
#[derive(Clone, Copy, PartialEq, Eq, Debug, Structural)]
pub enum CommandName {
    Authorize,
    Authenticate,
    Subscribe,
    Unsubscribe,
    GetSelectedVoiceChannel,
    GetVoiceSettings,
    SetVoiceSettings,
    SelectVoiceChannel,
    SetActivity,
}

impl CommandName {
    /// The name as it appears on the wire.
    pub fn wire_name(&self) -> (s: &'static str)
        ensures
            s@ == self.wire_name_spec(),
    {
        match self {
            CommandName::Authorize => "AUTHORIZE",
            CommandName::Authenticate => "AUTHENTICATE",
            CommandName::Subscribe => "SUBSCRIBE",
            CommandName::Unsubscribe => "UNSUBSCRIBE",
            CommandName::GetSelectedVoiceChannel => "GET_SELECTED_VOICE_CHANNEL",
            CommandName::GetVoiceSettings => "GET_VOICE_SETTINGS",
            CommandName::SetVoiceSettings => "SET_VOICE_SETTINGS",
            CommandName::SelectVoiceChannel => "SELECT_VOICE_CHANNEL",
            CommandName::SetActivity => "SET_ACTIVITY",
        }
    }

    pub open spec fn wire_name_spec(&self) -> Seq<char> {
        match self {
            CommandName::Authorize => "AUTHORIZE"@,
            CommandName::Authenticate => "AUTHENTICATE"@,
            CommandName::Subscribe => "SUBSCRIBE"@,
            CommandName::Unsubscribe => "UNSUBSCRIBE"@,
            CommandName::GetSelectedVoiceChannel => "GET_SELECTED_VOICE_CHANNEL"@,
            CommandName::GetVoiceSettings => "GET_VOICE_SETTINGS"@,
            CommandName::SetVoiceSettings => "SET_VOICE_SETTINGS"@,
            CommandName::SelectVoiceChannel => "SELECT_VOICE_CHANNEL"@,
            CommandName::SetActivity => "SET_ACTIVITY"@,
        }
    }
}

/// The event names the host dispatches and this client subscribes to.
#[derive(Clone, Copy, PartialEq, Eq, Debug, Structural)]
pub enum DispatchEventName {
    VoiceSettingsUpdate,
    VoiceChannelSelect,
    VoiceStateCreate,
    VoiceStateUpdate,
    VoiceStateDelete,
    SpeakingStart,
    SpeakingStop,
}

impl DispatchEventName {
    /// The name as it appears on the wire.
    pub fn wire_name(&self) -> (s: &'static str)
        ensures
            s@ == self.wire_name_spec(),
    {
        match self {
            DispatchEventName::VoiceSettingsUpdate => "VOICE_SETTINGS_UPDATE",
            DispatchEventName::VoiceChannelSelect => "VOICE_CHANNEL_SELECT",
            DispatchEventName::VoiceStateCreate => "VOICE_STATE_CREATE",
            DispatchEventName::VoiceStateUpdate => "VOICE_STATE_UPDATE",
            DispatchEventName::VoiceStateDelete => "VOICE_STATE_DELETE",
            DispatchEventName::SpeakingStart => "SPEAKING_START",
            DispatchEventName::SpeakingStop => "SPEAKING_STOP",
        }
    }

    pub open spec fn wire_name_spec(&self) -> Seq<char> {
        match self {
            DispatchEventName::VoiceSettingsUpdate => "VOICE_SETTINGS_UPDATE"@,
            DispatchEventName::VoiceChannelSelect => "VOICE_CHANNEL_SELECT"@,
            DispatchEventName::VoiceStateCreate => "VOICE_STATE_CREATE"@,
            DispatchEventName::VoiceStateUpdate => "VOICE_STATE_UPDATE"@,
            DispatchEventName::VoiceStateDelete => "VOICE_STATE_DELETE"@,
            DispatchEventName::SpeakingStart => "SPEAKING_START"@,
            DispatchEventName::SpeakingStop => "SPEAKING_STOP"@,
        }
    }
}

/// The `args` object of an outgoing command.
#[derive(Clone, Debug)]
pub enum CommandArgs {
    /// The command carries no `args` field.
    NoArgs,
    /// The command carries an empty `args` object.
    EmptyObject,
    Authorize { client_id: String, scopes: Vec<String> },
    Authenticate { access_token: String },
    /// A channel scope; `None` stands for the JSON null channel id.
    Channel { channel_id: Option<String> },
    VoiceSettings { mute: Option<bool>, deaf: Option<bool> },
    Activity { pid: u32, activity: Option<String> },
}

/// The mathematical value of [`CommandArgs`].
pub enum CommandArgsView {
    NoArgs,
    EmptyObject,
    Authorize { client_id: Seq<char>, scopes: Seq<Seq<char>> },
    Authenticate { access_token: Seq<char> },
    Channel { channel_id: Option<Seq<char>> },
    VoiceSettings { mute: Option<bool>, deaf: Option<bool> },
    Activity { pid: u32, activity: Option<Seq<char>> },
}

impl View for CommandArgs {
    type V = CommandArgsView;

    open spec fn view(&self) -> CommandArgsView {
        match self {
            CommandArgs::NoArgs => CommandArgsView::NoArgs,
            CommandArgs::EmptyObject => CommandArgsView::EmptyObject,
            CommandArgs::Authorize { client_id, scopes } => CommandArgsView::Authorize {
                client_id: client_id@,
                scopes: scopes.deep_view(),
            },
            CommandArgs::Authenticate { access_token } => CommandArgsView::Authenticate {
                access_token: access_token@,
            },
            CommandArgs::Channel { channel_id } => CommandArgsView::Channel {
                channel_id: channel_id.deep_view(),
            },
            CommandArgs::VoiceSettings { mute, deaf } => CommandArgsView::VoiceSettings {
                mute: *mute,
                deaf: *deaf,
            },
            CommandArgs::Activity { pid, activity } => CommandArgsView::Activity {
                pid: *pid,
                activity: activity.deep_view(),
            },
        }
    }
}

impl DeepView for CommandArgs {
    type V = CommandArgsView;

    open spec fn deep_view(&self) -> CommandArgsView {
        self.view()
    }
}

/// One outgoing wire message: a command with its correlation nonce, an
/// event name when the command subscribes or unsubscribes, and its args.
#[derive(Clone, Debug)]
pub struct OutgoingPayload {
    pub nonce: String,
    pub cmd: CommandName,
    pub evt: Option<DispatchEventName>,
    pub args: CommandArgs,
}

/// The mathematical value of an [`OutgoingPayload`].
pub struct PayloadView {
    pub nonce: Seq<char>,
    pub cmd: CommandName,
    pub evt: Option<DispatchEventName>,
    pub args: CommandArgsView,
}

impl View for OutgoingPayload {
    type V = PayloadView;

    open spec fn view(&self) -> PayloadView {
        PayloadView { nonce: self.nonce@, cmd: self.cmd, evt: self.evt, args: self.args@ }
    }
}

impl DeepView for OutgoingPayload {
    type V = PayloadView;

    open spec fn deep_view(&self) -> PayloadView {
        self.view()
    }
}

/// Relies on `uuid::Uuid::new_v4`, rendered with `to_string`: a freshly
/// drawn random correlation identifier.  Nothing is promised of its value.
#[verifier::external_body]
pub(crate) fn fresh_nonce() -> String {
    uuid::Uuid::new_v4().to_string()
}

/// The two OAuth scopes every authorization request asks for.
pub open spec fn authorize_scopes() -> Seq<Seq<char>> {
    seq!["rpc"@, "identify"@]
}

/// The `AUTHORIZE` request that starts the interactive consent flow.
pub fn authorize_payload(nonce: String, client_id: &str) -> (p: OutgoingPayload)
    ensures
        p@ == (PayloadView {
            nonce: nonce@,
            cmd: CommandName::Authorize,
            evt: None,
            args: CommandArgsView::Authorize { client_id: client_id@, scopes: authorize_scopes() },
        }),
{
    let mut scopes: Vec<String> = Vec::new();
    scopes.push(String::from_str("rpc"));
    scopes.push(String::from_str("identify"));
    proof {
        assert(scopes.deep_view() =~~= authorize_scopes());
    }
    OutgoingPayload {
        nonce,
        cmd: CommandName::Authorize,
        evt: None,
        args: CommandArgs::Authorize { client_id: String::from_str(client_id), scopes },
    }
}

/// The `AUTHENTICATE` command that presents an access token to the host.
pub fn authenticate_payload(nonce: String, access_token: String) -> (p: OutgoingPayload)
    ensures
        p@ == (PayloadView {
            nonce: nonce@,
            cmd: CommandName::Authenticate,
            evt: None,
            args: CommandArgsView::Authenticate { access_token: access_token@ },
        }),
{
    OutgoingPayload {
        nonce,
        cmd: CommandName::Authenticate,
        evt: None,
        args: CommandArgs::Authenticate { access_token },
    }
}

/// The `GET_SELECTED_VOICE_CHANNEL` query.
pub fn selected_channel_payload(nonce: String) -> (p: OutgoingPayload)
    ensures
        p@ == (PayloadView {
            nonce: nonce@,
            cmd: CommandName::GetSelectedVoiceChannel,
            evt: None,
            args: CommandArgsView::NoArgs,
        }),
{
    OutgoingPayload {
        nonce,
        cmd: CommandName::GetSelectedVoiceChannel,
        evt: None,
        args: CommandArgs::NoArgs,
    }
}

/// The `GET_VOICE_SETTINGS` query.
pub fn voice_settings_payload(nonce: String) -> (p: OutgoingPayload)
    ensures
        p@ == (PayloadView {
            nonce: nonce@,
            cmd: CommandName::GetVoiceSettings,
            evt: None,
            args: CommandArgsView::NoArgs,
        }),
{
    OutgoingPayload {
        nonce,
        cmd: CommandName::GetVoiceSettings,
        evt: None,
        args: CommandArgs::NoArgs,
    }
}

/// The `SET_VOICE_SETTINGS` command; a field left `None` is not touched.
pub fn set_voice_settings_payload(nonce: String, mute: Option<bool>, deaf: Option<bool>) -> (p:
    OutgoingPayload)
    ensures
        p@ == (PayloadView {
            nonce: nonce@,
            cmd: CommandName::SetVoiceSettings,
            evt: None,
            args: CommandArgsView::VoiceSettings { mute, deaf },
        }),
{
    OutgoingPayload {
        nonce,
        cmd: CommandName::SetVoiceSettings,
        evt: None,
        args: CommandArgs::VoiceSettings { mute, deaf },
    }
}

/// The `SELECT_VOICE_CHANNEL` command with a null channel id: leave the
/// current voice channel.
pub fn leave_channel_payload(nonce: String) -> (p: OutgoingPayload)
    ensures
        p@ == (PayloadView {
            nonce: nonce@,
            cmd: CommandName::SelectVoiceChannel,
            evt: None,
            args: CommandArgsView::Channel { channel_id: None },
        }),
{
    OutgoingPayload {
        nonce,
        cmd: CommandName::SelectVoiceChannel,
        evt: None,
        args: CommandArgs::Channel { channel_id: None },
    }
}

/// The `SET_ACTIVITY` command; `activity: None` clears the activity.
pub fn set_activity_payload(nonce: String, pid: u32, activity: Option<String>) -> (p:
    OutgoingPayload)
    ensures
        p@ == (PayloadView {
            nonce: nonce@,
            cmd: CommandName::SetActivity,
            evt: None,
            args: CommandArgsView::Activity { pid, activity: activity.deep_view() },
        }),
{
    OutgoingPayload {
        nonce,
        cmd: CommandName::SetActivity,
        evt: None,
        args: CommandArgs::Activity { pid, activity },
    }
}

/// As [`authorize_payload`], with a fresh random nonce.
pub fn authorize_request(client_id: &str) -> (p: OutgoingPayload)
    ensures
        p@ == (PayloadView {
            nonce: p@.nonce,
            cmd: CommandName::Authorize,
            evt: None,
            args: CommandArgsView::Authorize { client_id: client_id@, scopes: authorize_scopes() },
        }),
{
    authorize_payload(fresh_nonce(), client_id)
}

/// As [`authenticate_payload`], with a fresh random nonce.
pub fn authenticate_request(access_token: String) -> (p: OutgoingPayload)
    ensures
        p@ == (PayloadView {
            nonce: p@.nonce,
            cmd: CommandName::Authenticate,
            evt: None,
            args: CommandArgsView::Authenticate { access_token: access_token@ },
        }),
{
    authenticate_payload(fresh_nonce(), access_token)
}

/// As [`selected_channel_payload`], with a fresh random nonce.
pub fn selected_channel_request() -> (p: OutgoingPayload)
    ensures
        p@ == (PayloadView {
            nonce: p@.nonce,
            cmd: CommandName::GetSelectedVoiceChannel,
            evt: None,
            args: CommandArgsView::NoArgs,
        }),
{
    selected_channel_payload(fresh_nonce())
}

/// As [`voice_settings_payload`], with a fresh random nonce.
pub fn voice_settings_request() -> (p: OutgoingPayload)
    ensures
        p@ == (PayloadView {
            nonce: p@.nonce,
            cmd: CommandName::GetVoiceSettings,
            evt: None,
            args: CommandArgsView::NoArgs,
        }),
{
    voice_settings_payload(fresh_nonce())
}

/// As [`leave_channel_payload`], with a fresh random nonce.
pub fn leave_channel_request() -> (p: OutgoingPayload)
    ensures
        p@ == (PayloadView {
            nonce: p@.nonce,
            cmd: CommandName::SelectVoiceChannel,
            evt: None,
            args: CommandArgsView::Channel { channel_id: None },
        }),
{
    leave_channel_payload(fresh_nonce())
}

/// As [`set_activity_payload`], with a fresh random nonce.
pub fn set_activity_request(pid: u32, activity: Option<String>) -> (p: OutgoingPayload)
    ensures
        p@ == (PayloadView {
            nonce: p@.nonce,
            cmd: CommandName::SetActivity,
            evt: None,
            args: CommandArgsView::Activity { pid, activity: activity.deep_view() },
        }),
{
    set_activity_payload(fresh_nonce(), pid, activity)
}

} // verus!
