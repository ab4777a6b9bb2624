//! The typed model of what arrives from the host: command replies and
//! asynchronous push events, already decoded into plain values.

use vstd::prelude::*;

use crate::member::{Member, MemberView};

verus! {

/// The host's description of the currently selected voice channel.
#[derive(Debug)]
pub struct ChannelInfo {
    pub id: String,
    pub name: String,
    pub voice_states: Vec<Member>,
}

/// The mathematical value of a [`ChannelInfo`].
pub struct ChannelInfoView {
    pub id: Seq<char>,
    pub name: Seq<char>,
    pub voice_states: Seq<MemberView>,
}

impl View for ChannelInfo {
    type V = ChannelInfoView;

    open spec fn view(&self) -> ChannelInfoView {
        ChannelInfoView {
            id: self.id@,
            name: self.name@,
            voice_states: self.voice_states.deep_view(),
        }
    }
}

impl DeepView for ChannelInfo {
    type V = ChannelInfoView;

    open spec fn deep_view(&self) -> ChannelInfoView {
        self.view()
    }
}

/// Which of this client's commands an `ERROR` event answers.
#[derive(Clone, Copy, PartialEq, Eq, Debug, Structural)]
pub enum ErrorSource {
    Authorize,
    Subscribe,
    Other,
}

/// One message read from the event stream, classified.  A message whose
/// `cmd` or `evt` value the client does not know is `Unknown` and is
/// ignored rather than interpreted.
#[derive(Debug)]
pub enum IncomingMessage {
    /// Reply to `AUTHORIZE`: the host granted a one-time code.
    AuthorizeCode { code: String },
    /// Reply to `AUTHENTICATE`: the host confirmed the user's identity.
    Authenticated { user_id: String },
    /// Reply to `GET_SELECTED_VOICE_CHANNEL`; `None` when no channel is
    /// selected.
    SelectedChannel { channel: Option<ChannelInfo> },
    /// An `ERROR` event, keyed by the command it answers.
    ErrorEvent { source: ErrorSource },
    VoiceSettingsUpdate { mute: bool, deaf: bool },
    VoiceChannelSelect { channel_id: Option<String> },
    VoiceStateCreate { member: Member },
    VoiceStateUpdate { member: Member },
    VoiceStateDelete { user_id: String },
    SpeakingStart { user_id: String },
    SpeakingStop { user_id: String },
    Unknown,
}

/// The mathematical value of an [`IncomingMessage`].
pub enum IncomingMessageView {
    AuthorizeCode { code: Seq<char> },
    Authenticated { user_id: Seq<char> },
    SelectedChannel { channel: Option<ChannelInfoView> },
    ErrorEvent { source: ErrorSource },
    VoiceSettingsUpdate { mute: bool, deaf: bool },
    VoiceChannelSelect { channel_id: Option<Seq<char>> },
    VoiceStateCreate { member: MemberView },
    VoiceStateUpdate { member: MemberView },
    VoiceStateDelete { user_id: Seq<char> },
    SpeakingStart { user_id: Seq<char> },
    SpeakingStop { user_id: Seq<char> },
    Unknown,
}

impl View for IncomingMessage {
    type V = IncomingMessageView;

    open spec fn view(&self) -> IncomingMessageView {
        match self {
            IncomingMessage::AuthorizeCode { code } => IncomingMessageView::AuthorizeCode {
                code: code@,
            },
            IncomingMessage::Authenticated { user_id } => IncomingMessageView::Authenticated {
                user_id: user_id@,
            },
            IncomingMessage::SelectedChannel { channel } => IncomingMessageView::SelectedChannel {
                channel: channel.deep_view(),
            },
            IncomingMessage::ErrorEvent { source } => IncomingMessageView::ErrorEvent {
                source: *source,
            },
            IncomingMessage::VoiceSettingsUpdate { mute, deaf } => {
                IncomingMessageView::VoiceSettingsUpdate { mute: *mute, deaf: *deaf }
            },
            IncomingMessage::VoiceChannelSelect { channel_id } => {
                IncomingMessageView::VoiceChannelSelect { channel_id: channel_id.deep_view() }
            },
            IncomingMessage::VoiceStateCreate { member } => IncomingMessageView::VoiceStateCreate {
                member: member@,
            },
            IncomingMessage::VoiceStateUpdate { member } => IncomingMessageView::VoiceStateUpdate {
                member: member@,
            },
            IncomingMessage::VoiceStateDelete { user_id } => {
                IncomingMessageView::VoiceStateDelete { user_id: user_id@ }
            },
            IncomingMessage::SpeakingStart { user_id } => IncomingMessageView::SpeakingStart {
                user_id: user_id@,
            },
            IncomingMessage::SpeakingStop { user_id } => IncomingMessageView::SpeakingStop {
                user_id: user_id@,
            },
            IncomingMessage::Unknown => IncomingMessageView::Unknown,
        }
    }
}

impl DeepView for IncomingMessage {
    type V = IncomingMessageView;

    open spec fn deep_view(&self) -> IncomingMessageView {
        self.view()
    }
}

} // verus!
