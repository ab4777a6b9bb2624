//! The direct command operations: each one is a single round trip on the
//! command channel, independent of the event loop.  The functions here
//! are the decision halves: they build the command to send and judge the
//! reply that came back.

use vstd::prelude::*;

use crate::channel::{ReplyBodyView, ReplyFrame};
use crate::errors::{IpcError, IpcErrorType};
use crate::member::{Member, MemberView};
use crate::message::{CommandArgsView, CommandName, OutgoingPayload, PayloadView};

verus! {

/// What the voice-channel query reports to the caller.
#[derive(Debug)]
pub enum VcInfo {
    NotInChannel,
    InChannel { name: String, users: Vec<Member> },
}

/// The mathematical value of a [`VcInfo`].
pub enum VcInfoView {
    NotInChannel,
    InChannel { name: Seq<char>, users: Seq<MemberView> },
}

impl View for VcInfo {
    type V = VcInfoView;

    open spec fn view(&self) -> VcInfoView {
        match self {
            VcInfo::NotInChannel => VcInfoView::NotInChannel,
            VcInfo::InChannel { name, users } => VcInfoView::InChannel {
                name: name@,
                users: users.deep_view(),
            },
        }
    }
}

impl DeepView for VcInfo {
    type V = VcInfoView;

    open spec fn deep_view(&self) -> VcInfoView {
        self.view()
    }
}

/// The error for a reply whose body is not what the command asked for.
fn malformed_reply_error() -> (e: IpcError)
    ensures
        e.error_type == IpcErrorType::EventDecode,
        e.payload is None,
{
    IpcError {
        error_type: IpcErrorType::EventDecode,
        message: String::from_str("The reply does not carry the expected data."),
        payload: None,
    }
}

/// From the `GET_VOICE_SETTINGS` reply, build the `SET_VOICE_SETTINGS`
/// command that flips the mute flag and touches nothing else.
pub fn flip_mute_payload(reply: &ReplyFrame, nonce: String) -> (r: Result<OutgoingPayload,
    IpcError>)
    ensures
        reply@.body matches ReplyBodyView::VoiceSettings { mute, deaf } ==> (r matches Ok(p)
            && p@ == (PayloadView {
            nonce: nonce@,
            cmd: CommandName::SetVoiceSettings,
            evt: None,
            args: CommandArgsView::VoiceSettings { mute: Some(!mute), deaf: None },
        })),
        !(reply@.body is VoiceSettings) ==> (r matches Err(e) && e.error_type
            == IpcErrorType::EventDecode),
{
    match &reply.body {
        crate::channel::ReplyBody::VoiceSettings { mute, deaf: _ } => {
            let flipped = !*mute;
            Ok(crate::message::set_voice_settings_payload(nonce, Some(flipped), None))
        },
        _ => Err(malformed_reply_error()),
    }
}

/// From the `GET_VOICE_SETTINGS` reply, build the `SET_VOICE_SETTINGS`
/// command that flips the deafen flag and touches nothing else.
pub fn flip_deafen_payload(reply: &ReplyFrame, nonce: String) -> (r: Result<OutgoingPayload,
    IpcError>)
    ensures
        reply@.body matches ReplyBodyView::VoiceSettings { mute, deaf } ==> (r matches Ok(p)
            && p@ == (PayloadView {
            nonce: nonce@,
            cmd: CommandName::SetVoiceSettings,
            evt: None,
            args: CommandArgsView::VoiceSettings { mute: None, deaf: Some(!deaf) },
        })),
        !(reply@.body is VoiceSettings) ==> (r matches Err(e) && e.error_type
            == IpcErrorType::EventDecode),
{
    match &reply.body {
        crate::channel::ReplyBody::VoiceSettings { mute: _, deaf } => {
            let flipped = !*deaf;
            Ok(crate::message::set_voice_settings_payload(nonce, None, Some(flipped)))
        },
        _ => Err(malformed_reply_error()),
    }
}

/// As [`flip_mute_payload`], with a fresh random nonce.
pub fn flip_mute_request(reply: &ReplyFrame) -> (r: Result<OutgoingPayload, IpcError>)
    ensures
        reply@.body matches ReplyBodyView::VoiceSettings { mute, deaf } ==> (r matches Ok(p)
            && p@ == (PayloadView {
            nonce: p@.nonce,
            cmd: CommandName::SetVoiceSettings,
            evt: None,
            args: CommandArgsView::VoiceSettings { mute: Some(!mute), deaf: None },
        })),
        !(reply@.body is VoiceSettings) ==> (r matches Err(e) && e.error_type
            == IpcErrorType::EventDecode),
{
    flip_mute_payload(reply, crate::message::fresh_nonce())
}

/// As [`flip_deafen_payload`], with a fresh random nonce.
pub fn flip_deafen_request(reply: &ReplyFrame) -> (r: Result<OutgoingPayload, IpcError>)
    ensures
        reply@.body matches ReplyBodyView::VoiceSettings { mute, deaf } ==> (r matches Ok(p)
            && p@ == (PayloadView {
            nonce: p@.nonce,
            cmd: CommandName::SetVoiceSettings,
            evt: None,
            args: CommandArgsView::VoiceSettings { mute: None, deaf: Some(!deaf) },
        })),
        !(reply@.body is VoiceSettings) ==> (r matches Err(e) && e.error_type
            == IpcErrorType::EventDecode),
{
    flip_deafen_payload(reply, crate::message::fresh_nonce())
}

/// Read the `GET_SELECTED_VOICE_CHANNEL` reply: not in a channel when its
/// data is null, otherwise the channel's name and occupants.
pub fn vc_info_from_reply(reply: ReplyFrame) -> (r: Result<VcInfo, IpcError>)
    ensures
        reply@.body matches ReplyBodyView::SelectedChannel { channel: None } ==> (r matches Ok(v)
            && v@ == VcInfoView::NotInChannel),
        reply@.body matches ReplyBodyView::SelectedChannel { channel: Some(ci) } ==> (r matches Ok(
            v,
        ) && v@ == (VcInfoView::InChannel { name: ci.name, users: ci.voice_states })),
        !(reply@.body is SelectedChannel) ==> (r matches Err(e) && e.error_type
            == IpcErrorType::EventDecode),
{
    match reply.body {
        crate::channel::ReplyBody::SelectedChannel { channel } => match channel {
            None => Ok(VcInfo::NotInChannel),
            Some(ci) => Ok(VcInfo::InChannel { name: ci.name, users: ci.voice_states }),
        },
        _ => Err(malformed_reply_error()),
    }
}

/// Judge the reply to a `SET_ACTIVITY` command: an `ERROR` reply fails
/// the operation and hands the command back for audit.
pub fn activity_reply_check(request: OutgoingPayload, reply: &ReplyFrame) -> (r: Result<(),
    IpcError>)
    ensures
        r is Ok <==> !reply@.evt_error,
        r matches Err(e) ==> (e.error_type == IpcErrorType::EventSend && (e.payload matches Some(p)
            && p == request)),
{
    if reply.evt_error {
        Err(IpcError {
            error_type: IpcErrorType::EventSend,
            message: String::from_str("Failed to set activity."),
            payload: Some(request),
        })
    } else {
        Ok(())
    }
}

} // verus!
