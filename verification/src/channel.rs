//! The command channel's reply correlation: a command resolves only on the
//! reply that carries its own nonce; anything else fails the call at once.

use vstd::prelude::*;

use crate::errors::{IpcError, IpcErrorType};
use crate::incoming::{ChannelInfo, ChannelInfoView};
use crate::message::{OutgoingPayload, PayloadView};

verus! {

/// The decoded body of a command reply, as far as this client reads it.
#[derive(Debug)]
pub enum ReplyBody {
    VoiceSettings { mute: bool, deaf: bool },
    SelectedChannel { channel: Option<ChannelInfo> },
    /// A body this client does not read.
    Other,
}

/// The mathematical value of a [`ReplyBody`].
pub enum ReplyBodyView {
    VoiceSettings { mute: bool, deaf: bool },
    SelectedChannel { channel: Option<ChannelInfoView> },
    Other,
}

impl View for ReplyBody {
    type V = ReplyBodyView;

    open spec fn view(&self) -> ReplyBodyView {
        match self {
            ReplyBody::VoiceSettings { mute, deaf } => ReplyBodyView::VoiceSettings {
                mute: *mute,
                deaf: *deaf,
            },
            ReplyBody::SelectedChannel { channel } => ReplyBodyView::SelectedChannel {
                channel: channel.deep_view(),
            },
            ReplyBody::Other => ReplyBodyView::Other,
        }
    }
}

impl DeepView for ReplyBody {
    type V = ReplyBodyView;

    open spec fn deep_view(&self) -> ReplyBodyView {
        self.view()
    }
}

/// One frame read from the command connection while waiting for a reply.
#[derive(Debug)]
pub struct ReplyFrame {
    /// The correlation nonce the frame carries, if any.
    pub nonce: Option<String>,
    /// Whether the frame's `evt` field is `ERROR`.
    pub evt_error: bool,
    pub body: ReplyBody,
}

/// The mathematical value of a [`ReplyFrame`].
pub struct ReplyFrameView {
    pub nonce: Option<Seq<char>>,
    pub evt_error: bool,
    pub body: ReplyBodyView,
}

impl View for ReplyFrame {
    type V = ReplyFrameView;

    open spec fn view(&self) -> ReplyFrameView {
        ReplyFrameView {
            nonce: self.nonce.deep_view(),
            evt_error: self.evt_error,
            body: self.body@,
        }
    }
}

impl DeepView for ReplyFrame {
    type V = ReplyFrameView;

    open spec fn deep_view(&self) -> ReplyFrameView {
        self.view()
    }
}

/// What one read from the command connection produced.
#[derive(Debug)]
pub enum RecvOutcome {
    Frame(ReplyFrame),
    /// The transport failed to deliver or decode a frame.
    DecodeFailure { detail: String },
}

/// Whether `f` is the reply to a command whose nonce is `req.nonce`.
pub open spec fn is_matching_reply(req: PayloadView, f: ReplyFrameView) -> bool {
    f.nonce matches Some(n) && n == req.nonce
}

/// Resolve one read against the command that is waiting.  The call
/// resolves only on a frame whose nonce equals the command's nonce; a
/// frame with any other nonce, or with none, fails the exchange rather
/// than being buffered, and a decode failure fails it too.  Every failure
/// carries the original command.
pub fn correlate_reply(request: OutgoingPayload, outcome: RecvOutcome) -> (r: Result<
    ReplyFrame,
    IpcError,
>)
    ensures
        r is Ok <==> (outcome matches RecvOutcome::Frame(f) && is_matching_reply(request@, f@)),
        r matches Ok(f) ==> (outcome matches RecvOutcome::Frame(f0) && f == f0),
        r matches Err(e) ==> (e.payload matches Some(p) && p == request),
        r matches Err(e) ==> e.error_type == (match outcome {
            RecvOutcome::Frame(_) => IpcErrorType::EventReceive,
            RecvOutcome::DecodeFailure { .. } => IpcErrorType::EventDecode,
        }),
{
    match outcome {
        RecvOutcome::DecodeFailure { detail } => {
            let mut message = String::from_str("Failed to decode response.\n");
            message.append(detail.as_str());
            Err(IpcError {
                error_type: IpcErrorType::EventDecode,
                message,
                payload: Some(request),
            })
        },
        RecvOutcome::Frame(frame) => {
            let matched = match &frame.nonce {
                Some(n) => *n == request.nonce,
                None => false,
            };
            if matched {
                Ok(frame)
            } else {
                Err(IpcError {
                    error_type: IpcErrorType::EventReceive,
                    message: String::from_str("Invalid message received."),
                    payload: Some(request),
                })
            }
        },
    }
}

/// The error reported when writing a command to the transport fails; the
/// command itself is kept for audit and retry.
pub fn send_failure_error(request: OutgoingPayload, detail: String) -> (e: IpcError)
    ensures
        e.error_type == IpcErrorType::EventSend,
        e.payload matches Some(p) && p == request,
{
    let mut message = String::from_str("Failed to send payload.\n");
    message.append(detail.as_str());
    IpcError { error_type: IpcErrorType::EventSend, message, payload: Some(request) }
}

/// The error reported when the IPC client itself cannot be created.
pub fn create_client_error(detail: String) -> (e: IpcError)
    ensures
        e.error_type == IpcErrorType::CreateClient,
        e.payload is None,
{
    IpcError { error_type: IpcErrorType::CreateClient, message: detail, payload: None }
}

/// The error reported when connecting or closing the transport fails.
pub fn connect_error(detail: String) -> (e: IpcError)
    ensures
        e.error_type == IpcErrorType::Connect,
        e.payload is None,
{
    IpcError { error_type: IpcErrorType::Connect, message: detail, payload: None }
}

} // verus!
