//! Error taxonomy of the IPC layer and of the authentication flow.

use vstd::prelude::*;

use crate::message::{OutgoingPayload, PayloadView};

verus! {

/// The kinds of failure that the IPC layer reports.
#[derive(Clone, Copy, PartialEq, Eq, Debug, Structural)]
pub enum IpcErrorType {
    CreateClient,
    Connect,
    Authorize,
    ReAuth,
    Subscribe,
    Unsubscribe,
    EventReceive,
    EventSend,
    EventEncode,
    EventDecode,
    LeaveVC,
}

/// The kinds of failure that the authentication flow reports.
#[derive(Clone, Copy, PartialEq, Eq, Debug, Structural)]
pub enum AuthErrorType {
    TokenFetch,
    RefreshToken,
    ConfigRead,
    ConfigSave,
    Decode,
    IpcSend,
}

/// An authentication failure, with a human-readable description.
#[derive(Debug)]
pub struct AuthError {
    pub error_type: AuthErrorType,
    pub message: String,
}

/// The mathematical value of an [`AuthError`].
pub struct AuthErrorView {
    pub error_type: AuthErrorType,
    pub message: Seq<char>,
}

impl View for AuthError {
    type V = AuthErrorView;

    open spec fn view(&self) -> AuthErrorView {
        AuthErrorView { error_type: self.error_type, message: self.message@ }
    }
}

impl DeepView for AuthError {
    type V = AuthErrorView;

    open spec fn deep_view(&self) -> AuthErrorView {
        self.view()
    }
}

/// An IPC failure; where a command caused it, the error carries that
/// command so the caller can audit or retry it.
#[derive(Debug)]
pub struct IpcError {
    pub error_type: IpcErrorType,
    pub message: String,
    pub payload: Option<OutgoingPayload>,
}

/// The mathematical value of an [`IpcError`].
pub struct IpcErrorView {
    pub error_type: IpcErrorType,
    pub message: Seq<char>,
    pub payload: Option<PayloadView>,
}

impl View for IpcError {
    type V = IpcErrorView;

    open spec fn view(&self) -> IpcErrorView {
        IpcErrorView {
            error_type: self.error_type,
            message: self.message@,
            payload: self.payload.deep_view(),
        }
    }
}

impl DeepView for IpcError {
    type V = IpcErrorView;

    open spec fn deep_view(&self) -> IpcErrorView {
        self.view()
    }
}

/// An IPC failure annotated with the lower-level cause, kept separate from
/// the message shown outward.
#[derive(Debug)]
pub struct InternalIpcError {
    pub error_type: IpcErrorType,
    pub message: String,
    pub internal: String,
    pub payload: Option<OutgoingPayload>,
}

} // verus!
