//! The presence state machine.  It consumes the decoded event stream and
//! the outcomes of the outside work it ordered, keeps the derived
//! presence state consistent, and answers each input with the list of
//! actions to perform next: notifications to raise, messages to send,
//! token work to start.  The machine itself never blocks and never does
//! I/O; the surrounding process performs each action and feeds the result
//! back in.

use vstd::prelude::*;

use crate::auth::{TokenData, TokenDataView};
use crate::errors::{AuthError, AuthErrorType, AuthErrorView, IpcError, IpcErrorType,
    IpcErrorView};
use crate::incoming::{ErrorSource, IncomingMessage, IncomingMessageView};
use crate::member::{set_speaking_map, Member, MemberTable, MemberView};
use crate::message::DispatchEventName;
use crate::subscriptions::{channel_event_requests, channel_event_requests_spec,
    SubscriptionRequest, SubscriptionRequestView};

verus! {

/// Where the session stands in the connect and subscribe protocol.
#[derive(Clone, Copy, PartialEq, Eq, Debug, Structural)]
pub enum Phase {
    Disconnected,
    Connecting,
    ReAuthenticating,
    Authorizing,
    Authenticated,
    Subscribed,
    ChannelJoined,
}

/// The two transport connections a token can be presented on.
#[derive(Clone, Copy, PartialEq, Eq, Debug, Structural)]
pub enum ChannelKind {
    Event,
    Command,
}

/// How a membership notification describes its user.
#[derive(Clone, Copy, PartialEq, Eq, Debug, Structural)]
pub enum UserEventKind {
    Join,
    Update,
    Leave,
}

/// One outbound notification to the layer that renders the state.
#[derive(Debug)]
pub enum Notification {
    /// An authentication-flow failure; `critical` marks the failures
    /// after which the connect attempt cannot proceed.
    AuthErrorNote { critical: bool, error: AuthError },
    /// An IPC failure; `critical` as above.
    IpcErrorNote { critical: bool, error: IpcError },
    /// A read from the event stream failed; the loop goes on.
    ReceiveErrorNote { message: String },
    VcSelect { in_vc: bool },
    VcInfo { name: String, users: Vec<Member> },
    VcMuteUpdate { mute: bool, deaf: bool },
    VcUser { event: UserEventKind, user_id: String, member: Option<Member> },
    VcSpeak { user_id: String, is_me: bool, speaking: bool },
}

/// The mathematical value of a [`Notification`].
#[verifier::ext_equal]
pub enum NotificationView {
    AuthErrorNote { critical: bool, error: AuthErrorView },
    IpcErrorNote { critical: bool, error: IpcErrorView },
    ReceiveErrorNote { message: Seq<char> },
    VcSelect { in_vc: bool },
    VcInfo { name: Seq<char>, users: Seq<MemberView> },
    VcMuteUpdate { mute: bool, deaf: bool },
    VcUser { event: UserEventKind, user_id: Seq<char>, member: Option<MemberView> },
    VcSpeak { user_id: Seq<char>, is_me: bool, speaking: bool },
}

impl View for Notification {
    type V = NotificationView;

    open spec fn view(&self) -> NotificationView {
        match self {
            Notification::AuthErrorNote { critical, error } => NotificationView::AuthErrorNote {
                critical: *critical,
                error: error@,
            },
            Notification::IpcErrorNote { critical, error } => NotificationView::IpcErrorNote {
                critical: *critical,
                error: error@,
            },
            Notification::ReceiveErrorNote { message } => NotificationView::ReceiveErrorNote {
                message: message@,
            },
            Notification::VcSelect { in_vc } => NotificationView::VcSelect { in_vc: *in_vc },
            Notification::VcInfo { name, users } => NotificationView::VcInfo {
                name: name@,
                users: users.deep_view(),
            },
            Notification::VcMuteUpdate { mute, deaf } => NotificationView::VcMuteUpdate {
                mute: *mute,
                deaf: *deaf,
            },
            Notification::VcUser { event, user_id, member } => NotificationView::VcUser {
                event: *event,
                user_id: user_id@,
                member: member.deep_view(),
            },
            Notification::VcSpeak { user_id, is_me, speaking } => NotificationView::VcSpeak {
                user_id: user_id@,
                is_me: *is_me,
                speaking: *speaking,
            },
        }
    }
}

impl DeepView for Notification {
    type V = NotificationView;

    open spec fn deep_view(&self) -> NotificationView {
        self.view()
    }
}

/// One action the surrounding process must perform for the machine.
#[derive(Debug)]
pub enum Action {
    /// Raise a notification.
    Notify { notification: Notification },
    /// Post a refresh-token grant; answer with `RefreshOutcome`.
    RefreshToken { refresh_token: String },
    /// Exchange an authorization code; answer with `ExchangeOutcome`.
    ExchangeCode { code: String },
    /// Store the rotated refresh token; answer with `PersistOutcome`.
    /// Ordered before the access token it came with is used anywhere.
    PersistRefreshToken { refresh_token: String },
    /// Send the `AUTHORIZE` request on the event connection.
    SendAuthorize,
    /// Send `AUTHENTICATE` with this access token on one connection.
    SendToken { channel: ChannelKind, access_token: String },
    /// Send one subscribe or unsubscribe order on the event connection.
    Subscribe { request: SubscriptionRequest },
    /// Send `GET_SELECTED_VOICE_CHANNEL` on the event connection.
    RequestSelectedChannel,
}

/// The mathematical value of an [`Action`].
#[verifier::ext_equal]
pub enum ActionView {
    Notify { notification: NotificationView },
    RefreshToken { refresh_token: Seq<char> },
    ExchangeCode { code: Seq<char> },
    PersistRefreshToken { refresh_token: Seq<char> },
    SendAuthorize,
    SendToken { channel: ChannelKind, access_token: Seq<char> },
    Subscribe { request: SubscriptionRequestView },
    RequestSelectedChannel,
}

impl View for Action {
    type V = ActionView;

    open spec fn view(&self) -> ActionView {
        match self {
            Action::Notify { notification } => ActionView::Notify { notification: notification@ },
            Action::RefreshToken { refresh_token } => ActionView::RefreshToken {
                refresh_token: refresh_token@,
            },
            Action::ExchangeCode { code } => ActionView::ExchangeCode { code: code@ },
            Action::PersistRefreshToken { refresh_token } => ActionView::PersistRefreshToken {
                refresh_token: refresh_token@,
            },
            Action::SendAuthorize => ActionView::SendAuthorize,
            Action::SendToken { channel, access_token } => ActionView::SendToken {
                channel: *channel,
                access_token: access_token@,
            },
            Action::Subscribe { request } => ActionView::Subscribe { request: request@ },
            Action::RequestSelectedChannel => ActionView::RequestSelectedChannel,
        }
    }
}

impl DeepView for Action {
    type V = ActionView;

    open spec fn deep_view(&self) -> ActionView {
        self.view()
    }
}

/// One input to the machine: a decoded message from the event stream, or
/// the outcome of outside work the machine ordered earlier.
#[derive(Debug)]
pub enum SessionInput {
    /// Begin a connect attempt, with the stored refresh token if the
    /// credential store holds one.
    Connect { stored_refresh_token: Option<String> },
    /// What the refresh-token grant returned.
    RefreshOutcome { result: Result<TokenData, AuthError> },
    /// What the authorization-code exchange returned.
    ExchangeOutcome { result: Result<TokenData, AuthError> },
    /// Whether storing the rotated refresh token succeeded.
    PersistOutcome { ok: bool, message: String },
    /// One decoded message from the event stream.
    HostMessage { message: IncomingMessage },
    /// A read from the event stream failed.
    ReceiveFailure { message: String },
    /// The event connection was closed; the session is over.
    ConnectionClosed,
}

/// The mathematical value of a [`SessionInput`].
#[verifier::ext_equal]
pub enum SessionInputView {
    Connect { stored_refresh_token: Option<Seq<char>> },
    RefreshOutcome { result: Result<TokenDataView, AuthErrorView> },
    ExchangeOutcome { result: Result<TokenDataView, AuthErrorView> },
    PersistOutcome { ok: bool, message: Seq<char> },
    HostMessage { message: IncomingMessageView },
    ReceiveFailure { message: Seq<char> },
    ConnectionClosed,
}

impl View for SessionInput {
    type V = SessionInputView;

    open spec fn view(&self) -> SessionInputView {
        match self {
            SessionInput::Connect { stored_refresh_token } => SessionInputView::Connect {
                stored_refresh_token: stored_refresh_token.deep_view(),
            },
            SessionInput::RefreshOutcome { result } => SessionInputView::RefreshOutcome {
                result: match result {
                    Ok(t) => Ok(t.deep_view()),
                    Err(e) => Err(e.deep_view()),
                },
            },
            SessionInput::ExchangeOutcome { result } => SessionInputView::ExchangeOutcome {
                result: match result {
                    Ok(t) => Ok(t.deep_view()),
                    Err(e) => Err(e.deep_view()),
                },
            },
            SessionInput::PersistOutcome { ok, message } => SessionInputView::PersistOutcome {
                ok: *ok,
                message: message@,
            },
            SessionInput::HostMessage { message } => SessionInputView::HostMessage {
                message: message@,
            },
            SessionInput::ReceiveFailure { message } => SessionInputView::ReceiveFailure {
                message: message@,
            },
            SessionInput::ConnectionClosed => SessionInputView::ConnectionClosed,
        }
    }
}

impl DeepView for SessionInput {
    type V = SessionInputView;

    open spec fn deep_view(&self) -> SessionInputView {
        self.view()
    }
}

/// The mathematical value of a [`Session`].
#[verifier::ext_equal]
pub struct SessionView {
    pub phase: Phase,
    pub user_id: Option<Seq<char>>,
    pub channel_id: Option<Seq<char>>,
    pub members: Map<Seq<char>, MemberView>,
}

/// The five per-channel subscription orders as actions, in issue order.
pub open spec fn subscribe_actions(channel_id: Seq<char>, subscribe: bool) -> Seq<ActionView> {
    channel_event_requests_spec(channel_id, subscribe).map_values(
        |r: SubscriptionRequestView| ActionView::Subscribe { request: r },
    )
}

/// A session-global subscription order (empty argument object).
pub open spec fn global_subscribe_action(event: DispatchEventName) -> ActionView {
    ActionView::Subscribe {
        request: SubscriptionRequestView { event, channel_id: None, subscribe: true },
    }
}

/// The model transition for the start of a connect attempt.
pub open spec fn step_connect(s: SessionView, stored: Option<Seq<char>>) -> (SessionView, Seq<
    ActionView,
>) {
    let base = SessionView {
        phase: Phase::Connecting,
        user_id: None,
        channel_id: None,
        members: Map::empty(),
    };
    match stored {
        Some(t) => (
            SessionView { phase: Phase::ReAuthenticating, ..base },
            seq![ActionView::RefreshToken { refresh_token: t }],
        ),
        None => (
            SessionView { phase: Phase::Authorizing, ..base },
            seq![ActionView::SendAuthorize],
        ),
    }
}

/// The actions that present a fresh token pair: persist the rotated
/// refresh token first, then authenticate both connections with the
/// access token.
pub open spec fn present_tokens_actions(t: TokenDataView) -> Seq<ActionView> {
    seq![
        ActionView::PersistRefreshToken { refresh_token: t.refresh_token },
        ActionView::SendToken { channel: ChannelKind::Event, access_token: t.access_token },
        ActionView::SendToken { channel: ChannelKind::Command, access_token: t.access_token },
    ]
}

/// The model transition for the refresh-token grant's outcome.  A failed
/// refresh falls back to the interactive authorize flow, exactly once.
pub open spec fn step_refresh_outcome(
    s: SessionView,
    result: Result<TokenDataView, AuthErrorView>,
) -> (SessionView, Seq<ActionView>) {
    if s.phase != Phase::ReAuthenticating {
        (s, Seq::empty())
    } else {
        match result {
            Ok(t) => (
                SessionView { phase: Phase::Authenticated, ..s },
                present_tokens_actions(t),
            ),
            Err(e) => (
                SessionView { phase: Phase::Authorizing, ..s },
                seq![
                    ActionView::Notify {
                        notification: NotificationView::AuthErrorNote { critical: false, error: e },
                    },
                    ActionView::SendAuthorize,
                ],
            ),
        }
    }
}

/// The model transition for the authorization-code exchange's outcome.
/// A failed exchange is terminal for the attempt.
pub open spec fn step_exchange_outcome(
    s: SessionView,
    result: Result<TokenDataView, AuthErrorView>,
) -> (SessionView, Seq<ActionView>) {
    if s.phase != Phase::Authorizing {
        (s, Seq::empty())
    } else {
        match result {
            Ok(t) => (
                SessionView { phase: Phase::Authenticated, ..s },
                present_tokens_actions(t),
            ),
            Err(e) => (
                s,
                seq![
                    ActionView::Notify {
                        notification: NotificationView::AuthErrorNote { critical: true, error: e },
                    },
                ],
            ),
        }
    }
}

/// The model transition for the persist outcome: a failure to store the
/// rotated token is reported and the session goes on.
pub open spec fn step_persist_outcome(s: SessionView, ok: bool, message: Seq<char>) -> (
    SessionView,
    Seq<ActionView>,
) {
    if ok {
        (s, Seq::empty())
    } else {
        (
            s,
            seq![
                ActionView::Notify {
                    notification: NotificationView::AuthErrorNote {
                        critical: false,
                        error: AuthErrorView { error_type: AuthErrorType::ConfigSave, message },
                    },
                },
            ],
        )
    }
}

/// The model transition for one decoded message from the event stream.
pub open spec fn step_message(s: SessionView, m: IncomingMessageView) -> (SessionView, Seq<
    ActionView,
>) {
    match m {
        IncomingMessageView::AuthorizeCode { code } => (
            s,
            seq![ActionView::ExchangeCode { code }],
        ),
        IncomingMessageView::Authenticated { user_id } => (
            SessionView { phase: Phase::Subscribed, user_id: Some(user_id), ..s },
            seq![
                global_subscribe_action(DispatchEventName::VoiceSettingsUpdate),
                global_subscribe_action(DispatchEventName::VoiceChannelSelect),
                ActionView::RequestSelectedChannel,
            ],
        ),
        IncomingMessageView::SelectedChannel { channel } => match channel {
            None => (
                SessionView {
                    phase: Phase::Subscribed,
                    channel_id: None,
                    members: Map::empty(),
                    ..s
                },
                seq![
                    ActionView::Notify { notification: NotificationView::VcSelect { in_vc: false } },
                ],
            ),
            Some(ci) => (
                SessionView { phase: Phase::ChannelJoined, channel_id: Some(ci.id), ..s },
                seq![
                    ActionView::Notify { notification: NotificationView::VcSelect { in_vc: true } },
                    ActionView::Notify {
                        notification: NotificationView::VcInfo {
                            name: ci.name,
                            users: ci.voice_states,
                        },
                    },
                ] + subscribe_actions(ci.id, true),
            ),
        },
        IncomingMessageView::ErrorEvent { source } => match source {
            ErrorSource::Authorize => (
                s,
                seq![
                    ActionView::Notify {
                        notification: NotificationView::IpcErrorNote {
                            critical: true,
                            error: IpcErrorView {
                                error_type: IpcErrorType::Authorize,
                                message: "User cancelled the app authorization."@,
                                payload: None,
                            },
                        },
                    },
                ],
            ),
            ErrorSource::Subscribe => (
                s,
                seq![
                    ActionView::Notify {
                        notification: NotificationView::IpcErrorNote {
                            critical: false,
                            error: IpcErrorView {
                                error_type: IpcErrorType::Subscribe,
                                message: "Failed to subscribe to event."@,
                                payload: None,
                            },
                        },
                    },
                ],
            ),
            ErrorSource::Other => (s, Seq::empty()),
        },
        IncomingMessageView::VoiceSettingsUpdate { mute, deaf } => (
            s,
            seq![
                ActionView::Notify { notification: NotificationView::VcMuteUpdate { mute, deaf } },
            ],
        ),
        IncomingMessageView::VoiceChannelSelect { channel_id } => match channel_id {
            None => (
                SessionView {
                    phase: Phase::Subscribed,
                    channel_id: None,
                    members: Map::empty(),
                    ..s
                },
                seq![
                    ActionView::Notify { notification: NotificationView::VcSelect { in_vc: false } },
                ] + (match s.channel_id {
                    Some(prev) => subscribe_actions(prev, false),
                    None => Seq::empty(),
                }),
            ),
            Some(id) => (
                SessionView {
                    phase: Phase::ChannelJoined,
                    channel_id: Some(id),
                    members: Map::empty(),
                    ..s
                },
                seq![
                    ActionView::Notify { notification: NotificationView::VcSelect { in_vc: true } },
                    ActionView::RequestSelectedChannel,
                ],
            ),
        },
        IncomingMessageView::VoiceStateCreate { member } => step_member_upsert(
            s,
            member,
            UserEventKind::Join,
        ),
        IncomingMessageView::VoiceStateUpdate { member } => step_member_upsert(
            s,
            member,
            UserEventKind::Update,
        ),
        IncomingMessageView::VoiceStateDelete { user_id } => {
            if s.user_id == Some(user_id) {
                (s, Seq::empty())
            } else {
                (
                    SessionView { members: s.members.remove(user_id), ..s },
                    seq![
                        ActionView::Notify {
                            notification: NotificationView::VcUser {
                                event: UserEventKind::Leave,
                                user_id,
                                member: None,
                            },
                        },
                    ],
                )
            }
        },
        IncomingMessageView::SpeakingStart { user_id } => step_speaking(s, user_id, true),
        IncomingMessageView::SpeakingStop { user_id } => step_speaking(s, user_id, false),
        IncomingMessageView::Unknown => (s, Seq::empty()),
    }
}

/// A create or update event: recorded and reported unless it describes
/// this session's own user.
pub open spec fn step_member_upsert(s: SessionView, member: MemberView, kind: UserEventKind) -> (
    SessionView,
    Seq<ActionView>,
) {
    if s.user_id == Some(member.id) {
        (s, Seq::empty())
    } else {
        (
            SessionView { members: s.members.insert(member.id, member), ..s },
            seq![
                ActionView::Notify {
                    notification: NotificationView::VcUser {
                        event: kind,
                        user_id: member.id,
                        member: Some(member),
                    },
                },
            ],
        )
    }
}

/// A speaking event: the flag is recorded for a known member and the
/// change is reported, tagged with whether it is this session's user.
pub open spec fn step_speaking(s: SessionView, user_id: Seq<char>, speaking: bool) -> (
    SessionView,
    Seq<ActionView>,
) {
    (
        SessionView { members: set_speaking_map(s.members, user_id, speaking), ..s },
        seq![
            ActionView::Notify {
                notification: NotificationView::VcSpeak {
                    user_id,
                    is_me: s.user_id == Some(user_id),
                    speaking,
                },
            },
        ],
    )
}

/// The model transition of the whole machine.
pub open spec fn session_step(s: SessionView, input: SessionInputView) -> (SessionView, Seq<
    ActionView,
>) {
    match input {
        SessionInputView::Connect { stored_refresh_token } => step_connect(
            s,
            stored_refresh_token,
        ),
        SessionInputView::RefreshOutcome { result } => step_refresh_outcome(s, result),
        SessionInputView::ExchangeOutcome { result } => step_exchange_outcome(s, result),
        SessionInputView::PersistOutcome { ok, message } => step_persist_outcome(s, ok, message),
        SessionInputView::HostMessage { message } => step_message(s, message),
        SessionInputView::ReceiveFailure { message } => (
            s,
            seq![
                ActionView::Notify { notification: NotificationView::ReceiveErrorNote { message } },
            ],
        ),
        SessionInputView::ConnectionClosed => (
            SessionView {
                phase: Phase::Disconnected,
                user_id: None,
                channel_id: None,
                members: Map::empty(),
            },
            Seq::empty(),
        ),
    }
}

/// The presence state machine's state.
pub struct Session {
    phase: Phase,
    user_id: Option<String>,
    channel_id: Option<String>,
    members: MemberTable,
}

impl View for Session {
    type V = SessionView;

    closed spec fn view(&self) -> SessionView {
        SessionView {
            phase: self.phase,
            user_id: self.user_id.deep_view(),
            channel_id: self.channel_id.deep_view(),
            members: self.members.as_map(),
        }
    }
}

impl Session {
    /// The member table's entries are pairwise distinct.
    pub closed spec fn wf(&self) -> bool {
        self.members.wf()
    }

    /// A fresh session for one connect attempt: nothing known yet.
    pub fn new() -> (s: Session)
        ensures
            s.wf(),
            s@ == (SessionView {
                phase: Phase::Connecting,
                user_id: None,
                channel_id: None,
                members: Map::<Seq<char>, MemberView>::empty(),
            }),
    {
        Session { phase: Phase::Connecting, user_id: None, channel_id: None, members: MemberTable::new() }
    }

    pub fn phase(&self) -> (p: Phase)
        ensures
            p == self@.phase,
    {
        self.phase
    }

    /// The authenticated user, once the host has confirmed one.
    pub fn current_user_id(&self) -> (r: &Option<String>)
        ensures
            r.deep_view() == self@.user_id,
    {
        &self.user_id
    }

    /// The selected voice channel, while one is selected.
    pub fn current_channel_id(&self) -> (r: &Option<String>)
        ensures
            r.deep_view() == self@.channel_id,
    {
        &self.channel_id
    }

    /// Whether the member table currently holds `user_id`.
    pub fn has_member(&self, user_id: &String) -> (r: bool)
        requires
            self.wf(),
        ensures
            r == self@.members.contains_key(user_id@),
    {
        self.members.contains(user_id)
    }

    /// The recorded info for `user_id`, if the table holds that user.
    pub fn member(&self, user_id: &String) -> (r: Option<&Member>)
        requires
            self.wf(),
        ensures
            match r {
                Some(m) => self@.members.contains_key(user_id@) && m@ == self@.members[user_id@],
                None => !self@.members.contains_key(user_id@),
            },
    {
        self.members.get(user_id)
    }

    /// Whether `user_id` is this session's own user.
    fn is_self(&self, user_id: &String) -> (r: bool)
        ensures
            r == (self@.user_id == Some(user_id@)),
    {
        match &self.user_id {
            Some(u) => *u == *user_id,
            None => false,
        }
    }

    /// Feed one input; the machine updates its state and returns the
    /// actions to perform, in order.
    pub fn step(&mut self, input: SessionInput) -> (actions: Vec<Action>)
        requires
            old(self).wf(),
        ensures
            final(self).wf(),
            final(self)@ == session_step(old(self)@, input@).0,
            actions.deep_view() == session_step(old(self)@, input@).1,
    {
        match input {
            SessionInput::Connect { stored_refresh_token } => {
                self.user_id = None;
                self.channel_id = None;
                self.members.clear();
                let mut actions: Vec<Action> = Vec::new();
                match stored_refresh_token {
                    Some(refresh_token) => {
                        self.phase = Phase::ReAuthenticating;
                        actions.push(Action::RefreshToken { refresh_token });
                    },
                    None => {
                        self.phase = Phase::Authorizing;
                        actions.push(Action::SendAuthorize);
                    },
                }
                proof {
                    assert(self@ =~= session_step(old(self)@, input@).0);
                    assert(actions.deep_view() =~= session_step(old(self)@, input@).1);
                }
                actions
            },
            SessionInput::RefreshOutcome { result } => {
                let actions = self.token_grant_outcome(
                    result,
                    Phase::ReAuthenticating,
                    Ghost(session_step(old(self)@, input@)),
                );
                actions
            },
            SessionInput::ExchangeOutcome { result } => {
                let actions = self.token_grant_outcome(
                    result,
                    Phase::Authorizing,
                    Ghost(session_step(old(self)@, input@)),
                );
                actions
            },
            SessionInput::PersistOutcome { ok, message } => {
                let mut actions: Vec<Action> = Vec::new();
                if !ok {
                    actions.push(Action::Notify {
                        notification: Notification::AuthErrorNote {
                            critical: false,
                            error: AuthError { error_type: AuthErrorType::ConfigSave, message },
                        },
                    });
                }
                proof {
                    assert(actions.deep_view() =~= session_step(old(self)@, input@).1);
                }
                actions
            },
            SessionInput::HostMessage { message } => self.handle_message(message),
            SessionInput::ReceiveFailure { message } => {
                let mut actions: Vec<Action> = Vec::new();
                actions.push(Action::Notify {
                    notification: Notification::ReceiveErrorNote { message },
                });
                proof {
                    assert(actions.deep_view() =~= session_step(old(self)@, input@).1);
                }
                actions
            },
            SessionInput::ConnectionClosed => {
                self.phase = Phase::Disconnected;
                self.user_id = None;
                self.channel_id = None;
                self.members.clear();
                let actions: Vec<Action> = Vec::new();
                proof {
                    assert(self@ =~= session_step(old(self)@, input@).0);
                    assert(actions.deep_view() =~= session_step(old(self)@, input@).1);
                }
                actions
            },
        }
    }

    /// Shared handling of the two token grants' outcomes: on success,
    /// persist the rotated refresh token, then present the access token
    /// on both connections; on failure, what the grant's phase calls for.
    fn token_grant_outcome(
        &mut self,
        result: Result<TokenData, AuthError>,
        expected_phase: Phase,
        expected: Ghost<(SessionView, Seq<ActionView>)>,
    ) -> (actions: Vec<Action>)
        requires
            old(self).wf(),
            expected_phase == Phase::ReAuthenticating || expected_phase == Phase::Authorizing,
            expected@ == (if expected_phase == Phase::ReAuthenticating {
                step_refresh_outcome(
                    old(self)@,
                    match result {
                        Ok(t) => Ok::<TokenDataView, AuthErrorView>(t@),
                        Err(e) => Err::<TokenDataView, AuthErrorView>(e@),
                    },
                )
            } else {
                step_exchange_outcome(
                    old(self)@,
                    match result {
                        Ok(t) => Ok::<TokenDataView, AuthErrorView>(t@),
                        Err(e) => Err::<TokenDataView, AuthErrorView>(e@),
                    },
                )
            }),
        ensures
            final(self).wf(),
            final(self)@ == expected@.0,
            actions.deep_view() == expected@.1,
    {
        let mut actions: Vec<Action> = Vec::new();
        if self.phase != expected_phase {
            proof {
                assert(actions.deep_view() =~= expected@.1);
            }
            return actions;
        }
        match result {
            Ok(tokens) => {
                self.phase = Phase::Authenticated;
                let access_again = tokens.access_token.clone();
                actions.push(Action::PersistRefreshToken {
                    refresh_token: tokens.refresh_token,
                });
                actions.push(Action::SendToken {
                    channel: ChannelKind::Event,
                    access_token: tokens.access_token,
                });
                actions.push(Action::SendToken {
                    channel: ChannelKind::Command,
                    access_token: access_again,
                });
                proof {
                    assert(actions.deep_view() =~= expected@.1);
                }
            },
            Err(error) => {
                if expected_phase == Phase::ReAuthenticating {
                    self.phase = Phase::Authorizing;
                    actions.push(Action::Notify {
                        notification: Notification::AuthErrorNote { critical: false, error },
                    });
                    actions.push(Action::SendAuthorize);
                } else {
                    actions.push(Action::Notify {
                        notification: Notification::AuthErrorNote { critical: true, error },
                    });
                }
                proof {
                    assert(actions.deep_view() =~= expected@.1);
                }
            },
        }
        actions
    }

    /// Handle one decoded message from the event stream.
    fn handle_message(&mut self, message: IncomingMessage) -> (actions: Vec<Action>)
        requires
            old(self).wf(),
        ensures
            final(self).wf(),
            final(self)@ == step_message(old(self)@, message@).0,
            actions.deep_view() == step_message(old(self)@, message@).1,
    {
        let mut actions: Vec<Action> = Vec::new();
        match message {
            IncomingMessage::AuthorizeCode { code } => {
                actions.push(Action::ExchangeCode { code });
                proof {
                    assert(actions.deep_view() =~= step_message(old(self)@, message@).1);
                }
            },
            IncomingMessage::Authenticated { user_id } => {
                self.user_id = Some(user_id);
                self.phase = Phase::Subscribed;
                actions.push(Action::Subscribe {
                    request: SubscriptionRequest {
                        event: DispatchEventName::VoiceSettingsUpdate,
                        channel_id: None,
                        subscribe: true,
                    },
                });
                actions.push(Action::Subscribe {
                    request: SubscriptionRequest {
                        event: DispatchEventName::VoiceChannelSelect,
                        channel_id: None,
                        subscribe: true,
                    },
                });
                actions.push(Action::RequestSelectedChannel);
                proof {
                    assert(actions.deep_view() =~= step_message(old(self)@, message@).1);
                }
            },
            IncomingMessage::SelectedChannel { channel } => match channel {
                None => {
                    self.phase = Phase::Subscribed;
                    self.channel_id = None;
                    self.members.clear();
                    actions.push(Action::Notify {
                        notification: Notification::VcSelect { in_vc: false },
                    });
                    proof {
                        assert(self@ =~= step_message(old(self)@, message@).0);
                        assert(actions.deep_view() =~= step_message(old(self)@, message@).1);
                    }
                },
                Some(ci) => {
                    self.phase = Phase::ChannelJoined;
                    self.channel_id = Some(ci.id.clone());
                    actions.push(Action::Notify {
                        notification: Notification::VcSelect { in_vc: true },
                    });
                    actions.push(Action::Notify {
                        notification: Notification::VcInfo {
                            name: ci.name,
                            users: ci.voice_states,
                        },
                    });
                    push_channel_event_actions(&mut actions, &ci.id, true);
                    proof {
                        assert(self@ =~= step_message(old(self)@, message@).0);
                        assert(actions.deep_view() =~= step_message(old(self)@, message@).1);
                    }
                },
            },
            IncomingMessage::ErrorEvent { source } => {
                match source {
                    ErrorSource::Authorize => {
                        actions.push(Action::Notify {
                            notification: Notification::IpcErrorNote {
                                critical: true,
                                error: crate::errors::IpcError {
                                    error_type: IpcErrorType::Authorize,
                                    message: String::from_str(
                                        "User cancelled the app authorization.",
                                    ),
                                    payload: None,
                                },
                            },
                        });
                    },
                    ErrorSource::Subscribe => {
                        actions.push(Action::Notify {
                            notification: Notification::IpcErrorNote {
                                critical: false,
                                error: crate::errors::IpcError {
                                    error_type: IpcErrorType::Subscribe,
                                    message: String::from_str("Failed to subscribe to event."),
                                    payload: None,
                                },
                            },
                        });
                    },
                    ErrorSource::Other => {},
                }
                proof {
                    assert(actions.deep_view() =~= step_message(old(self)@, message@).1);
                }
            },
            IncomingMessage::VoiceSettingsUpdate { mute, deaf } => {
                actions.push(Action::Notify {
                    notification: Notification::VcMuteUpdate { mute, deaf },
                });
                proof {
                    assert(actions.deep_view() =~= step_message(old(self)@, message@).1);
                }
            },
            IncomingMessage::VoiceChannelSelect { channel_id } => match channel_id {
                None => {
                    let prev = match &self.channel_id {
                        Some(p) => Some(p.clone()),
                        None => None,
                    };
                    self.phase = Phase::Subscribed;
                    self.channel_id = None;
                    self.members.clear();
                    actions.push(Action::Notify {
                        notification: Notification::VcSelect { in_vc: false },
                    });
                    if let Some(prev_id) = &prev {
                        push_channel_event_actions(&mut actions, prev_id, false);
                    }
                    proof {
                        assert(self@ =~= step_message(old(self)@, message@).0);
                        assert(actions.deep_view() =~= step_message(old(self)@, message@).1);
                    }
                },
                Some(id) => {
                    self.phase = Phase::ChannelJoined;
                    self.channel_id = Some(id);
                    self.members.clear();
                    actions.push(Action::Notify {
                        notification: Notification::VcSelect { in_vc: true },
                    });
                    actions.push(Action::RequestSelectedChannel);
                    proof {
                        assert(self@ =~= step_message(old(self)@, message@).0);
                        assert(actions.deep_view() =~= step_message(old(self)@, message@).1);
                    }
                },
            },
            IncomingMessage::VoiceStateCreate { member } => {
                self.member_upsert(&mut actions, member, UserEventKind::Join);
                proof {
                    assert(actions.deep_view() =~= step_message(old(self)@, message@).1);
                }
            },
            IncomingMessage::VoiceStateUpdate { member } => {
                self.member_upsert(&mut actions, member, UserEventKind::Update);
                proof {
                    assert(actions.deep_view() =~= step_message(old(self)@, message@).1);
                }
            },
            IncomingMessage::VoiceStateDelete { user_id } => {
                if !self.is_self(&user_id) {
                    self.members.remove(&user_id);
                    actions.push(Action::Notify {
                        notification: Notification::VcUser {
                            event: UserEventKind::Leave,
                            user_id,
                            member: None,
                        },
                    });
                }
                proof {
                    assert(self@ =~= step_message(old(self)@, message@).0);
                    assert(actions.deep_view() =~= step_message(old(self)@, message@).1);
                }
            },
            IncomingMessage::SpeakingStart { user_id } => {
                self.speaking(&mut actions, user_id, true);
                proof {
                    assert(actions.deep_view() =~= step_message(old(self)@, message@).1);
                }
            },
            IncomingMessage::SpeakingStop { user_id } => {
                self.speaking(&mut actions, user_id, false);
                proof {
                    assert(actions.deep_view() =~= step_message(old(self)@, message@).1);
                }
            },
            IncomingMessage::Unknown => {},
        }
        actions
    }

    /// Record and report a create or update event.
    fn member_upsert(&mut self, actions: &mut Vec<Action>, member: Member, kind: UserEventKind)
        requires
            old(self).wf(),
        ensures
            final(self).wf(),
            final(self)@ == step_member_upsert(old(self)@, member@, kind).0,
            final(actions).deep_view() == old(actions).deep_view() + step_member_upsert(
                old(self)@,
                member@,
                kind,
            ).1,
    {
        if self.is_self(&member.id) {
            proof {
                assert(actions.deep_view() =~= old(actions).deep_view() + step_member_upsert(
                    old(self)@,
                    member@,
                    kind,
                ).1);
            }
            return ;
        }
        let user_id = member.id.clone();
        let stored = member.duplicate();
        self.members.upsert(stored);
        actions.push(Action::Notify {
            notification: Notification::VcUser { event: kind, user_id, member: Some(member) },
        });
        proof {
            assert(self@ =~= step_member_upsert(old(self)@, member@, kind).0);
            assert(actions.deep_view() =~= old(actions).deep_view() + step_member_upsert(
                old(self)@,
                member@,
                kind,
            ).1);
        }
    }

    /// Record and report a speaking change.
    fn speaking(&mut self, actions: &mut Vec<Action>, user_id: String, speaking: bool)
        requires
            old(self).wf(),
        ensures
            final(self).wf(),
            final(self)@ == step_speaking(old(self)@, user_id@, speaking).0,
            final(actions).deep_view() == old(actions).deep_view() + step_speaking(
                old(self)@,
                user_id@,
                speaking,
            ).1,
    {
        let is_me = self.is_self(&user_id);
        self.members.set_speaking(&user_id, speaking);
        actions.push(Action::Notify {
            notification: Notification::VcSpeak { user_id, is_me, speaking },
        });
        proof {
            assert(self@ =~= step_speaking(old(self)@, user_id@, speaking).0);
            assert(actions.deep_view() =~= old(actions).deep_view() + step_speaking(
                old(self)@,
                user_id@,
                speaking,
            ).1);
        }
    }
}

/// The names under which notifications reach the layer that renders them.
#[derive(Clone, Copy, PartialEq, Eq, Debug, Structural)]
pub enum EventName {
    Error,
    CriticalError,
    VCSelect,
    VCInfo,
    VCMuteUpdate,
    VCUser,
    VCSpeak,
}

impl EventName {
    pub open spec fn name_spec(&self) -> Seq<char> {
        match self {
            EventName::Error => "error"@,
            EventName::CriticalError => "critical_error"@,
            EventName::VCSelect => "vc_select"@,
            EventName::VCInfo => "vc_info"@,
            EventName::VCMuteUpdate => "vc_mute_update"@,
            EventName::VCUser => "vc_user"@,
            EventName::VCSpeak => "vc_speak"@,
        }
    }

    /// The name as the rendering layer sees it.
    pub fn name(&self) -> (s: &'static str)
        ensures
            s@ == self.name_spec(),
    {
        match self {
            EventName::Error => "error",
            EventName::CriticalError => "critical_error",
            EventName::VCSelect => "vc_select",
            EventName::VCInfo => "vc_info",
            EventName::VCMuteUpdate => "vc_mute_update",
            EventName::VCUser => "vc_user",
            EventName::VCSpeak => "vc_speak",
        }
    }
}

/// Under which name a notification is raised: failures go out as `error`
/// or `critical_error` by their severity, everything else under its own
/// name.
pub open spec fn notification_event_name(n: NotificationView) -> EventName {
    match n {
        NotificationView::AuthErrorNote { critical, .. } => if critical {
            EventName::CriticalError
        } else {
            EventName::Error
        },
        NotificationView::IpcErrorNote { critical, .. } => if critical {
            EventName::CriticalError
        } else {
            EventName::Error
        },
        NotificationView::ReceiveErrorNote { .. } => EventName::CriticalError,
        NotificationView::VcSelect { .. } => EventName::VCSelect,
        NotificationView::VcInfo { .. } => EventName::VCInfo,
        NotificationView::VcMuteUpdate { .. } => EventName::VCMuteUpdate,
        NotificationView::VcUser { .. } => EventName::VCUser,
        NotificationView::VcSpeak { .. } => EventName::VCSpeak,
    }
}

impl Notification {
    /// Under which event name this notification is raised.
    pub fn event_name(&self) -> (e: EventName)
        ensures
            e == notification_event_name(self@),
    {
        match self {
            Notification::AuthErrorNote { critical, .. } => if *critical {
                EventName::CriticalError
            } else {
                EventName::Error
            },
            Notification::IpcErrorNote { critical, .. } => if *critical {
                EventName::CriticalError
            } else {
                EventName::Error
            },
            Notification::ReceiveErrorNote { .. } => EventName::CriticalError,
            Notification::VcSelect { .. } => EventName::VCSelect,
            Notification::VcInfo { .. } => EventName::VCInfo,
            Notification::VcMuteUpdate { .. } => EventName::VCMuteUpdate,
            Notification::VcUser { .. } => EventName::VCUser,
            Notification::VcSpeak { .. } => EventName::VCSpeak,
        }
    }
}

/// How a failed send of a subscription order is reported: the
/// session-global subscriptions are part of the handshake and their loss
/// is critical; a per-channel order only degrades the membership view,
/// which is reported and lived with.
pub fn subscription_send_failure_note(request: &SubscriptionRequest, error: IpcError) -> (n:
    Notification)
    ensures
        n matches Notification::IpcErrorNote { critical, error: e } && e == error && critical == (
        request@.channel_id is None),
{
    Notification::IpcErrorNote { critical: request.channel_id.is_none(), error }
}

/// A failed send of a handshake message — authorize, authenticate, or
/// the selected-channel query — is critical for the connect attempt.
pub fn handshake_send_failure_note(error: IpcError) -> (n: Notification)
    ensures
        n matches Notification::IpcErrorNote { critical, error: e } && e == error && critical,
{
    Notification::IpcErrorNote { critical: true, error }
}

/// The push events that can arrive while the user stays in one channel:
/// membership changes, speaking changes, and settings changes.
pub open spec fn is_same_channel_push(m: IncomingMessageView) -> bool {
    ||| m is VoiceStateCreate
    ||| m is VoiceStateUpdate
    ||| m is VoiceStateDelete
    ||| m is SpeakingStart
    ||| m is SpeakingStop
    ||| m is VoiceSettingsUpdate
}

/// The session state after a sequence of host messages, with the actions
/// disregarded.
pub open spec fn run_messages(s: SessionView, msgs: Seq<IncomingMessageView>) -> SessionView
    decreases msgs.len(),
{
    if msgs.len() == 0 {
        s
    } else {
        step_message(run_messages(s, msgs.drop_last()), msgs.last()).0
    }
}

/// Whether the most recent membership event in `evs` about user `u` is a
/// create or an update, and not a delete.
pub open spec fn last_event_keeps(evs: Seq<IncomingMessageView>, u: Seq<char>) -> bool
    decreases evs.len(),
{
    if evs.len() == 0 {
        false
    } else {
        match evs.last() {
            IncomingMessageView::VoiceStateCreate { member } => if member.id == u {
                true
            } else {
                last_event_keeps(evs.drop_last(), u)
            },
            IncomingMessageView::VoiceStateUpdate { member } => if member.id == u {
                true
            } else {
                last_event_keeps(evs.drop_last(), u)
            },
            IncomingMessageView::VoiceStateDelete { user_id } => if user_id == u {
                false
            } else {
                last_event_keeps(evs.drop_last(), u)
            },
            _ => last_event_keeps(evs.drop_last(), u),
        }
    }
}

/// Law: run any sequence of same-channel push events against a session
/// whose member table is empty.  Afterwards the table contains exactly
/// the users whose most recent membership event was a create or update
/// and not a delete, excluding the session's own user; and the session's
/// own user is untouched by such events.
pub proof fn lemma_members_follow_events(
    s: SessionView,
    evs: Seq<IncomingMessageView>,
    u: Seq<char>,
)
    requires
        s.members == Map::<Seq<char>, MemberView>::empty(),
        forall|i: int| 0 <= i < evs.len() ==> is_same_channel_push(#[trigger] evs[i]),
    ensures
        run_messages(s, evs).user_id == s.user_id,
        run_messages(s, evs).members.contains_key(u) <==> (last_event_keeps(evs, u)
            && s.user_id != Some(u)),
    decreases evs.len(),
{
    if evs.len() > 0 {
        let prefix = evs.drop_last();
        assert forall|i: int| 0 <= i < prefix.len() implies is_same_channel_push(
            #[trigger] prefix[i],
        ) by {
            assert(prefix[i] == evs[i]);
        }
        lemma_members_follow_events(s, prefix, u);
        let s1 = run_messages(s, prefix);
        assert(is_same_channel_push(evs[evs.len() - 1]));
        match evs.last() {
            IncomingMessageView::VoiceStateCreate { member } => {
                assert(run_messages(s, evs) == step_member_upsert(s1, member, UserEventKind::Join).0);
            },
            IncomingMessageView::VoiceStateUpdate { member } => {
                assert(run_messages(s, evs) == step_member_upsert(
                    s1,
                    member,
                    UserEventKind::Update,
                ).0);
            },
            IncomingMessageView::VoiceStateDelete { user_id } => {
                assert(run_messages(s, evs).members == (if s1.user_id == Some(user_id) {
                    s1.members
                } else {
                    s1.members.remove(user_id)
                }));
            },
            IncomingMessageView::SpeakingStart { user_id } => {
                assert(run_messages(s, evs).members == set_speaking_map(s1.members, user_id, true));
            },
            IncomingMessageView::SpeakingStop { user_id } => {
                assert(run_messages(s, evs).members == set_speaking_map(s1.members, user_id, false));
            },
            _ => {},
        }
    }
}

/// How many times a list of actions starts the interactive authorize
/// flow.
pub open spec fn count_authorize(a: Seq<ActionView>) -> int
    decreases a.len(),
{
    if a.len() == 0 {
        0
    } else {
        count_authorize(a.drop_last()) + if a.last() is SendAuthorize {
            1int
        } else {
            0int
        }
    }
}

/// Law (reauthentication, successful): a connect attempt that finds a
/// stored refresh token refreshes it and presents the fresh tokens —
/// persisting the rotated refresh token before either use of the access
/// token — and never starts the interactive authorize flow.
pub proof fn lemma_reauth_skips_authorize(s: SessionView, stored: Seq<char>, tokens: TokenDataView)
    ensures
        ({
            let (s1, a1) = session_step(
                s,
                SessionInputView::Connect { stored_refresh_token: Some(stored) },
            );
            let (s2, a2) = session_step(s1, SessionInputView::RefreshOutcome { result: Ok(tokens) });
            &&& s1.phase == Phase::ReAuthenticating
            &&& a1 == seq![ActionView::RefreshToken { refresh_token: stored }]
            &&& s2.phase == Phase::Authenticated
            &&& a2 == present_tokens_actions(tokens)
            &&& count_authorize(a1) == 0
            &&& count_authorize(a2) == 0
        }),
{
    reveal_with_fuel(count_authorize, 5);
    let (s1, a1) = session_step(
        s,
        SessionInputView::Connect { stored_refresh_token: Some(stored) },
    );
    let (s2, a2) = session_step(s1, SessionInputView::RefreshOutcome { result: Ok(tokens) });
    assert(a1.drop_last() =~= Seq::<ActionView>::empty());
    assert(a2.drop_last().drop_last().drop_last() =~= Seq::<ActionView>::empty());
}

/// Law (reauthentication, failed): when the refresh fails, the session
/// falls back to the interactive authorize flow exactly once for this
/// connect attempt.
pub proof fn lemma_refresh_failure_falls_back_once(
    s: SessionView,
    stored: Seq<char>,
    e: AuthErrorView,
)
    ensures
        ({
            let (s1, a1) = session_step(
                s,
                SessionInputView::Connect { stored_refresh_token: Some(stored) },
            );
            let (s2, a2) = session_step(s1, SessionInputView::RefreshOutcome { result: Err(e) });
            &&& s1.phase == Phase::ReAuthenticating
            &&& count_authorize(a1) == 0
            &&& s2.phase == Phase::Authorizing
            &&& count_authorize(a2) == 1
        }),
{
    reveal_with_fuel(count_authorize, 4);
    let (s1, a1) = session_step(
        s,
        SessionInputView::Connect { stored_refresh_token: Some(stored) },
    );
    let (s2, a2) = session_step(s1, SessionInputView::RefreshOutcome { result: Err(e) });
    assert(a1.drop_last() =~= Seq::<ActionView>::empty());
    assert(a2.drop_last().drop_last() =~= Seq::<ActionView>::empty());
}

/// Append the five per-channel subscription orders for `channel_id`.
fn push_channel_event_actions(actions: &mut Vec<Action>, channel_id: &String, subscribe: bool)
    ensures
        final(actions).deep_view() == old(actions).deep_view() + subscribe_actions(
            channel_id@,
            subscribe,
        ),
{
    let mut reqs = channel_event_requests(channel_id, subscribe);
    proof {
        assert(reqs.deep_view().len() == 5);
        assert(reqs@.len() == 5);
    }
    let r0 = reqs.remove(0);
    let r1 = reqs.remove(0);
    let r2 = reqs.remove(0);
    let r3 = reqs.remove(0);
    let r4 = reqs.remove(0);
    actions.push(Action::Subscribe { request: r0 });
    actions.push(Action::Subscribe { request: r1 });
    actions.push(Action::Subscribe { request: r2 });
    actions.push(Action::Subscribe { request: r3 });
    actions.push(Action::Subscribe { request: r4 });
    proof {
        assert(actions.deep_view() =~= old(actions).deep_view() + subscribe_actions(
            channel_id@,
            subscribe,
        ));
    }
}

} // verus!
