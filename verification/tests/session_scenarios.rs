//! Scenario tests for the presence state machine: the connect flows, the
//! channel selection replies and events, membership, and speaking.

use discord_vc_status::auth::TokenData;
use discord_vc_status::channel::connect_error;
use discord_vc_status::errors::{AuthError, AuthErrorType, IpcErrorType};
use discord_vc_status::incoming::{ChannelInfo, ErrorSource, IncomingMessage};
use discord_vc_status::member::Member;
use discord_vc_status::message::DispatchEventName;
use discord_vc_status::session::{
    handshake_send_failure_note, subscription_send_failure_note, Action, ChannelKind, EventName,
    Notification, Phase, Session, SessionInput, UserEventKind,
};
use discord_vc_status::subscriptions::SubscriptionRequest;

fn member(id: &str) -> Member {
    Member {
        id: id.to_string(),
        username: format!("user-{id}"),
        avatar: format!("avatar-{id}"),
        nick: format!("nick-{id}"),
        mute: false,
        self_mute: false,
        deaf: false,
        self_deaf: false,
        speaking: false,
    }
}

fn host(message: IncomingMessage) -> SessionInput {
    SessionInput::HostMessage { message }
}

/// Drive a fresh session to the subscribed phase with user id `me`.
fn subscribed_session(me: &str) -> Session {
    let mut s = Session::new();
    s.step(SessionInput::Connect {
        stored_refresh_token: Some("stored-refresh".to_string()),
    });
    s.step(SessionInput::RefreshOutcome {
        result: Ok(TokenData {
            access_token: "access-1".to_string(),
            refresh_token: "refresh-1".to_string(),
        }),
    });
    s.step(host(IncomingMessage::Authenticated { user_id: me.to_string() }));
    s
}

#[test]
fn connect_with_stored_token_refreshes() {
    let mut s = Session::new();
    assert_eq!(s.phase(), Phase::Connecting);
    let actions = s.step(SessionInput::Connect {
        stored_refresh_token: Some("old-refresh".to_string()),
    });
    assert_eq!(s.phase(), Phase::ReAuthenticating);
    assert_eq!(actions.len(), 1);
    assert!(matches!(
        &actions[0],
        Action::RefreshToken { refresh_token } if refresh_token == "old-refresh"
    ));
}

#[test]
fn connect_without_stored_token_authorizes() {
    let mut s = Session::new();
    let actions = s.step(SessionInput::Connect { stored_refresh_token: None });
    assert_eq!(s.phase(), Phase::Authorizing);
    assert_eq!(actions.len(), 1);
    assert!(matches!(&actions[0], Action::SendAuthorize));
}

#[test]
fn refresh_success_persists_before_sending() {
    let mut s = Session::new();
    s.step(SessionInput::Connect {
        stored_refresh_token: Some("old-refresh".to_string()),
    });
    let actions = s.step(SessionInput::RefreshOutcome {
        result: Ok(TokenData {
            access_token: "access-2".to_string(),
            refresh_token: "refresh-2".to_string(),
        }),
    });
    assert_eq!(s.phase(), Phase::Authenticated);
    assert_eq!(actions.len(), 3);
    assert!(matches!(
        &actions[0],
        Action::PersistRefreshToken { refresh_token } if refresh_token == "refresh-2"
    ));
    assert!(matches!(
        &actions[1],
        Action::SendToken { channel: ChannelKind::Event, access_token } if access_token == "access-2"
    ));
    assert!(matches!(
        &actions[2],
        Action::SendToken { channel: ChannelKind::Command, access_token } if access_token == "access-2"
    ));
    // the reauthentication path never started the interactive flow
    assert!(!actions.iter().any(|a| matches!(a, Action::SendAuthorize)));
}

#[test]
fn refresh_failure_falls_back_to_authorize_once() {
    let mut s = Session::new();
    s.step(SessionInput::Connect {
        stored_refresh_token: Some("expired-refresh".to_string()),
    });
    let actions = s.step(SessionInput::RefreshOutcome {
        result: Err(AuthError {
            error_type: AuthErrorType::RefreshToken,
            message: "expired".to_string(),
        }),
    });
    assert_eq!(s.phase(), Phase::Authorizing);
    let authorize_count = actions
        .iter()
        .filter(|a| matches!(a, Action::SendAuthorize))
        .count();
    assert_eq!(authorize_count, 1);
}

#[test]
fn authorize_code_is_exchanged() {
    let mut s = Session::new();
    s.step(SessionInput::Connect { stored_refresh_token: None });
    let actions = s.step(host(IncomingMessage::AuthorizeCode { code: "grant-me".to_string() }));
    assert_eq!(actions.len(), 1);
    assert!(matches!(&actions[0], Action::ExchangeCode { code } if code == "grant-me"));
}

#[test]
fn exchange_failure_is_critical() {
    let mut s = Session::new();
    s.step(SessionInput::Connect { stored_refresh_token: None });
    let actions = s.step(SessionInput::ExchangeOutcome {
        result: Err(AuthError {
            error_type: AuthErrorType::TokenFetch,
            message: "cancelled".to_string(),
        }),
    });
    assert_eq!(actions.len(), 1);
    match &actions[0] {
        Action::Notify { notification } => {
            assert_eq!(notification.event_name(), EventName::CriticalError);
        }
        other => panic!("unexpected action: {other:?}"),
    }
}

#[test]
fn authenticate_subscribes_and_queries_channel() {
    let mut s = subscribed_session("42");
    assert_eq!(s.phase(), Phase::Subscribed);
    assert_eq!(s.current_user_id().as_deref(), Some("42"));

    // re-run the last step on a fresh session to inspect its actions
    let mut s2 = Session::new();
    s2.step(SessionInput::Connect { stored_refresh_token: None });
    let actions = s2.step(host(IncomingMessage::Authenticated { user_id: "42".to_string() }));
    assert_eq!(actions.len(), 3);
    assert!(matches!(
        &actions[0],
        Action::Subscribe { request } if request.event == DispatchEventName::VoiceSettingsUpdate
            && request.channel_id.is_none() && request.subscribe
    ));
    assert!(matches!(
        &actions[1],
        Action::Subscribe { request } if request.event == DispatchEventName::VoiceChannelSelect
            && request.channel_id.is_none() && request.subscribe
    ));
    assert!(matches!(&actions[2], Action::RequestSelectedChannel));
    let _ = s;
}

#[test]
fn selected_channel_null_emits_not_in_vc_and_does_not_subscribe() {
    let mut s = subscribed_session("42");
    let actions = s.step(host(IncomingMessage::SelectedChannel { channel: None }));
    assert_eq!(actions.len(), 1);
    match &actions[0] {
        Action::Notify { notification } => match notification {
            Notification::VcSelect { in_vc } => assert!(!in_vc),
            other => panic!("unexpected notification: {other:?}"),
        },
        other => panic!("unexpected action: {other:?}"),
    }
    assert!(s.current_channel_id().is_none());
}

#[test]
fn selected_channel_reply_emits_info_and_subscribes_five() {
    let mut s = subscribed_session("42");
    let actions = s.step(host(IncomingMessage::SelectedChannel {
        channel: Some(ChannelInfo {
            id: "123".to_string(),
            name: "General".to_string(),
            voice_states: vec![member("9")],
        }),
    }));
    assert_eq!(s.phase(), Phase::ChannelJoined);
    assert_eq!(s.current_channel_id().as_deref(), Some("123"));
    assert_eq!(actions.len(), 7);
    assert!(matches!(
        &actions[0],
        Action::Notify { notification: Notification::VcSelect { in_vc: true } }
    ));
    match &actions[1] {
        Action::Notify { notification: Notification::VcInfo { name, users } } => {
            assert_eq!(name, "General");
            assert_eq!(users.len(), 1);
            assert_eq!(users[0].id, "9");
        }
        other => panic!("unexpected action: {other:?}"),
    }
    let expected_order = [
        DispatchEventName::VoiceStateCreate,
        DispatchEventName::VoiceStateUpdate,
        DispatchEventName::VoiceStateDelete,
        DispatchEventName::SpeakingStart,
        DispatchEventName::SpeakingStop,
    ];
    for (i, event) in expected_order.iter().enumerate() {
        match &actions[2 + i] {
            Action::Subscribe { request } => {
                assert_eq!(request.event, *event);
                assert_eq!(request.channel_id.as_deref(), Some("123"));
                assert!(request.subscribe);
            }
            other => panic!("unexpected action: {other:?}"),
        }
    }
}

#[test]
fn channel_select_null_unsubscribes_previous_channel() {
    let mut s = subscribed_session("42");
    s.step(host(IncomingMessage::SelectedChannel {
        channel: Some(ChannelInfo {
            id: "123".to_string(),
            name: "General".to_string(),
            voice_states: Vec::new(),
        }),
    }));
    let actions = s.step(host(IncomingMessage::VoiceChannelSelect { channel_id: None }));
    assert!(s.current_channel_id().is_none());
    assert_eq!(s.phase(), Phase::Subscribed);
    assert_eq!(actions.len(), 6);
    assert!(matches!(
        &actions[0],
        Action::Notify { notification: Notification::VcSelect { in_vc: false } }
    ));
    for action in &actions[1..] {
        match action {
            Action::Subscribe { request } => {
                assert_eq!(request.channel_id.as_deref(), Some("123"));
                assert!(!request.subscribe);
            }
            other => panic!("unexpected action: {other:?}"),
        }
    }
}

#[test]
fn channel_select_new_channel_queries_again() {
    let mut s = subscribed_session("42");
    let actions = s.step(host(IncomingMessage::VoiceChannelSelect {
        channel_id: Some("456".to_string()),
    }));
    assert_eq!(s.current_channel_id().as_deref(), Some("456"));
    assert_eq!(actions.len(), 2);
    assert!(matches!(
        &actions[0],
        Action::Notify { notification: Notification::VcSelect { in_vc: true } }
    ));
    assert!(matches!(&actions[1], Action::RequestSelectedChannel));
}

#[test]
fn members_follow_create_update_delete() {
    let mut s = subscribed_session("42");
    s.step(host(IncomingMessage::VoiceStateCreate { member: member("1") }));
    s.step(host(IncomingMessage::VoiceStateCreate { member: member("2") }));
    let mut updated = member("1");
    updated.nick = "renamed".to_string();
    s.step(host(IncomingMessage::VoiceStateUpdate { member: updated }));
    // speaking and settings events in between do not change membership
    s.step(host(IncomingMessage::SpeakingStart { user_id: "2".to_string() }));
    s.step(host(IncomingMessage::VoiceSettingsUpdate { mute: true, deaf: false }));
    s.step(host(IncomingMessage::VoiceStateDelete { user_id: "2".to_string() }));
    // events about the session's own user are suppressed
    s.step(host(IncomingMessage::VoiceStateCreate { member: member("42") }));

    assert!(s.has_member(&"1".to_string()));
    assert!(!s.has_member(&"2".to_string()));
    assert!(!s.has_member(&"42".to_string()));
    let info = s.member(&"1".to_string()).expect("member 1 present");
    assert_eq!(info.nick, "renamed");
}

#[test]
fn member_events_emit_join_update_leave() {
    let mut s = subscribed_session("42");
    let a1 = s.step(host(IncomingMessage::VoiceStateCreate { member: member("7") }));
    assert_eq!(a1.len(), 1);
    assert!(matches!(
        &a1[0],
        Action::Notify { notification: Notification::VcUser { event: UserEventKind::Join, user_id, member: Some(_) } }
            if user_id == "7"
    ));
    let a2 = s.step(host(IncomingMessage::VoiceStateUpdate { member: member("7") }));
    assert!(matches!(
        &a2[0],
        Action::Notify { notification: Notification::VcUser { event: UserEventKind::Update, .. } }
    ));
    let a3 = s.step(host(IncomingMessage::VoiceStateDelete { user_id: "7".to_string() }));
    assert!(matches!(
        &a3[0],
        Action::Notify { notification: Notification::VcUser { event: UserEventKind::Leave, user_id, member: None } }
            if user_id == "7"
    ));
    let a4 = s.step(host(IncomingMessage::VoiceStateCreate { member: member("42") }));
    assert!(a4.is_empty());
}

#[test]
fn speaking_start_for_self_is_me() {
    let mut s = subscribed_session("42");
    let actions = s.step(host(IncomingMessage::SpeakingStart { user_id: "42".to_string() }));
    assert_eq!(actions.len(), 1);
    assert!(matches!(
        &actions[0],
        Action::Notify { notification: Notification::VcSpeak { user_id, is_me: true, speaking: true } }
            if user_id == "42"
    ));
}

#[test]
fn speaking_start_for_other_is_not_me() {
    let mut s = subscribed_session("42");
    s.step(host(IncomingMessage::VoiceStateCreate { member: member("9") }));
    let actions = s.step(host(IncomingMessage::SpeakingStart { user_id: "9".to_string() }));
    assert!(matches!(
        &actions[0],
        Action::Notify { notification: Notification::VcSpeak { user_id, is_me: false, speaking: true } }
            if user_id == "9"
    ));
    // the member table records the flag for a known member
    let info = s.member(&"9".to_string()).expect("member 9 present");
    assert!(info.speaking);
    let actions = s.step(host(IncomingMessage::SpeakingStop { user_id: "9".to_string() }));
    assert!(matches!(
        &actions[0],
        Action::Notify { notification: Notification::VcSpeak { speaking: false, .. } }
    ));
    let info = s.member(&"9".to_string()).expect("member 9 present");
    assert!(!info.speaking);
}

#[test]
fn error_event_for_authorize_is_critical() {
    let mut s = Session::new();
    s.step(SessionInput::Connect { stored_refresh_token: None });
    let actions = s.step(host(IncomingMessage::ErrorEvent { source: ErrorSource::Authorize }));
    assert_eq!(actions.len(), 1);
    match &actions[0] {
        Action::Notify { notification } => {
            assert_eq!(notification.event_name(), EventName::CriticalError);
            match notification {
                Notification::IpcErrorNote { critical: true, error } => {
                    assert!(matches!(error.error_type, IpcErrorType::Authorize));
                    assert_eq!(error.message, "User cancelled the app authorization.");
                }
                other => panic!("unexpected notification: {other:?}"),
            }
        }
        other => panic!("unexpected action: {other:?}"),
    }
}

#[test]
fn error_event_for_subscribe_is_not_fatal() {
    let mut s = subscribed_session("42");
    let actions = s.step(host(IncomingMessage::ErrorEvent { source: ErrorSource::Subscribe }));
    assert_eq!(actions.len(), 1);
    match &actions[0] {
        Action::Notify { notification } => {
            assert_eq!(notification.event_name(), EventName::Error);
            match notification {
                Notification::IpcErrorNote { critical: false, error } => {
                    assert!(matches!(error.error_type, IpcErrorType::Subscribe));
                    assert_eq!(error.message, "Failed to subscribe to event.");
                }
                other => panic!("unexpected notification: {other:?}"),
            }
        }
        other => panic!("unexpected action: {other:?}"),
    }
}

#[test]
fn unknown_and_stray_inputs_are_ignored() {
    let mut s = subscribed_session("42");
    assert!(s.step(host(IncomingMessage::Unknown)).is_empty());
    // outcome inputs in the wrong phase do nothing
    assert!(s
        .step(SessionInput::RefreshOutcome {
            result: Ok(TokenData {
                access_token: "a".to_string(),
                refresh_token: "r".to_string(),
            }),
        })
        .is_empty());
    assert_eq!(s.phase(), Phase::Subscribed);
}

#[test]
fn receive_failure_is_reported_and_loop_goes_on() {
    let mut s = subscribed_session("42");
    let actions = s.step(SessionInput::ReceiveFailure { message: "short read".to_string() });
    assert_eq!(actions.len(), 1);
    match &actions[0] {
        Action::Notify { notification } => {
            assert_eq!(notification.event_name(), EventName::CriticalError);
            assert!(matches!(
                notification,
                Notification::ReceiveErrorNote { message } if message == "short read"
            ));
        }
        other => panic!("unexpected action: {other:?}"),
    }
    // the session state is untouched: the loop continues
    assert_eq!(s.phase(), Phase::Subscribed);
}

#[test]
fn persist_failure_is_reported_as_config_save() {
    let mut s = subscribed_session("42");
    let actions = s.step(SessionInput::PersistOutcome {
        ok: false,
        message: "store locked".to_string(),
    });
    assert_eq!(actions.len(), 1);
    match &actions[0] {
        Action::Notify { notification } => match notification {
            Notification::AuthErrorNote { critical: false, error } => {
                assert!(matches!(error.error_type, AuthErrorType::ConfigSave));
                assert_eq!(error.message, "store locked");
            }
            other => panic!("unexpected notification: {other:?}"),
        },
        other => panic!("unexpected action: {other:?}"),
    }
    assert!(s
        .step(SessionInput::PersistOutcome { ok: true, message: String::new() })
        .is_empty());
}

#[test]
fn connection_closed_resets_the_session() {
    let mut s = subscribed_session("42");
    s.step(host(IncomingMessage::VoiceStateCreate { member: member("9") }));
    let actions = s.step(SessionInput::ConnectionClosed);
    assert!(actions.is_empty());
    assert_eq!(s.phase(), Phase::Disconnected);
    assert!(s.current_user_id().is_none());
    assert!(s.current_channel_id().is_none());
    assert!(!s.has_member(&"9".to_string()));
}

#[test]
fn send_failure_notes_grade_by_scope() {
    let note = handshake_send_failure_note(connect_error("broken pipe".to_string()));
    assert_eq!(note.event_name(), EventName::CriticalError);

    let per_channel = SubscriptionRequest {
        event: DispatchEventName::SpeakingStart,
        channel_id: Some("123".to_string()),
        subscribe: true,
    };
    let note = subscription_send_failure_note(&per_channel, connect_error("x".to_string()));
    assert_eq!(note.event_name(), EventName::Error);

    let session_global = SubscriptionRequest {
        event: DispatchEventName::VoiceChannelSelect,
        channel_id: None,
        subscribe: true,
    };
    let note = subscription_send_failure_note(&session_global, connect_error("x".to_string()));
    assert_eq!(note.event_name(), EventName::CriticalError);
}
