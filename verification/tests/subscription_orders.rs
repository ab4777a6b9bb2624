//! Tests for the subscription manager: the fixed per-channel set, its
//! order, and the balance of subscribing then unsubscribing.

use discord_vc_status::message::{CommandArgs, CommandName, DispatchEventName};
use discord_vc_status::subscriptions::{
    channel_event_requests, subscription_payload, SubscriptionRequest,
};

const EXPECTED_ORDER: [DispatchEventName; 5] = [
    DispatchEventName::VoiceStateCreate,
    DispatchEventName::VoiceStateUpdate,
    DispatchEventName::VoiceStateDelete,
    DispatchEventName::SpeakingStart,
    DispatchEventName::SpeakingStop,
];

#[test]
fn five_events_in_fixed_order() {
    let reqs = channel_event_requests(&"123".to_string(), true);
    assert_eq!(reqs.len(), 5);
    for (req, event) in reqs.iter().zip(EXPECTED_ORDER.iter()) {
        assert_eq!(req.event, *event);
        assert_eq!(req.channel_id.as_deref(), Some("123"));
        assert!(req.subscribe);
    }
}

#[test]
fn subscribe_then_unsubscribe_balances_to_zero() {
    let mut sent = channel_event_requests(&"123".to_string(), true);
    sent.extend(channel_event_requests(&"123".to_string(), false));
    for event in EXPECTED_ORDER.iter() {
        let balance: i64 = sent
            .iter()
            .filter(|r| r.event == *event && r.channel_id.as_deref() == Some("123"))
            .map(|r| if r.subscribe { 1 } else { -1 })
            .sum();
        assert_eq!(balance, 0, "balance for {event:?}");
    }
}

#[test]
fn subscription_payload_wire_shape() {
    let req = SubscriptionRequest {
        event: DispatchEventName::SpeakingStart,
        channel_id: Some("123".to_string()),
        subscribe: true,
    };
    let p = subscription_payload("nonce-5".to_string(), &req);
    assert_eq!(p.nonce, "nonce-5");
    assert_eq!(p.cmd, CommandName::Subscribe);
    assert_eq!(p.cmd.wire_name(), "SUBSCRIBE");
    assert_eq!(p.evt, Some(DispatchEventName::SpeakingStart));
    assert_eq!(
        p.evt.expect("event set").wire_name(),
        "SPEAKING_START"
    );
    match p.args {
        CommandArgs::Channel { channel_id } => assert_eq!(channel_id.as_deref(), Some("123")),
        other => panic!("unexpected args: {other:?}"),
    }
}

#[test]
fn unsubscription_payload_wire_shape() {
    let req = SubscriptionRequest {
        event: DispatchEventName::VoiceStateDelete,
        channel_id: Some("123".to_string()),
        subscribe: false,
    };
    let p = subscription_payload("nonce-6".to_string(), &req);
    assert_eq!(p.cmd, CommandName::Unsubscribe);
    assert_eq!(p.cmd.wire_name(), "UNSUBSCRIBE");
    assert_eq!(p.evt.expect("event set").wire_name(), "VOICE_STATE_DELETE");
}

#[test]
fn session_global_subscription_has_empty_args() {
    let req = SubscriptionRequest {
        event: DispatchEventName::VoiceChannelSelect,
        channel_id: None,
        subscribe: true,
    };
    let p = subscription_payload("nonce-7".to_string(), &req);
    assert!(matches!(p.args, CommandArgs::EmptyObject));
    assert_eq!(p.evt.expect("event set").wire_name(), "VOICE_CHANNEL_SELECT");
}
