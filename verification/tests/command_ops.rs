//! Tests for the direct command operations and the payload builders.

use discord_vc_status::channel::{ReplyBody, ReplyFrame};
use discord_vc_status::commands::{
    activity_reply_check, flip_deafen_payload, flip_mute_payload, vc_info_from_reply, VcInfo,
};
use discord_vc_status::errors::IpcErrorType;
use discord_vc_status::incoming::ChannelInfo;
use discord_vc_status::member::Member;
use discord_vc_status::message::{
    authenticate_payload, authorize_payload, authorize_request, leave_channel_payload,
    set_activity_payload, CommandArgs, CommandName,
};
use discord_vc_status::session::EventName;

fn settings_reply(mute: bool, deaf: bool) -> ReplyFrame {
    ReplyFrame {
        nonce: Some("n".to_string()),
        evt_error: false,
        body: ReplyBody::VoiceSettings { mute, deaf },
    }
}

#[test]
fn flip_mute_flips_only_mute() {
    let p = flip_mute_payload(&settings_reply(false, true), "n2".to_string())
        .expect("well-formed reply");
    assert_eq!(p.cmd, CommandName::SetVoiceSettings);
    match p.args {
        CommandArgs::VoiceSettings { mute, deaf } => {
            assert_eq!(mute, Some(true));
            assert_eq!(deaf, None);
        }
        other => panic!("unexpected args: {other:?}"),
    }
    let p = flip_mute_payload(&settings_reply(true, true), "n3".to_string())
        .expect("well-formed reply");
    assert!(matches!(
        p.args,
        CommandArgs::VoiceSettings { mute: Some(false), deaf: None }
    ));
}

#[test]
fn flip_deafen_flips_only_deaf() {
    let p = flip_deafen_payload(&settings_reply(true, false), "n4".to_string())
        .expect("well-formed reply");
    assert!(matches!(
        p.args,
        CommandArgs::VoiceSettings { mute: None, deaf: Some(true) }
    ));
}

#[test]
fn flip_on_malformed_reply_is_decode_error() {
    let reply = ReplyFrame {
        nonce: Some("n".to_string()),
        evt_error: false,
        body: ReplyBody::Other,
    };
    let err = flip_mute_payload(&reply, "n5".to_string()).expect_err("wrong body");
    assert!(matches!(err.error_type, IpcErrorType::EventDecode));
    let err = flip_deafen_payload(&reply, "n6".to_string()).expect_err("wrong body");
    assert!(matches!(err.error_type, IpcErrorType::EventDecode));
}

#[test]
fn vc_info_reports_channel_and_absence() {
    let reply = ReplyFrame {
        nonce: Some("n".to_string()),
        evt_error: false,
        body: ReplyBody::SelectedChannel { channel: None },
    };
    assert!(matches!(
        vc_info_from_reply(reply).expect("null data"),
        VcInfo::NotInChannel
    ));

    let reply = ReplyFrame {
        nonce: Some("n".to_string()),
        evt_error: false,
        body: ReplyBody::SelectedChannel {
            channel: Some(ChannelInfo {
                id: "123".to_string(),
                name: "General".to_string(),
                voice_states: vec![Member {
                    id: "9".to_string(),
                    username: "nine".to_string(),
                    avatar: "a".to_string(),
                    nick: "n".to_string(),
                    mute: false,
                    self_mute: false,
                    deaf: false,
                    self_deaf: false,
                    speaking: false,
                }],
            }),
        },
    };
    match vc_info_from_reply(reply).expect("channel data") {
        VcInfo::InChannel { name, users } => {
            assert_eq!(name, "General");
            assert_eq!(users.len(), 1);
            assert_eq!(users[0].id, "9");
        }
        other => panic!("unexpected info: {other:?}"),
    }

    let reply = settings_reply(false, false);
    let err = vc_info_from_reply(reply).expect_err("wrong body");
    assert!(matches!(err.error_type, IpcErrorType::EventDecode));
}

#[test]
fn activity_error_reply_fails_with_payload() {
    let request = set_activity_payload("n7".to_string(), 4242, Some("{\"state\":\"x\"}".to_string()));
    let ok_reply = ReplyFrame {
        nonce: Some("n7".to_string()),
        evt_error: false,
        body: ReplyBody::Other,
    };
    assert!(activity_reply_check(request, &ok_reply).is_ok());

    let request = set_activity_payload("n8".to_string(), 4242, None);
    let err_reply = ReplyFrame {
        nonce: Some("n8".to_string()),
        evt_error: true,
        body: ReplyBody::Other,
    };
    let err = activity_reply_check(request, &err_reply).expect_err("error reply");
    assert!(matches!(err.error_type, IpcErrorType::EventSend));
    let payload = err.payload.expect("payload kept");
    assert_eq!(payload.cmd, CommandName::SetActivity);
    assert_eq!(payload.nonce, "n8");
}

#[test]
fn auth_payload_builders() {
    let p = authorize_payload("n9".to_string(), "client-1");
    assert_eq!(p.cmd.wire_name(), "AUTHORIZE");
    match p.args {
        CommandArgs::Authorize { client_id, scopes } => {
            assert_eq!(client_id, "client-1");
            assert_eq!(scopes, vec!["rpc".to_string(), "identify".to_string()]);
        }
        other => panic!("unexpected args: {other:?}"),
    }

    let p = authenticate_payload("n10".to_string(), "acc-9".to_string());
    assert_eq!(p.cmd.wire_name(), "AUTHENTICATE");
    assert!(matches!(
        p.args,
        CommandArgs::Authenticate { access_token } if access_token == "acc-9"
    ));

    let p = leave_channel_payload("n11".to_string());
    assert_eq!(p.cmd.wire_name(), "SELECT_VOICE_CHANNEL");
    assert!(matches!(p.args, CommandArgs::Channel { channel_id: None }));
}

#[test]
fn request_builders_draw_distinct_nonces() {
    let a = authorize_request("client-1");
    let b = authorize_request("client-1");
    assert_ne!(a.nonce, b.nonce);
    assert!(!a.nonce.is_empty());
    assert_eq!(a.cmd, CommandName::Authorize);
}

#[test]
fn event_names_match_the_wire() {
    assert_eq!(EventName::Error.name(), "error");
    assert_eq!(EventName::CriticalError.name(), "critical_error");
    assert_eq!(EventName::VCSelect.name(), "vc_select");
    assert_eq!(EventName::VCInfo.name(), "vc_info");
    assert_eq!(EventName::VCMuteUpdate.name(), "vc_mute_update");
    assert_eq!(EventName::VCUser.name(), "vc_user");
    assert_eq!(EventName::VCSpeak.name(), "vc_speak");
}
