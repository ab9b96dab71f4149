use chat_core::auth::{
    bearer_token, check_credential, user_id_from_claims, verify_credential, AuthError, TokenClaims,
    TOKEN_LIFETIME_SECS,
};
use chat_core::connection::{admit_connection, on_connect, on_disconnect};
use chat_core::handlers::{
    chat_message_saved, poke, prepare_chat_message, send_chat_message_handler, send_poke_handler,
    send_user_audio_mute_status_changed, send_user_is_typing_handler,
    send_user_microphone_status_changed, ChatError, MuteRequest, PokeError, PokeRequest,
    SendMessageRequest, TypingRequest,
};
use chat_core::models::{server_info, Channel, Message, Timestamp, User};
use chat_core::presence::{connection_state, presence_snapshot, user_list};
use chat_core::registry::{SessionRegistry, SessionUpdate, UserConnection};
use chat_core::router::{
    broadcast, broadcast_except, dispatch, emit_to, InboundKind, OutboundEvent, Recipient,
};

const SECRET: &[u8] = b"test-secret";
const UUID_A: &str = "67e55044-10b1-426f-9247-bb680e5fe0c8";
const UUID_B: &str = "a1a2a3a4-b1b2-c1c2-d1d2-d3d4d5d6d7d8";

fn ts(secs: i64) -> Timestamp {
    Timestamp { secs, nanos: 0 }
}

fn user(id: &str, name: &str) -> User {
    User {
        id: id.to_string(),
        username: name.to_string(),
        display_name: name.to_uppercase(),
        password: "hash".to_string(),
        is_system_user: 0,
        created_at: ts(100),
        updated_at: ts(200),
    }
}

fn connect(reg: &mut SessionRegistry, u: &User, conn: &str) -> Option<UserConnection> {
    admit_connection(reg, "tok".to_string(), Some(u.clone()), conn.to_string(), ts(1_000))
        .unwrap()
        .evicted
}

fn targets(rs: &[Recipient]) -> Vec<(String, String)> {
    let mut v: Vec<(String, String)> = rs
        .iter()
        .map(|r| (r.user_id.clone(), r.connection_id.clone()))
        .collect();
    v.sort();
    v
}

fn signed_token(sub: &str, exp: u64) -> String {
    let mut claims = serde_json::Map::new();
    claims.insert("sub".to_string(), serde_json::Value::from(sub));
    claims.insert("iat".to_string(), serde_json::Value::from(exp - 3600));
    claims.insert("exp".to_string(), serde_json::Value::from(exp));
    jsonwebtoken::encode(
        &jsonwebtoken::Header::default(),
        &serde_json::Value::Object(claims),
        &jsonwebtoken::EncodingKey::from_secret(SECRET),
    )
    .unwrap()
}

fn far_future() -> u64 {
    4_000_000_000
}

#[test]
fn register_same_user_twice_keeps_one_and_evicts_first() {
    let mut reg = SessionRegistry::new();
    let a = user("A", "alice");
    assert!(connect(&mut reg, &a, "c1").is_none());
    let evicted = connect(&mut reg, &a, "c2").expect("first connection is evicted");
    assert_eq!(evicted.connection_id, "c1");
    assert_eq!(reg.len(), 1);
    assert_eq!(reg.lookup("A").unwrap().connection_id, "c2");
}

#[test]
fn disconnect_of_evicted_connection_keeps_newer_one() {
    let mut reg = SessionRegistry::new();
    let a = user("A", "alice");
    connect(&mut reg, &a, "c1");
    connect(&mut reg, &a, "c2");
    assert!(on_disconnect(&mut reg, "A", &"c1".to_string()).is_none());
    assert!(reg.is_online("A"));
    let removed = on_disconnect(&mut reg, "A", &"c2".to_string()).unwrap();
    assert_eq!(removed.connection_id, "c2");
    assert!(!reg.is_online("A"));
    assert!(on_disconnect(&mut reg, "A", &"c2".to_string()).is_none());
}

#[test]
fn registry_remove_is_idempotent() {
    let mut reg = SessionRegistry::new();
    connect(&mut reg, &user("A", "alice"), "c1");
    assert!(reg.remove("A").is_some());
    assert!(reg.remove("A").is_none());
    assert_eq!(reg.len(), 0);
}

#[test]
fn update_in_place_reports_offline_user() {
    let mut reg = SessionRegistry::new();
    assert!(!reg.update_in_place("A", SessionUpdate::MicMuted(true)));
    connect(&mut reg, &user("A", "alice"), "c1");
    assert!(reg.update_in_place("A", SessionUpdate::Channel(Some("c9".to_string()))));
    assert_eq!(reg.lookup("A").unwrap().current_channel_id.as_deref(), Some("c9"));
}

#[test]
fn fresh_connection_state() {
    let mut reg = SessionRegistry::new();
    connect(&mut reg, &user("A", "alice"), "c1");
    let c = reg.lookup("A").unwrap();
    assert_eq!(c.connected_at, ts(1_000));
    assert!(c.current_channel_id.is_none());
    assert!(!c.is_audio_muted && !c.is_mic_muted);
    assert_eq!(reg.entries().len(), 1);
}

#[test]
fn on_connect_registers_at_current_time() {
    let mut reg = SessionRegistry::new();
    let adm = on_connect(&mut reg, "tok".to_string(), Some(user("A", "alice")), "c1".to_string())
        .unwrap();
    assert_eq!(adm.info.token, "tok");
    assert_eq!(adm.info.user.id, "A");
    assert!(reg.lookup("A").unwrap().connected_at.secs > 1_600_000_000);
}

#[test]
fn handshake_unknown_user_registers_nothing() {
    let mut reg = SessionRegistry::new();
    let r = admit_connection(&mut reg, "tok".to_string(), None, "c1".to_string(), ts(1));
    assert_eq!(r.unwrap_err(), AuthError::UnknownUser);
    assert_eq!(reg.len(), 0);
}

#[test]
fn handshake_missing_token_is_refused() {
    assert_eq!(verify_credential(&None, SECRET), Err(AuthError::MissingCredential));
    assert_eq!(check_credential(&None, &None), Err(AuthError::MissingCredential));
}

#[test]
fn handshake_invalid_token_is_refused() {
    let bad = Some("not.a.token".to_string());
    assert_eq!(verify_credential(&bad, SECRET), Err(AuthError::InvalidCredential));
    let wrong_key = Some(signed_token(UUID_A, far_future()));
    assert_eq!(verify_credential(&wrong_key, b"other"), Err(AuthError::InvalidCredential));
    let expired = Some(signed_token(UUID_A, 1_000_000));
    assert_eq!(verify_credential(&expired, SECRET), Err(AuthError::InvalidCredential));
    let not_uuid = Some(signed_token("alice", far_future()));
    assert_eq!(verify_credential(&not_uuid, SECRET), Err(AuthError::InvalidCredential));
}

#[test]
fn handshake_valid_token_yields_user_id() {
    let token = Some(signed_token(UUID_A, far_future()));
    assert_eq!(verify_credential(&token, SECRET), Ok(UUID_A.to_string()));
}

#[test]
fn subject_is_canonicalised() {
    let claims = TokenClaims {
        sub: "67E55044-10B1-426F-9247-BB680E5FE0C8".to_string(),
        iat: 0,
        exp: 1,
    };
    assert_eq!(user_id_from_claims(&claims), Ok(UUID_A.to_string()));
    let simple = TokenClaims { sub: "67e5504410b1426f9247bb680e5fe0c8".to_string(), iat: 0, exp: 1 };
    assert_eq!(user_id_from_claims(&simple), Ok(UUID_A.to_string()));
    let bad = TokenClaims { sub: "xyz".to_string(), iat: 0, exp: 1 };
    assert_eq!(user_id_from_claims(&bad), Err(AuthError::InvalidCredential));
    assert_eq!(check_credential(&Some("t".to_string()), &None), Err(AuthError::InvalidCredential));
}

#[test]
fn token_claims_last_an_hour() {
    let c = TokenClaims::for_user(&UUID_B.to_string(), 1_000);
    assert_eq!(c.sub, UUID_B);
    assert_eq!(c.iat, 1_000);
    assert_eq!(c.exp, 1_000 + TOKEN_LIFETIME_SECS);
    assert_eq!(c.exp, 4_600);
}

#[test]
fn bearer_header_parsing() {
    assert_eq!(bearer_token("Bearer abc.def"), Some("abc.def".to_string()));
    assert_eq!(bearer_token("Bearer "), Some(String::new()));
    assert_eq!(bearer_token("bearer abc"), None);
    assert_eq!(bearer_token("Basic abc"), None);
    assert_eq!(bearer_token("Bear"), None);
}

#[test]
fn rest_auth_errors_are_distinct() {
    let (s1, b1) = AuthError::MissingCredential.to_error_response();
    let (s2, b2) = AuthError::InvalidCredential.to_error_response();
    let (s3, b3) = AuthError::UnknownUser.to_error_response();
    assert_eq!((s1, s2, s3), (401, 401, 401));
    assert_eq!(b1.status, "fail");
    assert_eq!(b1.message, "You are not logged in, please provide token.");
    assert_eq!(b2.message, "Invalid token");
    assert_eq!(b3.message, "The user belonging to this token no longer exists");
}

#[test]
fn dispatch_routes_known_and_drops_unknown() {
    assert_eq!(dispatch("sendChatMessage"), Some(InboundKind::SendChatMessage));
    assert_eq!(dispatch("sendPoke"), Some(InboundKind::SendPoke));
    assert_eq!(dispatch("sendKick"), Some(InboundKind::SendKick));
    assert_eq!(dispatch("sendUserIsTyping"), Some(InboundKind::SendUserIsTyping));
    assert_eq!(
        dispatch("sendUserMicrophoneStatusChanged"),
        Some(InboundKind::SendUserMicrophoneStatusChanged)
    );
    assert_eq!(
        dispatch("sendUserAudioMuteStatusChanged"),
        Some(InboundKind::SendUserAudioMuteStatusChanged)
    );
    assert_eq!(dispatch("sendTeleport"), None);
    assert_eq!(dispatch(""), None);
}

#[test]
fn emit_and_broadcast_targets() {
    let mut reg = SessionRegistry::new();
    connect(&mut reg, &user("A", "alice"), "ca");
    connect(&mut reg, &user("B", "bob"), "cb");
    connect(&mut reg, &user("C", "carol"), "cc");
    assert_eq!(targets(&emit_to(&reg, "B")), vec![("B".to_string(), "cb".to_string())]);
    assert!(emit_to(&reg, "Z").is_empty());
    assert_eq!(targets(&broadcast(&reg)).len(), 3);
    assert_eq!(
        targets(&broadcast_except(&reg, "A")),
        vec![("B".to_string(), "cb".to_string()), ("C".to_string(), "cc".to_string())]
    );
}

#[test]
fn poke_scenario_connected_then_disconnected() {
    let mut reg = SessionRegistry::new();
    let a = user("A", "alice");
    let b = user("B", "bob");
    connect(&mut reg, &a, "ca");
    connect(&mut reg, &b, "cb");
    connect(&mut reg, &user("C", "carol"), "cc");
    let req = PokeRequest { user_id: Some("B".to_string()), message: None, created_at: None };
    let out = send_poke_handler(&reg, &a, req.clone());
    assert!(out.ack.success);
    assert!(out.ack.error.is_none());
    let d = out.delivery.unwrap();
    assert_eq!(targets(&d.recipients), vec![("B".to_string(), "cb".to_string())]);
    assert_eq!(d.event.name(), "receivePoke");
    match d.event {
        OutboundEvent::ReceivePoke(n) => {
            assert_eq!(n.user.id, "A");
            assert_eq!(n.user.displayName, "ALICE");
            assert_eq!(n.message, "");
            assert!(n.created_at.contains('T'), "stamped with the current time: {}", n.created_at);
        }
        _ => panic!("wrong event"),
    }
    on_disconnect(&mut reg, "B", &"cb".to_string());
    let out = send_poke_handler(&reg, &a, req);
    assert!(!out.ack.success);
    assert_eq!(out.ack.error.as_deref(), Some("target not connected"));
    assert!(out.delivery.is_none());
}

#[test]
fn poke_without_target_fails() {
    let reg = SessionRegistry::new();
    let req = PokeRequest { user_id: None, message: Some("hi".to_string()), created_at: None };
    let out = poke(&reg, &user("A", "alice"), req, "now".to_string());
    assert!(!out.ack.success);
    assert_eq!(out.ack.error.unwrap(), PokeError::NoTarget.message());
    assert!(out.delivery.is_none());
}

#[test]
fn poke_keeps_client_text_and_time() {
    let mut reg = SessionRegistry::new();
    connect(&mut reg, &user("B", "bob"), "cb");
    let req = PokeRequest {
        user_id: Some("B".to_string()),
        message: Some("wake up".to_string()),
        created_at: Some("2024-01-01T00:00:00Z".to_string()),
    };
    let out = poke(&reg, &user("A", "alice"), req, "default".to_string());
    match out.delivery.unwrap().event {
        OutboundEvent::ReceivePoke(n) => {
            assert_eq!(n.message, "wake up");
            assert_eq!(n.created_at, "2024-01-01T00:00:00Z");
        }
        _ => panic!("wrong event"),
    }
}

#[test]
fn poke_default_time_is_used() {
    let mut reg = SessionRegistry::new();
    connect(&mut reg, &user("B", "bob"), "cb");
    let req = PokeRequest { user_id: Some("B".to_string()), message: None, created_at: None };
    match poke(&reg, &user("A", "alice"), req, "then".to_string()).delivery.unwrap().event {
        OutboundEvent::ReceivePoke(n) => assert_eq!(n.created_at, "then"),
        _ => panic!("wrong event"),
    }
}

fn stored(id: &str, author: &str, channel: &str, content: &str) -> Message {
    Message {
        id: id.to_string(),
        user_id: author.to_string(),
        channel_id: channel.to_string(),
        content: Some(content.to_string()),
        created_at: ts(5),
        updated_at: ts(5),
        deleted_at: None,
        deleted_by_user_id: None,
    }
}

#[test]
fn chat_scenario_both_users_receive_stored_message() {
    let mut reg = SessionRegistry::new();
    let a = user("A", "alice");
    connect(&mut reg, &a, "ca");
    connect(&mut reg, &user("B", "bob"), "cb");
    let req = SendMessageRequest {
        channel_id: Some("c1".to_string()),
        content: Some("hi".to_string()),
        attachment_ids: None,
    };
    let new = send_chat_message_handler(&a.id, req).unwrap();
    assert_eq!(new.user_id, "A");
    assert_eq!(new.channel_id, "c1");
    assert_eq!(new.content.as_deref(), Some("hi"));
    assert_eq!(new.id.len(), 36);
    // The store's history for the channel, as a later fetch reads it.
    let history = vec![stored(&new.id, &new.user_id, &new.channel_id, "hi")];
    let d = chat_message_saved(&reg, &a, Some(history[0].clone())).unwrap();
    assert_eq!(
        targets(&d.recipients),
        vec![("A".to_string(), "ca".to_string()), ("B".to_string(), "cb".to_string())]
    );
    assert_eq!(d.event.name(), "receiveChatMessage");
    match d.event {
        OutboundEvent::ReceiveChatMessage(p) => {
            assert_eq!(p.message.userId, "A");
            assert_eq!(p.message.content.as_deref(), Some("hi"));
            assert_eq!(p.message.user.id, "A");
            assert!(history.iter().any(|m| m.id == p.message.id && m.channel_id == "c1"));
        }
        _ => panic!("wrong event"),
    }
}

#[test]
fn chat_message_not_stored_is_not_broadcast() {
    let mut reg = SessionRegistry::new();
    let a = user("A", "alice");
    connect(&mut reg, &a, "ca");
    assert_eq!(chat_message_saved(&reg, &a, None).unwrap_err(), ChatError::PersistenceFailed);
}

#[test]
fn chat_message_needs_channel() {
    let id = "A".to_string();
    let no_channel = SendMessageRequest { channel_id: None, content: Some("x".to_string()), attachment_ids: None };
    assert_eq!(send_chat_message_handler(&id, no_channel).unwrap_err(), ChatError::ValidationFailed);
    let empty = SendMessageRequest {
        channel_id: Some(String::new()),
        content: None,
        attachment_ids: Some(vec!["f1".to_string()]),
    };
    assert_eq!(
        prepare_chat_message(&id, empty, "m1".to_string(), ts(3)).unwrap_err(),
        ChatError::ValidationFailed
    );
    let ok = SendMessageRequest { channel_id: Some("c1".to_string()), content: None, attachment_ids: None };
    let m = prepare_chat_message(&id, ok, "m1".to_string(), ts(3)).unwrap();
    assert_eq!((m.id.as_str(), m.channel_id.as_str(), m.created_at), ("m1", "c1", ts(3)));
    assert!(m.content.is_none());
}

#[test]
fn mute_change_visible_in_presence() {
    let mut reg = SessionRegistry::new();
    connect(&mut reg, &user("A", "alice"), "ca");
    connect(&mut reg, &user("B", "bob"), "cb");
    let d = send_user_microphone_status_changed(&mut reg, &"A".to_string(), MuteRequest { muted: Some(true) })
        .unwrap();
    assert_eq!(targets(&d.recipients), vec![("B".to_string(), "cb".to_string())]);
    assert_eq!(d.event.name(), "receiveUserMicrophoneStatusChanged");
    let s = connection_state(&reg, "A");
    assert!(s.isOnline);
    assert_eq!(s.isMicrophoneMuted, Some(true));
    assert_eq!(s.isAudioMuted, Some(false));
    let d = send_user_audio_mute_status_changed(&mut reg, &"A".to_string(), MuteRequest { muted: Some(true) })
        .unwrap();
    assert_eq!(d.event.name(), "receiveUserAudioMuteStatusChanged");
    assert_eq!(connection_state(&reg, "A").isAudioMuted, Some(true));
}

#[test]
fn mute_change_without_state_or_offline_does_nothing() {
    let mut reg = SessionRegistry::new();
    connect(&mut reg, &user("A", "alice"), "ca");
    assert!(send_user_microphone_status_changed(&mut reg, &"A".to_string(), MuteRequest { muted: None }).is_none());
    assert_eq!(connection_state(&reg, "A").isMicrophoneMuted, Some(false));
    assert!(send_user_audio_mute_status_changed(&mut reg, &"Z".to_string(), MuteRequest { muted: Some(true) }).is_none());
    assert!(!connection_state(&reg, "Z").isOnline);
}

#[test]
fn typing_reaches_channel_members_only() {
    let mut reg = SessionRegistry::new();
    connect(&mut reg, &user("A", "alice"), "ca");
    connect(&mut reg, &user("B", "bob"), "cb");
    connect(&mut reg, &user("C", "carol"), "cc");
    for id in ["A", "B"] {
        reg.update_in_place(id, SessionUpdate::Channel(Some("c1".to_string())));
    }
    reg.update_in_place("C", SessionUpdate::Channel(Some("c2".to_string())));
    let d = send_user_is_typing_handler(&reg, &"A".to_string(), TypingRequest { channel_id: None }).unwrap();
    assert_eq!(targets(&d.recipients), vec![("B".to_string(), "cb".to_string())]);
    assert_eq!(d.event.name(), "receiveUserIsTyping");
    let d = send_user_is_typing_handler(&reg, &"A".to_string(), TypingRequest { channel_id: Some("c2".to_string()) })
        .unwrap();
    assert_eq!(targets(&d.recipients), vec![("C".to_string(), "cc".to_string())]);
    assert!(send_user_is_typing_handler(&reg, &"Z".to_string(), TypingRequest { channel_id: None }).is_none());
}

#[test]
fn user_list_shows_presence() {
    let mut reg = SessionRegistry::new();
    let a = user("A", "alice");
    let b = user("B", "bob");
    connect(&mut reg, &a, "ca");
    let list = user_list(&reg, &vec![a, b]);
    assert_eq!(list.len(), 2);
    assert!(list[0].connectionState.isOnline);
    assert_eq!(list[0].connectionState.connectedAt, Some(ts(1_000)));
    assert!(!list[0].user.isOnline);
    assert!(!list[1].connectionState.isOnline);
    assert_eq!(list[1].connectionState.isMicrophoneMuted, None);
}

#[test]
fn resources_map_fields() {
    let mut u = user("A", "alice");
    u.is_system_user = 1;
    let r = u.to_resource();
    assert!(r.isSystemUser);
    assert_eq!(r.displayName, "ALICE");
    let me = u.to_auth_me_resource();
    assert!(me.permissions.is_empty());
    assert_eq!(me.username, "alice");
    let ch = Channel {
        id: "c1".to_string(),
        name: "general".to_string(),
        sort_order: 2,
        is_default: 1,
        created_at: ts(1),
        updated_at: ts(2),
        deleted_at: None,
    };
    let info = server_info(&vec![ch]);
    assert_eq!(info.name, "Testing Server");
    assert_eq!(info.channels.len(), 1);
    assert!(info.channels[0].isDefault);
    assert_eq!(info.channels[0].sortOrder, 2);
}

#[test]
fn snapshot_lists_every_online_user_once() {
    let mut reg = SessionRegistry::new();
    connect(&mut reg, &user("A", "alice"), "ca");
    connect(&mut reg, &user("B", "bob"), "cb");
    send_user_microphone_status_changed(&mut reg, &"B".to_string(), MuteRequest { muted: Some(true) });
    let mut snap = presence_snapshot(&reg);
    snap.sort_by(|x, y| x.0.cmp(&y.0));
    assert_eq!(snap.len(), 2);
    assert_eq!(snap[0].0, "A");
    assert_eq!(snap[0].1.isMicrophoneMuted, Some(false));
    assert_eq!(snap[1].0, "B");
    assert_eq!(snap[1].1.isMicrophoneMuted, Some(true));
    // The copy does not follow later changes.
    send_user_microphone_status_changed(&mut reg, &"B".to_string(), MuteRequest { muted: Some(false) });
    assert_eq!(snap[1].1.isMicrophoneMuted, Some(true));
    assert!(presence_snapshot(&SessionRegistry::new()).is_empty());
}

#[test]
fn issued_token_verifies_to_its_subject() {
    let claims = TokenClaims::for_user(&UUID_B.to_string(), far_future() as usize);
    let token = claims.issue_token(SECRET).expect("signing with an HMAC key succeeds");
    assert_eq!(token.split('.').count(), 3);
    assert_eq!(verify_credential(&Some(token.clone()), SECRET), Ok(UUID_B.to_string()));
    assert_eq!(verify_credential(&Some(token), b"another key"), Err(AuthError::InvalidCredential));
}
