use blog_backend::auth::jwt::{Claims, JwtError, Role};
use blog_backend::ident::UserId;
use blog_backend::notification::hub::NotificationHub;
use blog_backend::notification::model::{NotificationPayload, NotificationType};
use blog_backend::websocket::notifications::{
    error_payload, welcome, welcome_subject, Session, SocketAction, SocketEvent, WebSocketParams,
    HEARTBEAT_SECONDS,
};

fn user(n: u128) -> UserId {
    UserId { value: n }
}

#[test]
fn test_websocket_params() {
    let params = WebSocketParams { token: Some("test_token".to_string()) };
    assert_eq!(params.token.unwrap(), "test_token");

    let params_empty = WebSocketParams { token: None };
    assert!(params_empty.token.is_none());
}

#[test]
fn test_error_message_format() {
    let error_msg = error_payload("Invalid token");
    assert_eq!(error_msg, r#"{"error": "Invalid token"}"#);
}

#[test]
fn missing_token_counts_as_empty() {
    assert_eq!(WebSocketParams { token: None }.token_or_empty(), "");
    assert_eq!(WebSocketParams { token: Some("abc".into()) }.token_or_empty(), "abc");
}

#[test]
fn good_token_lets_its_subject_in() {
    let claims = Claims {
        sub: "123e4567-e89b-12d3-a456-426614174000".into(),
        role: Role::User,
        exp: 10,
        iat: 0,
    };
    assert_eq!(
        welcome(Ok(claims)),
        Ok(UserId { value: 0x123e4567_e89b_12d3_a456_426614174000 })
    );
}

#[test]
fn bad_token_is_turned_away_with_a_reason() {
    assert_eq!(
        welcome(Err(JwtError::InvalidToken)),
        Err("Invalid token: Invalid or expired JWT token".to_string())
    );
    assert_eq!(
        welcome(Err(JwtError::MissingSecret)),
        Err("Invalid token: JWT secret is missing or not set".to_string())
    );
    let claims = Claims { sub: "nobody".into(), role: Role::User, exp: 10, iat: 0 };
    let reason = welcome(Ok(claims)).unwrap_err();
    let parser = uuid::Uuid::parse_str("nobody").unwrap_err().to_string();
    assert_eq!(reason, format!("Invalid user ID in token: {}", parser));
    assert_eq!(
        welcome_subject(Err("bad".into())),
        Err("Invalid user ID in token: bad".to_string())
    );
    assert_eq!(welcome_subject(Ok(user(4))), Ok(user(4)));
}

#[test]
fn live_connection_forwards_and_pulses() {
    let session = Session::open(user(1));
    assert!(session.is_live());
    let (session, action) = session.handle(SocketEvent::Published("{\"a\":1}".into()));
    assert_eq!(action, SocketAction::SendText("{\"a\":1}".into()));
    let (session, action) = session.handle(SocketEvent::Tick);
    assert_eq!(action, SocketAction::SendPing);
    let (session, action) = session.handle(SocketEvent::Pong);
    assert_eq!(action, SocketAction::Idle);
    let (session, action) = session.handle(SocketEvent::Other);
    assert_eq!(action, SocketAction::Idle);
    assert_eq!(session, Session::Live(user(1)));
    assert_eq!(HEARTBEAT_SECONDS, 30);
}

#[test]
fn closed_connection_is_torn_down_and_stays_silent() {
    for end in [SocketEvent::Closed, SocketEvent::ReadFailed, SocketEvent::WriteFailed] {
        let (session, action) = Session::open(user(1)).handle(end);
        assert_eq!(action, SocketAction::TearDown);
        assert_eq!(session, Session::Over);
        assert!(!session.is_live());
        let (session, action) = session.handle(SocketEvent::Published("late".into()));
        assert_eq!(action, SocketAction::Idle);
        let (session, action) = session.handle(SocketEvent::Tick);
        assert_eq!(action, SocketAction::Idle);
        let (session, action) = session.handle(SocketEvent::Closed);
        assert_eq!(action, SocketAction::Idle);
        assert_eq!(session, Session::Over);
    }
}

fn notice(to: u128, about: i64) -> NotificationPayload {
    NotificationPayload::reply(user(to), about, 1, user(99))
}

#[test]
fn events_reach_the_subscriptions_of_their_recipient() {
    let mut hub = NotificationHub::new();
    let a = hub.subscribe(user(1)).unwrap();
    let b = hub.subscribe(user(2)).unwrap();
    let a2 = hub.subscribe(user(1)).unwrap();
    assert_eq!((a, b, a2), (0, 1, 2));
    assert_eq!(hub.len(), 3);

    assert_eq!(hub.publish(&notice(1, 10)), 2);
    assert_eq!(hub.publish(&notice(2, 11)), 1);
    assert_eq!(hub.publish(&notice(3, 12)), 0);
    assert_eq!(hub.publish(&notice(1, 13)), 2);

    let inbox = hub.take(a);
    assert_eq!(inbox.iter().map(|e| e.object_id).collect::<Vec<_>>(), vec![10, 13]);
    assert_eq!(hub.take(a), Vec::new());
    assert_eq!(hub.take(b).iter().map(|e| e.object_id).collect::<Vec<_>>(), vec![11]);
    assert_eq!(hub.take(a2).iter().map(|e| e.object_id).collect::<Vec<_>>(), vec![10, 13]);
}

#[test]
fn events_are_not_kept_for_the_absent() {
    let mut hub = NotificationHub::new();
    assert_eq!(hub.publish(&notice(1, 10)), 0);
    let late = hub.subscribe(user(1)).unwrap();
    assert!(hub.take(late).is_empty());
    assert_eq!(hub.publish(&notice(1, 11)), 1);
    assert!(hub.unsubscribe(late));
    assert!(!hub.unsubscribe(late));
    assert_eq!(hub.publish(&notice(1, 12)), 0);
    assert!(hub.take(late).is_empty());
    assert_eq!(hub.len(), 0);
    // ids are not handed out twice
    assert_eq!(hub.subscribe(user(1)), Some(1));
}

#[test]
fn notices_say_what_happened() {
    let reply = NotificationPayload::reply(user(1), 5, 2, user(3));
    assert_eq!(reply.recipient_id, user(1));
    assert_eq!(reply.notification_type, NotificationType::CommentReply);
    assert_eq!(reply.object_id, 5);
    assert_eq!(reply.related_object_id, Some(2));
    assert_eq!(reply.actor_id, user(3));
    assert_eq!(reply.content, "You have a new reply to your comment.");
    let fresh = NotificationPayload::new_comment(user(1), 5, 2, user(3));
    assert_eq!(fresh.notification_type, NotificationType::NewComment);
    assert_eq!(fresh.content, "New comment on your post");
    assert_eq!(fresh.clone(), fresh);
}

#[test]
fn any_run_of_events_is_delivered_in_order() {
    let mut hub = NotificationHub::new();
    assert_eq!(hub.publish(&notice(1, 1)), 0);
    let sub = hub.subscribe(user(1)).unwrap();
    let mut expected = Vec::new();
    for n in 2..40i64 {
        let to = if n % 3 == 0 { 2 } else { 1 };
        hub.publish(&notice(to, n));
        if to == 1 {
            expected.push(n);
        }
    }
    let inbox = hub.take(sub);
    assert_eq!(inbox.iter().map(|e| e.object_id).collect::<Vec<_>>(), expected);
    assert!(hub.take(sub).is_empty());
}
