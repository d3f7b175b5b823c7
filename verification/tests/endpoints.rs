use blockito::http::{conversations_query, conversations_reply, fallback, health, AppError};
use blockito::model::Conversation;

#[test]
fn health_is_ok() {
    let (status, body) = health();
    assert_eq!(status, 200);
    assert_eq!(body.status, "ok");
}

#[test]
fn fallback_names_the_path() {
    assert_eq!(fallback("/nope"), (404, "No route for /nope!!1".to_string()));
}

#[test]
fn conversations_query_uses_hyphenated_uuid() {
    let s = conversations_query(0xa1a2a3a4b1b2c1c2d1d2d3d4d5d6d7d8);
    assert_eq!(s.sql(), "SELECT * FROM conversations WHERE user_id = ? ORDER BY created_at DESC");
    assert_eq!(s.binds(), vec!["a1a2a3a4-b1b2-c1c2-d1d2-d3d4d5d6d7d8".to_string()]);
    let zero = conversations_query(0);
    assert_eq!(zero.binds(), vec!["00000000-0000-0000-0000-000000000000".to_string()]);
}

#[test]
fn conversations_reply_is_empty() {
    let found = vec![Conversation {
        id: "c".to_string(),
        created_at: "t".to_string(),
        user_id: "u".to_string(),
        title: "x".to_string(),
    }];
    let (status, body) = conversations_reply(&found);
    assert_eq!(status, 200);
    assert!(body.conversations.is_empty());
}

#[test]
fn app_error_is_internal_server_error() {
    let e = AppError::from("no such table: messages".to_string());
    assert_eq!(e.message, "no such table: messages");
    assert_eq!(e.into_response(), (500, "Internal Server Error: no such table: messages".to_string()));
}
