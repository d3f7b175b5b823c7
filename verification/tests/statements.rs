use blockito::db::{metadata_of, must_create_database, Statement, StoredEmbedding};

fn placeholders(sql: &str) -> usize {
    sql.chars().filter(|c| *c == '?').count()
}

fn is_random_uuid_text(id: &str) -> bool {
    let chars: Vec<char> = id.chars().collect();
    chars.len() == 36
        && [8, 13, 18, 23].iter().all(|&i| chars[i] == '-')
        && chars.iter().enumerate().all(|(i, c)| {
            [8, 13, 18, 23].contains(&i) || c.is_ascii_digit() || ('a'..='f').contains(c)
        })
        && chars[14] == '4'
        && "89ab".contains(chars[19])
}

#[test]
fn add_message_binds_fresh_id_and_fields() {
    let s = Statement::add_message_to_conversation("user", "conv-1", "hello");
    assert_eq!(
        s.sql(),
        "INSERT INTO messages (id, sender_type, conversation_id, message) VALUES (?, ?, ?, ?)"
    );
    let b = s.binds();
    assert_eq!(b.len(), 4);
    assert!(is_random_uuid_text(&b[0]));
    assert_eq!(&b[1..], &["user".to_string(), "conv-1".to_string(), "hello".to_string()]);
}

#[test]
fn insert_conversation_returns_the_bound_id() {
    let (id, s) = Statement::insert_conversation("u-7", "a title");
    assert!(is_random_uuid_text(&id));
    assert_eq!(s.sql(), "INSERT INTO conversations (id, user_id, title) VALUES (?, ?, ?)");
    assert_eq!(s.binds(), vec![id.clone(), "u-7".to_string(), "a title".to_string()]);
}

#[test]
fn fresh_ids_differ() {
    let (a, _) = Statement::insert_conversation("u", "t");
    let (b, _) = Statement::insert_conversation("u", "t");
    assert_ne!(a, b);
}

#[test]
fn reads_and_deletes_bind_their_key() {
    let cases = vec![
        (
            Statement::get_conversation_list_by_user("u-1"),
            "SELECT * FROM conversations WHERE user_id = ? ORDER BY created_at DESC",
            "u-1",
        ),
        (
            Statement::get_conversation_by_id("c-1"),
            "SELECT * FROM messages WHERE conversation_id = ? ORDER BY created_at ASC",
            "c-1",
        ),
        (Statement::delete_conversation("c-2"), "DELETE FROM conversations WHERE id = ?", "c-2"),
        (Statement::delete_embedding("e-1"), "DELETE FROM embeddings WHERE id = ?", "e-1"),
        (
            Statement::get_embedding_by_id("e-2"),
            "SELECT embedding FROM embeddings WHERE id = ?",
            "e-2",
        ),
    ];
    for (s, sql, key) in cases {
        assert_eq!(s.sql(), sql);
        assert_eq!(s.binds(), vec![key.to_string()]);
    }
}

#[test]
fn insert_embedding_binds_topic_and_json() {
    let s = Statement::insert_embedding("cats".to_string(), "[[\"a\",0.5]]".to_string());
    assert_eq!(s.sql(), "INSERT INTO embeddings (id, topic, embedding) VALUES (?, ?, ?)");
    let b = s.binds();
    assert!(is_random_uuid_text(&b[0]));
    assert_eq!(b[1], "cats");
    assert_eq!(b[2], "[[\"a\",0.5]]");
}

#[test]
fn statements_without_values() {
    let all = Statement::get_all_embeddings();
    assert_eq!(all.sql(), "SELECT * FROM embeddings");
    assert!(all.binds().is_empty());
    let create = Statement::create_tables();
    assert!(create.sql().contains("CREATE TABLE IF NOT EXISTS messages ("));
    assert!(create.sql().contains("CREATE TABLE IF NOT EXISTS conversations ("));
    assert!(create.sql().contains("CREATE TABLE IF NOT EXISTS embeddings ("));
    assert!(create.binds().is_empty());
}

#[test]
fn every_statement_fills_its_placeholders() {
    let all = vec![
        Statement::create_tables(),
        Statement::add_message_to_conversation("a", "b", "c"),
        Statement::insert_conversation("a", "b").1,
        Statement::get_conversation_list_by_user("a"),
        Statement::get_conversation_by_id("a"),
        Statement::delete_conversation("a"),
        Statement::insert_embedding("a".to_string(), "[]".to_string()),
        Statement::delete_embedding("a"),
        Statement::get_embedding_by_id("a"),
        Statement::get_all_embeddings(),
    ];
    for s in all {
        assert_eq!(placeholders(s.sql()), s.binds().len());
    }
}

#[test]
fn metadata_keeps_rows_in_order() {
    let rows = vec![
        StoredEmbedding {
            id: "1".to_string(),
            created_at: "t1".to_string(),
            topic: "cats".to_string(),
            embedding: "[]".to_string(),
        },
        StoredEmbedding {
            id: "2".to_string(),
            created_at: "t2".to_string(),
            topic: "dogs".to_string(),
            embedding: "[[\"x\",1.0]]".to_string(),
        },
    ];
    let m = metadata_of(rows);
    assert_eq!(m.len(), 2);
    assert_eq!((m[0].id.as_str(), m[0].created_at.as_str(), m[0].topic.as_str()), ("1", "t1", "cats"));
    assert_eq!((m[1].id.as_str(), m[1].created_at.as_str(), m[1].topic.as_str()), ("2", "t2", "dogs"));
    assert!(metadata_of(vec![]).is_empty());
}

#[test]
fn database_is_created_unless_known_to_exist() {
    assert!(!must_create_database(Some(true)));
    assert!(must_create_database(Some(false)));
    assert!(must_create_database(None));
}
