//! The statements that the service runs against its SQLite database, and the rows it reads.
//!
//! Running a statement is I/O and happens outside this crate; here each database operation of the
//! service is planned: which SQL text it runs and which values it binds to the text's `?`
//! placeholders, in order.
use vstd::prelude::*;
use crate::ids::{is_random_uuid_text, new_id};
use crate::text::views;

verus! {

/// Address of the SQLite database file.
pub const DB_URL: &'static str = "sqlite://sqlite.db";

/// Creates the three tables when they are missing.
pub const CREATE_TABLES_SQL: &'static str = "
            CREATE TABLE IF NOT EXISTS messages (
                id TEXT NOT NULL,
                created_at TEXT NOT NULL DEFAULT current_timestamp,
                sender_type TEXT,
                conversation_id TEXT NOT NULL,
                message TEXT
            );
            CREATE TABLE IF NOT EXISTS conversations (
                id TEXT NOT NULL,
                created_at TEXT NOT NULL DEFAULT current_timestamp,
                user_id TEXT NOT NULL,
                title TEXT NOT NULL
            );
            CREATE TABLE IF NOT EXISTS embeddings (
                id TEXT NOT NULL,
                created_at TEXT NOT NULL DEFAULT current_timestamp,
                topic TEXT NOT NULL,
                embedding TEXT NOT NULL
            );
            ";

/// Stores a message of a conversation.
pub const INSERT_MESSAGE_SQL: &'static str =
    "INSERT INTO messages (id, sender_type, conversation_id, message) VALUES (?, ?, ?, ?)";

/// Stores a conversation.
pub const INSERT_CONVERSATION_SQL: &'static str =
    "INSERT INTO conversations (id, user_id, title) VALUES (?, ?, ?)";

/// The conversations of a user, newest first.
pub const CONVERSATIONS_BY_USER_SQL: &'static str =
    "SELECT * FROM conversations WHERE user_id = ? ORDER BY created_at DESC";

/// The messages of a conversation, oldest first.
pub const MESSAGES_BY_CONVERSATION_SQL: &'static str =
    "SELECT * FROM messages WHERE conversation_id = ? ORDER BY created_at ASC";

/// Deletes a conversation.
pub const DELETE_CONVERSATION_SQL: &'static str = "DELETE FROM conversations WHERE id = ?";

/// Stores an embedding under a topic.
pub const INSERT_EMBEDDING_SQL: &'static str =
    "INSERT INTO embeddings (id, topic, embedding) VALUES (?, ?, ?)";

/// Deletes an embedding.
pub const DELETE_EMBEDDING_SQL: &'static str = "DELETE FROM embeddings WHERE id = ?";

/// Reads an embedding.
pub const EMBEDDING_BY_ID_SQL: &'static str = "SELECT embedding FROM embeddings WHERE id = ?";

/// Reads every embedding.
pub const ALL_EMBEDDINGS_SQL: &'static str = "SELECT * FROM embeddings";

/// A row of the `embeddings` table; `embedding` is the JSON text of the stored vector.
#[derive(Debug, Clone)]
pub struct StoredEmbedding {
    pub id: String,
    pub created_at: String,
    pub topic: String,
    pub embedding: String,
}

/// What the service tells about a stored embedding, without the vector itself.
#[derive(Debug, Clone)]
pub struct EmbeddingMetadata {
    pub id: String,
    pub created_at: String,
    pub topic: String,
}

/// The metadata of each row, in the order of the rows.
pub fn metadata_of(rows: Vec<StoredEmbedding>) -> (found: Vec<EmbeddingMetadata>)
    ensures
        found@.len() == rows@.len(),
        forall|k: int|
            0 <= k < rows@.len() ==> {
                &&& (#[trigger] found@[k]).id@ == rows@[k].id@
                &&& found@[k].created_at@ == rows@[k].created_at@
                &&& found@[k].topic@ == rows@[k].topic@
            },
{
    let mut found: Vec<EmbeddingMetadata> = Vec::new();
    let mut k: usize = 0;
    while k < rows.len()
        invariant
            k <= rows@.len(),
            found@.len() == k,
            forall|q: int|
                0 <= q < k ==> {
                    &&& (#[trigger] found@[q]).id@ == rows@[q].id@
                    &&& found@[q].created_at@ == rows@[q].created_at@
                    &&& found@[q].topic@ == rows@[q].topic@
                },
        decreases rows@.len() - k,
    {
        let row = &rows[k];
        found.push(
            EmbeddingMetadata {
                id: row.id.clone(),
                created_at: row.created_at.clone(),
                topic: row.topic.clone(),
            },
        );
        k = k + 1;
    }
    found
}

/// The database is created unless asking whether it exists answered that it does; a failed
/// question counts as "it does not".
pub fn must_create_database(exists: Option<bool>) -> (create: bool)
    ensures
        create == (exists != Some(true)),
{
    match exists {
        Some(e) => !e,
        None => true,
    }
}

/// A statement to run, with the values it binds.
#[derive(Debug)]
pub enum Statement {
    CreateTables,
    InsertMessage { id: String, sender_type: String, conversation_id: String, message: String },
    InsertConversation { id: String, user_id: String, title: String },
    ConversationsByUser { user_id: String },
    MessagesByConversation { conversation_id: String },
    DeleteConversation { id: String },
    InsertEmbedding { id: String, topic: String, embedding: String },
    DeleteEmbedding { id: String },
    EmbeddingById { id: String },
    AllEmbeddings,
}

/// A statement as text values.
pub enum StatementModel {
    CreateTables,
    InsertMessage {
        id: Seq<char>,
        sender_type: Seq<char>,
        conversation_id: Seq<char>,
        message: Seq<char>,
    },
    InsertConversation { id: Seq<char>, user_id: Seq<char>, title: Seq<char> },
    ConversationsByUser { user_id: Seq<char> },
    MessagesByConversation { conversation_id: Seq<char> },
    DeleteConversation { id: Seq<char> },
    InsertEmbedding { id: Seq<char>, topic: Seq<char>, embedding: Seq<char> },
    DeleteEmbedding { id: Seq<char> },
    EmbeddingById { id: Seq<char> },
    AllEmbeddings,
}

impl View for Statement {
    type V = StatementModel;

    open spec fn view(&self) -> StatementModel {
        match self {
            Statement::CreateTables => StatementModel::CreateTables,
            Statement::InsertMessage { id, sender_type, conversation_id, message } =>
                StatementModel::InsertMessage {
                id: id@,
                sender_type: sender_type@,
                conversation_id: conversation_id@,
                message: message@,
            },
            Statement::InsertConversation { id, user_id, title } =>
                StatementModel::InsertConversation { id: id@, user_id: user_id@, title: title@ },
            Statement::ConversationsByUser { user_id } => StatementModel::ConversationsByUser {
                user_id: user_id@,
            },
            Statement::MessagesByConversation { conversation_id } =>
                StatementModel::MessagesByConversation { conversation_id: conversation_id@ },
            Statement::DeleteConversation { id } => StatementModel::DeleteConversation { id: id@ },
            Statement::InsertEmbedding { id, topic, embedding } => StatementModel::InsertEmbedding {
                id: id@,
                topic: topic@,
                embedding: embedding@,
            },
            Statement::DeleteEmbedding { id } => StatementModel::DeleteEmbedding { id: id@ },
            Statement::EmbeddingById { id } => StatementModel::EmbeddingById { id: id@ },
            Statement::AllEmbeddings => StatementModel::AllEmbeddings,
        }
    }
}

impl StatementModel {
    /// The SQL text of the statement.
    pub open spec fn sql(self) -> Seq<char> {
        match self {
            StatementModel::CreateTables => CREATE_TABLES_SQL@,
            StatementModel::InsertMessage { .. } => INSERT_MESSAGE_SQL@,
            StatementModel::InsertConversation { .. } => INSERT_CONVERSATION_SQL@,
            StatementModel::ConversationsByUser { .. } => CONVERSATIONS_BY_USER_SQL@,
            StatementModel::MessagesByConversation { .. } => MESSAGES_BY_CONVERSATION_SQL@,
            StatementModel::DeleteConversation { .. } => DELETE_CONVERSATION_SQL@,
            StatementModel::InsertEmbedding { .. } => INSERT_EMBEDDING_SQL@,
            StatementModel::DeleteEmbedding { .. } => DELETE_EMBEDDING_SQL@,
            StatementModel::EmbeddingById { .. } => EMBEDDING_BY_ID_SQL@,
            StatementModel::AllEmbeddings => ALL_EMBEDDINGS_SQL@,
        }
    }

    /// The values bound to the placeholders of the SQL text, in order.
    pub open spec fn binds(self) -> Seq<Seq<char>> {
        match self {
            StatementModel::CreateTables => seq![],
            StatementModel::InsertMessage { id, sender_type, conversation_id, message } => seq![
                id,
                sender_type,
                conversation_id,
                message,
            ],
            StatementModel::InsertConversation { id, user_id, title } => seq![id, user_id, title],
            StatementModel::ConversationsByUser { user_id } => seq![user_id],
            StatementModel::MessagesByConversation { conversation_id } => seq![conversation_id],
            StatementModel::DeleteConversation { id } => seq![id],
            StatementModel::InsertEmbedding { id, topic, embedding } => seq![id, topic, embedding],
            StatementModel::DeleteEmbedding { id } => seq![id],
            StatementModel::EmbeddingById { id } => seq![id],
            StatementModel::AllEmbeddings => seq![],
        }
    }
}

/// Number of `?` placeholders among the first `n` characters of `s`.
pub open spec fn placeholders_upto(s: Seq<char>, n: int) -> nat
    decreases n,
{
    if n <= 0 {
        0
    } else {
        placeholders_upto(s, n - 1) + if s[n - 1] == '?' {
            1nat
        } else {
            0nat
        }
    }
}

/// Number of `?` placeholders of a SQL text.
pub open spec fn placeholders(s: Seq<char>) -> nat {
    placeholders_upto(s, s.len() as int)
}

impl Statement {
    /// The SQL text of the statement.
    pub fn sql(&self) -> (text: &'static str)
        ensures
            text@ == self@.sql(),
    {
        match self {
            Statement::CreateTables => CREATE_TABLES_SQL,
            Statement::InsertMessage { .. } => INSERT_MESSAGE_SQL,
            Statement::InsertConversation { .. } => INSERT_CONVERSATION_SQL,
            Statement::ConversationsByUser { .. } => CONVERSATIONS_BY_USER_SQL,
            Statement::MessagesByConversation { .. } => MESSAGES_BY_CONVERSATION_SQL,
            Statement::DeleteConversation { .. } => DELETE_CONVERSATION_SQL,
            Statement::InsertEmbedding { .. } => INSERT_EMBEDDING_SQL,
            Statement::DeleteEmbedding { .. } => DELETE_EMBEDDING_SQL,
            Statement::EmbeddingById { .. } => EMBEDDING_BY_ID_SQL,
            Statement::AllEmbeddings => ALL_EMBEDDINGS_SQL,
        }
    }

    /// The values to bind to the placeholders of the SQL text, in order.
    pub fn binds(&self) -> (values: Vec<String>)
        ensures
            views(values@) == self@.binds(),
            *self matches Statement::CreateTables ==> values@.len() == 0,
            *self matches Statement::InsertMessage { id, sender_type, conversation_id, message }
                ==> views(values@) == seq![id@, sender_type@, conversation_id@, message@],
            *self matches Statement::InsertConversation { id, user_id, title } ==> views(values@)
                == seq![id@, user_id@, title@],
            *self matches Statement::ConversationsByUser { user_id } ==> views(values@) == seq![
                user_id@,
            ],
            *self matches Statement::MessagesByConversation { conversation_id } ==> views(values@)
                == seq![conversation_id@],
            *self matches Statement::DeleteConversation { id } ==> views(values@) == seq![id@],
            *self matches Statement::InsertEmbedding { id, topic, embedding } ==> views(values@)
                == seq![id@, topic@, embedding@],
            *self matches Statement::DeleteEmbedding { id } ==> views(values@) == seq![id@],
            *self matches Statement::EmbeddingById { id } ==> views(values@) == seq![id@],
            *self matches Statement::AllEmbeddings ==> values@.len() == 0,
    {
        let values: Vec<String> = match self {
            Statement::CreateTables => vec![],
            Statement::InsertMessage { id, sender_type, conversation_id, message } => vec![
                id.clone(),
                sender_type.clone(),
                conversation_id.clone(),
                message.clone(),
            ],
            Statement::InsertConversation { id, user_id, title } => vec![
                id.clone(),
                user_id.clone(),
                title.clone(),
            ],
            Statement::ConversationsByUser { user_id } => vec![user_id.clone()],
            Statement::MessagesByConversation { conversation_id } => vec![conversation_id.clone()],
            Statement::DeleteConversation { id } => vec![id.clone()],
            Statement::InsertEmbedding { id, topic, embedding } => vec![
                id.clone(),
                topic.clone(),
                embedding.clone(),
            ],
            Statement::DeleteEmbedding { id } => vec![id.clone()],
            Statement::EmbeddingById { id } => vec![id.clone()],
            Statement::AllEmbeddings => vec![],
        };
        assert(views(values@) =~= self@.binds());
        values
    }
}

impl Statement {
    /// The statement that creates the tables, run when the service starts.
    pub fn create_tables() -> (s: Statement)
        ensures
            s@ == StatementModel::CreateTables,
    {
        Statement::CreateTables
    }

    /// Stores `message`, sent by `sender_type`, in a conversation, under a fresh identifier.
    pub fn add_message_to_conversation(sender_type: &str, conversation_id: &str, message: &str) -> (s:
        Statement)
        ensures
            s@ matches StatementModel::InsertMessage {
                id,
                sender_type: st,
                conversation_id: c,
                message: m,
            } && is_random_uuid_text(id) && st == sender_type@ && c == conversation_id@ && m
                == message@,
    {
        Statement::InsertMessage {
            id: new_id(),
            sender_type: sender_type.to_owned(),
            conversation_id: conversation_id.to_owned(),
            message: message.to_owned(),
        }
    }

    /// Stores a conversation of a user under a fresh identifier; returns the identifier too.
    pub fn insert_conversation(user_id: &str, title: &str) -> (res: (String, Statement))
        ensures
            is_random_uuid_text(res.0@),
            res.1@ == (StatementModel::InsertConversation {
                id: res.0@,
                user_id: user_id@,
                title: title@,
            }),
    {
        let id = new_id();
        let s = Statement::InsertConversation {
            id: id.clone(),
            user_id: user_id.to_owned(),
            title: title.to_owned(),
        };
        (id, s)
    }

    /// Lists the conversations of a user, newest first.
    pub fn get_conversation_list_by_user(user_id: &str) -> (s: Statement)
        ensures
            s@ == (StatementModel::ConversationsByUser { user_id: user_id@ }),
    {
        Statement::ConversationsByUser { user_id: user_id.to_owned() }
    }

    /// Lists the messages of a conversation, oldest first.
    pub fn get_conversation_by_id(conversation_id: &str) -> (s: Statement)
        ensures
            s@ == (StatementModel::MessagesByConversation { conversation_id: conversation_id@ }),
    {
        Statement::MessagesByConversation { conversation_id: conversation_id.to_owned() }
    }

    /// Deletes a conversation.
    pub fn delete_conversation(conversation_id: &str) -> (s: Statement)
        ensures
            s@ == (StatementModel::DeleteConversation { id: conversation_id@ }),
    {
        Statement::DeleteConversation { id: conversation_id.to_owned() }
    }

    /// Stores an embedding, given as JSON text, under a topic and a fresh identifier.
    pub fn insert_embedding(topic: String, embedding: String) -> (s: Statement)
        ensures
            s@ matches StatementModel::InsertEmbedding { id, topic: t, embedding: e } && is_random_uuid_text(id) && t
                == topic@ && e == embedding@,
    {
        Statement::InsertEmbedding { id: new_id(), topic, embedding }
    }

    /// Deletes an embedding.
    pub fn delete_embedding(id: &str) -> (s: Statement)
        ensures
            s@ == (StatementModel::DeleteEmbedding { id: id@ }),
    {
        Statement::DeleteEmbedding { id: id.to_owned() }
    }

    /// Reads an embedding.
    pub fn get_embedding_by_id(id: &str) -> (s: Statement)
        ensures
            s@ == (StatementModel::EmbeddingById { id: id@ }),
    {
        Statement::EmbeddingById { id: id.to_owned() }
    }

    /// Reads every embedding.
    pub fn get_all_embeddings() -> (s: Statement)
        ensures
            s@ == StatementModel::AllEmbeddings,
    {
        Statement::AllEmbeddings
    }
}

/// A statement's text values are its fields' texts, variant for variant.
pub proof fn lemma_statement_view(s: Statement)
    ensures
        s matches Statement::CreateTables ==> s@ == StatementModel::CreateTables,
        s matches Statement::InsertMessage { id, sender_type, conversation_id, message } ==> s@
            == (StatementModel::InsertMessage {
            id: id@,
            sender_type: sender_type@,
            conversation_id: conversation_id@,
            message: message@,
        }),
        s matches Statement::InsertConversation { id, user_id, title } ==> s@
            == (StatementModel::InsertConversation { id: id@, user_id: user_id@, title: title@ }),
        s matches Statement::ConversationsByUser { user_id } ==> s@
            == (StatementModel::ConversationsByUser { user_id: user_id@ }),
        s matches Statement::MessagesByConversation { conversation_id } ==> s@
            == (StatementModel::MessagesByConversation { conversation_id: conversation_id@ }),
        s matches Statement::DeleteConversation { id } ==> s@ == (StatementModel::DeleteConversation {
            id: id@,
        }),
        s matches Statement::InsertEmbedding { id, topic, embedding } ==> s@
            == (StatementModel::InsertEmbedding { id: id@, topic: topic@, embedding: embedding@ }),
        s matches Statement::DeleteEmbedding { id } ==> s@ == (StatementModel::DeleteEmbedding {
            id: id@,
        }),
        s matches Statement::EmbeddingById { id } ==> s@ == (StatementModel::EmbeddingById {
            id: id@,
        }),
        s matches Statement::AllEmbeddings ==> s@ == StatementModel::AllEmbeddings,
{
}

/// Every statement binds the values it was planned with, unchanged and in the order of its
/// fields, and statements without values bind none.
pub proof fn lemma_binds_are_fields(a: Seq<char>, b: Seq<char>, c: Seq<char>, d: Seq<char>)
    ensures
        StatementModel::CreateTables.binds() == Seq::<Seq<char>>::empty(),
        (StatementModel::InsertMessage {
            id: a,
            sender_type: b,
            conversation_id: c,
            message: d,
        }).binds() == seq![a, b, c, d],
        (StatementModel::InsertConversation { id: a, user_id: b, title: c }).binds() == seq![a, b, c],
        (StatementModel::ConversationsByUser { user_id: a }).binds() == seq![a],
        (StatementModel::MessagesByConversation { conversation_id: a }).binds() == seq![a],
        (StatementModel::DeleteConversation { id: a }).binds() == seq![a],
        (StatementModel::InsertEmbedding { id: a, topic: b, embedding: c }).binds() == seq![a, b, c],
        (StatementModel::DeleteEmbedding { id: a }).binds() == seq![a],
        (StatementModel::EmbeddingById { id: a }).binds() == seq![a],
        StatementModel::AllEmbeddings.binds() == Seq::<Seq<char>>::empty(),
{
}

/// Every statement binds exactly as many values as its SQL text has `?` placeholders.
pub proof fn lemma_binds_fill_placeholders(s: StatementModel)
    ensures
        placeholders(s.sql()) == s.binds().len(),
{
    match s {
        StatementModel::CreateTables => lemma_placeholders_create_tables(),
        StatementModel::InsertMessage { .. } => lemma_placeholders_insert_message(),
        StatementModel::InsertConversation { .. } => lemma_placeholders_insert_conversation(),
        StatementModel::ConversationsByUser { .. } => lemma_placeholders_conversations_by_user(),
        StatementModel::MessagesByConversation { .. } => lemma_placeholders_messages_by_conversation(),
        StatementModel::DeleteConversation { .. } => lemma_placeholders_delete_conversation(),
        StatementModel::InsertEmbedding { .. } => lemma_placeholders_insert_embedding(),
        StatementModel::DeleteEmbedding { .. } => lemma_placeholders_delete_embedding(),
        StatementModel::EmbeddingById { .. } => lemma_placeholders_embedding_by_id(),
        StatementModel::AllEmbeddings => lemma_placeholders_all_embeddings(),
    }
}

proof fn lemma_placeholders_create_tables()
    ensures
        placeholders(CREATE_TABLES_SQL@) == 0,
{
    reveal_strlit("
            CREATE TABLE IF NOT EXISTS messages (
                id TEXT NOT NULL,
                created_at TEXT NOT NULL DEFAULT current_timestamp,
                sender_type TEXT,
                conversation_id TEXT NOT NULL,
                message TEXT
            );
            CREATE TABLE IF NOT EXISTS conversations (
                id TEXT NOT NULL,
                created_at TEXT NOT NULL DEFAULT current_timestamp,
                user_id TEXT NOT NULL,
                title TEXT NOT NULL
            );
            CREATE TABLE IF NOT EXISTS embeddings (
                id TEXT NOT NULL,
                created_at TEXT NOT NULL DEFAULT current_timestamp,
                topic TEXT NOT NULL,
                embedding TEXT NOT NULL
            );
            ");
    reveal_with_fuel(placeholders_upto, 62);
    assert(placeholders_upto(CREATE_TABLES_SQL@, 60) == 0);
    assert(placeholders_upto(CREATE_TABLES_SQL@, 120) == 0);
    assert(placeholders_upto(CREATE_TABLES_SQL@, 180) == 0);
    assert(placeholders_upto(CREATE_TABLES_SQL@, 240) == 0);
    assert(placeholders_upto(CREATE_TABLES_SQL@, 300) == 0);
    assert(placeholders_upto(CREATE_TABLES_SQL@, 360) == 0);
    assert(placeholders_upto(CREATE_TABLES_SQL@, 420) == 0);
    assert(placeholders_upto(CREATE_TABLES_SQL@, 480) == 0);
    assert(placeholders_upto(CREATE_TABLES_SQL@, 540) == 0);
    assert(placeholders_upto(CREATE_TABLES_SQL@, 600) == 0);
    assert(placeholders_upto(CREATE_TABLES_SQL@, 660) == 0);
    assert(placeholders_upto(CREATE_TABLES_SQL@, 720) == 0);
    assert(placeholders_upto(CREATE_TABLES_SQL@, 780) == 0);
    assert(placeholders_upto(CREATE_TABLES_SQL@, 783) == 0);
}

proof fn lemma_placeholders_insert_message()
    ensures
        placeholders(INSERT_MESSAGE_SQL@) == 4,
{
    reveal_strlit("INSERT INTO messages (id, sender_type, conversation_id, message) VALUES (?, ?, ?, ?)");
    reveal_with_fuel(placeholders_upto, 86);
}

proof fn lemma_placeholders_insert_conversation()
    ensures
        placeholders(INSERT_CONVERSATION_SQL@) == 3,
{
    reveal_strlit("INSERT INTO conversations (id, user_id, title) VALUES (?, ?, ?)");
    reveal_with_fuel(placeholders_upto, 65);
}

proof fn lemma_placeholders_conversations_by_user()
    ensures
        placeholders(CONVERSATIONS_BY_USER_SQL@) == 1,
{
    reveal_strlit("SELECT * FROM conversations WHERE user_id = ? ORDER BY created_at DESC");
    reveal_with_fuel(placeholders_upto, 72);
}

proof fn lemma_placeholders_messages_by_conversation()
    ensures
        placeholders(MESSAGES_BY_CONVERSATION_SQL@) == 1,
{
    reveal_strlit("SELECT * FROM messages WHERE conversation_id = ? ORDER BY created_at ASC");
    reveal_with_fuel(placeholders_upto, 74);
}

proof fn lemma_placeholders_delete_conversation()
    ensures
        placeholders(DELETE_CONVERSATION_SQL@) == 1,
{
    reveal_strlit("DELETE FROM conversations WHERE id = ?");
    reveal_with_fuel(placeholders_upto, 40);
}

proof fn lemma_placeholders_insert_embedding()
    ensures
        placeholders(INSERT_EMBEDDING_SQL@) == 3,
{
    reveal_strlit("INSERT INTO embeddings (id, topic, embedding) VALUES (?, ?, ?)");
    reveal_with_fuel(placeholders_upto, 64);
}

proof fn lemma_placeholders_delete_embedding()
    ensures
        placeholders(DELETE_EMBEDDING_SQL@) == 1,
{
    reveal_strlit("DELETE FROM embeddings WHERE id = ?");
    reveal_with_fuel(placeholders_upto, 37);
}

proof fn lemma_placeholders_embedding_by_id()
    ensures
        placeholders(EMBEDDING_BY_ID_SQL@) == 1,
{
    reveal_strlit("SELECT embedding FROM embeddings WHERE id = ?");
    reveal_with_fuel(placeholders_upto, 47);
}

proof fn lemma_placeholders_all_embeddings()
    ensures
        placeholders(ALL_EMBEDDINGS_SQL@) == 0,
{
    reveal_strlit("SELECT * FROM embeddings");
    reveal_with_fuel(placeholders_upto, 26);
}

} // verus!
