//! Names and settings that the service shares.
use vstd::prelude::*;

verus! {

/// Model that the llama server uses to embed text.
pub const EMBEDDING_MODEL: &'static str = "blockito-embedding";

/// Model that the llama server uses to answer questions.
pub const LANGUAGE_MODEL: &'static str = "blockito-language";

/// Name under which the assistant introduces itself.
pub const ROBOT_NAME: &'static str = "Blockito";

/// Base address of the llama server.
pub const LLAMA_URL: &'static str = "http://127.0.0.1:8765";

/// Chat role of the instruction prompt.
pub const SYSTEM: &'static str = "system";

/// Chat role of a person.
pub const USER: &'static str = "user";

/// Chat role of the assistant.
pub const ASSISTANT: &'static str = "assistant";

/// Number of chunks that a retrieval returns when the caller names none.
pub const DEFAULT_TOP_N: usize = 5;

} // verus!
