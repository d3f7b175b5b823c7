//! Blockito: the verified core of a small retrieval-augmented chat service.
//!
//! The service answers questions about a knowledge file: it ranks the file's lines by their
//! similarity to the question, builds an instruction prompt from the closest ones, keeps the
//! conversation in a SQLite database and asks a language model. This crate holds the decisions
//! and the data handling; the I/O, the HTTP serving and the floating-point similarity are the
//! program's around it.

pub mod chat;
pub mod consts;
pub mod db;
pub mod http;
pub mod ids;
pub mod model;
pub mod text;
pub mod vector;
