//! Session logic of a chat relay that gates a language-model conversation
//! behind a registered access key.

pub mod codec;
pub mod command;
pub mod conversation;
pub mod credential;
mod digest;
mod json;
pub mod model;
pub mod store;

pub use codec::{decode_history, encode_history};
pub use command::{classify, has_prefix, Command};
pub use conversation::{
    complete_turn, conversation_step, drop_oldest_message, registration_reply, Step, TurnOutcome,
};
pub use credential::{credential_record, verify, CredentialRecord};
pub use model::{ChatGPTEngine, ChatMessage, DialogueState, Error, Role};
pub use store::{
    fresh_row, row_from_conversation, state_from_row, write_for, SessionStore, StoredRow, Write,
};
