//! Per-chat conversation state machine and command dispatch for a chat
//! assistant: session memory, command grammar, routing, the handlers'
//! decisions and the wording of what is sent back.

pub mod command;
pub mod correlation;
pub mod laws;
pub mod openai_client;
pub mod replicate_client;
pub mod telegram_bot;
pub mod text;
pub mod trusted;
pub mod wording;
