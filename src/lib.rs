//! Core of a character-roleplay chat backend: conversation memory, the
//! function-call registry, the bounded execution queue, the retry policy of
//! the function executor, and the per-turn decisions of the conversation
//! runtime.

pub mod openai;
pub mod message;
pub mod conversation;
pub mod memory;
pub mod registry;
pub mod executor;
pub mod queue;
pub mod runtime;
pub mod wei;
