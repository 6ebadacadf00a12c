//! A client library for a chat-bot HTTP API: the update model, the parsing of
//! bot commands, and the dispatcher that routes each incoming update to the
//! handlers registered for its category.

// The update model.
pub mod inline_message_id;
pub mod inline_query;
pub mod media;
pub mod message;
pub mod text;
pub mod update;

// The registry of handlers and the dispatcher.
pub mod event_loop;

// Parameters of messages to send.
pub mod input_message_content;
pub mod keyboard;
pub mod labeled_price;
pub mod parameters;
pub mod poll;
