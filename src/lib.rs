//! Prompt assembly for chat-model APIs: a stored template is customized with runtime
//! overrides, context and a command, the user's input replaces the placeholder, the
//! prompt becomes the request body of its provider, and the provider's reply becomes
//! an assistant message appended to the conversation.
pub mod adapters;
pub mod config;
pub mod customize;
pub mod model;
pub mod names;
pub mod request;
pub mod responses;
pub mod selection;
pub mod text;
pub mod voice;
