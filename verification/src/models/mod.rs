//! Request and response models for the chat-completion wire protocol.

pub mod request;
pub mod response;
