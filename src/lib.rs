//! Live translation of chat conversations: a catalog of supported languages,
//! a registry of the chat contexts that translate, the request and reply logic
//! of the translation service, and the decisions taken when a command is
//! issued, a message arrives, or a translation comes back.

pub mod catalog;
pub mod text;
pub mod deepl;
pub mod registry;
pub mod dispatch;
