//! LINE Messaging API channel.

pub mod actions;
pub mod channel;
pub mod flex;
pub mod messages;

pub use actions::{QuickReplyAction, QuickReplyItem, TemplateAction, TemplateColumn};
pub use channel::{LineApiError, LineChannel, LineRateLimitInfo};
