//! Messaging channels.

pub mod json;
pub mod lark;
pub mod lark_types;
pub mod line_webhook;
pub mod text;
pub mod crypto;
pub mod line;

pub use lark::LarkChannel;
