//! Channel integrations for the LINE Messaging API and the Lark (Feishu)
//! messaging platform: message payload builders, webhook event handling,
//! signature checks, user allowlists and the retry / token-cache decisions.

pub mod channels;
