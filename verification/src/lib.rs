pub mod assemble;
pub mod b64;
pub mod client;
pub mod config;
pub mod error;
pub mod headers;
pub mod imap;
pub mod message;
pub mod mime;
pub mod parse;
pub mod provider;
pub mod smtp;
pub mod text;
pub mod utf7;

pub use client::MailClient;
pub use config::{MailAccountConfig, SecurityMode};
pub use error::MailError;
pub use message::{
    ComposeAttachment, ComposeMessage, MailAddress, MailAttachment, MailFolder, MailMessage,
    MailMessageSummary,
};
pub use provider::{MailProvider, ProviderPreset};
pub use utf7::decode_mailbox_name;
