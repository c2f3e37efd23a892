//! Account configuration.
use vstd::prelude::*;

verus! {

/// IMAP/SMTP connection security mode.
#[derive(Debug, Clone, Copy, PartialEq, Eq, Structural)]
pub enum SecurityMode {
    /// Direct TLS connection (port 993 for IMAP, 465 for SMTP).
    Tls,
    /// STARTTLS upgrade after plaintext connection (port 143/587).
    StartTls,
    /// No encryption (not recommended, port 143/25).
    Plain,
}

/// Full configuration for a mail account (IMAP + SMTP).
#[derive(Debug, Clone)]
pub struct MailAccountConfig {
    /// Display name for the account (e.g. "Work Email").
    pub display_name: String,
    /// Email address (used as default From).
    pub email: String,
    pub imap_host: String,
    pub imap_port: u16,
    pub imap_security: SecurityMode,
    pub imap_username: String,
    pub imap_password: String,
    pub smtp_host: String,
    pub smtp_port: u16,
    pub smtp_security: SecurityMode,
    pub smtp_username: String,
    pub smtp_password: String,
    /// Optional: sender display name in From header.
    pub sender_name: Option<String>,
}

/// The value of a [`MailAccountConfig`], with its strings as character sequences.
pub ghost struct MailAccountConfigView {
    pub display_name: Seq<char>,
    pub email: Seq<char>,
    pub imap_host: Seq<char>,
    pub imap_port: u16,
    pub imap_security: SecurityMode,
    pub imap_username: Seq<char>,
    pub imap_password: Seq<char>,
    pub smtp_host: Seq<char>,
    pub smtp_port: u16,
    pub smtp_security: SecurityMode,
    pub smtp_username: Seq<char>,
    pub smtp_password: Seq<char>,
    pub sender_name: Option<Seq<char>>,
}

impl View for MailAccountConfig {
    type V = MailAccountConfigView;

    open spec fn view(&self) -> MailAccountConfigView {
        MailAccountConfigView {
            display_name: self.display_name@,
            email: self.email@,
            imap_host: self.imap_host@,
            imap_port: self.imap_port,
            imap_security: self.imap_security,
            imap_username: self.imap_username@,
            imap_password: self.imap_password@,
            smtp_host: self.smtp_host@,
            smtp_port: self.smtp_port,
            smtp_security: self.smtp_security,
            smtp_username: self.smtp_username@,
            smtp_password: self.smtp_password@,
            sender_name: self.sender_name.deep_view(),
        }
    }
}

/// The first required field of `c` that is empty, as the message
/// `validate` reports for it; `None` when every required field is set.
pub open spec fn config_problem(c: MailAccountConfigView) -> Option<Seq<char>> {
    if c.email.len() == 0 {
        Some("Email address is required"@)
    } else if c.imap_host.len() == 0 {
        Some("IMAP host is required"@)
    } else if c.smtp_host.len() == 0 {
        Some("SMTP host is required"@)
    } else if c.imap_username.len() == 0 {
        Some("IMAP username is required"@)
    } else if c.smtp_username.len() == 0 {
        Some("SMTP username is required"@)
    } else {
        None
    }
}

impl MailAccountConfig {
    /// Quick validation that required fields are non-empty.
    pub fn validate(&self) -> (res: Result<(), String>)
        ensures
            match res {
                Ok(()) => config_problem(self@) is None,
                Err(e) => config_problem(self@) == Some(e@),
            },
            res is Ok <==> (self@.email.len() > 0 && self@.imap_host.len() > 0
                && self@.smtp_host.len() > 0 && self@.imap_username.len() > 0
                && self@.smtp_username.len() > 0),
    {
        if self.email.as_str().is_empty() {
            return Err(String::from_str("Email address is required"));
        }
        if self.imap_host.as_str().is_empty() {
            return Err(String::from_str("IMAP host is required"));
        }
        if self.smtp_host.as_str().is_empty() {
            return Err(String::from_str("SMTP host is required"));
        }
        if self.imap_username.as_str().is_empty() {
            return Err(String::from_str("IMAP username is required"));
        }
        if self.smtp_username.as_str().is_empty() {
            return Err(String::from_str("SMTP username is required"));
        }
        Ok(())
    }
}

} // verus!
