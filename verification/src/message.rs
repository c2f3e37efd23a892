//! Messages, addresses, folders and the parameters of a message to send.
use vstd::prelude::*;

use crate::text::{concat, push_chars, char_vec};

verus! {

/// A point in time: seconds since the Unix epoch, and the offset east of UTC
/// (in seconds) of the zone it was written in.
#[derive(Debug, Clone, Copy, PartialEq, Eq, Structural)]
pub struct MailDate {
    pub timestamp: i64,
    pub offset_seconds: i32,
}

/// The first second that `DateTime::from_timestamp` accepts
/// (January 1 of the year -262143, that is 262144 BCE, 00:00:00 UTC).
pub const MIN_TIMESTAMP: i64 = -8334601228800;

/// The last second that `DateTime::from_timestamp` accepts
/// (December 31, 262142 CE, 23:59:59 UTC).
pub const MAX_TIMESTAMP: i64 = 8210266876799;

/// The UTC date for a count of seconds since the epoch, when it is in the
/// range that `chrono` represents.
pub open spec fn utc_date_spec(secs: i64) -> Option<MailDate> {
    if MIN_TIMESTAMP <= secs <= MAX_TIMESTAMP {
        Some(MailDate { timestamp: secs, offset_seconds: 0 })
    } else {
        None
    }
}

/// `chrono::DateTime::from_timestamp(secs, 0)`, taken at offset zero: the
/// same second, or `None` outside the dates `chrono` represents.
#[verifier::external_body]
pub(crate) fn utc_date(secs: i64) -> (res: Option<MailDate>)
    ensures
        res == utc_date_spec(secs),
{
    chrono::DateTime::from_timestamp(secs, 0).map(
        |d| MailDate { timestamp: d.timestamp(), offset_seconds: d.fixed_offset().offset().local_minus_utc() },
    )
}

impl DeepView for MailDate {
    type V = MailDate;

    open spec fn deep_view(&self) -> MailDate {
        *self
    }
}

/// A parsed email address with optional display name.
#[derive(Debug, Clone)]
pub struct MailAddress {
    pub name: Option<String>,
    pub address: String,
}

pub ghost struct MailAddressView {
    pub name: Option<Seq<char>>,
    pub address: Seq<char>,
}

impl View for MailAddress {
    type V = MailAddressView;

    open spec fn view(&self) -> MailAddressView {
        MailAddressView { name: self.name.deep_view(), address: self.address@ }
    }
}

impl DeepView for MailAddress {
    type V = MailAddressView;

    open spec fn deep_view(&self) -> MailAddressView {
        self.view()
    }
}

/// How an address is written for people: `Name <address>`, or the bare
/// address when there is no display name.
pub open spec fn address_display(a: MailAddressView) -> Seq<char> {
    match a.name {
        Some(n) => n + " <"@ + a.address + ">"@,
        None => a.address,
    }
}

impl MailAddress {
    /// The address as people read it: `Name <address>` or `address`.
    pub fn to_string(&self) -> (res: String)
        ensures
            res@ == address_display(self@),
    {
        match &self.name {
            Some(name) => {
                let mut s = concat(name.as_str(), " <");
                push_chars(&mut s, char_vec(self.address.as_str()).as_slice());
                s.append(">");
                s
            },
            None => String::from_str(self.address.as_str()),
        }
    }
}

/// Email attachment metadata.
#[derive(Debug, Clone)]
pub struct MailAttachment {
    pub filename: String,
    pub content_type: String,
    pub size: usize,
    /// Base64-encoded content (only populated when fetching full message).
    pub data: Option<String>,
}

pub ghost struct MailAttachmentView {
    pub filename: Seq<char>,
    pub content_type: Seq<char>,
    pub size: usize,
    pub data: Option<Seq<char>>,
}

impl View for MailAttachment {
    type V = MailAttachmentView;

    open spec fn view(&self) -> MailAttachmentView {
        MailAttachmentView {
            filename: self.filename@,
            content_type: self.content_type@,
            size: self.size,
            data: self.data.deep_view(),
        }
    }
}

impl DeepView for MailAttachment {
    type V = MailAttachmentView;

    open spec fn deep_view(&self) -> MailAttachmentView {
        self.view()
    }
}

/// Summary of a message (for list view — no body).
#[derive(Debug, Clone)]
pub struct MailMessageSummary {
    pub uid: u32,
    pub message_id: Option<String>,
    pub subject: String,
    pub from: Vec<MailAddress>,
    pub to: Vec<MailAddress>,
    pub date: Option<MailDate>,
    pub flags: Vec<String>,
    pub has_attachments: bool,
    pub preview: String,
    /// Size in bytes (from IMAP RFC822.SIZE).
    pub size: u32,
}

pub ghost struct MailMessageSummaryView {
    pub uid: u32,
    pub message_id: Option<Seq<char>>,
    pub subject: Seq<char>,
    pub from: Seq<MailAddressView>,
    pub to: Seq<MailAddressView>,
    pub date: Option<MailDate>,
    pub flags: Seq<Seq<char>>,
    pub has_attachments: bool,
    pub preview: Seq<char>,
    pub size: u32,
}

impl View for MailMessageSummary {
    type V = MailMessageSummaryView;

    open spec fn view(&self) -> MailMessageSummaryView {
        MailMessageSummaryView {
            uid: self.uid,
            message_id: self.message_id.deep_view(),
            subject: self.subject@,
            from: self.from.deep_view(),
            to: self.to.deep_view(),
            date: self.date,
            flags: self.flags.deep_view(),
            has_attachments: self.has_attachments,
            preview: self.preview@,
            size: self.size,
        }
    }
}

impl DeepView for MailMessageSummary {
    type V = MailMessageSummaryView;

    open spec fn deep_view(&self) -> MailMessageSummaryView {
        self.view()
    }
}

/// Full parsed email message.
#[derive(Debug, Clone)]
pub struct MailMessage {
    pub uid: u32,
    pub message_id: Option<String>,
    pub subject: String,
    pub from: Vec<MailAddress>,
    pub to: Vec<MailAddress>,
    pub cc: Vec<MailAddress>,
    pub bcc: Vec<MailAddress>,
    pub reply_to: Vec<MailAddress>,
    pub date: Option<MailDate>,
    pub flags: Vec<String>,
    pub in_reply_to: Option<String>,
    pub references: Vec<String>,
    /// Plain-text body.
    pub text_body: Option<String>,
    /// HTML body.
    pub html_body: Option<String>,
    pub attachments: Vec<MailAttachment>,
    pub size: u32,
}

pub ghost struct MailMessageView {
    pub uid: u32,
    pub message_id: Option<Seq<char>>,
    pub subject: Seq<char>,
    pub from: Seq<MailAddressView>,
    pub to: Seq<MailAddressView>,
    pub cc: Seq<MailAddressView>,
    pub bcc: Seq<MailAddressView>,
    pub reply_to: Seq<MailAddressView>,
    pub date: Option<MailDate>,
    pub flags: Seq<Seq<char>>,
    pub in_reply_to: Option<Seq<char>>,
    pub references: Seq<Seq<char>>,
    pub text_body: Option<Seq<char>>,
    pub html_body: Option<Seq<char>>,
    pub attachments: Seq<MailAttachmentView>,
    pub size: u32,
}

impl View for MailMessage {
    type V = MailMessageView;

    open spec fn view(&self) -> MailMessageView {
        MailMessageView {
            uid: self.uid,
            message_id: self.message_id.deep_view(),
            subject: self.subject@,
            from: self.from.deep_view(),
            to: self.to.deep_view(),
            cc: self.cc.deep_view(),
            bcc: self.bcc.deep_view(),
            reply_to: self.reply_to.deep_view(),
            date: self.date,
            flags: self.flags.deep_view(),
            in_reply_to: self.in_reply_to.deep_view(),
            references: self.references.deep_view(),
            text_body: self.text_body.deep_view(),
            html_body: self.html_body.deep_view(),
            attachments: self.attachments.deep_view(),
            size: self.size,
        }
    }
}

impl DeepView for MailMessage {
    type V = MailMessageView;

    open spec fn deep_view(&self) -> MailMessageView {
        self.view()
    }
}

/// An IMAP mailbox / folder.
#[derive(Debug, Clone)]
pub struct MailFolder {
    pub name: String,
    pub delimiter: Option<String>,
    /// Attributes like \Sent, \Drafts, \Trash, \Junk, etc.
    pub attributes: Vec<String>,
    pub total: Option<u32>,
    pub unseen: Option<u32>,
}

pub ghost struct MailFolderView {
    pub name: Seq<char>,
    pub delimiter: Option<Seq<char>>,
    pub attributes: Seq<Seq<char>>,
    pub total: Option<u32>,
    pub unseen: Option<u32>,
}

impl View for MailFolder {
    type V = MailFolderView;

    open spec fn view(&self) -> MailFolderView {
        MailFolderView {
            name: self.name@,
            delimiter: self.delimiter.deep_view(),
            attributes: self.attributes.deep_view(),
            total: self.total,
            unseen: self.unseen,
        }
    }
}

impl DeepView for MailFolder {
    type V = MailFolderView;

    open spec fn deep_view(&self) -> MailFolderView {
        self.view()
    }
}

/// Parameters for composing a new email.
#[derive(Debug, Clone)]
pub struct ComposeMessage {
    pub to: Vec<String>,
    pub cc: Vec<String>,
    pub bcc: Vec<String>,
    pub subject: String,
    pub text_body: Option<String>,
    pub html_body: Option<String>,
    pub in_reply_to: Option<String>,
    pub references: Vec<String>,
    pub attachments: Vec<ComposeAttachment>,
}

/// A file to attach to a message being composed.
#[derive(Debug, Clone)]
pub struct ComposeAttachment {
    pub filename: String,
    pub content_type: String,
    /// Base64-encoded file data.
    pub data: String,
}

pub ghost struct ComposeAttachmentView {
    pub filename: Seq<char>,
    pub content_type: Seq<char>,
    pub data: Seq<char>,
}

impl View for ComposeAttachment {
    type V = ComposeAttachmentView;

    open spec fn view(&self) -> ComposeAttachmentView {
        ComposeAttachmentView {
            filename: self.filename@,
            content_type: self.content_type@,
            data: self.data@,
        }
    }
}

impl DeepView for ComposeAttachment {
    type V = ComposeAttachmentView;

    open spec fn deep_view(&self) -> ComposeAttachmentView {
        self.view()
    }
}

pub ghost struct ComposeMessageView {
    pub to: Seq<Seq<char>>,
    pub cc: Seq<Seq<char>>,
    pub bcc: Seq<Seq<char>>,
    pub subject: Seq<char>,
    pub text_body: Option<Seq<char>>,
    pub html_body: Option<Seq<char>>,
    pub in_reply_to: Option<Seq<char>>,
    pub references: Seq<Seq<char>>,
    pub attachments: Seq<ComposeAttachmentView>,
}

impl View for ComposeMessage {
    type V = ComposeMessageView;

    open spec fn view(&self) -> ComposeMessageView {
        ComposeMessageView {
            to: self.to.deep_view(),
            cc: self.cc.deep_view(),
            bcc: self.bcc.deep_view(),
            subject: self.subject@,
            text_body: self.text_body.deep_view(),
            html_body: self.html_body.deep_view(),
            in_reply_to: self.in_reply_to.deep_view(),
            references: self.references.deep_view(),
            attachments: self.attachments.deep_view(),
        }
    }
}

} // verus!
