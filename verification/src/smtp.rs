//! What a message to send is made of: the mailboxes parsed from the
//! account and the compose parameters, and the shape of its body. Building
//! the wire message from it and handing it to an SMTP relay is left to
//! the caller.
use vstd::prelude::*;

use crate::b64::{base64_decode_error, base64_decoded, decode_base64};
use crate::config::{MailAccountConfig, MailAccountConfigView};
use crate::error::MailError;
use crate::message::{ComposeAttachment, ComposeAttachmentView, ComposeMessage, ComposeMessageView};
use crate::text::{char_vec, concat, push_chars};

verus! {

/// A mailbox as `lettre` parses it: optional display name and address.
#[derive(Debug, Clone)]
pub struct MailboxSpec {
    pub name: Option<String>,
    pub email: String,
}

pub ghost struct MailboxSpecView {
    pub name: Option<Seq<char>>,
    pub email: Seq<char>,
}

impl View for MailboxSpec {
    type V = MailboxSpecView;

    open spec fn view(&self) -> MailboxSpecView {
        MailboxSpecView { name: self.name.deep_view(), email: self.email@ }
    }
}

impl DeepView for MailboxSpec {
    type V = MailboxSpecView;

    open spec fn deep_view(&self) -> MailboxSpecView {
        self.view()
    }
}

/// What parsing a text as a `lettre` `Mailbox` gives: the mailbox, or the
/// text of the error.
pub uninterp spec fn mailbox_parse(s: Seq<char>) -> Result<MailboxSpecView, Seq<char>>;

/// `str::parse::<lettre::message::Mailbox>`: `Name <user@domain>` or a bare
/// address, or the text of the address error.
#[verifier::external_body]
pub(crate) fn parse_mailbox(s: &str) -> (res: Result<MailboxSpec, String>)
    ensures
        match res {
            Ok(m) => mailbox_parse(s@) == Ok::<MailboxSpecView, Seq<char>>(m@),
            Err(e) => mailbox_parse(s@) == Err::<MailboxSpecView, Seq<char>>(e@),
        },
{
    match s.parse::<lettre::message::Mailbox>() {
        Ok(m) => Ok(MailboxSpec { name: m.name, email: m.email.to_string() }),
        Err(e) => Err(e.to_string()),
    }
}

/// Whether `lettre::message::header::ContentType::parse` accepts a text.
pub uninterp spec fn content_type_parses(s: Seq<char>) -> bool;

/// `ContentType::parse(s).is_ok()`: whether `s` is a MIME type `lettre` accepts.
#[verifier::external_body]
pub(crate) fn content_type_is_valid(s: &str) -> (b: bool)
    ensures
        b == content_type_parses(s@),
{
    lettre::message::header::ContentType::parse(s).is_ok()
}

/// A file to attach, decoded; `content_type` is `None` when the given type
/// does not parse (it is then sent as plain text).
#[derive(Debug)]
pub struct OutgoingAttachment {
    pub filename: String,
    pub data: Vec<u8>,
    pub content_type: Option<String>,
}

pub ghost struct OutgoingAttachmentView {
    pub filename: Seq<char>,
    pub data: Seq<u8>,
    pub content_type: Option<Seq<char>>,
}

impl View for OutgoingAttachment {
    type V = OutgoingAttachmentView;

    open spec fn view(&self) -> OutgoingAttachmentView {
        OutgoingAttachmentView {
            filename: self.filename@,
            data: self.data@,
            content_type: self.content_type.deep_view(),
        }
    }
}

impl DeepView for OutgoingAttachment {
    type V = OutgoingAttachmentView;

    open spec fn deep_view(&self) -> OutgoingAttachmentView {
        self.view()
    }
}

/// The shape of the body of a message to send.
#[derive(Debug)]
pub enum OutgoingBody {
    /// A single text part.
    Plain(String),
    /// `multipart/alternative`: text part, then HTML part.
    Alternative(String, String),
    /// `multipart/mixed`: an alternative of the text part (and the HTML part
    /// when there is one), then the attachments.
    Mixed(String, Option<String>, Vec<OutgoingAttachment>),
}

pub ghost enum OutgoingBodyView {
    Plain(Seq<char>),
    Alternative(Seq<char>, Seq<char>),
    Mixed(Seq<char>, Option<Seq<char>>, Seq<OutgoingAttachmentView>),
}

impl View for OutgoingBody {
    type V = OutgoingBodyView;

    open spec fn view(&self) -> OutgoingBodyView {
        match self {
            OutgoingBody::Plain(t) => OutgoingBodyView::Plain(t@),
            OutgoingBody::Alternative(t, h) => OutgoingBodyView::Alternative(t@, h@),
            OutgoingBody::Mixed(t, h, a) => OutgoingBodyView::Mixed(
                t@,
                h.deep_view(),
                a.deep_view(),
            ),
        }
    }
}

/// A message ready to be written out and sent.
#[derive(Debug)]
pub struct OutgoingMessage {
    pub from: MailboxSpec,
    pub to: Vec<MailboxSpec>,
    pub cc: Vec<MailboxSpec>,
    pub bcc: Vec<MailboxSpec>,
    pub subject: String,
    pub in_reply_to: Option<String>,
    pub references: Vec<String>,
    pub body: OutgoingBody,
}

pub ghost struct OutgoingMessageView {
    pub from: MailboxSpecView,
    pub to: Seq<MailboxSpecView>,
    pub cc: Seq<MailboxSpecView>,
    pub bcc: Seq<MailboxSpecView>,
    pub subject: Seq<char>,
    pub in_reply_to: Option<Seq<char>>,
    pub references: Seq<Seq<char>>,
    pub body: OutgoingBodyView,
}

impl View for OutgoingMessage {
    type V = OutgoingMessageView;

    open spec fn view(&self) -> OutgoingMessageView {
        OutgoingMessageView {
            from: self.from@,
            to: self.to.deep_view(),
            cc: self.cc.deep_view(),
            bcc: self.bcc.deep_view(),
            subject: self.subject@,
            in_reply_to: self.in_reply_to.deep_view(),
            references: self.references.deep_view(),
            body: self.body@,
        }
    }
}

// ── The rules ───────────────────────────────────────────────────────────────

/// The From text of an account: `Name <email>` with a sender name, else the
/// bare address.
pub open spec fn from_text(c: MailAccountConfigView) -> Seq<char> {
    match c.sender_name {
        Some(n) => n + " <"@ + c.email + ">"@,
        None => c.email,
    }
}

/// Parses a list of recipient texts in order; the first that does not
/// parse gives `invalid <kind> address '<text>': <error>`.
pub open spec fn mailboxes_outcome(addrs: Seq<Seq<char>>, kind: Seq<char>) -> Result<
    Seq<MailboxSpecView>,
    Seq<char>,
>
    decreases addrs.len(),
{
    if addrs.len() == 0 {
        Ok(seq![])
    } else {
        match mailboxes_outcome(addrs.drop_last(), kind) {
            Err(e) => Err(e),
            Ok(ms) => match mailbox_parse(addrs.last()) {
                Ok(m) => Ok(ms.push(m)),
                Err(e) => Err("invalid "@ + kind + " address '"@ + addrs.last() + "': "@ + e),
            },
        }
    }
}

/// Decodes the attachments in order; the first whose data is not base64
/// gives `decode attachment: <error>`.
pub open spec fn attachments_outcome(atts: Seq<ComposeAttachmentView>) -> Result<
    Seq<OutgoingAttachmentView>,
    Seq<char>,
>
    decreases atts.len(),
{
    if atts.len() == 0 {
        Ok(seq![])
    } else {
        match attachments_outcome(atts.drop_last()) {
            Err(e) => Err(e),
            Ok(out) => {
                let a = atts.last();
                match base64_decoded(a.data) {
                    Some(bytes) => Ok(
                        out.push(
                            OutgoingAttachmentView {
                                filename: a.filename,
                                data: bytes,
                                content_type: if content_type_parses(a.content_type) {
                                    Some(a.content_type)
                                } else {
                                    None
                                },
                            },
                        ),
                    ),
                    None => Err("decode attachment: "@ + base64_decode_error(a.data)),
                }
            },
        }
    }
}

/// The text body, or empty.
pub open spec fn text_or_empty(t: Option<Seq<char>>) -> Seq<char> {
    match t {
        Some(t) => t,
        None => seq![],
    }
}

/// The body of a message: without attachments, plain text or an
/// alternative of text and HTML; with attachments, a mixed body.
pub open spec fn body_outcome(c: ComposeMessageView) -> Result<OutgoingBodyView, Seq<char>> {
    if c.attachments.len() == 0 {
        match c.html_body {
            Some(h) => Ok(OutgoingBodyView::Alternative(text_or_empty(c.text_body), h)),
            None => Ok(OutgoingBodyView::Plain(text_or_empty(c.text_body))),
        }
    } else {
        match attachments_outcome(c.attachments) {
            Ok(atts) => Ok(OutgoingBodyView::Mixed(text_or_empty(c.text_body), c.html_body, atts)),
            Err(e) => Err(e),
        }
    }
}

/// What `lettre::address::Envelope::new` gives for an envelope to the
/// given recipient addresses: nothing, or the text of the error.
pub uninterp spec fn envelope_outcome(recipients: Seq<Seq<char>>) -> Result<(), Seq<char>>;

/// `lettre::address::Envelope::new(None, recipients)`, each recipient read
/// as a `lettre::Address`: nothing, or the text of the first address error
/// or of the envelope error. An envelope needs a destination, so one
/// without recipients is an error.
#[verifier::external_body]
pub(crate) fn check_envelope(recipients: &Vec<String>) -> (res: Result<(), String>)
    ensures
        match res {
            Ok(()) => envelope_outcome(recipients.deep_view()) == Ok::<(), Seq<char>>(()),
            Err(e) => envelope_outcome(recipients.deep_view()) == Err::<(), Seq<char>>(e@),
        },
        recipients@.len() == 0 ==> res is Err,
{
    let to: Result<Vec<lettre::Address>, _> = recipients.iter().map(|r| r.parse::<lettre::Address>()).collect();
    match to {
        Ok(to) => lettre::address::Envelope::new(None, to).map(|_| ()).map_err(|e| e.to_string()),
        Err(e) => Err(e.to_string()),
    }
}

/// The addresses of a list of mailboxes, in order.
pub open spec fn mailbox_emails(ms: Seq<MailboxSpecView>) -> Seq<Seq<char>> {
    ms.map_values(|m: MailboxSpecView| m.email)
}

/// The message that an account and compose parameters make, or the text of
/// the first problem: the From address, then To, Cc and Bcc in order, then
/// the attachments, then the envelope of all recipients (which needs at
/// least one).
pub open spec fn prepared_message(cfg: MailAccountConfigView, c: ComposeMessageView) -> Result<
    OutgoingMessageView,
    Seq<char>,
> {
    match mailbox_parse(from_text(cfg)) {
        Err(e) => Err("invalid From address: "@ + e),
        Ok(from) => match mailboxes_outcome(c.to, "To"@) {
            Err(e) => Err(e),
            Ok(to) => match mailboxes_outcome(c.cc, "Cc"@) {
                Err(e) => Err(e),
                Ok(cc) => match mailboxes_outcome(c.bcc, "Bcc"@) {
                    Err(e) => Err(e),
                    Ok(bcc) => match body_outcome(c) {
                        Err(e) => Err(e),
                        Ok(body) => match envelope_outcome(
                            mailbox_emails(to + cc + bcc),
                        ) {
                            Err(e) => Err("build message: "@ + e),
                            Ok(()) => Ok(
                            OutgoingMessageView {
                                from,
                                to,
                                cc,
                                bcc,
                                subject: c.subject,
                                in_reply_to: c.in_reply_to,
                                references: c.references,
                                body,
                            },
                        )
                        },
                    },
                },
            },
        },
    }
}

// ── Building it ─────────────────────────────────────────────────────────────

fn clone_string(s: &String) -> (res: String)
    ensures
        res@ == s@,
{
    s.clone()
}

fn clone_opt_string(s: &Option<String>) -> (res: Option<String>)
    ensures
        res.deep_view() == s.deep_view(),
{
    match s {
        Some(t) => Some(t.clone()),
        None => None,
    }
}

fn clone_strings(v: &Vec<String>) -> (res: Vec<String>)
    ensures
        res.deep_view() == v.deep_view(),
{
    let mut res: Vec<String> = Vec::new();
    for i in 0..v.len()
        invariant
            res.deep_view() == v.deep_view().take(i as int),
    {
        let ghost before = res.deep_view();
        let c = v[i].clone();
        res.push(c);
        assert(res.deep_view() =~= before.push(c@));
        assert(res.deep_view() =~= v.deep_view().take(i + 1));
    }
    assert(v.deep_view().take(v.deep_view().len() as int) =~= v.deep_view());
    res
}

/// Whether `ms` is what `lettre` parses the texts `addrs` into, one for one.
pub open spec fn parses_to(addrs: Seq<Seq<char>>, ms: Seq<MailboxSpecView>) -> bool {
    &&& ms.len() == addrs.len()
    &&& forall|i: int|
        0 <= i < ms.len() ==> mailbox_parse(#[trigger] addrs[i]) == Ok::<
            MailboxSpecView,
            Seq<char>,
        >(ms[i])
}

/// A recipient list that parses is the parse of each text, in order.
pub proof fn lemma_mailboxes_outcome_parses(addrs: Seq<Seq<char>>, kind: Seq<char>)
    ensures
        mailboxes_outcome(addrs, kind) matches Ok(ms) ==> parses_to(addrs, ms),
    decreases addrs.len(),
{
    if addrs.len() > 0 {
        lemma_mailboxes_outcome_parses(addrs.drop_last(), kind);
        if let Ok(ms) = mailboxes_outcome(addrs, kind) {
            let rest = mailboxes_outcome(addrs.drop_last(), kind)->Ok_0;
            assert forall|i: int| 0 <= i < ms.len() implies mailbox_parse(#[trigger] addrs[i])
                == Ok::<MailboxSpecView, Seq<char>>(ms[i]) by {
                if i < ms.len() - 1 {
                    assert(addrs[i] == addrs.drop_last()[i]);
                    assert(ms[i] == rest[i]);
                }
            }
        }
    }
}

/// A prepared message is sent from the account's From mailbox to the parse
/// of each To text, with the parse of each Cc text as its Cc and of each
/// Bcc text as its Bcc, in order, and keeps the subject and threading
/// headers as given.
pub proof fn lemma_prepared_recipients(cfg: MailAccountConfigView, c: ComposeMessageView)
    ensures
        prepared_message(cfg, c) matches Ok(m) ==> {
            &&& mailbox_parse(from_text(cfg)) == Ok::<MailboxSpecView, Seq<char>>(m.from)
            &&& parses_to(c.to, m.to)
            &&& parses_to(c.cc, m.cc)
            &&& parses_to(c.bcc, m.bcc)
            &&& m.subject == c.subject
            &&& m.in_reply_to == c.in_reply_to
            &&& m.references == c.references
            &&& body_outcome(c) == Ok::<OutgoingBodyView, Seq<char>>(m.body)
        },
{
    lemma_mailboxes_outcome_parses(c.to, "To"@);
    lemma_mailboxes_outcome_parses(c.cc, "Cc"@);
    lemma_mailboxes_outcome_parses(c.bcc, "Bcc"@);
}

proof fn lemma_mailboxes_outcome_len(addrs: Seq<Seq<char>>, kind: Seq<char>)
    ensures
        mailboxes_outcome(addrs, kind) matches Ok(ms) ==> ms.len() == addrs.len(),
    decreases addrs.len(),
{
    if addrs.len() > 0 {
        lemma_mailboxes_outcome_len(addrs.drop_last(), kind);
    }
}

/// Parses recipient texts in order, stopping at the first that does not parse.
fn parse_mailboxes(addrs: &Vec<String>, kind: &str) -> (res: Result<Vec<MailboxSpec>, String>)
    ensures
        match mailboxes_outcome(addrs.deep_view(), kind@) {
            Ok(ms) => res matches Ok(v) && v.deep_view() == ms,
            Err(e) => res matches Err(t) && t@ == e,
        },
{
    let ghost av = addrs.deep_view();
    let mut out: Vec<MailboxSpec> = Vec::new();
    assert(av.take(0) =~= Seq::<Seq<char>>::empty());
    assert(out.deep_view() =~= Seq::<MailboxSpecView>::empty());
    for i in 0..addrs.len()
        invariant
            av == addrs.deep_view(),
            mailboxes_outcome(av.take(i as int), kind@) == Ok::<Seq<MailboxSpecView>, Seq<char>>(
                out.deep_view(),
            ),
    {
        let ghost t = av.take(i + 1);
        assert(t.drop_last() =~= av.take(i as int));
        assert(t.last() == addrs@[i as int]@);
        match parse_mailbox(addrs[i].as_str()) {
            Ok(m) => {
                let ghost before = out.deep_view();
                out.push(m);
                assert(out.deep_view() =~= before.push(m@));
            },
            Err(e) => {
                let mut msg = concat("invalid ", kind);
                msg.append(" address '");
                msg.append(addrs[i].as_str());
                msg.append("': ");
                msg.append(e.as_str());
                proof {
                    lemma_mailboxes_outcome_err_stays(av, kind@, i + 1);
                }
                return Err(msg);
            },
        }
    }
    assert(av.take(av.len() as int) =~= av);
    Ok(out)
}

proof fn lemma_mailboxes_outcome_err_stays(av: Seq<Seq<char>>, kind: Seq<char>, i: int)
    requires
        0 <= i <= av.len(),
        mailboxes_outcome(av.take(i), kind) is Err,
    ensures
        mailboxes_outcome(av, kind) == mailboxes_outcome(av.take(i), kind),
    decreases av.len() - i,
{
    if i < av.len() {
        assert(av.take(i + 1).drop_last() =~= av.take(i));
        lemma_mailboxes_outcome_err_stays(av, kind, i + 1);
    } else {
        assert(av.take(i) =~= av);
    }
}

proof fn lemma_attachments_outcome_err_stays(av: Seq<ComposeAttachmentView>, i: int)
    requires
        0 <= i <= av.len(),
        attachments_outcome(av.take(i)) is Err,
    ensures
        attachments_outcome(av) == attachments_outcome(av.take(i)),
    decreases av.len() - i,
{
    if i < av.len() {
        assert(av.take(i + 1).drop_last() =~= av.take(i));
        lemma_attachments_outcome_err_stays(av, i + 1);
    } else {
        assert(av.take(i) =~= av);
    }
}

/// Decodes the attachments in order, stopping at the first that fails.
fn decode_attachments(atts: &Vec<ComposeAttachment>) -> (res: Result<Vec<OutgoingAttachment>, String>)
    ensures
        match attachments_outcome(atts.deep_view()) {
            Ok(out) => res matches Ok(v) && v.deep_view() == out,
            Err(e) => res matches Err(t) && t@ == e,
        },
{
    let ghost av = atts.deep_view();
    let mut out: Vec<OutgoingAttachment> = Vec::new();
    assert(av.take(0) =~= Seq::<ComposeAttachmentView>::empty());
    assert(out.deep_view() =~= Seq::<OutgoingAttachmentView>::empty());
    for i in 0..atts.len()
        invariant
            av == atts.deep_view(),
            attachments_outcome(av.take(i as int)) == Ok::<Seq<OutgoingAttachmentView>, Seq<char>>(
                out.deep_view(),
            ),
    {
        let a = &atts[i];
        let ghost t = av.take(i + 1);
        assert(t.drop_last() =~= av.take(i as int));
        assert(t.last() == a@);
        match decode_base64(a.data.as_str()) {
            Ok(data) => {
                let content_type = if content_type_is_valid(a.content_type.as_str()) {
                    Some(a.content_type.clone())
                } else {
                    None
                };
                let att = OutgoingAttachment { filename: a.filename.clone(), data, content_type };
                let ghost before = out.deep_view();
                out.push(att);
                assert(out.deep_view() =~= before.push(att@));
            },
            Err(e) => {
                let mut msg = String::from_str("decode attachment: ");
                msg.append(e.as_str());
                proof {
                    lemma_attachments_outcome_err_stays(av, i + 1);
                }
                return Err(msg);
            },
        }
    }
    assert(av.take(av.len() as int) =~= av);
    Ok(out)
}

/// The addresses of the recipients, To then Cc then Bcc.
fn recipient_emails(to: &Vec<MailboxSpec>, cc: &Vec<MailboxSpec>, bcc: &Vec<MailboxSpec>) -> (res:
    Vec<String>)
    ensures
        res.deep_view() == mailbox_emails(to.deep_view() + cc.deep_view() + bcc.deep_view()),
{
    let ghost all = to.deep_view() + cc.deep_view() + bcc.deep_view();
    let mut res: Vec<String> = Vec::new();
    append_emails(&mut res, to);
    append_emails(&mut res, cc);
    append_emails(&mut res, bcc);
    assert(res.deep_view() =~= mailbox_emails(all));
    res
}

/// Appends the addresses of `ms` to `out`.
fn append_emails(out: &mut Vec<String>, ms: &Vec<MailboxSpec>)
    ensures
        final(out).deep_view() == old(out).deep_view() + mailbox_emails(ms.deep_view()),
{
    let ghost start = out.deep_view();
    for i in 0..ms.len()
        invariant
            out.deep_view() == start + mailbox_emails(ms.deep_view().take(i as int)),
    {
        let ghost before = out.deep_view();
        let e = ms[i].email.clone();
        out.push(e);
        assert(out.deep_view() =~= before.push(e@));
        assert(mailbox_emails(ms.deep_view().take(i + 1)) =~= mailbox_emails(
            ms.deep_view().take(i as int),
        ).push(ms.deep_view()[i as int].email));
    }
    assert(ms.deep_view().take(ms.len() as int) =~= ms.deep_view());
}

/// The From text of the account.
fn sender_text(cfg: &MailAccountConfig) -> (res: String)
    ensures
        res@ == from_text(cfg@),
{
    match &cfg.sender_name {
        Some(name) => {
            let mut s = concat(name.as_str(), " <");
            s.append(cfg.email.as_str());
            s.append(">");
            s
        },
        None => cfg.email.clone(),
    }
}

/// The message to send for `compose` from the account `cfg`: the From
/// mailbox (the sender name and address), the recipients, subject and
/// threading headers, and the body. Fails with an SMTP error naming the
/// first address that does not parse or the first attachment whose data
/// is not base64, or with the envelope's error; a message without any
/// recipient always fails.
pub fn prepare_message(cfg: &MailAccountConfig, compose: &ComposeMessage) -> (res: Result<
    OutgoingMessage,
    MailError,
>)
    ensures
        match prepared_message(cfg@, compose@) {
            Ok(m) => res matches Ok(v) && v@ == m,
            Err(e) => res matches Err(MailError::Smtp(t)) && t@ == e,
        },
        compose@.to.len() == 0 && compose@.cc.len() == 0 && compose@.bcc.len() == 0 ==> res is Err,
        res matches Ok(m) ==> {
            &&& mailbox_parse(from_text(cfg@)) == Ok::<MailboxSpecView, Seq<char>>(m@.from)
            &&& parses_to(compose@.to, m@.to)
            &&& parses_to(compose@.cc, m@.cc)
            &&& parses_to(compose@.bcc, m@.bcc)
            &&& m@.subject == compose@.subject
            &&& body_outcome(compose@) == Ok::<OutgoingBodyView, Seq<char>>(m@.body)
        },
{
    proof {
        lemma_prepared_recipients(cfg@, compose@);
    }
    let from_s = sender_text(cfg);
    let from = match parse_mailbox(from_s.as_str()) {
        Ok(m) => m,
        Err(e) => {
            let msg = concat("invalid From address: ", e.as_str());
            return Err(MailError::Smtp(msg));
        },
    };
    let to = match parse_mailboxes(&compose.to, "To") {
        Ok(v) => v,
        Err(e) => {
            return Err(MailError::Smtp(e));
        },
    };
    let cc = match parse_mailboxes(&compose.cc, "Cc") {
        Ok(v) => v,
        Err(e) => {
            return Err(MailError::Smtp(e));
        },
    };
    let bcc = match parse_mailboxes(&compose.bcc, "Bcc") {
        Ok(v) => v,
        Err(e) => {
            return Err(MailError::Smtp(e));
        },
    };
    let text = match &compose.text_body {
        Some(t) => t.clone(),
        None => String::new(),
    };
    let body = if compose.attachments.len() == 0 {
        match &compose.html_body {
            Some(h) => OutgoingBody::Alternative(text, h.clone()),
            None => OutgoingBody::Plain(text),
        }
    } else {
        match decode_attachments(&compose.attachments) {
            Ok(atts) => OutgoingBody::Mixed(text, clone_opt_string(&compose.html_body), atts),
            Err(e) => {
                return Err(MailError::Smtp(e));
            },
        }
    };
    proof {
        lemma_mailboxes_outcome_len(compose.to.deep_view(), "To"@);
        lemma_mailboxes_outcome_len(compose.cc.deep_view(), "Cc"@);
        lemma_mailboxes_outcome_len(compose.bcc.deep_view(), "Bcc"@);
    }
    let recipients = recipient_emails(&to, &cc, &bcc);
    assert(recipients@.len() == recipients.deep_view().len());
    assert(to@.len() == to.deep_view().len() && cc@.len() == cc.deep_view().len() && bcc@.len()
        == bcc.deep_view().len());
    assert(recipients@.len() == to@.len() + cc@.len() + bcc@.len());
    match check_envelope(&recipients) {
        Ok(()) => {},
        Err(e) => {
            let msg = concat("build message: ", e.as_str());
            return Err(MailError::Smtp(msg));
        },
    }
    let msg = OutgoingMessage {
        from,
        to,
        cc,
        bcc,
        subject: clone_string(&compose.subject),
        in_reply_to: clone_opt_string(&compose.in_reply_to),
        references: clone_strings(&compose.references),
        body,
    };
    Ok(msg)
}

} // verus!
