//! Full messages: a fetched raw message parsed into its headers, bodies and
//! attachments.
use vstd::prelude::*;

use crate::error::MailError;
use crate::headers::{
    address_list, header_date, last_header, last_header_value, parse_address_list, parse_date,
    summarize_headers,
};
use crate::imap::{extract_flags, flag_names, or_zero, FetchedMessage};
use crate::message::{MailAddress, MailAddressView, MailDate, MailMessage, MailMessageView};
use crate::mime::{
    attachment_data_decodes, build_part_tree, collect_part, collect_parts,
    lemma_collect_part_extends, no_body_parts, tree_of, BodyParts, MimePart, MimePartView,
};
use crate::parse::{parse_mail, parsed_mail, HeaderField, HeaderFieldView};
use crate::text::{char_vec, concat, split_whitespace, split_ws};

verus! {

broadcast use vstd::string::group_string_axioms;

/// The mailboxes of the last header named `name`; none without one.
pub open spec fn header_addresses(hs: Seq<HeaderFieldView>, name: Seq<char>) -> Seq<
    MailAddressView,
> {
    match last_header(hs, name) {
        Some(v) => address_list(v),
        None => seq![],
    }
}

/// The message that a part tree is: the header fields read from the top
/// part's headers (for each field the last header of that name counts),
/// the bodies and attachments gathered over the whole tree.
pub open spec fn full_message(
    uid: u32,
    root: MimePartView,
    flags: Seq<Seq<char>>,
    size: u32,
) -> MailMessageView {
    let hs = root.headers;
    let parts = collect_part(root, no_body_parts());
    MailMessageView {
        uid,
        message_id: last_header(hs, "message-id"@),
        subject: match last_header(hs, "subject"@) {
            Some(v) => v,
            None => seq![],
        },
        from: header_addresses(hs, "from"@),
        to: header_addresses(hs, "to"@),
        cc: header_addresses(hs, "cc"@),
        bcc: header_addresses(hs, "bcc"@),
        reply_to: header_addresses(hs, "reply-to"@),
        date: match last_header(hs, "date"@) {
            Some(v) => header_date(v),
            None => None,
        },
        flags,
        in_reply_to: last_header(hs, "in-reply-to"@),
        references: match last_header(hs, "references"@) {
            Some(v) => split_ws(v),
            None => seq![],
        },
        text_body: parts.text_body,
        html_body: parts.html_body,
        attachments: parts.attachments,
        size,
    }
}

/// Every attachment of a message carries base64 data that decodes back to
/// exactly `size` bytes.
pub proof fn lemma_message_attachments_decode(
    uid: u32,
    root: MimePartView,
    flags: Seq<Seq<char>>,
    size: u32,
)
    ensures
        forall|k: int|
            0 <= k < full_message(uid, root, flags, size).attachments.len()
                ==> attachment_data_decodes(
                #[trigger] full_message(uid, root, flags, size).attachments[k],
            ),
{
    lemma_collect_part_extends(root, no_body_parts());
}

/// A message and a summary read from the same headers agree on the fields
/// they share: subject, sender and recipients, date and message id.
pub proof fn lemma_message_agrees_with_summary(
    uid: u32,
    root: MimePartView,
    flags: Seq<Seq<char>>,
    size: u32,
)
    ensures
        ({
            let m = full_message(uid, root, flags, size);
            let s = summarize_headers(root.headers);
            &&& m.subject == s.subject
            &&& m.from == s.from
            &&& m.to == s.to
            &&& m.date == s.date
            &&& m.message_id == s.message_id
        }),
{
}

/// The mailboxes of the last header named `name`.
fn header_addresses_of(hs: &Vec<HeaderField>, name: &str) -> (res: Vec<MailAddress>)
    ensures
        res.deep_view() == header_addresses(hs.deep_view(), name@),
{
    match last_header_value(hs, name) {
        Some(v) => parse_address_list(v.as_str()),
        None => {
            let res: Vec<MailAddress> = Vec::new();
            assert(res.deep_view() =~= Seq::<MailAddressView>::empty());
            res
        },
    }
}

/// Builds the message that a part tree is (see `full_message`).
pub fn build_full_message(uid: u32, root: &MimePart, flags: Vec<String>, size: u32) -> (res:
    MailMessage)
    ensures
        res@ == full_message(uid, root@, flags.deep_view(), size),
        res@.uid == uid,
        res@.size == size,
        res@.flags == flags.deep_view(),
        res@.from == header_addresses(root@.headers, "from"@),
        res@.to == header_addresses(root@.headers, "to"@),
        res@.cc == header_addresses(root@.headers, "cc"@),
        res@.bcc == header_addresses(root@.headers, "bcc"@),
        res@.reply_to == header_addresses(root@.headers, "reply-to"@),
        res@.message_id == last_header(root@.headers, "message-id"@),
        res@.in_reply_to == last_header(root@.headers, "in-reply-to"@),
        res@.text_body == collect_part(root@, no_body_parts()).text_body,
        res@.html_body == collect_part(root@, no_body_parts()).html_body,
        res@.attachments == collect_part(root@, no_body_parts()).attachments,
{
    let hs = &root.headers;
    let subject = match last_header_value(hs, "subject") {
        Some(v) => v,
        None => String::new(),
    };
    let from = header_addresses_of(hs, "from");
    let to = header_addresses_of(hs, "to");
    let cc = header_addresses_of(hs, "cc");
    let bcc = header_addresses_of(hs, "bcc");
    let reply_to = header_addresses_of(hs, "reply-to");
    let date = match last_header_value(hs, "date") {
        Some(v) => parse_date(v.as_str()),
        None => None,
    };
    let message_id = last_header_value(hs, "message-id");
    let in_reply_to = last_header_value(hs, "in-reply-to");
    let references = match last_header_value(hs, "references") {
        Some(v) => {
            let words = split_whitespace(char_vec(v.as_str()).as_slice());
            assert(words.deep_view() =~= words@.map_values(|w: String| w@));
            words
        },
        None => {
            let words: Vec<String> = Vec::new();
            assert(words.deep_view() =~= Seq::<Seq<char>>::empty());
            words
        },
    };
    let mut parts = BodyParts { text_body: None, html_body: None, attachments: Vec::new() };
    assert(parts@.attachments =~= Seq::empty());
    collect_parts(root, &mut parts);
    MailMessage {
        uid,
        message_id,
        subject,
        from,
        to,
        cc,
        bcc,
        reply_to,
        date,
        flags,
        in_reply_to,
        references,
        text_body: parts.text_body,
        html_body: parts.html_body,
        attachments: parts.attachments,
        size,
    }
}

/// The raw message of a fetch: its BODY[] section, or nothing.
pub open spec fn fetched_body(f: FetchedMessage) -> Seq<u8> {
    match f.body {
        Some(b) => b@,
        None => seq![],
    }
}

/// A message without a date of its own takes `fallback`.
pub open spec fn with_fallback_date(m: MailMessageView, fallback: Option<MailDate>) -> MailMessageView {
    if m.date is None {
        MailMessageView { date: fallback, ..m }
    } else {
        m
    }
}

/// What a fetched message becomes under the given UID: the message its
/// raw body parses into, dated by INTERNALDATE when its headers give no
/// date; or the parse error's text.
pub open spec fn fetched_message(uid: u32, f: FetchedMessage) -> Result<MailMessageView, Seq<char>> {
    match parsed_mail(fetched_body(f)) {
        Ok(nodes) => Ok(
            with_fallback_date(
                full_message(uid, tree_of(nodes), flag_names(f.flags@), or_zero(f.size)),
                f.internal_date,
            ),
        ),
        Err(e) => Err("parse mail: "@ + e),
    }
}

/// Parses a fetched message under the given UID (see `fetched_message`).
fn message_from_fetch(uid: u32, fetch: &FetchedMessage) -> (res: Result<MailMessage, String>)
    ensures
        match res {
            Ok(m) => fetched_message(uid, *fetch) == Ok::<MailMessageView, Seq<char>>(m@),
            Err(e) => fetched_message(uid, *fetch) == Err::<MailMessageView, Seq<char>>(e@),
        },
{
    let empty: Vec<u8> = Vec::new();
    let raw: &[u8] = match &fetch.body {
        Some(b) => b.as_slice(),
        None => empty.as_slice(),
    };
    assert(raw@ == fetched_body(*fetch));
    match parse_mail(raw) {
        Ok(nodes) => {
            let ghost nv = nodes.deep_view();
            match build_part_tree(nodes) {
                Some(root) => {
                    proof {
                        crate::mime::lemma_listing_determines_tree(root@, tree_of(nv));
                    }
                    let flags = extract_flags(fetch);
                    let size = match fetch.size {
                        Some(s) => s,
                        None => 0,
                    };
                    let mut msg = build_full_message(uid, &root, flags, size);
                    if msg.date.is_none() {
                        msg.date = fetch.internal_date;
                    }
                    Ok(msg)
                },
                None => Err(String::new()),
            }
        },
        Err(e) => Err(concat("parse mail: ", e.as_str())),
    }
}

/// The message with the given UID, from the response to fetching it:
/// `MessageNotFound` when the response is empty, `Parse` when the first
/// fetched message does not parse, else that message.
pub fn message_from_fetches(uid: u32, fetches: &Vec<FetchedMessage>) -> (res: Result<
    MailMessage,
    MailError,
>)
    ensures
        match res {
            Ok(m) => fetches@.len() > 0 && fetched_message(uid, fetches@[0]) == Ok::<
                MailMessageView,
                Seq<char>,
            >(m@),
            Err(MailError::MessageNotFound(u)) => fetches@.len() == 0 && u == uid,
            Err(MailError::Parse(e)) => fetches@.len() > 0 && fetched_message(uid, fetches@[0])
                == Err::<MailMessageView, Seq<char>>(e@),
            Err(_) => false,
        },
{
    if fetches.len() == 0 {
        return Err(MailError::MessageNotFound(uid));
    }
    match message_from_fetch(uid, &fetches[0]) {
        Ok(m) => Ok(m),
        Err(e) => Err(MailError::Parse(e)),
    }
}

/// The messages of a batch response, in order, each under its own UID (0
/// when the response omitted it); those that do not parse are left out.
pub open spec fn batch_messages(fs: Seq<FetchedMessage>) -> Seq<MailMessageView>
    decreases fs.len(),
{
    if fs.len() == 0 {
        seq![]
    } else {
        let rest = batch_messages(fs.drop_last());
        match fetched_message(or_zero(fs.last().uid), fs.last()) {
            Ok(m) => rest.push(m),
            Err(_) => rest,
        }
    }
}

/// Parses the messages of a batch response (see `batch_messages`).
pub fn messages_from_fetches(fetches: &Vec<FetchedMessage>) -> (res: Vec<MailMessage>)
    ensures
        res.deep_view() == batch_messages(fetches@),
{
    let mut res: Vec<MailMessage> = Vec::new();
    let n = fetches.len();
    assert(fetches@.take(0) =~= Seq::<FetchedMessage>::empty());
    assert(res.deep_view() =~= Seq::<MailMessageView>::empty());
    for i in 0..n
        invariant
            n == fetches@.len(),
            res.deep_view() == batch_messages(fetches@.take(i as int)),
    {
        let fetch = &fetches[i];
        let uid = match fetch.uid {
            Some(u) => u,
            None => 0,
        };
        let ghost before = res.deep_view();
        assert(fetches@.take(i + 1).drop_last() =~= fetches@.take(i as int));
        assert(fetches@.take(i + 1).last() == fetches@[i as int]);
        match message_from_fetch(uid, fetch) {
            Ok(m) => {
                res.push(m);
                assert(res.deep_view() =~= before.push(m@));
            },
            Err(_) => {},
        }
    }
    assert(fetches@.take(n as int) =~= fetches@);
    res
}

} // verus!
