use tokimo_package_mail::b64::decode_base64;
use tokimo_package_mail::assemble::{build_full_message, message_from_fetches, messages_from_fetches};
use tokimo_package_mail::headers::{last_header_value, parse_address_list, parse_date, parse_header_fields};
use tokimo_package_mail::imap::{build_summary_from_header_fields, FetchedMessage, ImapFlag};
use tokimo_package_mail::message::MailDate;
use tokimo_package_mail::mime::{build_part_tree, collect_parts, BodyParts, MimePart};
use tokimo_package_mail::parse::{HeaderField, MimeNode};
use tokimo_package_mail::{MailAddress, MailError};

fn raw_fetch(uid: Option<u32>, body: &str) -> FetchedMessage {
    FetchedMessage {
        uid,
        flags: vec![ImapFlag::Flagged],
        size: Some(body.len() as u32),
        envelope: None,
        header: None,
        body: Some(body.as_bytes().to_vec()),
        text: None,
        internal_date: Some(MailDate { timestamp: 5, offset_seconds: 0 }),
    }
}

const MULTIPART: &str = "From: \"Ann Lee\" <ann@example.com>\r\n\
To: bob@example.com, carol@example.com\r\n\
Cc: dave@example.com\r\n\
Reply-To: replies@example.com\r\n\
Subject: =?UTF-8?B?5L2g5aW9?= world\r\n\
Date: Thu, 01 Jan 1970 00:16:40 +0000\r\n\
Message-ID: <m42@example.com>\r\n\
In-Reply-To: <m41@example.com>\r\n\
References: <m1@example.com>  <m41@example.com>\r\n\
MIME-Version: 1.0\r\n\
Content-Type: multipart/mixed; boundary=\"outer\"\r\n\
\r\n\
--outer\r\n\
Content-Type: multipart/alternative; boundary=\"inner\"\r\n\
\r\n\
--inner\r\n\
Content-Type: text/plain; charset=utf-8\r\n\
\r\n\
Plain body\r\n\
--inner\r\n\
Content-Type: text/html; charset=utf-8\r\n\
\r\n\
<p>Html body</p>\r\n\
--inner--\r\n\
--outer\r\n\
Content-Type: application/pdf; name=\"report.pdf\"\r\n\
Content-Transfer-Encoding: base64\r\n\
\r\n\
AAECAw==\r\n\
--outer\r\n\
Content-Type: text/plain\r\n\
Content-Disposition: ATTACHMENT\r\n\
\r\n\
notes\r\n\
--outer--\r\n";

#[test]
fn full_message_reads_headers_bodies_and_attachments() {
    let msg = message_from_fetches(42, &vec![raw_fetch(Some(99), MULTIPART)]).expect("parses");
    assert_eq!(msg.uid, 42);
    assert_eq!(msg.subject, "你好 world");
    assert_eq!(msg.from.len(), 1);
    assert_eq!(msg.from[0].name.as_deref(), Some("Ann Lee"));
    assert_eq!(msg.from[0].address, "ann@example.com");
    let to: Vec<&str> = msg.to.iter().map(|a| a.address.as_str()).collect();
    assert_eq!(to, vec!["bob@example.com", "carol@example.com"]);
    assert_eq!(msg.cc[0].address, "dave@example.com");
    assert!(msg.bcc.is_empty());
    assert_eq!(msg.reply_to[0].address, "replies@example.com");
    assert_eq!(msg.date, Some(MailDate { timestamp: 1000, offset_seconds: 0 }));
    assert_eq!(msg.message_id.as_deref(), Some("<m42@example.com>"));
    assert_eq!(msg.in_reply_to.as_deref(), Some("<m41@example.com>"));
    assert_eq!(msg.references, vec!["<m1@example.com>", "<m41@example.com>"]);
    assert_eq!(msg.flags, vec!["\\Flagged"]);
    assert_eq!(msg.size, MULTIPART.len() as u32);
    assert_eq!(msg.text_body.as_deref().map(str::trim_end), Some("Plain body"));
    assert_eq!(msg.html_body.as_deref().map(str::trim_end), Some("<p>Html body</p>"));
    assert_eq!(msg.attachments.len(), 2);
    let pdf = &msg.attachments[0];
    assert_eq!(pdf.filename, "report.pdf");
    assert_eq!(pdf.content_type, "application/pdf");
    assert_eq!(pdf.size, 4);
    assert_eq!(pdf.data.as_deref(), Some("AAECAw=="));
    let bytes = decode_base64(pdf.data.as_deref().unwrap()).unwrap();
    assert_eq!(bytes, vec![0, 1, 2, 3]);
    assert_eq!(bytes.len(), pdf.size);
    let notes = &msg.attachments[1];
    assert_eq!(notes.filename, "attachment");
    assert_eq!(notes.content_type, "text/plain");
}

#[test]
fn message_without_date_takes_internal_date() {
    let raw = "Subject: no date\r\n\r\nbody\r\n";
    let msg = message_from_fetches(1, &vec![raw_fetch(Some(1), raw)]).unwrap();
    assert_eq!(msg.date, Some(MailDate { timestamp: 5, offset_seconds: 0 }));
    assert_eq!(msg.text_body.as_deref().map(str::trim_end), Some("body"));
    assert_eq!(msg.html_body, None);
    assert!(msg.attachments.is_empty());
}

#[test]
fn empty_response_is_message_not_found() {
    match message_from_fetches(314, &vec![]) {
        Err(MailError::MessageNotFound(u)) => assert_eq!(u, 314),
        other => panic!("unexpected {other:?}"),
    }
}

#[test]
fn fetch_without_body_parses_as_empty_message() {
    let mut f = raw_fetch(Some(3), "");
    f.body = None;
    let msg = message_from_fetches(3, &vec![f]).unwrap();
    assert_eq!(msg.subject, "");
    assert!(msg.from.is_empty());
}

#[test]
fn batch_keeps_each_uid_and_order() {
    let fs = vec![
        raw_fetch(Some(10), "Subject: one\r\n\r\na\r\n"),
        raw_fetch(None, "Subject: two\r\n\r\nb\r\n"),
        raw_fetch(Some(12), "Subject: three\r\n\r\nc\r\n"),
    ];
    let msgs = messages_from_fetches(&fs);
    let got: Vec<(u32, &str)> = msgs.iter().map(|m| (m.uid, m.subject.as_str())).collect();
    assert_eq!(got, vec![(10, "one"), (0, "two"), (12, "three")]);
}

fn node(mimetype: &str, headers: Vec<(&str, &str)>, params: Vec<(&str, &str)>, body: Option<&str>, raw: Option<&[u8]>, kids: usize) -> MimeNode {
    MimeNode {
        headers: headers
            .into_iter()
            .map(|(k, v)| HeaderField { key: k.to_string(), value: v.to_string() })
            .collect(),
        mimetype: mimetype.to_string(),
        params: params.into_iter().map(|(k, v)| (k.to_string(), v.to_string())).collect(),
        body_raw: raw.map(|r| r.to_vec()),
        body: body.map(str::to_string),
        subpart_count: kids,
    }
}

#[test]
fn part_tree_is_rebuilt_from_preorder_listing() {
    let nodes = vec![
        node("multipart/mixed", vec![], vec![], None, None, 2),
        node("multipart/alternative", vec![], vec![], None, None, 2),
        node("text/plain", vec![], vec![], Some("t"), None, 0),
        node("text/html", vec![], vec![], Some("h"), None, 0),
        node("image/png", vec![], vec![("name", "a.png")], None, Some(&[1, 2, 3]), 0),
    ];
    let root = build_part_tree(nodes).expect("a listing");
    assert_eq!(root.mimetype, "multipart/mixed");
    assert_eq!(root.subparts.len(), 2);
    assert_eq!(root.subparts[0].subparts.len(), 2);
    assert_eq!(root.subparts[0].subparts[1].mimetype, "text/html");
    assert_eq!(root.subparts[1].mimetype, "image/png");
}

#[test]
fn malformed_listings_are_refused() {
    // A count that runs past the end.
    assert!(build_part_tree(vec![node("multipart/mixed", vec![], vec![], None, None, 2)]).is_none());
    // Entries left over after the tree.
    let extra = vec![node("text/plain", vec![], vec![], None, None, 0), node("text/plain", vec![], vec![], None, None, 0)];
    assert!(build_part_tree(extra).is_none());
    assert!(build_part_tree(vec![]).is_none());
}

fn leaf(mimetype: &str, headers: Vec<(&str, &str)>, params: Vec<(&str, &str)>, body: Option<&str>, raw: Option<&[u8]>) -> MimePart {
    let n = node(mimetype, headers, params, body, raw, 0);
    MimePart {
        headers: n.headers,
        mimetype: n.mimetype,
        params: n.params,
        body_raw: n.body_raw,
        body: n.body,
        subparts: vec![],
    }
}

#[test]
fn first_text_and_html_bodies_win() {
    let root = MimePart {
        headers: vec![],
        mimetype: "multipart/mixed".to_string(),
        params: vec![],
        body_raw: None,
        body: None,
        subparts: vec![
            leaf("text/plain", vec![], vec![], Some("first"), None),
            leaf("text/plain", vec![], vec![], Some("second"), None),
            leaf("text/html", vec![], vec![], Some("<b>h1</b>"), None),
            leaf("text/html", vec![], vec![], Some("<b>h2</b>"), None),
            leaf("text/calendar", vec![], vec![], Some("cal"), None),
        ],
    };
    let mut out = BodyParts { text_body: None, html_body: None, attachments: vec![] };
    collect_parts(&root, &mut out);
    assert_eq!(out.text_body.as_deref(), Some("first"));
    assert_eq!(out.html_body.as_deref(), Some("<b>h1</b>"));
    assert!(out.attachments.is_empty());
}

#[test]
fn attachments_are_not_looked_into_and_need_a_body() {
    let mut marked = leaf("multipart/mixed", vec![("Content-Disposition", "attachment; filename=x")], vec![], None, Some(b"xyz"));
    marked.subparts.push(leaf("text/plain", vec![], vec![], Some("hidden"), None));
    let root = MimePart {
        headers: vec![],
        mimetype: "multipart/mixed".to_string(),
        params: vec![],
        body_raw: None,
        body: None,
        subparts: vec![
            marked,
            leaf("image/gif", vec![], vec![("name", "pic.gif")], None, None),
            leaf("text/plain", vec![("content-disposition", "inline")], vec![], Some("shown"), None),
        ],
    };
    let mut out = BodyParts { text_body: None, html_body: None, attachments: vec![] };
    collect_parts(&root, &mut out);
    assert_eq!(out.attachments.len(), 1);
    assert_eq!(out.attachments[0].filename, "attachment");
    assert_eq!(out.attachments[0].size, 3);
    assert_eq!(out.attachments[0].data.as_deref(), Some("eHl6"));
    assert_eq!(out.text_body.as_deref(), Some("shown"));
}

#[test]
fn build_full_message_uses_last_header_of_each_name() {
    let root = leaf(
        "text/plain",
        vec![("Subject", "first"), ("SUBJECT", "second"), ("Date", "3 Smarch 2020 10:00:00 +0000"), ("bcc", "x@y.z")],
        vec![],
        Some("b"),
        None,
    );
    let m = build_full_message(7, &root, vec!["\\Seen".to_string()], 12);
    assert_eq!(m.subject, "second");
    assert_eq!(m.date, None);
    assert_eq!(m.bcc[0].address, "x@y.z");
    assert!(m.references.is_empty());
    assert_eq!(m.uid, 7);
    assert_eq!(m.size, 12);
    assert_eq!(m.text_body.as_deref(), Some("b"));
}

#[test]
fn address_lists_flatten_groups() {
    let a = parse_address_list("Ann <ann@x.org>, d@w.org, Team: b@y.org, c@z.org;");
    let got: Vec<(Option<&str>, &str)> = a.iter().map(|m| (m.name.as_deref(), m.address.as_str())).collect();
    assert_eq!(
        got,
        vec![(Some("Ann"), "ann@x.org"), (None, "d@w.org"), (None, "b@y.org"), (None, "c@z.org")]
    );
    assert!(parse_address_list("").is_empty());
}

#[test]
fn dates_are_read_in_utc() {
    assert_eq!(
        parse_date("Tue, 1 Jul 2003 10:52:37 +0200"),
        Some(MailDate { timestamp: 1057049557, offset_seconds: 0 })
    );
    assert_eq!(parse_date("1 Foo 2020 10:00:00 +0000"), None);
    assert_eq!(parse_date("1 Jan 1969 00:00:00 +0000"), None);
}

#[test]
fn header_block_summary_counts_last_header() {
    let h = parse_header_fields(b"Subject: a\r\nsubject: b\r\ncontent-type: text/plain\r\n\r\n");
    assert_eq!(h.subject, "b");
    assert!(!h.has_attachments);
    let none = parse_header_fields(b"");
    assert_eq!(none.subject, "");
    assert_eq!(none.message_id, None);
}

#[test]
fn last_header_value_compares_names_in_lower_case() {
    let hs = vec![
        HeaderField { key: "X-Tag".to_string(), value: "1".to_string() },
        HeaderField { key: "x-tag".to_string(), value: "2".to_string() },
        HeaderField { key: "Other".to_string(), value: "3".to_string() },
    ];
    assert_eq!(last_header_value(&hs, "x-tag").as_deref(), Some("2"));
    assert_eq!(last_header_value(&hs, "missing"), None);
}

#[test]
fn address_display_form() {
    let named = MailAddress { name: Some("Ann".to_string()), address: "ann@x.org".to_string() };
    assert_eq!(named.to_string(), "Ann <ann@x.org>");
    let bare = MailAddress { name: None, address: "b@y.org".to_string() };
    assert_eq!(bare.to_string(), "b@y.org");
}

#[test]
fn summary_and_full_message_agree_on_shared_fields() {
    let raw = "Subject: Same\r\nFrom: Ann <ann@x.org>\r\nTo: b@y.org\r\nDate: Thu, 01 Jan 1970 00:00:10 +0000\r\nMessage-ID: <id@x>\r\n\r\nbody\r\n";
    let mut f = raw_fetch(Some(8), raw);
    let msg = message_from_fetches(8, &vec![f.clone()]).unwrap();
    f.header = Some(raw.as_bytes().to_vec());
    let s = build_summary_from_header_fields(&f);
    assert_eq!(msg.subject, s.subject);
    assert_eq!(msg.from[0].address, s.from[0].address);
    assert_eq!(msg.to[0].address, s.to[0].address);
    assert_eq!(msg.date, s.date);
    assert_eq!(msg.message_id, s.message_id);
}

#[test]
fn unparsable_message_is_a_parse_error_and_left_out_of_batches() {
    let bad = " starts with a space\r\n\r\nbody\r\n";
    match message_from_fetches(5, &vec![raw_fetch(Some(5), bad)]) {
        Err(MailError::Parse(t)) => assert_eq!(
            t,
            "parse mail: Header cannot start with a space; it is likely an overhanging line from a previous header"
        ),
        other => panic!("unexpected {other:?}"),
    }
    let batch = messages_from_fetches(&vec![
        raw_fetch(Some(1), "Subject: ok\r\n\r\nx\r\n"),
        raw_fetch(Some(2), bad),
    ]);
    assert_eq!(batch.len(), 1);
    assert_eq!(batch[0].uid, 1);
}
