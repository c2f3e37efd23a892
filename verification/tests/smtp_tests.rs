use tokimo_package_mail::smtp::{prepare_message, OutgoingBody};
use tokimo_package_mail::{ComposeAttachment, ComposeMessage, MailAccountConfig, MailError, SecurityMode};

fn account(sender: Option<&str>) -> MailAccountConfig {
    MailAccountConfig {
        display_name: "Work".to_string(),
        email: "me@example.com".to_string(),
        imap_host: "imap.example.com".to_string(),
        imap_port: 993,
        imap_security: SecurityMode::Tls,
        imap_username: "me@example.com".to_string(),
        imap_password: "pw".to_string(),
        smtp_host: "smtp.example.com".to_string(),
        smtp_port: 465,
        smtp_security: SecurityMode::Tls,
        smtp_username: "me@example.com".to_string(),
        smtp_password: "pw".to_string(),
        sender_name: sender.map(str::to_string),
    }
}

fn compose() -> ComposeMessage {
    ComposeMessage {
        to: vec!["Bob <bob@example.com>".to_string()],
        cc: vec![],
        bcc: vec![],
        subject: "Hello".to_string(),
        text_body: Some("Hi Bob".to_string()),
        html_body: None,
        in_reply_to: Some("<m1@example.com>".to_string()),
        references: vec!["<m0@example.com>".to_string(), "<m1@example.com>".to_string()],
        attachments: vec![],
    }
}

fn smtp_error(r: Result<tokimo_package_mail::smtp::OutgoingMessage, MailError>) -> String {
    match r {
        Err(MailError::Smtp(t)) => t,
        other => panic!("expected an SMTP error, got {other:?}"),
    }
}

#[test]
fn plain_message_is_prepared() {
    let m = prepare_message(&account(Some("Me")), &compose()).unwrap();
    assert_eq!(m.from.name.as_deref(), Some("Me"));
    assert_eq!(m.from.email, "me@example.com");
    assert_eq!(m.to.len(), 1);
    assert_eq!(m.to[0].name.as_deref(), Some("Bob"));
    assert_eq!(m.to[0].email, "bob@example.com");
    assert_eq!(m.subject, "Hello");
    assert_eq!(m.in_reply_to.as_deref(), Some("<m1@example.com>"));
    assert_eq!(m.references.len(), 2);
    assert!(matches!(m.body, OutgoingBody::Plain(ref t) if t == "Hi Bob"));
}

#[test]
fn html_message_is_an_alternative() {
    let mut c = compose();
    c.html_body = Some("<p>Hi</p>".to_string());
    c.text_body = None;
    let m = prepare_message(&account(None), &c).unwrap();
    assert_eq!(m.from.name, None);
    match m.body {
        OutgoingBody::Alternative(t, h) => {
            assert_eq!(t, "");
            assert_eq!(h, "<p>Hi</p>");
        }
        other => panic!("unexpected body {other:?}"),
    }
}

#[test]
fn attachments_make_a_mixed_body() {
    let mut c = compose();
    c.attachments = vec![
        ComposeAttachment { filename: "a.bin".to_string(), content_type: "application/octet-stream".to_string(), data: "AAECAw==".to_string() },
        ComposeAttachment { filename: "b.txt".to_string(), content_type: "not a type".to_string(), data: "".to_string() },
    ];
    let m = prepare_message(&account(None), &c).unwrap();
    match m.body {
        OutgoingBody::Mixed(t, h, atts) => {
            assert_eq!(t, "Hi Bob");
            assert_eq!(h, None);
            assert_eq!(atts.len(), 2);
            assert_eq!(atts[0].filename, "a.bin");
            assert_eq!(atts[0].data, vec![0, 1, 2, 3]);
            assert_eq!(atts[0].content_type.as_deref(), Some("application/octet-stream"));
            assert!(atts[1].data.is_empty());
            assert_eq!(atts[1].content_type, None);
        }
        other => panic!("unexpected body {other:?}"),
    }
}

#[test]
fn bad_from_address_is_reported_first() {
    let mut cfg = account(None);
    cfg.email = "not an address".to_string();
    let mut c = compose();
    c.to = vec!["also bad".to_string()];
    let e = smtp_error(prepare_message(&cfg, &c));
    assert!(e.starts_with("invalid From address: "), "{e}");
}

#[test]
fn bad_recipient_is_named() {
    let mut c = compose();
    c.to = vec!["ok@example.com".to_string(), "broken".to_string()];
    let e = smtp_error(prepare_message(&account(None), &c));
    assert!(e.starts_with("invalid To address 'broken': "), "{e}");
    let mut c = compose();
    c.cc = vec!["@@".to_string()];
    let e = smtp_error(prepare_message(&account(None), &c));
    assert!(e.starts_with("invalid Cc address '@@': "), "{e}");
    let mut c = compose();
    c.bcc = vec!["x".to_string()];
    let e = smtp_error(prepare_message(&account(None), &c));
    assert!(e.starts_with("invalid Bcc address 'x': "), "{e}");
}

#[test]
fn bad_attachment_data_is_reported() {
    let mut c = compose();
    c.attachments = vec![ComposeAttachment { filename: "x".to_string(), content_type: "text/plain".to_string(), data: "***".to_string() }];
    let e = smtp_error(prepare_message(&account(None), &c));
    assert!(e.starts_with("decode attachment: "), "{e}");
}

#[test]
fn message_without_recipients_is_refused() {
    let mut c = compose();
    c.to = vec![];
    let e = smtp_error(prepare_message(&account(None), &c));
    assert_eq!(e, "build message: missing destination address, invalid envelope");
    let mut only_bcc = compose();
    only_bcc.to = vec![];
    only_bcc.bcc = vec!["hidden@example.com".to_string()];
    assert!(prepare_message(&account(None), &only_bcc).is_ok());
}

#[test]
fn attachment_errors_come_before_the_missing_recipient() {
    let mut c = compose();
    c.to = vec![];
    c.attachments = vec![ComposeAttachment { filename: "x".to_string(), content_type: "text/plain".to_string(), data: "***".to_string() }];
    let e = smtp_error(prepare_message(&account(None), &c));
    assert!(e.starts_with("decode attachment: "), "{e}");
}
