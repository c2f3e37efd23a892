use tokimo_package_mail::client::{server_address, MailClient};
use tokimo_package_mail::{MailAccountConfig, SecurityMode};

fn sample() -> MailAccountConfig {
    MailAccountConfig {
        display_name: "Work".to_string(),
        email: "user@gmail.com".to_string(),
        imap_host: "imap.gmail.com".to_string(),
        imap_port: 993,
        imap_security: SecurityMode::Tls,
        imap_username: "user@gmail.com".to_string(),
        imap_password: "app-password".to_string(),
        smtp_host: "smtp.gmail.com".to_string(),
        smtp_port: 465,
        smtp_security: SecurityMode::Tls,
        smtp_username: "user@gmail.com".to_string(),
        smtp_password: "app-password".to_string(),
        sender_name: None,
    }
}

#[test]
fn complete_config_validates() {
    assert_eq!(sample().validate(), Ok(()));
}

#[test]
fn each_required_field_is_reported() {
    let mut c = sample();
    c.email = String::new();
    assert_eq!(c.validate(), Err("Email address is required".to_string()));
    let mut c = sample();
    c.imap_host = String::new();
    assert_eq!(c.validate(), Err("IMAP host is required".to_string()));
    let mut c = sample();
    c.smtp_host = String::new();
    assert_eq!(c.validate(), Err("SMTP host is required".to_string()));
    let mut c = sample();
    c.imap_username = String::new();
    assert_eq!(c.validate(), Err("IMAP username is required".to_string()));
    let mut c = sample();
    c.smtp_username = String::new();
    assert_eq!(c.validate(), Err("SMTP username is required".to_string()));
}

#[test]
fn first_missing_field_wins() {
    let mut c = sample();
    c.smtp_username = String::new();
    c.imap_host = String::new();
    assert_eq!(c.validate(), Err("IMAP host is required".to_string()));
}

#[test]
fn passwords_are_not_required() {
    let mut c = sample();
    c.imap_password = String::new();
    c.smtp_password = String::new();
    c.display_name = String::new();
    assert_eq!(c.validate(), Ok(()));
}

#[test]
fn client_keeps_its_config() {
    let client = MailClient::new(sample());
    assert_eq!(client.config().email, "user@gmail.com");
    assert_eq!(client.config().imap_port, 993);
}

#[test]
fn server_address_joins_host_and_port() {
    assert_eq!(server_address("imap.gmail.com", 993), "imap.gmail.com:993");
    assert_eq!(server_address("h", 0), "h:0");
    assert_eq!(server_address("smtp.x", 65535), "smtp.x:65535");
}

#[test]
fn io_errors_convert_to_mail_errors() {
    let e: tokimo_package_mail::MailError = std::io::Error::new(std::io::ErrorKind::Other, "disk").into();
    match e {
        tokimo_package_mail::MailError::Io(inner) => assert_eq!(inner.to_string(), "disk"),
        other => panic!("unexpected {other:?}"),
    }
}
