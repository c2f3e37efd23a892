use tokimo_package_mail::config::SecurityMode;
use tokimo_package_mail::provider::{all_provider_presets, config_from_preset, detect_provider, preset_for_domain};
use tokimo_package_mail::MailProvider;

#[test]
fn presets_cover_twelve_providers_in_order() {
    let presets = all_provider_presets();
    assert_eq!(presets.len(), 12);
    assert_eq!(presets[0].provider, MailProvider::QqMail);
    assert_eq!(presets[4].provider, MailProvider::Gmail);
    assert_eq!(presets[11].provider, MailProvider::AliMail);
    assert!(presets[11].domains.is_empty());
}

#[test]
fn gmail_preset_settings() {
    let p = detect_provider("user@gmail.com").expect("gmail is known");
    assert_eq!(p.provider, MailProvider::Gmail);
    assert_eq!(p.imap_host, "imap.gmail.com");
    assert_eq!(p.smtp_host, "smtp.gmail.com");
    assert_eq!(p.imap_port, 993);
    assert_eq!(p.smtp_port, 587);
    assert_eq!(p.imap_security, SecurityMode::Tls);
    assert_eq!(p.smtp_security, SecurityMode::StartTls);
    assert!(p.requires_app_password);
}

#[test]
fn detection_ignores_case_of_domain() {
    let p = detect_provider("Someone@GMAIL.COM").expect("gmail is known");
    assert_eq!(p.provider, MailProvider::Gmail);
    let q = detect_provider("x@FoxMail.com").expect("foxmail is known");
    assert_eq!(q.provider, MailProvider::QqMail);
}

#[test]
fn detection_uses_part_after_last_at() {
    let p = detect_provider("odd@name@outlook.com").expect("outlook is known");
    assert_eq!(p.provider, MailProvider::Outlook);
    // Without an '@' the whole text is taken as the domain.
    let q = detect_provider("163.com").expect("163 is known");
    assert_eq!(q.provider, MailProvider::Netease163);
}

#[test]
fn unknown_domain_is_not_detected() {
    assert!(detect_provider("user@example.org").is_none());
    assert!(detect_provider("").is_none());
    assert!(detect_provider("user@").is_none());
}

#[test]
fn every_listed_domain_detects_its_preset() {
    for p in all_provider_presets() {
        for d in &p.domains {
            let found = preset_for_domain(d).expect("listed domain");
            assert_eq!(found.provider, p.provider);
        }
    }
}

#[test]
fn config_from_preset_fills_both_servers() {
    let p = detect_provider("me@qq.com").unwrap();
    let cfg = config_from_preset(&p, "me@qq.com", "secret", None);
    assert_eq!(cfg.display_name, p.display_name);
    assert_eq!(cfg.email, "me@qq.com");
    assert_eq!(cfg.imap_host, "imap.qq.com");
    assert_eq!(cfg.smtp_host, "smtp.qq.com");
    assert_eq!(cfg.imap_username, "me@qq.com");
    assert_eq!(cfg.smtp_username, "me@qq.com");
    assert_eq!(cfg.imap_password, "secret");
    assert_eq!(cfg.smtp_password, "secret");
    assert!(cfg.sender_name.is_none());
    assert!(cfg.validate().is_ok());
}

#[test]
fn config_from_preset_uses_given_display_name() {
    let p = detect_provider("me@icloud.com").unwrap();
    let cfg = config_from_preset(&p, "me@icloud.com", "pw", Some("Me"));
    assert_eq!(cfg.display_name, "Me");
    assert_eq!(cfg.sender_name.as_deref(), Some("Me"));
}

#[test]
fn preset_config_with_empty_email_fails_validation() {
    for p in all_provider_presets() {
        let cfg = config_from_preset(&p, "", "pw", None);
        assert_eq!(cfg.validate(), Err("Email address is required".to_string()));
        let ok = config_from_preset(&p, "a@b.c", "", None);
        assert_eq!(ok.validate(), Ok(()));
    }
}

#[test]
fn listed_domains_are_plain_lower_case() {
    for p in all_provider_presets() {
        for d in &p.domains {
            assert_eq!(d, &d.to_lowercase());
            assert!(d.is_ascii() && !d.contains('@'));
        }
    }
}
