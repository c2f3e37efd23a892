use tokimo_package_mail::b64::decode_base64;
use tokimo_package_mail::text::{parse_u32, split_whitespace, trim, u32_to_string};
use tokimo_package_mail::utf7::{decode_mailbox_name, mailbox_name_decodable};

fn chars(s: &str) -> Vec<char> {
    s.chars().collect()
}

#[test]
fn base64_decodes_standard_encodings() {
    assert_eq!(decode_base64("aGVsbG8="), Ok(b"hello".to_vec()));
    assert_eq!(decode_base64(""), Ok(vec![]));
    assert!(decode_base64("aGVsbG8").is_err());
    assert!(decode_base64("a===").is_err());
}

#[test]
fn mailbox_names_decode_modified_utf7() {
    assert_eq!(decode_mailbox_name("INBOX"), "INBOX");
    assert_eq!(decode_mailbox_name("&BB4EQgQ,BEAEMAQyBDsENQQ9BD0ESwQ1-"), "Отправленные");
    assert_eq!(decode_mailbox_name("th&AOkA4g-tre"), "théâtre");
    assert_eq!(decode_mailbox_name("Tom &- Jerry"), "Tom & Jerry");
    assert_eq!(decode_mailbox_name("&AWA-iuk&AWE-liad&ARcBfgEX-"), "Šiukšliadėžė");
}

#[test]
fn undecodable_mailbox_names_are_recognised() {
    assert!(mailbox_name_decodable("INBOX"));
    assert!(mailbox_name_decodable("&BB4EQgQ,BEAEMAQyBDsENQQ9BD0ESwQ1-"));
    assert!(mailbox_name_decodable("a & b"));
    assert!(mailbox_name_decodable("&-"));
    assert!(!mailbox_name_decodable("&A-"));
    assert!(!mailbox_name_decodable("&AB-"));
    assert!(!mailbox_name_decodable("&*x-"));
    assert!(!mailbox_name_decodable("ok&AOk-then&é-"));
    assert!(!mailbox_name_decodable("&AAA==-"));
    assert!(mailbox_name_decodable("&AA==-"));
    assert!(mailbox_name_decodable("&AAA=-"));
    assert!(!mailbox_name_decodable("&AAAA=-"));
}

#[test]
fn decimal_text_round_trips() {
    for n in [0u32, 7, 10, 64853, 4294967295] {
        assert_eq!(parse_u32(&chars(&u32_to_string(n))), Some(n));
    }
    assert_eq!(parse_u32(&chars("")), None);
    assert_eq!(parse_u32(&chars("+5")), Some(5));
    assert_eq!(parse_u32(&chars("-5")), None);
    assert_eq!(parse_u32(&chars("4294967296")), None);
}

#[test]
fn whitespace_helpers_follow_std() {
    assert_eq!(trim(&chars("  a b \t\n")), chars("a b"));
    assert_eq!(split_whitespace(&chars(" <a>\t<b>\r\n <c> ")), vec!["<a>", "<b>", "<c>"]);
    assert!(split_whitespace(&chars("   ")).is_empty());
}
