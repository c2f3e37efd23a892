use tokimo_package_mail::client::{
    apply_folder_status, page_range, page_request, page_seq_range, retain_newer, since_request,
    since_uid_range,
};
use tokimo_package_mail::imap::{
    build_summary_from_fetch, build_summary_from_header_fields, decode_envelope_bytes,
    extract_flags, flag_states, folder_counts, folder_from_listing, idle_timeout_secs,
    merge_summaries, parse_envelope_addresses, parse_plain_range, plan_range_retry,
    search_criteria, sort_by_uid_desc, summaries_from_fetches, uid_set_string, Envelope,
    EnvelopeAddress, FetchedMessage, ImapFlag, RangeRetry,
};
use tokimo_package_mail::message::MailDate;
use tokimo_package_mail::{MailFolder, MailMessageSummary};

fn summary(uid: u32, subject: &str) -> MailMessageSummary {
    MailMessageSummary {
        uid,
        message_id: None,
        subject: subject.to_string(),
        from: vec![],
        to: vec![],
        date: None,
        flags: vec![],
        has_attachments: false,
        preview: String::new(),
        size: 0,
    }
}

fn fetched(uid: Option<u32>, flags: Vec<ImapFlag>) -> FetchedMessage {
    FetchedMessage {
        uid,
        flags,
        size: None,
        envelope: None,
        header: None,
        body: None,
        text: None,
        internal_date: None,
    }
}

#[test]
fn plain_ranges_parse() {
    assert_eq!(parse_plain_range("10:20"), Some((10, 20)));
    assert_eq!(parse_plain_range(" 7 : 9 "), Some((7, 9)));
    assert_eq!(parse_plain_range("5:5"), Some((5, 5)));
    assert_eq!(parse_plain_range("0:4294967295"), Some((0, 4294967295)));
}

#[test]
fn non_plain_ranges_are_refused() {
    assert_eq!(parse_plain_range("64853:*"), None);
    assert_eq!(parse_plain_range("1,2,3"), None);
    assert_eq!(parse_plain_range("1:2,5:6"), None);
    assert_eq!(parse_plain_range("17"), None);
    assert_eq!(parse_plain_range("a:b"), None);
    assert_eq!(parse_plain_range("1:4294967296"), None);
    assert_eq!(parse_plain_range(":5"), None);
    assert_eq!(parse_plain_range(""), None);
}

#[test]
fn retry_plan_bisects_plain_ranges() {
    match plan_range_retry("10:20") {
        RangeRetry::Bisect(l, r) => {
            assert_eq!(l, "10:15");
            assert_eq!(r, "16:20");
        }
        other => panic!("unexpected plan {other:?}"),
    }
    match plan_range_retry("1:2") {
        RangeRetry::Bisect(l, r) => {
            assert_eq!(l, "1:1");
            assert_eq!(r, "2:2");
        }
        other => panic!("unexpected plan {other:?}"),
    }
}

#[test]
fn retry_plan_skips_single_uid_and_gives_up_on_wildcards() {
    assert!(matches!(plan_range_retry("42:42"), RangeRetry::SkipPoisoned(42)));
    assert!(matches!(plan_range_retry("50:40"), RangeRetry::SkipPoisoned(50)));
    assert!(matches!(plan_range_retry("5:*"), RangeRetry::GiveUp));
    assert!(matches!(plan_range_retry("1,2"), RangeRetry::GiveUp));
}

#[test]
fn bisected_halves_are_plain_and_narrower() {
    let mut pending = vec!["100:131".to_string()];
    let mut singles = Vec::new();
    while let Some(r) = pending.pop() {
        match plan_range_retry(&r) {
            RangeRetry::Bisect(l, h) => {
                let (a, b) = parse_plain_range(&l).unwrap();
                let (c, d) = parse_plain_range(&h).unwrap();
                assert_eq!(b + 1, c);
                assert!(b - a < d - a);
                pending.push(l);
                pending.push(h);
            }
            RangeRetry::SkipPoisoned(u) => singles.push(u),
            RangeRetry::GiveUp => panic!("plain range given up"),
        }
    }
    singles.sort();
    assert_eq!(singles, (100..=131).collect::<Vec<u32>>());
}

#[test]
fn uid_sets_are_comma_separated() {
    assert_eq!(uid_set_string(&[]), "");
    assert_eq!(uid_set_string(&[7]), "7");
    assert_eq!(uid_set_string(&[3, 17, 42]), "3,17,42");
    assert_eq!(uid_set_string(&[0, 4294967295]), "0,4294967295");
}

#[test]
fn search_criteria_cover_subject_sender_and_body() {
    assert_eq!(
        search_criteria("invoice"),
        "OR OR SUBJECT \"invoice\" FROM \"invoice\" BODY \"invoice\""
    );
}

#[test]
fn summaries_sort_newest_first_and_stably() {
    let v = vec![summary(3, "a"), summary(9, "b"), summary(3, "c"), summary(5, "d")];
    let out = sort_by_uid_desc(v);
    let order: Vec<(u32, String)> = out.iter().map(|s| (s.uid, s.subject.clone())).collect();
    assert_eq!(
        order,
        vec![
            (9, "b".to_string()),
            (5, "d".to_string()),
            (3, "a".to_string()),
            (3, "c".to_string())
        ]
    );
}

#[test]
fn merged_halves_are_sorted() {
    let left = vec![summary(12, "x"), summary(10, "y")];
    let right = vec![summary(15, "z"), summary(11, "w")];
    let out = merge_summaries(left, right);
    let uids: Vec<u32> = out.iter().map(|s| s.uid).collect();
    assert_eq!(uids, vec![15, 12, 11, 10]);
}

#[test]
fn flags_are_named_as_imap_writes_them() {
    let f = fetched(
        Some(1),
        vec![
            ImapFlag::Seen,
            ImapFlag::Answered,
            ImapFlag::Flagged,
            ImapFlag::Deleted,
            ImapFlag::Draft,
            ImapFlag::Recent,
            ImapFlag::MayCreate,
            ImapFlag::Custom("$Label1".to_string()),
        ],
    );
    assert_eq!(
        extract_flags(&f),
        vec!["\\Seen", "\\Answered", "\\Flagged", "\\Deleted", "\\Draft", "\\Recent", "\\MayCreate", "$Label1"]
    );
}

#[test]
fn flag_states_report_read_and_flagged() {
    let fs = vec![
        fetched(Some(4), vec![ImapFlag::Seen]),
        fetched(Some(5), vec![ImapFlag::Flagged, ImapFlag::Custom("x".to_string())]),
        fetched(None, vec![]),
        fetched(Some(6), vec![ImapFlag::Custom("\\Seen".to_string()), ImapFlag::Flagged]),
    ];
    assert_eq!(
        flag_states(&fs),
        vec![(4, true, false), (5, false, true), (0, false, false), (6, true, true)]
    );
}

#[test]
fn envelope_text_decodes_encoded_words() {
    assert_eq!(decode_envelope_bytes(b"Hello"), "Hello");
    assert_eq!(decode_envelope_bytes(b"=?UTF-8?B?5L2g5aW9?="), "你好");
    assert_eq!(decode_envelope_bytes(b"=?ISO-8859-1?Q?Caf=E9?="), "Café");
}

#[test]
fn envelope_addresses_need_mailbox_and_host() {
    let list = Some(vec![
        EnvelopeAddress {
            name: Some(b"Alice".to_vec()),
            mailbox: Some(b"alice".to_vec()),
            host: Some(b"example.com".to_vec()),
        },
        EnvelopeAddress { name: None, mailbox: Some(b"group".to_vec()), host: None },
        EnvelopeAddress { name: None, mailbox: Some(b"bob".to_vec()), host: Some(b"b.org".to_vec()) },
    ]);
    let out = parse_envelope_addresses(&list);
    assert_eq!(out.len(), 2);
    assert_eq!(out[0].name.as_deref(), Some("Alice"));
    assert_eq!(out[0].address, "alice@example.com");
    assert_eq!(out[1].name, None);
    assert_eq!(out[1].address, "bob@b.org");
    assert!(parse_envelope_addresses(&None).is_empty());
}

#[test]
fn envelope_summary_falls_back_to_internal_date() {
    let internal = MailDate { timestamp: 1_700_000_000, offset_seconds: 3600 };
    let mut f = fetched(Some(77), vec![ImapFlag::Seen]);
    f.size = Some(2048);
    f.internal_date = Some(internal);
    f.envelope = Some(Envelope {
        date: Some(b"4 Smarch 2021 12:00:00 +0000".to_vec()),
        subject: Some(b"Quarterly report".to_vec()),
        from: Some(vec![EnvelopeAddress {
            name: None,
            mailbox: Some(b"boss".to_vec()),
            host: Some(b"corp.example".to_vec()),
        }]),
        to: None,
        message_id: Some(b"<abc@corp.example>".to_vec()),
    });
    let s = build_summary_from_fetch(&f);
    assert_eq!(s.uid, 77);
    assert_eq!(s.subject, "Quarterly report");
    assert_eq!(s.from[0].address, "boss@corp.example");
    assert!(s.to.is_empty());
    assert_eq!(s.message_id.as_deref(), Some("<abc@corp.example>"));
    assert_eq!(s.date, Some(internal));
    assert_eq!(s.flags, vec!["\\Seen"]);
    assert!(!s.has_attachments);
    assert_eq!(s.preview, "");
    assert_eq!(s.size, 2048);
}

#[test]
fn envelope_summary_reads_date_in_utc() {
    let mut f = fetched(Some(1), vec![]);
    f.envelope = Some(Envelope {
        date: Some(b"Tue, 1 Jul 2003 10:52:37 +0200".to_vec()),
        subject: None,
        from: None,
        to: None,
        message_id: None,
    });
    let s = build_summary_from_fetch(&f);
    assert_eq!(s.date, Some(MailDate { timestamp: 1057049557, offset_seconds: 0 }));
    assert_eq!(s.subject, "");
}

#[test]
fn header_fields_summary_reads_headers() {
    let mut f = fetched(Some(9), vec![]);
    f.header = Some(
        b"Subject: Hi there\r\nFrom: Ann <ann@x.org>\r\nTo: a@b.c, Group: c@d.e, f@g.h;\r\nMessage-ID: <m1@x.org>\r\nContent-Type: Multipart/Mixed; boundary=zz\r\nDate: Thu, 01 Jan 1970 00:01:40 +0000\r\n\r\n"
            .to_vec(),
    );
    let s = build_summary_from_header_fields(&f);
    assert_eq!(s.uid, 9);
    assert_eq!(s.subject, "Hi there");
    assert_eq!(s.from.len(), 1);
    assert_eq!(s.from[0].name.as_deref(), Some("Ann"));
    assert_eq!(s.from[0].address, "ann@x.org");
    let to: Vec<&str> = s.to.iter().map(|a| a.address.as_str()).collect();
    assert_eq!(to, vec!["a@b.c", "c@d.e", "f@g.h"]);
    assert_eq!(s.message_id.as_deref(), Some("<m1@x.org>"));
    assert!(s.has_attachments);
    assert_eq!(s.date, Some(MailDate { timestamp: 100, offset_seconds: 0 }));
}

#[test]
fn header_fields_summary_without_headers_uses_body_then_nothing() {
    let mut f = fetched(Some(2), vec![]);
    f.body = Some(b"Subject: From body\r\n\r\ntext".to_vec());
    assert_eq!(build_summary_from_header_fields(&f).subject, "From body");
    let g = fetched(Some(3), vec![]);
    let s = build_summary_from_header_fields(&g);
    assert_eq!(s.subject, "");
    assert!(s.from.is_empty());
    assert_eq!(s.date, None);
}

#[test]
fn summaries_from_fetches_are_newest_first() {
    let fs = vec![fetched(Some(2), vec![]), fetched(Some(8), vec![]), fetched(Some(5), vec![])];
    let uids: Vec<u32> = summaries_from_fetches(&fs).iter().map(|s| s.uid).collect();
    assert_eq!(uids, vec![8, 5, 2]);
}

#[test]
fn page_ranges_count_back_from_newest() {
    assert_eq!(page_range(100, 1, 20), (81, 100));
    assert_eq!(page_range(100, 2, 20), (61, 80));
    assert_eq!(page_range(100, 5, 20), (1, 20));
    assert_eq!(page_range(100, 6, 20), (1, 0));
    assert_eq!(page_range(10, 1, 50), (1, 10));
    assert_eq!(page_range(100, 1, 10), (91, 100));
    assert_eq!(page_range(7, 1, 0), (7, 7));
    assert_eq!(page_seq_range(100, 1, 20), "81:100");
    assert_eq!(page_seq_range(3, 1, 20), "1:3");
}

#[test]
fn pages_hold_page_size_messages_and_do_not_overlap() {
    let (total, size) = (95u32, 10u32);
    let mut seen = Vec::new();
    for page in 1..=10u32 {
        let (start, end) = page_range(total, page, size);
        assert!(end - start + 1 <= size);
        seen.extend(start..=end);
    }
    seen.sort();
    assert_eq!(seen, (1..=95).collect::<Vec<u32>>());
}

#[test]
fn since_range_starts_after_the_known_uid() {
    assert_eq!(since_uid_range(64852), "64853:*");
    assert_eq!(since_uid_range(0), "1:*");
}

#[test]
fn only_newer_summaries_are_kept() {
    let v = vec![summary(10, "old"), summary(11, "new"), summary(9, "older"), summary(12, "newer")];
    let kept: Vec<u32> = retain_newer(v, 10).iter().map(|s| s.uid).collect();
    assert_eq!(kept, vec![11, 12]);
    assert!(retain_newer(vec![summary(10, "same")], 10).is_empty());
}

#[test]
fn folder_status_updates_counts() {
    let mut f = folder_from_listing("INBOX".to_string(), Some("/".to_string()), vec!["\\HasNoChildren".to_string()]);
    assert_eq!(f.total, None);
    apply_folder_status(&mut f, Some((42, 3)));
    assert_eq!((f.total, f.unseen), (Some(42), Some(3)));
    let mut g: MailFolder = folder_from_listing("Junk".to_string(), None, vec![]);
    apply_folder_status(&mut g, None);
    assert_eq!((g.total, g.unseen), (None, None));
    assert_eq!(g.name, "Junk");
}

#[test]
fn counts_default_unseen_to_zero() {
    assert_eq!(folder_counts(7, None), (7, 0));
    assert_eq!(folder_counts(7, Some(2)), (7, 2));
}

#[test]
fn idle_waits_29_minutes_by_default() {
    assert_eq!(idle_timeout_secs(0), 1740);
    assert_eq!(idle_timeout_secs(60), 60);
}

#[test]
fn empty_folders_fetch_nothing() {
    assert_eq!(page_request(0, 0, 0), None);
    assert_eq!(page_request(100, 1, 20).as_deref(), Some("81:100"));
    assert_eq!(since_request(0, u32::MAX), None);
    assert_eq!(since_request(5, 10).as_deref(), Some("11:*"));
}

#[test]
fn retrying_a_range_when_every_fetch_fails_stays_within_the_bound() {
    for (low, high) in [(100u32, 131u32), (7, 7), (1, 2), (10, 20), (0, 99)] {
        let mut pending = vec![format!("{low}:{high}")];
        let mut fetches = 0u32;
        while let Some(r) = pending.pop() {
            fetches += 1;
            match plan_range_retry(&r) {
                RangeRetry::Bisect(l, h) => {
                    pending.push(l);
                    pending.push(h);
                }
                RangeRetry::SkipPoisoned(_) => {}
                RangeRetry::GiveUp => panic!("plain range given up"),
            }
        }
        assert_eq!(fetches, 2 * (high - low + 1) - 1);
    }
}
