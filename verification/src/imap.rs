//! What the library makes of IMAP responses, and the IMAP arguments it
//! builds: flags, envelopes, message summaries in UID order, UID sets,
//! search criteria, and the bisection of UID ranges.
use vstd::prelude::*;

use crate::headers::{
    header_block_summary, header_date, parse_date, parse_header_fields, HeaderSummaryView,
};
use crate::message::{MailAddress, MailAddressView, MailDate, MailFolder, MailFolderView,
    MailMessageSummary, MailMessageSummaryView};
use crate::parse::{first_header_value, parse_header_value};
use crate::text::{
    char_vec, contains_char, decimal, find, find_char, from_utf8_lossy, parse_u32, parse_u32_spec,
    push_char, push_decimal, slice_range, str_eq, trim, trim_spec, utf8_lossy,
};

verus! {

broadcast use vstd::string::group_string_axioms;

// ── What a FETCH response carries ───────────────────────────────────────────

/// A message flag as the server reports it.
#[derive(Debug, Clone)]
pub enum ImapFlag {
    Seen,
    Answered,
    Flagged,
    Deleted,
    Draft,
    Recent,
    MayCreate,
    Custom(String),
}

/// One address of an ENVELOPE, its parts as the raw bytes the server sent.
#[derive(Debug, Clone)]
pub struct EnvelopeAddress {
    pub name: Option<Vec<u8>>,
    pub mailbox: Option<Vec<u8>>,
    pub host: Option<Vec<u8>>,
}

/// The parts of an ENVELOPE that a summary shows, as raw bytes.
#[derive(Debug, Clone)]
pub struct Envelope {
    pub date: Option<Vec<u8>>,
    pub subject: Option<Vec<u8>>,
    pub from: Option<Vec<EnvelopeAddress>>,
    pub to: Option<Vec<EnvelopeAddress>>,
    pub message_id: Option<Vec<u8>>,
}

/// What one FETCH response holds of a message.
#[derive(Debug, Clone)]
pub struct FetchedMessage {
    pub uid: Option<u32>,
    pub flags: Vec<ImapFlag>,
    /// RFC822.SIZE.
    pub size: Option<u32>,
    pub envelope: Option<Envelope>,
    /// BODY[HEADER] (or HEADER.FIELDS).
    pub header: Option<Vec<u8>>,
    /// BODY[].
    pub body: Option<Vec<u8>>,
    /// BODY[TEXT].
    pub text: Option<Vec<u8>>,
    pub internal_date: Option<MailDate>,
}

// ── Flags ───────────────────────────────────────────────────────────────────

/// The textual name of a flag, as IMAP writes it.
pub open spec fn flag_name(f: ImapFlag) -> Seq<char> {
    match f {
        ImapFlag::Seen => "\\Seen"@,
        ImapFlag::Answered => "\\Answered"@,
        ImapFlag::Flagged => "\\Flagged"@,
        ImapFlag::Deleted => "\\Deleted"@,
        ImapFlag::Draft => "\\Draft"@,
        ImapFlag::Recent => "\\Recent"@,
        ImapFlag::MayCreate => "\\MayCreate"@,
        ImapFlag::Custom(s) => s@,
    }
}

/// The names of a list of flags, in order.
pub open spec fn flag_names(fs: Seq<ImapFlag>) -> Seq<Seq<char>> {
    fs.map_values(|f: ImapFlag| flag_name(f))
}

fn flag_to_string(f: &ImapFlag) -> (res: String)
    ensures
        res@ == flag_name(*f),
{
    match f {
        ImapFlag::Seen => String::from_str("\\Seen"),
        ImapFlag::Answered => String::from_str("\\Answered"),
        ImapFlag::Flagged => String::from_str("\\Flagged"),
        ImapFlag::Deleted => String::from_str("\\Deleted"),
        ImapFlag::Draft => String::from_str("\\Draft"),
        ImapFlag::Recent => String::from_str("\\Recent"),
        ImapFlag::MayCreate => String::from_str("\\MayCreate"),
        ImapFlag::Custom(s) => s.clone(),
    }
}

/// The names of the flags of a fetched message.
pub fn extract_flags(fetch: &FetchedMessage) -> (res: Vec<String>)
    ensures
        res.deep_view() == flag_names(fetch.flags@),
{
    let mut res: Vec<String> = Vec::new();
    let n = fetch.flags.len();
    for i in 0..n
        invariant
            n == fetch.flags@.len(),
            res.deep_view() == flag_names(fetch.flags@.take(i as int)),
    {
        let s = flag_to_string(&fetch.flags[i]);
        let ghost before = res.deep_view();
        res.push(s);
        assert(flag_names(fetch.flags@.take(i + 1)) =~= before.push(s@));
        assert(res.deep_view() =~= before.push(s@));
    }
    assert(fetch.flags@.take(n as int) =~= fetch.flags@);
    res
}

/// Whether `name` is one of `names`.
fn has_name(names: &Vec<String>, name: &str) -> (b: bool)
    ensures
        b == names.deep_view().contains(name@),
{
    let mut i: usize = 0;
    while i < names.len()
        invariant
            i <= names@.len(),
            forall|k: int| 0 <= k < i ==> names.deep_view()[k] != name@,
        decreases names@.len() - i,
    {
        if str_eq(names[i].as_str(), name) {
            assert(names.deep_view()[i as int] == name@);
            return true;
        }
        i = i + 1;
    }
    proof {
        if names.deep_view().contains(name@) {
            let k = choose|k: int| 0 <= k < names.deep_view().len() && names.deep_view()[k]
                == name@;
            assert(names.deep_view()[k] != name@);
        }
    }
    false
}

/// A UID that the response omitted counts as 0.
pub open spec fn or_zero(o: Option<u32>) -> u32 {
    match o {
        Some(v) => v,
        None => 0,
    }
}

/// `(uid, is_read, is_flagged)` of a fetched message.
pub open spec fn flag_state(f: FetchedMessage) -> (u32, bool, bool) {
    (
        or_zero(f.uid),
        flag_names(f.flags@).contains("\\Seen"@),
        flag_names(f.flags@).contains("\\Flagged"@),
    )
}

/// Read and flagged state of each fetched message, in order:
/// `(uid, is_read, is_flagged)`.
pub fn flag_states(fetches: &Vec<FetchedMessage>) -> (res: Vec<(u32, bool, bool)>)
    ensures
        res@ == fetches@.map_values(|f: FetchedMessage| flag_state(f)),
        res@.len() == fetches@.len(),
        forall|i: int|
            0 <= i < res@.len() ==> {
                &&& (#[trigger] res@[i]).0 == or_zero(fetches@[i].uid)
                &&& res@[i].1 <==> flag_names(fetches@[i].flags@).contains("\\Seen"@)
                &&& res@[i].2 <==> flag_names(fetches@[i].flags@).contains("\\Flagged"@)
            },
{
    let mut res: Vec<(u32, bool, bool)> = Vec::new();
    let n = fetches.len();
    for i in 0..n
        invariant
            n == fetches@.len(),
            res@ == fetches@.take(i as int).map_values(|f: FetchedMessage| flag_state(f)),
    {
        let fetch = &fetches[i];
        let uid = match fetch.uid {
            Some(u) => u,
            None => 0,
        };
        let flags = extract_flags(fetch);
        let is_read = has_name(&flags, "\\Seen");
        let is_flagged = has_name(&flags, "\\Flagged");
        res.push((uid, is_read, is_flagged));
        assert(fetches@.take(i + 1).map_values(|f: FetchedMessage| flag_state(f)) =~= fetches@.take(
            i as int,
        ).map_values(|f: FetchedMessage| flag_state(f)).push(flag_state(fetches@[i as int])));
    }
    assert(fetches@.take(n as int) =~= fetches@);
    res
}

// ── Envelopes ───────────────────────────────────────────────────────────────

/// The header line `X: <raw>\r\n` that envelope text is decoded through.
pub open spec fn synthetic_header(raw: Seq<u8>) -> Seq<u8> {
    seq![88u8, 58u8, 32u8] + raw + seq![13u8, 10u8]
}

/// Envelope text (possibly RFC 2047 encoded) decoded as a header value
/// would be; the bytes read as UTF-8 when that fails.
pub open spec fn envelope_text(raw: Seq<u8>) -> Seq<char> {
    match first_header_value(synthetic_header(raw)) {
        Some(v) => v,
        None => utf8_lossy(raw),
    }
}

/// Decode IMAP envelope bytes (potentially RFC 2047 encoded) to a String,
/// through mailparse's encoded-word decoder and a synthetic header.
pub fn decode_envelope_bytes(raw: &[u8]) -> (res: String)
    ensures
        res@ == envelope_text(raw@),
{
    let mut header: Vec<u8> = Vec::new();
    header.push(88u8);
    header.push(58u8);
    header.push(32u8);
    for i in 0..raw.len()
        invariant
            header@ == seq![88u8, 58u8, 32u8] + raw@.take(i as int),
    {
        header.push(raw[i]);
        assert(raw@.take(i + 1) =~= raw@.take(i as int).push(raw@[i as int]));
        assert(header@ =~= seq![88u8, 58u8, 32u8] + raw@.take(i + 1));
    }
    header.push(13u8);
    header.push(10u8);
    assert(raw@.take(raw@.len() as int) =~= raw@);
    assert(header@ =~= synthetic_header(raw@));
    match parse_header_value(header.as_slice()) {
        Some(v) => v,
        None => from_utf8_lossy(raw),
    }
}

/// The mailbox an envelope address denotes: `mailbox@host` with the name
/// decoded; `None` when the mailbox or the host is missing.
pub open spec fn envelope_address(a: EnvelopeAddress) -> Option<MailAddressView> {
    match (a.mailbox, a.host) {
        (Some(mb), Some(h)) => Some(
            MailAddressView {
                name: match a.name {
                    Some(n) => Some(envelope_text(n@)),
                    None => None,
                },
                address: utf8_lossy(mb@) + seq!['@'] + utf8_lossy(h@),
            },
        ),
        _ => None,
    }
}

/// `envelope_address` as a function value.
pub open spec fn envelope_address_fn() -> spec_fn(EnvelopeAddress) -> Option<MailAddressView> {
    |a: EnvelopeAddress| envelope_address(a)
}

/// The mailboxes of an envelope address list, skipping entries without a
/// mailbox or host.
pub open spec fn envelope_addresses(addrs: Option<Vec<EnvelopeAddress>>) -> Seq<MailAddressView> {
    match addrs {
        Some(l) => l@.filter_map(envelope_address_fn()),
        None => seq![],
    }
}

/// Whether an envelope address names a mailbox at a host.
pub open spec fn names_mailbox(a: EnvelopeAddress) -> bool {
    a.mailbox is Some && a.host is Some
}

/// The number of entries of an envelope address list that name a mailbox
/// at a host.
pub open spec fn mailbox_count(l: Seq<EnvelopeAddress>) -> nat
    decreases l.len(),
{
    if l.len() == 0 {
        0
    } else {
        mailbox_count(l.drop_last()) + if names_mailbox(l.last()) {
            1nat
        } else {
            0nat
        }
    }
}

/// The mailboxes of an envelope address list keep, in order, exactly the
/// entries that name a mailbox at a host, each as `mailbox@host`: none is
/// dropped and none is added.
pub proof fn lemma_envelope_addresses_kept(l: Seq<EnvelopeAddress>)
    ensures
        l.filter_map(envelope_address_fn()).len() == mailbox_count(l),
        forall|a: MailAddressView|
            #![trigger l.filter_map(envelope_address_fn()).contains(a)]
            l.filter_map(envelope_address_fn()).contains(a) ==> exists|e: EnvelopeAddress|
                #[trigger] l.contains(e) && names_mailbox(e) && envelope_address(e) == Some(a),
    decreases l.len(),
{
    if l.len() > 0 {
        lemma_envelope_addresses_kept(l.drop_last());
    }
    assert forall|a: MailAddressView|
        #![trigger l.filter_map(envelope_address_fn()).contains(a)]
        l.filter_map(envelope_address_fn()).contains(a) implies exists|e: EnvelopeAddress|
            #[trigger] l.contains(e) && names_mailbox(e) && envelope_address(e) == Some(a) by {
        l.lemma_filter_map_contains(envelope_address_fn(), a);
        let e = choose|e: EnvelopeAddress| #[trigger] l.contains(e) && envelope_address_fn()(e) == Some(a);
        assert(l.contains(e) && names_mailbox(e) && envelope_address(e) == Some(a));
    }
}

/// Convert an IMAP ENVELOPE address list to `Vec<MailAddress>`.
pub fn parse_envelope_addresses(addrs: &Option<Vec<EnvelopeAddress>>) -> (res: Vec<MailAddress>)
    ensures
        res.deep_view() == envelope_addresses(*addrs),
{
    let mut res: Vec<MailAddress> = Vec::new();
    match addrs {
        None => {
            assert(res.deep_view() =~= Seq::<MailAddressView>::empty());
        },
        Some(list) => {
            let n = list.len();
            for i in 0..n
                invariant
                    n == list@.len(),
                    res.deep_view() == list@.take(i as int).filter_map(envelope_address_fn()),
            {
                let a = &list[i];
                proof {
                    list@.lemma_filter_map_take_succ(envelope_address_fn(), i as int);
                }
                match (&a.mailbox, &a.host) {
                    (Some(mb), Some(host)) => {
                        let mut address = from_utf8_lossy(mb.as_slice());
                        push_char(&mut address, '@');
                        let h = from_utf8_lossy(host.as_slice());
                        let hc = char_vec(h.as_str());
                        crate::text::push_chars(&mut address, hc.as_slice());
                        let name = match &a.name {
                            Some(n) => Some(decode_envelope_bytes(n.as_slice())),
                            None => None,
                        };
                        let ghost before = res.deep_view();
                        assert(address@ =~= utf8_lossy(mb@) + seq!['@'] + utf8_lossy(host@));
                        let m = MailAddress { name, address };
                        assert(envelope_address(*a) == Some(m@));
                        res.push(m);
                        assert(res.deep_view() =~= before + seq![m@]);
                    },
                    _ => {
                        assert(envelope_address(*a) is None);
                    },
                }
            }
            assert(list@.take(n as int) =~= list@);
        },
    }
    res
}

// ── Summaries ───────────────────────────────────────────────────────────────

/// The header bytes of a fetched message: the header section, else the
/// whole body, else the text section, else nothing.
pub open spec fn fetched_header_bytes(f: FetchedMessage) -> Seq<u8> {
    match f.header {
        Some(h) => h@,
        None => match f.body {
            Some(b) => b@,
            None => match f.text {
                Some(t) => t@,
                None => seq![],
            },
        },
    }
}

/// The summary that a message's header fields give (the HEADER.FIELDS
/// fetch): the date falls back to INTERNALDATE.
pub open spec fn summary_from_header_fields(f: FetchedMessage) -> MailMessageSummaryView {
    let h = header_block_summary(fetched_header_bytes(f));
    MailMessageSummaryView {
        uid: or_zero(f.uid),
        message_id: h.message_id,
        subject: h.subject,
        from: h.from,
        to: h.to,
        date: match h.date {
            Some(d) => Some(d),
            None => f.internal_date,
        },
        flags: flag_names(f.flags@),
        has_attachments: h.has_attachments,
        preview: seq![],
        size: or_zero(f.size),
    }
}

/// The summary of a message fetched with ENVELOPE. Without an envelope the
/// header bytes are read instead. `has_attachments` is always false here.
pub open spec fn summary_from_fetch(f: FetchedMessage) -> MailMessageSummaryView {
    match f.envelope {
        Some(env) => MailMessageSummaryView {
            uid: or_zero(f.uid),
            message_id: match env.message_id {
                Some(m) => Some(utf8_lossy(m@)),
                None => None,
            },
            subject: match env.subject {
                Some(s) => envelope_text(s@),
                None => seq![],
            },
            from: envelope_addresses(env.from),
            to: envelope_addresses(env.to),
            date: match env.date {
                Some(d) => match header_date(utf8_lossy(d@)) {
                    Some(x) => Some(x),
                    None => f.internal_date,
                },
                None => f.internal_date,
            },
            flags: flag_names(f.flags@),
            has_attachments: false,
            preview: seq![],
            size: or_zero(f.size),
        },
        None => {
            let h = header_block_summary(fetched_header_bytes(f));
            MailMessageSummaryView {
                uid: or_zero(f.uid),
                message_id: h.message_id,
                subject: h.subject,
                from: h.from,
                to: h.to,
                date: match h.date {
                    Some(d) => Some(d),
                    None => f.internal_date,
                },
                flags: flag_names(f.flags@),
                has_attachments: false,
                preview: seq![],
                size: or_zero(f.size),
            }
        },
    }
}

fn header_bytes_of(fetch: &FetchedMessage) -> (res: &[u8])
    ensures
        res@ == fetched_header_bytes(*fetch),
{
    match &fetch.header {
        Some(h) => h.as_slice(),
        None => match &fetch.body {
            Some(b) => b.as_slice(),
            None => match &fetch.text {
                Some(t) => t.as_slice(),
                None => &[],
            },
        },
    }
}

/// Build a summary from a HEADER.FIELDS fetch response.
pub fn build_summary_from_header_fields(fetch: &FetchedMessage) -> (res: MailMessageSummary)
    ensures
        res@ == summary_from_header_fields(*fetch),
        res@.uid == or_zero(fetch.uid),
        res@.flags == flag_names(fetch.flags@),
        res@.size == or_zero(fetch.size),
        res@.from == header_block_summary(fetched_header_bytes(*fetch)).from,
        res@.to == header_block_summary(fetched_header_bytes(*fetch)).to,
        res@.subject == header_block_summary(fetched_header_bytes(*fetch)).subject,
        res@.message_id == header_block_summary(fetched_header_bytes(*fetch)).message_id,
        res@.has_attachments == header_block_summary(fetched_header_bytes(*fetch)).has_attachments,
        res@.date == (match header_block_summary(fetched_header_bytes(*fetch)).date {
            Some(d) => Some(d),
            None => fetch.internal_date,
        }),
{
    let uid = match fetch.uid {
        Some(u) => u,
        None => 0,
    };
    let flags = extract_flags(fetch);
    let size = match fetch.size {
        Some(s) => s,
        None => 0,
    };
    let h = parse_header_fields(header_bytes_of(fetch));
    let date = match h.date {
        Some(d) => Some(d),
        None => fetch.internal_date,
    };
    MailMessageSummary {
        uid,
        message_id: h.message_id,
        subject: h.subject,
        from: h.from,
        to: h.to,
        date,
        flags,
        has_attachments: h.has_attachments,
        preview: String::new(),
        size,
    }
}

/// Build a summary from an ENVELOPE fetch response (falling back to the
/// header bytes when the envelope is absent).
pub fn build_summary_from_fetch(fetch: &FetchedMessage) -> (res: MailMessageSummary)
    ensures
        res@ == summary_from_fetch(*fetch),
        res@.uid == or_zero(fetch.uid),
        res@.flags == flag_names(fetch.flags@),
        res@.size == or_zero(fetch.size),
        !res@.has_attachments,
        fetch.envelope matches Some(env) ==> {
            &&& res@.from == envelope_addresses(env.from)
            &&& res@.to == envelope_addresses(env.to)
            &&& res@.subject == (match env.subject {
                Some(s) => envelope_text(s@),
                None => seq![],
            })
            &&& res@.message_id == (match env.message_id {
                Some(m) => Some(utf8_lossy(m@)),
                None => None,
            })
            &&& res@.date == (match env.date {
                Some(d) => match header_date(utf8_lossy(d@)) {
                    Some(x) => Some(x),
                    None => fetch.internal_date,
                },
                None => fetch.internal_date,
            })
        },
        fetch.envelope is None ==> {
            &&& res@.from == header_block_summary(fetched_header_bytes(*fetch)).from
            &&& res@.to == header_block_summary(fetched_header_bytes(*fetch)).to
        },
{
    let uid = match fetch.uid {
        Some(u) => u,
        None => 0,
    };
    let flags = extract_flags(fetch);
    let size = match fetch.size {
        Some(s) => s,
        None => 0,
    };
    match &fetch.envelope {
        Some(env) => {
            let subject = match &env.subject {
                Some(s) => decode_envelope_bytes(s.as_slice()),
                None => String::new(),
            };
            let from = parse_envelope_addresses(&env.from);
            let to = parse_envelope_addresses(&env.to);
            let parsed = match &env.date {
                Some(d) => {
                    let s = from_utf8_lossy(d.as_slice());
                    parse_date(s.as_str())
                },
                None => None,
            };
            let date = match parsed {
                Some(x) => Some(x),
                None => fetch.internal_date,
            };
            let message_id = match &env.message_id {
                Some(m) => Some(from_utf8_lossy(m.as_slice())),
                None => None,
            };
            MailMessageSummary {
                uid,
                message_id,
                subject,
                from,
                to,
                date,
                flags,
                has_attachments: false,
                preview: String::new(),
                size,
            }
        },
        None => {
            let h = parse_header_fields(header_bytes_of(fetch));
            let date = match h.date {
                Some(d) => Some(d),
                None => fetch.internal_date,
            };
            MailMessageSummary {
                uid,
                message_id: h.message_id,
                subject: h.subject,
                from: h.from,
                to: h.to,
                date,
                flags,
                has_attachments: false,
                preview: String::new(),
                size,
            }
        },
    }
}

/// What every summary carries of its fetch response, whichever way it is
/// read: the UID, the names of the fetched flags, and the size; a summary
/// from an envelope takes its sender and recipients from it, every entry
/// that names a mailbox.
pub proof fn lemma_summary_keeps_fetch_data(f: FetchedMessage)
    ensures
        summary_from_fetch(f).uid == or_zero(f.uid),
        summary_from_header_fields(f).uid == or_zero(f.uid),
        summary_from_fetch(f).flags == flag_names(f.flags@),
        summary_from_header_fields(f).flags == flag_names(f.flags@),
        summary_from_fetch(f).size == or_zero(f.size),
        summary_from_header_fields(f).size == or_zero(f.size),
        f.envelope matches Some(env) ==> {
            &&& summary_from_fetch(f).to == envelope_addresses(env.to)
            &&& summary_from_fetch(f).from == envelope_addresses(env.from)
            &&& env.to matches Some(l) ==> summary_from_fetch(f).to.len() == mailbox_count(l@)
        },
{
    if let Some(env) = f.envelope {
        if let Some(l) = env.to {
            lemma_envelope_addresses_kept(l@);
        }
    }
}

/// Whether a message reads as read and as flagged depends on the names of
/// its flags alone: read exactly when `\Seen` is among them, flagged
/// exactly when `\Flagged` is.
pub proof fn lemma_flag_state_reads_names(f: FetchedMessage)
    ensures
        flag_state(f).0 == or_zero(f.uid),
        flag_state(f).1 <==> exists|k: int|
            0 <= k < f.flags@.len() && flag_name(#[trigger] f.flags@[k]) == "\\Seen"@,
        flag_state(f).2 <==> exists|k: int|
            0 <= k < f.flags@.len() && flag_name(#[trigger] f.flags@[k]) == "\\Flagged"@,
{
    let names = flag_names(f.flags@);
    if flag_state(f).1 {
        let k = choose|k: int| 0 <= k < names.len() && names[k] == "\\Seen"@;
        assert(flag_name(f.flags@[k]) == "\\Seen"@);
    }
    if exists|k: int| 0 <= k < f.flags@.len() && flag_name(#[trigger] f.flags@[k]) == "\\Seen"@ {
        let k = choose|k: int| 0 <= k < f.flags@.len() && flag_name(#[trigger] f.flags@[k]) == "\\Seen"@;
        assert(names[k] == "\\Seen"@);
    }
    if flag_state(f).2 {
        let k = choose|k: int| 0 <= k < names.len() && names[k] == "\\Flagged"@;
        assert(flag_name(f.flags@[k]) == "\\Flagged"@);
    }
    if exists|k: int| 0 <= k < f.flags@.len() && flag_name(#[trigger] f.flags@[k]) == "\\Flagged"@ {
        let k = choose|k: int| 0 <= k < f.flags@.len() && flag_name(#[trigger] f.flags@[k]) == "\\Flagged"@;
        assert(names[k] == "\\Flagged"@);
    }
}

// ── Newest first ────────────────────────────────────────────────────────────

/// Whether summaries are in non-increasing UID order.
pub open spec fn sorted_by_uid_desc(s: Seq<MailMessageSummaryView>) -> bool {
    forall|i: int, j: int| 0 <= i < j < s.len() ==> s[i].uid >= s[j].uid
}

/// The predicate "has UID `k`".
pub open spec fn with_uid(k: u32) -> spec_fn(MailMessageSummaryView) -> bool {
    |x: MailMessageSummaryView| x.uid == k
}

/// `out` is `input` sorted newest (highest UID) first, stably: summaries
/// with equal UIDs keep their relative order.
pub open spec fn uid_desc_stable_sort_of(
    out: Seq<MailMessageSummaryView>,
    input: Seq<MailMessageSummaryView>,
) -> bool {
    &&& sorted_by_uid_desc(out)
    &&& forall|k: u32| #[trigger] out.filter(with_uid(k)) == input.filter(with_uid(k))
}

proof fn lemma_filter_single(x: MailMessageSummaryView, k: u32)
    ensures
        seq![x].filter(with_uid(k)) == (if x.uid == k {
            seq![x]
        } else {
            Seq::<MailMessageSummaryView>::empty()
        }),
{
    let e = Seq::<MailMessageSummaryView>::empty();
    e.lemma_filter_push(x, with_uid(k));
    assert(e.push(x) =~= seq![x]);
    reveal(Seq::filter);
    assert(e.filter(with_uid(k)) =~= e);
}

proof fn lemma_filter_none(s: Seq<MailMessageSummaryView>, k: u32)
    requires
        forall|i: int| 0 <= i < s.len() ==> s[i].uid != k,
    ensures
        s.filter(with_uid(k)) =~= Seq::<MailMessageSummaryView>::empty(),
    decreases s.len(),
{
    reveal(Seq::filter);
    if s.len() > 0 {
        lemma_filter_none(s.drop_last(), k);
    }
}

/// Sort summaries newest (highest UID) first, keeping the order of equal UIDs.
pub fn sort_by_uid_desc(v: Vec<MailMessageSummary>) -> (res: Vec<MailMessageSummary>)
    ensures
        uid_desc_stable_sort_of(res.deep_view(), v.deep_view()),
{
    broadcast use vstd::seq_lib::group_filter_ensures;
    broadcast use vstd::seq::Seq::filter_distributes_over_add;

    let ghost input = v.deep_view();
    let mut rest = v;
    let mut res: Vec<MailMessageSummary> = Vec::new();
    proof {
        reveal(Seq::filter);
        assert(input.skip(input.len() as int) =~= Seq::<MailMessageSummaryView>::empty());
        assert(res.deep_view() =~= Seq::<MailMessageSummaryView>::empty());
    }
    while rest.len() > 0
        invariant
            rest.deep_view() == input.take(rest@.len() as int),
            rest@.len() <= input.len(),
            sorted_by_uid_desc(res.deep_view()),
            forall|k: u32| #[trigger] res.deep_view().filter(with_uid(k)) == input.skip(
                rest@.len() as int,
            ).filter(with_uid(k)),
        decreases rest@.len(),
    {
        let ghost m = rest@.len() as int;
        let ghost rv = res.deep_view();
        let ghost old_rest = rest@;
        assert(rest.deep_view()[m - 1] == old_rest[m - 1]@);
        let x = rest.pop().unwrap();
        assert(x@ == input[m - 1]);
        assert(rest.deep_view() =~= input.take(m - 1));
        let mut p: usize = 0;
        while p < res.len() && res[p].uid > x.uid
            invariant
                p <= res@.len(),
                rv == res.deep_view(),
                forall|i: int| 0 <= i < p ==> rv[i].uid > x.uid,
            decreases res@.len() - p,
        {
            assert(rv[p as int].uid == res@[p as int].uid);
            p = p + 1;
        }
        proof {
            assert forall|i: int| p <= i < rv.len() implies rv[i].uid <= x.uid by {
                if p < rv.len() {
                    assert(rv[p as int].uid == res@[p as int].uid);
                    assert(rv[p as int].uid <= x.uid);
                }
            }
        }
        res.insert(p, x);
        let ghost nv = res.deep_view();
        assert(nv =~= rv.take(p as int) + seq![x@] + rv.skip(p as int));
        assert(input.skip(m - 1) =~= seq![x@] + input.skip(m));
        assert(rv =~= rv.take(p as int) + rv.skip(p as int));
        assert forall|k: u32| #[trigger] nv.filter(with_uid(k)) == input.skip(m - 1).filter(
            with_uid(k),
        ) by {
            lemma_filter_single(x@, k);
            let a = rv.take(p as int);
            let b = rv.skip(p as int);
            assert(nv.filter(with_uid(k)) == a.filter(with_uid(k)) + seq![x@].filter(with_uid(k))
                + b.filter(with_uid(k)));
            assert(rv.filter(with_uid(k)) == a.filter(with_uid(k)) + b.filter(with_uid(k)));
            assert(input.skip(m - 1).filter(with_uid(k)) == seq![x@].filter(with_uid(k))
                + input.skip(m).filter(with_uid(k)));
            if x.uid == k {
                assert forall|i: int| 0 <= i < a.len() implies a[i].uid != k by {
                    assert(a[i] == rv[i]);
                }
                lemma_filter_none(a, k);
                assert(nv.filter(with_uid(k)) =~= seq![x@] + b.filter(with_uid(k)));
                assert(rv.filter(with_uid(k)) =~= b.filter(with_uid(k)));
            } else {
                assert(nv.filter(with_uid(k)) =~= a.filter(with_uid(k)) + b.filter(with_uid(k)));
            }
        }
        assert forall|i: int, j: int| 0 <= i < j < nv.len() implies nv[i].uid >= nv[j].uid by {
            if j < p {
                assert(nv[i] == rv[i] && nv[j] == rv[j]);
            } else if j == p {
                assert(nv[j] == x@);
                assert(nv[i] == rv[i]);
            } else if i < p {
                assert(nv[i] == rv[i] && nv[j] == rv[j - 1]);
            } else if i == p {
                assert(nv[i] == x@ && nv[j] == rv[j - 1]);
            } else {
                assert(nv[i] == rv[i - 1] && nv[j] == rv[j - 1]);
            }
        }
    }
    assert(input.skip(0) =~= input);
    res
}

/// Two batches of summaries as one, newest first (`left` before `right`
/// among equal UIDs).
pub fn merge_summaries(left: Vec<MailMessageSummary>, right: Vec<MailMessageSummary>) -> (res: Vec<
    MailMessageSummary,
>)
    ensures
        uid_desc_stable_sort_of(res.deep_view(), left.deep_view() + right.deep_view()),
{
    let mut all = left;
    let mut r = right;
    let ghost lv = all.deep_view();
    let ghost rv = r.deep_view();
    all.append(&mut r);
    assert(all.deep_view() =~= lv + rv);
    sort_by_uid_desc(all)
}

/// Summaries of ENVELOPE fetch responses, newest first.
pub fn summaries_from_fetches(fetches: &Vec<FetchedMessage>) -> (res: Vec<MailMessageSummary>)
    ensures
        uid_desc_stable_sort_of(
            res.deep_view(),
            fetches@.map_values(|f: FetchedMessage| summary_from_fetch(f)),
        ),
{
    let mut out: Vec<MailMessageSummary> = Vec::new();
    let n = fetches.len();
    for i in 0..n
        invariant
            n == fetches@.len(),
            out.deep_view() == fetches@.take(i as int).map_values(
                |f: FetchedMessage| summary_from_fetch(f),
            ),
    {
        let s = build_summary_from_fetch(&fetches[i]);
        let ghost before = out.deep_view();
        out.push(s);
        assert(out.deep_view() =~= before.push(s@));
        assert(fetches@.take(i + 1).map_values(|f: FetchedMessage| summary_from_fetch(f))
            =~= before.push(summary_from_fetch(fetches@[i as int])));
    }
    assert(fetches@.take(n as int) =~= fetches@);
    sort_by_uid_desc(out)
}

/// Summaries of HEADER.FIELDS fetch responses, newest first.
pub fn summaries_from_header_fields(fetches: &Vec<FetchedMessage>) -> (res: Vec<MailMessageSummary>)
    ensures
        uid_desc_stable_sort_of(
            res.deep_view(),
            fetches@.map_values(|f: FetchedMessage| summary_from_header_fields(f)),
        ),
{
    let mut out: Vec<MailMessageSummary> = Vec::new();
    let n = fetches.len();
    for i in 0..n
        invariant
            n == fetches@.len(),
            out.deep_view() == fetches@.take(i as int).map_values(
                |f: FetchedMessage| summary_from_header_fields(f),
            ),
    {
        let s = build_summary_from_header_fields(&fetches[i]);
        let ghost before = out.deep_view();
        out.push(s);
        assert(out.deep_view() =~= before.push(s@));
        assert(fetches@.take(i + 1).map_values(|f: FetchedMessage| summary_from_header_fields(f))
            =~= before.push(summary_from_header_fields(fetches@[i as int])));
    }
    assert(fetches@.take(n as int) =~= fetches@);
    sort_by_uid_desc(out)
}


// ── Arguments of IMAP commands ──────────────────────────────────────────────

/// A UID set: the UIDs in decimal, separated by commas.
pub open spec fn uid_set(uids: Seq<u32>) -> Seq<char>
    decreases uids.len(),
{
    if uids.len() == 0 {
        seq![]
    } else if uids.len() == 1 {
        decimal(uids[0] as nat)
    } else {
        uid_set(uids.drop_last()) + seq![','] + decimal(uids.last() as nat)
    }
}

/// The UID set naming `uids`, e.g. "3,17,42".
pub fn uid_set_string(uids: &[u32]) -> (res: String)
    ensures
        res@ == uid_set(uids@),
{
    let mut s = String::new();
    for i in 0..uids.len()
        invariant
            s@ == uid_set(uids@.take(i as int)),
    {
        let ghost before = s@;
        if i > 0 {
            push_char(&mut s, ',');
        }
        push_decimal(&mut s, uids[i]);
        proof {
            let t = uids@.take(i + 1);
            assert(t.drop_last() =~= uids@.take(i as int));
            assert(t.last() == uids@[i as int]);
            if i == 0 {
                assert(s@ =~= decimal(uids@[0] as nat));
            } else {
                assert(s@ =~= before + seq![','] + decimal(uids@[i as int] as nat));
            }
        }
    }
    assert(uids@.take(uids@.len() as int) =~= uids@);
    s
}

/// SEARCH criteria matching `query` in the subject, the sender or the body.
pub open spec fn search_criteria_spec(query: Seq<char>) -> Seq<char> {
    "OR OR SUBJECT \""@ + query + "\" FROM \""@ + query + "\" BODY \""@ + query + "\""@
}

/// Build IMAP search criteria — search in subject, from, body.
pub fn search_criteria(query: &str) -> (res: String)
    ensures
        res@ == search_criteria_spec(query@),
{
    let mut s = String::from_str("OR OR SUBJECT \"");
    s.append(query);
    s.append("\" FROM \"");
    s.append(query);
    s.append("\" BODY \"");
    s.append(query);
    s.append("\"");
    s
}

// ── Plain UID ranges and their bisection ────────────────────────────────────

/// A plain `low:high` range (whitespace around each number allowed); `None`
/// for wildcards, comma lists and anything else.
pub open spec fn plain_range(s: Seq<char>) -> Option<(u32, u32)> {
    if s.contains(',') || s.contains('*') {
        None
    } else {
        match find_char(s, ':') {
            None => None,
            Some(i) => match (
                parse_u32_spec(trim_spec(s.take(i as int))),
                parse_u32_spec(trim_spec(s.skip(i + 1 as int))),
            ) {
                (Some(l), Some(h)) => Some((l, h)),
                _ => None,
            },
        }
    }
}

/// Parse a plain "low:high" numeric IMAP range. Returns None for wildcards
/// (`n:*`) or comma-separated sets — those can't be safely bisected.
pub fn parse_plain_range(range: &str) -> (res: Option<(u32, u32)>)
    ensures
        res == plain_range(range@),
{
    let cs = char_vec(range);
    if contains_char(cs.as_slice(), ',') || contains_char(cs.as_slice(), '*') {
        return None;
    }
    let n = cs.len();
    match find(cs.as_slice(), ':') {
        None => None,
        Some(i) => {
            assert(i < n);
            let l = trim(slice_range(cs.as_slice(), 0, i).as_slice());
            let h = trim(slice_range(cs.as_slice(), i + 1, n).as_slice());
            assert(cs@.subrange(0, i as int) =~= cs@.take(i as int));
            assert(cs@.subrange(i + 1, n as int) =~= cs@.skip(i + 1));
            match (parse_u32(l.as_slice()), parse_u32(h.as_slice())) {
                (Some(a), Some(b)) => Some((a, b)),
                _ => None,
            }
        },
    }
}

/// The text `a:b` of a plain range.
pub open spec fn range_text(a: nat, b: nat) -> Seq<char> {
    decimal(a) + seq![':'] + decimal(b)
}

/// The middle of a range, rounded down.
pub open spec fn range_mid(low: u32, high: u32) -> nat {
    (low + (high - low) / 2) as nat
}

/// What to do when fetching a UID range by header fields failed.
#[derive(Debug)]
pub enum RangeRetry {
    /// The range is not a plain `low:high`: report the failure.
    GiveUp,
    /// The range is a single UID that cannot be fetched: skip it.
    SkipPoisoned(u32),
    /// Fetch the two halves separately.
    Bisect(String, String),
}

/// After a failed header-fields fetch of `uid_range`: give up unless it is a
/// plain `low:high`; skip a range of one UID (`low >= high`); otherwise split
/// it into `low:mid` and `mid+1:high`.
pub fn plan_range_retry(uid_range: &str) -> (res: RangeRetry)
    ensures
        match plain_range(uid_range@) {
            None => res is GiveUp,
            Some((low, high)) => if low >= high {
                res == RangeRetry::SkipPoisoned(low)
            } else {
                res matches RangeRetry::Bisect(left, right) && left@ == range_text(
                    low as nat,
                    range_mid(low, high),
                ) && right@ == range_text(range_mid(low, high) + 1, high as nat)
            },
        },
{
    match parse_plain_range(uid_range) {
        None => RangeRetry::GiveUp,
        Some((low, high)) => {
            if low >= high {
                RangeRetry::SkipPoisoned(low)
            } else {
                let mid = low + (high - low) / 2;
                let mut left = String::new();
                push_decimal(&mut left, low);
                push_char(&mut left, ':');
                push_decimal(&mut left, mid);
                let mut right = String::new();
                push_decimal(&mut right, mid + 1);
                push_char(&mut right, ':');
                push_decimal(&mut right, high);
                assert(left@ =~= range_text(low as nat, range_mid(low, high)));
                assert(right@ =~= range_text(range_mid(low, high) + 1, high as nat));
                RangeRetry::Bisect(left, right)
            }
        },
    }
}

proof fn lemma_range_text(a: u32, b: u32)
    ensures
        plain_range(range_text(a as nat, b as nat)) == Some((a, b)),
{
    let da = decimal(a as nat);
    let db = decimal(b as nat);
    crate::text::lemma_parse_decimal(a);
    crate::text::lemma_parse_decimal(b);
    crate::text::lemma_digits_plain(da);
    crate::text::lemma_digits_plain(db);
    let s = range_text(a as nat, b as nat);
    assert(s.take(da.len() as int) =~= da);
    assert(s.skip(da.len() + 1 as int) =~= db);
    assert forall|k: int| 0 <= k < da.len() implies #[trigger] s[k] != ':' by {
        assert(s[k] == da[k]);
        assert(crate::text::is_digit(da[k]));
    }
    assert(s[da.len() as int] == ':');
    crate::text::lemma_find_char(s, ':', da.len() as int);
    assert(!s.contains(',')) by {
        if s.contains(',') {
            let i = choose|i: int| 0 <= i < s.len() && s[i] == ',';
            if i < da.len() {
                assert(s[i] == da[i]);
                assert(da.contains(','));
            } else if i > da.len() {
                assert(s[i] == db[i - da.len() - 1]);
                assert(db.contains(','));
            }
        }
    }
    assert(!s.contains('*')) by {
        if s.contains('*') {
            let i = choose|i: int| 0 <= i < s.len() && s[i] == '*';
            if i < da.len() {
                assert(s[i] == da[i]);
                assert(da.contains('*'));
            } else if i > da.len() {
                assert(s[i] == db[i - da.len() - 1]);
                assert(db.contains('*'));
            }
        }
    }
}

/// Bisecting a plain range `low:high` with `low < high` gives two plain
/// ranges that read back as `low:mid` and `mid+1:high`, each strictly
/// narrower than the range it splits, so retrying by halves always ends.
pub proof fn lemma_bisection_shrinks(low: u32, high: u32)
    requires
        low < high,
    ensures
        ({
            let mid = range_mid(low, high);
            &&& low <= mid < high
            &&& plain_range(range_text(low as nat, mid)) == Some((low, mid as u32))
            &&& plain_range(range_text(mid + 1, high as nat)) == Some(((mid + 1) as u32, high))
            &&& mid - low < high - low
            &&& high - (mid + 1) < high - low
        }),
{
    let mid = range_mid(low, high);
    lemma_range_text(low, mid as u32);
    lemma_range_text((mid + 1) as u32, high);
}

/// The number of header-field fetches that retrying a plain range
/// `low:high` makes when every fetch fails: one for the range, then, unless
/// it holds a single UID (`low >= high`), those of its two halves.
pub open spec fn worst_case_fetches(low: int, high: int) -> nat
    decreases high - low,
{
    if low >= high {
        1
    } else {
        let mid = low + (high - low) / 2;
        1 + worst_case_fetches(low, mid) + worst_case_fetches(mid + 1, high)
    }
}

/// Retrying a plain range `low:high` by halves makes at most
/// `2 * (high - low + 1) - 1` fetches, however many of them fail.
pub proof fn lemma_retry_fetch_bound(low: u32, high: u32)
    requires
        low <= high,
    ensures
        worst_case_fetches(low as int, high as int) == 2 * (high - low + 1) - 1,
        low < high ==> range_mid(low, high) == low + (high - low) / 2,
    decreases high - low,
{
    if low < high {
        let mid = range_mid(low, high);
        lemma_retry_fetch_bound(low, mid as u32);
        lemma_retry_fetch_bound((mid + 1) as u32, high);
    }
}

// ── Mailbox status ──────────────────────────────────────────────────────────

/// `(total, unseen)` of a mailbox: an UNSEEN the server did not report counts as 0.
pub fn folder_counts(exists: u32, unseen: Option<u32>) -> (res: (u32, u32))
    ensures
        res == (exists, or_zero(unseen)),
{
    let u = match unseen {
        Some(u) => u,
        None => 0,
    };
    (exists, u)
}

/// A folder as LIST reports it, before its counts are known.
pub fn folder_from_listing(name: String, delimiter: Option<String>, attributes: Vec<String>) -> (res:
    MailFolder)
    ensures
        res@ == (MailFolderView {
            name: name@,
            delimiter: delimiter.deep_view(),
            attributes: attributes.deep_view(),
            total: None,
            unseen: None,
        }),
{
    MailFolder { name, delimiter, attributes, total: None, unseen: None }
}

/// How long an IDLE waits: the requested seconds, or 29 minutes (the RFC's
/// recommended re-issue interval) when 0 is asked for.
pub fn idle_timeout_secs(timeout_secs: u64) -> (res: u64)
    ensures
        res == (if timeout_secs > 0 {
            timeout_secs
        } else {
            1740u64
        }),
{
    if timeout_secs > 0 {
        timeout_secs
    } else {
        29 * 60
    }
}

} // verus!
