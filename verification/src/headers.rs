//! Reading message headers: address lists, dates, and the handful of
//! fields a message summary shows.
use vstd::prelude::*;

use crate::message::{utc_date, utc_date_spec, MailAddress, MailAddressView, MailDate};
use crate::parse::{
    addrparse, dateparse, parse_headers, parsed_addresses, parsed_date, parsed_headers,
    AddressEntry, AddressEntryView, HeaderField, HeaderFieldView,
};
use crate::text::{char_vec, contains, contains_seq, lower_text, str_eq, to_lowercase};

verus! {

broadcast use vstd::string::group_string_axioms;

// ── Address lists ───────────────────────────────────────────────────────────

/// The mailboxes of one address-list entry (a group contributes its members).
pub open spec fn entry_addresses(e: AddressEntryView) -> Seq<MailAddressView> {
    match e {
        AddressEntryView::Single(a) => seq![a],
        AddressEntryView::Group(g) => g,
    }
}

/// `entry_addresses` as a function value.
pub open spec fn entry_addresses_fn() -> spec_fn(AddressEntryView) -> Seq<MailAddressView> {
    |e: AddressEntryView| entry_addresses(e)
}

/// All mailboxes of a parsed address list, groups flattened in place; an
/// address list that could not be parsed has none.
pub open spec fn entries_addresses(entries: Option<Seq<AddressEntryView>>) -> Seq<MailAddressView> {
    match entries {
        Some(es) => es.flat_map(entry_addresses_fn()),
        None => seq![],
    }
}

/// The mailboxes that an address-list header value denotes.
pub open spec fn address_list(raw: Seq<char>) -> Seq<MailAddressView> {
    entries_addresses(parsed_addresses(raw))
}

/// Flattens a parsed address list: single mailboxes as they are, groups
/// replaced by their members, in order; nothing when parsing failed.
pub fn flatten_address_entries(entries: Option<Vec<AddressEntry>>) -> (res: Vec<MailAddress>)
    ensures
        res.deep_view() == entries_addresses(entries.deep_view()),
{
    let mut res: Vec<MailAddress> = Vec::new();
    match entries {
        None => {
            assert(res.deep_view() =~= Seq::<MailAddressView>::empty());
            res
        },
        Some(es) => {
            let ghost esv = es.deep_view();
            let ghost f = entry_addresses_fn();
            for e in iter: es.into_iter()
                invariant
                    iter.seq() == es@,
                    esv == es.deep_view(),
                    f == entry_addresses_fn(),
                    res.deep_view() == esv.take(iter.index() as int).flat_map(f),
            {
                let ghost i = iter.index();
                proof {
                    assert(esv[i as int] == e@);
                    esv.lemma_flat_map_take_append(f, i as int);
                }
                let ghost before = res.deep_view();
                let ghost ev = e@;
                assert(esv.take(i + 1).flat_map(f) == esv.take(i as int).flat_map(f) + f(esv[i as int]));
                assert(f(esv[i as int]) == entry_addresses(ev));
                assert(esv.take(i + 1).flat_map(f) == before + entry_addresses(ev));
                match e {
                    AddressEntry::Single(a) => {
                        res.push(a);
                        assert(res.deep_view() =~= before + seq![a@]);
                        assert(entry_addresses(ev) == seq![a@]);
                    },
                    AddressEntry::Group(g) => {
                        let ghost gv = g.deep_view();
                        for a in giter: g.into_iter()
                            invariant
                                giter.seq() == g@,
                                gv == g.deep_view(),
                                res.deep_view() == before + gv.take(giter.index() as int),
                        {
                            let ghost j = giter.index();
                            let ghost mid = res.deep_view();
                            res.push(a);
                            assert(gv.take(j + 1) =~= gv.take(j as int).push(gv[j as int]));
                            assert(res.deep_view() =~= mid.push(a@));
                        }
                        assert(gv.take(gv.len() as int) =~= gv);
                        assert(entry_addresses(ev) == gv);
                    },
                }
            }
            assert(esv.take(esv.len() as int) =~= esv);
            res
        },
    }
}

/// The mailboxes of an address-list header value (`mailparse::addrparse`,
/// groups flattened); none when it cannot be parsed.
pub fn parse_address_list(raw: &str) -> (res: Vec<MailAddress>)
    ensures
        res.deep_view() == address_list(raw@),
{
    flatten_address_entries(addrparse(raw))
}

// ── Dates ───────────────────────────────────────────────────────────────────

/// The date a `Date:` header value denotes: parsed as RFC 2822 and taken in
/// UTC; `None` when it does not parse or lies outside the representable range.
pub open spec fn header_date(s: Seq<char>) -> Option<MailDate> {
    match parsed_date(s) {
        Some(ts) => utc_date_spec(ts),
        None => None,
    }
}

/// Parses a date header value to a UTC date.
pub fn parse_date(s: &str) -> (res: Option<MailDate>)
    ensures
        res == header_date(s@),
{
    match dateparse(s) {
        Some(ts) => utc_date(ts),
        None => None,
    }
}

// ── Summary fields of a header block ────────────────────────────────────────

/// The value of the last header whose lower-cased name is `name`.
pub open spec fn last_header(hs: Seq<HeaderFieldView>, name: Seq<char>) -> Option<Seq<char>>
    decreases hs.len(),
{
    if hs.len() == 0 {
        None
    } else if lower_text(hs.last().key) == name {
        Some(hs.last().value)
    } else {
        last_header(hs.drop_last(), name)
    }
}

/// Whether some `Content-Type` header mentions `multipart/mixed` (compared
/// in lower case), which marks a message with attachments.
pub open spec fn mentions_multipart_mixed(hs: Seq<HeaderFieldView>) -> bool {
    exists|i: int|
        0 <= i < hs.len() && lower_text(#[trigger] hs[i].key) == "content-type"@ && contains_seq(
            lower_text(hs[i].value),
            "multipart/mixed"@,
        )
}

/// The fields of a message summary that its headers give.
#[derive(Debug)]
pub struct HeaderSummary {
    pub subject: String,
    pub from: Vec<MailAddress>,
    pub to: Vec<MailAddress>,
    pub date: Option<MailDate>,
    pub message_id: Option<String>,
    pub has_attachments: bool,
}

pub ghost struct HeaderSummaryView {
    pub subject: Seq<char>,
    pub from: Seq<MailAddressView>,
    pub to: Seq<MailAddressView>,
    pub date: Option<MailDate>,
    pub message_id: Option<Seq<char>>,
    pub has_attachments: bool,
}

impl View for HeaderSummary {
    type V = HeaderSummaryView;

    open spec fn view(&self) -> HeaderSummaryView {
        HeaderSummaryView {
            subject: self.subject@,
            from: self.from.deep_view(),
            to: self.to.deep_view(),
            date: self.date,
            message_id: self.message_id.deep_view(),
            has_attachments: self.has_attachments,
        }
    }
}

/// Summary fields of a list of headers: for each field the last header of
/// that name counts (subject empty, address lists empty and date and
/// message id absent when there is none).
pub open spec fn summarize_headers(hs: Seq<HeaderFieldView>) -> HeaderSummaryView {
    HeaderSummaryView {
        subject: match last_header(hs, "subject"@) {
            Some(v) => v,
            None => seq![],
        },
        from: match last_header(hs, "from"@) {
            Some(v) => address_list(v),
            None => seq![],
        },
        to: match last_header(hs, "to"@) {
            Some(v) => address_list(v),
            None => seq![],
        },
        date: match last_header(hs, "date"@) {
            Some(v) => header_date(v),
            None => None,
        },
        message_id: last_header(hs, "message-id"@),
        has_attachments: mentions_multipart_mixed(hs),
    }
}

/// Summary fields of a raw header block; a block that does not parse
/// counts as having no headers.
pub open spec fn header_block_summary(bytes: Seq<u8>) -> HeaderSummaryView {
    summarize_headers(
        match parsed_headers(bytes) {
            Some(hs) => hs,
            None => seq![],
        },
    )
}

proof fn lemma_header_names_distinct()
    ensures
        "subject"@ != "from"@,
        "subject"@ != "to"@,
        "subject"@ != "date"@,
        "subject"@ != "message-id"@,
        "subject"@ != "content-type"@,
        "from"@ != "to"@,
        "from"@ != "date"@,
        "from"@ != "message-id"@,
        "from"@ != "content-type"@,
        "to"@ != "date"@,
        "to"@ != "message-id"@,
        "to"@ != "content-type"@,
        "date"@ != "message-id"@,
        "date"@ != "content-type"@,
        "message-id"@ != "content-type"@,
{
    reveal_strlit("subject");
    reveal_strlit("from");
    reveal_strlit("to");
    reveal_strlit("date");
    reveal_strlit("message-id");
    reveal_strlit("content-type");
    assert("subject"@.len() == 7);
    assert("to"@.len() == 2);
    assert("message-id"@.len() == 10);
    assert("from"@[0] != "date"@[0]);
}

proof fn lemma_last_header_step(hs: Seq<HeaderFieldView>, i: int, name: Seq<char>)
    requires
        0 <= i < hs.len(),
    ensures
        last_header(hs.take(i + 1), name) == (if lower_text(hs[i].key) == name {
            Some(hs[i].value)
        } else {
            last_header(hs.take(i), name)
        }),
{
    assert(hs.take(i + 1).drop_last() =~= hs.take(i));
    assert(hs.take(i + 1).last() == hs[i]);
}

/// The value of the last header whose lower-cased name is `name`.
pub fn last_header_value(hs: &Vec<HeaderField>, name: &str) -> (res: Option<String>)
    ensures
        res.deep_view() == last_header(hs.deep_view(), name@),
{
    let ghost hv = hs.deep_view();
    let mut found: Option<String> = None;
    let mut i: usize = 0;
    assert(hv.take(0) =~= Seq::<HeaderFieldView>::empty());
    while i < hs.len()
        invariant
            i <= hv.len(),
            hv == hs.deep_view(),
            found.deep_view() == last_header(hv.take(i as int), name@),
        decreases hv.len() - i,
    {
        proof {
            lemma_last_header_step(hv, i as int, name@);
        }
        assert(hv[i as int] == hs[i as int]@);
        let key = to_lowercase(hs[i].key.as_str());
        if str_eq(key.as_str(), name) {
            found = Some(hs[i].value.clone());
        }
        i = i + 1;
    }
    assert(hv.take(hv.len() as int) =~= hv);
    found
}

/// Summary fields of a list of headers (an absent list counts as empty).
pub fn summarize_header_fields(headers: Option<Vec<HeaderField>>) -> (res: HeaderSummary)
    ensures
        res@ == summarize_headers(
            match headers.deep_view() {
                Some(hs) => hs,
                None => seq![],
            },
        ),
{
    let hs: Vec<HeaderField> = match headers {
        Some(hs) => hs,
        None => Vec::new(),
    };
    let ghost hv = hs.deep_view();
    assert(hv == match headers.deep_view() {
        Some(hs) => hs,
        None => Seq::<HeaderFieldView>::empty(),
    }) by {
        if headers is None {
            assert(hv =~= Seq::<HeaderFieldView>::empty());
        }
    }
    let mut subject = String::new();
    let mut from: Vec<MailAddress> = Vec::new();
    let mut to: Vec<MailAddress> = Vec::new();
    let mut date: Option<MailDate> = None;
    let mut message_id: Option<String> = None;
    let mut has_attachments = false;
    proof {
        lemma_header_names_distinct();
        assert(hv.take(0) =~= Seq::<HeaderFieldView>::empty());
        assert(from.deep_view() =~= Seq::<MailAddressView>::empty());
        assert(to.deep_view() =~= Seq::<MailAddressView>::empty());
    }
    let mut i: usize = 0;
    while i < hs.len()
        invariant
            i <= hv.len(),
            hv == hs.deep_view(),
            subject@ == (match last_header(hv.take(i as int), "subject"@) {
                Some(v) => v,
                None => seq![],
            }),
            from.deep_view() == (match last_header(hv.take(i as int), "from"@) {
                Some(v) => address_list(v),
                None => seq![],
            }),
            to.deep_view() == (match last_header(hv.take(i as int), "to"@) {
                Some(v) => address_list(v),
                None => seq![],
            }),
            date == (match last_header(hv.take(i as int), "date"@) {
                Some(v) => header_date(v),
                None => None,
            }),
            message_id.deep_view() == last_header(hv.take(i as int), "message-id"@),
            has_attachments == mentions_multipart_mixed(hv.take(i as int)),
        decreases hv.len() - i,
    {
        let h = &hs[i];
        assert(hv[i as int] == h@);
        let key = to_lowercase(h.key.as_str());
        proof {
            lemma_header_names_distinct();
            lemma_last_header_step(hv, i as int, "subject"@);
            lemma_last_header_step(hv, i as int, "from"@);
            lemma_last_header_step(hv, i as int, "to"@);
            lemma_last_header_step(hv, i as int, "date"@);
            lemma_last_header_step(hv, i as int, "message-id"@);
        }
        let ghost before = hv.take(i as int);
        let ghost after = hv.take(i + 1);
        if str_eq(key.as_str(), "subject") {
            subject = h.value.clone();
        } else if str_eq(key.as_str(), "from") {
            from = parse_address_list(h.value.as_str());
        } else if str_eq(key.as_str(), "to") {
            to = parse_address_list(h.value.as_str());
        } else if str_eq(key.as_str(), "date") {
            date = parse_date(h.value.as_str());
        } else if str_eq(key.as_str(), "message-id") {
            message_id = Some(h.value.clone());
        } else if str_eq(key.as_str(), "content-type") {
            let ct = to_lowercase(h.value.as_str());
            let ct_chars = char_vec(ct.as_str());
            let pattern = char_vec("multipart/mixed");
            if contains(ct_chars.as_slice(), pattern.as_slice()) {
                has_attachments = true;
            }
        }
        proof {
            assert forall|k: int| 0 <= k < before.len() implies #[trigger] after[k] == before[k] by {}
            assert(after[i as int] == hv[i as int]);
            if mentions_multipart_mixed(before) {
                let k = choose|k: int|
                    0 <= k < before.len() && lower_text(#[trigger] before[k].key)
                        == "content-type"@ && contains_seq(
                        lower_text(before[k].value),
                        "multipart/mixed"@,
                    );
                assert(after[k] == before[k]);
            }
            if mentions_multipart_mixed(after) {
                let k = choose|k: int|
                    0 <= k < after.len() && lower_text(#[trigger] after[k].key) == "content-type"@
                        && contains_seq(lower_text(after[k].value), "multipart/mixed"@);
                if k < i {
                    assert(after[k] == before[k]);
                }
            }
        }
        i = i + 1;
    }
    assert(hv.take(hv.len() as int) =~= hv);
    HeaderSummary { subject, from, to, date, message_id, has_attachments }
}

/// Summary fields of a raw header block (`mailparse::parse_headers`).
pub fn parse_header_fields(header_bytes: &[u8]) -> (res: HeaderSummary)
    ensures
        res@ == header_block_summary(header_bytes@),
{
    summarize_header_fields(parse_headers(header_bytes))
}

} // verus!
