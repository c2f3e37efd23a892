//! The calls into `mailparse`, and the plain values they hand back.
//!
//! Each call is a function of its input alone; its result is named by an
//! uninterpreted spec function, so that the logic built on it can be stated
//! exactly in terms of that name.
use vstd::prelude::*;

use crate::message::{MailAddress, MailAddressView};
use crate::mime::is_part_listing;

verus! {

/// A header line: its name and its value, with encoded words decoded and
/// folded lines joined (what `MailHeader::get_key` / `get_value` give).
#[derive(Debug, Clone)]
pub struct HeaderField {
    pub key: String,
    pub value: String,
}

pub ghost struct HeaderFieldView {
    pub key: Seq<char>,
    pub value: Seq<char>,
}

impl View for HeaderField {
    type V = HeaderFieldView;

    open spec fn view(&self) -> HeaderFieldView {
        HeaderFieldView { key: self.key@, value: self.value@ }
    }
}

impl DeepView for HeaderField {
    type V = HeaderFieldView;

    open spec fn deep_view(&self) -> HeaderFieldView {
        self.view()
    }
}

/// One entry of an address list: a single mailbox, or a named group of them.
#[derive(Debug, Clone)]
pub enum AddressEntry {
    Single(MailAddress),
    Group(Vec<MailAddress>),
}

pub ghost enum AddressEntryView {
    Single(MailAddressView),
    Group(Seq<MailAddressView>),
}

impl View for AddressEntry {
    type V = AddressEntryView;

    open spec fn view(&self) -> AddressEntryView {
        match self {
            AddressEntry::Single(a) => AddressEntryView::Single(a@),
            AddressEntry::Group(g) => AddressEntryView::Group(g.deep_view()),
        }
    }
}

impl DeepView for AddressEntry {
    type V = AddressEntryView;

    open spec fn deep_view(&self) -> AddressEntryView {
        self.view()
    }
}

/// One part of a parsed MIME message, as `ParsedMail::parts` yields it in
/// depth-first pre-order, with the number of its direct subparts.
#[derive(Debug)]
pub struct MimeNode {
    pub headers: Vec<HeaderField>,
    /// The content type, lower-cased (e.g. "text/plain").
    pub mimetype: String,
    /// The content-type parameters, keys lower-cased, in key order.
    pub params: Vec<(String, String)>,
    /// The body with its transfer encoding undone, when that succeeds.
    pub body_raw: Option<Vec<u8>>,
    /// The body decoded to text, when that succeeds.
    pub body: Option<String>,
    pub subpart_count: usize,
}

pub ghost struct MimeNodeView {
    pub headers: Seq<HeaderFieldView>,
    pub mimetype: Seq<char>,
    pub params: Seq<(Seq<char>, Seq<char>)>,
    pub body_raw: Option<Seq<u8>>,
    pub body: Option<Seq<char>>,
    pub subpart_count: nat,
}

impl View for MimeNode {
    type V = MimeNodeView;

    open spec fn view(&self) -> MimeNodeView {
        MimeNodeView {
            headers: self.headers.deep_view(),
            mimetype: self.mimetype@,
            params: self.params.deep_view(),
            body_raw: self.body_raw.deep_view(),
            body: self.body.deep_view(),
            subpart_count: self.subpart_count as nat,
        }
    }
}

impl DeepView for MimeNode {
    type V = MimeNodeView;

    open spec fn deep_view(&self) -> MimeNodeView {
        self.view()
    }
}

/// What `mailparse::parse_headers` gives for a header block.
pub uninterp spec fn parsed_headers(bytes: Seq<u8>) -> Option<Seq<HeaderFieldView>>;

/// `mailparse::parse_headers`: the header lines at the start of `bytes`,
/// or `None` when they cannot be parsed.
#[verifier::external_body]
pub(crate) fn parse_headers(bytes: &[u8]) -> (res: Option<Vec<HeaderField>>)
    ensures
        res.deep_view() == parsed_headers(bytes@),
{
    mailparse::parse_headers(bytes).ok().map(
        |(hs, _)| hs.iter().map(|h| HeaderField { key: h.get_key(), value: h.get_value() }).collect(),
    )
}

/// What `mailparse::parse_header` gives as the value of the first header line.
pub uninterp spec fn first_header_value(bytes: Seq<u8>) -> Option<Seq<char>>;

/// `mailparse::parse_header` followed by `get_value`: the decoded value of
/// the header line at the start of `bytes`, or `None` when it cannot be parsed.
#[verifier::external_body]
pub(crate) fn parse_header_value(bytes: &[u8]) -> (res: Option<String>)
    ensures
        res.deep_view() == first_header_value(bytes@),
{
    mailparse::parse_header(bytes).ok().map(|(h, _)| h.get_value())
}

/// What `mailparse::dateparse` gives for a date text (seconds since the epoch).
pub uninterp spec fn parsed_date(s: Seq<char>) -> Option<i64>;

/// `mailparse::dateparse`: an RFC 2822 date as seconds since the Unix epoch,
/// or `None` when it cannot be parsed.
#[verifier::external_body]
pub(crate) fn dateparse(s: &str) -> (res: Option<i64>)
    ensures
        res == parsed_date(s@),
{
    mailparse::dateparse(s).ok()
}

/// What `mailparse::addrparse` gives for an address-list text.
pub uninterp spec fn parsed_addresses(s: Seq<char>) -> Option<Seq<AddressEntryView>>;

/// `mailparse::addrparse`: the mailboxes and groups of an address list, or
/// `None` when it cannot be parsed. Group names are dropped.
#[verifier::external_body]
pub(crate) fn addrparse(s: &str) -> (res: Option<Vec<AddressEntry>>)
    ensures
        res.deep_view() == parsed_addresses(s@),
{
    mailparse::addrparse(s).ok().map(
        |list|
            list.iter().map(|a| match a {
                mailparse::MailAddr::Single(i) => AddressEntry::Single(
                    MailAddress { name: i.display_name.clone(), address: i.addr.clone() },
                ),
                mailparse::MailAddr::Group(g) => AddressEntry::Group(
                    g.addrs.iter().map(
                        |i| MailAddress { name: i.display_name.clone(), address: i.addr.clone() },
                    ).collect(),
                ),
            }).collect(),
    )
}

/// What `mailparse::parse_mail` gives for a raw message: its parts in
/// pre-order (each with its headers, content type, and its body as
/// `get_body_raw` and `get_body` decode it), or the error's text.
pub uninterp spec fn parsed_mail(raw: Seq<u8>) -> Result<Seq<MimeNodeView>, Seq<char>>;

/// `mailparse::parse_mail`: the parts of a raw message in depth-first
/// pre-order (`ParsedMail::parts`), their bodies decoded by `get_body_raw`
/// (transfer encoding undone) and `get_body` (also read in its charset),
/// or the text of the parse error. Each
/// part is listed with the number of its subparts, and `parts` lists every
/// part right before its subparts, so the listing is that of a part tree.
#[verifier::external_body]
pub(crate) fn parse_mail(raw: &[u8]) -> (res: Result<Vec<MimeNode>, String>)
    ensures
        match res {
            Ok(ns) => parsed_mail(raw@) == Ok::<Seq<MimeNodeView>, Seq<char>>(ns.deep_view())
                && is_part_listing(ns.deep_view()),
            Err(e) => parsed_mail(raw@) == Err::<Seq<MimeNodeView>, Seq<char>>(e@),
        },
{
    match mailparse::parse_mail(raw) {
        Ok(m) => Ok(m.parts().map(|p| MimeNode {
            headers: p.headers.iter().map(|h| HeaderField { key: h.get_key(), value: h.get_value() }).collect(),
            mimetype: p.ctype.mimetype.clone(),
            params: p.ctype.params.iter().map(|(k, v)| (k.clone(), v.clone())).collect(),
            body_raw: p.get_body_raw().ok(),
            body: p.get_body().ok(),
            subpart_count: p.subparts.len(),
        }).collect()),
        Err(e) => Err(e.to_string()),
    }
}

} // verus!
