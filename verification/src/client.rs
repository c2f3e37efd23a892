//! The account-level client and the decisions its operations make between
//! server round trips: which messages a page covers, which UIDs are new,
//! and how a STATUS answer updates a folder.
use vstd::prelude::*;

use crate::config::{MailAccountConfig, MailAccountConfigView};
use crate::imap::{range_text, with_uid};
use crate::message::{MailFolder, MailFolderView, MailMessageSummary, MailMessageSummaryView};
use crate::text::{decimal, push_char, push_decimal};

verus! {

/// High-level mail client that wraps IMAP and SMTP operations.
///
/// Each operation opens a fresh IMAP connection.
pub struct MailClient {
    config: MailAccountConfig,
}

impl MailClient {
    /// The configuration the client was made with.
    pub closed spec fn config_view(&self) -> MailAccountConfigView {
        self.config@
    }

    pub fn new(config: MailAccountConfig) -> (res: Self)
        ensures
            res.config_view() == config@,
    {
        Self { config }
    }

    /// The account configuration.
    pub fn config(&self) -> (res: &MailAccountConfig)
        ensures
            res@ == self.config_view(),
    {
        &self.config
    }
}

/// The `host:port` address that a connection to a server is made to.
pub fn server_address(host: &str, port: u16) -> (res: String)
    ensures
        res@ == host@ + seq![':'] + decimal(port as nat),
{
    let mut s = String::from_str(host);
    push_char(&mut s, ':');
    push_decimal(&mut s, port as u32);
    assert(s@ =~= host@ + seq![':'] + decimal(port as nat));
    s
}

// ── Paging ──────────────────────────────────────────────────────────────────

/// `a - b`, or 0 when `b > a`.
pub open spec fn sat_sub(a: int, b: int) -> int {
    if a > b {
        a - b
    } else {
        0
    }
}

/// The sequence numbers `(start, end)` of page `page` (1-based) of
/// `page_size` messages, newest first, in a mailbox of `total` messages:
/// the page ends `(page - 1) * page_size` messages below the newest and
/// holds `page_size` messages, fewer when it reaches the first message. A
/// page size of 0 gives the single message `end:end`, as no IMAP sequence
/// range is empty.
pub open spec fn page_bounds(total: u32, page: u32, page_size: u32) -> (u32, u32) {
    let end = sat_sub(total as int, (page - 1) * page_size);
    let start = if page_size == 0 {
        end
    } else {
        end - page_size + 1
    };
    ((if start < 1 {
        1
    } else {
        start
    }) as u32, end as u32)
}

/// The sequence range `start:end` of a page, newest first. Page 1 ends at
/// the newest message; the range never starts below 1, never ends past
/// `total`, and holds at most `page_size` messages (exactly that many
/// while it does not reach the first message).
pub fn page_range(total: u32, page: u32, page_size: u32) -> (res: (u32, u32))
    requires
        page >= 1,
        (page - 1) * page_size <= u32::MAX,
    ensures
        res == page_bounds(total, page, page_size),
        res.0 >= 1,
        res.1 <= total,
        page_size >= 1 && res.0 <= res.1 ==> res.1 - res.0 + 1 <= page_size,
        page_size >= 1 && res.1 >= page_size ==> res.1 - res.0 + 1 == page_size,
{
    let skip = (page - 1) * page_size;
    let end = total.saturating_sub(skip);
    let start = if page_size == 0 {
        end
    } else if end >= page_size {
        end - page_size + 1
    } else {
        1
    };
    let start = if start < 1 {
        1
    } else {
        start
    };
    (start, end)
}

/// Pages follow each other from the newest message down, without gaps and
/// without sharing a message: while a page does not reach the first
/// message, the next page ends right below where this one starts.
pub proof fn lemma_pages_adjacent(total: u32, page: u32, page_size: u32)
    requires
        1 <= page < u32::MAX,
        page_size >= 1,
        page * page_size <= u32::MAX,
        page_bounds(total, page, page_size).0 > 1,
    ensures
        page_bounds(total, (page + 1) as u32, page_size).1 == page_bounds(total, page, page_size).0
            - 1,
{
    assert((page - 1) * page_size + page_size == page * page_size) by (nonlinear_arith);
    assert(((page + 1) as u32 - 1) * page_size == page * page_size);
}

/// The sequence set text `start:end` of a page.
pub fn page_seq_range(total: u32, page: u32, page_size: u32) -> (res: String)
    requires
        page >= 1,
        (page - 1) * page_size <= u32::MAX,
    ensures
        res@ == range_text(
            page_bounds(total, page, page_size).0 as nat,
            page_bounds(total, page, page_size).1 as nat,
        ),
{
    let (start, end) = page_range(total, page, page_size);
    let mut s = String::new();
    push_decimal(&mut s, start);
    push_char(&mut s, ':');
    push_decimal(&mut s, end);
    assert(s@ =~= range_text(start as nat, end as nat));
    s
}

/// What listing page `page` of a folder of `total` messages fetches: nothing
/// when the folder is empty (the answer is then no summaries and a total of
/// 0), else the sequence range of the page.
pub fn page_request(total: u32, page: u32, page_size: u32) -> (res: Option<String>)
    requires
        total == 0 || (page >= 1 && (page - 1) * page_size <= u32::MAX),
    ensures
        res is None <==> total == 0,
        res matches Some(r) ==> r@ == range_text(
            page_bounds(total, page, page_size).0 as nat,
            page_bounds(total, page, page_size).1 as nat,
        ),
{
    if total == 0 {
        None
    } else {
        Some(page_seq_range(total, page, page_size))
    }
}

// ── Incremental sync ────────────────────────────────────────────────────────

/// The UID range `n:*` of the messages after `since_uid`.
pub fn since_uid_range(since_uid: u32) -> (res: String)
    requires
        since_uid < u32::MAX,
    ensures
        res@ == decimal((since_uid + 1) as nat) + seq![':', '*'],
{
    let mut s = String::new();
    push_decimal(&mut s, since_uid + 1);
    push_char(&mut s, ':');
    push_char(&mut s, '*');
    assert(s@ =~= decimal((since_uid + 1) as nat) + seq![':', '*']);
    s
}

/// What a sync of the messages after `since_uid` in a folder of `total`
/// messages fetches: nothing when the folder is empty (the answer is then
/// no summaries and a total of 0), else the UID range `since_uid+1:*`.
pub fn since_request(total: u32, since_uid: u32) -> (res: Option<String>)
    requires
        total == 0 || since_uid < u32::MAX,
    ensures
        res is None <==> total == 0,
        res matches Some(r) ==> r@ == decimal((since_uid + 1) as nat) + seq![':', '*'],
{
    if total == 0 {
        None
    } else {
        Some(since_uid_range(since_uid))
    }
}

/// The predicate "UID greater than `since`".
pub open spec fn newer_than(since: u32) -> spec_fn(MailMessageSummaryView) -> bool {
    |s: MailMessageSummaryView| s.uid > since
}

/// Keeps the summaries with a UID greater than `since_uid`, in order.
/// (`UID FETCH n:*` may answer with the last message even when its UID is
/// below `n`.)
pub fn retain_newer(summaries: Vec<MailMessageSummary>, since_uid: u32) -> (res: Vec<
    MailMessageSummary,
>)
    ensures
        res.deep_view() == summaries.deep_view().filter(newer_than(since_uid)),
        forall|i: int| 0 <= i < res@.len() ==> #[trigger] res@[i].uid > since_uid,
        forall|i: int|
            0 <= i < summaries@.len() && summaries@[i].uid > since_uid ==> res.deep_view().contains(
                #[trigger] summaries.deep_view()[i],
            ),
{
    let ghost input = summaries.deep_view();
    let mut res: Vec<MailMessageSummary> = Vec::new();
    proof {
        reveal(Seq::filter);
        assert(input.take(0) =~= Seq::<MailMessageSummaryView>::empty());
        assert(res.deep_view() =~= Seq::<MailMessageSummaryView>::empty());
    }
    for s in iter: summaries.into_iter()
        invariant
            iter.seq() == summaries@,
            input == summaries.deep_view(),
            res.deep_view() == input.take(iter.index() as int).filter(newer_than(since_uid)),
            forall|i: int| 0 <= i < res@.len() ==> #[trigger] res@[i].uid > since_uid,
    {
        let ghost i = iter.index();
        proof {
            assert(input[i as int] == s@);
            assert(input.take(i + 1) =~= input.take(i as int).push(s@));
            input.take(i as int).lemma_filter_push(s@, newer_than(since_uid));
        }
        if s.uid > since_uid {
            let ghost before = res.deep_view();
            res.push(s);
            assert(res.deep_view() =~= before.push(res@[res@.len() - 1]@));
        }
    }
    assert(input.take(input.len() as int) =~= input);
    res
}

// ── Folder counts ───────────────────────────────────────────────────────────

/// Records the counts that STATUS reported for a folder; a folder whose
/// STATUS failed keeps its unknown counts.
pub fn apply_folder_status(folder: &mut MailFolder, status: Option<(u32, u32)>)
    ensures
        final(folder)@ == (match status {
            Some((total, unseen)) => MailFolderView {
                total: Some(total),
                unseen: Some(unseen),
                ..old(folder)@
            },
            None => old(folder)@,
        }),
{
    if let Some((total, unseen)) = status {
        folder.total = Some(total);
        folder.unseen = Some(unseen);
    }
}

} // verus!
