//! MIME structure: the part tree of a parsed message, rebuilt from its
//! pre-order listing, and what a full message is made of — headers, text
//! and HTML bodies, attachments.
use vstd::prelude::*;

use crate::b64::{base64_decoded, base64_encode, base64_spec, lemma_base64_roundtrip};
use crate::message::{MailAttachment, MailAttachmentView};
use crate::parse::{HeaderField, HeaderFieldView, MimeNode, MimeNodeView};
use crate::text::{char_vec, lower_text, starts_with, starts_with_seq, str_eq, to_lowercase};

verus! {

/// A part of a MIME message, with its subparts.
#[derive(Debug)]
pub struct MimePart {
    pub headers: Vec<HeaderField>,
    /// The content type, lower-cased.
    pub mimetype: String,
    /// The content-type parameters.
    pub params: Vec<(String, String)>,
    /// The body with its transfer encoding undone, when that succeeds.
    pub body_raw: Option<Vec<u8>>,
    /// The body decoded to text, when that succeeds.
    pub body: Option<String>,
    pub subparts: Vec<MimePart>,
}

#[verifier::ext_equal]
pub ghost struct MimePartView {
    pub headers: Seq<HeaderFieldView>,
    pub mimetype: Seq<char>,
    pub params: Seq<(Seq<char>, Seq<char>)>,
    pub body_raw: Option<Seq<u8>>,
    pub body: Option<Seq<char>>,
    pub subparts: Seq<MimePartView>,
}

/// The value of a part tree.
pub open spec fn part_view(p: MimePart) -> MimePartView
    decreases p,
{
    MimePartView {
        headers: p.headers.deep_view(),
        mimetype: p.mimetype@,
        params: p.params.deep_view(),
        body_raw: p.body_raw.deep_view(),
        body: p.body.deep_view(),
        subparts: Seq::new(
            p.subparts@.len(),
            |i: int|
                if 0 <= i < p.subparts@.len() {
                    part_view(p.subparts@[i])
                } else {
                    arbitrary()
                },
        ),
    }
}

impl View for MimePart {
    type V = MimePartView;

    open spec fn view(&self) -> MimePartView {
        part_view(*self)
    }
}

/// The listing entry of a part: its own data and the number of its subparts.
pub open spec fn node_of(p: MimePartView) -> MimeNodeView {
    MimeNodeView {
        headers: p.headers,
        mimetype: p.mimetype,
        params: p.params,
        body_raw: p.body_raw,
        body: p.body,
        subpart_count: p.subparts.len(),
    }
}

/// The depth-first pre-order listing of a part tree.
pub open spec fn flatten_part(p: MimePartView) -> Seq<MimeNodeView>
    decreases p,
{
    seq![node_of(p)] + flatten_parts(p.subparts)
}

/// The listings of a sequence of part trees, one after the other.
pub open spec fn flatten_parts(ps: Seq<MimePartView>) -> Seq<MimeNodeView>
    decreases ps,
{
    if ps.len() == 0 {
        seq![]
    } else {
        flatten_part(ps[0]) + flatten_parts(ps.drop_first())
    }
}

/// Whether `nodes` is the pre-order listing of some part tree.
pub open spec fn is_part_listing(nodes: Seq<MimeNodeView>) -> bool {
    exists|p: MimePartView| flatten_part(p) == nodes
}

/// The part tree whose listing is `nodes` (unique, see
/// `lemma_listing_determines_tree`).
pub open spec fn tree_of(nodes: Seq<MimeNodeView>) -> MimePartView {
    choose|p: MimePartView| flatten_part(p) == nodes
}

proof fn lemma_flatten_parts_concat(a: Seq<MimePartView>, b: Seq<MimePartView>)
    ensures
        flatten_parts(a + b) == flatten_parts(a) + flatten_parts(b),
    decreases a.len(),
{
    if a.len() == 0 {
        assert(a + b =~= b);
        assert(flatten_parts(a) + flatten_parts(b) =~= flatten_parts(b));
    } else {
        assert((a + b)[0] == a[0]);
        assert((a + b).drop_first() =~= a.drop_first() + b);
        lemma_flatten_parts_concat(a.drop_first(), b);
        assert(flatten_parts(a + b) =~= flatten_part(a[0]) + (flatten_parts(a.drop_first())
            + flatten_parts(b)));
    }
}

proof fn lemma_flatten_part_unique(
    p1: MimePartView,
    t1: Seq<MimeNodeView>,
    p2: MimePartView,
    t2: Seq<MimeNodeView>,
)
    requires
        flatten_part(p1) + t1 == flatten_part(p2) + t2,
    ensures
        p1 == p2,
        t1 == t2,
    decreases p1,
{
    let s1 = flatten_part(p1) + t1;
    let s2 = flatten_part(p2) + t2;
    assert(s1[0] == node_of(p1));
    assert(s2[0] == node_of(p2));
    assert(s1.drop_first() =~= flatten_parts(p1.subparts) + t1);
    assert(s2.drop_first() =~= flatten_parts(p2.subparts) + t2);
    lemma_flatten_parts_unique(p1.subparts, t1, p2.subparts, t2);
    assert(p1 =~= p2);
}

proof fn lemma_flatten_parts_unique(
    ps1: Seq<MimePartView>,
    t1: Seq<MimeNodeView>,
    ps2: Seq<MimePartView>,
    t2: Seq<MimeNodeView>,
)
    requires
        ps1.len() == ps2.len(),
        flatten_parts(ps1) + t1 == flatten_parts(ps2) + t2,
    ensures
        ps1 == ps2,
        t1 == t2,
    decreases ps1,
{
    if ps1.len() == 0 {
        assert(flatten_parts(ps1) + t1 =~= t1);
        assert(flatten_parts(ps2) + t2 =~= t2);
        assert(ps1 =~= ps2);
    } else {
        let r1 = flatten_parts(ps1.drop_first()) + t1;
        let r2 = flatten_parts(ps2.drop_first()) + t2;
        assert(flatten_parts(ps1) + t1 =~= flatten_part(ps1[0]) + r1);
        assert(flatten_parts(ps2) + t2 =~= flatten_part(ps2[0]) + r2);
        lemma_flatten_part_unique(ps1[0], r1, ps2[0], r2);
        lemma_flatten_parts_unique(ps1.drop_first(), t1, ps2.drop_first(), t2);
        assert(ps1 =~= ps2) by {
            assert forall|i: int| 0 <= i < ps1.len() implies ps1[i] == ps2[i] by {
                if i > 0 {
                    assert(ps1[i] == ps1.drop_first()[i - 1]);
                    assert(ps2[i] == ps2.drop_first()[i - 1]);
                }
            }
        }
    }
}

/// A part tree is determined by its pre-order listing.
pub proof fn lemma_listing_determines_tree(p1: MimePartView, p2: MimePartView)
    requires
        flatten_part(p1) == flatten_part(p2),
    ensures
        p1 == p2,
{
    assert(flatten_part(p1) + Seq::<MimeNodeView>::empty() =~= flatten_part(p1));
    assert(flatten_part(p2) + Seq::<MimeNodeView>::empty() =~= flatten_part(p2));
    lemma_flatten_part_unique(p1, Seq::empty(), p2, Seq::empty());
}

/// Rebuilding a tree from its own listing gives the tree back.
pub proof fn lemma_tree_of_listing(t: MimePartView)
    ensures
        is_part_listing(flatten_part(t)),
        tree_of(flatten_part(t)) == t,
{
    assert(is_part_listing(flatten_part(t)));
    lemma_listing_determines_tree(tree_of(flatten_part(t)), t);
}

/// The nodes of a stack, top (last) first.
pub open spec fn stack_order(stack: Seq<MimeNodeView>) -> Seq<MimeNodeView> {
    stack.reverse()
}

/// Takes one part tree off a stack whose top holds its pre-order listing.
fn take_part(stack: &mut Vec<MimeNode>) -> (res: Option<MimePart>)
    ensures
        final(stack)@.len() <= old(stack)@.len(),
        res matches Some(p) ==> stack_order(old(stack).deep_view()) == flatten_part(p@)
            + stack_order(final(stack).deep_view()),
        (exists|q: MimePartView, t: Seq<MimeNodeView>|
            stack_order(old(stack).deep_view()) == flatten_part(q) + t) ==> res is Some,
    decreases old(stack)@.len(),
{
    let ghost s0 = stack.deep_view();
    let ghost has_w = exists|q: MimePartView, t: Seq<MimeNodeView>|
        stack_order(s0) == flatten_part(q) + t;
    let ghost (wq, wt) = choose|q: MimePartView, t: Seq<MimeNodeView>|
        stack_order(s0) == flatten_part(q) + t;
    if stack.len() == 0 {
        proof {
            if has_w {
                assert(flatten_part(wq)[0] == node_of(wq));
                assert(stack_order(s0).len() == 0);
            }
        }
        return None;
    }
    let ghost old_stack = stack@;
    let node = stack.pop().unwrap();
    let ghost s1 = stack.deep_view();
    assert(s0 =~= s1.push(node@));
    assert(stack_order(s0) =~= seq![node@] + stack_order(s1));
    proof {
        if has_w {
            let fq = flatten_part(wq) + wt;
            assert(fq[0] == node_of(wq));
            assert(stack_order(s0)[0] == node@);
            assert(fq.drop_first() =~= flatten_parts(wq.subparts) + wt);
            assert(stack_order(s0).drop_first() =~= stack_order(s1));
        }
    }
    let count = node.subpart_count;
    let mut kids: Vec<MimePart> = Vec::new();
    let mut j: usize = 0;
    proof {
        assert(kids@.map_values(|c: MimePart| part_view(c)) =~= Seq::<MimePartView>::empty());
        assert(flatten_parts(Seq::<MimePartView>::empty()) =~= Seq::<MimeNodeView>::empty());
        if has_w {
            assert(wq.subparts.skip(0) =~= wq.subparts);
        }
    }
    while j < count
        invariant
            j <= count,
            count == node.subpart_count,
            stack@.len() <= s1.len(),
            s1.len() < s0.len(),
            s0.len() == old(stack)@.len(),
            s0 == old(stack).deep_view(),
            has_w == (exists|q: MimePartView, t: Seq<MimeNodeView>|
                stack_order(s0) == flatten_part(q) + t),
            kids@.len() == j,
            stack_order(s1) == flatten_parts(kids@.map_values(|c: MimePart| part_view(c)))
                + stack_order(stack.deep_view()),
            has_w ==> node@ == node_of(wq),
            has_w ==> kids@.map_values(|c: MimePart| part_view(c)) == wq.subparts.take(j as int),
            has_w ==> stack_order(stack.deep_view()) == flatten_parts(wq.subparts.skip(j as int))
                + wt,
        decreases count - j,
    {
        let ghost sb = stack.deep_view();
        let ghost kv = kids@.map_values(|c: MimePart| part_view(c));
        proof {
            if has_w {
                assert(j < wq.subparts.len());
                let rest = wq.subparts.skip(j as int);
                assert(rest[0] == wq.subparts[j as int]);
                assert(rest.drop_first() =~= wq.subparts.skip(j + 1));
                assert(flatten_parts(rest) + wt =~= flatten_part(wq.subparts[j as int]) + (
                flatten_parts(wq.subparts.skip(j + 1)) + wt));
                let q = wq.subparts[j as int];
                let t = flatten_parts(wq.subparts.skip(j + 1)) + wt;
                assert(stack_order(sb) == flatten_part(q) + t);
                assert(exists|q: MimePartView, t: Seq<MimeNodeView>|
                    stack_order(sb) == flatten_part(q) + t);
            }
        }
        let c = match take_part(stack) {
            Some(c) => c,
            None => {
                return None;
            },
        };
        let ghost sa = stack.deep_view();
        proof {
            lemma_flatten_parts_concat(kv, seq![c@]);
            assert(flatten_parts(seq![c@]) =~= flatten_part(c@)) by {
                let one = seq![c@];
                assert(one.drop_first() =~= Seq::<MimePartView>::empty());
                assert(flatten_parts(one.drop_first()) =~= Seq::<MimeNodeView>::empty());
                assert(one[0] == c@);
            }
            if has_w {
                lemma_flatten_part_unique(
                    c@,
                    stack_order(sa),
                    wq.subparts[j as int],
                    flatten_parts(wq.subparts.skip(j + 1)) + wt,
                );
                assert(wq.subparts.take(j + 1) =~= wq.subparts.take(j as int).push(
                    wq.subparts[j as int],
                ));
            }
        }
        proof {
            assert(kv.push(c@) =~= kv + seq![c@]);
            assert(stack_order(s1) =~= flatten_parts(kv.push(c@)) + stack_order(sa));
        }
        kids.push(c);
        assert(kids@.map_values(|c: MimePart| part_view(c)) =~= kv.push(c@));
        j = j + 1;
    }
    let ghost kv = kids@.map_values(|c: MimePart| part_view(c));
    let part = MimePart {
        headers: node.headers,
        mimetype: node.mimetype,
        params: node.params,
        body_raw: node.body_raw,
        body: node.body,
        subparts: kids,
    };
    assert(part@.subparts =~= kv);
    assert(node_of(part@) == node@);
    assert(stack_order(s0) =~= flatten_part(part@) + stack_order(stack.deep_view()));
    Some(part)
}

/// The entries of `v` in reverse order.
fn reversed(v: Vec<MimeNode>) -> (res: Vec<MimeNode>)
    ensures
        res.deep_view() == v.deep_view().reverse(),
{
    let ghost vd = v.deep_view();
    let ghost n = vd.len();
    let mut src = v;
    let mut out: Vec<MimeNode> = Vec::new();
    while src.len() > 0
        invariant
            src.len() + out.len() == n,
            n == vd.len(),
            forall|i: int| 0 <= i < src.len() ==> #[trigger] src.deep_view()[i] == vd[i],
            forall|j: int| 0 <= j < out.len() ==> #[trigger] out.deep_view()[j] == vd[n - 1 - j],
        decreases src.len(),
    {
        let ghost before = src.deep_view();
        let ghost out_before = out.deep_view();
        let x = src.pop().unwrap();
        assert(before[before.len() - 1] == x.deep_view());
        assert(forall|i: int| 0 <= i < src.len() ==> #[trigger] src.deep_view()[i] == before[i]);
        out.push(x);
        assert(out.deep_view() =~= out_before.push(x.deep_view()));
    }
    assert(out.deep_view() =~= vd.reverse());
    out
}

/// Rebuilds a part tree from its pre-order listing (each entry carrying
/// the number of its subparts): `Some` exactly when `nodes` is the listing
/// of a tree, and then that tree.
pub fn build_part_tree(nodes: Vec<MimeNode>) -> (res: Option<MimePart>)
    ensures
        match res {
            Some(p) => flatten_part(p@) == nodes.deep_view(),
            None => !is_part_listing(nodes.deep_view()),
        },
{
    let ghost nv = nodes.deep_view();
    let mut stack = reversed(nodes);
    let ghost sv = stack.deep_view();
    assert(stack_order(sv) =~= nv);
    proof {
        if is_part_listing(nv) {
            let q = choose|q: MimePartView| flatten_part(q) == nv;
            assert(stack_order(sv) == flatten_part(q) + Seq::<MimeNodeView>::empty());
        }
    }
    match take_part(&mut stack) {
        Some(p) => {
            if stack.len() == 0 {
                assert(stack_order(stack.deep_view()) =~= Seq::<MimeNodeView>::empty());
                assert(flatten_part(p@) + Seq::<MimeNodeView>::empty() =~= flatten_part(p@));
                Some(p)
            } else {
                proof {
                    if is_part_listing(nv) {
                        let q = choose|q: MimePartView| flatten_part(q) == nv;
                        assert(flatten_part(q) + Seq::<MimeNodeView>::empty() =~= flatten_part(q));
                        lemma_flatten_part_unique(
                            p@,
                            stack_order(stack.deep_view()),
                            q,
                            Seq::empty(),
                        );
                    }
                }
                None
            }
        },
        None => None,
    }
}

// ── Bodies and attachments ─────────────────────────────────────────────────

/// What a walk over a part tree gathers: the first plain-text body, the
/// first HTML body, and the attachments in order.
#[derive(Debug)]
pub struct BodyParts {
    pub text_body: Option<String>,
    pub html_body: Option<String>,
    pub attachments: Vec<MailAttachment>,
}

pub ghost struct BodyPartsView {
    pub text_body: Option<Seq<char>>,
    pub html_body: Option<Seq<char>>,
    pub attachments: Seq<MailAttachmentView>,
}

impl View for BodyParts {
    type V = BodyPartsView;

    open spec fn view(&self) -> BodyPartsView {
        BodyPartsView {
            text_body: self.text_body.deep_view(),
            html_body: self.html_body.deep_view(),
            attachments: self.attachments.deep_view(),
        }
    }
}

/// Nothing gathered yet.
pub open spec fn no_body_parts() -> BodyPartsView {
    BodyPartsView { text_body: None, html_body: None, attachments: seq![] }
}

/// Whether a header is a `Content-Disposition` (any case) whose value starts
/// with `attachment` (any case).
pub open spec fn is_disposition_attachment(h: HeaderFieldView) -> bool {
    lower_text(h.key) == "content-disposition"@ && starts_with_seq(
        lower_text(h.value),
        "attachment"@,
    )
}

/// The value of the first parameter named `key`.
pub open spec fn param_value(params: Seq<(Seq<char>, Seq<char>)>, key: Seq<char>) -> Option<
    Seq<char>,
>
    decreases params.len(),
{
    if params.len() == 0 {
        None
    } else if params[0].0 == key {
        Some(params[0].1)
    } else {
        param_value(params.drop_first(), key)
    }
}

/// A part is an attachment when a header marks it so, or when its content
/// type has a `name` parameter.
pub open spec fn is_attachment_part(p: MimePartView) -> bool {
    (exists|i: int| 0 <= i < p.headers.len() && is_disposition_attachment(#[trigger] p.headers[i]))
        || param_value(p.params, "name"@) is Some
}

/// The attachment record of a part with the given decoded body: named by
/// its `name` parameter (`attachment` when there is none), with the body in
/// base64.
pub open spec fn attachment_of(p: MimePartView, body: Seq<u8>) -> MailAttachmentView {
    MailAttachmentView {
        filename: match param_value(p.params, "name"@) {
            Some(n) => n,
            None => "attachment"@,
        },
        content_type: p.mimetype,
        size: body.len() as usize,
        data: Some(base64_spec(body)),
    }
}

/// What one part adds to what was gathered before it. An attachment part is
/// recorded (when its body decodes) and not looked into; a leaf with a
/// decodable body fills the text or HTML body if that is still empty;
/// otherwise the subparts are walked in order.
pub open spec fn collect_part(p: MimePartView, st: BodyPartsView) -> BodyPartsView
    decreases p,
{
    if is_attachment_part(p) {
        match p.body_raw {
            Some(b) => BodyPartsView {
                text_body: st.text_body,
                html_body: st.html_body,
                attachments: st.attachments.push(attachment_of(p, b)),
            },
            None => st,
        }
    } else if p.subparts.len() == 0 {
        match p.body {
            Some(b) => if starts_with_seq(p.mimetype, "text/plain"@) && st.text_body is None {
                BodyPartsView { text_body: Some(b), html_body: st.html_body, attachments: st.attachments }
            } else if starts_with_seq(p.mimetype, "text/html"@) && st.html_body is None {
                BodyPartsView { text_body: st.text_body, html_body: Some(b), attachments: st.attachments }
            } else {
                st
            },
            None => st,
        }
    } else {
        collect_parts_seq(p.subparts, st)
    }
}

/// `collect_part` over a sequence of parts, first to last.
pub open spec fn collect_parts_seq(ps: Seq<MimePartView>, st: BodyPartsView) -> BodyPartsView
    decreases ps,
{
    if ps.len() == 0 {
        st
    } else {
        collect_part(ps.last(), collect_parts_seq(ps.drop_last(), st))
    }
}

/// Whether an attachment record carries data that decodes to `size` bytes.
pub open spec fn attachment_data_decodes(a: MailAttachmentView) -> bool {
    match a.data {
        Some(d) => match base64_decoded(d) {
            Some(b) => a.size == b.len() as usize,
            None => false,
        },
        None => false,
    }
}

/// What a walk keeps of what it was given: earlier attachments stay in
/// place, a body already found stays, and every attachment it adds carries
/// data that decodes to exactly `size` bytes.
pub open spec fn extends_collected(before: BodyPartsView, after: BodyPartsView) -> bool {
    &&& before.attachments.len() <= after.attachments.len()
    &&& forall|k: int| 0 <= k < before.attachments.len() ==> after.attachments[k] == before.attachments[k]
    &&& forall|k: int|
        before.attachments.len() <= k < after.attachments.len() ==> attachment_data_decodes(
            #[trigger] after.attachments[k],
        )
    &&& before.text_body is Some ==> after.text_body == before.text_body
    &&& before.html_body is Some ==> after.html_body == before.html_body
}

/// Walking a part tree only adds to what was gathered: attachments are
/// appended (each with data that decodes back to its `size` bytes), and a
/// text or HTML body, once found, is kept.
pub proof fn lemma_collect_part_extends(p: MimePartView, st: BodyPartsView)
    ensures
        extends_collected(st, collect_part(p, st)),
    decreases p,
{
    if is_attachment_part(p) {
        if let Some(b) = p.body_raw {
            lemma_base64_roundtrip(b);
            let after = collect_part(p, st);
            assert(after.attachments == st.attachments.push(attachment_of(p, b)));
            assert(attachment_data_decodes(attachment_of(p, b)));
        }
    } else if p.subparts.len() != 0 {
        lemma_collect_parts_seq_extends(p.subparts, st);
    }
}

/// `lemma_collect_part_extends` for a sequence of parts.
pub proof fn lemma_collect_parts_seq_extends(ps: Seq<MimePartView>, st: BodyPartsView)
    ensures
        extends_collected(st, collect_parts_seq(ps, st)),
    decreases ps,
{
    if ps.len() != 0 {
        let mid = collect_parts_seq(ps.drop_last(), st);
        lemma_collect_parts_seq_extends(ps.drop_last(), st);
        lemma_collect_part_extends(ps.last(), mid);
        let after = collect_parts_seq(ps, st);
        assert(after == collect_part(ps.last(), mid));
        assert forall|k: int|
            st.attachments.len() <= k < after.attachments.len() implies attachment_data_decodes(
            #[trigger] after.attachments[k],
        ) by {
            if k < mid.attachments.len() {
                assert(after.attachments[k] == mid.attachments[k]);
            }
        }
    }
}

/// Whether a header marks its part as an attachment.
fn is_attachment_header(h: &HeaderField) -> (b: bool)
    ensures
        b == is_disposition_attachment(h@),
{
    let key = to_lowercase(h.key.as_str());
    if !str_eq(key.as_str(), "content-disposition") {
        return false;
    }
    let value = to_lowercase(h.value.as_str());
    let chars = char_vec(value.as_str());
    let prefix = char_vec("attachment");
    starts_with(chars.as_slice(), prefix.as_slice())
}

/// Whether some header marks its part as an attachment.
fn has_attachment_disposition(hs: &Vec<HeaderField>) -> (b: bool)
    ensures
        b == (exists|i: int|
            0 <= i < hs.deep_view().len() && is_disposition_attachment(#[trigger] hs.deep_view()[i])),
{
    let ghost hv = hs.deep_view();
    let mut i: usize = 0;
    while i < hs.len()
        invariant
            i <= hv.len(),
            hv == hs.deep_view(),
            forall|k: int| 0 <= k < i ==> !is_disposition_attachment(#[trigger] hv[k]),
        decreases hv.len() - i,
    {
        assert(hv[i as int] == hs[i as int]@);
        if is_attachment_header(&hs[i]) {
            return true;
        }
        i = i + 1;
    }
    false
}

/// The value of the first parameter named `key`.
fn param_lookup(params: &Vec<(String, String)>, key: &str) -> (res: Option<String>)
    ensures
        res.deep_view() == param_value(params.deep_view(), key@),
{
    let ghost pv = params.deep_view();
    let mut i: usize = 0;
    assert(pv.skip(0) =~= pv);
    while i < params.len()
        invariant
            i <= pv.len(),
            pv == params.deep_view(),
            param_value(pv, key@) == param_value(pv.skip(i as int), key@),
        decreases pv.len() - i,
    {
        let ghost rest = pv.skip(i as int);
        assert(rest[0] == pv[i as int]);
        assert(rest.drop_first() =~= pv.skip(i + 1));
        assert(pv[i as int] == params[i as int].deep_view());
        if str_eq(params[i].0.as_str(), key) {
            return Some(params[i].1.clone());
        }
        i = i + 1;
    }
    assert(pv.skip(i as int) =~= Seq::<(Seq<char>, Seq<char>)>::empty());
    None
}

/// Walks a part tree in order, adding to `out` its bodies and attachments
/// (see `collect_part`).
pub fn collect_parts(part: &MimePart, out: &mut BodyParts)
    ensures
        final(out)@ == collect_part(part@, old(out)@),
    decreases part,
{
    let name = param_lookup(&part.params, "name");
    if has_attachment_disposition(&part.headers) || name.is_some() {
        match &part.body_raw {
            Some(body) => {
                let filename = match name {
                    Some(n) => n,
                    None => String::from_str("attachment"),
                };
                let att = MailAttachment {
                    filename,
                    content_type: part.mimetype.clone(),
                    size: body.len(),
                    data: Some(base64_encode(body.as_slice())),
                };
                let ghost before = out.attachments.deep_view();
                assert(part@.body_raw == Some(body@));
                assert(att@ == attachment_of(part@, body@));
                out.attachments.push(att);
                assert(out.attachments.deep_view() =~= before.push(att@));
            },
            None => {},
        }
        assert(is_attachment_part(part@));
        return;
    }
    if part.subparts.len() == 0 {
        match &part.body {
            Some(body) => {
                let mime = char_vec(part.mimetype.as_str());
                let plain = char_vec("text/plain");
                let html = char_vec("text/html");
                if starts_with(mime.as_slice(), plain.as_slice()) && out.text_body.is_none() {
                    out.text_body = Some(body.clone());
                } else if starts_with(mime.as_slice(), html.as_slice()) && out.html_body.is_none() {
                    out.html_body = Some(body.clone());
                }
            },
            None => {},
        }
    } else {
        let ghost start = out@;
        let ghost subs = part@.subparts;
        let mut i: usize = 0;
        assert(subs.take(0) =~= Seq::<MimePartView>::empty());
        while i < part.subparts.len()
            invariant
                i <= part.subparts@.len(),
                subs == part@.subparts,
                subs.len() == part.subparts@.len(),
                out@ == collect_parts_seq(subs.take(i as int), start),
            decreases part.subparts@.len() - i,
        {
            assert(subs[i as int] == part.subparts@[i as int]@);
            assert(subs.take(i + 1).drop_last() =~= subs.take(i as int));
            assert(subs.take(i + 1).last() == subs[i as int]);
            collect_parts(&part.subparts[i], out);
            i = i + 1;
        }
        assert(subs.take(subs.len() as int) =~= subs);
    }
}

} // verus!
