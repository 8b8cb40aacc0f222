//! The forward picker: which conversations a message can be forwarded to,
//! in which order, and which of them a search keeps.

use vstd::prelude::*;
use crate::model::{ChatKind, ChatSummary, ContactSummary};
use crate::model;
use crate::text;
use crate::starred::notice_view;

verus! {

/// Code-point lexicographic order of two texts, which is also the order of
/// their UTF-8 bytes.
pub open spec fn text_lt(a: Seq<char>, b: Seq<char>) -> bool
    decreases a.len(),
{
    if a.len() == 0 {
        b.len() > 0
    } else if b.len() == 0 {
        false
    } else if a[0] != b[0] {
        (a[0] as u32) < (b[0] as u32)
    } else {
        text_lt(a.drop_first(), b.drop_first())
    }
}

/// No text comes before itself, and of two texts at most one comes first.
pub proof fn lemma_text_lt_strict(a: Seq<char>, b: Seq<char>)
    ensures
        !text_lt(a, a),
        !(text_lt(a, b) && text_lt(b, a)),
    decreases a.len(),
{
    if a.len() > 0 && b.len() > 0 {
        lemma_text_lt_strict(a.drop_first(), b.drop_first());
    }
    if a.len() > 0 {
        lemma_text_lt_strict(a.drop_first(), a.drop_first());
    }
}

/// Different characters have different code points.
pub proof fn lemma_code_points_differ(c: char, d: char)
    requires
        c != d,
    ensures
        (c as u32) != (d as u32),
{
}

/// Of two different texts, one comes first.
pub proof fn lemma_text_lt_total(a: Seq<char>, b: Seq<char>)
    ensures
        a == b || text_lt(a, b) || text_lt(b, a),
    decreases a.len(),
{
    if a.len() == 0 || b.len() == 0 {
        if a.len() == 0 && b.len() == 0 {
            assert(a =~= b);
        }
    } else if a[0] != b[0] {
        lemma_code_points_differ(a[0], b[0]);
    } else {
        lemma_text_lt_total(a.drop_first(), b.drop_first());
        if a.drop_first() == b.drop_first() {
            assert(a =~= seq![a[0]] + a.drop_first());
            assert(b =~= seq![b[0]] + b.drop_first());
        }
    }
}

/// The order of texts is transitive.
pub proof fn lemma_text_lt_trans(a: Seq<char>, b: Seq<char>, c: Seq<char>)
    requires
        text_lt(a, b),
        text_lt(b, c),
    ensures
        text_lt(a, c),
    decreases a.len(),
{
    if a.len() > 0 && b.len() > 0 && c.len() > 0 && a[0] == b[0] && b[0] == c[0] {
        lemma_text_lt_trans(a.drop_first(), b.drop_first(), c.drop_first());
    }
}

/// Whether `a` comes before `b` in code-point order.
pub fn text_less(a: &str, b: &str) -> (r: bool)
    ensures
        r == text_lt(a@, b@),
{
    let x = text::chars_of(a);
    let y = text::chars_of(b);
    let mut i: usize = 0;
    assert(x@.skip(0) == x@ && y@.skip(0) == y@);
    while i < x.len() && i < y.len()
        invariant
            i <= x@.len(),
            i <= y@.len(),
            text_lt(x@, y@) == text_lt(x@.skip(i as int), y@.skip(i as int)),
            x@ == a@,
            y@ == b@,
        decreases x@.len() - i,
    {
        if x[i] != y[i] {
            let (cx, cy) = (x[i], y[i]);
            assert(x@.skip(i as int)[0] == cx && y@.skip(i as int)[0] == cy);
            return (cx as u32) < (cy as u32);
        }
        assert(x@.skip(i as int).drop_first() == x@.skip(i + 1));
        assert(y@.skip(i as int).drop_first() == y@.skip(i + 1));
        i = i + 1;
    }
    i < y.len()
}

/// Where a pin puts a chat: unpinned chats below every pinned one.
pub open spec fn pin_rank(pinned_at_ms: Option<i64>) -> int {
    match pinned_at_ms {
        Some(t) => t as int,
        None => i64::MIN - 1,
    }
}

/// Whether chat `a` is listed above chat `b`: pinned chats first, the most
/// recently pinned highest, then the most recent activity, then by id.
pub open spec fn ranks_above(a: ChatSummary, b: ChatSummary) -> bool {
    ||| pin_rank(a.pinned_at_ms) > pin_rank(b.pinned_at_ms)
    ||| pin_rank(a.pinned_at_ms) == pin_rank(b.pinned_at_ms) && a.last_activity_ms
        > b.last_activity_ms
    ||| pin_rank(a.pinned_at_ms) == pin_rank(b.pinned_at_ms) && a.last_activity_ms
        == b.last_activity_ms && text_lt(a.id@, b.id@)
}

/// Whether two chats tie on every key of the order.
pub open spec fn same_rank(a: ChatSummary, b: ChatSummary) -> bool {
    &&& pin_rank(a.pinned_at_ms) == pin_rank(b.pinned_at_ms)
    &&& a.last_activity_ms == b.last_activity_ms
    &&& a.id@ == b.id@
}

/// Whether `a` is listed above `b`.
pub fn rank_above(a: &ChatSummary, b: &ChatSummary) -> (r: bool)
    ensures
        r == ranks_above(*a, *b),
{
    let (pa, pb): (i128, i128) = (
        match a.pinned_at_ms {
            Some(t) => t as i128,
            None => i64::MIN as i128 - 1,
        },
        match b.pinned_at_ms {
            Some(t) => t as i128,
            None => i64::MIN as i128 - 1,
        },
    );
    if pa != pb {
        return pa > pb;
    }
    if a.last_activity_ms != b.last_activity_ms {
        return a.last_activity_ms > b.last_activity_ms;
    }
    text_less(a.id.as_str(), b.id.as_str())
}

/// Whether the chat at index `i` is listed before the one at index `j`:
/// by rank, and in list order where they tie.
pub open spec fn listed_before(chats: Seq<ChatSummary>, i: int, j: int) -> bool {
    ||| ranks_above(chats[i], chats[j])
    ||| same_rank(chats[i], chats[j]) && i < j
}

/// The listing order is a strict total order on indices.
pub proof fn lemma_listed_before_order(chats: Seq<ChatSummary>, i: int, j: int, k: int)
    ensures
        !listed_before(chats, i, i),
        !(listed_before(chats, i, j) && listed_before(chats, j, i)),
        i != j ==> listed_before(chats, i, j) || listed_before(chats, j, i),
        listed_before(chats, i, j) && listed_before(chats, j, k) ==> listed_before(chats, i, k),
{
    lemma_text_lt_strict(chats[i].id@, chats[j].id@);
    lemma_text_lt_strict(chats[i].id@, chats[k].id@);
    lemma_text_lt_strict(chats[j].id@, chats[k].id@);
    lemma_text_lt_total(chats[i].id@, chats[j].id@);
    if text_lt(chats[i].id@, chats[j].id@) && text_lt(chats[j].id@, chats[k].id@) {
        lemma_text_lt_trans(chats[i].id@, chats[j].id@, chats[k].id@);
    }
}

/// Whether a chat can receive a forward from `source`: another direct or
/// group chat that is not archived.
pub open spec fn forwardable(chat: ChatSummary, source: Seq<char>) -> bool {
    &&& chat.id@ != source
    &&& !chat.archived
    &&& (chat.kind == ChatKind::Direct || chat.kind == ChatKind::Group)
}

/// Whether each index of `o` is listed before every later one.
pub open spec fn listed_in_order(chats: Seq<ChatSummary>, o: Seq<usize>) -> bool {
    forall|a: int, b: int|
        0 <= a < b < o.len() ==> listed_before(chats, #[trigger] o[a] as int, #[trigger] o[b] as int)
}

/// Whether `o` lists the indices of exactly the forwardable chats, each
/// once, in listing order.
pub open spec fn is_rank_order(chats: Seq<ChatSummary>, source: Seq<char>, o: Seq<usize>) -> bool {
    &&& forall|k: int|
        0 <= k < o.len() ==> (#[trigger] o[k]) < chats.len() && forwardable(
            chats[o[k] as int],
            source,
        )
    &&& forall|i: int|
        0 <= i < chats.len() && forwardable(#[trigger] chats[i], source) ==> o.contains(
            i as usize,
        )
    &&& listed_in_order(chats, o)
}

/// The forwardable chats' indices in listing order.
pub open spec fn rank_order(chats: Seq<ChatSummary>, source: Seq<char>) -> Seq<usize> {
    choose|o: Seq<usize>| is_rank_order(chats, source, o)
}

/// Two sequences that list the same indices, each strictly in listing
/// order, are the same sequence.
pub proof fn lemma_listing_is_unique(chats: Seq<ChatSummary>, o1: Seq<usize>, o2: Seq<usize>)
    requires
        forall|x: usize| o1.contains(x) <==> o2.contains(x),
        listed_in_order(chats, o1),
        listed_in_order(chats, o2),
    ensures
        o1 == o2,
    decreases o1.len(),
{
    if o1.len() == 0 {
        if o2.len() > 0 {
            assert(o2.contains(o2[0]));
        }
        assert(o1 == o2);
    } else {
        assert(o1.contains(o1[0]));
        assert(o2.len() > 0);
        let k = choose|k: int| 0 <= k < o2.len() && o2[k] == o1[0];
        assert(o2.contains(o2[0]));
        let m = choose|m: int| 0 <= m < o1.len() && o1[m] == o2[0];
        if k > 0 {
            assert(listed_before(chats, o2[0] as int, o2[k] as int));
            if m > 0 {
                assert(listed_before(chats, o1[0] as int, o1[m] as int));
            } else {
                lemma_listed_before_order(chats, o2[0] as int, o2[0] as int, 0);
            }
            lemma_listed_before_order(chats, o1[0] as int, o2[0] as int, 0);
            assert(false);
        }
        assert(o1[0] == o2[0]);
        let t1 = o1.drop_first();
        let t2 = o2.drop_first();
        assert forall|x: usize| t1.contains(x) <==> t2.contains(x) by {
            if t1.contains(x) {
                let a = choose|a: int| 0 <= a < t1.len() && t1[a] == x;
                assert(o1[a + 1] == x);
                assert(listed_before(chats, o1[0] as int, o1[a + 1] as int));
                lemma_listed_before_order(chats, o1[0] as int, o1[0] as int, 0);
                assert(x != o1[0]);
                assert(o1.contains(x));
                let b = choose|b: int| 0 <= b < o2.len() && o2[b] == x;
                assert(b != 0);
                assert(t2[b - 1] == x);
            }
            if t2.contains(x) {
                let a = choose|a: int| 0 <= a < t2.len() && t2[a] == x;
                assert(o2[a + 1] == x);
                assert(listed_before(chats, o2[0] as int, o2[a + 1] as int));
                lemma_listed_before_order(chats, o2[0] as int, o2[0] as int, 0);
                assert(x != o2[0]);
                assert(o2.contains(x));
                let b = choose|b: int| 0 <= b < o1.len() && o1[b] == x;
                assert(b != 0);
                assert(t1[b - 1] == x);
            }
        }
        assert(listed_in_order(chats, t1)) by {
            assert forall|a: int, b: int| 0 <= a < b < t1.len() implies listed_before(
                chats,
                #[trigger] t1[a] as int,
                #[trigger] t1[b] as int,
            ) by {
                assert(t1[a] == o1[a + 1] && t1[b] == o1[b + 1]);
            }
        }
        assert(listed_in_order(chats, t2)) by {
            assert forall|a: int, b: int| 0 <= a < b < t2.len() implies listed_before(
                chats,
                #[trigger] t2[a] as int,
                #[trigger] t2[b] as int,
            ) by {
                assert(t2[a] == o2[a + 1] && t2[b] == o2[b + 1]);
            }
        }
        lemma_listing_is_unique(chats, t1, t2);
        assert(o1 == seq![o1[0]] + t1);
        assert(o2 == seq![o2[0]] + t2);
    }
}

/// There is one listing order of the forwardable chats.
pub proof fn lemma_rank_order_unique(
    chats: Seq<ChatSummary>,
    source: Seq<char>,
    o1: Seq<usize>,
    o2: Seq<usize>,
)
    requires
        is_rank_order(chats, source, o1),
        is_rank_order(chats, source, o2),
    ensures
        o1 == o2,
{
    assert forall|x: usize| o1.contains(x) <==> o2.contains(x) by {
        if o1.contains(x) {
            let k = choose|k: int| 0 <= k < o1.len() && o1[k] == x;
            assert(forwardable(chats[o1[k] as int], source));
        }
        if o2.contains(x) {
            let k = choose|k: int| 0 <= k < o2.len() && o2[k] == x;
            assert(forwardable(chats[o2[k] as int], source));
        }
    }
    lemma_listing_is_unique(chats, o1, o2);
}

/// Inserting a later index just above the first entry it ranks above keeps
/// the listing order.
proof fn lemma_insert_in_order(chats: Seq<ChatSummary>, o: Seq<usize>, p: int, i: usize)
    requires
        listed_in_order(chats, o),
        0 <= p <= o.len(),
        forall|k: int| 0 <= k < o.len() ==> (#[trigger] o[k]) < i,
        forall|q: int| 0 <= q < p ==> !ranks_above(chats[i as int], chats[#[trigger] o[q] as int]),
        p < o.len() ==> ranks_above(chats[i as int], chats[o[p] as int]),
    ensures
        listed_in_order(chats, o.insert(p, i)),
{
    let n = o.insert(p, i);
    assert forall|a: int, b: int| 0 <= a < b < n.len() implies listed_before(
        chats,
        #[trigger] n[a] as int,
        #[trigger] n[b] as int,
    ) by {
        if b < p {
            assert(n[a] == o[a] && n[b] == o[b]);
        } else if a > p {
            assert(n[a] == o[a - 1] && n[b] == o[b - 1]);
        } else if a < p && b == p {
            assert(n[a] == o[a] && n[b] == i);
            lemma_listed_before_order(chats, o[a] as int, i as int, 0);
            assert(!ranks_above(chats[i as int], chats[o[a] as int]));
        } else if a == p {
            assert(n[a] == i && n[b] == o[b - 1]);
            assert(listed_before(chats, i as int, o[p] as int));
            if b - 1 > p {
                assert(listed_before(chats, o[p] as int, o[b - 1] as int));
                lemma_listed_before_order(chats, i as int, o[p] as int, o[b - 1] as int);
            }
        } else {
            assert(a < p && b > p);
            assert(n[a] == o[a] && n[b] == o[b - 1]);
        }
    }
}

/// Whether a chat can receive a forward from `source`.
pub fn is_forwardable(chat: &ChatSummary, source: &str) -> (r: bool)
    ensures
        r == forwardable(*chat, source@),
{
    !text::same_text(chat.id.as_str(), source) && !chat.archived && (chat.kind == ChatKind::Direct
        || chat.kind == ChatKind::Group)
}

/// The indices of the chats a message from `source` can be forwarded to,
/// in listing order (a stable sort of the list by rank).
pub fn forward_order(chats: &[ChatSummary], source: &str) -> (o: Vec<usize>)
    ensures
        is_rank_order(chats@, source@, o@),
        o@ == rank_order(chats@, source@),
{
    let mut o: Vec<usize> = Vec::new();
    let mut i: usize = 0;
    while i < chats.len()
        invariant
            i <= chats@.len(),
            forall|k: int|
                0 <= k < o@.len() ==> (#[trigger] o@[k]) < i && forwardable(
                    chats@[o@[k] as int],
                    source@,
                ),
            forall|j: int|
                0 <= j < i && forwardable(#[trigger] chats@[j], source@) ==> o@.contains(
                    j as usize,
                ),
            listed_in_order(chats@, o@),
        decreases chats@.len() - i,
    {
        if is_forwardable(&chats[i], source) {
            let mut p: usize = 0;
            while p < o.len() && !rank_above(&chats[i], &chats[o[p]])
                invariant
                    i < chats@.len(),
                    p <= o@.len(),
                    forall|k: int| 0 <= k < o@.len() ==> (#[trigger] o@[k]) < i,
                    forall|q: int|
                        0 <= q < p ==> !ranks_above(chats@[i as int], chats@[#[trigger] o@[q] as int]),
                decreases o@.len() - p,
            {
                p = p + 1;
            }
            proof {
                lemma_insert_in_order(chats@, o@, p as int, i);
            }
            let ghost old_o = o@;
            o.insert(p, i);
            assert forall|j: int|
                0 <= j < i + 1 && forwardable(#[trigger] chats@[j], source@) implies o@.contains(
                j as usize,
            ) by {
                if j < i {
                    let k = choose|k: int| 0 <= k < old_o.len() && old_o[k] == j as usize;
                    if k < p {
                        assert(o@[k] == j as usize);
                    } else {
                        assert(o@[k + 1] == j as usize);
                    }
                } else {
                    assert(o@[p as int] == i);
                }
            }
            assert forall|k: int| 0 <= k < o@.len() implies (#[trigger] o@[k]) < i + 1
                && forwardable(chats@[o@[k] as int], source@) by {
                if k < p {
                    assert(o@[k] == old_o[k]);
                } else if k > p {
                    assert(o@[k] == old_o[k - 1]);
                }
            }
        }
        i = i + 1;
    }
    proof {
        assert(is_rank_order(chats@, source@, o@));
        lemma_rank_order_unique(chats@, source@, o@, rank_order(chats@, source@));
    }
    o
}

/// A row of the forward picker: the conversation, the name it is listed
/// under, and whether it is a group.
#[derive(Debug, PartialEq, Eq)]
pub struct ForwardCandidate {
    pub id: String,
    pub display_name: String,
    pub is_group: bool,
}

impl View for ForwardCandidate {
    type V = (Seq<char>, Seq<char>, bool);

    open spec fn view(&self) -> (Seq<char>, Seq<char>, bool) {
        (self.id@, self.display_name@, self.is_group)
    }
}

/// The rows of a list of candidates.
pub open spec fn rows_of(v: Seq<ForwardCandidate>) -> Seq<(Seq<char>, Seq<char>, bool)> {
    v.map_values(|c: ForwardCandidate| c@)
}

/// Whether a chat is kept by the lower-cased search `q`, given its listed
/// name and its display name lower-cased.
pub open spec fn chat_found(q: Seq<char>, name_lower: Seq<char>, display_lower: Option<Seq<char>>) -> bool {
    ||| q.len() == 0
    ||| text::has_infix(name_lower, q)
    ||| (display_lower matches Some(d) && text::has_infix(d, q))
}

/// Whether position `k` of the listing order `o` is the first with its id.
pub open spec fn first_with_id(chats: Seq<ChatSummary>, o: Seq<usize>, k: int) -> bool {
    forall|m: int| 0 <= m < k ==> chats[#[trigger] o[m] as int].id@ != chats[o[k] as int].id@
}

/// The chat rows of the picker from the first `k` entries of the listing
/// order: each conversation once, where the search keeps it.
pub open spec fn chat_rows(
    chats: Seq<ChatSummary>,
    o: Seq<usize>,
    q: Seq<char>,
    names_lower: Seq<Seq<char>>,
    displays_lower: Seq<Option<Seq<char>>>,
    k: nat,
) -> Seq<(Seq<char>, Seq<char>, bool)>
    decreases k,
{
    if k == 0 {
        seq![]
    } else {
        let prev = chat_rows(chats, o, q, names_lower, displays_lower, (k - 1) as nat);
        let i = o[k - 1] as int;
        let c = chats[i];
        if first_with_id(chats, o, k - 1) && chat_found(q, names_lower[i], displays_lower[i]) {
            prev.push((c.id@, model::chat_name(c), c.kind == ChatKind::Group))
        } else {
            prev
        }
    }
}

/// Whether the contact at index `k` adds a conversation: not the source,
/// not a forwardable chat, and not one of an earlier contact.
pub open spec fn contact_is_new(
    chats: Seq<ChatSummary>,
    contacts: Seq<ContactSummary>,
    source: Seq<char>,
    k: int,
) -> bool {
    let jid = contacts[k].jid@;
    &&& jid != source
    &&& forall|i: int|
        0 <= i < chats.len() && forwardable(#[trigger] chats[i], source) ==> chats[i].id@ != jid
    &&& forall|m: int| 0 <= m < k ==> (#[trigger] contacts[m]).jid@ != jid
}

/// The contact rows of the picker from the first `k` contacts.
pub open spec fn contact_rows(
    chats: Seq<ChatSummary>,
    contacts: Seq<ContactSummary>,
    source: Seq<char>,
    q: Seq<char>,
    contact_names_lower: Seq<Seq<char>>,
    k: nat,
) -> Seq<(Seq<char>, Seq<char>, bool)>
    decreases k,
{
    if k == 0 {
        seq![]
    } else {
        let prev = contact_rows(chats, contacts, source, q, contact_names_lower, (k - 1) as nat);
        let c = contacts[k - 1];
        if contact_is_new(chats, contacts, source, k - 1) && text::has_infix(
            contact_names_lower[k - 1],
            q,
        ) {
            prev.push((c.jid@, c.display_name@, false))
        } else {
            prev
        }
    }
}

/// The picker's rows for the lower-cased search `q`: the chats in listing
/// order, then, for a non-empty search, the address book's other matches.
pub open spec fn picked_rows(
    chats: Seq<ChatSummary>,
    contacts: Seq<ContactSummary>,
    source: Seq<char>,
    q: Seq<char>,
    names_lower: Seq<Seq<char>>,
    displays_lower: Seq<Option<Seq<char>>>,
    contact_names_lower: Seq<Seq<char>>,
) -> Seq<(Seq<char>, Seq<char>, bool)> {
    let o = rank_order(chats, source);
    chat_rows(chats, o, q, names_lower, displays_lower, o.len()) + if q.len() > 0 {
        contact_rows(chats, contacts, source, q, contact_names_lower, contacts.len())
    } else {
        seq![]
    }
}

/// The texts of a list of strings.
pub open spec fn texts_of(v: Seq<String>) -> Seq<Seq<char>> {
    v.map_values(|s: String| s@)
}

/// The texts of a list of optional strings.
pub open spec fn optional_texts_of(v: Seq<Option<String>>) -> Seq<Option<Seq<char>>> {
    v.map_values(
        |o: Option<String>|
            match o {
                Some(s) => Some(s@),
                None => None,
            },
    )
}

/// Whether an earlier entry of the listing order has the same id.
fn id_listed_earlier(chats: &[ChatSummary], o: &Vec<usize>, k: usize) -> (r: bool)
    requires
        k < o@.len(),
        forall|j: int| 0 <= j < o@.len() ==> (#[trigger] o@[j]) < chats@.len(),
    ensures
        r == !first_with_id(chats@, o@, k as int),
{
    let id = chats[o[k]].id.as_str();
    let mut m: usize = 0;
    while m < k
        invariant
            k < o@.len(),
            forall|j: int| 0 <= j < o@.len() ==> (#[trigger] o@[j]) < chats@.len(),
            m <= k,
            id@ == chats@[o@[k as int] as int].id@,
            forall|j: int| 0 <= j < m ==> chats@[#[trigger] o@[j] as int].id@ != id@,
        decreases k - m,
    {
        if text::same_text(chats[o[m]].id.as_str(), id) {
            return true;
        }
        m = m + 1;
    }
    false
}

/// Whether the contact at index `k` adds a conversation to the picker.
fn contact_adds(chats: &[ChatSummary], contacts: &[ContactSummary], source: &str, k: usize) -> (r:
    bool)
    requires
        k < contacts@.len(),
    ensures
        r == contact_is_new(chats@, contacts@, source@, k as int),
{
    let jid = contacts[k].jid.as_str();
    if text::same_text(jid, source) {
        return false;
    }
    let mut i: usize = 0;
    while i < chats.len()
        invariant
            i <= chats@.len(),
            jid@ == contacts@[k as int].jid@,
            forall|j: int|
                0 <= j < i && forwardable(#[trigger] chats@[j], source@) ==> chats@[j].id@ != jid@,
        decreases chats@.len() - i,
    {
        if is_forwardable(&chats[i], source) && text::same_text(chats[i].id.as_str(), jid) {
            return false;
        }
        i = i + 1;
    }
    let mut m: usize = 0;
    while m < k
        invariant
            k < contacts@.len(),
            m <= k,
            jid@ == contacts@[k as int].jid@,
            forall|j: int| 0 <= j < m ==> (#[trigger] contacts@[j]).jid@ != jid@,
        decreases k - m,
    {
        if text::same_text(contacts[m].jid.as_str(), jid) {
            return false;
        }
        m = m + 1;
    }
    true
}

/// Whether `q` occurs in an optional text.
fn found_in_optional(d: &Option<String>, q: &[char]) -> (r: bool)
    ensures
        r == (*d matches Some(t) && text::has_infix(t@, q@)),
{
    match d {
        Some(t) => {
            let v = text::chars_of(t.as_str());
            text::contains_chars(v.as_slice(), q)
        },
        None => false,
    }
}

/// The forward picker's rows for the lower-cased search `q`, given each
/// chat's listed name and display name and each contact's name, all
/// lower-cased.
pub fn pick_forward_candidates(
    chats: &[ChatSummary],
    contacts: &[ContactSummary],
    source: &str,
    q: &str,
    names_lower: &[String],
    displays_lower: &[Option<String>],
    contact_names_lower: &[String],
) -> (r: Vec<ForwardCandidate>)
    requires
        names_lower@.len() == chats@.len(),
        displays_lower@.len() == chats@.len(),
        contact_names_lower@.len() == contacts@.len(),
    ensures
        rows_of(r@) == picked_rows(
            chats@,
            contacts@,
            source@,
            q@,
            texts_of(names_lower@),
            optional_texts_of(displays_lower@),
            texts_of(contact_names_lower@),
        ),
{
    let qv = text::chars_of(q);
    let o = forward_order(chats, source);
    let ghost order = rank_order(chats@, source@);
    let mut out: Vec<ForwardCandidate> = Vec::new();
    let mut k: usize = 0;
    while k < o.len()
        invariant
            o@ == order,
            is_rank_order(chats@, source@, o@),
            qv@ == q@,
            names_lower@.len() == chats@.len(),
            displays_lower@.len() == chats@.len(),
            k <= o@.len(),
            rows_of(out@) == chat_rows(
                chats@,
                o@,
                q@,
                texts_of(names_lower@),
                optional_texts_of(displays_lower@),
                k as nat,
            ),
        decreases o@.len() - k,
    {
        let i = o[k];
        assert(i < chats@.len());
        if !id_listed_earlier(chats, &o, k) {
            let c = &chats[i];
            let found = qv.len() == 0 || {
                let n = text::chars_of(names_lower[i].as_str());
                text::contains_chars(n.as_slice(), qv.as_slice())
            } || found_in_optional(&displays_lower[i], qv.as_slice());
            if found {
                let name = model::fallback_name(c);
                out.push(
                    ForwardCandidate {
                        id: c.id.clone(),
                        display_name: name,
                        is_group: c.kind == ChatKind::Group,
                    },
                );
            }
        }
        assert(rows_of(out@) == chat_rows(
            chats@,
            o@,
            q@,
            texts_of(names_lower@),
            optional_texts_of(displays_lower@),
            (k + 1) as nat,
        ));
        k = k + 1;
    }
    if qv.len() > 0 {
        let ghost chat_part = rows_of(out@);
        let mut k: usize = 0;
        while k < contacts.len()
            invariant
                contact_names_lower@.len() == contacts@.len(),
                qv@ == q@,
                k <= contacts@.len(),
                rows_of(out@) == chat_part + contact_rows(
                    chats@,
                    contacts@,
                    source@,
                    q@,
                    texts_of(contact_names_lower@),
                    k as nat,
                ),
            decreases contacts@.len() - k,
        {
            let ghost prev = rows_of(out@);
            if contact_adds(chats, contacts, source, k) {
                let n = text::chars_of(contact_names_lower[k].as_str());
                if text::contains_chars(n.as_slice(), qv.as_slice()) {
                    let c = &contacts[k];
                    assert(contact_rows(chats@, contacts@, source@, q@, texts_of(contact_names_lower@), (k + 1) as nat)
                        == contact_rows(chats@, contacts@, source@, q@, texts_of(contact_names_lower@), k as nat).push((c.jid@, c.display_name@, false)));
                    let cand = ForwardCandidate {
                        id: c.jid.clone(),
                        display_name: c.display_name.clone(),
                        is_group: false,
                    };
                    assert(cand@ == (c.jid@, c.display_name@, false));
                    out.push(cand);
                    assert(rows_of(out@) =~= prev.push((c.jid@, c.display_name@, false)));
                }
            }
            assert(rows_of(out@) =~= chat_part + contact_rows(
                chats@,
                contacts@,
                source@,
                q@,
                texts_of(contact_names_lower@),
                (k + 1) as nat,
            ));
            k = k + 1;
        }
    }
    out
}

/// The search text of a query: trimmed, then lower-cased.
pub open spec fn search_key(query: Seq<char>) -> Seq<char> {
    text::lowercase(text::trimmed(query))
}

/// The forward picker's rows for a message of `source` and the search
/// `query`: names are matched lower-cased.
pub open spec fn forward_rows(
    chats: Seq<ChatSummary>,
    contacts: Seq<ContactSummary>,
    source: Seq<char>,
    query: Seq<char>,
) -> Seq<(Seq<char>, Seq<char>, bool)> {
    picked_rows(
        chats,
        contacts,
        source,
        search_key(query),
        Seq::new(chats.len(), |i: int| text::lowercase(model::chat_name(chats[i]))),
        Seq::new(
            chats.len(),
            |i: int|
                match chats[i].display_name {
                    Some(d) => Some(text::lowercase(d@)),
                    None => None,
                },
        ),
        Seq::new(contacts.len(), |k: int| text::lowercase(contacts[k].display_name@)),
    )
}

/// The conversations a message of `source` can be forwarded to, filtered
/// by `query`: forwardable chats (each id once) in listing order whose
/// listed or display name contains the trimmed, lower-cased query, then,
/// for a non-empty query, the address book's other contacts whose name
/// contains it.
pub fn forward_candidates(
    chats: &[ChatSummary],
    contacts: &[ContactSummary],
    source: &str,
    query: &str,
) -> (r: Vec<ForwardCandidate>)
    ensures
        rows_of(r@) == forward_rows(chats@, contacts@, source@, query@),
{
    let qv = text::chars_of(query);
    let trimmed = text::trim_chars(qv.as_slice());
    let trimmed = text::string_from_chars(trimmed.as_slice());
    let key = text::to_lowercase(trimmed.as_str());
    let mut names: Vec<String> = Vec::new();
    let mut displays: Vec<Option<String>> = Vec::new();
    for i in 0..chats.len()
        invariant
            names@.len() == i,
            displays@.len() == i,
            forall|j: int|
                0 <= j < i ==> (#[trigger] names@[j])@ == text::lowercase(
                    model::chat_name(chats@[j]),
                ),
            forall|j: int|
                0 <= j < i ==> match (#[trigger] displays@[j]) {
                    Some(d) => chats@[j].display_name matches Some(n) && d@ == text::lowercase(n@),
                    None => chats@[j].display_name is None,
                },
    {
        let name = model::fallback_name(&chats[i]);
        names.push(text::to_lowercase(name.as_str()));
        let d = match &chats[i].display_name {
            Some(n) => Some(text::to_lowercase(n.as_str())),
            None => None,
        };
        displays.push(d);
    }
    let mut contact_names: Vec<String> = Vec::new();
    for k in 0..contacts.len()
        invariant
            contact_names@.len() == k,
            forall|j: int|
                0 <= j < k ==> (#[trigger] contact_names@[j])@ == text::lowercase(
                    contacts@[j].display_name@,
                ),
    {
        contact_names.push(text::to_lowercase(contacts[k].display_name.as_str()));
    }
    let r = pick_forward_candidates(
        chats,
        contacts,
        source,
        key.as_str(),
        names.as_slice(),
        displays.as_slice(),
        contact_names.as_slice(),
    );
    proof {
        assert(texts_of(names@) =~= Seq::new(
            chats@.len(),
            |i: int| text::lowercase(model::chat_name(chats@[i])),
        ));
        assert(optional_texts_of(displays@) =~= Seq::new(
            chats@.len(),
            |i: int|
                match chats@[i].display_name {
                    Some(d) => Some(text::lowercase(d@)),
                    None => None,
                },
        ));
        assert(texts_of(contact_names@) =~= Seq::new(
            contacts@.len(),
            |k: int| text::lowercase(contacts@[k].display_name@),
        ));
    }
    r
}

/// The first position of `o`, from `p` on, whose chat index `i` ranks
/// above (the length of `o` when there is none).
spec fn scan_position(chats: Seq<ChatSummary>, o: Seq<usize>, i: usize, p: nat) -> nat
    decreases o.len() - p,
{
    if p >= o.len() || ranks_above(chats[i as int], chats[o[p as int] as int]) {
        p
    } else {
        scan_position(chats, o, i, p + 1)
    }
}

proof fn lemma_scan_position(chats: Seq<ChatSummary>, o: Seq<usize>, i: usize, p: nat)
    requires
        p <= o.len(),
        forall|q: int| 0 <= q < p ==> !ranks_above(chats[i as int], chats[#[trigger] o[q] as int]),
    ensures
        p <= scan_position(chats, o, i, p) <= o.len(),
        forall|q: int|
            0 <= q < scan_position(chats, o, i, p) ==> !ranks_above(
                chats[i as int],
                chats[#[trigger] o[q] as int],
            ),
        scan_position(chats, o, i, p) < o.len() ==> ranks_above(
            chats[i as int],
            chats[o[scan_position(chats, o, i, p) as int] as int],
        ),
    decreases o.len() - p,
{
    if p < o.len() && !ranks_above(chats[i as int], chats[o[p as int] as int]) {
        lemma_scan_position(chats, o, i, p + 1);
    }
}

/// Whether `o` lists exactly the forwardable chats among the first `n`, in
/// listing order.
spec fn is_rank_prefix(chats: Seq<ChatSummary>, source: Seq<char>, o: Seq<usize>, n: nat) -> bool {
    &&& forall|k: int|
        0 <= k < o.len() ==> (#[trigger] o[k]) < n && forwardable(chats[o[k] as int], source)
    &&& forall|i: int| 0 <= i < n && forwardable(#[trigger] chats[i], source) ==> o.contains(i as usize)
    &&& listed_in_order(chats, o)
}

proof fn lemma_rank_prefix_exists(chats: Seq<ChatSummary>, source: Seq<char>, n: nat)
    requires
        n <= chats.len() <= usize::MAX,
    ensures
        exists|o: Seq<usize>| is_rank_prefix(chats, source, o, n),
    decreases n,
{
    if n == 0 {
        assert(is_rank_prefix(chats, source, seq![], 0));
    } else {
        let m = (n - 1) as nat;
        lemma_rank_prefix_exists(chats, source, m);
        let o = choose|o: Seq<usize>| is_rank_prefix(chats, source, o, m);
        let i = (n - 1) as usize;
        if forwardable(chats[i as int], source) {
            lemma_scan_position(chats, o, i, 0);
            let p = scan_position(chats, o, i, 0) as int;
            lemma_insert_in_order(chats, o, p, i);
            let w = o.insert(p, i);
            assert forall|j: int| 0 <= j < n && forwardable(#[trigger] chats[j], source) implies w.contains(
                j as usize,
            ) by {
                if j < n - 1 {
                    let k = choose|k: int| 0 <= k < o.len() && o[k] == j as usize;
                    if k < p {
                        assert(w[k] == j as usize);
                    } else {
                        assert(w[k + 1] == j as usize);
                    }
                } else {
                    assert(w[p] == i);
                }
            }
            assert forall|k: int| 0 <= k < w.len() implies (#[trigger] w[k]) < n && forwardable(
                chats[w[k] as int],
                source,
            ) by {
                if k < p {
                    assert(w[k] == o[k]);
                } else if k > p {
                    assert(w[k] == o[k - 1]);
                }
            }
            assert(is_rank_prefix(chats, source, w, n));
        } else {
            assert(is_rank_prefix(chats, source, o, n));
        }
    }
}

/// Some sequence lists the forwardable chats in listing order.
proof fn lemma_rank_order_exists(chats: Seq<ChatSummary>, source: Seq<char>)
    requires
        chats.len() <= usize::MAX,
    ensures
        exists|o: Seq<usize>| is_rank_order(chats, source, o),
{
    lemma_rank_prefix_exists(chats, source, chats.len());
    let o = choose|o: Seq<usize>| is_rank_prefix(chats, source, o, chats.len());
    assert(is_rank_order(chats, source, o));
}

/// Each chat row is a forwardable chat of the first `k` listed, and no two
/// chat rows are the same conversation.
proof fn lemma_chat_rows_distinct(
    chats: Seq<ChatSummary>,
    source: Seq<char>,
    o: Seq<usize>,
    q: Seq<char>,
    names_lower: Seq<Seq<char>>,
    displays_lower: Seq<Option<Seq<char>>>,
    k: nat,
)
    requires
        is_rank_order(chats, source, o),
        k <= o.len(),
    ensures
        ({
            let rows = chat_rows(chats, o, q, names_lower, displays_lower, k);
            &&& forall|x: int|
                0 <= x < rows.len() ==> exists|m: int|
                    0 <= m < k && (#[trigger] rows[x]).0 == chats[o[m] as int].id@
            &&& forall|x: int, y: int|
                0 <= x < y < rows.len() ==> (#[trigger] rows[x]).0 != (#[trigger] rows[y]).0
        }),
    decreases k,
{
    if k > 0 {
        lemma_chat_rows_distinct(chats, source, o, q, names_lower, displays_lower, (k - 1) as nat);
        let prev = chat_rows(chats, o, q, names_lower, displays_lower, (k - 1) as nat);
        let rows = chat_rows(chats, o, q, names_lower, displays_lower, k);
        if rows != prev {
            let id = chats[o[k - 1] as int].id@;
            assert(rows == prev.push(rows[rows.len() - 1]));
            assert(rows[rows.len() - 1].0 == id);
            assert forall|x: int| 0 <= x < rows.len() implies exists|m: int|
                0 <= m < k && (#[trigger] rows[x]).0 == chats[o[m] as int].id@ by {
                if x < prev.len() {
                    assert(rows[x] == prev[x]);
                    let m = choose|m: int| 0 <= m < k - 1 && prev[x].0 == chats[o[m] as int].id@;
                    assert(0 <= m < k && rows[x].0 == chats[o[m] as int].id@);
                } else {
                    assert(rows[x].0 == chats[o[k - 1] as int].id@);
                }
            }
            assert forall|x: int, y: int| 0 <= x < y < rows.len() implies (#[trigger] rows[x]).0
                != (#[trigger] rows[y]).0 by {
                if y < prev.len() {
                    assert(rows[x] == prev[x] && rows[y] == prev[y]);
                } else {
                    assert(rows[x] == prev[x]);
                    let m = choose|m: int| 0 <= m < k - 1 && prev[x].0 == chats[o[m] as int].id@;
                    assert(first_with_id(chats, o, k - 1));
                    assert(chats[o[m] as int].id@ != id);
                }
            }
        }
    }
}

/// Each contact row is a contact of the first `k` that is neither the
/// source nor a forwardable chat, and no two contact rows are the same
/// conversation.
proof fn lemma_contact_rows_distinct(
    chats: Seq<ChatSummary>,
    contacts: Seq<ContactSummary>,
    source: Seq<char>,
    q: Seq<char>,
    contact_names_lower: Seq<Seq<char>>,
    k: nat,
)
    requires
        k <= contacts.len(),
    ensures
        ({
            let rows = contact_rows(chats, contacts, source, q, contact_names_lower, k);
            &&& forall|x: int|
                0 <= x < rows.len() ==> exists|m: int|
                    0 <= m < k && (#[trigger] rows[x]).0 == contacts[m].jid@ && contact_is_new(
                        chats,
                        contacts,
                        source,
                        m,
                    )
            &&& forall|x: int, y: int|
                0 <= x < y < rows.len() ==> (#[trigger] rows[x]).0 != (#[trigger] rows[y]).0
        }),
    decreases k,
{
    if k > 0 {
        lemma_contact_rows_distinct(chats, contacts, source, q, contact_names_lower, (k - 1) as nat);
        let prev = contact_rows(chats, contacts, source, q, contact_names_lower, (k - 1) as nat);
        let rows = contact_rows(chats, contacts, source, q, contact_names_lower, k);
        if rows != prev {
            let jid = contacts[k - 1].jid@;
            assert(rows == prev.push(rows[rows.len() - 1]));
            assert(rows[rows.len() - 1].0 == jid);
            assert forall|x: int| 0 <= x < rows.len() implies exists|m: int|
                0 <= m < k && (#[trigger] rows[x]).0 == contacts[m].jid@ && contact_is_new(
                    chats,
                    contacts,
                    source,
                    m,
                ) by {
                if x < prev.len() {
                    assert(rows[x] == prev[x]);
                } else {
                    assert(rows[x].0 == contacts[k - 1].jid@);
                }
            }
            assert forall|x: int, y: int| 0 <= x < y < rows.len() implies (#[trigger] rows[x]).0
                != (#[trigger] rows[y]).0 by {
                if y < prev.len() {
                    assert(rows[x] == prev[x] && rows[y] == prev[y]);
                } else {
                    assert(rows[x] == prev[x]);
                    let m = choose|m: int|
                        0 <= m < k - 1 && prev[x].0 == contacts[m].jid@ && contact_is_new(
                            chats,
                            contacts,
                            source,
                            m,
                        );
                    assert(contact_is_new(chats, contacts, source, k - 1));
                    assert(contacts[m].jid@ != jid);
                }
            }
        }
    }
}

/// The picker never offers the conversation the message comes from, and
/// never lists one conversation twice.
pub proof fn law_forward_rows_are_other_distinct_conversations(
    chats: Seq<ChatSummary>,
    contacts: Seq<ContactSummary>,
    source: Seq<char>,
    q: Seq<char>,
    names_lower: Seq<Seq<char>>,
    displays_lower: Seq<Option<Seq<char>>>,
    contact_names_lower: Seq<Seq<char>>,
)
    requires
        chats.len() <= usize::MAX,
    ensures
        ({
            let rows = picked_rows(
                chats,
                contacts,
                source,
                q,
                names_lower,
                displays_lower,
                contact_names_lower,
            );
            &&& forall|x: int| 0 <= x < rows.len() ==> (#[trigger] rows[x]).0 != source
            &&& forall|x: int, y: int|
                0 <= x < y < rows.len() ==> (#[trigger] rows[x]).0 != (#[trigger] rows[y]).0
        }),
{
    let o = rank_order(chats, source);
    assert(exists|w: Seq<usize>| is_rank_order(chats, source, w)) by {
        lemma_rank_order_exists(chats, source);
    }
    assert(is_rank_order(chats, source, o));
    lemma_chat_rows_distinct(chats, source, o, q, names_lower, displays_lower, o.len());
    lemma_contact_rows_distinct(chats, contacts, source, q, contact_names_lower, contacts.len());
    let a = chat_rows(chats, o, q, names_lower, displays_lower, o.len());
    let b = if q.len() > 0 {
        contact_rows(chats, contacts, source, q, contact_names_lower, contacts.len())
    } else {
        seq![]
    };
    let rows = a + b;
    assert forall|x: int| 0 <= x < rows.len() implies (#[trigger] rows[x]).0 != source by {
        if x < a.len() {
            assert(rows[x] == a[x]);
            let m = choose|m: int| 0 <= m < o.len() && a[x].0 == chats[o[m] as int].id@;
            assert(forwardable(chats[o[m] as int], source));
        } else {
            assert(rows[x] == b[x - a.len()]);
            let m = choose|m: int|
                0 <= m < contacts.len() && b[x - a.len()].0 == contacts[m].jid@ && contact_is_new(
                    chats,
                    contacts,
                    source,
                    m,
                );
        }
    }
    assert forall|x: int, y: int| 0 <= x < y < rows.len() implies (#[trigger] rows[x]).0
        != (#[trigger] rows[y]).0 by {
        if y < a.len() {
            assert(rows[x] == a[x] && rows[y] == a[y]);
        } else if x >= a.len() {
            assert(rows[x] == b[x - a.len()] && rows[y] == b[y - a.len()]);
        } else {
            assert(rows[x] == a[x] && rows[y] == b[y - a.len()]);
            let m = choose|m: int| 0 <= m < o.len() && a[x].0 == chats[o[m] as int].id@;
            let i = o[m] as int;
            assert(forwardable(chats[i], source));
            let n = choose|n: int|
                0 <= n < contacts.len() && b[y - a.len()].0 == contacts[n].jid@ && contact_is_new(
                    chats,
                    contacts,
                    source,
                    n,
                );
            assert(chats[i].id@ != contacts[n].jid@);
        }
    }
}

/// The forward list's single notice, as title and detail: contacts still
/// loading for a search with nothing found yet; nothing to forward to at
/// all; or no match (the contacts' error when there is one). `None` when
/// candidates are listed. `query_blank` tells whether the trimmed search is
/// empty; `nothing_unfiltered` whether the listed chats alone offer no
/// destination.
pub fn forward_list_notice(
    contacts_loading: bool,
    query_blank: bool,
    no_candidates: bool,
    nothing_unfiltered: bool,
    error: Option<&str>,
) -> (r: Option<(&'static str, String)>)
    ensures
        notice_view(r) == (if contacts_loading && !query_blank && no_candidates {
            Some(("Loading conversations…"@, "Searching the local address book"@))
        } else if query_blank && !contacts_loading && nothing_unfiltered {
            Some(("No conversations to forward to"@, "Open or search another chat first."@))
        } else if no_candidates {
            match error {
                Some(e) => Some(("Contacts unavailable"@, e@)),
                None => Some(
                    ("No matching conversations"@, "Try another name from your chats or address book."@),
                ),
            }
        } else {
            None
        }),
{
    if contacts_loading && !query_blank && no_candidates {
        Some(("Loading conversations…", String::from_str("Searching the local address book")))
    } else if query_blank && !contacts_loading && nothing_unfiltered {
        Some(("No conversations to forward to", String::from_str("Open or search another chat first.")))
    } else if no_candidates {
        match error {
            Some(e) => Some(("Contacts unavailable", e.to_string())),
            None => Some(("No matching conversations", String::from_str("Try another name from your chats or address book."))),
        }
    } else {
        None
    }
}

/// The status line under the forward list and whether Forward is offered:
/// forwarding needs a destination, a connection, and no forward on its way.
pub fn forward_status(error: Option<&str>, forwarding: bool, connected: bool, selected: usize) -> (r: (
    String,
    bool,
))
    ensures
        r.1 == (selected > 0 && connected && !forwarding),
        r.0@ == match error {
            Some(e) => e@,
            None => if forwarding {
                "Forwarding…"@
            } else if !connected {
                "Connect to forward this message"@
            } else if selected == 0 {
                "Choose conversations, then Forward. Closing sends nothing."@
            } else if selected == 1 {
                "Forward to 1 conversation"@
            } else {
                "Forward to "@ + text::decimal(selected as nat) + " conversations"@
            },
        },
{
    let status = match error {
        Some(e) => e.to_string(),
        None => if forwarding {
            String::from_str("Forwarding…")
        } else if !connected {
            String::from_str("Connect to forward this message")
        } else if selected == 0 {
            String::from_str("Choose conversations, then Forward. Closing sends nothing.")
        } else if selected == 1 {
            String::from_str("Forward to 1 conversation")
        } else {
            let mut t = String::from_str("Forward to ");
            text::push_decimal(&mut t, selected as u128);
            text::push_str(&mut t, " conversations");
            t
        },
    };
    (status, selected > 0 && connected && !forwarding)
}

} // verus!
