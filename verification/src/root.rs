//! Decisions of the main window that do not depend on rendering: timeline
//! diffing, optimistic reactions, notification de-duplication, typing
//! labels, edit bookkeeping and group-management guards.

use vstd::prelude::*;
use crate::model::{views, ChatKind, ChatSummary, SameView};
use crate::text;

verus! {

/// Longest common prefix and suffix of two timelines, reported as the range
/// of `before` to replace and how many rows of `after` go in its place.
///
/// Replacing `before[start..end]` by `after[start..start + inserted]`
/// reproduces `after` exactly (row identities compared by their views);
/// the unchanged head and tail are as long as possible.
pub fn timeline_splice<T: SameView>(before: &[T], after: &[T]) -> (r: (
    core::ops::Range<usize>,
    usize,
))
    ensures
        ({
            let b = views(before@);
            let a = views(after@);
            &&& r.0.start <= r.0.end <= b.len()
            &&& r.0.start + r.1 <= a.len()
            &&& b.take(r.0.start as int) == a.take(r.0.start as int)
            &&& b.skip(r.0.end as int) == a.skip(r.0.start + r.1)
            &&& b.take(r.0.start as int) + a.subrange(r.0.start as int, r.0.start + r.1) + b.skip(
                r.0.end as int,
            ) == a
            &&& r.0.start == b.len() || r.0.start == a.len() || b[r.0.start as int]
                != a[r.0.start as int]
            &&& r.0.end == r.0.start || r.0.start + r.1 == r.0.start || b[r.0.end - 1] != a[r.0.start
                + r.1 - 1]
        }),
{
    let ghost bv = views(before@);
    let ghost av = views(after@);
    let bl = before.len();
    let al = after.len();
    let mut p: usize = 0;
    while p < bl && p < al && before[p].same_view(&after[p])
        invariant
            p <= bl,
            p <= al,
            bl == before@.len(),
            al == after@.len(),
            bv == views(before@),
            av == views(after@),
            forall|j: int| 0 <= j < p ==> bv[j] == av[j],
        decreases bl - p,
    {
        assert(bv[p as int] == before@[p as int]@ && av[p as int] == after@[p as int]@);
        p = p + 1;
    }
    if p < bl && p < al {
        assert(bv[p as int] == before@[p as int]@ && av[p as int] == after@[p as int]@);
    }
    let limit = if bl < al {
        bl - p
    } else {
        al - p
    };
    let mut s: usize = 0;
    while s < limit && before[bl - 1 - s].same_view(&after[al - 1 - s])
        invariant
            p <= bl,
            p <= al,
            bl == before@.len(),
            al == after@.len(),
            bv == views(before@),
            av == views(after@),
            limit == (if bl < al { bl - p } else { al - p }),
            s <= limit,
            forall|j: int| bl - s <= j < bl ==> #[trigger] bv[j] == av[j + al - bl],
        decreases limit - s,
    {
        assert(bv[bl - 1 - s] == before@[bl - 1 - s]@ && av[al - 1 - s] == after@[al - 1 - s]@);
        assert(bv[bl - 1 - s] == av[(bl - 1 - s) + al - bl]);
        s = s + 1;
    }
    if s < limit {
        assert(bv[bl - 1 - s] == before@[bl - 1 - s]@ && av[al - 1 - s] == after@[al - 1 - s]@);
    }
    let end = bl - s;
    let inserted = al - (p + s);
    proof {
        assert(bv.take(p as int) == av.take(p as int));
        assert forall|j: int| 0 <= j < s implies bv.skip(end as int)[j] == av.skip(
            p + inserted,
        )[j] by {
            assert(bv.skip(end as int)[j] == bv[end + j]);
            assert(av.skip(p + inserted)[j] == av[(end + j) + al - bl]);
        }
        assert(bv.skip(end as int) == av.skip(p + inserted));
        assert(av.take(p as int) + av.subrange(p as int, p + inserted) + av.skip(p + inserted)
            == av);
        if s > 0 && inserted > 0 && end > p {
            assert(bv[end - 1] != av[p + inserted - 1]);
        }
    }
    (p..end, inserted)
}

/// How the message list's scroll state follows a new timeline.
pub enum ListSync {
    /// The list was out of step with the old timeline: start over with
    /// `len` rows.
    Reset { len: usize },
    /// Same rows: only measure them again.
    Remeasure,
    /// Replace the rows in `range` by `inserted` new ones, then scroll to
    /// `scroll_to`, where the row that was at the top now stands (when it is
    /// still listed).
    Splice { range: core::ops::Range<usize>, inserted: usize, scroll_to: Option<usize> },
}

/// Index of the first element of `s` equal to `x`.
pub open spec fn first_position<T>(s: Seq<T>, x: T) -> Option<nat>
    decreases s.len(),
{
    if s.len() == 0 {
        None
    } else {
        match first_position(s.drop_last(), x) {
            Some(i) => Some(i),
            None => if s.last() == x {
                Some((s.len() - 1) as nat)
            } else {
                None
            },
        }
    }
}

proof fn lemma_first_position_prefix<T>(s: Seq<T>, x: T, n: nat)
    requires
        n <= s.len(),
        first_position(s.take(n as int), x) is Some,
    ensures
        first_position(s, x) == first_position(s.take(n as int), x),
    decreases s.len(),
{
    if n < s.len() {
        assert(s.drop_last().take(n as int) == s.take(n as int));
        lemma_first_position_prefix(s.drop_last(), x, n);
    } else {
        assert(s.take(n as int) == s);
    }
}

/// Where the row shown at `top_ix` of the old timeline stands in `after`.
fn anchor_position<T: SameView>(before: &[T], after: &[T], top_ix: usize) -> (r: Option<usize>)
    ensures
        match r {
            Some(j) => top_ix < before@.len() && first_position(
                views(after@),
                views(before@)[top_ix as int],
            ) == Some(j as nat),
            None => top_ix >= before@.len() || first_position(
                views(after@),
                views(before@)[top_ix as int],
            ) is None,
        },
{
    if top_ix >= before.len() {
        return None;
    }
    let anchor = &before[top_ix];
    let ghost av = views(after@);
    let ghost x = views(before@)[top_ix as int];
    assert(x == before@[top_ix as int]@);
    let mut j: usize = 0;
    while j < after.len()
        invariant
            j <= after@.len(),
            anchor@ == x,
            av == views(after@),
            top_ix < before@.len(),
            x == views(before@)[top_ix as int],
            first_position(av.take(j as int), x) is None,
        decreases after@.len() - j,
    {
        assert(av.take(j + 1).drop_last() == av.take(j as int));
        assert(av.take(j + 1).last() == after@[j as int]@);
        if after[j].same_view(anchor) {
            proof {
                lemma_first_position_prefix(av, x, (j + 1) as nat);
            }
            return Some(j);
        }
        j = j + 1;
    }
    assert(av.take(av.len() as int) == av);
    None
}

/// Whether two timelines hold the same rows.
fn same_rows<T: SameView>(a: &[T], b: &[T]) -> (r: bool)
    ensures
        r == (views(a@) == views(b@)),
{
    if a.len() != b.len() {
        assert(views(a@).len() != views(b@).len());
        return false;
    }
    let mut i: usize = 0;
    while i < a.len()
        invariant
            i <= a@.len() == b@.len(),
            forall|j: int| 0 <= j < i ==> views(a@)[j] == views(b@)[j],
        decreases a@.len() - i,
    {
        if !a[i].same_view(&b[i]) {
            assert(views(a@)[i as int] != views(b@)[i as int]);
            return false;
        }
        assert(views(a@)[i as int] == views(b@)[i as int]);
        i = i + 1;
    }
    assert(views(a@) =~= views(b@));
    true
}

/// How the message list follows a reload: `before` and `after` are the
/// row identities of the old and new timeline (compared by their views),
/// `item_count` how many rows the list holds, `top_ix` the row at the top
/// of the view. The list starts over when it was out of step, is only
/// measured again when the rows are the same, and otherwise replaces just
/// the changed rows and keeps the top row under the reader.
pub fn plan_list_sync<T: SameView>(before: &[T], after: &[T], item_count: usize, top_ix: usize) -> (r:
    ListSync)
    ensures
        item_count != before@.len() ==> (r matches ListSync::Reset { len } && len == after@.len()),
        item_count == before@.len() && views(before@) == views(after@) ==> r is Remeasure,
        item_count == before@.len() && views(before@) != views(after@) ==> match r {
            ListSync::Splice { range, inserted, scroll_to } => {
                let b = views(before@);
                let a = views(after@);
                &&& range.start <= range.end <= b.len()
                &&& range.start + inserted <= a.len()
                &&& b.take(range.start as int) + a.subrange(range.start as int, range.start + inserted)
                    + b.skip(range.end as int) == a
                &&& (range.start == b.len() || range.start == a.len() || b[range.start as int]
                    != a[range.start as int])
                &&& (range.end == range.start || range.start + inserted == range.start || b[range.end
                    - 1] != a[range.start + inserted - 1])
                &&& match scroll_to {
                    Some(j) => top_ix < b.len() && first_position(a, b[top_ix as int]) == Some(
                        j as nat,
                    ),
                    None => top_ix >= b.len() || first_position(a, b[top_ix as int]) is None,
                }
            },
            _ => false,
        },
{
    if item_count != before.len() {
        return ListSync::Reset { len: after.len() };
    }
    if same_rows(before, after) {
        return ListSync::Remeasure;
    }
    let scroll_to = anchor_position(before, after, top_ix);
    let (range, inserted) = timeline_splice(before, after);
    ListSync::Splice { range, inserted, scroll_to }
}

/// Where a reload of the open chat puts the rows.
#[derive(PartialEq, Eq, Structural)]
pub enum ReloadPlacement {
    /// Show the newest rows and scroll to the end.
    AnchorNewest,
    /// Fold newer rows in where the reader is.
    MergeInPlace,
}

/// What the "new messages" control does.
#[derive(PartialEq, Eq, Structural)]
pub enum JumpStep {
    /// Everything is loaded: just scroll to the end.
    ScrollToEnd,
    /// Reload at the newest end.
    Reload,
}

/// The reader's place relative to the newest messages of the open chat.
pub struct ReadingPosition {
    /// Newer messages arrived that the reader has not scrolled to.
    pub pending_new: usize,
    /// The view is at (or near) the newest row.
    pub near_bottom: bool,
}

impl ReadingPosition {
    /// A reload arrived that brought `unseen` rows the reader has not seen:
    /// at the bottom (or with nothing loaded) it shows the newest rows and
    /// clears the count; in the middle of the history it merges them in and
    /// keeps the larger count.
    pub fn on_reload(&mut self, rows_empty: bool, unseen: usize) -> (r: ReloadPlacement)
        ensures
            final(self).near_bottom == old(self).near_bottom,
            (old(self).near_bottom || rows_empty) ==> r == ReloadPlacement::AnchorNewest
                && final(self).pending_new == 0,
            !(old(self).near_bottom || rows_empty) ==> r == ReloadPlacement::MergeInPlace
                && final(self).pending_new == (if unseen > old(self).pending_new {
                unseen
            } else {
                old(self).pending_new
            }),
    {
        if self.near_bottom || rows_empty {
            self.pending_new = 0;
            ReloadPlacement::AnchorNewest
        } else {
            if unseen > self.pending_new {
                self.pending_new = unseen;
            }
            ReloadPlacement::MergeInPlace
        }
    }

    /// The reader asks for the newest messages: with nothing newer pending
    /// or unloaded the view just scrolls; otherwise the count clears, the
    /// view counts as at the bottom, and the chat reloads.
    pub fn jump_to_newest(&mut self, has_more_newer: bool) -> (r: JumpStep)
        ensures
            (old(self).pending_new == 0 && !has_more_newer) ==> r == JumpStep::ScrollToEnd
                && final(self).pending_new == old(self).pending_new && final(self).near_bottom
                == old(self).near_bottom,
            !(old(self).pending_new == 0 && !has_more_newer) ==> r == JumpStep::Reload
                && final(self).pending_new == 0 && final(self).near_bottom,
    {
        if self.pending_new == 0 && !has_more_newer {
            return JumpStep::ScrollToEnd;
        }
        self.pending_new = 0;
        self.near_bottom = true;
        JumpStep::Reload
    }
}

/// Where the right panel stands next to the conversation.
#[derive(PartialEq, Eq, Structural)]
pub enum PanelPlacement {
    Hidden,
    /// Over the conversation, on a narrow window.
    Drawer,
    /// Beside the conversation.
    Docked,
}

/// What the centre of the window shows.
#[derive(PartialEq, Eq, Structural)]
pub enum CenterView {
    /// Storage is not open yet.
    OpeningStorage,
    Pairing,
    /// The conversation, the right panel placed, and whether a message
    /// overlay lies on top.
    Conversation { panel: PanelPlacement, overlay: bool },
}

/// The centre of the window: storage opening first, then pairing while it
/// runs or is needed, else the conversation with the right panel as a
/// drawer on a narrow window or beside it otherwise.
pub fn center_view(
    store_ready: bool,
    pairing_active: bool,
    needs_pairing: bool,
    panel_open: bool,
    narrow: bool,
    overlay_open: bool,
) -> (r: CenterView)
    ensures
        r == (if !store_ready {
            CenterView::OpeningStorage
        } else if pairing_active || needs_pairing {
            CenterView::Pairing
        } else {
            CenterView::Conversation {
                panel: if !panel_open {
                    PanelPlacement::Hidden
                } else if narrow {
                    PanelPlacement::Drawer
                } else {
                    PanelPlacement::Docked
                },
                overlay: overlay_open,
            }
        }),
{
    if !store_ready {
        return CenterView::OpeningStorage;
    }
    if pairing_active || needs_pairing {
        return CenterView::Pairing;
    }
    let panel = if !panel_open {
        PanelPlacement::Hidden
    } else if narrow {
        PanelPlacement::Drawer
    } else {
        PanelPlacement::Docked
    };
    CenterView::Conversation { panel, overlay: overlay_open }
}

/// One reaction chip on a message: an emoji, how many people chose it, and
/// whether the current user is among them.
#[derive(Debug)]
pub struct ReactionSummary {
    pub emoji: String,
    pub count: u32,
    pub reacted_by_me: bool,
}

/// Mathematical view of a reaction chip.
pub struct ReactionView {
    pub emoji: Seq<char>,
    pub count: nat,
    pub by_me: bool,
}

impl View for ReactionSummary {
    type V = ReactionView;

    open spec fn view(&self) -> ReactionView {
        ReactionView { emoji: self.emoji@, count: self.count as nat, by_me: self.reacted_by_me }
    }
}

/// Views of a list of reaction chips.
pub open spec fn reaction_views(s: Seq<ReactionSummary>) -> Seq<ReactionView> {
    s.map_values(|r: ReactionSummary| r@)
}

/// Our previous choice withdrawn from one chip.
pub open spec fn withdraw_own(r: ReactionView) -> ReactionView {
    if r.by_me {
        ReactionView {
            emoji: r.emoji,
            count: if r.count == 0 {
                0
            } else {
                (r.count - 1) as nat
            },
            by_me: false,
        }
    } else {
        r
    }
}

/// All chips with our choice withdrawn, chips left empty dropped.
pub open spec fn withdrawn_all(s: Seq<ReactionView>) -> Seq<ReactionView>
    decreases s.len(),
{
    if s.len() == 0 {
        seq![]
    } else {
        let p = withdrawn_all(s.drop_last());
        let w = withdraw_own(s.last());
        if w.count > 0 {
            p.push(w)
        } else {
            p
        }
    }
}

/// Index of the first chip showing `e`, if any.
pub open spec fn first_chip(s: Seq<ReactionView>, e: Seq<char>) -> Option<nat>
    decreases s.len(),
{
    if s.len() == 0 {
        None
    } else {
        match first_chip(s.drop_last(), e) {
            Some(i) => Some(i),
            None => if s.last().emoji == e {
                Some((s.len() - 1) as nat)
            } else {
                None
            },
        }
    }
}

/// The chips after we react with `e` (an empty `e` withdraws our reaction):
/// our old choice is withdrawn, then `e` gains one and is marked ours, or a
/// new chip for `e` is appended.
pub open spec fn own_reaction_applied(s: Seq<ReactionView>, e: Seq<char>) -> Seq<ReactionView> {
    let c = withdrawn_all(s);
    if e.len() == 0 {
        c
    } else {
        match first_chip(c, e) {
            Some(i) => c.update(
                i as int,
                ReactionView {
                    emoji: c[i as int].emoji,
                    count: if c[i as int].count >= u32::MAX {
                        u32::MAX as nat
                    } else {
                        c[i as int].count + 1
                    },
                    by_me: true,
                },
            ),
            None => c.push(ReactionView { emoji: e, count: 1, by_me: true }),
        }
    }
}

proof fn lemma_withdrawn_all(s: Seq<ReactionView>)
    ensures
        forall|j: int|
            0 <= j < withdrawn_all(s).len() ==> !(#[trigger] withdrawn_all(s)[j]).by_me
                && withdrawn_all(s)[j].count > 0,
        withdrawn_all(s).len() <= s.len(),
    decreases s.len(),
{
    if s.len() > 0 {
        lemma_withdrawn_all(s.drop_last());
        let p = withdrawn_all(s.drop_last());
        assert forall|j: int| 0 <= j < withdrawn_all(s).len() implies !(#[trigger] withdrawn_all(
            s,
        )[j]).by_me && withdrawn_all(s)[j].count > 0 by {
            if j < p.len() {
                assert(withdrawn_all(s)[j] == p[j]);
            }
        }
    }
}

proof fn lemma_first_chip(s: Seq<ReactionView>, e: Seq<char>)
    ensures
        first_chip(s, e) matches Some(i) ==> i < s.len() && s[i as int].emoji == e,
        first_chip(s, e) is None ==> forall|j: int| 0 <= j < s.len() ==> (#[trigger] s[j]).emoji
            != e,
    decreases s.len(),
{
    if s.len() > 0 {
        lemma_first_chip(s.drop_last(), e);
        if first_chip(s, e) is None {
            assert forall|j: int| 0 <= j < s.len() implies (#[trigger] s[j]).emoji != e by {
                if j < s.len() - 1 {
                    assert(s[j] == s.drop_last()[j]);
                }
            }
        }
    }
}

/// After reacting with a non-empty emoji exactly one chip is ours and it
/// shows that emoji; after withdrawing (empty emoji) no chip is ours.
pub proof fn law_only_our_choice_is_marked(s: Seq<ReactionView>, e: Seq<char>)
    ensures
        forall|j: int|
            0 <= j < own_reaction_applied(s, e).len() && (#[trigger] own_reaction_applied(
                s,
                e,
            )[j]).by_me ==> e.len() > 0 && own_reaction_applied(s, e)[j].emoji == e,
        forall|j: int, k: int|
            0 <= j < own_reaction_applied(s, e).len() && 0 <= k < own_reaction_applied(s, e).len()
                && (#[trigger] own_reaction_applied(s, e)[j]).by_me && (#[trigger] own_reaction_applied(
                s,
                e,
            )[k]).by_me ==> j == k,
        e.len() > 0 ==> exists|j: int|
            0 <= j < own_reaction_applied(s, e).len() && (#[trigger] own_reaction_applied(
                s,
                e,
            )[j]).by_me,
{
    lemma_withdrawn_all(s);
    let c = withdrawn_all(s);
    lemma_first_chip(c, e);
    let r = own_reaction_applied(s, e);
    if e.len() > 0 {
        match first_chip(c, e) {
            Some(i) => {
                assert(r[i as int].by_me);
            },
            None => {
                assert(r[c.len() as int].by_me);
            },
        }
    }
}

/// The chips shown right after the user reacts with `emoji` (or withdraws
/// with an empty one), before the server confirms.
pub fn optimistic_own_reaction(current: &[ReactionSummary], emoji: &str) -> (r: Vec<
    ReactionSummary,
>)
    ensures
        reaction_views(r@) == own_reaction_applied(reaction_views(current@), emoji@),
{
    let ghost cv = reaction_views(current@);
    let mut next: Vec<ReactionSummary> = Vec::new();
    for i in 0..current.len()
        invariant
            cv == reaction_views(current@),
            reaction_views(next@) == withdrawn_all(cv.take(i as int)),
    {
        let reaction = &current[i];
        let count = if reaction.reacted_by_me {
            reaction.count.saturating_sub(1)
        } else {
            reaction.count
        };
        assert(cv.take(i + 1).drop_last() == cv.take(i as int));
        if count > 0 {
            let chip = ReactionSummary {
                emoji: reaction.emoji.clone(),
                count,
                reacted_by_me: false,
            };
            next.push(chip);
            assert(reaction_views(next@) == withdrawn_all(cv.take(i as int)).push(chip@));
        }
    }
    assert(cv.take(cv.len() as int) == cv);
    let ghost cleared = reaction_views(next@);
    let e = text::chars_of(emoji);
    if e.len() == 0 {
        return next;
    }
    let target = emoji.to_owned();
    let mut k: usize = 0;
    while k < next.len()
        invariant
            k <= next@.len(),
            cleared == reaction_views(next@),
            target@ == emoji@,
            forall|j: int| 0 <= j < k ==> (#[trigger] next@[j]).emoji@ != emoji@,
        ensures
            k <= next@.len(),
            forall|j: int| 0 <= j < k ==> (#[trigger] next@[j]).emoji@ != emoji@,
            k < next@.len() ==> next@[k as int].emoji@ == emoji@,
        decreases next@.len() - k,
    {
        if next[k].emoji == target {
            break;
        }
        k = k + 1;
    }
    proof {
        lemma_first_chip(cleared, emoji@);
        if k < next@.len() {
            assert(cleared[k as int].emoji == emoji@);
        }
        lemma_first_chip_is_first(cleared, emoji@, k as int);
    }
    if k < next.len() {
        let old_count = next[k].count;
        let chip = ReactionSummary {
            emoji: next[k].emoji.clone(),
            count: old_count.saturating_add(1),
            reacted_by_me: true,
        };
        next.set(k, chip);
        assert(reaction_views(next@) == cleared.update(k as int, chip@));
    } else {
        let chip = ReactionSummary { emoji: target, count: 1, reacted_by_me: true };
        next.push(chip);
        assert(reaction_views(next@) == cleared.push(chip@));
    }
    next
}

proof fn lemma_first_chip_is_first(s: Seq<ReactionView>, e: Seq<char>, k: int)
    requires
        0 <= k <= s.len(),
        forall|j: int| 0 <= j < k ==> (#[trigger] s[j]).emoji != e,
        k == s.len() || s[k].emoji == e,
    ensures
        k == s.len() ==> first_chip(s, e) is None,
        k < s.len() ==> first_chip(s, e) == Some(k as nat),
    decreases s.len(),
{
    if s.len() > 0 {
        let d = s.drop_last();
        if k < s.len() - 1 || k == s.len() {
            let kd = if k == s.len() {
                d.len() as int
            } else {
                k
            };
            assert forall|j: int| 0 <= j < kd implies (#[trigger] d[j]).emoji != e by {
                assert(d[j] == s[j]);
            }
            if k < s.len() - 1 {
                assert(d[k] == s[k]);
            }
            lemma_first_chip_is_first(d, e, kd);
        } else {
            assert forall|j: int| 0 <= j < d.len() implies (#[trigger] d[j]).emoji != e by {
                assert(d[j] == s[j]);
            }
            lemma_first_chip_is_first(d, e, d.len() as int);
        }
    }
}


/// What a remote participant is doing in the composer.
#[derive(Clone, Copy, Debug, PartialEq, Eq, Structural)]
pub enum TypingState {
    Composing,
    RecordingAudio,
    Paused,
}

/// Incoming typing indicator of one chat.
#[derive(Debug)]
pub struct TypingDisplay {
    pub state: TypingState,
    pub participant: Option<String>,
    pub generation: u64,
}

/// The verb phrase for a typing state.
pub open spec fn typing_action(state: TypingState) -> Seq<char> {
    match state {
        TypingState::Composing => "typing…"@,
        TypingState::RecordingAudio => "recording audio…"@,
        TypingState::Paused => seq![],
    }
}

/// The typing label: empty when paused; in groups the participant's user
/// part (before `@`) is named when there is one.
pub open spec fn typing_label(state: TypingState, participant: Option<Seq<char>>, group: bool) -> Seq<char> {
    if state == TypingState::Paused {
        seq![]
    } else if group && participant is Some && text::before_first(participant->0, '@').len() > 0 {
        text::before_first(participant->0, '@') + " is "@ + typing_action(state)
    } else {
        typing_action(state)
    }
}

impl TypingDisplay {
    /// The typing label of the chat header and chat row.
    pub fn label(&self, group: bool) -> (r: String)
        ensures
            r@ == typing_label(
                self.state,
                match self.participant {
                    Some(p) => Some(p@),
                    None => None,
                },
                group,
            ),
    {
        let action = match self.state {
            TypingState::Composing => "typing…",
            TypingState::RecordingAudio => "recording audio…",
            TypingState::Paused => {
                return String::new();
            },
        };
        let mut out = String::new();
        if group {
            if let Some(participant) = &self.participant {
                let v = text::chars_of(participant.as_str());
                let user = text::prefix_before(v.as_slice(), '@');
                if user.len() > 0 {
                    out = text::string_from_chars(user.as_slice());
                    text::push_str(&mut out, " is ");
                }
            }
        }
        text::push_str(&mut out, action);
        out
    }
}

/// Who is typing, as the label says it: in a group, a participant
/// `user@server` (with a non-empty `user`) who is typing or recording is
/// named, `user is typing…` or `user is recording audio…`; outside a group
/// only the activity shows; and a paused participant shows nothing at all.
pub proof fn law_typing_label_names_group_participants(
    state: TypingState,
    user: Seq<char>,
    server: Seq<char>,
    participant: Option<Seq<char>>,
)
    requires
        user.len() > 0,
        forall|j: int| 0 <= j < user.len() ==> user[j] != '@',
    ensures
        state == TypingState::Composing ==> typing_label(state, Some(user + seq!['@'] + server), true)
            == user + " is typing…"@,
        state == TypingState::RecordingAudio ==> typing_label(
            state,
            Some(user + seq!['@'] + server),
            true,
        ) == user + " is recording audio…"@,
        state == TypingState::Composing ==> typing_label(state, participant, false) == "typing…"@,
        state == TypingState::RecordingAudio ==> typing_label(state, participant, false)
            == "recording audio…"@,
        typing_label(TypingState::Paused, participant, true).len() == 0,
        typing_label(TypingState::Paused, participant, false).len() == 0,
{
    let p = user + seq!['@'] + server;
    assert forall|j: int| 0 <= j < user.len() implies #[trigger] p[j] != '@' by {
        assert(p[j] == user[j]);
    }
    text::lemma_before_first(p, '@', user.len() as int);
    assert(p.take(user.len() as int) =~= user);
    reveal_strlit(" is ");
    reveal_strlit("typing…");
    reveal_strlit(" is typing…");
    reveal_strlit("recording audio…");
    reveal_strlit(" is recording audio…");
    assert(user + " is "@ + "typing…"@ =~= user + " is typing…"@);
    assert(user + " is "@ + "recording audio…"@ =~= user + " is recording audio…"@);
}

/// Milliseconds after which a still-typing user re-announces composing.
pub const TYPING_REFRESH_AFTER_MS: u64 = 4000;

/// Whether an outbound composing update is due: none was sent yet, or the
/// last one is at least four seconds old (a clock that went backwards counts
/// as no time passed).
pub fn typing_refresh_due(last_sent_ms: Option<u64>, now_ms: u64) -> (r: bool)
    ensures
        r == match last_sent_ms {
            None => true,
            Some(last) => now_ms >= last && now_ms - last >= TYPING_REFRESH_AFTER_MS,
        },
{
    match last_sent_ms {
        None => true,
        Some(last) => now_ms.saturating_sub(last) >= TYPING_REFRESH_AFTER_MS,
    }
}

/// A failed send restores the composer only when the message never became
/// durable, carried text alone, and the user has not typed anything since.
pub fn should_restore_composer(accepted: bool, text_only: bool, current: &str) -> (r: bool)
    ensures
        r == (!accepted && text_only && text::trimmed(current@).len() == 0),
{
    !accepted && text_only && text::is_blank(current)
}

/// The composer draft of one chat.
#[derive(Debug)]
pub struct Draft {
    pub body: String,
    pub reply_to: Option<String>,
    pub edit_target: Option<String>,
}

impl Default for Draft {
    fn default() -> (d: Draft)
        ensures
            d.body@ == Seq::<char>::empty(),
            d.reply_to is None,
            d.edit_target is None,
    {
        Draft { body: String::new(), reply_to: None, edit_target: None }
    }
}

/// Whether `o` is present and holds the text `t`.
pub open spec fn holds_text(o: Option<String>, t: Seq<char>) -> bool {
    match o {
        Some(v) => v@ == t,
        None => false,
    }
}

fn option_holds(o: &Option<String>, t: &str) -> (r: bool)
    ensures
        r == holds_text(*o, t@),
{
    match o {
        Some(v) => text::same_text(v.as_str(), t),
        None => false,
    }
}

/// Whether a stored draft is still exactly the edit that was submitted:
/// same target message, and the trimmed body equals the submitted body.
pub fn submitted_edit_matches(draft: Option<&Draft>, target: &str, body: &str) -> (r: bool)
    ensures
        r == match draft {
            Some(d) => holds_text(d.edit_target, target@) && text::trimmed(d.body@) == body@,
            None => false,
        },
{
    match draft {
        Some(d) => option_holds(&d.edit_target, target) && text::trimmed_equals(
            d.body.as_str(),
            body,
        ),
        None => false,
    }
}

/// Whether an acknowledged edit may clear the visible composer: the user is
/// still in the same chat, editing the same message, with the same text.
pub fn should_clear_visible_edit(
    selected_chat: Option<&str>,
    submitted_chat: &str,
    active_target: Option<&str>,
    submitted_target: &str,
    current_body: &str,
    submitted_body: &str,
) -> (r: bool)
    ensures
        r == ((selected_chat matches Some(c) && c@ == submitted_chat@) && (
        active_target matches Some(t) && t@ == submitted_target@) && text::trimmed(current_body@)
            == submitted_body@),
{
    let same_chat = match selected_chat {
        Some(c) => text::same_text(c, submitted_chat),
        None => false,
    };
    let same_target = match active_target {
        Some(t) => text::same_text(t, submitted_target),
        None => false,
    };
    same_chat && same_target && text::trimmed_equals(current_body, submitted_body)
}

/// Failure classes reported by the messaging core.
#[derive(Clone, Copy, Debug, PartialEq, Eq, Structural)]
pub enum ErrorKind {
    RateLimited,
    Timeout,
    NotConnected,
    Protocol,
    NotFound,
    Storage,
    Internal,
}

/// Message and "outcome uncertain" flag after group creation fails: only a
/// timeout leaves it unknown whether the group exists.
pub fn group_creation_failure(kind: ErrorKind) -> (r: (String, bool))
    ensures
        r.1 == (kind == ErrorKind::Timeout),
        kind == ErrorKind::RateLimited ==> r.0@
            == "Too many group requests. Wait a little, then try again."@,
        kind == ErrorKind::Timeout ==> r.0@ == "Group creation timed out. Check Chats before retrying."@,
        kind == ErrorKind::NotConnected ==> r.0@ == "Connection lost. Reconnect, then try again."@,
        kind != ErrorKind::RateLimited && kind != ErrorKind::Timeout && kind
            != ErrorKind::NotConnected ==> r.0@
            == "Couldn’t create this group. Review the members and try again."@,
{
    match kind {
        ErrorKind::RateLimited => (
            String::from_str("Too many group requests. Wait a little, then try again."),
            false,
        ),
        ErrorKind::Timeout => (
            String::from_str("Group creation timed out. Check Chats before retrying."),
            true,
        ),
        ErrorKind::NotConnected => (
            String::from_str("Connection lost. Reconnect, then try again."),
            false,
        ),
        _ => (
            String::from_str("Couldn’t create this group. Review the members and try again."),
            false,
        ),
    }
}

/// Message and "outcome uncertain" flag after adding members fails: a
/// timeout or a lost connection leaves the membership unknown.
pub fn group_member_add_failure(kind: ErrorKind) -> (r: (String, bool))
    ensures
        r.1 == (kind == ErrorKind::Timeout || kind == ErrorKind::NotConnected),
        kind == ErrorKind::RateLimited ==> r.0@
            == "Too many group requests. Wait a little, then try again."@,
        kind == ErrorKind::Timeout ==> r.0@
            == "Adding members timed out. Refresh the group before retrying."@,
        kind == ErrorKind::NotConnected ==> r.0@
            == "Connection lost. Reconnect, refresh the group, then try again."@,
        kind != ErrorKind::RateLimited && kind != ErrorKind::Timeout && kind
            != ErrorKind::NotConnected ==> r.0@
            == "Couldn’t add these members. Review the selection and try again."@,
{
    match kind {
        ErrorKind::RateLimited => (
            String::from_str("Too many group requests. Wait a little, then try again."),
            false,
        ),
        ErrorKind::Timeout => (
            String::from_str("Adding members timed out. Refresh the group before retrying."),
            true,
        ),
        ErrorKind::NotConnected => (
            String::from_str("Connection lost. Reconnect, refresh the group, then try again."),
            true,
        ),
        _ => (
            String::from_str("Couldn’t add these members. Review the selection and try again."),
            false,
        ),
    }
}

/// Role of a participant in a group.
#[derive(Clone, Copy, Debug, PartialEq, Eq, Structural)]
pub enum ParticipantRole {
    Member,
    Admin,
    SuperAdmin,
}

/// What can be done to a group participant.
#[derive(Clone, Copy, Debug, PartialEq, Eq, Structural)]
pub enum GroupMemberActionKind {
    Promote,
    Demote,
    Remove,
}

/// Members can be promoted, admins demoted, and either removed; the group
/// creator (super admin) is never a target.
pub open spec fn action_fits_role(kind: GroupMemberActionKind, role: ParticipantRole) -> bool {
    ||| (kind == GroupMemberActionKind::Promote && role == ParticipantRole::Member)
    ||| (kind == GroupMemberActionKind::Demote && role == ParticipantRole::Admin)
    ||| (kind == GroupMemberActionKind::Remove && role != ParticipantRole::SuperAdmin)
}

/// Whether an action applies to a participant of this role.
pub fn group_member_action_matches_role(kind: GroupMemberActionKind, role: ParticipantRole) -> (r:
    bool)
    ensures
        r == action_fits_role(kind, role),
{
    match (kind, role) {
        (GroupMemberActionKind::Promote, ParticipantRole::Member) => true,
        (GroupMemberActionKind::Demote, ParticipantRole::Admin) => true,
        (GroupMemberActionKind::Remove, ParticipantRole::Member) => true,
        (GroupMemberActionKind::Remove, ParticipantRole::Admin) => true,
        _ => false,
    }
}


/// One participant row of a group's details.
#[derive(Debug)]
pub struct GroupParticipant {
    pub jid: String,
    pub display_name: String,
    pub role: ParticipantRole,
    pub is_self: bool,
}

/// A pending request to join a group.
#[derive(Debug)]
pub struct PendingMembershipRequest {
    pub jid: String,
    pub display_name: String,
}

/// The loaded details of the open group conversation.
#[derive(Debug)]
pub struct GroupDetails {
    pub chat: String,
    pub subject: String,
    /// What the group's permissions allow the current user: manage members.
    pub can_manage_members: bool,
    /// The current user's own role, when the user is still a participant.
    pub current_user_role: Option<ParticipantRole>,
    pub participants: Vec<GroupParticipant>,
}

/// A participant the user picked for a management action.
#[derive(Debug)]
pub struct GroupMemberTarget {
    pub chat: String,
    pub group_name: String,
    pub participant: String,
    pub participant_name: String,
    pub participant_role: ParticipantRole,
}

/// A confirmed action on a group participant.
#[derive(Debug)]
pub struct GroupMemberAction {
    pub target: GroupMemberTarget,
    pub kind: GroupMemberActionKind,
}

/// The group the user asked to leave.
#[derive(Debug)]
pub struct GroupLeaveTarget {
    pub chat: String,
    pub group_name: String,
}

/// A join request the user is reviewing.
#[derive(Debug)]
pub struct JoinRequestTarget {
    pub chat: String,
    pub group_name: String,
    pub participant: String,
    pub participant_name: String,
}

/// Approve or decline a join request.
#[derive(Clone, Copy, Debug, PartialEq, Eq, Structural)]
pub enum JoinRequestActionKind {
    Approve,
    Decline,
}

/// A confirmed review of a join request.
#[derive(Debug)]
pub struct JoinRequestAction {
    pub target: JoinRequestTarget,
    pub kind: JoinRequestActionKind,
}

/// Whether `selected` is present and names chat `c`.
pub open spec fn is_selected(selected: Option<&str>, c: Seq<char>) -> bool {
    match selected {
        Some(s) => s@ == c,
        None => false,
    }
}

fn selected_is(selected: Option<&str>, c: &String) -> (r: bool)
    ensures
        r == is_selected(selected, c@),
{
    match selected {
        Some(s) => text::same_text(s, c.as_str()),
        None => false,
    }
}

/// Whether participant `p` is exactly the one the target names, still in
/// the role the target shows, and someone other than the user or creator.
pub open spec fn participant_matches_target(p: GroupParticipant, t: GroupMemberTarget) -> bool {
    &&& p.jid@ == t.participant@
    &&& p.display_name@ == t.participant_name@
    &&& p.role == t.participant_role
    &&& !p.is_self
    &&& p.role != ParticipantRole::SuperAdmin
}

/// A member action may proceed only on the group still open and selected,
/// when a leave is not pending, the user may manage members, and the target
/// participant is still listed exactly as it was picked.
pub open spec fn member_target_actionable(
    details: Option<&GroupDetails>,
    selected: Option<&str>,
    leave_uncertain: bool,
    t: GroupMemberTarget,
) -> bool {
    match details {
        Some(d) => {
            &&& d.chat@ == t.chat@
            &&& is_selected(selected, t.chat@)
            &&& !leave_uncertain
            &&& d.can_manage_members
            &&& exists|j: int|
                0 <= j < d.participants@.len() && participant_matches_target(
                    #[trigger] d.participants@[j],
                    t,
                )
        },
        None => false,
    }
}

/// Whether a member action may still run on its target.
pub fn group_member_target_is_actionable(
    details: Option<&GroupDetails>,
    selected_chat: Option<&str>,
    group_leave_uncertain: bool,
    target: &GroupMemberTarget,
) -> (r: bool)
    ensures
        r == member_target_actionable(details, selected_chat, group_leave_uncertain, *target),
{
    let d = match details {
        Some(d) => d,
        None => {
            return false;
        },
    };
    if !(text::same_text(d.chat.as_str(), target.chat.as_str()) && selected_is(
        selected_chat,
        &target.chat,
    ) && !group_leave_uncertain && d.can_manage_members) {
        return false;
    }
    let mut i: usize = 0;
    while i < d.participants.len()
        invariant
            details == Some(d),
            d.chat@ == target.chat@,
            is_selected(selected_chat, target.chat@),
            !group_leave_uncertain,
            d.can_manage_members,
            i <= d.participants@.len(),
            forall|j: int|
                0 <= j < i ==> !participant_matches_target(#[trigger] d.participants@[j], *target),
        decreases d.participants@.len() - i,
    {
        let p = &d.participants[i];
        if text::same_text(p.jid.as_str(), target.participant.as_str()) && text::same_text(
            p.display_name.as_str(),
            target.participant_name.as_str(),
        ) && p.role == target.participant_role && !p.is_self && p.role
            != ParticipantRole::SuperAdmin {
            assert(participant_matches_target(d.participants@[i as int], *target));
            return true;
        }
        i = i + 1;
    }
    false
}

/// Leaving may proceed only on the group still open and selected under the
/// same subject, while the user is still a participant of it.
pub open spec fn leave_target_current(
    details: Option<&GroupDetails>,
    selected: Option<&str>,
    t: GroupLeaveTarget,
) -> bool {
    match details {
        Some(d) => {
            &&& d.chat@ == t.chat@
            &&& d.subject@ == t.group_name@
            &&& is_selected(selected, t.chat@)
            &&& d.current_user_role is Some
            &&& exists|j: int| 0 <= j < d.participants@.len() && (#[trigger] d.participants@[j]).is_self
        },
        None => false,
    }
}

/// Whether a leave request still concerns the open group.
pub fn group_leave_target_is_current(
    details: Option<&GroupDetails>,
    selected_chat: Option<&str>,
    target: &GroupLeaveTarget,
) -> (r: bool)
    ensures
        r == leave_target_current(details, selected_chat, *target),
{
    let d = match details {
        Some(d) => d,
        None => {
            return false;
        },
    };
    if !(text::same_text(d.chat.as_str(), target.chat.as_str()) && text::same_text(
        d.subject.as_str(),
        target.group_name.as_str(),
    ) && selected_is(selected_chat, &target.chat) && d.current_user_role.is_some()) {
        return false;
    }
    let mut i: usize = 0;
    while i < d.participants.len()
        invariant
            details == Some(d),
            d.chat@ == target.chat@,
            d.subject@ == target.group_name@,
            is_selected(selected_chat, target.chat@),
            d.current_user_role is Some,
            i <= d.participants@.len(),
            forall|j: int| 0 <= j < i ==> !(#[trigger] d.participants@[j]).is_self,
        decreases d.participants@.len() - i,
    {
        if d.participants[i].is_self {
            assert(d.participants@[i as int].is_self);
            return true;
        }
        i = i + 1;
    }
    false
}

/// Reviewing a join request may proceed only on the group still open and
/// selected under the same subject, while connected, with no leave pending,
/// when the user may manage members and the request is still listed.
pub open spec fn join_target_current(
    details: Option<&GroupDetails>,
    selected: Option<&str>,
    connected: bool,
    leave_uncertain: bool,
    requests: Seq<PendingMembershipRequest>,
    t: JoinRequestTarget,
) -> bool {
    match details {
        Some(d) => {
            &&& d.chat@ == t.chat@
            &&& d.subject@ == t.group_name@
            &&& is_selected(selected, t.chat@)
            &&& connected
            &&& !leave_uncertain
            &&& d.can_manage_members
            &&& exists|j: int|
                0 <= j < requests.len() && (#[trigger] requests[j]).jid@ == t.participant@
                    && requests[j].display_name@ == t.participant_name@
        },
        None => false,
    }
}

/// Whether a join-request review still concerns a pending request.
pub fn join_request_target_is_current(
    details: Option<&GroupDetails>,
    selected_chat: Option<&str>,
    connected: bool,
    group_leave_uncertain: bool,
    requests: &[PendingMembershipRequest],
    target: &JoinRequestTarget,
) -> (r: bool)
    ensures
        r == join_target_current(
            details,
            selected_chat,
            connected,
            group_leave_uncertain,
            requests@,
            *target,
        ),
{
    let d = match details {
        Some(d) => d,
        None => {
            return false;
        },
    };
    if !(text::same_text(d.chat.as_str(), target.chat.as_str()) && text::same_text(
        d.subject.as_str(),
        target.group_name.as_str(),
    ) && selected_is(selected_chat, &target.chat) && connected && !group_leave_uncertain
        && d.can_manage_members) {
        return false;
    }
    let mut i: usize = 0;
    while i < requests.len()
        invariant
            details == Some(d),
            d.chat@ == target.chat@,
            d.subject@ == target.group_name@,
            is_selected(selected_chat, target.chat@),
            connected,
            !group_leave_uncertain,
            d.can_manage_members,
            i <= requests@.len(),
            forall|j: int|
                0 <= j < i ==> !((#[trigger] requests@[j]).jid@ == target.participant@
                    && requests@[j].display_name@ == target.participant_name@),
        decreases requests@.len() - i,
    {
        if text::same_text(requests[i].jid.as_str(), target.participant.as_str())
            && text::same_text(requests[i].display_name.as_str(), target.participant_name.as_str()) {
            assert(requests@[i as int].jid@ == target.participant@);
            return true;
        }
        i = i + 1;
    }
    false
}


/// How many delivered notification identities are remembered.
pub const NOTIFICATION_DEDUPE_LIMIT: usize = 4096;

/// A notification identity: chat and message.
pub type NotificationIdentity = (Seq<char>, Seq<char>);

/// Remembers the most recent notification identities, oldest first, so the
/// same message never notifies twice while it is remembered.
pub struct NotificationDedupe {
    seen: Vec<(String, String)>,
    limit: usize,
}

/// The remembered identities after presenting `id`: unchanged if it is
/// already remembered, otherwise appended with the oldest one forgotten when
/// the memory would exceed `limit`.
pub open spec fn remember_spec(seen: Seq<NotificationIdentity>, limit: nat, id: NotificationIdentity) -> Seq<
    NotificationIdentity,
> {
    if seen.contains(id) {
        seen
    } else if seen.len() + 1 > limit {
        seen.push(id).drop_first()
    } else {
        seen.push(id)
    }
}

impl View for NotificationDedupe {
    type V = Seq<NotificationIdentity>;

    closed spec fn view(&self) -> Seq<NotificationIdentity> {
        self.seen@.map_values(|p: (String, String)| (p.0@, p.1@))
    }
}

impl NotificationDedupe {
    /// The memory bound.
    pub closed spec fn bound(&self) -> nat {
        self.limit as nat
    }

    /// Bounded, with no identity remembered twice.
    pub closed spec fn wf(&self) -> bool {
        &&& self.limit >= 1
        &&& self@.len() <= self.limit
        &&& self@.no_duplicates()
    }

    /// An empty memory holding at most the usual 4096 identities.
    pub fn new() -> (d: NotificationDedupe)
        ensures
            d.wf(),
            d@ == Seq::<NotificationIdentity>::empty(),
            d.bound() == NOTIFICATION_DEDUPE_LIMIT,
    {
        NotificationDedupe::with_limit(NOTIFICATION_DEDUPE_LIMIT)
    }

    /// An empty memory holding at most `limit` identities.
    pub fn with_limit(limit: usize) -> (d: NotificationDedupe)
        requires
            limit >= 1,
        ensures
            d.wf(),
            d@ == Seq::<NotificationIdentity>::empty(),
            d.bound() == limit,
    {
        let d = NotificationDedupe { seen: Vec::new(), limit };
        assert(d@ == Seq::<NotificationIdentity>::empty());
        d
    }

    /// Number of remembered identities.
    pub fn len(&self) -> (n: usize)
        ensures
            n == self@.len(),
    {
        self.seen.len()
    }

    /// Records a notification identity; true when it was not remembered yet
    /// (the notification may be shown), false for a repeat.
    pub fn remember(&mut self, chat: String, message: String) -> (fresh: bool)
        requires
            old(self).wf(),
        ensures
            final(self).wf(),
            final(self).bound() == old(self).bound(),
            fresh == !old(self)@.contains((chat@, message@)),
            final(self)@ == remember_spec(old(self)@, old(self).bound(), (chat@, message@)),
            final(self)@.contains((chat@, message@)),
            1 <= final(self).bound(),
            final(self)@.len() <= final(self).bound(),
    {
        let ghost id = (chat@, message@);
        let ghost before = self@;
        let mut i: usize = 0;
        while i < self.seen.len()
            invariant
                i <= self.seen@.len(),
                id == (chat@, message@),
                self.wf(),
                self.limit == old(self).limit,
                old(self)@ == before,
                before == self@,
                self@ == self.seen@.map_values(|p: (String, String)| (p.0@, p.1@)),
                forall|j: int| 0 <= j < i ==> #[trigger] self@[j] != id,
            decreases self.seen@.len() - i,
        {
            assert(self@[i as int] == (self.seen@[i as int].0@, self.seen@[i as int].1@));
            let same_chat = self.seen[i].0 == chat;
            let same_message = self.seen[i].1 == message;
            if same_chat && same_message {
                assert(self.seen@[i as int].0@ == chat@);
                assert(self.seen@[i as int].1@ == message@);
                assert(self@[i as int] == id);
                assert(self@.contains(id));
                return false;
            }
            i = i + 1;
        }
        assert(!before.contains(id));
        self.seen.push((chat, message));
        assert(self@ == before.push(id));
        if self.seen.len() > self.limit {
            self.seen.remove(0);
            assert(self@ == before.push(id).drop_first());
            assert(self@[self@.len() - 1] == id);
        } else {
            assert(self@[self@.len() - 1] == id);
        }
        proof {
            assert(before.push(id).no_duplicates());
        }
        true
    }

    /// Whether an identity is currently remembered.
    pub fn contains(&self, chat: &str, message: &str) -> (r: bool)
        ensures
            r == self@.contains((chat@, message@)),
    {
        let ghost id = (chat@, message@);
        let mut i: usize = 0;
        while i < self.seen.len()
            invariant
                i <= self.seen@.len(),
                id == (chat@, message@),
                self@ == self.seen@.map_values(|p: (String, String)| (p.0@, p.1@)),
                forall|j: int| 0 <= j < i ==> #[trigger] self@[j] != id,
            decreases self.seen@.len() - i,
        {
            assert(self@[i as int] == (self.seen@[i as int].0@, self.seen@[i as int].1@));
            if text::same_text(self.seen[i].0.as_str(), chat) && text::same_text(
                self.seen[i].1.as_str(),
                message,
            ) {
                assert(self@[i as int] == id);
                return true;
            }
            i = i + 1;
        }
        false
    }
}

/// Remembering is idempotent: once an identity was presented, presenting it
/// again is recognized as a repeat and changes nothing; and the memory never
/// exceeds its bound.
pub proof fn law_repeat_notification_is_suppressed(
    seen: Seq<NotificationIdentity>,
    limit: nat,
    id: NotificationIdentity,
)
    requires
        limit >= 1,
        seen.len() <= limit,
    ensures
        remember_spec(seen, limit, id).contains(id),
        remember_spec(remember_spec(seen, limit, id), limit, id) == remember_spec(seen, limit, id),
        remember_spec(seen, limit, id).len() <= limit,
{
    let r = remember_spec(seen, limit, id);
    if !seen.contains(id) {
        let p = seen.push(id);
        assert(p[p.len() - 1] == id);
        if seen.len() + 1 > limit {
            assert(r[r.len() - 1] == id);
        }
        assert(r.contains(id));
    }
}

/// A message that may raise a desktop notification.
#[derive(Debug)]
pub struct NotificationCandidate {
    pub chat: String,
    pub message: String,
    pub title: String,
    pub preview: String,
    pub timestamp_ms: i64,
}

/// The kind of chat a JID names, by its server.
pub open spec fn chat_kind_of(jid: Seq<char>) -> ChatKind {
    if text::has_suffix(jid, "@g.us"@) {
        ChatKind::Group
    } else if text::has_suffix(jid, "@newsletter"@) {
        ChatKind::Newsletter
    } else if text::has_suffix(jid, "@broadcast"@) {
        ChatKind::System
    } else {
        ChatKind::Direct
    }
}

/// Whether `r` is the chat-list row built from `candidate`: named by the
/// notification's title, previewing its text at its time, one unread
/// message, not pinned, muted, archived or favorite, no draft.
pub open spec fn notification_row(r: ChatSummary, candidate: NotificationCandidate) -> bool {
    &&& r.id@ == candidate.chat@
    &&& r.kind == chat_kind_of(candidate.chat@)
    &&& r.display_name matches Some(n) && n@ == candidate.title@
    &&& r.last_activity_ms == candidate.timestamp_ms
    &&& r.last_message_preview matches Some(p) && p@ == candidate.preview@
    &&& r.unread_count == 1
    &&& r.pinned_at_ms is None
    &&& r.muted_until_ms is None
    &&& !r.archived
    &&& !r.favorite
    &&& r.draft_preview is None
}

/// The chat-list row a notification opens when its chat is not listed yet:
/// the candidate's title and preview, one unread message, nothing pinned,
/// muted, archived or drafted.
pub fn notification_chat_summary(candidate: &NotificationCandidate) -> (r: ChatSummary)
    ensures
        notification_row(r, *candidate),
{
    let raw = candidate.chat.as_str();
    let kind = if text::ends_with(raw, "@g.us") {
        ChatKind::Group
    } else if text::ends_with(raw, "@newsletter") {
        ChatKind::Newsletter
    } else if text::ends_with(raw, "@broadcast") {
        ChatKind::System
    } else {
        ChatKind::Direct
    };
    ChatSummary {
        id: candidate.chat.clone(),
        kind,
        display_name: Some(candidate.title.clone()),
        last_activity_ms: candidate.timestamp_ms,
        last_message_preview: Some(candidate.preview.clone()),
        unread_count: 1,
        pinned_at_ms: None,
        muted_until_ms: None,
        archived: false,
        favorite: false,
        draft_preview: None,
    }
}

/// An ASCII decimal digit.
pub open spec fn is_ascii_digit(c: char) -> bool {
    0x30 <= (c as u32) <= 0x39
}

/// A character people type between the digits of a phone number.
pub open spec fn is_phone_separator(c: char) -> bool {
    c == ' ' || c == '-' || c == '(' || c == ')' || c == '.'
}

/// The digits of a text, in order.
pub open spec fn digits_of(s: Seq<char>) -> Seq<char>
    decreases s.len(),
{
    if s.len() == 0 {
        seq![]
    } else if is_ascii_digit(s.last()) {
        digits_of(s.drop_last()).push(s.last())
    } else {
        digits_of(s.drop_last())
    }
}

/// The trimmed input without one leading `+`.
pub open spec fn phone_body(s: Seq<char>) -> Seq<char> {
    let t = text::trimmed(s);
    if t.len() > 0 && t[0] == '+' {
        t.drop_first()
    } else {
        t
    }
}

/// The canonical digits of an input that is a complete phone number: after
/// trimming and an optional leading `+`, only digits and separators, with
/// seven to fifteen digits (the E.164 limits). The account domain that
/// defines phone numbers for the service is not part of this library; this
/// is the rule the library adopts in its place.
pub open spec fn canonical_phone(s: Seq<char>) -> Option<Seq<char>> {
    let b = phone_body(s);
    if (forall|i: int| 0 <= i < b.len() ==> is_ascii_digit(#[trigger] b[i]) || is_phone_separator(b[i]))
        && 7 <= digits_of(b).len() <= 15 {
        Some(digits_of(b))
    } else {
        None
    }
}

/// The canonical digits of the input when it is a complete phone number.
pub fn phone_number_digits(input: &str) -> (r: Option<String>)
    ensures
        match r {
            Some(d) => canonical_phone(input@) == Some(d@),
            None => canonical_phone(input@) is None,
        },
{
    let v = text::chars_of(input);
    let t = text::trim_chars(v.as_slice());
    let start: usize = if t.len() > 0 && t[0] == '+' {
        1
    } else {
        0
    };
    let ghost body = phone_body(input@);
    assert(body == t@.skip(start as int));
    let mut digits: Vec<char> = Vec::new();
    let mut ok = true;
    let mut i = start;
    while i < t.len()
        invariant
            start <= i <= t@.len(),
            body == t@.skip(start as int),
            digits@ == digits_of(body.take(i - start)),
            ok == forall|j: int|
                0 <= j < i - start ==> is_ascii_digit(#[trigger] body[j]) || is_phone_separator(
                    body[j],
                ),
        decreases t@.len() - i,
    {
        let c = t[i];
        let u = c as u32;
        assert(body[i - start] == c);
        assert(body.take(i - start + 1).drop_last() == body.take(i - start));
        if 0x30 <= u && u <= 0x39 {
            digits.push(c);
        } else if !(c == ' ' || c == '-' || c == '(' || c == ')' || c == '.') {
            ok = false;
        }
        i = i + 1;
    }
    assert(body.take(body.len() as int) == body);
    if ok && 7 <= digits.len() && digits.len() <= 15 {
        Some(text::string_from_chars(digits.as_slice()))
    } else {
        None
    }
}

/// The contact search a query runs: a phone number by its canonical digits,
/// anything else as typed.
pub fn normalized_contact_query(input: &str) -> (r: String)
    ensures
        r@ == match canonical_phone(input@) {
            Some(d) => d,
            None => input@,
        },
{
    match phone_number_digits(input) {
        Some(d) => d,
        None => input.to_owned(),
    }
}

/// What Escape closes.
#[derive(Clone, Copy, Debug, PartialEq, Eq, Structural)]
pub enum Dismissal {
    /// The new-chat flow is busy creating a group: nothing closes.
    Nothing,
    CloseNewChat,
    CloseSettingsOverlay,
    CloseMessageOverlay,
    CloseRightPanel,
}

/// What Escape closes: the new-chat flow (unless it is creating a group),
/// else the settings confirmation, else the message overlay, else the
/// info panel.
pub fn dismissal(
    new_chat_open: bool,
    group_creating: bool,
    settings_overlay_open: bool,
    message_overlay_open: bool,
) -> (d: Dismissal)
    ensures
        new_chat_open && group_creating ==> d == Dismissal::Nothing,
        new_chat_open && !group_creating ==> d == Dismissal::CloseNewChat,
        !new_chat_open && settings_overlay_open ==> d == Dismissal::CloseSettingsOverlay,
        !new_chat_open && !settings_overlay_open && message_overlay_open ==> d
            == Dismissal::CloseMessageOverlay,
        !new_chat_open && !settings_overlay_open && !message_overlay_open ==> d
            == Dismissal::CloseRightPanel,
{
    if new_chat_open {
        if group_creating {
            Dismissal::Nothing
        } else {
            Dismissal::CloseNewChat
        }
    } else if settings_overlay_open {
        Dismissal::CloseSettingsOverlay
    } else if message_overlay_open {
        Dismissal::CloseMessageOverlay
    } else {
        Dismissal::CloseRightPanel
    }
}

/// Makes sure the chat a clicked notification points at is listed: a chat
/// not listed yet gets a row built from the notification, at the end.
/// Whether a row was added.
pub fn list_notified_chat(chats: &mut Vec<ChatSummary>, candidate: &NotificationCandidate) -> (added: bool)
    ensures
        added == !(exists|i: int| 0 <= i < old(chats)@.len() && old(chats)@[i].id@ == candidate.chat@),
        !added ==> final(chats)@ == old(chats)@,
        added ==> final(chats)@.len() == old(chats)@.len() + 1 && final(chats)@.take(
            old(chats)@.len() as int,
        ) == old(chats)@ && notification_row(final(chats)@.last(), *candidate),
{
    let mut i: usize = 0;
    while i < chats.len()
        invariant
            i <= chats@.len(),
            forall|j: int| 0 <= j < i ==> chats@[j].id@ != candidate.chat@,
        decreases chats@.len() - i,
    {
        if text::same_text(chats[i].id.as_str(), candidate.chat.as_str()) {
            return false;
        }
        i = i + 1;
    }
    let ghost before = chats@;
    chats.push(notification_chat_summary(candidate));
    assert(chats@.take(before.len() as int) == before);
    true
}

/// The counter that tells a load's reply from a superseded one: each load
/// takes the next value, and a reply counts only while its value is still
/// the latest.
pub struct LoadGeneration {
    pub latest: u64,
}

impl LoadGeneration {
    /// Starts a load: its generation, one past the latest.
    pub fn begin(&mut self) -> (g: u64)
        requires
            old(self).latest < u64::MAX,
        ensures
            g == old(self).latest + 1,
            final(self).latest == g,
    {
        self.latest = self.latest + 1;
        self.latest
    }

    /// Drops every load on its way: their replies stop counting.
    pub fn cancel(&mut self)
        requires
            old(self).latest < u64::MAX,
        ensures
            final(self).latest == old(self).latest + 1,
    {
        self.latest = self.latest + 1;
    }

    /// Whether the reply of the load of generation `g` still counts.
    pub fn is_current(&self, g: u64) -> (r: bool)
        ensures
            r == (g == self.latest),
    {
        g == self.latest
    }
}

/// Once a later load began (or the loads were dropped), the reply of an
/// earlier load no longer counts.
pub proof fn law_superseded_replies_are_ignored(latest: u64, later_starts: nat)
    requires
        later_starts > 0,
        latest + 1 + later_starts <= u64::MAX,
    ensures
        ({
            let g = (latest + 1) as u64;
            let now = (latest + 1 + later_starts) as u64;
            g != now
        }),
{
}

} // verus!
