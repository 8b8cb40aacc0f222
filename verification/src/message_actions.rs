//! What a message action shows at once (a star, our own reaction), the
//! guard that keeps a retry from being sent twice, and what a refusal puts
//! back.

use vstd::prelude::*;
use crate::root::{optimistic_own_reaction, own_reaction_applied, reaction_views, ReactionSummary, ReactionView};
use crate::text;

verus! {

/// A loaded message as far as message actions change it.
pub struct MarkedRow {
    pub chat: String,
    pub id: String,
    pub starred: bool,
    pub reactions: Vec<ReactionSummary>,
}

/// Mathematical view of a [`MarkedRow`].
pub struct MarkedView {
    pub chat: Seq<char>,
    pub id: Seq<char>,
    pub starred: bool,
    pub reactions: Seq<ReactionView>,
}

impl View for MarkedRow {
    type V = MarkedView;

    open spec fn view(&self) -> MarkedView {
        MarkedView {
            chat: self.chat@,
            id: self.id@,
            starred: self.starred,
            reactions: reaction_views(self.reactions@),
        }
    }
}

/// Views of a list of rows.
pub open spec fn marked_views(rows: Seq<MarkedRow>) -> Seq<MarkedView> {
    rows.map_values(|r: MarkedRow| r@)
}

/// The first row that is message `id` of chat `chat`.
pub open spec fn marked_index(rows: Seq<MarkedView>, chat: Seq<char>, id: Seq<char>) -> Option<nat>
    decreases rows.len(),
{
    if rows.len() == 0 {
        None
    } else {
        match marked_index(rows.drop_last(), chat, id) {
            Some(i) => Some(i),
            None => if rows.last().chat == chat && rows.last().id == id {
                Some((rows.len() - 1) as nat)
            } else {
                None
            },
        }
    }
}

/// A message action as far as the list changes at once.
pub enum MessageActionKind {
    Star { starred: bool },
    React { emoji: String },
    Retry,
    Other,
}

/// What a message action changed at once, kept until the session answers.
pub struct PendingMessageAction {
    /// The retry now in flight, as (chat, message).
    pub retry_key: Option<(String, String)>,
    /// The star mark shown at once.
    pub desired_star: Option<bool>,
    /// The chips before the reaction and the chips shown at once.
    pub reaction_change: Option<(Vec<ReactionSummary>, Vec<ReactionSummary>)>,
}

/// Mathematical view of a [`PendingMessageAction`].
pub struct PendingView {
    pub retry_key: Option<(Seq<char>, Seq<char>)>,
    pub desired_star: Option<bool>,
    pub reaction_change: Option<(Seq<ReactionView>, Seq<ReactionView>)>,
}

impl View for PendingMessageAction {
    type V = PendingView;

    open spec fn view(&self) -> PendingView {
        PendingView {
            retry_key: match self.retry_key {
                Some(k) => Some((k.0@, k.1@)),
                None => None,
            },
            desired_star: self.desired_star,
            reaction_change: match self.reaction_change {
                Some(c) => Some((reaction_views(c.0@), reaction_views(c.1@))),
                None => None,
            },
        }
    }
}

/// Whether pair `k` stands for (chat, message) `x`.
pub open spec fn key_is(k: (String, String), x: (Seq<char>, Seq<char>)) -> bool {
    k.0@ == x.0 && k.1@ == x.1
}

/// Whether some pair of `keys` stands for `x`.
pub open spec fn listed(keys: Seq<(String, String)>, x: (Seq<char>, Seq<char>)) -> bool {
    exists|j: int| 0 <= j < keys.len() && #[trigger] key_is(keys[j], x)
}

proof fn lemma_listed_push(keys: Seq<(String, String)>, e: (String, String), x: (Seq<char>, Seq<char>))
    ensures
        listed(keys.push(e), x) == (listed(keys, x) || key_is(e, x)),
{
    let s = keys.push(e);
    if listed(keys, x) {
        let j = choose|j: int| 0 <= j < keys.len() && #[trigger] key_is(keys[j], x);
        assert(s[j] == keys[j]);
        assert(key_is(s[j], x));
    }
    if key_is(e, x) {
        assert(key_is(s[keys.len() as int], x));
    }
    if listed(s, x) {
        let j = choose|j: int| 0 <= j < s.len() && #[trigger] key_is(s[j], x);
        if j < keys.len() {
            assert(s[j] == keys[j]);
            assert(key_is(keys[j], x));
        }
    }
}

/// Message actions on their way (retries, edits), as (chat, message)
/// pairs.
pub struct RetryFlights {
    pub keys: Vec<(String, String)>,
}

impl RetryFlights {
    /// The pairs in flight.
    pub open spec fn in_flight(&self) -> Set<(Seq<char>, Seq<char>)> {
        Set::new(|x: (Seq<char>, Seq<char>)| listed(self.keys@, x))
    }

    /// No retry in flight.
    pub fn new() -> (f: RetryFlights)
        ensures
            f.in_flight() == Set::<(Seq<char>, Seq<char>)>::empty(),
    {
        let f = RetryFlights { keys: Vec::new() };
        assert(f.in_flight() =~= Set::<(Seq<char>, Seq<char>)>::empty());
        f
    }

    /// Whether a retry of message `message` of chat `chat` is in flight.
    pub fn contains(&self, chat: &str, message: &str) -> (r: bool)
        ensures
            r == self.in_flight().contains((chat@, message@)),
    {
        let ghost x = (chat@, message@);
        let mut i: usize = 0;
        while i < self.keys.len()
            invariant
                i <= self.keys@.len(),
                x == (chat@, message@),
                forall|j: int| 0 <= j < i ==> !#[trigger] key_is(self.keys@[j], x),
            decreases self.keys@.len() - i,
        {
            if text::same_text(self.keys[i].0.as_str(), chat) && text::same_text(
                self.keys[i].1.as_str(),
                message,
            ) {
                assert(key_is(self.keys@[i as int], x));
                return true;
            }
            i = i + 1;
        }
        false
    }

    /// Marks a retry as in flight.
    pub fn insert(&mut self, chat: String, message: String)
        ensures
            final(self).in_flight() == old(self).in_flight().insert((chat@, message@)),
    {
        let ghost k = (chat@, message@);
        let ghost before = self.keys@;
        let e = (chat, message);
        proof {
            assert forall|x: (Seq<char>, Seq<char>)| #[trigger]
                listed(before.push(e), x) == (listed(before, x) || x == k) by {
                lemma_listed_push(before, e, x);
            }
        }
        self.keys.push(e);
        assert(self.in_flight() =~= old(self).in_flight().insert(k));
    }

    /// Ends the retry of message `message` of chat `chat`.
    pub fn remove(&mut self, chat: &str, message: &str)
        ensures
            final(self).in_flight() == old(self).in_flight().remove((chat@, message@)),
    {
        let ghost k = (chat@, message@);
        let mut kept: Vec<(String, String)> = Vec::new();
        let mut i: usize = 0;
        while i < self.keys.len()
            invariant
                i <= self.keys@.len(),
                k == (chat@, message@),
                forall|x: (Seq<char>, Seq<char>)| #[trigger]
                    listed(kept@, x) == (x != k && listed(self.keys@.take(i as int), x)),
            decreases self.keys@.len() - i,
        {
            let same = text::same_text(self.keys[i].0.as_str(), chat) && text::same_text(
                self.keys[i].1.as_str(),
                message,
            );
            let ghost before = kept@;
            let ghost e = self.keys@[i as int];
            assert(self.keys@.take(i + 1) == self.keys@.take(i as int).push(e));
            if !same {
                let c = self.keys[i].0.clone();
                let m = self.keys[i].1.clone();
                kept.push((c, m));
                proof {
                    assert forall|x: (Seq<char>, Seq<char>)| #[trigger]
                        listed(kept@, x) == (x != k && listed(self.keys@.take(i + 1), x)) by {
                        lemma_listed_push(before, kept@.last(), x);
                        assert(kept@ == before.push(kept@.last()));
                        lemma_listed_push(self.keys@.take(i as int), e, x);
                    }
                }
            } else {
                proof {
                    assert forall|x: (Seq<char>, Seq<char>)| #[trigger]
                        listed(kept@, x) == (x != k && listed(self.keys@.take(i + 1), x)) by {
                        lemma_listed_push(self.keys@.take(i as int), e, x);
                    }
                }
            }
            i = i + 1;
        }
        assert(self.keys@.take(self.keys@.len() as int) == self.keys@);
        self.keys = kept;
        assert(self.in_flight() =~= old(self).in_flight().remove(k));
    }
}

/// The row `r` with its star mark set to `s`.
pub open spec fn with_star(r: MarkedView, s: bool) -> MarkedView {
    MarkedView { starred: s, ..r }
}

/// The row `r` showing the chips `c`.
pub open spec fn with_reactions(r: MarkedView, c: Seq<ReactionView>) -> MarkedView {
    MarkedView { reactions: c, ..r }
}

/// The rows as action `kind` on message `id` of chat `chat` shows them at
/// once: a star sets the mark, a reaction applies our choice to the chips.
pub open spec fn begun_rows(
    rows: Seq<MarkedView>,
    chat: Seq<char>,
    id: Seq<char>,
    kind: MessageActionKind,
) -> Seq<MarkedView> {
    match marked_index(rows, chat, id) {
        Some(i) => match kind {
            MessageActionKind::Star { starred } => rows.update(i as int, with_star(rows[i as int], starred)),
            MessageActionKind::React { emoji } => rows.update(
                i as int,
                with_reactions(rows[i as int], own_reaction_applied(rows[i as int].reactions, emoji@)),
            ),
            _ => rows,
        },
        None => rows,
    }
}

/// What action `kind` keeps until the session answers.
pub open spec fn pending_of(
    rows: Seq<MarkedView>,
    chat: Seq<char>,
    id: Seq<char>,
    kind: MessageActionKind,
) -> PendingView {
    PendingView {
        retry_key: if kind is Retry {
            Some((chat, id))
        } else {
            None
        },
        desired_star: match kind {
            MessageActionKind::Star { starred } => Some(starred),
            _ => None,
        },
        reaction_change: match kind {
            MessageActionKind::React { emoji } => match marked_index(rows, chat, id) {
                Some(i) => Some(
                    (rows[i as int].reactions, own_reaction_applied(rows[i as int].reactions, emoji@)),
                ),
                None => None,
            },
            _ => None,
        },
    }
}

/// The rows after the session answered: unchanged when it accepted; when it
/// refused, the star mark is flipped back and then the chips are put back,
/// each only while the row still shows what was shown at once.
pub open spec fn settled_rows(
    rows: Seq<MarkedView>,
    chat: Seq<char>,
    id: Seq<char>,
    p: PendingView,
    failed: bool,
) -> Seq<MarkedView> {
    if !failed {
        rows
    } else {
        let starred_back = match p.desired_star {
            Some(s) => match marked_index(rows, chat, id) {
                Some(i) => if rows[i as int].starred == s {
                    rows.update(i as int, with_star(rows[i as int], !s))
                } else {
                    rows
                },
                None => rows,
            },
            None => rows,
        };
        match p.reaction_change {
            Some(change) => match marked_index(starred_back, chat, id) {
                Some(i) => if starred_back[i as int].reactions == change.1 {
                    starred_back.update(i as int, with_reactions(starred_back[i as int], change.0))
                } else {
                    starred_back
                },
                None => starred_back,
            },
            None => starred_back,
        }
    }
}

/// A match found in a prefix is the match of the whole list.
proof fn lemma_marked_prefix(rows: Seq<MarkedView>, chat: Seq<char>, id: Seq<char>, n: nat)
    requires
        n <= rows.len(),
        marked_index(rows.take(n as int), chat, id) is Some,
    ensures
        marked_index(rows, chat, id) == marked_index(rows.take(n as int), chat, id),
    decreases rows.len(),
{
    if n < rows.len() {
        assert(rows.drop_last().take(n as int) == rows.take(n as int));
        lemma_marked_prefix(rows.drop_last(), chat, id, n);
    } else {
        assert(rows.take(n as int) == rows);
    }
}

/// The first match lies within the list and is the message asked for.
proof fn lemma_marked_index(rows: Seq<MarkedView>, chat: Seq<char>, id: Seq<char>)
    ensures
        match marked_index(rows, chat, id) {
            Some(i) => i < rows.len() && rows[i as int].chat == chat && rows[i as int].id == id,
            None => true,
        },
    decreases rows.len(),
{
    if rows.len() > 0 {
        lemma_marked_index(rows.drop_last(), chat, id);
    }
}

/// Changing a row but its chat and id leaves every match where it was.
proof fn lemma_marked_update(rows: Seq<MarkedView>, chat: Seq<char>, id: Seq<char>, i: int, r: MarkedView)
    requires
        0 <= i < rows.len(),
        r.chat == rows[i].chat,
        r.id == rows[i].id,
    ensures
        marked_index(rows.update(i, r), chat, id) == marked_index(rows, chat, id),
    decreases rows.len(),
{
    let u = rows.update(i, r);
    if i < rows.len() - 1 {
        assert(u.drop_last() == rows.drop_last().update(i, r));
        lemma_marked_update(rows.drop_last(), chat, id, i, r);
    } else {
        assert(u.drop_last() == rows.drop_last());
    }
}

/// The index of message `id` of chat `chat` among the rows.
pub fn find_marked(rows: &[MarkedRow], chat: &str, id: &str) -> (r: Option<usize>)
    ensures
        match r {
            Some(i) => i < rows@.len() && marked_index(marked_views(rows@), chat@, id@) == Some(
                i as nat,
            ),
            None => marked_index(marked_views(rows@), chat@, id@) is None,
        },
{
    let ghost v = marked_views(rows@);
    let mut i: usize = 0;
    while i < rows.len()
        invariant
            i <= rows@.len(),
            v == marked_views(rows@),
            marked_index(v.take(i as int), chat@, id@) is None,
        decreases rows@.len() - i,
    {
        assert(v.take(i + 1).drop_last() == v.take(i as int));
        assert(v.take(i + 1).last() == rows@[i as int]@);
        if text::same_text(rows[i].chat.as_str(), chat) && text::same_text(rows[i].id.as_str(), id) {
            proof {
                lemma_marked_prefix(v, chat@, id@, (i + 1) as nat);
            }
            return Some(i);
        }
        i = i + 1;
    }
    assert(v.take(v.len() as int) == v);
    None
}

/// A copy of a list of chips.
pub fn copy_reactions(v: &[ReactionSummary]) -> (r: Vec<ReactionSummary>)
    ensures
        reaction_views(r@) == reaction_views(v@),
{
    let mut r: Vec<ReactionSummary> = Vec::new();
    for i in 0..v.len()
        invariant
            reaction_views(r@) == reaction_views(v@.take(i as int)),
    {
        let c = ReactionSummary {
            emoji: v[i].emoji.clone(),
            count: v[i].count,
            reacted_by_me: v[i].reacted_by_me,
        };
        let ghost before = r@;
        r.push(c);
        assert(reaction_views(r@) == reaction_views(before).push(c@));
        assert(v@.take(i + 1) == v@.take(i as int).push(v@[i as int]));
        assert(reaction_views(v@.take(i + 1)) == reaction_views(v@.take(i as int)).push(
            v@[i as int]@,
        ));
    }
    assert(v@.take(v@.len() as int) == v@);
    r
}

/// Whether two lists of chips show the same.
pub fn same_reactions(a: &[ReactionSummary], b: &[ReactionSummary]) -> (r: bool)
    ensures
        r == (reaction_views(a@) == reaction_views(b@)),
{
    if a.len() != b.len() {
        proof {
            assert(reaction_views(a@).len() != reaction_views(b@).len());
        }
        return false;
    }
    let mut i: usize = 0;
    while i < a.len()
        invariant
            i <= a@.len() == b@.len(),
            forall|j: int| 0 <= j < i ==> a@[j]@ == b@[j]@,
        decreases a@.len() - i,
    {
        if !(text::same_text(a[i].emoji.as_str(), b[i].emoji.as_str()) && a[i].count == b[i].count
            && a[i].reacted_by_me == b[i].reacted_by_me) {
            proof {
                assert(reaction_views(a@)[i as int] != reaction_views(b@)[i as int]);
            }
            return false;
        }
        i = i + 1;
    }
    assert(reaction_views(a@) =~= reaction_views(b@));
    true
}

/// Sets the star mark of row `i`.
fn set_star(rows: &mut Vec<MarkedRow>, i: usize, s: bool)
    requires
        i < old(rows)@.len(),
    ensures
        marked_views(final(rows)@) == marked_views(old(rows)@).update(
            i as int,
            with_star(marked_views(old(rows)@)[i as int], s),
        ),
{
    let mut row = rows.remove(i);
    row.starred = s;
    rows.insert(i, row);
    assert(marked_views(rows@) =~= marked_views(old(rows)@).update(
        i as int,
        with_star(marked_views(old(rows)@)[i as int], s),
    ));
}

/// Sets the chips of row `i`.
fn set_reactions(rows: &mut Vec<MarkedRow>, i: usize, c: Vec<ReactionSummary>)
    requires
        i < old(rows)@.len(),
    ensures
        marked_views(final(rows)@) == marked_views(old(rows)@).update(
            i as int,
            with_reactions(marked_views(old(rows)@)[i as int], reaction_views(c@)),
        ),
{
    let ghost cv = reaction_views(c@);
    let mut row = rows.remove(i);
    row.reactions = c;
    rows.insert(i, row);
    assert(marked_views(rows@) =~= marked_views(old(rows)@).update(
        i as int,
        with_reactions(marked_views(old(rows)@)[i as int], cv),
    ));
}

/// Starts message action `kind` on message `message` of chat `chat`: a
/// retry already in flight is refused (`None`, nothing changes); otherwise
/// the star or our reaction shows at once, a retry is marked in flight, and
/// what a refusal must put back is returned.
pub fn begin_message_action(
    flights: &mut RetryFlights,
    rows: &mut Vec<MarkedRow>,
    chat: &str,
    message: &str,
    kind: &MessageActionKind,
) -> (r: Option<PendingMessageAction>)
    ensures
        ({
            let busy = kind is Retry && old(flights).in_flight().contains((chat@, message@));
            &&& busy ==> r is None && final(flights).in_flight() == old(flights).in_flight()
                && marked_views(final(rows)@) == marked_views(old(rows)@)
            &&& !busy ==> r is Some && r.unwrap()@ == pending_of(
                marked_views(old(rows)@),
                chat@,
                message@,
                *kind,
            ) && marked_views(final(rows)@) == begun_rows(
                marked_views(old(rows)@),
                chat@,
                message@,
                *kind,
            ) && final(flights).in_flight() == (if kind is Retry {
                old(flights).in_flight().insert((chat@, message@))
            } else {
                old(flights).in_flight()
            })
        }),
{
    let ghost v = marked_views(rows@);
    let found = find_marked(rows.as_slice(), chat, message);
    proof {
        lemma_marked_index(v, chat@, message@);
    }
    match kind {
        MessageActionKind::Retry => {
            if flights.contains(chat, message) {
                return None;
            }
            flights.insert(chat.to_string(), message.to_string());
            Some(
                PendingMessageAction {
                    retry_key: Some((chat.to_string(), message.to_string())),
                    desired_star: None,
                    reaction_change: None,
                },
            )
        },
        MessageActionKind::Star { starred } => {
            if let Some(i) = found {
                set_star(rows, i, *starred);
            }
            Some(PendingMessageAction { retry_key: None, desired_star: Some(*starred), reaction_change: None })
        },
        MessageActionKind::React { emoji } => {
            match found {
                Some(i) => {
                    let previous = copy_reactions(rows[i].reactions.as_slice());
                    let optimistic = optimistic_own_reaction(rows[i].reactions.as_slice(), emoji.as_str());
                    let shown = copy_reactions(optimistic.as_slice());
                    set_reactions(rows, i, shown);
                    Some(
                        PendingMessageAction {
                            retry_key: None,
                            desired_star: None,
                            reaction_change: Some((previous, optimistic)),
                        },
                    )
                },
                None => Some(PendingMessageAction { retry_key: None, desired_star: None, reaction_change: None }),
            }
        },
        MessageActionKind::Other => Some(
            PendingMessageAction { retry_key: None, desired_star: None, reaction_change: None },
        ),
    }
}

/// Settles message action `pending` on message `message` of chat `chat`
/// once the session answered: the retry leaves the in-flight set and, when
/// the session refused, what was shown at once is put back.
pub fn settle_message_action(
    flights: &mut RetryFlights,
    rows: &mut Vec<MarkedRow>,
    chat: &str,
    message: &str,
    pending: &PendingMessageAction,
    failed: bool,
)
    ensures
        final(flights).in_flight() == match pending@.retry_key {
            Some(k) => old(flights).in_flight().remove(k),
            None => old(flights).in_flight(),
        },
        marked_views(final(rows)@) == settled_rows(
            marked_views(old(rows)@),
            chat@,
            message@,
            pending@,
            failed,
        ),
{
    if let Some(k) = &pending.retry_key {
        flights.remove(k.0.as_str(), k.1.as_str());
    }
    if !failed {
        return;
    }
    if let Some(s) = pending.desired_star {
        let found = find_marked(rows.as_slice(), chat, message);
        if let Some(i) = found {
            if rows[i].starred == s {
                set_star(rows, i, !s);
            }
        }
    }
    if let Some(change) = &pending.reaction_change {
        let found = find_marked(rows.as_slice(), chat, message);
        if let Some(i) = found {
            if same_reactions(rows[i].reactions.as_slice(), change.1.as_slice()) {
                let back = copy_reactions(change.0.as_slice());
                set_reactions(rows, i, back);
            }
        }
    }
}

/// A star or reaction the session refuses leaves the rows as they were
/// before it, provided no star was asked for that the row already showed
/// (then the refusal flips the mark the other way).
pub proof fn law_refused_message_action_is_undone(
    rows: Seq<MarkedView>,
    chat: Seq<char>,
    id: Seq<char>,
    kind: MessageActionKind,
)
    requires
        match kind {
            MessageActionKind::Star { starred } => match marked_index(rows, chat, id) {
                Some(i) => rows[i as int].starred != starred,
                None => true,
            },
            _ => true,
        },
    ensures
        settled_rows(
            begun_rows(rows, chat, id, kind),
            chat,
            id,
            pending_of(rows, chat, id, kind),
            true,
        ) == rows,
{
    lemma_marked_index(rows, chat, id);
    let b = begun_rows(rows, chat, id, kind);
    match marked_index(rows, chat, id) {
        Some(i) => {
            let i = i as int;
            match kind {
                MessageActionKind::Star { starred } => {
                    lemma_marked_update(rows, chat, id, i, with_star(rows[i], starred));
                    assert(b.update(i, with_star(b[i], !starred)) =~= rows);
                },
                MessageActionKind::React { emoji } => {
                    let applied = own_reaction_applied(rows[i].reactions, emoji@);
                    lemma_marked_update(rows, chat, id, i, with_reactions(rows[i], applied));
                    assert(b.update(i, with_reactions(b[i], rows[i].reactions)) =~= rows);
                },
                _ => {},
            }
        },
        None => {},
    }
}

} // verus!
