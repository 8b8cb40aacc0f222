//! Reaction and receipt details: grouping the people behind a message's
//! reactions and receipts without inventing or merging anyone.

use vstd::prelude::*;
use crate::model::{MessageStatus, ReactionActor, ReceiptActor};

verus! {

/// Shown when a message has no reactions.
pub const REACTION_EMPTY: &'static str = "No reactions to show";

/// Shown when no receipts are known yet.
pub const RECEIPT_EMPTY: &'static str = "Receipt details are not available yet";

/// Shown while details load.
pub const DETAILS_LOADING: &'static str = "Loading…";

/// Shown when details could not be loaded.
pub const DETAILS_ERROR: &'static str = "Couldn’t load details";

/// Emojis in order of first appearance.
pub open spec fn emoji_order(actors: Seq<ReactionActor>) -> Seq<Seq<char>>
    decreases actors.len(),
{
    if actors.len() == 0 {
        seq![]
    } else {
        let p = emoji_order(actors.drop_last());
        if p.contains(actors.last().emoji@) {
            p
        } else {
            p.push(actors.last().emoji@)
        }
    }
}

/// The actors who reacted with `e`, in order.
pub open spec fn actors_with(actors: Seq<ReactionActor>, e: Seq<char>) -> Seq<ReactionActor>
    decreases actors.len(),
{
    if actors.len() == 0 {
        seq![]
    } else {
        let p = actors_with(actors.drop_last(), e);
        if actors.last().emoji@ == e {
            p.push(actors.last())
        } else {
            p
        }
    }
}

/// Reactions grouped by emoji: one group per distinct emoji in order of
/// first appearance, each listing every actor with that emoji in order.
pub open spec fn reaction_groups_ok(actors: Seq<ReactionActor>, groups: Seq<(String, Seq<ReactionActor>)>) -> bool {
    let order = emoji_order(actors);
    &&& groups.len() == order.len()
    &&& forall|g: int|
        0 <= g < groups.len() ==> (#[trigger] groups[g]).0@ == order[g] && groups[g].1
            == actors_with(actors, order[g])
}

proof fn lemma_emoji_order_distinct(actors: Seq<ReactionActor>)
    ensures
        emoji_order(actors).no_duplicates(),
        forall|j: int|
            0 <= j < actors.len() ==> emoji_order(actors).contains(#[trigger] actors[j].emoji@),
    decreases actors.len(),
{
    if actors.len() > 0 {
        let d = actors.drop_last();
        lemma_emoji_order_distinct(d);
        let p = emoji_order(d);
        assert forall|j: int| 0 <= j < actors.len() implies emoji_order(actors).contains(
            #[trigger] actors[j].emoji@,
        ) by {
            if j < actors.len() - 1 {
                assert(actors[j] == d[j]);
                let k = choose|k: int| 0 <= k < p.len() && p[k] == d[j].emoji@;
                assert(emoji_order(actors)[k] == p[k]);
            } else {
                if !p.contains(actors.last().emoji@) {
                    assert(emoji_order(actors)[p.len() as int] == actors.last().emoji@);
                }
            }
        }
    }
}

/// The people who reacted, grouped by emoji in order of first use.
pub fn group_reaction_actors(actors: &[ReactionActor]) -> (r: Vec<(String, Vec<&ReactionActor>)>)
    ensures
        reaction_groups_ok(
            actors@,
            r@.map_values(|g: (String, Vec<&ReactionActor>)| (g.0, g.1@.map_values(|a: &ReactionActor| *a))),
        ),
{
    let mut groups: Vec<(String, Vec<&ReactionActor>)> = Vec::new();
    for i in 0..actors.len()
        invariant
            reaction_groups_ok(
                actors@.take(i as int),
                groups@.map_values(|g: (String, Vec<&ReactionActor>)| (g.0, g.1@.map_values(|a: &ReactionActor| *a))),
            ),
    {
        let actor = &actors[i];
        let ghost pre = actors@.take(i as int);
        let ghost cur = actors@.take(i + 1);
        assert(cur.drop_last() == pre);
        assert(cur.last() == *actor);
        let ghost gv = groups@.map_values(|g: (String, Vec<&ReactionActor>)| (g.0, g.1@.map_values(|a: &ReactionActor| *a)));
        let ghost order = emoji_order(pre);
        let mut k: usize = 0;
        while k < groups.len()
            invariant
                k <= groups@.len(),
                reaction_groups_ok(pre, gv),
                order == emoji_order(pre),
                gv == groups@.map_values(|g: (String, Vec<&ReactionActor>)| (g.0, g.1@.map_values(|a: &ReactionActor| *a))),
                forall|j: int| 0 <= j < k ==> (#[trigger] groups@[j]).0@ != actor.emoji@,
            ensures
                k <= groups@.len(),
                forall|j: int| 0 <= j < k ==> (#[trigger] groups@[j]).0@ != actor.emoji@,
                k < groups@.len() ==> groups@[k as int].0@ == actor.emoji@,
            decreases groups@.len() - k,
        {
            if groups[k].0 == actor.emoji {
                break;
            }
            k = k + 1;
        }
        if k < groups.len() {
            proof {
                assert(gv[k as int].0 == groups@[k as int].0);
                assert(order[k as int] == actor.emoji@);
                assert(order.contains(actor.emoji@));
            }
            let ghost old_members = groups@[k as int].1@;
            assert(gv[k as int].1 == old_members.map_values(|a: &ReactionActor| *a));
            let mut members: Vec<&ReactionActor> = Vec::new();
            std::mem::swap(&mut members, &mut groups[k].1);
            assert(members@ == old_members);
            members.push(actor);
            let name = groups[k].0.clone();
            groups.set(k, (name, members));
            proof {
                lemma_emoji_order_distinct(pre);
                assert(emoji_order(cur) == order);
                assert(members@.map_values(|a: &ReactionActor| *a) == old_members.map_values(
                    |a: &ReactionActor| *a,
                ).push(*actor));
                let nv = groups@.map_values(|g: (String, Vec<&ReactionActor>)| (g.0, g.1@.map_values(|a: &ReactionActor| *a)));
                assert forall|g: int| 0 <= g < nv.len() implies (#[trigger] nv[g]).0@ == emoji_order(cur)[g]
                    && nv[g].1 == actors_with(cur, emoji_order(cur)[g]) by {
                    if g != k {
                        assert(nv[g] == gv[g]);
                        assert(order[g] != actor.emoji@);
                    }
                }
            }
        } else {
            proof {
                if order.contains(actor.emoji@) {
                    let j = choose|j: int| 0 <= j < order.len() && order[j] == actor.emoji@;
                    assert(gv[j].0@ == order[j]);
                    assert(groups@[j].0@ == gv[j].0@);
                }
            }
            let mut members: Vec<&ReactionActor> = Vec::new();
            members.push(actor);
            groups.push((actor.emoji.clone(), members));
            proof {
                let nv = groups@.map_values(|g: (String, Vec<&ReactionActor>)| (g.0, g.1@.map_values(|a: &ReactionActor| *a)));
                assert(emoji_order(cur) == order.push(actor.emoji@));
                assert forall|g: int| 0 <= g < nv.len() implies (#[trigger] nv[g]).0@ == emoji_order(cur)[g]
                    && nv[g].1 == actors_with(cur, emoji_order(cur)[g]) by {
                    if g < gv.len() {
                        assert(nv[g] == gv[g]);
                        assert(order[g] != actor.emoji@);
                    } else {
                        lemma_actors_with_absent(pre, actor.emoji@);
                        assert(nv[g].1 == seq![*actor]);
                    }
                }
            }
        }
    }
    assert(actors@.take(actors@.len() as int) == actors@);
    groups
}

proof fn lemma_actors_with_absent(actors: Seq<ReactionActor>, e: Seq<char>)
    requires
        !emoji_order(actors).contains(e),
    ensures
        actors_with(actors, e) == Seq::<ReactionActor>::empty(),
    decreases actors.len(),
{
    if actors.len() > 0 {
        let p = emoji_order(actors.drop_last());
        if p.contains(e) {
            let k = choose|k: int| 0 <= k < p.len() && p[k] == e;
            assert(emoji_order(actors)[k] == e);
        }
        lemma_actors_with_absent(actors.drop_last(), e);
        if actors.last().emoji@ == e {
            if !p.contains(actors.last().emoji@) {
                assert(emoji_order(actors)[p.len() as int] == e);
            }
        }
    }
}


/// Receipts with the given status, in order.
pub open spec fn receipts_with(actors: Seq<ReceiptActor>, st: MessageStatus) -> Seq<ReceiptActor>
    decreases actors.len(),
{
    if actors.len() == 0 {
        seq![]
    } else {
        let p = receipts_with(actors.drop_last(), st);
        if actors.last().status == st {
            p.push(actors.last())
        } else {
            p
        }
    }
}

/// Receipt groups: "Read" then "Delivered", each only when it has members;
/// receipts in any other state are not shown.
pub open spec fn receipt_groups_spec(actors: Seq<ReceiptActor>) -> Seq<(Seq<char>, Seq<ReceiptActor>)> {
    let read = receipts_with(actors, MessageStatus::Read);
    let delivered = receipts_with(actors, MessageStatus::Delivered);
    let a: Seq<(Seq<char>, Seq<ReceiptActor>)> = if read.len() > 0 {
        seq![("Read"@, read)]
    } else {
        seq![]
    };
    if delivered.len() > 0 {
        a.push(("Delivered"@, delivered))
    } else {
        a
    }
}

/// The receipts, grouped into "Read" and "Delivered".
pub fn group_receipt_actors(actors: &[ReceiptActor]) -> (r: Vec<(&'static str, Vec<&ReceiptActor>)>)
    ensures
        r@.map_values(|g: (&'static str, Vec<&ReceiptActor>)| (g.0@, g.1@.map_values(|a: &ReceiptActor| *a)))
            == receipt_groups_spec(actors@),
{
    let mut read: Vec<&ReceiptActor> = Vec::new();
    let mut delivered: Vec<&ReceiptActor> = Vec::new();
    for i in 0..actors.len()
        invariant
            read@.map_values(|a: &ReceiptActor| *a) == receipts_with(
                actors@.take(i as int),
                MessageStatus::Read,
            ),
            delivered@.map_values(|a: &ReceiptActor| *a) == receipts_with(
                actors@.take(i as int),
                MessageStatus::Delivered,
            ),
    {
        let actor = &actors[i];
        assert(actors@.take(i + 1).drop_last() == actors@.take(i as int));
        match actor.status {
            MessageStatus::Read => read.push(actor),
            MessageStatus::Delivered => delivered.push(actor),
            _ => {},
        }
        assert(read@.map_values(|a: &ReceiptActor| *a) == receipts_with(
            actors@.take(i + 1),
            MessageStatus::Read,
        ));
        assert(delivered@.map_values(|a: &ReceiptActor| *a) == receipts_with(
            actors@.take(i + 1),
            MessageStatus::Delivered,
        ));
    }
    assert(actors@.take(actors@.len() as int) == actors@);
    let mut groups: Vec<(&'static str, Vec<&ReceiptActor>)> = Vec::new();
    let has_read = read.len() > 0;
    let has_delivered = delivered.len() > 0;
    if has_read {
        groups.push(("Read", read));
    }
    if has_delivered {
        groups.push(("Delivered", delivered));
    }
    proof {
        let gv = groups@.map_values(
            |g: (&'static str, Vec<&ReceiptActor>)| (g.0@, g.1@.map_values(|a: &ReceiptActor| *a)),
        );
        assert(gv == receipt_groups_spec(actors@));
    }
    groups
}

/// What a details dialog shows.
#[derive(Clone, Copy, Debug, PartialEq, Eq, Structural)]
pub enum DetailsBody {
    Loading,
    Failed,
    Empty,
    Groups,
}

/// Loading and failure show a status line, an empty list its empty copy,
/// and anything else the groups.
pub fn details_body(loading: bool, failed: bool, actor_count: usize) -> (r: DetailsBody)
    ensures
        loading ==> r == DetailsBody::Loading,
        !loading && failed ==> r == DetailsBody::Failed,
        !loading && !failed && actor_count == 0 ==> r == DetailsBody::Empty,
        !loading && !failed && actor_count > 0 ==> r == DetailsBody::Groups,
{
    if loading {
        DetailsBody::Loading
    } else if failed {
        DetailsBody::Failed
    } else if actor_count == 0 {
        DetailsBody::Empty
    } else {
        DetailsBody::Groups
    }
}

} // verus!
