//! The user's own typing indicator, per chat: when to announce composing,
//! when to announce a pause, and which pending pause timers are stale.
//!
//! Every composer change bumps the chat's generation; a pause timer only
//! acts if no newer change happened since it was armed.

use vstd::prelude::*;
use crate::root;
use crate::root::{TypingDisplay, TypingState};
use crate::text;

verus! {

struct TypingEntry {
    chat: String,
    generation: u64,
    sent_at_ms: Option<u64>,
}

/// Per-chat generations and the time composing was last announced.
pub struct OutboundTyping {
    entries: Vec<TypingEntry>,
}

/// Generation and last "composing" announcement of one chat.
pub type TypingSlot = (u64, Option<u64>);

spec fn slot_of(e: TypingEntry) -> TypingSlot {
    (e.generation, e.sent_at_ms)
}

spec fn entries_map(s: Seq<TypingEntry>) -> Map<Seq<char>, TypingSlot>
    decreases s.len(),
{
    if s.len() == 0 {
        Map::empty()
    } else {
        entries_map(s.drop_last()).insert(s.last().chat@, slot_of(s.last()))
    }
}

spec fn distinct_chats(s: Seq<TypingEntry>) -> bool {
    forall|i: int, j: int| 0 <= i < j < s.len() ==> (#[trigger] s[i]).chat@ != (#[trigger] s[j]).chat@
}

proof fn lemma_entries_map(s: Seq<TypingEntry>)
    requires
        distinct_chats(s),
    ensures
        forall|k: Seq<char>|
            #![trigger entries_map(s).contains_key(k)]
            entries_map(s).contains_key(k) <==> exists|i: int| 0 <= i < s.len() && s[i].chat@ == k,
        forall|i: int| 0 <= i < s.len() ==> entries_map(s)[#[trigger] s[i].chat@] == slot_of(s[i]),
    decreases s.len(),
{
    if s.len() > 0 {
        let d = s.drop_last();
        assert(distinct_chats(d)) by {
            assert forall|i: int, j: int| 0 <= i < j < d.len() implies (#[trigger] d[i]).chat@
                != (#[trigger] d[j]).chat@ by {
                assert(d[i] == s[i] && d[j] == s[j]);
            }
        }
        lemma_entries_map(d);
        assert forall|k: Seq<char>| entries_map(s).contains_key(k) <==> exists|i: int|
            0 <= i < s.len() && s[i].chat@ == k by {
            if entries_map(d).contains_key(k) {
                let i = choose|i: int| 0 <= i < d.len() && d[i].chat@ == k;
                assert(s[i].chat@ == k);
            }
            if exists|i: int| 0 <= i < s.len() && s[i].chat@ == k {
                let i = choose|i: int| 0 <= i < s.len() && s[i].chat@ == k;
                if i < s.len() - 1 {
                    assert(d[i].chat@ == k);
                }
            }
        }
        assert forall|i: int| 0 <= i < s.len() implies entries_map(s)[#[trigger] s[i].chat@]
            == slot_of(s[i]) by {
            if i < s.len() - 1 {
                assert(d[i] == s[i]);
                assert(s[i].chat@ != s.last().chat@);
            }
        }
    }
}

proof fn lemma_entries_map_update(s: Seq<TypingEntry>, i: int, e: TypingEntry)
    requires
        distinct_chats(s),
        0 <= i < s.len(),
        e.chat@ == s[i].chat@,
    ensures
        distinct_chats(s.update(i, e)),
        entries_map(s.update(i, e)) == entries_map(s).insert(e.chat@, slot_of(e)),
    decreases s.len(),
{
    let u = s.update(i, e);
    assert(distinct_chats(u)) by {
        assert forall|a: int, b: int| 0 <= a < b < u.len() implies (#[trigger] u[a]).chat@
            != (#[trigger] u[b]).chat@ by {
            assert(u[a].chat@ == s[a].chat@ && u[b].chat@ == s[b].chat@);
        }
    }
    lemma_entries_map(s);
    lemma_entries_map(u);
    assert forall|k: Seq<char>| #![auto] entries_map(u).contains_key(k) <==> entries_map(s).insert(
        e.chat@,
        slot_of(e),
    ).contains_key(k) by {
        if exists|j: int| 0 <= j < u.len() && u[j].chat@ == k {
            let j = choose|j: int| 0 <= j < u.len() && u[j].chat@ == k;
            assert(s[j].chat@ == k);
        }
        if exists|j: int| 0 <= j < s.len() && s[j].chat@ == k {
            let j = choose|j: int| 0 <= j < s.len() && s[j].chat@ == k;
            assert(u[j].chat@ == k);
        }
    }
    assert forall|k: Seq<char>| #![auto] entries_map(u).contains_key(k) implies entries_map(u)[k]
        == entries_map(s).insert(e.chat@, slot_of(e))[k] by {
        let j = choose|j: int| 0 <= j < u.len() && u[j].chat@ == k;
        if j != i {
            assert(u[j] == s[j]);
        }
    }
    assert(entries_map(u) =~= entries_map(s).insert(e.chat@, slot_of(e)));
}

proof fn lemma_entries_map_push(s: Seq<TypingEntry>, e: TypingEntry)
    requires
        distinct_chats(s),
        !entries_map(s).contains_key(e.chat@),
    ensures
        distinct_chats(s.push(e)),
        entries_map(s.push(e)) == entries_map(s).insert(e.chat@, slot_of(e)),
{
    lemma_entries_map(s);
    let p = s.push(e);
    assert(p.drop_last() == s);
    assert(distinct_chats(p)) by {
        assert forall|a: int, b: int| 0 <= a < b < p.len() implies (#[trigger] p[a]).chat@
            != (#[trigger] p[b]).chat@ by {
            if b == s.len() {
                assert(p[a] == s[a]);
                if s[a].chat@ == e.chat@ {
                    assert(entries_map(s).contains_key(e.chat@));
                }
            } else {
                assert(p[a] == s[a] && p[b] == s[b]);
            }
        }
    }
}

/// What a composer change asks of the typing indicator.
#[derive(Clone, Copy, Debug, PartialEq, Eq, Structural)]
pub enum TypingStep {
    /// The session cannot send: nothing happens.
    Ignore,
    /// The composer is empty: announce a pause if composing was announced.
    Stop { announce_pause: bool },
    /// The user is typing: announce composing when due, and arm a pause
    /// timer for this generation.
    Compose { announce: bool, generation: u64 },
}

/// The generation a chat moves to on its next change.
pub open spec fn next_generation(m: Map<Seq<char>, TypingSlot>, chat: Seq<char>) -> u64 {
    if m.contains_key(chat) {
        if m[chat].0 == u64::MAX {
            u64::MAX
        } else {
            (m[chat].0 + 1) as u64
        }
    } else {
        1
    }
}

/// Whether composing was announced in a chat and not withdrawn since.
pub open spec fn announced(m: Map<Seq<char>, TypingSlot>, chat: Seq<char>) -> bool {
    m.contains_key(chat) && m[chat].1 is Some
}

/// Whether a "composing" announcement is due at `now_ms`.
pub open spec fn refresh_due(m: Map<Seq<char>, TypingSlot>, chat: Seq<char>, now_ms: u64) -> bool {
    if announced(m, chat) {
        let last = m[chat].1->0;
        now_ms >= last && now_ms - last >= root::TYPING_REFRESH_AFTER_MS
    } else {
        true
    }
}

impl OutboundTyping {
    /// Each chat's generation and last announcement.
    pub closed spec fn view(&self) -> Map<Seq<char>, TypingSlot> {
        entries_map(self.entries@)
    }

    /// Every chat has one entry.
    pub closed spec fn wf(&self) -> bool {
        distinct_chats(self.entries@)
    }

    /// No chat has been typed in yet.
    pub fn new() -> (t: OutboundTyping)
        ensures
            t.wf(),
            t@ == Map::<Seq<char>, TypingSlot>::empty(),
    {
        OutboundTyping { entries: Vec::new() }
    }

    fn find(&self, chat: &str) -> (r: Option<usize>)
        requires
            self.wf(),
        ensures
            match r {
                Some(i) => i < self.entries@.len() && self.entries@[i as int].chat@ == chat@
                    && self@.contains_key(chat@) && self@[chat@] == slot_of(
                    self.entries@[i as int],
                ),
                None => !self@.contains_key(chat@),
            },
    {
        proof {
            lemma_entries_map(self.entries@);
        }
        let mut i: usize = 0;
        while i < self.entries.len()
            invariant
                i <= self.entries@.len(),
                self.wf(),
                forall|j: int| 0 <= j < i ==> (#[trigger] self.entries@[j]).chat@ != chat@,
            decreases self.entries@.len() - i,
        {
            if text::same_text(self.entries[i].chat.as_str(), chat) {
                proof {
                    lemma_entries_map(self.entries@);
                }
                return Some(i);
            }
            i = i + 1;
        }
        None
    }

    /// Sets a chat's slot.
    fn set(&mut self, chat: &str, generation: u64, sent_at_ms: Option<u64>)
        requires
            old(self).wf(),
        ensures
            final(self).wf(),
            final(self)@ == old(self)@.insert(chat@, (generation, sent_at_ms)),
    {
        match self.find(chat) {
            Some(i) => {
                let e = TypingEntry { chat: chat.to_owned(), generation, sent_at_ms };
                proof {
                    lemma_entries_map_update(self.entries@, i as int, e);
                }
                self.entries.set(i, e);
            },
            None => {
                let e = TypingEntry { chat: chat.to_owned(), generation, sent_at_ms };
                proof {
                    lemma_entries_map_push(self.entries@, e);
                }
                self.entries.push(e);
            },
        }
    }

    /// A chat's current generation and last announcement.
    pub fn slot(&self, chat: &str) -> (r: TypingSlot)
        requires
            self.wf(),
        ensures
            self@.contains_key(chat@) ==> r == self@[chat@],
            !self@.contains_key(chat@) ==> r == (0u64, None::<u64>),
    {
        match self.find(chat) {
            Some(i) => (self.entries[i].generation, self.entries[i].sent_at_ms),
            None => (0, None),
        }
    }

    /// Stops typing in a chat (the user left it or emptied the composer):
    /// newer generation, no announcement; `true` when a pause must be
    /// announced.
    pub fn stop(&mut self, chat: &str) -> (announce_pause: bool)
        requires
            old(self).wf(),
        ensures
            final(self).wf(),
            announce_pause == announced(old(self)@, chat@),
            final(self)@ == old(self)@.insert(chat@, (next_generation(old(self)@, chat@), None)),
    {
        let (generation, sent) = self.slot(chat);
        let next = if self.find(chat).is_some() {
            generation.saturating_add(1)
        } else {
            1
        };
        self.set(chat, next, None);
        sent.is_some()
    }

    /// The composer of `chat` changed at `now_ms`.
    pub fn on_composer_change(&mut self, chat: &str, can_send: bool, empty: bool, now_ms: u64) -> (step:
        TypingStep)
        requires
            old(self).wf(),
        ensures
            final(self).wf(),
            !can_send ==> step == TypingStep::Ignore && final(self)@ == old(self)@,
            can_send && empty ==> {
                let bumped = old(self)@.insert(
                    chat@,
                    (next_generation(old(self)@, chat@), old(self)@[chat@].1),
                );
                &&& step == TypingStep::Stop { announce_pause: announced(old(self)@, chat@) }
                &&& final(self)@ == bumped.insert(chat@, (next_generation(bumped, chat@), None))
            },
            can_send && !empty ==> {
                let g = next_generation(old(self)@, chat@);
                let due = refresh_due(old(self)@, chat@, now_ms);
                &&& step == TypingStep::Compose { announce: due, generation: g }
                &&& final(self)@ == old(self)@.insert(
                    chat@,
                    (
                        g,
                        if due {
                            Some(now_ms)
                        } else {
                            old(self)@[chat@].1
                        },
                    ),
                )
            },
    {
        if !can_send {
            return TypingStep::Ignore;
        }
        let present = self.find(chat).is_some();
        let (generation, sent) = self.slot(chat);
        let next = if present {
            generation.saturating_add(1)
        } else {
            1
        };
        if empty {
            self.set(chat, next, sent);
            let announce_pause = self.stop(chat);
            return TypingStep::Stop { announce_pause };
        }
        let due = root::typing_refresh_due(sent, now_ms);
        self.set(
            chat,
            next,
            if due {
                Some(now_ms)
            } else {
                sent
            },
        );
        TypingStep::Compose { announce: due, generation: next }
    }

    /// A pause timer armed at `generation` fired: announce the pause only
    /// when nothing changed since and composing is still announced.
    pub fn on_pause_timer(&mut self, chat: &str, generation: u64) -> (announce_pause: bool)
        requires
            old(self).wf(),
        ensures
            final(self).wf(),
            announce_pause == (old(self)@.contains_key(chat@) && old(self)@[chat@].0 == generation
                && old(self)@[chat@].1 is Some),
            announce_pause ==> final(self)@ == old(self)@.insert(chat@, (generation, None)),
            !announce_pause ==> final(self)@ == old(self)@,
    {
        match self.find(chat) {
            Some(i) => {
                if self.entries[i].generation == generation && self.entries[i].sent_at_ms.is_some() {
                    self.set(chat, generation, None);
                    true
                } else {
                    false
                }
            },
            None => false,
        }
    }
}

/// A pause timer left behind by an earlier change never acts: after any
/// composer change in that chat, the timer of the previous generation
/// announces nothing.
pub proof fn law_stale_pause_timer_is_ignored(
    m: Map<Seq<char>, TypingSlot>,
    chat: Seq<char>,
    armed: u64,
)
    requires
        m.contains_key(chat),
        m[chat].0 == armed,
        armed < u64::MAX,
    ensures
        next_generation(m, chat) != armed,
{
}

/// Someone else's typing indicator shown in one chat.
pub struct IncomingEntry {
    pub chat: String,
    pub display: TypingDisplay,
}

/// Mathematical view of an [`IncomingEntry`].
pub struct ShownTyping {
    pub chat: Seq<char>,
    pub state: TypingState,
    pub participant: Option<Seq<char>>,
    pub generation: u64,
}

impl View for IncomingEntry {
    type V = ShownTyping;

    open spec fn view(&self) -> ShownTyping {
        ShownTyping {
            chat: self.chat@,
            state: self.display.state,
            participant: match self.display.participant {
                Some(p) => Some(p@),
                None => None,
            },
            generation: self.display.generation,
        }
    }
}

/// The first indicator of chat `chat`.
pub open spec fn shown_index(s: Seq<ShownTyping>, chat: Seq<char>) -> Option<nat>
    decreases s.len(),
{
    if s.len() == 0 {
        None
    } else {
        match shown_index(s.drop_last(), chat) {
            Some(i) => Some(i),
            None => if s.last().chat == chat {
                Some((s.len() - 1) as nat)
            } else {
                None
            },
        }
    }
}

/// Each chat shows at most one indicator.
pub open spec fn one_per_chat(s: Seq<ShownTyping>) -> bool {
    forall|i: int, j: int| 0 <= i < j < s.len() ==> s[i].chat != s[j].chat
}

/// `a + 1`, stopping at the largest value.
pub open spec fn next_shown_generation(a: u64) -> u64 {
    if a == u64::MAX {
        a
    } else {
        (a + 1) as u64
    }
}

/// What a typing update does: a pause takes the chat's indicator away;
/// anything else shows it with the next generation (the first is 1), and
/// that generation's expiry is to be armed.
pub open spec fn typing_update_spec(
    s: Seq<ShownTyping>,
    chat: Seq<char>,
    state: TypingState,
    participant: Option<Seq<char>>,
) -> (Seq<ShownTyping>, Option<u64>) {
    if state == TypingState::Paused {
        match shown_index(s, chat) {
            Some(i) => (s.remove(i as int), None),
            None => (s, None),
        }
    } else {
        match shown_index(s, chat) {
            Some(i) => {
                let g = next_shown_generation(s[i as int].generation);
                (s.update(i as int, ShownTyping { chat, state, participant, generation: g }), Some(g))
            },
            None => (s.push(ShownTyping { chat, state, participant, generation: 1 }), Some(1)),
        }
    }
}

/// What the expiry armed for generation `g` of chat `chat` does: it takes
/// the indicator away only if it still shows that generation.
pub open spec fn typing_expiry_spec(s: Seq<ShownTyping>, chat: Seq<char>, g: u64) -> (Seq<
    ShownTyping,
>, bool) {
    match shown_index(s, chat) {
        Some(i) => if s[i as int].generation == g {
            (s.remove(i as int), true)
        } else {
            (s, false)
        },
        None => (s, false),
    }
}

proof fn lemma_shown_prefix(s: Seq<ShownTyping>, chat: Seq<char>, n: nat)
    requires
        n <= s.len(),
        shown_index(s.take(n as int), chat) is Some,
    ensures
        shown_index(s, chat) == shown_index(s.take(n as int), chat),
    decreases s.len(),
{
    if n < s.len() {
        assert(s.drop_last().take(n as int) == s.take(n as int));
        lemma_shown_prefix(s.drop_last(), chat, n);
    } else {
        assert(s.take(n as int) == s);
    }
}

proof fn lemma_shown_index(s: Seq<ShownTyping>, chat: Seq<char>)
    ensures
        match shown_index(s, chat) {
            Some(i) => i < s.len() && s[i as int].chat == chat,
            None => forall|j: int| 0 <= j < s.len() ==> s[j].chat != chat,
        },
    decreases s.len(),
{
    if s.len() > 0 {
        lemma_shown_index(s.drop_last(), chat);
        if shown_index(s.drop_last(), chat) is None {
            assert forall|j: int| 0 <= j < s.len() - 1 implies s[j].chat != chat by {
                assert(s.drop_last()[j] == s[j]);
            }
        }
    }
}

proof fn lemma_shown_update(s: Seq<ShownTyping>, chat: Seq<char>, i: int, e: ShownTyping)
    requires
        0 <= i < s.len(),
        e.chat == s[i].chat,
    ensures
        shown_index(s.update(i, e), chat) == shown_index(s, chat),
    decreases s.len(),
{
    let u = s.update(i, e);
    if i < s.len() - 1 {
        assert(u.drop_last() == s.drop_last().update(i, e));
        lemma_shown_update(s.drop_last(), chat, i, e);
    } else {
        assert(u.drop_last() == s.drop_last());
    }
}

/// The typing indicators of other people, one per chat at most.
pub struct IncomingTyping {
    pub entries: Vec<IncomingEntry>,
}

impl View for IncomingTyping {
    type V = Seq<ShownTyping>;

    open spec fn view(&self) -> Seq<ShownTyping> {
        self.entries@.map_values(|e: IncomingEntry| e@)
    }
}

impl IncomingTyping {
    /// No indicator shown.
    pub fn new() -> (t: IncomingTyping)
        ensures
            t@ == Seq::<ShownTyping>::empty(),
    {
        let t = IncomingTyping { entries: Vec::new() };
        assert(t@ =~= Seq::<ShownTyping>::empty());
        t
    }

    fn find(&self, chat: &str) -> (r: Option<usize>)
        ensures
            match r {
                Some(i) => i < self@.len() && shown_index(self@, chat@) == Some(i as nat),
                None => shown_index(self@, chat@) is None,
            },
    {
        let ghost v = self@;
        let mut i: usize = 0;
        while i < self.entries.len()
            invariant
                i <= self.entries@.len(),
                v == self@,
                shown_index(v.take(i as int), chat@) is None,
            decreases self.entries@.len() - i,
        {
            assert(v.take(i + 1).drop_last() == v.take(i as int));
            assert(v.take(i + 1).last() == self.entries@[i as int]@);
            if text::same_text(self.entries[i].chat.as_str(), chat) {
                proof {
                    lemma_shown_prefix(v, chat@, (i + 1) as nat);
                }
                return Some(i);
            }
            i = i + 1;
        }
        assert(v.take(v.len() as int) == v);
        None
    }

    /// The indicator shown in chat `chat`, if any.
    pub fn get(&self, chat: &str) -> (r: Option<&TypingDisplay>)
        ensures
            match shown_index(self@, chat@) {
                Some(i) => r matches Some(d) && self@[i as int].state == d.state
                    && self@[i as int].generation == d.generation,
                None => r is None,
            },
    {
        match self.find(chat) {
            Some(i) => {
                assert(self@[i as int] == self.entries@[i as int]@);
                Some(&self.entries[i].display)
            },
            None => None,
        }
    }

    /// Takes a typing update of chat `chat`; the generation whose expiry
    /// to arm, if the indicator is shown.
    pub fn on_update(&mut self, chat: &str, state: TypingState, participant: Option<String>) -> (r:
        Option<u64>)
        requires
            one_per_chat(old(self)@),
        ensures
            one_per_chat(final(self)@),
            (final(self)@, r) == typing_update_spec(
                old(self)@,
                chat@,
                state,
                match participant {
                    Some(p) => Some(p@),
                    None => None,
                },
            ),
    {
        let ghost v = self@;
        proof {
            lemma_shown_index(v, chat@);
        }
        let found = self.find(chat);
        if state == TypingState::Paused {
            if let Some(i) = found {
                self.entries.remove(i);
                proof {
                    assert(self@ =~= v.remove(i as int));
                }
            }
            return None;
        }
        match found {
            Some(i) => {
                assert(self@[i as int] == self.entries@[i as int]@);
                let old_g = self.entries[i].display.generation;
                let g = if old_g == u64::MAX {
                    old_g
                } else {
                    old_g + 1
                };
                let e = IncomingEntry {
                    chat: chat.to_string(),
                    display: TypingDisplay { state, participant, generation: g },
                };
                let ghost ev = e@;
                self.entries.remove(i);
                self.entries.insert(i, e);
                proof {
                    assert(self@ =~= v.update(i as int, ev));
                    assert forall|a: int, b: int| 0 <= a < b < self@.len() implies self@[a].chat
                        != self@[b].chat by {
                        if a != i as int {
                            assert(self@[a] == v[a]);
                        }
                        if b != i as int {
                            assert(self@[b] == v[b]);
                        }
                    }
                }
                Some(g)
            },
            None => {
                let e = IncomingEntry {
                    chat: chat.to_string(),
                    display: TypingDisplay { state, participant, generation: 1 },
                };
                let ghost ev = e@;
                self.entries.push(e);
                proof {
                    assert(self@ =~= v.push(ev));
                    assert forall|a: int, b: int| 0 <= a < b < self@.len() implies self@[a].chat
                        != self@[b].chat by {
                        assert(self@[a] == v[a]);
                        if b < v.len() {
                            assert(self@[b] == v[b]);
                        }
                    }
                }
                Some(1)
            },
        }
    }

    /// The feed fell behind: what was missed cannot be rebuilt, so every
    /// indicator goes.
    pub fn on_lagged(&mut self)
        ensures
            final(self)@ == Seq::<ShownTyping>::empty(),
    {
        self.entries = Vec::new();
        assert(self@ =~= Seq::<ShownTyping>::empty());
    }

    /// The expiry armed for generation `generation` of chat `chat` ran;
    /// whether it took the indicator away.
    pub fn on_expiry(&mut self, chat: &str, generation: u64) -> (removed: bool)
        requires
            one_per_chat(old(self)@),
        ensures
            one_per_chat(final(self)@),
            (final(self)@, removed) == typing_expiry_spec(old(self)@, chat@, generation),
    {
        let ghost v = self@;
        match self.find(chat) {
            Some(i) => {
                assert(self@[i as int] == self.entries@[i as int]@);
                if self.entries[i].display.generation != generation {
                    return false;
                }
                self.entries.remove(i);
                proof {
                    assert(self@ =~= v.remove(i as int));
                }
                true
            },
            None => false,
        }
    }
}

/// The expiry armed by an update never takes away the indicator of a later
/// update of the same chat (while generations are below the largest value,
/// where they stop growing).
pub proof fn law_earlier_typing_expiry_is_ignored(
    s: Seq<ShownTyping>,
    chat: Seq<char>,
    first: TypingState,
    first_by: Option<Seq<char>>,
    second: TypingState,
    second_by: Option<Seq<char>>,
)
    requires
        one_per_chat(s),
        first != TypingState::Paused,
        shown_index(s, chat) matches Some(i) ==> s[i as int].generation < u64::MAX - 1,
    ensures
        ({
            let (s1, g1) = typing_update_spec(s, chat, first, first_by);
            let (s2, g2) = typing_update_spec(s1, chat, second, second_by);
            typing_expiry_spec(s2, chat, g1.unwrap()) == (s2, false)
        }),
{
    lemma_shown_index(s, chat);
    let (s1, g1) = typing_update_spec(s, chat, first, first_by);
    match shown_index(s, chat) {
        Some(i) => {
            let e = ShownTyping {
                chat,
                state: first,
                participant: first_by,
                generation: next_shown_generation(s[i as int].generation),
            };
            lemma_shown_update(s, chat, i as int, e);
        },
        None => {
            assert(s1.drop_last() == s);
        },
    }
    lemma_shown_index(s1, chat);
    let i1 = shown_index(s1, chat).unwrap();
    let (s2, g2) = typing_update_spec(s1, chat, second, second_by);
    if second == TypingState::Paused {
        // The chat's only indicator is gone: nothing left for the expiry.
        assert forall|j: int| 0 <= j < s2.len() implies s2[j].chat != chat by {
            if j < i1 {
                assert(s2[j] == s1[j]);
            } else {
                assert(s2[j] == s1[j + 1]);
                if s1[j + 1].chat == chat {
                    if s1.len() > s.len() {
                        assert(s1[j + 1] == s1[i1 as int]);
                    } else {
                        let k = shown_index(s, chat).unwrap() as int;
                        assert(s[j + 1].chat == chat || j + 1 == k);
                    }
                }
            }
        }
        lemma_shown_index(s2, chat);
    } else {
        let e2 = ShownTyping {
            chat,
            state: second,
            participant: second_by,
            generation: next_shown_generation(s1[i1 as int].generation),
        };
        lemma_shown_update(s1, chat, i1 as int, e2);
    }
}

} // verus!
