//! The profile-picture cache of the main window: which pictures are
//! loading, shown, missing or failed, and which reply may still change them.

use vstd::prelude::*;
use vstd::string::StrSliceExecFns;
use vstd::pervasive::VecAdditionalExecFns;
use crate::text;

verus! {

/// What the window knows of one profile picture.
pub enum AvatarUi {
    Loading,
    /// Shown from this file.
    Ready(String),
    Missing,
    Failed,
}

/// Mathematical view of an [`AvatarUi`].
pub enum AvatarView {
    Loading,
    Ready(Seq<char>),
    Missing,
    Failed,
}

impl View for AvatarUi {
    type V = AvatarView;

    open spec fn view(&self) -> AvatarView {
        match self {
            AvatarUi::Loading => AvatarView::Loading,
            AvatarUi::Ready(p) => AvatarView::Ready(p@),
            AvatarUi::Missing => AvatarView::Missing,
            AvatarUi::Failed => AvatarView::Failed,
        }
    }
}

/// The answer to a picture request.
pub enum AvatarOutcome {
    /// The picture was stored in this file.
    Found(String),
    /// The account has no picture.
    NotFound,
    /// The download failed.
    Failed,
}

/// One account's picture and the generation of its latest request.
pub struct AvatarEntry {
    pub jid: String,
    pub ui: AvatarUi,
    pub generation: u64,
}

/// Mathematical view of an [`AvatarEntry`].
pub struct AvatarEntryView {
    pub jid: Seq<char>,
    pub ui: AvatarView,
    pub generation: u64,
}

impl View for AvatarEntry {
    type V = AvatarEntryView;

    open spec fn view(&self) -> AvatarEntryView {
        AvatarEntryView { jid: self.jid@, ui: self.ui@, generation: self.generation }
    }
}

/// The first entry of account `jid`.
pub open spec fn avatar_index(s: Seq<AvatarEntryView>, jid: Seq<char>) -> Option<nat>
    decreases s.len(),
{
    if s.len() == 0 {
        None
    } else {
        match avatar_index(s.drop_last(), jid) {
            Some(i) => Some(i),
            None => if s.last().jid == jid {
                Some((s.len() - 1) as nat)
            } else {
                None
            },
        }
    }
}

/// What the cache holds for account `jid`.
pub open spec fn avatar_state(s: Seq<AvatarEntryView>, jid: Seq<char>) -> Option<AvatarEntryView> {
    match avatar_index(s, jid) {
        Some(i) => Some(s[i as int]),
        None => None,
    }
}

/// A request for the picture of `jid`: none for an empty id, nor (unless
/// `refresh`) while one is loading, shown or known missing. Otherwise the
/// entry takes the next generation and shows loading, but a picture
/// already shown stays until the answer.
pub open spec fn request_spec(s: Seq<AvatarEntryView>, jid: Seq<char>, refresh: bool) -> (Seq<
    AvatarEntryView,
>, Option<u64>) {
    let st = avatar_state(s, jid);
    if jid.len() == 0 || (!refresh && st is Some && !(st.unwrap().ui is Failed)) {
        (s, None)
    } else {
        match avatar_index(s, jid) {
            Some(i) => {
                let g = (s[i as int].generation + 1) as u64;
                let ui = if s[i as int].ui is Ready {
                    s[i as int].ui
                } else {
                    AvatarView::Loading
                };
                (s.update(i as int, AvatarEntryView { jid, ui, generation: g }), Some(g))
            },
            None => (s.push(AvatarEntryView { jid, ui: AvatarView::Loading, generation: 1 }), Some(1)),
        }
    }
}

/// The picture an answer leaves: the stored file, missing, or, after a
/// failure, the picture already shown (failed when none was).
pub open spec fn answered(old_ui: AvatarView, outcome: AvatarOutcome) -> AvatarView {
    match outcome {
        AvatarOutcome::Found(p) => AvatarView::Ready(p@),
        AvatarOutcome::NotFound => AvatarView::Missing,
        AvatarOutcome::Failed => if old_ui is Ready {
            old_ui
        } else {
            AvatarView::Failed
        },
    }
}

/// An answer to the request of generation `generation` for `jid`: applied
/// only while that is still the latest request of `jid`.
pub open spec fn settle_spec(
    s: Seq<AvatarEntryView>,
    jid: Seq<char>,
    generation: u64,
    outcome: AvatarOutcome,
) -> (Seq<AvatarEntryView>, bool) {
    match avatar_index(s, jid) {
        Some(i) => if s[i as int].generation == generation {
            (
                s.update(
                    i as int,
                    AvatarEntryView { ui: answered(s[i as int].ui, outcome), ..s[i as int] },
                ),
                true,
            )
        } else {
            (s, false)
        },
        None => (s, false),
    }
}

proof fn lemma_avatar_prefix(s: Seq<AvatarEntryView>, jid: Seq<char>, n: nat)
    requires
        n <= s.len(),
        avatar_index(s.take(n as int), jid) is Some,
    ensures
        avatar_index(s, jid) == avatar_index(s.take(n as int), jid),
    decreases s.len(),
{
    if n < s.len() {
        assert(s.drop_last().take(n as int) == s.take(n as int));
        lemma_avatar_prefix(s.drop_last(), jid, n);
    } else {
        assert(s.take(n as int) == s);
    }
}

proof fn lemma_avatar_index(s: Seq<AvatarEntryView>, jid: Seq<char>)
    ensures
        match avatar_index(s, jid) {
            Some(i) => i < s.len() && s[i as int].jid == jid,
            None => true,
        },
    decreases s.len(),
{
    if s.len() > 0 {
        lemma_avatar_index(s.drop_last(), jid);
    }
}

proof fn lemma_avatar_index_none(s: Seq<AvatarEntryView>, jid: Seq<char>)
    requires
        avatar_index(s, jid) is None,
    ensures
        forall|k: int| 0 <= k < s.len() ==> (#[trigger] s[k]).jid != jid,
    decreases s.len(),
{
    if s.len() > 0 {
        lemma_avatar_index_none(s.drop_last(), jid);
        assert forall|k: int| 0 <= k < s.len() implies (#[trigger] s[k]).jid != jid by {
            if k < s.len() - 1 {
                assert(s[k] == s.drop_last()[k]);
            }
        }
    }
}

/// Changing an entry but its account leaves every match where it was.
proof fn lemma_avatar_update(s: Seq<AvatarEntryView>, jid: Seq<char>, i: int, e: AvatarEntryView)
    requires
        0 <= i < s.len(),
        e.jid == s[i].jid,
    ensures
        avatar_index(s.update(i, e), jid) == avatar_index(s, jid),
    decreases s.len(),
{
    let u = s.update(i, e);
    if i < s.len() - 1 {
        assert(u.drop_last() == s.drop_last().update(i, e));
        lemma_avatar_update(s.drop_last(), jid, i, e);
    } else {
        assert(u.drop_last() == s.drop_last());
    }
}

/// No account has two entries.
pub open spec fn distinct_accounts(s: Seq<AvatarEntryView>) -> bool {
    forall|i: int, j: int| 0 <= i < j < s.len() ==> s[i].jid != s[j].jid
}

/// The picture cache: one entry per account.
pub struct AvatarCache {
    entries: Vec<AvatarEntry>,
}

impl View for AvatarCache {
    type V = Seq<AvatarEntryView>;

    closed spec fn view(&self) -> Seq<AvatarEntryView> {
        self.entries@.map_values(|e: AvatarEntry| e@)
    }
}

impl AvatarCache {
    #[verifier::type_invariant]
    spec fn accounts_are_distinct(self) -> bool {
        distinct_accounts(self.entries@.map_values(|e: AvatarEntry| e@))
    }

    /// A cache that knows no picture.
    pub fn new() -> (c: AvatarCache)
        ensures
            c@ == Seq::<AvatarEntryView>::empty(),
            distinct_accounts(c@),
    {
        let c = AvatarCache { entries: Vec::new() };
        assert(c@ =~= Seq::<AvatarEntryView>::empty());
        c
    }

    fn find(&self, jid: &str) -> (r: Option<usize>)
        ensures
            match r {
                Some(i) => i < self@.len() && avatar_index(self@, jid@) == Some(i as nat),
                None => avatar_index(self@, jid@) is None,
            },
    {
        let ghost v = self@;
        let mut i: usize = 0;
        while i < self.entries.len()
            invariant
                i <= self.entries@.len(),
                v == self@,
                avatar_index(v.take(i as int), jid@) is None,
            decreases self.entries@.len() - i,
        {
            assert(v.take(i + 1).drop_last() == v.take(i as int));
            assert(v.take(i + 1).last() == self.entries@[i as int]@);
            if text::same_text(self.entries[i].jid.as_str(), jid) {
                proof {
                    lemma_avatar_prefix(v, jid@, (i + 1) as nat);
                }
                return Some(i);
            }
            i = i + 1;
        }
        assert(v.take(v.len() as int) == v);
        None
    }

    fn replace(&mut self, i: usize, e: AvatarEntry)
        requires
            i < old(self)@.len(),
            e@.jid == old(self)@[i as int].jid,
        ensures
            final(self)@ == old(self)@.update(i as int, e@),
            distinct_accounts(final(self)@),
    {
        proof {
            use_type_invariant(&*self);
        }
        let ghost ev = e@;
        let ghost before = self@;
        let mut v: Vec<AvatarEntry> = Vec::new();
        std::mem::swap(&mut v, &mut self.entries);
        v.set(i, e);
        assert(v@.map_values(|x: AvatarEntry| x@) =~= before.update(i as int, ev));
        self.entries = v;
        proof {
            use_type_invariant(&*self);
        }
    }

    fn push_entry(&mut self, e: AvatarEntry)
        requires
            avatar_index(old(self)@, e@.jid) is None,
        ensures
            final(self)@ == old(self)@.push(e@),
            distinct_accounts(final(self)@),
    {
        proof {
            use_type_invariant(&*self);
            lemma_avatar_index_none(self@, e@.jid);
        }
        let ghost ev = e@;
        let ghost before = self@;
        let mut v: Vec<AvatarEntry> = Vec::new();
        std::mem::swap(&mut v, &mut self.entries);
        v.push(e);
        assert(v@.map_values(|x: AvatarEntry| x@) =~= before.push(ev));
        self.entries = v;
        proof {
            use_type_invariant(&*self);
        }
    }

    /// The file of the picture shown for `jid`, if one is.
    pub fn avatar_path(&self, jid: &str) -> (r: Option<String>)
        ensures
            match avatar_state(self@, jid@) {
                Some(e) => match e.ui {
                    AvatarView::Ready(p) => r matches Some(q) && q@ == p,
                    _ => r is None,
                },
                None => r is None,
            },
    {
        match self.find(jid) {
            Some(i) => match &self.entries[i].ui {
                AvatarUi::Ready(p) => {
                    assert(self@[i as int] == self.entries@[i as int]@);
                    Some(p.clone())
                },
                _ => None,
            },
            None => None,
        }
    }

    /// Asks for the picture of `jid`; the generation of the request to
    /// make, or `None` when none is needed.
    pub fn request(&mut self, jid: &str, refresh: bool) -> (r: Option<u64>)
        requires
            avatar_state(old(self)@, jid@) matches Some(e) ==> e.generation < u64::MAX,
        ensures
            (final(self)@, r) == request_spec(old(self)@, jid@, refresh),
            distinct_accounts(final(self)@),
    {
        proof {
            use_type_invariant(&*self);
            lemma_avatar_index(self@, jid@);
        }
        if jid.unicode_len() == 0 {
            return None;
        }
        let found = self.find(jid);
        match found {
            Some(i) => {
                assert(self@[i as int] == self.entries@[i as int]@);
                let busy = match &self.entries[i].ui {
                    AvatarUi::Failed => false,
                    _ => true,
                };
                if !refresh && busy {
                    return None;
                }
                let g = self.entries[i].generation + 1;
                let ui = match &self.entries[i].ui {
                    AvatarUi::Ready(p) => AvatarUi::Ready(p.clone()),
                    _ => AvatarUi::Loading,
                };
                self.replace(i, AvatarEntry { jid: jid.to_string(), ui, generation: g });
                Some(g)
            },
            None => {
                self.push_entry(AvatarEntry { jid: jid.to_string(), ui: AvatarUi::Loading, generation: 1 });
                Some(1)
            },
        }
    }

    /// Takes the answer to the request of generation `generation` for
    /// `jid`; whether it was applied.
    pub fn settle(&mut self, jid: &str, generation: u64, outcome: AvatarOutcome) -> (applied: bool)
        ensures
            (final(self)@, applied) == settle_spec(old(self)@, jid@, generation, outcome),
            distinct_accounts(final(self)@),
    {
        proof {
            use_type_invariant(&*self);
            lemma_avatar_index(self@, jid@);
        }
        match self.find(jid) {
            Some(i) => {
                assert(self@[i as int] == self.entries@[i as int]@);
                if self.entries[i].generation != generation {
                    return false;
                }
                let keep = match &self.entries[i].ui {
                    AvatarUi::Ready(p) => Some(p.clone()),
                    _ => None,
                };
                let ui = match outcome {
                    AvatarOutcome::Found(p) => AvatarUi::Ready(p),
                    AvatarOutcome::NotFound => AvatarUi::Missing,
                    AvatarOutcome::Failed => match keep {
                        Some(p) => AvatarUi::Ready(p),
                        None => AvatarUi::Failed,
                    },
                };
                let j = self.entries[i].jid.clone();
                self.replace(i, AvatarEntry { jid: j, ui, generation });
                true
            },
            None => false,
        }
    }
}

/// Once a later request for the same picture was made, the answer to an
/// earlier one changes nothing.
pub proof fn law_earlier_avatar_answer_is_ignored(
    s: Seq<AvatarEntryView>,
    jid: Seq<char>,
    first: bool,
    second: bool,
    outcome: AvatarOutcome,
)
    requires
        request_spec(s, jid, first).1 is Some,
        request_spec(request_spec(s, jid, first).0, jid, second).1 is Some,
        avatar_state(s, jid) matches Some(e) ==> e.generation < u64::MAX - 1,
    ensures
        ({
            let (s1, g1) = request_spec(s, jid, first);
            let (s2, g2) = request_spec(s1, jid, second);
            settle_spec(s2, jid, g1.unwrap(), outcome) == (s2, false)
        }),
{
    lemma_avatar_index(s, jid);
    let (s1, g1) = request_spec(s, jid, first);
    match avatar_index(s, jid) {
        Some(i) => {
            let e = AvatarEntryView {
                jid,
                ui: if s[i as int].ui is Ready {
                    s[i as int].ui
                } else {
                    AvatarView::Loading
                },
                generation: (s[i as int].generation + 1) as u64,
            };
            lemma_avatar_update(s, jid, i as int, e);
        },
        None => {
            assert(s1.take(s.len() as int) == s);
            lemma_avatar_index(s1, jid);
            if avatar_index(s1, jid) != Some(s.len() as nat) {
                assert(avatar_index(s1.drop_last(), jid) is None);
            }
        },
    }
    lemma_avatar_index(s1, jid);
    let i1 = avatar_index(s1, jid).unwrap();
    let e2 = AvatarEntryView {
        jid,
        ui: if s1[i1 as int].ui is Ready {
            s1[i1 as int].ui
        } else {
            AvatarView::Loading
        },
        generation: (s1[i1 as int].generation + 1) as u64,
    };
    lemma_avatar_update(s1, jid, i1 as int, e2);
}

/// A failed download never hides a picture that is shown: neither a new
/// request for it nor a failure answering that request takes it away.
pub proof fn law_failure_keeps_a_shown_avatar(
    s: Seq<AvatarEntryView>,
    jid: Seq<char>,
    path: Seq<char>,
    refresh: bool,
    generation: u64,
)
    requires
        avatar_state(s, jid) == Some(
            AvatarEntryView { jid, ui: AvatarView::Ready(path), generation },
        ),
        generation < u64::MAX,
    ensures
        ({
            let (s1, g) = request_spec(s, jid, refresh);
            &&& avatar_state(s1, jid).unwrap().ui == AvatarView::Ready(path)
            &&& avatar_state(
                settle_spec(s1, jid, avatar_state(s1, jid).unwrap().generation, AvatarOutcome::Failed).0,
                jid,
            ).unwrap().ui == AvatarView::Ready(path)
        }),
{
    lemma_avatar_index(s, jid);
    let i = avatar_index(s, jid).unwrap() as int;
    let (s1, g) = request_spec(s, jid, refresh);
    if g is Some {
        let e = AvatarEntryView { jid, ui: s[i].ui, generation: (s[i].generation + 1) as u64 };
        lemma_avatar_update(s, jid, i, e);
    }
    lemma_avatar_index(s1, jid);
    let i1 = avatar_index(s1, jid).unwrap() as int;
    lemma_avatar_update(s1, jid, i1, AvatarEntryView { ui: answered(s1[i1].ui, AvatarOutcome::Failed), ..s1[i1] });
}

} // verus!
