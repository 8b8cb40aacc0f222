//! New-group flow: which contacts are offered and how the selection is
//! summarised.

use vstd::prelude::*;
use crate::model::ContactSummary;
use crate::chat_state::{str_view, string_view};
use crate::text;

verus! {

/// Contacts whose JID is not among `existing`, in order.
pub open spec fn not_members(contacts: Seq<ContactSummary>, existing: Seq<Seq<char>>) -> Seq<
    ContactSummary,
>
    decreases contacts.len(),
{
    if contacts.len() == 0 {
        seq![]
    } else {
        let p = not_members(contacts.drop_last(), existing);
        if existing.contains(contacts.last().jid@) {
            p
        } else {
            p.push(contacts.last())
        }
    }
}

fn is_member(existing: &[String], jid: &String) -> (r: bool)
    ensures
        r == existing@.map_values(|s: String| s@).contains(jid@),
{
    let ghost ev = existing@.map_values(|s: String| s@);
    let mut i: usize = 0;
    while i < existing.len()
        invariant
            i <= existing@.len(),
            ev == existing@.map_values(|s: String| s@),
            forall|j: int| 0 <= j < i ==> ev[j] != jid@,
        decreases existing@.len() - i,
    {
        if existing[i] == *jid {
            assert(ev[i as int] == jid@);
            return true;
        }
        i = i + 1;
    }
    false
}

/// Contacts that are not already members of the group, so nobody is
/// offered twice.
pub fn available_group_contacts(contacts: &[ContactSummary], existing_members: &[String]) -> (r: Vec<
    ContactSummary,
>)
    ensures
        r@ == not_members(contacts@, existing_members@.map_values(|s: String| s@)),
{
    let ghost ev = existing_members@.map_values(|s: String| s@);
    let mut out: Vec<ContactSummary> = Vec::new();
    for i in 0..contacts.len()
        invariant
            ev == existing_members@.map_values(|s: String| s@),
            out@ == not_members(contacts@.take(i as int), ev),
    {
        assert(contacts@.take(i + 1).drop_last() == contacts@.take(i as int));
        if !is_member(existing_members, &contacts[i].jid) {
            out.push(contacts[i].duplicate());
        }
    }
    assert(contacts@.take(contacts@.len() as int) == contacts@);
    out
}

/// Names joined with a separator.
pub open spec fn join_names(names: Seq<Seq<char>>, sep: Seq<char>) -> Seq<char>
    decreases names.len(),
{
    if names.len() == 0 {
        seq![]
    } else if names.len() == 1 {
        names[0]
    } else {
        join_names(names.drop_last(), sep) + sep + names.last()
    }
}

/// The selection line: a prompt when nothing is selected, the first three
/// names joined with `, `, and `+N more` for the rest.
pub open spec fn selection_summary(names: Seq<Seq<char>>) -> Seq<char> {
    if names.len() == 0 {
        "Select at least one contact"@
    } else if names.len() > 3 {
        join_names(names.take(3), ", "@) + " +"@ + text::decimal((names.len() - 3) as nat)
            + " more"@
    } else {
        join_names(names, ", "@)
    }
}

/// The selection line of the new-group flow.
pub fn selected_summary(selected: &[ContactSummary]) -> (r: String)
    ensures
        r@ == selection_summary(selected@.map_values(|c: ContactSummary| c.display_name@)),
{
    let ghost names = selected@.map_values(|c: ContactSummary| c.display_name@);
    let n = selected.len();
    if n == 0 {
        return String::from_str("Select at least one contact");
    }
    let shown = if n > 3 {
        3
    } else {
        n
    };
    let mut out = String::new();
    for i in 0..shown
        invariant
            shown <= n,
            n == selected@.len(),
            names == selected@.map_values(|c: ContactSummary| c.display_name@),
            out@ == join_names(names.take(i as int), ", "@),
    {
        if i > 0 {
            text::push_str(&mut out, ", ");
        }
        text::push_str(&mut out, selected[i].display_name.as_str());
        assert(names.take(i + 1).drop_last() == names.take(i as int));
    }
    if n > 3 {
        text::push_str(&mut out, " +");
        text::push_decimal(&mut out, (n - 3) as u128);
        text::push_str(&mut out, " more");
    } else {
        assert(names.take(n as int) == names);
    }
    out
}

/// The most people a new group may invite.
pub const GROUP_INVITEE_MAX: usize = 256;

/// Whether a list of contacts names each account once.
pub open spec fn distinct_jids(s: Seq<ContactSummary>) -> bool {
    forall|i: int, j: int| 0 <= i < j < s.len() ==> s[i].jid@ != s[j].jid@
}

/// Whether some contact of `s` is account `jid`.
pub open spec fn lists_jid(s: Seq<ContactSummary>, jid: Seq<char>) -> bool {
    exists|i: int| 0 <= i < s.len() && s[i].jid@ == jid
}

/// The contact list after a further page: each contact of the page whose
/// account is not listed yet is appended, in page order.
pub open spec fn merged_contacts(listed: Seq<ContactSummary>, page: Seq<ContactSummary>) -> Seq<
    ContactSummary,
>
    decreases page.len(),
{
    if page.len() == 0 {
        listed
    } else {
        let m = merged_contacts(listed, page.drop_last());
        if lists_jid(m, page.last().jid@) {
            m
        } else {
            m.push(page.last())
        }
    }
}

/// The index of the first contact that is account `jid`.
fn position_of(s: &[ContactSummary], jid: &str) -> (r: Option<usize>)
    ensures
        match r {
            Some(i) => i < s@.len() && s@[i as int].jid@ == jid@ && forall|j: int|
                0 <= j < i ==> s@[j].jid@ != jid@,
            None => !lists_jid(s@, jid@),
        },
{
    let mut i: usize = 0;
    while i < s.len()
        invariant
            i <= s@.len(),
            forall|j: int| 0 <= j < i ==> s@[j].jid@ != jid@,
        decreases s@.len() - i,
    {
        if text::same_text(s[i].jid.as_str(), jid) {
            return Some(i);
        }
        i = i + 1;
    }
    None
}

/// Adds a further page of contacts: only accounts not listed yet, so the
/// list never names anyone twice.
pub fn merge_contact_page(contacts: &mut Vec<ContactSummary>, page: &[ContactSummary])
    ensures
        final(contacts)@ == merged_contacts(old(contacts)@, page@),
        distinct_jids(old(contacts)@) ==> distinct_jids(final(contacts)@),
        forall|i: int| 0 <= i < page@.len() ==> lists_jid(final(contacts)@, #[trigger] page@[i].jid@),
{
    let ghost start = contacts@;
    for i in 0..page.len()
        invariant
            contacts@ == merged_contacts(start, page@.take(i as int)),
            distinct_jids(start) ==> distinct_jids(contacts@),
            forall|k: int| 0 <= k < i ==> lists_jid(contacts@, #[trigger] page@[k].jid@),
    {
        assert(page@.take(i + 1).drop_last() == page@.take(i as int));
        assert(page@.take(i + 1).last() == page@[i as int]);
        let ghost before = contacts@;
        match position_of(contacts.as_slice(), page[i].jid.as_str()) {
            Some(j) => {
                assert(lists_jid(before, page@[i as int].jid@));
            },
            None => {
                contacts.push(page[i].duplicate());
                proof {
                    assert(contacts@[before.len() as int].jid@ == page@[i as int].jid@);
                    assert forall|k: int| 0 <= k < i + 1 implies lists_jid(
                        contacts@,
                        #[trigger] page@[k].jid@,
                    ) by {
                        if k < i {
                            let w = choose|w: int|
                                0 <= w < before.len() && before[w].jid@ == page@[k].jid@;
                            assert(contacts@[w] == before[w]);
                        }
                    }
                }
            },
        }
    }
    assert(page@.take(page@.len() as int) == page@);
}

/// The steps of the new-chat panel.
#[derive(PartialEq, Eq, Structural)]
pub enum NewChatMode {
    Direct,
    GroupParticipants,
    GroupSubject,
    AddGroupMembers,
}

/// What stepping back asks of the window.
pub enum BackStep {
    /// Nothing more.
    Stay,
    /// Put the focus on the contact search.
    FocusSearch,
    /// Close the new-chat panel.
    ClosePanel,
}

/// The participant picker of the new-group flow.
pub struct GroupPicker {
    pub mode: NewChatMode,
    pub participants: Vec<ContactSummary>,
    pub error: Option<String>,
    pub uncertain: bool,
    pub creating: bool,
}

impl GroupPicker {
    /// At most [`GROUP_INVITEE_MAX`] participants, each account once.
    pub open spec fn wf(&self) -> bool {
        self.participants@.len() <= GROUP_INVITEE_MAX && distinct_jids(self.participants@)
    }

    /// Starts picking the people of a new group.
    pub fn begin(&mut self)
        ensures
            final(self).wf(),
            final(self).mode == NewChatMode::GroupParticipants,
            final(self).participants@.len() == 0,
            final(self).error is None,
            !final(self).uncertain,
            !final(self).creating,
    {
        self.mode = NewChatMode::GroupParticipants;
        self.participants = Vec::new();
        self.error = None;
        self.creating = false;
        self.uncertain = false;
    }

    /// Picks `contact`, or drops it when picked already; a full group
    /// refuses more, with a message.
    pub fn toggle(&mut self, contact: ContactSummary)
        requires
            old(self).wf(),
        ensures
            final(self).wf(),
            !final(self).uncertain,
            final(self).mode == old(self).mode,
            final(self).creating == old(self).creating,
            lists_jid(old(self).participants@, contact.jid@) ==> ({
                let i = choose|i: int|
                    0 <= i < old(self).participants@.len() && old(self).participants@[i].jid@
                        == contact.jid@;
                final(self).participants@ == old(self).participants@.remove(i)
            }) && final(self).error == old(self).error,
            !lists_jid(old(self).participants@, contact.jid@) && old(self).participants@.len()
                < GROUP_INVITEE_MAX ==> final(self).participants@ == old(self).participants@.push(
                contact,
            ) && final(self).error == old(self).error,
            !lists_jid(old(self).participants@, contact.jid@) && old(self).participants@.len()
                >= GROUP_INVITEE_MAX ==> final(self).participants@ == old(self).participants@
                && string_view(final(self).error) == Some(
                "A group can include up to 256 invited participants."@,
            ),
    {
        match position_of(self.participants.as_slice(), contact.jid.as_str()) {
            Some(i) => {
                proof {
                    let ps = self.participants@;
                    let k = choose|k: int| 0 <= k < ps.len() && ps[k].jid@ == contact.jid@;
                    if k != i {
                        assert(ps[k].jid@ == ps[i as int].jid@);
                    }
                }
                self.participants.remove(i);
                proof {
                    let ps = old(self).participants@;
                    assert forall|a: int, b: int|
                        0 <= a < b < self.participants@.len() implies self.participants@[a].jid@
                        != self.participants@[b].jid@ by {
                        let a2 = if a < i { a } else { a + 1 };
                        let b2 = if b < i { b } else { b + 1 };
                        assert(self.participants@[a] == ps[a2]);
                        assert(self.participants@[b] == ps[b2]);
                    }
                }
            },
            None => {
                if self.participants.len() < GROUP_INVITEE_MAX {
                    let ghost ps = self.participants@;
                    let ghost cj = contact.jid@;
                    self.participants.push(contact);
                    proof {
                        assert forall|a: int, b: int|
                            0 <= a < b < self.participants@.len() implies self.participants@[a].jid@
                            != self.participants@[b].jid@ by {
                            if b == ps.len() {
                                assert(self.participants@[a] == ps[a]);
                            } else {
                                assert(self.participants@[a] == ps[a]);
                                assert(self.participants@[b] == ps[b]);
                            }
                        }
                    }
                } else {
                    self.error = Some(String::from_str("A group can include up to 256 invited participants."));
                }
            },
        }
        self.uncertain = false;
    }

    /// Goes on to naming the group once someone is picked; otherwise says
    /// that someone must be. Whether it went on.
    pub fn go_on(&mut self) -> (r: bool)
        ensures
            r == (old(self).participants@.len() > 0),
            final(self).participants@ == old(self).participants@,
            r ==> final(self).mode == NewChatMode::GroupSubject && final(self).error is None
                && !final(self).uncertain,
            !r ==> final(self).mode == old(self).mode && final(self).uncertain == old(self).uncertain
                && string_view(final(self).error) == Some("Select at least one participant."@),
    {
        if self.participants.len() == 0 {
            self.error = Some(String::from_str("Select at least one participant."));
            return false;
        }
        self.mode = NewChatMode::GroupSubject;
        self.error = None;
        self.uncertain = false;
        true
    }

    /// Steps back: nothing while a group is being created; from naming to
    /// picking, from picking to a direct chat (the picks dropped), and out
    /// of adding members altogether.
    pub fn back(&mut self) -> (r: BackStep)
        requires
            old(self).wf(),
        ensures
            final(self).wf(),
            old(self).creating ==> r is Stay && final(self).mode == old(self).mode
                && final(self).participants@ == old(self).participants@,
            !old(self).creating ==> final(self).error is None && !final(self).uncertain && match old(
                self,
            ).mode {
                NewChatMode::GroupSubject => r is FocusSearch && final(self).mode
                    == NewChatMode::GroupParticipants && final(self).participants@ == old(
                    self,
                ).participants@,
                NewChatMode::GroupParticipants => r is Stay && final(self).mode == NewChatMode::Direct
                    && final(self).participants@.len() == 0,
                NewChatMode::AddGroupMembers => r is ClosePanel && final(self).mode == old(self).mode
                    && final(self).participants@ == old(self).participants@,
                NewChatMode::Direct => r is Stay && final(self).mode == old(self).mode
                    && final(self).participants@ == old(self).participants@,
            },
    {
        if self.creating {
            return BackStep::Stay;
        }
        self.error = None;
        self.uncertain = false;
        match self.mode {
            NewChatMode::GroupSubject => {
                self.mode = NewChatMode::GroupParticipants;
                BackStep::FocusSearch
            },
            NewChatMode::GroupParticipants => {
                self.mode = NewChatMode::Direct;
                self.participants = Vec::new();
                BackStep::Stay
            },
            NewChatMode::AddGroupMembers => BackStep::ClosePanel,
            NewChatMode::Direct => BackStep::Stay,
        }
    }
}

/// Picking someone not yet picked and then toggling them again leaves the
/// picks as they were (below the limit, where the pick is taken).
pub proof fn law_toggling_twice_restores_the_picks(ps: Seq<ContactSummary>, c: ContactSummary)
    requires
        ps.len() < GROUP_INVITEE_MAX,
        distinct_jids(ps),
        !lists_jid(ps, c.jid@),
    ensures
        lists_jid(ps.push(c), c.jid@),
        ({
            let added = ps.push(c);
            let i = choose|i: int| 0 <= i < added.len() && added[i].jid@ == c.jid@;
            added.remove(i) == ps
        }),
{
    let added = ps.push(c);
    assert(added[ps.len() as int].jid@ == c.jid@);
    let i = choose|i: int| 0 <= i < added.len() && added[i].jid@ == c.jid@;
    if i < ps.len() {
        assert(added[i] == ps[i]);
    }
    assert(added.remove(ps.len() as int) =~= ps);
}

/// The title of the new-chat panel in each step.
pub fn new_chat_title(mode: NewChatMode) -> (r: &'static str)
    ensures
        r@ == match mode {
            NewChatMode::GroupParticipants => "Add group members"@,
            NewChatMode::AddGroupMembers => "Add members"@,
            NewChatMode::GroupSubject => "New group"@,
            NewChatMode::Direct => "New chat"@,
        },
{
    match mode {
        NewChatMode::GroupParticipants => "Add group members",
        NewChatMode::AddGroupMembers => "Add members",
        NewChatMode::GroupSubject => "New group",
        NewChatMode::Direct => "New chat",
    }
}

/// The line above the new-group button: the last error, or a reminder
/// that nothing is sent before confirming.
pub fn group_footer_note(error: Option<&str>) -> (r: String)
    ensures
        r@ == match error {
            Some(e) => e@,
            None => "Group membership is sent only after you confirm."@,
        },
{
    match error {
        Some(e) => e.to_string(),
        None => String::from_str("Group membership is sent only after you confirm."),
    }
}

/// The naming step: the counter under the name field (characters of the
/// trimmed name out of `max_chars`), the button's words, and whether it
/// creates: only with a trimmed name of 1 to `max_chars` characters, while
/// not creating already and not after an unconfirmed attempt.
pub fn subject_step_state(subject: &str, max_chars: usize, creating: bool, uncertain: bool) -> (r: (
    String,
    &'static str,
    bool,
))
    ensures
        ({
            let t = text::trimmed(subject@);
            &&& r.0@ == text::decimal(t.len()) + " / "@ + text::decimal(max_chars as nat)
                + " characters"@
            &&& r.1@ == (if creating { "Creating…"@ } else { "Create group"@ })
            &&& r.2 == (t.len() > 0 && t.len() <= max_chars && !creating && !uncertain)
        }),
{
    let chars = text::chars_of(subject);
    let (a, b) = text::trim_bounds(chars.as_slice());
    let n = b - a;
    let mut counter = String::new();
    text::push_decimal(&mut counter, n as u128);
    text::push_str(&mut counter, " / ");
    text::push_decimal(&mut counter, max_chars as u128);
    text::push_str(&mut counter, " characters");
    let label = if creating {
        "Creating…"
    } else {
        "Create group"
    };
    (counter, label, n > 0 && n <= max_chars && !creating && !uncertain)
}

/// The contact list's single notice in the picking step, as title and
/// detail: an error, loading with nothing listed, or no contact to offer
/// (worded for adding to an existing group); `None` when contacts are
/// listed.
pub fn participant_list_notice(
    error: Option<&str>,
    listed: usize,
    loading: bool,
    offered: usize,
    adding_to_existing_group: bool,
) -> (r: Option<(&'static str, String)>)
    ensures
        match r {
            Some(n) => if error is Some {
                n.0@ == "Contacts unavailable"@ && Some(n.1@) == str_view(error)
            } else if listed == 0 && loading {
                n.0@ == "Loading contacts…"@ && n.1@ == "Reading the encrypted local account cache"@
            } else {
                offered == 0 && if adding_to_existing_group {
                    n.0@ == "No new contacts found"@ && n.1@
                        == "Everyone in these results is already in the group. Try another name."@
                } else {
                    n.0@ == "No contacts found"@ && n.1@
                        == "Try another name or wait for contact synchronization."@
                }
            },
            None => error is None && !(listed == 0 && loading) && offered > 0,
        },
{
    if let Some(e) = error {
        return Some(("Contacts unavailable", e.to_string()));
    }
    if listed == 0 && loading {
        return Some(("Loading contacts…", String::from_str("Reading the encrypted local account cache")));
    }
    if offered == 0 {
        if adding_to_existing_group {
            return Some(
                (
                    "No new contacts found",
                    String::from_str("Everyone in these results is already in the group. Try another name."),
                ),
            );
        } else {
            return Some(("No contacts found", String::from_str("Try another name or wait for contact synchronization.")));
        }
    }
    None
}

/// The new-chat contact list's single notice, as title and detail: an
/// error, loading with nothing listed, or an empty list (worded by whether
/// a search was typed and whether the session is connected); `None` when
/// contacts are listed.
pub fn new_chat_notice(error: Option<&str>, listed: usize, loading: bool, query: &str, connected: bool) -> (r:
    Option<(&'static str, String)>)
    ensures
        match r {
            Some(n) => if error is Some {
                n.0@ == "Contacts unavailable"@ && Some(n.1@) == str_view(error)
            } else if listed == 0 && loading {
                n.0@ == "Loading contacts…"@ && n.1@ == "Reading the encrypted local account cache"@
            } else {
                listed == 0 && if text::trimmed(query@).len() > 0 {
                    n.0@ == "No matching contacts"@ && n.1@ == "Try a saved name or complete phone number."@
                } else if connected {
                    n.0@ == "No contacts found"@ && n.1@
                        == "Contact names will appear as account synchronization completes."@
                } else {
                    n.0@ == "No cached contacts"@ && n.1@
                        == "Reconnect to refresh the address book for this linked account."@
                }
            },
            None => error is None && listed > 0,
        },
{
    if let Some(e) = error {
        return Some(("Contacts unavailable", e.to_string()));
    }
    if listed == 0 && loading {
        return Some(("Loading contacts…", String::from_str("Reading the encrypted local account cache")));
    }
    if listed > 0 {
        return None;
    }
    let chars = text::chars_of(query);
    let (a, b) = text::trim_bounds(chars.as_slice());
    if b > a {
        Some(("No matching contacts", String::from_str("Try a saved name or complete phone number.")))
    } else if connected {
        Some(("No contacts found", String::from_str("Contact names will appear as account synchronization completes.")))
    } else {
        Some(("No cached contacts", String::from_str("Reconnect to refresh the address book for this linked account.")))
    }
}

/// What follows a listed page of contacts.
#[derive(PartialEq, Eq, Structural)]
pub enum ContactListTail {
    /// A further page is loading.
    LoadingMore,
    /// A row that loads the next page.
    LoadMore,
    Nothing,
}

/// What follows the listed contacts: a loading line, a load-more row when
/// a further page exists, or nothing.
pub fn contact_list_tail(loading: bool, has_next: bool) -> (r: ContactListTail)
    ensures
        r == (if loading {
            ContactListTail::LoadingMore
        } else if has_next {
            ContactListTail::LoadMore
        } else {
            ContactListTail::Nothing
        }),
{
    if loading {
        ContactListTail::LoadingMore
    } else if has_next {
        ContactListTail::LoadMore
    } else {
        ContactListTail::Nothing
    }
}

} // verus!
