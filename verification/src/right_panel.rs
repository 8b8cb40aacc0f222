//! Contact and group info panel: the chat-sync toggles, destructive chat
//! actions, and when a contact's JID is its bare phone number.

use vstd::prelude::*;
use crate::conversation::ChatAction;
use crate::model::{ChatKind, ChatSummary};
use crate::chat_state::{chat_index, chat_index_spec, lemma_chat_index_spec, lemma_chat_index_spec_none};
use crate::text;

verus! {

/// Whether `jid` is `<phone>@s.whatsapp.net` for the contact's own phone
/// number, with no device suffix.
pub open spec fn is_bare_phone_jid(jid: Seq<char>, phone: Option<Seq<char>>) -> bool {
    match phone {
        Some(p) => {
            let user = text::before_first(jid, '@');
            &&& user.len() < jid.len()
            &&& jid.skip(user.len() + 1int) == "s.whatsapp.net"@
            &&& !user.contains(':')
            &&& user == p
        },
        None => false,
    }
}

/// The contact's JID when it is its bare phone-number JID.
pub fn bare_phone_jid(jid: &str, phone_number: Option<&str>) -> (r: Option<String>)
    ensures
        r is Some <==> is_bare_phone_jid(jid@, match phone_number {
            Some(p) => Some(p@),
            None => None,
        }),
        r matches Some(s) ==> s@ == jid@,
{
    let phone = match phone_number {
        Some(p) => p,
        None => {
            return None;
        },
    };
    let v = text::chars_of(jid);
    let user = text::prefix_before(v.as_slice(), '@');
    proof {
        lemma_before_first_prefix(v@, '@');
    }
    if user.len() >= v.len() {
        return None;
    }
    let mut server: Vec<char> = Vec::new();
    let mut k = user.len() + 1;
    while k < v.len()
        invariant
            user@.len() + 1 <= k <= v@.len(),
            server@ == v@.subrange(user@.len() + 1int, k as int),
        decreases v@.len() - k,
    {
        server.push(v[k]);
        assert(v@.subrange(user@.len() + 1int, k + 1) == v@.subrange(user@.len() + 1int, k as int).push(
            v@[k as int],
        ));
        k = k + 1;
    }
    assert(v@.skip(user@.len() + 1int) == v@.subrange(user@.len() + 1int, v@.len() as int));
    let expected = text::chars_of("s.whatsapp.net");
    if !text::same_chars(server.as_slice(), expected.as_slice()) {
        return None;
    }
    let mut i: usize = 0;
    while i < user.len()
        invariant
            i <= user@.len(),
            forall|j: int| 0 <= j < i ==> user@[j] != ':',
            user@ == text::before_first(jid@, '@'),
            phone_number == Some(phone),
        decreases user@.len() - i,
    {
        if user[i] == ':' {
            assert(user@.contains(':'));
            return None;
        }
        i = i + 1;
    }
    let p = text::chars_of(phone);
    if !text::same_chars(user.as_slice(), p.as_slice()) {
        return None;
    }
    Some(jid.to_owned())
}

proof fn lemma_before_first_prefix(s: Seq<char>, c: char)
    ensures
        text::before_first(s, c).len() <= s.len(),
        text::before_first(s, c) == s.take(text::before_first(s, c).len() as int),
        text::before_first(s, c).len() < s.len() ==> s[text::before_first(s, c).len() as int]
            == c,
    decreases s.len(),
{
    if s.len() > 0 && s[0] != c {
        lemma_before_first_prefix(s.drop_first(), c);
        let b = text::before_first(s.drop_first(), c);
        assert(seq![s[0]] + s.drop_first().take(b.len() as int) == s.take(b.len() + 1int));
    }
}

/// A toggle of the chat-sync section.
#[derive(Clone, Copy, Debug, PartialEq, Eq, Structural)]
pub enum ChatSyncAction {
    Pin,
    Mute,
    Archive,
    MarkRead,
}

/// Whether the toggle is currently on for the chat's summary (absent
/// summary: off). A mute is on while it has no end (0) or ends after now.
pub open spec fn sync_enabled(kind: ChatSyncAction, summary: Option<&ChatSummary>, now_ms: i64) -> bool {
    match summary {
        None => false,
        Some(c) => match kind {
            ChatSyncAction::Pin => c.pinned_at_ms is Some,
            ChatSyncAction::Mute => match c.muted_until_ms {
                Some(until) => until == 0 || until > now_ms,
                None => false,
            },
            ChatSyncAction::Archive => c.archived,
            ChatSyncAction::MarkRead => c.unread_count != 0,
        },
    }
}

/// Label, state, state text and the action a toggle row carries.
pub struct SyncToggle {
    pub label: &'static str,
    pub enabled: bool,
    pub detail: &'static str,
    pub action: ChatAction,
}

/// The toggle row of a chat-sync setting for the selected chat.
pub fn chat_sync_toggle(
    kind: ChatSyncAction,
    summary: Option<&ChatSummary>,
    selected: &str,
    now_ms: i64,
) -> (r: SyncToggle)
    ensures
        r.enabled == sync_enabled(kind, summary, now_ms),
        kind == ChatSyncAction::Pin ==> {
            &&& r.label@ == "Pin chat"@
            &&& r.detail@ == (if r.enabled { "On"@ } else { "Off"@ })
            &&& (r.action matches ChatAction::Pin { chat, pinned } && chat@ == selected@ && pinned
                == !r.enabled)
        },
        kind == ChatSyncAction::Mute ==> {
            &&& r.label@ == "Mute notifications"@
            &&& r.detail@ == (if r.enabled { "On"@ } else { "Off"@ })
            &&& (r.action matches ChatAction::Mute { chat, muted } && chat@ == selected@ && muted
                == !r.enabled)
        },
        kind == ChatSyncAction::Archive ==> {
            &&& r.label@ == (if r.enabled { "Unarchive chat"@ } else { "Archive chat"@ })
            &&& r.detail@ == (if r.enabled { "Archived"@ } else { "Active"@ })
            &&& (r.action matches ChatAction::Archive { chat, archived } && chat@ == selected@
                && archived == !r.enabled)
        },
        kind == ChatSyncAction::MarkRead ==> {
            &&& r.label@ == (if r.enabled { "Mark as read"@ } else { "Mark as unread"@ })
            &&& r.detail@ == (if r.enabled { "Unread"@ } else { "Read"@ })
            &&& (r.action matches ChatAction::MarkRead { chat, read } && chat@ == selected@ && read
                == r.enabled)
        },
{
    let chat = selected.to_owned();
    match kind {
        ChatSyncAction::Pin => {
            let enabled = match summary {
                Some(c) => c.pinned_at_ms.is_some(),
                None => false,
            };
            SyncToggle {
                label: "Pin chat",
                enabled,
                detail: if enabled {
                    "On"
                } else {
                    "Off"
                },
                action: ChatAction::Pin { chat, pinned: !enabled },
            }
        },
        ChatSyncAction::Mute => {
            let enabled = match summary {
                Some(c) => match c.muted_until_ms {
                    Some(until) => until == 0 || until > now_ms,
                    None => false,
                },
                None => false,
            };
            SyncToggle {
                label: "Mute notifications",
                enabled,
                detail: if enabled {
                    "On"
                } else {
                    "Off"
                },
                action: ChatAction::Mute { chat, muted: !enabled },
            }
        },
        ChatSyncAction::Archive => {
            let enabled = match summary {
                Some(c) => c.archived,
                None => false,
            };
            SyncToggle {
                label: if enabled {
                    "Unarchive chat"
                } else {
                    "Archive chat"
                },
                enabled,
                detail: if enabled {
                    "Archived"
                } else {
                    "Active"
                },
                action: ChatAction::Archive { chat, archived: !enabled },
            }
        },
        ChatSyncAction::MarkRead => {
            let enabled = match summary {
                Some(c) => c.unread_count != 0,
                None => false,
            };
            SyncToggle {
                label: if enabled {
                    "Mark as read"
                } else {
                    "Mark as unread"
                },
                enabled,
                detail: if enabled {
                    "Unread"
                } else {
                    "Read"
                },
                action: ChatAction::MarkRead { chat, read: enabled },
            }
        },
    }
}

/// The summary of the selected chat, if it is listed.
pub fn find_chat<'a>(chats: &'a [ChatSummary], selected: &str) -> (r: Option<&'a ChatSummary>)
    ensures
        match r {
            Some(c) => exists|i: int|
                0 <= i < chats@.len() && chats@[i] == *c && c.id@ == selected@ && forall|j: int|
                    0 <= j < i ==> (#[trigger] chats@[j]).id@ != selected@,
            None => forall|j: int| 0 <= j < chats@.len() ==> (#[trigger] chats@[j]).id@ != selected@,
        },
{
    let mut i: usize = 0;
    while i < chats.len()
        invariant
            i <= chats@.len(),
            forall|j: int| 0 <= j < i ==> (#[trigger] chats@[j]).id@ != selected@,
        decreases chats@.len() - i,
    {
        if text::same_text(chats[i].id.as_str(), selected) {
            return Some(&chats[i]);
        }
        i = i + 1;
    }
    None
}

/// A destructive chat action offered in the panel.
#[derive(Clone, Copy, Debug, PartialEq, Eq, Structural)]
pub enum DestructiveChatAction {
    Clear,
    Delete,
}

/// Element id, label, and the (unconfirmed) action of a destructive row;
/// while the chat already has one pending the row reads "Working…" and
/// cannot be used.
pub fn destructive_row(kind: DestructiveChatAction, selected: &str, pending: bool) -> (r: (
    &'static str,
    &'static str,
    Option<ChatAction>,
))
    ensures
        kind == DestructiveChatAction::Clear ==> r.0@ == "clear-chat"@,
        kind == DestructiveChatAction::Delete ==> r.0@ == "delete-chat"@,
        pending ==> r.1@ == "Working…"@ && r.2 is None,
        !pending && kind == DestructiveChatAction::Clear ==> r.1@ == "Clear messages…"@ && (
        r.2 matches Some(ChatAction::Clear { chat, delete_starred, delete_media }) && chat@
            == selected@ && !delete_starred && !delete_media),
        !pending && kind == DestructiveChatAction::Delete ==> r.1@ == "Delete chat…"@ && (
        r.2 matches Some(ChatAction::Delete { chat, delete_media }) && chat@ == selected@
            && !delete_media),
{
    let chat = selected.to_owned();
    let (id, label, action) = match kind {
        DestructiveChatAction::Clear => (
            "clear-chat",
            "Clear messages…",
            ChatAction::Clear { chat, delete_starred: false, delete_media: false },
        ),
        DestructiveChatAction::Delete => (
            "delete-chat",
            "Delete chat…",
            ChatAction::Delete { chat, delete_media: false },
        ),
    };
    if pending {
        (id, "Working…", None)
    } else {
        (id, label, Some(action))
    }
}

/// The "Leave group" row: its label, and whether it can be used (not while
/// a group change runs or a leave's outcome is unknown).
pub fn leave_group_row(pending: bool, leave_uncertain: bool) -> (r: (&'static str, bool))
    ensures
        r.1 == (!pending && !leave_uncertain),
        pending ==> r.0@ == "Working…"@,
        !pending && leave_uncertain ==> r.0@ == "Reopen group info to confirm leave status"@,
        !pending && !leave_uncertain ==> r.0@ == "Leave group"@,
{
    let label = if pending {
        "Working…"
    } else if leave_uncertain {
        "Reopen group info to confirm leave status"
    } else {
        "Leave group"
    };
    (label, !pending && !leave_uncertain)
}

/// The state shown on the "Favorite" row of the selected chat.
pub fn favorite_detail(chats: &[ChatSummary], selected: Option<&str>) -> (r: &'static str)
    ensures
        r@ == (if (selected matches Some(s) && exists|i: int|
            0 <= i < chats@.len() && chats@[i].id@ == s@ && chats@[i].favorite && forall|j: int|
                0 <= j < i ==> chats@[j].id@ != s@) {
            "On this device"@
        } else {
            "Off"@
        }),
{
    let favorite = match selected {
        Some(s) => match find_chat(chats, s) {
            Some(c) => c.favorite,
            None => false,
        },
        None => false,
    };
    if favorite {
        "On this device"
    } else {
        "Off"
    }
}

/// What a contact-management row does.
#[derive(Debug)]
pub enum ContactAction {
    Block { jid: String },
    Unblock { jid: String },
    Remove { jid: String },
}

/// A contact-management row: element id, label, whether it can be used,
/// and its (unconfirmed) action.
pub struct ContactRow {
    pub id: &'static str,
    pub label: &'static str,
    pub enabled: bool,
    pub action: ContactAction,
}

/// The block row of a contact whose block state is known: unblock a
/// blocked contact, block another; usable while connected and no contact
/// change runs.
pub fn contact_block_row(jid: &str, blocked: bool, pending: bool, connected: bool) -> (r: ContactRow)
    ensures
        r.enabled == (connected && !pending),
        r.id@ == (if blocked {
            "unblock-contact"@
        } else {
            "block-contact"@
        }),
        r.label@ == (if pending {
            "Working…"@
        } else if blocked {
            "Unblock…"@
        } else {
            "Block…"@
        }),
        blocked ==> (r.action matches ContactAction::Unblock { jid: j } && j@ == jid@),
        !blocked ==> (r.action matches ContactAction::Block { jid: j } && j@ == jid@),
{
    let action = if blocked {
        ContactAction::Unblock { jid: jid.to_owned() }
    } else {
        ContactAction::Block { jid: jid.to_owned() }
    };
    let id = if blocked {
        "unblock-contact"
    } else {
        "block-contact"
    };
    let label = if pending {
        "Working…"
    } else if blocked {
        "Unblock…"
    } else {
        "Block…"
    };
    ContactRow { id, label, enabled: connected && !pending, action }
}

/// The "delete contact" row, offered only for a contact saved under its own
/// phone number (its bare phone JID).
pub fn contact_remove_row(jid: &str, phone_number: Option<&str>, pending: bool, connected: bool) -> (r:
    Option<ContactRow>)
    ensures
        r is Some <==> is_bare_phone_jid(
            jid@,
            match phone_number {
                Some(p) => Some(p@),
                None => None,
            },
        ),
        r matches Some(row) ==> {
            &&& row.id@ == "delete-contact"@
            &&& row.label@ == (if pending {
                "Working…"@
            } else {
                "Delete contact…"@
            })
            &&& row.enabled == (connected && !pending)
            &&& row.action matches ContactAction::Remove { jid: j } && j@ == jid@
        },
{
    match bare_phone_jid(jid, phone_number) {
        Some(j) => Some(
            ContactRow {
                id: "delete-contact",
                label: if pending {
                    "Working…"
                } else {
                    "Delete contact…"
                },
                enabled: connected && !pending,
                action: ContactAction::Remove { jid: j },
            },
        ),
        None => None,
    }
}

/// What opening the details of the selected chat asks for.
pub enum DetailsLoad {
    /// No listed chat is selected.
    Unavailable,
    /// Load the group's details.
    Group { chat: String },
    /// Load the contact's details.
    Direct { chat: String },
    /// No details exist for this kind of chat.
    Unsupported,
}

/// The words shown when no listed chat is selected.
pub open spec fn details_unavailable() -> Seq<char> {
    "Conversation information is unavailable"@
}

/// The words shown for a chat kind without details.
pub open spec fn details_unsupported() -> Seq<char> {
    "Information is not available for this conversation type"@
}

/// What loading the details of the selected chat (its first listed row)
/// asks for, by the kind of that chat.
pub fn plan_details_load(chats: &[ChatSummary], selected: Option<&str>) -> (r: DetailsLoad)
    ensures
        match selected {
            None => r is Unavailable,
            Some(s) => match chat_index_spec(chats@, s@) {
                None => r is Unavailable,
                Some(i) => match chats@[i as int].kind {
                    ChatKind::Group => r matches DetailsLoad::Group { chat } && chat@ == s@,
                    ChatKind::Direct => r matches DetailsLoad::Direct { chat } && chat@ == s@,
                    _ => r is Unsupported,
                },
            },
        },
{
    let s = match selected {
        Some(s) => s,
        None => {
            return DetailsLoad::Unavailable;
        },
    };
    match chat_index(chats, s) {
        Some(i) => {
            proof {
                lemma_chat_index_spec(chats@, s@, i as int);
            }
            match chats[i].kind {
                ChatKind::Group => DetailsLoad::Group { chat: s.to_string() },
                ChatKind::Direct => DetailsLoad::Direct { chat: s.to_string() },
                _ => DetailsLoad::Unsupported,
            }
        },
        None => {
            proof {
                lemma_chat_index_spec_none(chats@, s@);
            }
            DetailsLoad::Unavailable
        },
    }
}

/// The message shown instead of details that could not be loaded.
pub fn details_load_error(plan: &DetailsLoad) -> (r: Option<&'static str>)
    ensures
        match plan {
            DetailsLoad::Unavailable => r matches Some(t) && t@ == details_unavailable(),
            DetailsLoad::Unsupported => r matches Some(t) && t@ == details_unsupported(),
            _ => r is None,
        },
{
    match plan {
        DetailsLoad::Unavailable => Some("Conversation information is unavailable"),
        DetailsLoad::Unsupported => Some("Information is not available for this conversation type"),
        _ => None,
    }
}

/// Whether the pending join requests of a group are loaded: only for a
/// group whose members the user manages, with the panel open and the
/// session connected (otherwise the list is cleared).
pub fn membership_requests_wanted(is_group: bool, can_manage_members: bool, panel_open: bool, connected: bool) -> (r: bool)
    ensures
        r == (is_group && can_manage_members && panel_open && connected),
{
    is_group && can_manage_members && panel_open && connected
}

} // verus!
