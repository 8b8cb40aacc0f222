//! Optimistic chat-row updates: a quick action (pin, mute, archive, mark
//! read) shows at once and is rolled back if the session refuses it; and
//! what a chat's saved draft and its list preview hold.

use vstd::prelude::*;
use crate::conversation::ChatAction;
use crate::model::{ChatKind, ChatSummary};
use crate::text;

verus! {

/// The fields of a chat row that quick actions change.
#[derive(Clone, Copy, Debug, PartialEq, Eq, Structural)]
pub struct ChatFlags {
    pub pinned_at_ms: Option<i64>,
    pub muted_until_ms: Option<i64>,
    pub archived: bool,
    pub unread_count: i64,
}

/// The quick-action fields of a row.
pub open spec fn flags_of(c: ChatSummary) -> ChatFlags {
    ChatFlags {
        pinned_at_ms: c.pinned_at_ms,
        muted_until_ms: c.muted_until_ms,
        archived: c.archived,
        unread_count: c.unread_count,
    }
}

/// The row `c` with its quick-action fields set to `f`.
pub open spec fn with_flags(c: ChatSummary, f: ChatFlags) -> ChatSummary {
    ChatSummary {
        pinned_at_ms: f.pinned_at_ms,
        muted_until_ms: f.muted_until_ms,
        archived: f.archived,
        unread_count: f.unread_count,
        ..c
    }
}

/// The flags a quick action shows before the session confirms it: pinning
/// stamps the current time, muting mutes until the end of time, marking
/// unread shows the unread dot (`-1`). Destructive actions change nothing
/// here.
pub open spec fn optimistic_flags(f: ChatFlags, action: ChatAction, now_ms: i64) -> ChatFlags {
    match action {
        ChatAction::Pin { pinned, .. } => ChatFlags {
            pinned_at_ms: if pinned {
                Some(now_ms)
            } else {
                None
            },
            ..f
        },
        ChatAction::Mute { muted, .. } => ChatFlags {
            muted_until_ms: if muted {
                Some(i64::MAX)
            } else {
                None
            },
            ..f
        },
        ChatAction::Archive { archived, .. } => ChatFlags { archived, ..f },
        ChatAction::MarkRead { read, .. } => ChatFlags {
            unread_count: if read {
                0i64
            } else {
                -1i64
            },
            ..f
        },
        _ => f,
    }
}

/// What a quick action shows at once: pinning pins the row at the current
/// time and unpinning unpins it; muting mutes it for good and unmuting
/// unmutes it; archiving and unarchiving set the archive mark as asked;
/// marking read clears the unread count and marking unread shows the
/// unread dot (`-1`). Each leaves the other flags as they were.
pub proof fn law_quick_actions_show_what_was_asked(
    f: ChatFlags,
    chat: String,
    flag: bool,
    now_ms: i64,
)
    ensures
        ({
            let r = optimistic_flags(f, ChatAction::Pin { chat, pinned: flag }, now_ms);
            &&& (r.pinned_at_ms is Some) == flag
            &&& flag ==> r.pinned_at_ms == Some(now_ms)
            &&& r.muted_until_ms == f.muted_until_ms && r.archived == f.archived
            &&& r.unread_count == f.unread_count
        }),
        ({
            let r = optimistic_flags(f, ChatAction::Mute { chat, muted: flag }, now_ms);
            &&& (r.muted_until_ms is Some) == flag
            &&& flag ==> r.muted_until_ms == Some(i64::MAX)
            &&& r.pinned_at_ms == f.pinned_at_ms && r.archived == f.archived
            &&& r.unread_count == f.unread_count
        }),
        ({
            let r = optimistic_flags(f, ChatAction::Archive { chat, archived: flag }, now_ms);
            &&& r.archived == flag
            &&& r.pinned_at_ms == f.pinned_at_ms && r.muted_until_ms == f.muted_until_ms
            &&& r.unread_count == f.unread_count
        }),
        ({
            let r = optimistic_flags(f, ChatAction::MarkRead { chat, read: flag }, now_ms);
            &&& r.unread_count == (if flag { 0i64 } else { -1i64 })
            &&& r.pinned_at_ms == f.pinned_at_ms && r.muted_until_ms == f.muted_until_ms
            &&& r.archived == f.archived
        }),
{
}

/// Shows a quick action on its row at once and returns the flags it had,
/// for a rollback.
pub fn apply_quick_action(chat: &mut ChatSummary, action: &ChatAction, now_ms: i64) -> (previous:
    ChatFlags)
    ensures
        previous == flags_of(*old(chat)),
        *final(chat) == with_flags(*old(chat), optimistic_flags(previous, *action, now_ms)),
{
    let previous = ChatFlags {
        pinned_at_ms: chat.pinned_at_ms,
        muted_until_ms: chat.muted_until_ms,
        archived: chat.archived,
        unread_count: chat.unread_count,
    };
    match action {
        ChatAction::Pin { pinned, .. } => {
            chat.pinned_at_ms = if *pinned {
                Some(now_ms)
            } else {
                None
            };
        },
        ChatAction::Mute { muted, .. } => {
            chat.muted_until_ms = if *muted {
                Some(i64::MAX)
            } else {
                None
            };
        },
        ChatAction::Archive { archived, .. } => {
            chat.archived = *archived;
        },
        ChatAction::MarkRead { read, .. } => {
            chat.unread_count = if *read {
                0
            } else {
                -1
            };
        },
        _ => {},
    }
    previous
}

/// Puts back the flags a refused quick action replaced.
pub fn restore_flags(chat: &mut ChatSummary, previous: ChatFlags)
    ensures
        *final(chat) == with_flags(*old(chat), previous),
{
    chat.pinned_at_ms = previous.pinned_at_ms;
    chat.muted_until_ms = previous.muted_until_ms;
    chat.archived = previous.archived;
    chat.unread_count = previous.unread_count;
}

/// A refused quick action leaves its row exactly as it was: restoring the
/// flags returned by the optimistic update undoes it.
pub proof fn law_rollback_undoes_quick_action(c: ChatSummary, action: ChatAction, now_ms: i64)
    ensures
        with_flags(with_flags(c, optimistic_flags(flags_of(c), action, now_ms)), flags_of(c)) == c,
{
}

/// The index of the chat `id` in the list.
pub fn chat_index(chats: &[ChatSummary], id: &str) -> (r: Option<usize>)
    ensures
        match r {
            Some(i) => i < chats@.len() && chats@[i as int].id@ == id@ && forall|j: int|
                0 <= j < i ==> (#[trigger] chats@[j]).id@ != id@,
            None => forall|j: int| 0 <= j < chats@.len() ==> (#[trigger] chats@[j]).id@ != id@,
        },
{
    let mut i: usize = 0;
    while i < chats.len()
        invariant
            i <= chats@.len(),
            forall|j: int| 0 <= j < i ==> (#[trigger] chats@[j]).id@ != id@,
        decreases chats@.len() - i,
    {
        if text::same_text(chats[i].id.as_str(), id) {
            return Some(i);
        }
        i = i + 1;
    }
    None
}

/// The draft line of a chat row: the typed text when there is some, else
/// the staged attachment, else a pending reply.
pub open spec fn draft_line(body: Seq<char>, attachment_name: Option<Seq<char>>, replying: bool) -> Option<
    Seq<char>,
> {
    if text::trimmed(body).len() > 0 {
        Some(body)
    } else {
        match attachment_name {
            Some(n) => Some("Attachment: "@ + n),
            None => if replying {
                Some("Replying to a message"@)
            } else {
                None
            },
        }
    }
}

/// The draft line of a chat row.
pub fn draft_preview(body: &str, attachment_name: Option<&str>, replying: bool) -> (r: Option<String>)
    ensures
        match r {
            Some(s) => draft_line(
                body@,
                match attachment_name {
                    Some(n) => Some(n@),
                    None => None,
                },
                replying,
            ) == Some(s@),
            None => draft_line(
                body@,
                match attachment_name {
                    Some(n) => Some(n@),
                    None => None,
                },
                replying,
            ) is None,
        },
{
    if !text::is_blank(body) {
        return Some(body.to_owned());
    }
    match attachment_name {
        Some(n) => {
            let mut s = String::from_str("Attachment: ");
            text::push_str(&mut s, n);
            Some(s)
        },
        None => if replying {
            Some(String::from_str("Replying to a message"))
        } else {
            None
        },
    }
}

/// Whether a chat keeps a saved draft: it has text, an attachment, a
/// quoted message or an edit in progress; otherwise the draft is cleared.
pub fn keeps_draft(body: &str, has_attachment: bool, replying: bool, editing: bool) -> (r: bool)
    ensures
        r == (text::trimmed(body@).len() > 0 || has_attachment || replying || editing),
{
    !text::is_blank(body) || has_attachment || replying || editing
}

/// What opening a chat involves besides showing it.
#[derive(Debug)]
pub struct OpenChatPlan {
    /// The previously open chat, whose outbound typing indicator must stop.
    pub stop_typing_in: Option<String>,
    /// Fetch the avatar: the chat is a listed direct or group chat.
    pub request_avatar: bool,
    /// Mark the chat read: the window is in front, the session can send,
    /// and the listed chat has unread messages.
    pub mark_read: bool,
    /// Follow the newest messages: the chat opens at its end rather than
    /// around a search result.
    pub near_bottom: bool,
}

/// The first listed chat with this id.
pub open spec fn listed(chats: Seq<ChatSummary>, id: Seq<char>) -> Option<ChatSummary> {
    if exists|i: int| 0 <= i < chats.len() && chats[i].id@ == id {
        let i = choose|i: int|
            0 <= i < chats.len() && chats[i].id@ == id && forall|j: int|
                0 <= j < i ==> chats[j].id@ != id;
        Some(chats[i])
    } else {
        None
    }
}

/// Opening `chat` (at a search result when `anchored`) while `selected`
/// is open; `None` when it is already open and no result is to be shown.
pub fn plan_open_chat(
    selected: Option<&str>,
    chat: &str,
    anchored: bool,
    chats: &[ChatSummary],
    window_active: bool,
    can_send: bool,
) -> (r: Option<OpenChatPlan>)
    ensures
        r is None <==> (!anchored && (selected matches Some(s) && s@ == chat@)),
        r matches Some(p) ==> {
            &&& match selected {
                Some(s) => if s@ != chat@ {
                    p.stop_typing_in matches Some(t) && t@ == s@
                } else {
                    p.stop_typing_in is None
                },
                None => p.stop_typing_in is None,
            }
            &&& p.request_avatar == (listed(chats@, chat@) matches Some(c) && (c.kind
                == ChatKind::Direct || c.kind == ChatKind::Group))
            &&& p.mark_read == (window_active && can_send && (listed(chats@, chat@) matches Some(
                c,
            ) && c.unread_count != 0))
            &&& p.near_bottom == !anchored
        },
{
    let same = match selected {
        Some(s) => text::same_text(s, chat),
        None => false,
    };
    if !anchored && same {
        return None;
    }
    let stop_typing_in = match selected {
        Some(s) => if same {
            None
        } else {
            Some(s.to_owned())
        },
        None => None,
    };
    let (request_avatar, unread) = match chat_index(chats, chat) {
        Some(i) => {
            proof {
                assert(chats@[i as int].id@ == chat@);
                let k = choose|k: int|
                    0 <= k < chats@.len() && chats@[k].id@ == chat@ && forall|j: int|
                        0 <= j < k ==> chats@[j].id@ != chat@;
                assert(k == i) by {
                    if k < i {
                        assert(chats@[k].id@ != chat@);
                    } else if k > i {
                        assert(chats@[i as int].id@ != chat@);
                    }
                }
            }
            (
                chats[i].kind == ChatKind::Direct || chats[i].kind == ChatKind::Group,
                chats[i].unread_count != 0,
            )
        },
        None => (false, false),
    };
    Some(
        OpenChatPlan {
            stop_typing_in,
            request_avatar,
            mark_read: window_active && can_send && unread,
            near_bottom: !anchored,
        },
    )
}

/// The row of a cleared chat: no last message, nothing unread.
pub open spec fn cleared(c: ChatSummary) -> ChatSummary {
    ChatSummary { last_message_preview: None, unread_count: 0, ..c }
}

/// The chats other than `id`, in order.
pub open spec fn without_chat(chats: Seq<ChatSummary>, id: Seq<char>) -> Seq<ChatSummary>
    decreases chats.len(),
{
    if chats.len() == 0 {
        seq![]
    } else {
        let p = without_chat(chats.drop_last(), id);
        if chats.last().id@ == id {
            p
        } else {
            p.push(chats.last())
        }
    }
}

/// How the window follows a confirmed clear or delete.
#[derive(Clone, Copy, Debug, PartialEq, Eq, Structural)]
pub struct DestructiveOutcome {
    /// The open timeline was cleared: reload it from empty.
    pub reset_open_timeline: bool,
    /// The open chat was deleted: close it.
    pub close_chat: bool,
}

/// Removes chat `id` from the list.
pub fn remove_chat(chats: &mut Vec<ChatSummary>, id: &str)
    ensures
        final(chats)@ == without_chat(old(chats)@, id@),
{
    let mut rest: Vec<ChatSummary> = Vec::new();
    std::mem::swap(chats, &mut rest);
    let ghost all = rest@;
    let ghost mut k: int = 0;
    while rest.len() > 0
        invariant
            0 <= k <= all.len(),
            rest@ == all.skip(k),
            chats@ == without_chat(all.take(k), id@),
        decreases rest@.len(),
    {
        let c = rest.remove(0);
        proof {
            assert(all.take(k + 1).drop_last() == all.take(k));
            assert(all.take(k + 1).last() == c);
            assert(rest@ == all.skip(k + 1));
            k = k + 1;
        }
        if !text::same_text(c.id.as_str(), id) {
            chats.push(c);
        }
    }
    assert(all.take(all.len() as int) == all);
}

/// Applies a confirmed clear or delete of the chat `action` names to the
/// list, while `selected` is open: a clear empties the chat's row, a
/// delete removes it.
pub fn settle_destructive(chats: &mut Vec<ChatSummary>, action: &ChatAction, selected: Option<&str>) -> (o:
    DestructiveOutcome)
    ensures
        match *action {
            ChatAction::Clear { chat, .. } => {
                &&& o.reset_open_timeline == (selected matches Some(s) && s@ == chat@)
                &&& !o.close_chat
                &&& match chat_index_spec(old(chats)@, chat@) {
                    Some(i) => final(chats)@ == old(chats)@.update(i as int, cleared(old(chats)@[i as int])),
                    None => final(chats)@ == old(chats)@,
                }
            },
            ChatAction::Delete { chat, .. } => {
                &&& !o.reset_open_timeline
                &&& o.close_chat == (selected matches Some(s) && s@ == chat@)
                &&& final(chats)@ == without_chat(old(chats)@, chat@)
            },
            _ => o == DestructiveOutcome { reset_open_timeline: false, close_chat: false }
                && final(chats)@ == old(chats)@,
        },
{
    match action {
        ChatAction::Clear { chat, .. } => {
            if let Some(i) = chat_index(chats.as_slice(), chat.as_str()) {
                proof {
                    lemma_chat_index_spec(chats@, chat@, i as int);
                }
                let mut c = chats.remove(i);
                c.last_message_preview = None;
                c.unread_count = 0;
                chats.insert(i, c);
            } else {
                proof {
                    lemma_chat_index_spec_none(chats@, chat@);
                }
            }
            let open = match selected {
                Some(s) => text::same_text(s, chat.as_str()),
                None => false,
            };
            DestructiveOutcome { reset_open_timeline: open, close_chat: false }
        },
        ChatAction::Delete { chat, .. } => {
            remove_chat(chats, chat.as_str());
            let open = match selected {
                Some(s) => text::same_text(s, chat.as_str()),
                None => false,
            };
            DestructiveOutcome { reset_open_timeline: false, close_chat: open }
        },
        _ => DestructiveOutcome { reset_open_timeline: false, close_chat: false },
    }
}

/// The index of the first chat with this id.
pub open spec fn chat_index_spec(chats: Seq<ChatSummary>, id: Seq<char>) -> Option<nat> {
    if exists|i: int| 0 <= i < chats.len() && chats[i].id@ == id {
        Some(
            (choose|i: int|
                0 <= i < chats.len() && chats[i].id@ == id && forall|j: int|
                    0 <= j < i ==> chats[j].id@ != id) as nat,
        )
    } else {
        None
    }
}

pub(crate) proof fn lemma_chat_index_spec(chats: Seq<ChatSummary>, id: Seq<char>, i: int)
    requires
        0 <= i < chats.len(),
        chats[i].id@ == id,
        forall|j: int| 0 <= j < i ==> (#[trigger] chats[j]).id@ != id,
    ensures
        chat_index_spec(chats, id) == Some(i as nat),
{
    let k = choose|k: int|
        0 <= k < chats.len() && chats[k].id@ == id && forall|j: int| 0 <= j < k ==> chats[j].id@ != id;
    assert(k == i) by {
        if k < i {
            assert(chats[k].id@ != id);
        } else if k > i {
            assert(chats[i].id@ != id);
        }
    }
}

pub(crate) proof fn lemma_chat_index_spec_none(chats: Seq<ChatSummary>, id: Seq<char>)
    requires
        forall|j: int| 0 <= j < chats.len() ==> (#[trigger] chats[j]).id@ != id,
    ensures
        chat_index_spec(chats, id) is None,
{
}

/// The row `c` marked (or unmarked) favorite.
pub open spec fn with_favorite(c: ChatSummary, favorite: bool) -> ChatSummary {
    ChatSummary { favorite, ..c }
}

/// Flips the favorite mark of the selected chat at once; the new mark, or
/// `None` when no listed chat is selected.
pub fn toggle_favorite(chats: &mut Vec<ChatSummary>, selected: Option<&str>) -> (r: Option<bool>)
    ensures
        match selected {
            Some(s) => match chat_index_spec(old(chats)@, s@) {
                Some(i) => r == Some(!old(chats)@[i as int].favorite) && final(chats)@ == old(
                    chats,
                )@.update(i as int, with_favorite(old(chats)@[i as int], !old(chats)@[i as int].favorite)),
                None => r is None && final(chats)@ == old(chats)@,
            },
            None => r is None && final(chats)@ == old(chats)@,
        },
{
    let s = match selected {
        Some(s) => s,
        None => {
            return None;
        },
    };
    match chat_index(chats.as_slice(), s) {
        Some(i) => {
            proof {
                lemma_chat_index_spec(chats@, s@, i as int);
            }
            let mut c = chats.remove(i);
            let favorite = !c.favorite;
            c.favorite = favorite;
            chats.insert(i, c);
            Some(favorite)
        },
        None => {
            proof {
                lemma_chat_index_spec_none(chats@, s@);
            }
            None
        },
    }
}

/// Undoes a refused favorite change of chat `id`: only while its row still
/// shows the mark that was sent.
pub fn rollback_favorite(chats: &mut Vec<ChatSummary>, id: &str, sent: bool)
    ensures
        match chat_index_spec(old(chats)@, id@) {
            Some(i) => if old(chats)@[i as int].favorite == sent {
                final(chats)@ == old(chats)@.update(i as int, with_favorite(old(chats)@[i as int], !sent))
            } else {
                final(chats)@ == old(chats)@
            },
            None => final(chats)@ == old(chats)@,
        },
{
    match chat_index(chats.as_slice(), id) {
        Some(i) => {
            proof {
                lemma_chat_index_spec(chats@, id@, i as int);
            }
            if chats[i].favorite == sent {
                let mut c = chats.remove(i);
                c.favorite = !sent;
                chats.insert(i, c);
            }
        },
        None => {
            proof {
                lemma_chat_index_spec_none(chats@, id@);
            }
        },
    }
}

/// A refused favorite change leaves the list as it was: for the row `i`
/// that the toggle changes (the first with the selected id), the rollback
/// finds the same row, still showing the sent mark, and puts the old mark
/// back.
pub proof fn law_refused_favorite_is_rolled_back(chats: Seq<ChatSummary>, id: Seq<char>, i: int)
    requires
        0 <= i < chats.len(),
        chats[i].id@ == id,
        forall|j: int| 0 <= j < i ==> (#[trigger] chats[j]).id@ != id,
    ensures
        chat_index_spec(chats, id) == Some(i as nat),
        ({
            let sent = !chats[i].favorite;
            let toggled = chats.update(i, with_favorite(chats[i], sent));
            &&& chat_index_spec(toggled, id) == Some(i as nat)
            &&& toggled[i].favorite == sent
            &&& toggled.update(i, with_favorite(toggled[i], !sent)) == chats
        }),
{
    lemma_chat_index_spec(chats, id, i);
    let sent = !chats[i].favorite;
    let toggled = chats.update(i, with_favorite(chats[i], sent));
    assert forall|j: int| 0 <= j < i implies (#[trigger] toggled[j]).id@ != id by {
        assert(toggled[j] == chats[j]);
    }
    lemma_chat_index_spec(toggled, id, i);
    let back = toggled.update(i, with_favorite(toggled[i], !sent));
    assert(back =~= chats);
}

/// Applies the session's answer to a quick action on chat `id` whose row
/// had the flags `previous` before it: accepted, nothing changes; refused,
/// the first row with that id gets its flags back and the session's error
/// is shown.
pub fn settle_quick_action(
    chats: &mut Vec<ChatSummary>,
    send_error: &mut Option<String>,
    id: &str,
    previous: ChatFlags,
    result: Result<(), String>,
)
    ensures
        match result {
            Ok(()) => final(chats)@ == old(chats)@ && *final(send_error) == *old(send_error),
            Err(e) => {
                &&& *final(send_error) matches Some(shown) && shown@ == e@
                &&& match chat_index_spec(old(chats)@, id@) {
                    Some(i) => final(chats)@ == old(chats)@.update(
                        i as int,
                        with_flags(old(chats)@[i as int], previous),
                    ),
                    None => final(chats)@ == old(chats)@,
                }
            },
        },
{
    match result {
        Ok(()) => {},
        Err(e) => {
            match chat_index(chats.as_slice(), id) {
                Some(i) => {
                    proof {
                        lemma_chat_index_spec(chats@, id@, i as int);
                    }
                    let mut c = chats.remove(i);
                    restore_flags(&mut c, previous);
                    chats.insert(i, c);
                },
                None => {
                    proof {
                        lemma_chat_index_spec_none(chats@, id@);
                    }
                },
            }
            *send_error = Some(e);
        },
    }
}

/// A refused quick action leaves the list as it was: after the optimistic
/// update of row `i` (the first with the chat's id), settling the refusal
/// finds that same row and gives it back the flags it had.
pub proof fn law_refused_quick_action_restores_the_list(
    chats: Seq<ChatSummary>,
    id: Seq<char>,
    i: int,
    action: ChatAction,
    now_ms: i64,
)
    requires
        0 <= i < chats.len(),
        chats[i].id@ == id,
        forall|j: int| 0 <= j < i ==> (#[trigger] chats[j]).id@ != id,
    ensures
        ({
            let previous = flags_of(chats[i]);
            let shown = chats.update(i, with_flags(chats[i], optimistic_flags(previous, action, now_ms)));
            &&& chat_index_spec(shown, id) == Some(i as nat)
            &&& shown.update(i, with_flags(shown[i], previous)) == chats
        }),
{
    let previous = flags_of(chats[i]);
    let shown = chats.update(i, with_flags(chats[i], optimistic_flags(previous, action, now_ms)));
    assert forall|j: int| 0 <= j < i implies (#[trigger] shown[j]).id@ != id by {
        assert(shown[j] == chats[j]);
    }
    lemma_chat_index_spec(shown, id, i);
    let back = shown.update(i, with_flags(shown[i], previous));
    assert(back =~= chats);
}

/// A change the session announces.
pub enum Invalidation {
    Chats,
    Contacts,
    Messages { chat: String },
}

/// What the right panel shows details of.
pub enum DetailsKind {
    Direct,
    Group,
    Other,
}

/// What the window reloads after an announced change.
pub struct InvalidationPlan {
    pub refresh_chats: bool,
    pub reload_contact_query: bool,
    /// Fetch again the picture of this chat.
    pub refresh_avatar: Option<String>,
    pub reload_details: bool,
    pub refresh_messages: bool,
    /// Weigh a notification for this chat.
    pub consider_notification: Option<String>,
}

/// Whether the row of `selected` (its first row) is a direct or group chat.
pub open spec fn selected_is_person_or_group(chats: Seq<ChatSummary>, selected: Seq<char>) -> bool {
    match chat_index_spec(chats, selected) {
        Some(i) => chats[i as int].kind is Direct || chats[i as int].kind is Group,
        None => false,
    }
}

/// The text of an optional slice.
pub open spec fn str_view(o: Option<&str>) -> Option<Seq<char>> {
    match o {
        Some(s) => Some(s@),
        None => None,
    }
}

/// The text of an optional string.
pub open spec fn string_view(o: Option<String>) -> Option<Seq<char>> {
    match o {
        Some(s) => Some(s@),
        None => None,
    }
}

/// The chat whose picture a change makes stale: the selected direct or
/// group chat, on a contact change.
pub open spec fn avatar_target(change: Invalidation, selected: Option<Seq<char>>, chats: Seq<ChatSummary>) -> Option<Seq<char>> {
    match selected {
        Some(s) => if change is Contacts && selected_is_person_or_group(chats, s) {
            Some(s)
        } else {
            None
        },
        None => None,
    }
}

/// Whether details in the right panel go stale: a direct or group chat's,
/// on a contact change.
pub open spec fn details_go_stale(change: Invalidation, right_panel_open: bool, details: Option<DetailsKind>) -> bool {
    change is Contacts && right_panel_open && match details {
        Some(DetailsKind::Direct) => true,
        Some(DetailsKind::Group) => true,
        _ => false,
    }
}

/// The chat whose messages changed.
pub open spec fn changed_chat(change: Invalidation) -> Option<Seq<char>> {
    match change {
        Invalidation::Messages { chat } => Some(chat@),
        _ => None,
    }
}

/// What an announced change reloads: the chat list on a chat or contact
/// change; on a contact change also the open contact search, the selected
/// direct or group chat's picture and the details of a direct or group
/// chat shown in the right panel; on a message change the open chat's
/// messages, and a notification is weighed.
pub fn route_invalidation(
    change: &Invalidation,
    new_chat_open: bool,
    selected: Option<&str>,
    chats: &[ChatSummary],
    right_panel_open: bool,
    details: Option<DetailsKind>,
) -> (r: InvalidationPlan)
    ensures
        r.refresh_chats == (change is Chats || change is Contacts),
        r.reload_contact_query == (change is Contacts && new_chat_open),
        string_view(r.refresh_avatar) == avatar_target(*change, str_view(selected), chats@),
        r.reload_details == details_go_stale(*change, right_panel_open, details),
        r.refresh_messages == (changed_chat(*change) is Some && str_view(selected) == changed_chat(
            *change,
        )),
        string_view(r.consider_notification) == changed_chat(*change),
{
    match change {
        Invalidation::Chats => InvalidationPlan {
            refresh_chats: true,
            reload_contact_query: false,
            refresh_avatar: None,
            reload_details: false,
            refresh_messages: false,
            consider_notification: None,
        },
        Invalidation::Contacts => {
            let refresh_avatar = match selected {
                Some(s) => match chat_index(chats, s) {
                    Some(i) => {
                        proof {
                            lemma_chat_index_spec(chats@, s@, i as int);
                        }
                        match chats[i].kind {
                            ChatKind::Direct | ChatKind::Group => Some(s.to_string()),
                            _ => None,
                        }
                    },
                    None => {
                        proof {
                            lemma_chat_index_spec_none(chats@, s@);
                        }
                        None
                    },
                },
                None => None,
            };
            let reload_details = right_panel_open && match details {
                Some(DetailsKind::Direct) | Some(DetailsKind::Group) => true,
                _ => false,
            };
            InvalidationPlan {
                refresh_chats: true,
                reload_contact_query: new_chat_open,
                refresh_avatar,
                reload_details,
                refresh_messages: false,
                consider_notification: None,
            }
        },
        Invalidation::Messages { chat } => {
            let refresh_messages = match selected {
                Some(s) => text::same_text(s, chat.as_str()),
                None => false,
            };
            InvalidationPlan {
                refresh_chats: false,
                reload_contact_query: false,
                refresh_avatar: None,
                reload_details: false,
                refresh_messages,
                consider_notification: Some(chat.clone()),
            }
        },
    }
}

} // verus!
