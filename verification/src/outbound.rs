//! Sending from the composer: what a press of Send asks the session for,
//! how the composer and the staged attachment settle once the session
//! answered, and the same for editing a sent message.

use vstd::prelude::*;
use crate::composer::AttachmentKind;
use crate::model::{MessageKind, MessageRow};
use crate::root;
use crate::message_actions::RetryFlights;
use crate::text;

verus! {

/// A file staged in the composer of one chat.
#[derive(Debug)]
pub struct StagedAttachment {
    pub kind: AttachmentKind,
    /// The transfer that uploads the file.
    pub transfer: String,
}

/// A message for the session to send.
#[derive(Debug)]
pub enum SendRequest {
    Text { chat: String, text: String },
    Reply { chat: String, text: String, reply_to: String },
    Attachment { chat: String, transfer: String, caption: Option<String> },
    AttachmentReply { chat: String, transfer: String, caption: Option<String>, reply_to: String },
}

/// What a press of Send does.
#[derive(Debug)]
pub enum SendPlan {
    /// Nothing: no open chat, nothing to send, or this chat's attachment is
    /// already on its way.
    Idle,
    /// The composer holds an edit of a sent message: submit that instead.
    SubmitEdit,
    /// Send `request`, then, once it is accepted, `follow_up` if any.
    /// `mark_in_flight` holds the chat's attachment until the session
    /// answers; `clear_composer` empties the composer right away.
    Send {
        request: SendRequest,
        follow_up: Option<SendRequest>,
        mark_in_flight: bool,
        clear_composer: bool,
    },
}

/// The view of a send request: kind (0 text, 1 reply, 2 attachment,
/// 3 attachment reply), chat, text or transfer, caption, quoted message.
pub open spec fn request_view(r: SendRequest) -> (
    nat,
    Seq<char>,
    Seq<char>,
    Option<Seq<char>>,
    Option<Seq<char>>,
) {
    match r {
        SendRequest::Text { chat, text } => (0, chat@, text@, None, None),
        SendRequest::Reply { chat, text, reply_to } => (1, chat@, text@, None, Some(reply_to@)),
        SendRequest::Attachment { chat, transfer, caption } => (
            2,
            chat@,
            transfer@,
            match caption {
                Some(c) => Some(c@),
                None => None,
            },
            None,
        ),
        SendRequest::AttachmentReply { chat, transfer, caption, reply_to } => (
            3,
            chat@,
            transfer@,
            match caption {
                Some(c) => Some(c@),
                None => None,
            },
            Some(reply_to@),
        ),
    }
}

/// The request a send makes from the trimmed text, the quoted message and
/// the staged attachment: the text alone, or the attachment with the text
/// as caption (voice notes carry no caption), as a reply when one is
/// quoted.
pub open spec fn primary_request(
    chat: Seq<char>,
    text: Seq<char>,
    reply_to: Option<Seq<char>>,
    attachment: Option<(AttachmentKind, Seq<char>)>,
) -> (nat, Seq<char>, Seq<char>, Option<Seq<char>>, Option<Seq<char>>) {
    match attachment {
        None => match reply_to {
            None => (0, chat, text, None, None),
            Some(q) => (1, chat, text, None, Some(q)),
        },
        Some((kind, transfer)) => {
            let caption = if kind == AttachmentKind::Audio {
                None
            } else {
                Some(text)
            };
            match reply_to {
                None => (2, chat, transfer, caption, None),
                Some(q) => (3, chat, transfer, caption, Some(q)),
            }
        },
    }
}

/// The typed text goes with an attachment: a photo, video or document
/// carries it as its caption, a voice note carries none. The request is for
/// the given chat and transfer, quoting the quoted message when there is
/// one; without an attachment the text itself is sent, as a reply when a
/// message is quoted.
pub proof fn law_attachments_carry_the_text_as_caption(
    chat: Seq<char>,
    text: Seq<char>,
    reply_to: Option<Seq<char>>,
    kind: AttachmentKind,
    transfer: Seq<char>,
)
    ensures
        ({
            let r = primary_request(chat, text, reply_to, Some((kind, transfer)));
            &&& kind != AttachmentKind::Audio ==> r.3 == Some(text)
            &&& kind == AttachmentKind::Audio ==> r.3 is None
            &&& r.0 == (if reply_to is Some { 3nat } else { 2nat })
            &&& r.1 == chat && r.2 == transfer && r.4 == reply_to
        }),
        ({
            let r = primary_request(chat, text, reply_to, None);
            &&& r.0 == (if reply_to is Some { 1nat } else { 0nat })
            &&& r.1 == chat && r.2 == text && r.3 is None && r.4 == reply_to
        }),
{
}

/// What Send does in the chat `selected`, given the composer's text, the
/// quoted message, the staged attachment and whether that attachment is
/// already being sent. A send clears the visible send error; otherwise it
/// stays.
pub fn plan_send(
    selected: Option<&str>,
    editing: bool,
    composer: &str,
    reply_to: Option<&str>,
    attachment: Option<&StagedAttachment>,
    attachment_in_flight: bool,
    send_error: &mut Option<String>,
) -> (p: SendPlan)
    ensures
        p is Send ==> *final(send_error) is None,
        !(p is Send) ==> *final(send_error) == *old(send_error),
        selected is None ==> p is Idle,
        selected is Some && editing ==> p is SubmitEdit,
        selected is Some && !editing && text::trimmed(composer@).len() == 0 && attachment is None
            ==> p is Idle,
        selected is Some && !editing && attachment is Some && attachment_in_flight ==> p is Idle,
        match selected {
            Some(chat) => !editing && (text::trimmed(composer@).len() > 0 || attachment is Some)
                && !(attachment is Some && attachment_in_flight) ==> match p {
                SendPlan::Send { request, follow_up, mark_in_flight, clear_composer } => {
                    let text = text::trimmed(composer@);
                    &&& request_view(request) == primary_request(
                        chat@,
                        text,
                        match reply_to {
                            Some(q) => Some(q@),
                            None => None,
                        },
                        match attachment {
                            Some(a) => Some((a.kind, a.transfer@)),
                            None => None,
                        },
                    )
                    &&& mark_in_flight == attachment is Some
                    &&& clear_composer == attachment is None
                    &&& match follow_up {
                        Some(f) => request_view(f) == (0nat, chat@, text, None::<Seq<char>>, None::<
                            Seq<char>,
                        >),
                        None => true,
                    }
                    &&& follow_up is Some <==> (attachment matches Some(a) && a.kind
                        == AttachmentKind::Audio && text.len() > 0)
                },
                _ => false,
            },
            None => true,
        },
{
    let chat = match selected {
        Some(c) => c,
        None => {
            return SendPlan::Idle;
        },
    };
    if editing {
        return SendPlan::SubmitEdit;
    }
    let v = text::chars_of(composer);
    let t = text::trim_chars(v.as_slice());
    let text = text::string_from_chars(t.as_slice());
    if t.len() == 0 && attachment.is_none() {
        return SendPlan::Idle;
    }
    if attachment.is_some() && attachment_in_flight {
        return SendPlan::Idle;
    }
    *send_error = None;
    match attachment {
        None => {
            if t.len() == 0 {
                return SendPlan::Idle;
            }
            let request = match reply_to {
                None => SendRequest::Text { chat: chat.to_owned(), text },
                Some(q) => SendRequest::Reply { chat: chat.to_owned(), text, reply_to: q.to_owned() },
            };
            SendPlan::Send { request, follow_up: None, mark_in_flight: false, clear_composer: true }
        },
        Some(a) => {
            if attachment_in_flight {
                return SendPlan::Idle;
            }
            let is_audio = a.kind == AttachmentKind::Audio;
            let follow_up = if is_audio && t.len() > 0 {
                Some(SendRequest::Text { chat: chat.to_owned(), text: text.clone() })
            } else {
                None
            };
            let caption = if is_audio {
                None
            } else {
                Some(text)
            };
            let request = match reply_to {
                None => SendRequest::Attachment {
                    chat: chat.to_owned(),
                    transfer: a.transfer.clone(),
                    caption,
                },
                Some(q) => SendRequest::AttachmentReply {
                    chat: chat.to_owned(),
                    transfer: a.transfer.clone(),
                    caption,
                    reply_to: q.to_owned(),
                },
            };
            SendPlan::Send { request, follow_up, mark_in_flight: true, clear_composer: false }
        },
    }
}

/// What becomes of the composer once a send settled.
#[derive(Debug)]
pub enum ComposerFollowUp {
    /// The text went out and is still shown: empty the composer.
    Clear,
    /// The text never became a message: put it back.
    Restore(String),
    /// Leave what the user has typed since.
    Keep,
}

/// How the window settles after the session answered a send.
#[derive(Debug)]
pub struct SendSettlement {
    /// Unstage the attachment: it was accepted and is still the staged one.
    pub drop_staged: bool,
    /// Forget the quoted message and save the draft.
    pub clear_reply: bool,
    pub composer: ComposerFollowUp,
}

/// How the window settles after a send of `text` (trimmed) answered:
/// `primary_accepted` for the first request, `accepted` for the send as a
/// whole (the follow-up text too, when there was one).
pub fn settle_send(
    text: &str,
    primary_accepted: bool,
    accepted: bool,
    sent_transfer: Option<&str>,
    staged_transfer: Option<&str>,
    still_in_chat: bool,
    reply_unchanged: bool,
    composer_now: &str,
) -> (s: SendSettlement)
    ensures
        s.drop_staged == (primary_accepted && (sent_transfer matches Some(t) && staged_transfer
            matches Some(u) && t@ == u@)),
        s.clear_reply == (primary_accepted && still_in_chat && reply_unchanged && (
        text::trimmed(composer_now@).len() == 0 || text::trimmed(composer_now@) == text@)),
        accepted && text::trimmed(composer_now@) == text@ ==> s.composer is Clear,
        !(accepted && text::trimmed(composer_now@) == text@) && !accepted && sent_transfer is None
            && text::trimmed(composer_now@).len() == 0 ==> (s.composer matches ComposerFollowUp::Restore(t)
            && t@ == text@),
        !(accepted && text::trimmed(composer_now@) == text@) && !(!accepted && sent_transfer is None
            && text::trimmed(composer_now@).len() == 0) ==> s.composer is Keep,
{
    let drop_staged = primary_accepted && match (sent_transfer, staged_transfer) {
        (Some(t), Some(u)) => text::same_text(t, u),
        _ => false,
    };
    let blank_now = text::is_blank(composer_now);
    let same_now = text::trimmed_equals(composer_now, text);
    let clear_reply = primary_accepted && still_in_chat && reply_unchanged && (blank_now
        || same_now);
    let composer = if accepted && same_now {
        ComposerFollowUp::Clear
    } else if root::should_restore_composer(accepted, sent_transfer.is_none(), composer_now) {
        ComposerFollowUp::Restore(text.to_owned())
    } else {
        ComposerFollowUp::Keep
    };
    SendSettlement { drop_staged, clear_reply, composer }
}

/// Why an edit cannot be submitted.
pub const EDIT_EMPTY: &'static str = "Edited text cannot be empty";

/// Why an edit cannot be submitted.
pub const EDIT_NOT_LOADED: &'static str = "Open the original message before editing it";

/// Why an edit cannot be submitted.
pub const EDIT_EXPIRED: &'static str = "This message can no longer be edited";

/// What submitting an edit does.
#[derive(Debug)]
pub enum EditPlan {
    /// Nothing: the target is no text message, or its edit is already on
    /// its way.
    Idle,
    /// Refuse with this explanation.
    Reject(&'static str),
    /// The text did not change: leave editing.
    Cancel,
    /// Replace the text of the message at `row` by `body`, keeping
    /// `previous` to put back if the session refuses.
    Submit { row: usize, body: String, previous: String },
}

/// The first row of `rows` that is message `id` of chat `chat`.
pub open spec fn row_of(rows: Seq<MessageRow>, chat: Seq<char>, id: Seq<char>) -> Option<nat>
    decreases rows.len(),
{
    if rows.len() == 0 {
        None
    } else {
        match row_of(rows.drop_last(), chat, id) {
            Some(i) => Some(i),
            None => if rows.last().chat@ == chat && rows.last().id@ == id {
                Some((rows.len() - 1) as nat)
            } else {
                None
            },
        }
    }
}

/// The index of message `id` of chat `chat` in the loaded rows.
pub fn find_row(rows: &[MessageRow], chat: &str, id: &str) -> (r: Option<usize>)
    ensures
        match r {
            Some(i) => i < rows@.len() && row_of(rows@, chat@, id@) == Some(i as nat),
            None => row_of(rows@, chat@, id@) is None,
        },
{
    let mut i: usize = 0;
    while i < rows.len()
        invariant
            i <= rows@.len(),
            row_of(rows@.take(i as int), chat@, id@) is None,
        decreases rows@.len() - i,
    {
        assert(rows@.take(i + 1).drop_last() == rows@.take(i as int));
        if text::same_text(rows[i].chat.as_str(), chat) && text::same_text(rows[i].id.as_str(), id) {
            proof {
                lemma_row_of_prefix(rows@, chat@, id@, (i + 1) as nat);
            }
            return Some(i);
        }
        i = i + 1;
    }
    assert(rows@.take(rows@.len() as int) == rows@);
    None
}

/// A match found in a prefix is the match of the whole list.
proof fn lemma_row_of_prefix(rows: Seq<MessageRow>, chat: Seq<char>, id: Seq<char>, n: nat)
    requires
        n <= rows.len(),
        row_of(rows.take(n as int), chat, id) is Some,
    ensures
        row_of(rows, chat, id) == row_of(rows.take(n as int), chat, id),
    decreases rows.len(),
{
    if n < rows.len() {
        assert(rows.drop_last().take(n as int) == rows.take(n as int));
        lemma_row_of_prefix(rows.drop_last(), chat, id, n);
    } else {
        assert(rows.take(n as int) == rows);
    }
}

/// What submitting the composer's text as the new text of message
/// `target` of chat `chat` does; `editable` tells whether the message may
/// still be edited, `in_flight` whether its edit is already on its way.
pub fn plan_edit(
    rows: &[MessageRow],
    chat: &str,
    target: &str,
    composer: &str,
    editable: bool,
    in_flight: bool,
) -> (p: EditPlan)
    ensures
        text::trimmed(composer@).len() == 0 ==> p == EditPlan::Reject(EDIT_EMPTY),
        text::trimmed(composer@).len() > 0 && row_of(rows@, chat@, target@) is None ==> p
            == EditPlan::Reject(EDIT_NOT_LOADED),
        text::trimmed(composer@).len() > 0 && row_of(rows@, chat@, target@) is Some && !editable
            ==> p == EditPlan::Reject(EDIT_EXPIRED),
        text::trimmed(composer@).len() > 0 && editable ==> match row_of(rows@, chat@, target@) {
            Some(i) => match rows@[i as int].kind {
                MessageKind::Text { body: previous } => if previous@ == text::trimmed(composer@) {
                    p is Cancel
                } else if in_flight {
                    p is Idle
                } else {
                    p matches EditPlan::Submit { row, body, previous: kept } && row == i
                        && body@ == text::trimmed(composer@) && kept@ == previous@
                },
                _ => p is Idle,
            },
            None => true,
        },
{
    let v = text::chars_of(composer);
    let t = text::trim_chars(v.as_slice());
    if t.len() == 0 {
        return EditPlan::Reject(EDIT_EMPTY);
    }
    let i = match find_row(rows, chat, target) {
        Some(i) => i,
        None => {
            return EditPlan::Reject(EDIT_NOT_LOADED);
        },
    };
    if !editable {
        return EditPlan::Reject(EDIT_EXPIRED);
    }
    match &rows[i].kind {
        MessageKind::Text { body: previous } => {
            let body = text::string_from_chars(t.as_slice());
            if text::same_text(previous.as_str(), body.as_str()) {
                EditPlan::Cancel
            } else if in_flight {
                EditPlan::Idle
            } else {
                EditPlan::Submit { row: i, body, previous: previous.clone() }
            }
        },
        _ => EditPlan::Idle,
    }
}

/// A refused edit puts the previous text back only while the row still
/// shows this edit: the optimistic timestamp and the submitted text.
pub fn edit_should_revert(
    row_edited_at_ms: Option<i64>,
    optimistic_edited_at_ms: i64,
    row_kind: &MessageKind,
    body: &str,
) -> (r: bool)
    ensures
        r == (row_edited_at_ms == Some(optimistic_edited_at_ms) && (row_kind matches MessageKind::Text {
            body: current,
        } && current@ == body@)),
{
    row_edited_at_ms == Some(optimistic_edited_at_ms) && match row_kind {
        MessageKind::Text { body: current } => text::same_text(current.as_str(), body),
        _ => false,
    }
}

/// Why an edit cannot start.
pub const EDIT_DRAFT_IN_PROGRESS: &'static str = "Finish or clear the current draft before editing";

/// What choosing "Edit" on a message does.
#[derive(Debug)]
pub enum BeginEdit {
    /// The message is not loaded, or carries no text.
    Idle,
    /// Refuse with this explanation.
    Reject(&'static str),
    /// Load `body` into the composer as an edit of the message.
    Start { body: String },
}

/// The first loaded row with this message id.
pub open spec fn row_with_id(rows: Seq<MessageRow>, id: Seq<char>) -> Option<nat>
    decreases rows.len(),
{
    if rows.len() == 0 {
        None
    } else {
        match row_with_id(rows.drop_last(), id) {
            Some(i) => Some(i),
            None => if rows.last().id@ == id {
                Some((rows.len() - 1) as nat)
            } else {
                None
            },
        }
    }
}

fn find_message(rows: &[MessageRow], id: &str) -> (r: Option<usize>)
    ensures
        match r {
            Some(i) => i < rows@.len() && row_with_id(rows@, id@) == Some(i as nat),
            None => row_with_id(rows@, id@) is None,
        },
{
    let mut i: usize = 0;
    while i < rows.len()
        invariant
            i <= rows@.len(),
            row_with_id(rows@.take(i as int), id@) is None,
        decreases rows@.len() - i,
    {
        assert(rows@.take(i + 1).drop_last() == rows@.take(i as int));
        if text::same_text(rows[i].id.as_str(), id) {
            proof {
                lemma_row_with_id_prefix(rows@, id@, (i + 1) as nat);
            }
            return Some(i);
        }
        i = i + 1;
    }
    assert(rows@.take(rows@.len() as int) == rows@);
    None
}

proof fn lemma_row_with_id_prefix(rows: Seq<MessageRow>, id: Seq<char>, n: nat)
    requires
        n <= rows.len(),
        row_with_id(rows.take(n as int), id) is Some,
    ensures
        row_with_id(rows, id) == row_with_id(rows.take(n as int), id),
    decreases rows.len(),
{
    if n < rows.len() {
        assert(rows.drop_last().take(n as int) == rows.take(n as int));
        lemma_row_with_id_prefix(rows.drop_last(), id, n);
    } else {
        assert(rows.take(n as int) == rows);
    }
}

/// What choosing "Edit" on message `id` does: the message must still be
/// editable, and the composer free (no text, quote or staged attachment).
pub fn plan_begin_edit(
    rows: &[MessageRow],
    id: &str,
    editable: bool,
    composer: &str,
    replying: bool,
    attachment_staged: bool,
) -> (p: BeginEdit)
    ensures
        row_with_id(rows@, id@) is None ==> p is Idle,
        match row_with_id(rows@, id@) {
            Some(i) => if !editable {
                p == BeginEdit::Reject(EDIT_EXPIRED)
            } else if text::trimmed(composer@).len() > 0 || replying || attachment_staged {
                p == BeginEdit::Reject(EDIT_DRAFT_IN_PROGRESS)
            } else {
                match rows@[i as int].kind {
                    MessageKind::Text { body } => p matches BeginEdit::Start { body: b } && b@
                        == body@,
                    _ => p is Idle,
                }
            },
            None => true,
        },
{
    let i = match find_message(rows, id) {
        Some(i) => i,
        None => {
            return BeginEdit::Idle;
        },
    };
    if !editable {
        return BeginEdit::Reject(EDIT_EXPIRED);
    }
    if !text::is_blank(composer) || replying || attachment_staged {
        return BeginEdit::Reject(EDIT_DRAFT_IN_PROGRESS);
    }
    match &rows[i].kind {
        MessageKind::Text { body } => BeginEdit::Start { body: body.clone() },
        _ => BeginEdit::Idle,
    }
}

/// Said when a reply is started during an edit.
pub const REPLY_DURING_EDIT: &'static str = "Finish or cancel the current edit first";

/// What asking to reply to a message does.
#[derive(PartialEq, Eq, Structural)]
pub enum ReplyStep {
    /// The message is not loaded: nothing happens.
    Ignore,
    /// An edit is going on: [`REPLY_DURING_EDIT`] is shown.
    Refuse,
    /// The draft replies to the message.
    Begin,
}

/// Replying needs the message loaded and no edit going on.
pub fn plan_reply(message_loaded: bool, editing: bool) -> (r: ReplyStep)
    ensures
        r == (if !message_loaded {
            ReplyStep::Ignore
        } else if editing {
            ReplyStep::Refuse
        } else {
            ReplyStep::Begin
        }),
{
    if !message_loaded {
        ReplyStep::Ignore
    } else if editing {
        ReplyStep::Refuse
    } else {
        ReplyStep::Begin
    }
}

/// Whether leaving an edit is allowed: there is one, a chat is open, and
/// the edited text is not already on its way.
pub fn can_cancel_edit(editing: bool, chat_open: bool, edit_in_flight: bool) -> (r: bool)
    ensures
        r == (editing && chat_open && !edit_in_flight),
{
    editing && chat_open && !edit_in_flight
}

/// Whether choosing a file to attach may start: a chat is open, it has no
/// staged attachment, and no file is being staged for it.
pub fn can_stage_attachment(chat_open: bool, has_staged: bool, staging: bool) -> (r: bool)
    ensures
        r == (chat_open && !has_staged && !staging),
{
    chat_open && !has_staged && !staging
}

/// What follows a settled edit in the window.
pub struct EditOutcome {
    /// The chat's draft is saved (as empty): only once the edit was accepted.
    pub save_draft: bool,
    /// The composer may be emptied (when it still shows the edit); a
    /// refused edit keeps it.
    pub may_clear_composer: bool,
}

/// Whether row `r` still shows the edit that was sent: the optimistic
/// edit time and the submitted text.
pub open spec fn shows_edit(r: MessageRow, body: Seq<char>, optimistic_edited_at_ms: i64) -> bool {
    r.edited_at_ms == Some(optimistic_edited_at_ms) && (r.kind matches MessageKind::Text {
        body: current,
    } && current@ == body)
}

/// Settles the edit of message `target` of chat `chat`, which replaced the
/// text `previous` (edited at `previous_edited_at_ms`) by `body` at
/// `optimistic_edited_at_ms`: the edit leaves the set of edits on their
/// way. When the session refused it, the row is put back to its previous
/// text and edit time while it still shows this edit, the error is shown,
/// and neither the draft is saved nor the composer emptied.
pub fn settle_edit(
    editing: &mut RetryFlights,
    rows: &mut Vec<MessageRow>,
    send_error: &mut Option<String>,
    chat: &str,
    target: &str,
    body: &str,
    previous: &str,
    previous_edited_at_ms: Option<i64>,
    optimistic_edited_at_ms: i64,
    result: Result<(), String>,
) -> (o: EditOutcome)
    ensures
        final(editing).in_flight() == old(editing).in_flight().remove((chat@, target@)),
        o.save_draft == result is Ok,
        o.may_clear_composer == result is Ok,
        match result {
            Ok(()) => final(rows)@ == old(rows)@ && *final(send_error) == *old(send_error),
            Err(e) => {
                &&& *final(send_error) matches Some(shown) && shown@ == e@
                &&& match row_of(old(rows)@, chat@, target@) {
                    Some(i) => if shows_edit(old(rows)@[i as int], body@, optimistic_edited_at_ms) {
                        &&& final(rows)@.len() == old(rows)@.len()
                        &&& forall|j: int|
                            0 <= j < old(rows)@.len() && j != i ==> final(rows)@[j] == old(rows)@[j]
                        &&& final(rows)@[i as int].id == old(rows)@[i as int].id
                        &&& final(rows)@[i as int].chat == old(rows)@[i as int].chat
                        &&& final(rows)@[i as int].timestamp_ms == old(rows)@[i as int].timestamp_ms
                        &&& final(rows)@[i as int].edited_at_ms == previous_edited_at_ms
                        &&& final(rows)@[i as int].kind matches MessageKind::Text { body: b }
                            && b@ == previous@
                    } else {
                        final(rows)@ == old(rows)@
                    },
                    None => final(rows)@ == old(rows)@,
                }
            },
        },
{
    editing.remove(chat, target);
    match result {
        Ok(()) => EditOutcome { save_draft: true, may_clear_composer: true },
        Err(e) => {
            if let Some(i) = find_row(rows.as_slice(), chat, target) {
                if edit_should_revert(rows[i].edited_at_ms, optimistic_edited_at_ms, &rows[i].kind, body) {
                    let old_row = rows.remove(i);
                    let restored = MessageRow {
                        id: old_row.id,
                        chat: old_row.chat,
                        timestamp_ms: old_row.timestamp_ms,
                        kind: MessageKind::Text { body: previous.to_string() },
                        edited_at_ms: previous_edited_at_ms,
                    };
                    rows.insert(i, restored);
                }
            }
            *send_error = Some(e);
            EditOutcome { save_draft: false, may_clear_composer: false }
        },
    }
}

} // verus!
