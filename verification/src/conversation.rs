//! Conversation copy: media size and metadata lines, and the wording of the
//! confirmations for destructive chat and group actions.

use vstd::prelude::*;
use crate::model::{MediaDescriptor, MessageKind, MessageStatus};
use crate::media_viewer::MediaDownloadState;
use crate::root::{GroupLeaveTarget, GroupMemberAction, GroupMemberActionKind};
use crate::text;
use crate::binary64;
use vstd::string::StrSliceExecFns;

verus! {

/// The media a message carries, for the kinds that carry one.
pub fn media_descriptor(kind: &MessageKind) -> (r: Option<&MediaDescriptor>)
    ensures
        r == match kind {
            MessageKind::Image { media, .. } => Some(media),
            MessageKind::Video { media, .. } => Some(media),
            MessageKind::Audio { media, .. } => Some(media),
            MessageKind::Document { media } => Some(media),
            MessageKind::Sticker { media, .. } => Some(media),
            _ => None::<&MediaDescriptor>,
        },
{
    match kind {
        MessageKind::Image { media, .. } => Some(media),
        MessageKind::Video { media, .. } => Some(media),
        MessageKind::Audio { media, .. } => Some(media),
        MessageKind::Document { media } => Some(media),
        MessageKind::Sticker { media, .. } => Some(media),
        _ => None,
    }
}

/// Size label on media cards: binary kibibytes and mebibytes with decimal
/// unit names, tenths for MB, whole numbers for KB, rounding to nearest with
/// ties to even. The count is taken as a double first, which changes it
/// only above 2^53.
pub open spec fn media_size_label(bytes: nat) -> Seq<char> {
    if bytes >= 1048576 {
        text::fixed(text::round_half_even(binary64::integer_as_double(bytes) * 10, 1048576), 1) + " MB"@
    } else if bytes >= 1024 {
        text::decimal(text::round_half_even(binary64::integer_as_double(bytes), 1024)) + " KB"@
    } else {
        text::decimal(bytes) + " B"@
    }
}

/// A media size for the message card.
pub fn format_bytes(bytes: u64) -> (r: String)
    ensures
        r@ == media_size_label(bytes as nat),
{
    let mut s = String::new();
    let b = binary64::u64_as_double(bytes);
    if bytes >= 1048576 {
        text::push_fixed(&mut s, text::div_round_half_even(b * 10, 1048576), 1);
        text::push_str(&mut s, " MB");
    } else if bytes >= 1024 {
        text::push_decimal(&mut s, text::div_round_half_even(b, 1024));
        text::push_str(&mut s, " KB");
    } else {
        text::push_decimal(&mut s, b);
        text::push_str(&mut s, " B");
    }
    s
}

/// The parts of a media metadata line, in order: duration as `m:ss`,
/// dimensions as `w×h` when both are known, size, and MIME type.
pub open spec fn media_parts(m: MediaDescriptor) -> Seq<Seq<char>> {
    let a: Seq<Seq<char>> = match m.duration_seconds {
        Some(s) => seq![text::decimal(s as nat / 60) + ":"@ + text::padded(s as nat % 60, 2)],
        None => seq![],
    };
    let b: Seq<Seq<char>> = match (m.width, m.height) {
        (Some(w), Some(h)) => a.push(text::decimal(w as nat) + "×"@ + text::decimal(h as nat)),
        _ => a,
    };
    let c: Seq<Seq<char>> = match m.file_size {
        Some(n) => b.push(media_size_label(n as nat)),
        None => b,
    };
    match m.mime_type {
        Some(t) => c.push(t@),
        None => c,
    }
}

/// Parts joined with a separator.
pub open spec fn joined(parts: Seq<Seq<char>>, sep: Seq<char>) -> Seq<char>
    decreases parts.len(),
{
    if parts.len() == 0 {
        seq![]
    } else if parts.len() == 1 {
        parts[0]
    } else {
        joined(parts.drop_last(), sep) + sep + parts.last()
    }
}

fn push_part(out: &mut String, count: &mut usize, part: &String, Ghost(parts): Ghost<Seq<Seq<char>>>)
    requires
        old(out)@ == joined(parts, " · "@),
        *old(count) == parts.len(),
        parts.len() < 4,
    ensures
        final(out)@ == joined(parts.push(part@), " · "@),
        *final(count) == parts.len() + 1,
{
    if *count > 0 {
        text::push_str(out, " · ");
    }
    text::push_str(out, part.as_str());
    assert(parts.push(part@).drop_last() == parts);
    *count = *count + 1;
}

/// The metadata line under a media card, parts joined with ` · `.
pub fn media_metadata(media: &MediaDescriptor) -> (r: String)
    ensures
        r@ == joined(media_parts(*media), " · "@),
{
    let mut out = String::new();
    let mut count: usize = 0;
    let ghost mut parts: Seq<Seq<char>> = seq![];
    if let Some(seconds) = media.duration_seconds {
        let mut p = String::new();
        text::push_decimal(&mut p, (seconds / 60) as u128);
        text::push_str(&mut p, ":");
        text::push_padded(&mut p, (seconds % 60) as u128, 2);
        push_part(&mut out, &mut count, &p, Ghost(parts));
        proof {
            parts = parts.push(p@);
        }
    }
    if let (Some(width), Some(height)) = (media.width, media.height) {
        let mut p = String::new();
        text::push_decimal(&mut p, width as u128);
        text::push_str(&mut p, "×");
        text::push_decimal(&mut p, height as u128);
        push_part(&mut out, &mut count, &p, Ghost(parts));
        proof {
            parts = parts.push(p@);
        }
    }
    if let Some(bytes) = media.file_size {
        let p = format_bytes(bytes);
        push_part(&mut out, &mut count, &p, Ghost(parts));
        proof {
            parts = parts.push(p@);
        }
    }
    if let Some(mime) = &media.mime_type {
        push_part(&mut out, &mut count, mime, Ghost(parts));
        proof {
            parts = parts.push(mime@);
        }
    }
    assert(parts == media_parts(*media));
    out
}

/// The transfer line of a media card and whether clicking downloads.
pub open spec fn transfer_status(unavailable: bool, download: Option<MediaDownloadState>) -> (Seq<char>, bool) {
    if unavailable {
        ("Media unavailable"@, false)
    } else {
        match download {
            Some(MediaDownloadState::Downloading) => ("Downloading…"@, false),
            Some(MediaDownloadState::Ready { .. }) => ("Downloaded to secure cache"@, false),
            Some(MediaDownloadState::Failed) => ("Download failed · click to retry"@, true),
            None => ("Click to download"@, true),
        }
    }
}

/// The title of a media card, for the kinds that carry media.
pub open spec fn media_title(kind: MessageKind) -> Option<Seq<char>> {
    match kind {
        MessageKind::Image { .. } => Some("Photo"@),
        MessageKind::Video { video_note, .. } => Some(
            if video_note {
                "Video note"@
            } else {
                "Video"@
            },
        ),
        MessageKind::Audio { voice_note, .. } => Some(
            if voice_note {
                "Voice message"@
            } else {
                "Audio"@
            },
        ),
        MessageKind::Document { media } => Some(
            match media.file_name {
                Some(n) => n@,
                None => "Document"@,
            },
        ),
        MessageKind::Sticker { animated, .. } => Some(
            if animated {
                "Animated sticker"@
            } else {
                "Sticker"@
            },
        ),
        _ => None,
    }
}

/// What a media card shows.
pub struct MediaCard {
    /// The first line: the title, or the transfer line when the media is
    /// unavailable.
    pub headline: String,
    /// The second line of a non-visual card: the transfer line, then the
    /// metadata after ` · ` when there is any.
    pub detail: String,
    pub transfer_label: &'static str,
    pub can_download: bool,
    /// Photos, videos and stickers show a preview area.
    pub visual: bool,
    pub caption: Option<String>,
}

/// The card of a media message: its title, caption and preview kind, and
/// what the transfer line says given the download state.
pub fn media_card(kind: &MessageKind, unavailable: bool, download: Option<MediaDownloadState>) -> (r:
    Option<MediaCard>)
    ensures
        match media_title(*kind) {
            None => r is None,
            Some(title) => r matches Some(c) && {
                let (label, click) = transfer_status(unavailable, download);
                let meta = joined(media_parts(media_descriptor_spec(*kind)), " · "@);
                &&& c.transfer_label@ == label
                &&& c.can_download == click
                &&& c.headline@ == (if unavailable { label } else { title })
                &&& c.detail@ == (if meta.len() == 0 { label } else { label + " · "@ + meta })
                &&& c.visual == (kind is Image || kind is Video || kind is Sticker)
                &&& c.caption == match *kind {
                    MessageKind::Image { caption, .. } => caption,
                    MessageKind::Video { caption, .. } => caption,
                    _ => None,
                }
            },
        },
{
    let media = match media_descriptor(kind) {
        Some(m) => m,
        None => {
            return None;
        },
    };
    let (title, caption, visual): (String, Option<String>, bool) = match kind {
        MessageKind::Image { caption, .. } => (String::from_str("Photo"), clone_caption(caption), true),
        MessageKind::Video { caption, video_note, .. } => (
            String::from_str(
                if *video_note {
                    "Video note"
                } else {
                    "Video"
                },
            ),
            clone_caption(caption),
            true,
        ),
        MessageKind::Audio { voice_note, .. } => (
            String::from_str(
                if *voice_note {
                    "Voice message"
                } else {
                    "Audio"
                },
            ),
            None,
            false,
        ),
        MessageKind::Document { media } => (
            match &media.file_name {
                Some(n) => n.clone(),
                None => String::from_str("Document"),
            },
            None,
            false,
        ),
        MessageKind::Sticker { animated, .. } => (
            String::from_str(
                if *animated {
                    "Animated sticker"
                } else {
                    "Sticker"
                },
            ),
            None,
            true,
        ),
        _ => {
            return None;
        },
    };
    let (label, click): (&'static str, bool) = if unavailable {
        ("Media unavailable", false)
    } else {
        match download {
            Some(MediaDownloadState::Downloading) => ("Downloading…", false),
            Some(MediaDownloadState::Ready { .. }) => ("Downloaded to secure cache", false),
            Some(MediaDownloadState::Failed) => ("Download failed · click to retry", true),
            None => ("Click to download", true),
        }
    };
    let meta = media_metadata(media);
    let mut detail = String::from_str(label);
    if meta.unicode_len() > 0 {
        text::push_str(&mut detail, " · ");
        text::push_str(&mut detail, meta.as_str());
    }
    let headline = if unavailable {
        String::from_str(label)
    } else {
        title
    };
    Some(MediaCard { headline, detail, transfer_label: label, can_download: click, visual, caption })
}

/// The media of a media message (a spec-level pick of the descriptor).
pub open spec fn media_descriptor_spec(kind: MessageKind) -> MediaDescriptor {
    match kind {
        MessageKind::Image { media, .. } => media,
        MessageKind::Video { media, .. } => media,
        MessageKind::Audio { media, .. } => media,
        MessageKind::Document { media } => media,
        MessageKind::Sticker { media, .. } => media,
        _ => arbitrary(),
    }
}

fn clone_caption(c: &Option<String>) -> (r: Option<String>)
    ensures
        r == *c,
{
    match c {
        Some(t) => Some(t.clone()),
        None => None,
    }
}

/// The quick reactions offered in the message actions.
pub const QUICK_REACTIONS: [&'static str; 5] = ["👍", "❤️", "😂", "😮", "😢"];

/// What the actions sheet of a message offers.
pub struct MessageSheet {
    pub can_copy: bool,
    pub can_reply: bool,
    pub can_edit: bool,
    pub can_retry: bool,
    /// "Delete for everyone" is offered.
    pub can_revoke: bool,
    /// The star button's words; it asks for the opposite mark.
    pub star_label: &'static str,
}

/// The actions sheet of a message: copying for text and system messages,
/// replying unless revoked or a system message, editing when the message
/// may still be edited now, retrying a failed message of ours, deleting
/// for everyone any message of ours, and starring or unstarring.
pub fn message_sheet(
    is_text: bool,
    is_system: bool,
    outgoing: bool,
    failed: bool,
    revoked: bool,
    starred: bool,
    editable_now: bool,
) -> (r: MessageSheet)
    ensures
        r.can_copy == (is_text || is_system),
        r.can_reply == (!revoked && !is_system),
        r.can_edit == editable_now,
        r.can_retry == (outgoing && failed),
        r.can_revoke == outgoing,
        r.star_label@ == (if starred { "Unstar message"@ } else { "Star message"@ }),
{
    MessageSheet {
        can_copy: is_text || is_system,
        can_reply: !revoked && !is_system,
        can_edit: editable_now,
        can_retry: outgoing && failed,
        can_revoke: outgoing,
        star_label: if starred {
            "Unstar message"
        } else {
            "Star message"
        },
    }
}

/// A message deletion to confirm.
#[derive(Clone, Copy, PartialEq, Eq, Structural)]
pub enum MessageDeletion {
    ForMe,
    ForEveryone,
    Other,
}

/// Title, explanation and confirm button of a message deletion, and the
/// preview line (the message's text, or a placeholder when it is not
/// loaded).
pub fn message_delete_copy(kind: MessageDeletion, body: Option<&str>) -> (r: (
    &'static str,
    &'static str,
    &'static str,
    String,
))
    ensures
        match kind {
            MessageDeletion::ForMe => r.0@ == "Delete message for you?"@ && r.1@
                == "This removes the message from your view. Other participants will still see it."@
                && r.2@ == "Delete for me"@,
            MessageDeletion::ForEveryone => r.0@ == "Delete message for everyone?"@ && r.1@
                == "WhatsApp will replace this sent message with a deletion notice when revocation is allowed."@
                && r.2@ == "Delete for everyone"@,
            MessageDeletion::Other => r.0@ == "Confirm message action?"@ && r.1@
                == "This action will be synchronized."@ && r.2@ == "Confirm"@,
        },
        r.3@ == match body {
            Some(b) => b@,
            None => "Selected message"@,
        },
{
    let (title, detail, confirm) = match kind {
        MessageDeletion::ForMe => (
            "Delete message for you?",
            "This removes the message from your view. Other participants will still see it.",
            "Delete for me",
        ),
        MessageDeletion::ForEveryone => (
            "Delete message for everyone?",
            "WhatsApp will replace this sent message with a deletion notice when revocation is allowed.",
            "Delete for everyone",
        ),
        MessageDeletion::Other => ("Confirm message action?", "This action will be synchronized.", "Confirm"),
    };
    let preview = match body {
        Some(b) => b.to_string(),
        None => String::from_str("Selected message"),
    };
    (title, detail, confirm, preview)
}

/// The banner shown while the session is not connected.
pub fn connection_banner_text(status: &str) -> (r: String)
    ensures
        r@ == status@ + " — cached messages remain available"@,
{
    let mut t = status.to_string();
    text::push_str(&mut t, " — cached messages remain available");
    t
}

/// Rows from the top of the view within which older history is loaded.
pub const LOAD_OLDER_THRESHOLD: usize = 8;

/// Which history pages the timeline asks for as it renders: older rows
/// when the view nears the top, newer rows when it sits at the bottom of a
/// window that has more; never while a load is on its way or nothing is
/// listed.
pub fn history_paging(
    items: usize,
    loading: bool,
    has_more_older: bool,
    loading_older: bool,
    first_visible: usize,
    has_more_newer: bool,
    loading_newer: bool,
    near_bottom: bool,
) -> (r: (bool, bool))
    ensures
        r.0 == (has_more_older && !loading_older && !loading && first_visible <= LOAD_OLDER_THRESHOLD
            && items > 0),
        r.1 == (has_more_newer && !loading_newer && !loading && near_bottom && items > 0),
{
    (
        has_more_older && !loading_older && !loading && first_visible <= LOAD_OLDER_THRESHOLD && items > 0,
        has_more_newer && !loading_newer && !loading && near_bottom && items > 0,
    )
}

/// The pill that jumps to the newest messages.
pub fn new_messages_pill(n: usize) -> (r: String)
    ensures
        r@ == (if n == 1 {
            "1 new message"@
        } else {
            text::decimal(n as nat) + " new messages"@
        }),
{
    if n == 1 {
        String::from_str("1 new message")
    } else {
        let mut t = String::new();
        text::push_decimal(&mut t, n as u128);
        text::push_str(&mut t, " new messages");
        t
    }
}

/// What a message bubble shows as its content.
#[derive(Clone, Copy, Debug, PartialEq, Eq, Structural)]
pub enum BubbleContent {
    /// The message was deleted for everyone: only [`deleted_message_text`].
    Deleted,
    /// A message this app cannot show: an information note with its text.
    Notice,
    /// The media card of a media message.
    Media,
    /// The message text.
    Text,
}

/// The line a deleted message shows in place of its content.
pub fn deleted_message_text() -> (r: &'static str)
    ensures
        r@ == "This message was deleted"@,
{
    "This message was deleted"
}

/// The content of a bubble: a deleted message shows only that it was
/// deleted; an unsupported one a note; a media message its card; anything
/// else its text.
pub open spec fn bubble_content_spec(revoked: bool, kind: MessageKind) -> BubbleContent {
    if revoked {
        BubbleContent::Deleted
    } else if kind is Unsupported {
        BubbleContent::Notice
    } else if media_title(kind) is Some {
        BubbleContent::Media
    } else {
        BubbleContent::Text
    }
}

/// What a bubble shows as its content.
pub fn bubble_content(revoked: bool, kind: &MessageKind) -> (r: BubbleContent)
    ensures
        r == bubble_content_spec(revoked, *kind),
{
    if revoked {
        BubbleContent::Deleted
    } else if let MessageKind::Unsupported = kind {
        BubbleContent::Notice
    } else if media_card(kind, false, None).is_some() {
        BubbleContent::Media
    } else {
        BubbleContent::Text
    }
}

/// The retry button of a bubble: only on our own messages that failed to
/// send, reading `Retrying…` while a retry is on its way and `Retry`
/// otherwise.
pub fn retry_offer(outgoing: bool, status: MessageStatus, retrying: bool) -> (r: Option<&'static str>)
    ensures
        r is Some <==> outgoing && status == MessageStatus::Failed,
        r matches Some(t) ==> t@ == (if retrying { "Retrying…"@ } else { "Retry"@ }),
{
    if outgoing && status == MessageStatus::Failed {
        if retrying {
            Some("Retrying…")
        } else {
            Some("Retry")
        }
    } else {
        None
    }
}

/// The time line of a bubble: `edited · ` first for an edited message,
/// then the time, then (for our own messages) the delivery mark.
pub fn bubble_meta(edited: bool, time: &str, status_mark: Option<&str>) -> (r: String)
    ensures
        r@ == (if edited { "edited · "@ } else { seq![] }) + time@ + match status_mark {
            Some(m) => " "@ + m@,
            None => seq![],
        },
{
    let mut t = String::new();
    if edited {
        text::push_str(&mut t, "edited · ");
    }
    text::push_str(&mut t, time);
    if let Some(m) = status_mark {
        text::push_str(&mut t, " ");
        text::push_str(&mut t, m);
    }
    t
}

/// The subtitle of a contact's header: the number with a leading `+`, or
/// `Contact` when no number is known.
pub fn contact_subtitle(phone_number: Option<&str>) -> (r: String)
    ensures
        r@ == match phone_number {
            Some(n) => "+"@ + n@,
            None => "Contact"@,
        },
{
    match phone_number {
        Some(n) => {
            let mut t = String::from_str("+");
            text::push_str(&mut t, n);
            t
        },
        None => String::from_str("Contact"),
    }
}

/// Who wrote a quoted message, or `Original message` when unknown.
pub fn quoted_sender(sender: Option<&str>) -> (r: String)
    ensures
        r@ == match sender {
            Some(s) => s@,
            None => "Original message"@,
        },
{
    match sender {
        Some(s) => s.to_string(),
        None => String::from_str("Original message"),
    }
}

/// Title and explanation of the leave-group confirmation.
pub fn leave_group_confirmation_copy(target: &GroupLeaveTarget) -> (r: (String, &'static str))
    ensures
        r.0@ == "Leave “"@ + target.group_name@ + "”?"@,
        r.1@
            == "You will stop receiving new messages after the linked account accepts the request. Existing history stays on this device until you delete the chat."@,
{
    let mut title = String::new();
    text::push_str(&mut title, "Leave “");
    text::push_str(&mut title, target.group_name.as_str());
    text::push_str(&mut title, "”?");
    (
        title,
        "You will stop receiving new messages after the linked account accepts the request. Existing history stays on this device until you delete the chat.",
    )
}

/// Title, explanation, confirm label, confirm id and whether the action is
/// destructive, for a group member action.
pub fn group_member_confirmation_copy(action: &GroupMemberAction) -> (r: (
    String,
    &'static str,
    &'static str,
    &'static str,
    bool,
))
    ensures
        action.kind == GroupMemberActionKind::Promote ==> {
            &&& r.0@ == "Make “"@ + action.target.participant_name@ + "” a group admin?"@
            &&& r.1@
                == "Group admins can add and remove participants and change group settings."@
            &&& r.2@ == "Make admin"@
            &&& r.3@ == "confirm-promote-group-member"@
            &&& !r.4
        },
        action.kind == GroupMemberActionKind::Demote ==> {
            &&& r.0@ == "Dismiss “"@ + action.target.participant_name@ + "” as admin?"@
            &&& r.1@
                == "They will remain in the group as a participant but lose admin controls."@
            &&& r.2@ == "Dismiss admin"@
            &&& r.3@ == "confirm-demote-group-member"@
            &&& !r.4
        },
        action.kind == GroupMemberActionKind::Remove ==> {
            &&& r.0@ == "Remove “"@ + action.target.participant_name@ + "” from “"@
                + action.target.group_name@ + "”?"@
            &&& r.1@ == "They will be removed only after the linked account accepts the request."@
            &&& r.2@ == "Remove"@
            &&& r.3@ == "confirm-remove-group-member"@
            &&& r.4
        },
{
    let mut title = String::new();
    match action.kind {
        GroupMemberActionKind::Promote => {
            text::push_str(&mut title, "Make “");
            text::push_str(&mut title, action.target.participant_name.as_str());
            text::push_str(&mut title, "” a group admin?");
            (
                title,
                "Group admins can add and remove participants and change group settings.",
                "Make admin",
                "confirm-promote-group-member",
                false,
            )
        },
        GroupMemberActionKind::Demote => {
            text::push_str(&mut title, "Dismiss “");
            text::push_str(&mut title, action.target.participant_name.as_str());
            text::push_str(&mut title, "” as admin?");
            (
                title,
                "They will remain in the group as a participant but lose admin controls.",
                "Dismiss admin",
                "confirm-demote-group-member",
                false,
            )
        },
        GroupMemberActionKind::Remove => {
            text::push_str(&mut title, "Remove “");
            text::push_str(&mut title, action.target.participant_name.as_str());
            text::push_str(&mut title, "” from “");
            text::push_str(&mut title, action.target.group_name.as_str());
            text::push_str(&mut title, "”?");
            (
                title,
                "They will be removed only after the linked account accepts the request.",
                "Remove",
                "confirm-remove-group-member",
                true,
            )
        },
    }
}

/// A chat action synchronized with the linked account.
#[derive(Debug)]
pub enum ChatAction {
    Clear { chat: String, delete_starred: bool, delete_media: bool },
    Delete { chat: String, delete_media: bool },
    Pin { chat: String, pinned: bool },
    Mute { chat: String, muted: bool },
    Archive { chat: String, archived: bool },
    MarkRead { chat: String, read: bool },
}

impl ChatAction {
    /// Clearing and deleting lose data and need confirmation.
    pub fn is_destructive(&self) -> (r: bool)
        ensures
            r == (self is Clear || self is Delete),
    {
        match self {
            ChatAction::Clear { .. } => true,
            ChatAction::Delete { .. } => true,
            _ => false,
        }
    }
}

/// Title, explanation, confirm label and confirm id for a chat action on
/// the chat named `name`.
pub fn chat_confirmation_copy(action: &ChatAction, name: &str) -> (r: (
    String,
    &'static str,
    &'static str,
    &'static str,
))
    ensures
        action is Clear ==> {
            &&& r.0@ == "Clear messages in “"@ + name@ + "”?"@
            &&& r.1@
                == "Messages are removed from this chat after synchronization. Starred messages remain in the chat, and downloaded files stay on this device."@
            &&& r.2@ == "Clear messages"@
            &&& r.3@ == "confirm-clear-chat"@
        },
        action is Delete ==> {
            &&& r.0@ == "Delete chat with “"@ + name@ + "”?"@
            &&& r.1@
                == "This removes the conversation from your chat list after synchronization. It does not delete messages from other participants, and downloaded files stay on this device."@
            &&& r.2@ == "Delete chat"@
            &&& r.3@ == "confirm-delete-chat"@
        },
        !(action is Clear) && !(action is Delete) ==> {
            &&& r.0@ == "Update “"@ + name@ + "”?"@
            &&& r.1@ == "This action will be synchronized with your linked account."@
            &&& r.2@ == "Confirm"@
            &&& r.3@ == "confirm-chat-action"@
        },
{
    let mut title = String::new();
    match action {
        ChatAction::Clear { .. } => {
            text::push_str(&mut title, "Clear messages in “");
            text::push_str(&mut title, name);
            text::push_str(&mut title, "”?");
            (
                title,
                "Messages are removed from this chat after synchronization. Starred messages remain in the chat, and downloaded files stay on this device.",
                "Clear messages",
                "confirm-clear-chat",
            )
        },
        ChatAction::Delete { .. } => {
            text::push_str(&mut title, "Delete chat with “");
            text::push_str(&mut title, name);
            text::push_str(&mut title, "”?");
            (
                title,
                "This removes the conversation from your chat list after synchronization. It does not delete messages from other participants, and downloaded files stay on this device.",
                "Delete chat",
                "confirm-delete-chat",
            )
        },
        _ => {
            text::push_str(&mut title, "Update “");
            text::push_str(&mut title, name);
            text::push_str(&mut title, "”?");
            (
                title,
                "This action will be synchronized with your linked account.",
                "Confirm",
                "confirm-chat-action",
            )
        },
    }
}

} // verus!
