//! The conversation data the views read: chats, contacts, messages, media
//! and the people behind reactions and receipts.

use vstd::prelude::*;
use crate::text;

verus! {

/// What kind of conversation a chat is.
#[derive(Clone, Copy, Debug, PartialEq, Eq, Structural)]
pub enum ChatKind {
    Direct,
    Group,
    Newsletter,
    System,
}

/// One row of the chat list.
#[derive(Debug)]
pub struct ChatSummary {
    pub id: String,
    pub kind: ChatKind,
    pub display_name: Option<String>,
    pub last_activity_ms: i64,
    pub last_message_preview: Option<String>,
    pub unread_count: i64,
    pub pinned_at_ms: Option<i64>,
    pub muted_until_ms: Option<i64>,
    pub archived: bool,
    pub favorite: bool,
    pub draft_preview: Option<String>,
}

/// One address-book entry.
#[derive(Debug)]
pub struct ContactSummary {
    pub jid: String,
    pub display_name: String,
    pub phone_number: Option<String>,
}

/// Metadata of an attachment carried by a message.
#[derive(Debug)]
pub struct MediaDescriptor {
    pub id: String,
    pub mime_type: Option<String>,
    pub file_name: Option<String>,
    pub file_size: Option<u64>,
    pub duration_seconds: Option<u32>,
    pub width: Option<u32>,
    pub height: Option<u32>,
}

/// The content of a message.
#[derive(Debug)]
pub enum MessageKind {
    Text { body: String },
    Image { caption: Option<String>, media: MediaDescriptor },
    Video { caption: Option<String>, video_note: bool, media: MediaDescriptor },
    Audio { voice_note: bool, media: MediaDescriptor },
    Document { media: MediaDescriptor },
    Sticker { animated: bool, media: MediaDescriptor },
    Unsupported,
}

/// Delivery state of a message or of one recipient's receipt.
#[derive(Clone, Copy, Debug, PartialEq, Eq, Structural)]
pub enum MessageStatus {
    Pending,
    Sent,
    Delivered,
    Read,
    Played,
    Failed,
}

/// A message of the open timeline, as far as the views read it.
#[derive(Debug)]
pub struct MessageRow {
    pub id: String,
    pub chat: String,
    pub timestamp_ms: i64,
    pub kind: MessageKind,
    /// When the text was last edited, if ever.
    pub edited_at_ms: Option<i64>,
}

/// Someone who reacted to a message.
#[derive(Debug)]
pub struct ReactionActor {
    pub display_name: String,
    pub emoji: String,
    pub is_self: bool,
}

/// Someone whose device acknowledged a message.
#[derive(Debug)]
pub struct ReceiptActor {
    pub display_name: String,
    pub status: MessageStatus,
    pub timestamp_ms: i64,
}

/// The name a chat is listed under: its display name when it has a
/// non-blank one, otherwise the user part of its JID. The chat store that
/// names chats for the service is not part of this library; this is the rule
/// the library adopts in its place.
pub open spec fn chat_name(chat: ChatSummary) -> Seq<char> {
    match chat.display_name {
        Some(n) => if text::trimmed(n@).len() > 0 {
            n@
        } else {
            text::before_first(chat.id@, '@')
        },
        None => text::before_first(chat.id@, '@'),
    }
}

/// The name a chat is listed under.
pub fn fallback_name(chat: &ChatSummary) -> (r: String)
    ensures
        r@ == chat_name(*chat),
{
    if let Some(n) = &chat.display_name {
        if !text::is_blank(n.as_str()) {
            return n.clone();
        }
    }
    let v = text::chars_of(chat.id.as_str());
    let user = text::prefix_before(v.as_slice(), '@');
    text::string_from_chars(user.as_slice())
}


/// A copy of an optional text.
pub fn clone_opt_string(o: &Option<String>) -> (r: Option<String>)
    ensures
        r == *o,
{
    match o {
        Some(s) => Some(s.clone()),
        None => None,
    }
}

impl ContactSummary {
    /// A field-for-field copy.
    pub fn duplicate(&self) -> (r: ContactSummary)
        ensures
            r == *self,
    {
        ContactSummary {
            jid: self.jid.clone(),
            display_name: self.display_name.clone(),
            phone_number: clone_opt_string(&self.phone_number),
        }
    }
}

/// A value compared by its view: two row identities, two names or two
/// numbers are the same when their views are.
pub trait SameView: View + Sized {
    /// Whether `self` and `other` have the same view.
    fn same_view(&self, other: &Self) -> (r: bool)
        ensures
            r == (self@ == other@),
    ;
}

impl<'a> SameView for &'a str {
    fn same_view(&self, other: &Self) -> (r: bool) {
        text::same_text(self, other)
    }
}

impl SameView for String {
    fn same_view(&self, other: &Self) -> (r: bool) {
        text::same_text(self.as_str(), other.as_str())
    }
}

impl SameView for u8 {
    fn same_view(&self, other: &Self) -> (r: bool) {
        *self == *other
    }
}

/// The views of a sequence of values.
pub open spec fn views<T: View>(s: Seq<T>) -> Seq<T::V> {
    s.map_values(|x: T| x@)
}

} // verus!
