//! Message composer rules: what Enter does, where the caret lands in a
//! restored draft, the one-line previews of replied-to and edited messages,
//! and the size label of a staged attachment.

use vstd::prelude::*;
use crate::text;
use crate::binary64;

verus! {

/// What a press of Enter in the composer should do.
#[derive(Clone, Copy, Debug, PartialEq, Eq, Structural)]
pub enum EnterBehavior {
    Submit,
    InsertNewline,
    AlreadyHandled,
}

/// Modified Enter (secondary or Shift) is already handled by the input as a
/// newline; plain Enter sends when the user enabled enter-to-send and inserts
/// a newline otherwise.
pub fn enter_behavior(secondary: bool, shift: bool, enter_to_send: bool) -> (r: EnterBehavior)
    ensures
        (secondary || shift) ==> r == EnterBehavior::AlreadyHandled,
        (!secondary && !shift && enter_to_send) ==> r == EnterBehavior::Submit,
        (!secondary && !shift && !enter_to_send) ==> r == EnterBehavior::InsertNewline,
{
    if secondary || shift {
        EnterBehavior::AlreadyHandled
    } else if enter_to_send {
        EnterBehavior::Submit
    } else {
        EnterBehavior::InsertNewline
    }
}

/// A caret position: zero-based line and character column.
#[derive(Clone, Copy, Debug, PartialEq, Eq, Structural)]
pub struct Position {
    pub line: u32,
    pub character: u32,
}

impl Position {
    /// A caret position.
    pub fn new(line: u32, character: u32) -> (p: Position)
        ensures
            p.line == line,
            p.character == character,
    {
        Position { line, character }
    }
}

/// How many times `c` occurs in `s`.
pub open spec fn count_char(s: Seq<char>, c: char) -> nat
    decreases s.len(),
{
    if s.len() == 0 {
        0
    } else {
        count_char(s.drop_last(), c) + if s.last() == c {
            1nat
        } else {
            0nat
        }
    }
}

/// Number of characters after the last line break.
pub open spec fn last_line_len(s: Seq<char>) -> nat
    decreases s.len(),
{
    if s.len() == 0 || s.last() == '\n' {
        0
    } else {
        last_line_len(s.drop_last()) + 1
    }
}

/// `n` reduced to the 32-bit range, as an `as u32` cast does.
pub open spec fn wrap_u32(n: nat) -> nat {
    n % 0x1_0000_0000
}

fn usize_to_u32(n: usize) -> (r: u32)
    ensures
        r == wrap_u32(n as nat),
{
    assert((n as u32) as int == (n as int) % 0x1_0000_0000) by (bit_vector);
    n as u32
}

/// The caret position at the very end of `value`: its line is the number of
/// line breaks, its column the number of characters on the last line.
pub fn end_position(value: &str) -> (p: Position)
    ensures
        p.line == wrap_u32(count_char(value@, '\n')),
        p.character == wrap_u32(last_line_len(value@)),
{
    let v = text::chars_of(value);
    let mut lines: usize = 0;
    let mut column: usize = 0;
    for i in 0..v.len()
        invariant
            lines == count_char(v@.take(i as int), '\n'),
            column == last_line_len(v@.take(i as int)),
            lines <= i,
            column <= i,
    {
        assert(v@.take(i + 1).drop_last() == v@.take(i as int));
        if v[i] == '\n' {
            lines = lines + 1;
            column = 0;
        } else {
            column = column + 1;
        }
    }
    assert(v@.take(v@.len() as int) == v@);
    Position::new(usize_to_u32(lines), usize_to_u32(column))
}

/// Longest preview kept before the ellipsis.
pub const PREVIEW_CHARS: usize = 120;

/// The one-line preview: white space collapsed, cut to 120 characters, with
/// `…` appended when something was cut.
pub open spec fn compact_preview_spec(text: Seq<char>) -> Seq<char> {
    let n = text::collapse_ws(text);
    if n.len() > 120 {
        n.take(120).push('…')
    } else {
        n
    }
}

/// One-line preview of a message body for the reply and edit banners.
pub fn compact_preview(text: &str) -> (r: String)
    ensures
        r@ == compact_preview_spec(text@),
        forall|j: int| 0 <= j < r@.len() ==> #[trigger] r@[j] != '\n',
{
    let v = text::chars_of(text);
    let n = text::collapse_whitespace(v.as_slice());
    proof {
        text::lemma_collapse_ws_single_spaces(v@);
    }
    if n.len() > PREVIEW_CHARS {
        let mut out = String::new();
        let mut i: usize = 0;
        while i < PREVIEW_CHARS
            invariant
                n@.len() > 120,
                i <= 120,
                out@ == n@.take(i as int),
            decreases 120 - i,
        {
            text::push_char(&mut out, n[i]);
            assert(n@.take(i + 1) == n@.take(i as int).push(n@[i as int]));
            i = i + 1;
        }
        text::push_char(&mut out, '…');
        proof {
            assert forall|j: int| 0 <= j < out@.len() implies #[trigger] out@[j] != '\n' by {
                if j < 120 {
                    assert(out@[j] == text::collapse_ws(v@)[j]);
                }
            }
        }
        out
    } else {
        text::string_from_chars(n.as_slice())
    }
}

/// Kinds of files a message can carry.
#[derive(Clone, Copy, Debug, PartialEq, Eq, Structural)]
pub enum AttachmentKind {
    Image,
    Video,
    Audio,
    Document,
}

/// The label shown on a staged attachment.
pub fn attachment_kind_label(kind: AttachmentKind) -> (r: &'static str)
    ensures
        kind == AttachmentKind::Image ==> r@ == "Image"@,
        kind == AttachmentKind::Video ==> r@ == "Video"@,
        kind == AttachmentKind::Audio ==> r@ == "Audio"@,
        kind == AttachmentKind::Document ==> r@ == "Document"@,
{
    match kind {
        AttachmentKind::Image => "Image",
        AttachmentKind::Video => "Video",
        AttachmentKind::Audio => "Audio",
        AttachmentKind::Document => "Document",
    }
}

/// Size label of a staged attachment: binary units, one decimal below a
/// mebibyte boundary rounded to the nearest tenth (ties to even), and plain
/// bytes under a kibibyte. The count is taken as a double first, which
/// changes it only above 2^53.
pub open spec fn attachment_size_label(bytes: nat) -> Seq<char> {
    if bytes >= 1048576 {
        text::fixed(text::round_half_even(binary64::integer_as_double(bytes) * 10, 1048576), 1) + " MiB"@
    } else if bytes >= 1024 {
        text::fixed(text::round_half_even(binary64::integer_as_double(bytes) * 10, 1024), 1) + " KiB"@
    } else {
        text::decimal(bytes) + " B"@
    }
}

/// Human-readable size of a staged attachment.
pub fn format_bytes(bytes: u64) -> (r: String)
    ensures
        r@ == attachment_size_label(bytes as nat),
{
    let mut s = String::new();
    let b = binary64::u64_as_double(bytes);
    if bytes >= 1048576 {
        text::push_fixed(&mut s, text::div_round_half_even(b * 10, 1048576), 1);
        text::push_str(&mut s, " MiB");
    } else if bytes >= 1024 {
        text::push_fixed(&mut s, text::div_round_half_even(b * 10, 1024), 1);
        text::push_str(&mut s, " KiB");
    } else {
        text::push_decimal(&mut s, b);
        text::push_str(&mut s, " B");
    }
    s
}

/// What the composer offers, given the session and the open chat.
pub struct ComposerControls {
    /// Typing and attaching are possible.
    pub can_compose: bool,
    /// The send button is shown (there is something to send, or a send or
    /// edit is on its way).
    pub send_shown: bool,
    /// The send button sends.
    pub send_enabled: bool,
    /// The send button's tooltip.
    pub send_label: &'static str,
    /// The attach button attaches.
    pub attach_enabled: bool,
    /// The emoji picker is (still) open.
    pub picker_open: bool,
}

/// The composer's controls: composing needs a session that can send, a
/// selected chat, and no attachment being staged or sent and no edit on its
/// way; sending needs text (not only white space) or an attachment too;
/// attaching needs no attachment staged and no edit going on; the emoji
/// picker closes whenever composing is not possible.
pub fn composer_controls(
    session_can_send: bool,
    chat_selected: bool,
    staging: bool,
    sending: bool,
    editing: bool,
    editing_in_flight: bool,
    text: &str,
    has_attachment: bool,
    picker_open: bool,
) -> (r: ComposerControls)
    ensures
        r.picker_open == (r.can_compose && picker_open),
        !session_can_send || !chat_selected ==> !r.can_compose && !r.send_enabled
            && !r.attach_enabled && !r.picker_open,
        r.can_compose == (session_can_send && chat_selected && !staging && !sending
            && !editing_in_flight),
        ({
            let has_payload = text::trimmed(text@).len() > 0 || has_attachment;
            let busy = sending || editing_in_flight;
            &&& r.send_shown == (has_payload || busy)
            &&& r.send_enabled == (r.can_compose && has_payload && !busy)
        }),
        r.attach_enabled == (r.can_compose && !has_attachment && !editing),
        r.send_label@ == (if sending {
            "Sending…"@
        } else if editing_in_flight {
            "Saving…"@
        } else if editing && r.can_compose {
            "Save edit"@
        } else if r.can_compose {
            "Send message"@
        } else if !session_can_send {
            "Connect to send"@
        } else {
            "Select a chat"@
        }),
{
    let can_compose = session_can_send && chat_selected && !staging && !sending && !editing_in_flight;
    let chars = text::chars_of(text);
    let (a, b) = text::trim_bounds(chars.as_slice());
    let has_payload = b > a || has_attachment;
    let busy = sending || editing_in_flight;
    let send_label = if sending {
        "Sending…"
    } else if editing_in_flight {
        "Saving…"
    } else if editing && can_compose {
        "Save edit"
    } else if can_compose {
        "Send message"
    } else if !session_can_send {
        "Connect to send"
    } else {
        "Select a chat"
    };
    ComposerControls {
        can_compose,
        send_shown: has_payload || busy,
        send_enabled: can_compose && has_payload && !busy,
        send_label,
        attach_enabled: can_compose && !has_attachment && !editing,
        picker_open: crate::emoji::picker_stays_open(can_compose, picker_open),
    }
}

/// The reply banner: who wrote the message replied to and a one-line
/// preview, or a placeholder when that message is not loaded.
pub fn reply_banner(quoted: Option<(&str, &str)>) -> (r: (String, String))
    ensures
        match quoted {
            Some(q) => r.0@ == q.0@ && r.1@ == compact_preview_spec(q.1@),
            None => r.0@ == "Original message"@ && r.1@ == "Preview unavailable in this history window"@,
        },
{
    match quoted {
        Some((sender, body)) => (sender.to_string(), compact_preview(body)),
        None => (
            String::from_str("Original message"),
            String::from_str("Preview unavailable in this history window"),
        ),
    }
}

/// The edit banner: a one-line preview of the text being edited, or a
/// placeholder when that message is not loaded.
pub fn edit_banner(original: Option<&str>) -> (r: String)
    ensures
        match original {
            Some(t) => r@ == compact_preview_spec(t@),
            None => r@ == "Original text is outside this history window"@,
        },
{
    match original {
        Some(t) => compact_preview(t),
        None => String::from_str("Original text is outside this history window"),
    }
}

} // verus!
