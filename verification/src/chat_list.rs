//! Chat list row copy: unread badge, preview line and avatar initial.

use vstd::prelude::*;
use crate::text;

verus! {

/// The unread badge: none at zero, a dot for a chat marked unread (negative
/// count), `99+` above ninety-nine, the count otherwise.
pub open spec fn unread_badge(n: int) -> Option<Seq<char>> {
    if n == 0 {
        None
    } else if n < 0 {
        Some("•"@)
    } else if n > 99 {
        Some("99+"@)
    } else {
        Some(text::decimal(n as nat))
    }
}

/// The unread badge of a chat row, if it shows one.
pub fn unread_label(unread: i64) -> (r: Option<String>)
    ensures
        match r {
            Some(s) => unread_badge(unread as int) == Some(s@),
            None => unread_badge(unread as int) is None,
        },
{
    if unread == 0 {
        None
    } else if unread < 0 {
        Some(String::from_str("•"))
    } else if unread > 99 {
        Some(String::from_str("99+"))
    } else {
        let mut s = String::new();
        text::push_decimal(&mut s, unread as u128);
        Some(s)
    }
}

/// The second line of a chat row: the typing indicator while someone types,
/// else the last message preview (empty when there is none).
pub fn row_preview(typing_here: bool, last_message_preview: &Option<String>) -> (r: String)
    ensures
        typing_here ==> r@ == "typing…"@,
        !typing_here ==> r@ == match last_message_preview {
            Some(p) => p@,
            None => Seq::<char>::empty(),
        },
{
    if typing_here {
        String::from_str("typing…")
    } else {
        match last_message_preview {
            Some(p) => p.clone(),
            None => String::new(),
        }
    }
}

/// The avatar fallback: the first character of the name, `#` for none.
pub fn first_initial(name: &str) -> (r: String)
    ensures
        name@.len() > 0 ==> r@ == seq![name@[0]],
        name@.len() == 0 ==> r@ == seq!['#'],
{
    let v = text::chars_of(name);
    let mut s = String::new();
    if v.len() > 0 {
        text::push_char(&mut s, v[0]);
    } else {
        text::push_char(&mut s, '#');
    }
    s
}

} // verus!
