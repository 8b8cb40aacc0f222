use wasabi::chat_list::{first_initial, row_preview, unread_label};

#[test]
fn unread_badges_cap_at_ninety_nine_and_mark_manual_unread() {
    assert_eq!(unread_label(0), None);
    assert_eq!(unread_label(-1).as_deref(), Some("•"));
    assert_eq!(unread_label(7).as_deref(), Some("7"));
    assert_eq!(unread_label(99).as_deref(), Some("99"));
    assert_eq!(unread_label(100).as_deref(), Some("99+"));
}

#[test]
fn typing_replaces_the_preview_line() {
    let preview = Some("see you".to_string());
    assert_eq!(row_preview(true, &preview), "typing…");
    assert_eq!(row_preview(false, &preview), "see you");
    assert_eq!(row_preview(false, &None), "");
}

#[test]
fn avatar_initial_is_the_first_character() {
    assert_eq!(first_initial("Émile"), "É");
    assert_eq!(first_initial(""), "#");
}
