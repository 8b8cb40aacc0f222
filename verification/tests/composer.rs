use wasabi::composer::{
    attachment_kind_label, compact_preview, end_position, enter_behavior, format_bytes,
    AttachmentKind, EnterBehavior, Position,
};

#[test]
fn attachment_metadata_labels_are_stable_and_human_readable() {
    assert_eq!(format_bytes(42), "42 B");
    assert_eq!(format_bytes(1536), "1.5 KiB");
    assert_eq!(format_bytes(2 * 1024 * 1024), "2.0 MiB");
    assert_eq!(attachment_kind_label(AttachmentKind::Document), "Document");
}

#[test]
fn reply_preview_normalizes_lines_and_respects_unicode_boundaries() {
    let source = format!("first\n{} tail", "界".repeat(130));
    let preview = compact_preview(&source);
    assert!(!preview.contains('\n'));
    assert!(preview.ends_with('…'));
    assert!(preview.is_char_boundary(preview.len()));
}

#[test]
fn enter_policy_matches_desktop_messaging_conventions() {
    assert_eq!(enter_behavior(false, false, true), EnterBehavior::Submit);
    assert_eq!(enter_behavior(false, false, false), EnterBehavior::InsertNewline);
    assert_eq!(enter_behavior(false, true, true), EnterBehavior::AlreadyHandled);
    assert_eq!(enter_behavior(false, true, false), EnterBehavior::AlreadyHandled);
}

#[test]
fn restored_multilingual_drafts_place_the_cursor_at_the_true_end() {
    assert_eq!(end_position("hello"), Position::new(0, 5));
    assert_eq!(end_position("hello\n界🎉"), Position::new(1, 2));
    assert_eq!(end_position("trailing\n"), Position::new(1, 0));
}

#[test]
fn format_bytes_rounds_to_the_nearest_tenth() {
    assert_eq!(format_bytes(0), "0 B");
    assert_eq!(format_bytes(1023), "1023 B");
    assert_eq!(format_bytes(1024), "1.0 KiB");
    // 1126.4 bytes per tenth: 1075 / 1024 = 1.0498 -> 1.0
    assert_eq!(format_bytes(1075), "1.0 KiB");
    assert_eq!(format_bytes(1076), "1.1 KiB");
    assert_eq!(format_bytes(1048575), "1024.0 KiB");
    assert_eq!(format_bytes(u64::MAX), "17592186044416.0 MiB");
}

#[test]
fn compact_preview_collapses_and_keeps_short_text() {
    assert_eq!(compact_preview("  a \t b\n\nc  "), "a b c");
    assert_eq!(compact_preview(""), "");
    let long = "x".repeat(121);
    let preview = compact_preview(&long);
    assert_eq!(preview.chars().count(), 121);
    assert!(preview.ends_with('…'));
    assert_eq!(compact_preview(&"y".repeat(120)), "y".repeat(120));
}

#[test]
fn composer_controls_follow_session_chat_and_payload() {
    let c = wasabi::composer::composer_controls(true, true, false, false, false, false, "  hi ", false, true);
    assert!(c.can_compose && c.send_shown && c.send_enabled && c.attach_enabled);
    assert_eq!(c.send_label, "Send message");
    let c = wasabi::composer::composer_controls(true, true, false, false, false, false, " \n ", false, true);
    assert!(c.can_compose && !c.send_shown && !c.send_enabled);
    let c = wasabi::composer::composer_controls(true, true, false, false, false, false, "", true, true);
    assert!(c.send_enabled && !c.attach_enabled);
    let c = wasabi::composer::composer_controls(true, true, false, true, false, false, "", true, true);
    assert!(!c.can_compose && c.send_shown && !c.send_enabled);
    assert_eq!(c.send_label, "Sending…");
    let c = wasabi::composer::composer_controls(true, true, false, false, true, true, "x", false, true);
    assert_eq!(c.send_label, "Saving…");
    let c = wasabi::composer::composer_controls(true, true, false, false, true, false, "x", false, true);
    assert_eq!(c.send_label, "Save edit");
    assert!(!c.attach_enabled);
    let c = wasabi::composer::composer_controls(false, true, false, false, false, false, "x", false, true);
    assert_eq!(c.send_label, "Connect to send");
    let c = wasabi::composer::composer_controls(true, false, false, false, false, false, "x", false, true);
    assert_eq!(c.send_label, "Select a chat");
    let c = wasabi::composer::composer_controls(true, true, true, false, false, false, "x", false, true);
    assert!(!c.can_compose && !c.picker_open);
    let c = wasabi::composer::composer_controls(false, true, false, false, false, false, "x", false, true);
    assert!(!c.picker_open);
    let c = wasabi::composer::composer_controls(true, false, false, false, false, false, "x", false, true);
    assert!(!c.picker_open);
    let c = wasabi::composer::composer_controls(true, true, false, false, false, false, "x", false, true);
    assert!(c.picker_open);
    let c = wasabi::composer::composer_controls(true, true, false, false, false, false, "x", false, false);
    assert!(!c.picker_open);
    assert!(!wasabi::emoji::picker_stays_open(false, true));
    assert!(wasabi::emoji::picker_stays_open(true, true));
}

#[test]
fn reply_and_edit_banners_fall_back_when_the_message_is_not_loaded() {
    let (who, what) = wasabi::composer::reply_banner(Some(("You", "line one\nline   two")));
    assert_eq!((who.as_str(), what.as_str()), ("You", "line one line two"));
    let (who, what) = wasabi::composer::reply_banner(None);
    assert_eq!((who.as_str(), what.as_str()), ("Original message", "Preview unavailable in this history window"));
    assert_eq!(wasabi::composer::edit_banner(Some(" a\tb ")), "a b");
    assert_eq!(wasabi::composer::edit_banner(None), "Original text is outside this history window");
}

#[test]
fn sizes_past_two_to_the_fifty_third_follow_the_double() {
    let reference = |bytes: u64| -> String {
        const MIB: f64 = 1024.0 * 1024.0;
        const KIB: f64 = 1024.0;
        if bytes >= 1024 * 1024 {
            format!("{:.1} MiB", bytes as f64 / MIB)
        } else if bytes >= 1024 {
            format!("{:.1} KiB", bytes as f64 / KIB)
        } else {
            format!("{bytes} B")
        }
    };
    let mut x: u64 = 0x9E37_79B9_7F4A_7C15;
    for shift in 0..64u32 {
        for _ in 0..300 {
            x = x.wrapping_mul(6364136223846793005).wrapping_add(1442695040888963407);
            let b = x >> shift;
            assert_eq!(format_bytes(b), reference(b), "{b}");
            let near_tie = (b | 0x7_FFFF) ^ 0x4_0000;
            assert_eq!(format_bytes(near_tie), reference(near_tie), "{near_tie}");
        }
    }
    assert_eq!(format_bytes(u64::MAX), reference(u64::MAX));
    assert_eq!(format_bytes((1u64 << 60) + (1 << 18) * 5 + 1), reference((1u64 << 60) + (1 << 18) * 5 + 1));
}
