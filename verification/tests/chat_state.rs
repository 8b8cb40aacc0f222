use wasabi::chat_state::{
    apply_quick_action, chat_index, draft_preview, keeps_draft, plan_open_chat, remove_chat,
    restore_flags, rollback_favorite, settle_destructive, settle_quick_action, toggle_favorite, DestructiveOutcome,
};
use wasabi::chat_state::{route_invalidation, DetailsKind, Invalidation};
use wasabi::conversation::ChatAction;
use wasabi::model::{ChatKind, ChatSummary};

fn chat(id: &str, kind: ChatKind, unread: i64) -> ChatSummary {
    ChatSummary {
        id: id.to_string(),
        kind,
        display_name: None,
        last_activity_ms: 5,
        last_message_preview: None,
        unread_count: unread,
        pinned_at_ms: None,
        muted_until_ms: Some(3),
        archived: false,
        favorite: true,
        draft_preview: None,
    }
}

#[test]
fn quick_actions_show_at_once_and_roll_back_exactly() {
    let mut row = chat("a", ChatKind::Direct, 4);
    let before = apply_quick_action(&mut row, &ChatAction::Pin { chat: "a".to_string(), pinned: true }, 1000);
    assert_eq!(row.pinned_at_ms, Some(1000));
    restore_flags(&mut row, before);
    assert_eq!(row.pinned_at_ms, None);
    assert_eq!(row.muted_until_ms, Some(3));

    let before = apply_quick_action(&mut row, &ChatAction::Mute { chat: "a".to_string(), muted: true }, 1000);
    assert_eq!(row.muted_until_ms, Some(i64::MAX));
    restore_flags(&mut row, before);
    assert_eq!(row.muted_until_ms, Some(3));

    apply_quick_action(&mut row, &ChatAction::MarkRead { chat: "a".to_string(), read: false }, 1000);
    assert_eq!(row.unread_count, -1);
    apply_quick_action(&mut row, &ChatAction::MarkRead { chat: "a".to_string(), read: true }, 1000);
    assert_eq!(row.unread_count, 0);
    apply_quick_action(&mut row, &ChatAction::Archive { chat: "a".to_string(), archived: true }, 1000);
    assert!(row.archived);
    assert!(row.favorite);
}

#[test]
fn draft_lines_prefer_text_then_attachment_then_reply() {
    assert_eq!(draft_preview("hi ", Some("photo.jpg"), true).as_deref(), Some("hi "));
    assert_eq!(draft_preview("  ", Some("photo.jpg"), true).as_deref(), Some("Attachment: photo.jpg"));
    assert_eq!(draft_preview("", None, true).as_deref(), Some("Replying to a message"));
    assert_eq!(draft_preview("", None, false), None);
    assert!(keeps_draft(" x", false, false, false));
    assert!(keeps_draft("", false, false, true));
    assert!(!keeps_draft("  ", false, false, false));
}

#[test]
fn opening_a_chat_stops_typing_elsewhere_and_marks_it_read() {
    let chats = vec![chat("a", ChatKind::Direct, 2), chat("n", ChatKind::Newsletter, 0)];
    assert!(plan_open_chat(Some("a"), "a", false, &chats, true, true).is_none());
    let again = plan_open_chat(Some("a"), "a", true, &chats, true, true).expect("search result");
    assert_eq!(again.stop_typing_in, None);
    assert!(!again.near_bottom);

    let plan = plan_open_chat(Some("n"), "a", false, &chats, true, true).expect("other chat");
    assert_eq!(plan.stop_typing_in.as_deref(), Some("n"));
    assert!(plan.request_avatar);
    assert!(plan.mark_read);
    assert!(plan.near_bottom);

    let background = plan_open_chat(None, "a", false, &chats, false, true).expect("first chat");
    assert!(!background.mark_read);

    let news = plan_open_chat(Some("a"), "n", false, &chats, true, true).expect("newsletter");
    assert!(!news.request_avatar);
    assert!(!news.mark_read);
    assert_eq!(chat_index(&chats, "n"), Some(1));
    assert_eq!(chat_index(&chats, "zz"), None);
}

#[test]
fn clearing_empties_the_row_and_deleting_removes_it() {
    let mut chats = vec![chat("a", ChatKind::Direct, 3), chat("b", ChatKind::Group, 1)];
    chats[0].last_message_preview = Some("hi".to_string());
    let clear = ChatAction::Clear { chat: "a".to_string(), delete_starred: false, delete_media: false };
    let outcome = settle_destructive(&mut chats, &clear, Some("a"));
    assert_eq!(outcome, DestructiveOutcome { reset_open_timeline: true, close_chat: false });
    assert_eq!(chats[0].last_message_preview, None);
    assert_eq!(chats[0].unread_count, 0);
    assert_eq!(chats[1].unread_count, 1);

    let delete = ChatAction::Delete { chat: "b".to_string(), delete_media: false };
    let outcome = settle_destructive(&mut chats, &delete, Some("a"));
    assert_eq!(outcome, DestructiveOutcome { reset_open_timeline: false, close_chat: false });
    assert_eq!(chats.len(), 1);
    assert_eq!(chats[0].id, "a");

    let mut twice = vec![chat("x", ChatKind::Direct, 0), chat("y", ChatKind::Direct, 0), chat("x", ChatKind::Direct, 0)];
    remove_chat(&mut twice, "x");
    assert_eq!(twice.len(), 1);
    assert_eq!(twice[0].id, "y");
}

#[test]
fn favorite_toggles_at_once_and_a_refusal_puts_it_back() {
    let mut chats = vec![chat("a", ChatKind::Direct, 0), chat("b", ChatKind::Group, 0)];
    assert_eq!(toggle_favorite(&mut chats, None), None);
    assert_eq!(toggle_favorite(&mut chats, Some("zz")), None);
    assert!(chats[0].favorite && chats[1].favorite);

    let sent = toggle_favorite(&mut chats, Some("b"));
    assert_eq!(sent, Some(false));
    assert!(chats[0].favorite);
    assert!(!chats[1].favorite);

    rollback_favorite(&mut chats, "b", false);
    assert!(chats[1].favorite);
    // A row that no longer shows the sent mark is left alone.
    rollback_favorite(&mut chats, "b", false);
    assert!(chats[1].favorite);
    rollback_favorite(&mut chats, "missing", true);
    assert_eq!(chats.len(), 2);
}

#[test]
fn announced_changes_reload_what_they_make_stale() {
    let chats = vec![chat("d", ChatKind::Direct, 0), chat("n", ChatKind::Newsletter, 0)];
    let plan = route_invalidation(&Invalidation::Chats, true, Some("d"), &chats, true, Some(DetailsKind::Direct));
    assert!(plan.refresh_chats && !plan.reload_contact_query && !plan.reload_details);
    assert!(plan.refresh_avatar.is_none() && plan.consider_notification.is_none() && !plan.refresh_messages);

    let plan = route_invalidation(&Invalidation::Contacts, true, Some("d"), &chats, true, Some(DetailsKind::Group));
    assert!(plan.refresh_chats && plan.reload_contact_query && plan.reload_details);
    assert_eq!(plan.refresh_avatar.as_deref(), Some("d"));

    let plan = route_invalidation(&Invalidation::Contacts, false, Some("n"), &chats, true, Some(DetailsKind::Other));
    assert!(!plan.reload_contact_query && !plan.reload_details && plan.refresh_avatar.is_none());
    let plan = route_invalidation(&Invalidation::Contacts, false, Some("zz"), &chats, false, Some(DetailsKind::Direct));
    assert!(plan.refresh_avatar.is_none() && !plan.reload_details);

    let change = Invalidation::Messages { chat: "d".to_string() };
    let plan = route_invalidation(&change, false, Some("d"), &chats, false, None);
    assert!(plan.refresh_messages && !plan.refresh_chats);
    assert_eq!(plan.consider_notification.as_deref(), Some("d"));
    let plan = route_invalidation(&change, false, Some("n"), &chats, false, None);
    assert!(!plan.refresh_messages);
    assert_eq!(plan.consider_notification.as_deref(), Some("d"));
}

#[test]
fn a_refused_quick_action_puts_the_flags_back_and_shows_the_error() {
    let mut chats = vec![chat("a", ChatKind::Direct, 4), chat("b", ChatKind::Group, 2)];
    let before = apply_quick_action(&mut chats[1], &ChatAction::Archive { chat: "b".to_string(), archived: true }, 7);
    assert!(chats[1].archived);
    let mut error = None;
    settle_quick_action(&mut chats, &mut error, "b", before, Err("Not connected".to_string()));
    assert_eq!(error.as_deref(), Some("Not connected"));
    assert!(!chats[1].archived);
    assert_eq!(chats[1].unread_count, 2);
    assert_eq!(chats[1].muted_until_ms, Some(3));
    assert_eq!(chats[1].pinned_at_ms, None);
    assert_eq!(chats[0].unread_count, 4);

    let before = apply_quick_action(&mut chats[0], &ChatAction::MarkRead { chat: "a".to_string(), read: true }, 7);
    let mut error = Some("older".to_string());
    settle_quick_action(&mut chats, &mut error, "a", before, Ok(()));
    assert_eq!(chats[0].unread_count, 0);
    assert_eq!(error.as_deref(), Some("older"));

    let mut error = None;
    settle_quick_action(&mut chats, &mut error, "zz", before, Err("gone".to_string()));
    assert_eq!(chats[0].unread_count, 0);
    assert_eq!(error.as_deref(), Some("gone"));
}
