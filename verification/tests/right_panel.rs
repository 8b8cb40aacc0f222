use wasabi::conversation::ChatAction;
use wasabi::model::{ChatKind, ChatSummary};
use wasabi::right_panel::{
    contact_block_row, contact_remove_row, favorite_detail, leave_group_row, ContactAction,
    bare_phone_jid, chat_sync_toggle, destructive_row, find_chat, ChatSyncAction,
    DestructiveChatAction,
};
use wasabi::right_panel::{details_load_error, membership_requests_wanted, plan_details_load, DetailsLoad};

fn summary() -> ChatSummary {
    ChatSummary {
        id: "a@s.whatsapp.net".to_string(),
        kind: ChatKind::Direct,
        display_name: Some("Avery".to_string()),
        last_activity_ms: 1,
        last_message_preview: None,
        unread_count: 3,
        pinned_at_ms: Some(10),
        muted_until_ms: Some(0),
        archived: false,
        favorite: false,
        draft_preview: None,
    }
}

#[test]
fn bare_phone_jids_are_recognised_only_for_the_own_number() {
    assert_eq!(
        bare_phone_jid("15551234567@s.whatsapp.net", Some("15551234567")).as_deref(),
        Some("15551234567@s.whatsapp.net")
    );
    assert_eq!(bare_phone_jid("15551234567:3@s.whatsapp.net", Some("15551234567:3")), None);
    assert_eq!(bare_phone_jid("15551234567@s.whatsapp.net", Some("15550000000")), None);
    assert_eq!(bare_phone_jid("15551234567@lid", Some("15551234567")), None);
    assert_eq!(bare_phone_jid("15551234567@s.whatsapp.net", None), None);
}

#[test]
fn sync_toggles_offer_the_opposite_of_the_current_state() {
    let chats = vec![summary()];
    let chat = find_chat(&chats, "a@s.whatsapp.net");
    let pin = chat_sync_toggle(ChatSyncAction::Pin, chat, "a@s.whatsapp.net", 100);
    assert!(pin.enabled);
    assert_eq!(pin.detail, "On");
    assert!(matches!(pin.action, ChatAction::Pin { pinned: false, .. }));

    let mute = chat_sync_toggle(ChatSyncAction::Mute, chat, "a@s.whatsapp.net", 100);
    assert!(mute.enabled, "a zero deadline mutes forever");

    let archive = chat_sync_toggle(ChatSyncAction::Archive, chat, "a@s.whatsapp.net", 100);
    assert!(!archive.enabled);
    assert_eq!(archive.label, "Archive chat");

    let read = chat_sync_toggle(ChatSyncAction::MarkRead, chat, "a@s.whatsapp.net", 100);
    assert!(read.enabled);
    assert_eq!(read.label, "Mark as read");
    assert!(matches!(read.action, ChatAction::MarkRead { read: true, .. }));
}

#[test]
fn an_unlisted_chat_reads_as_all_off() {
    let chats = vec![summary()];
    assert!(find_chat(&chats, "b@s.whatsapp.net").is_none());
    let mute = chat_sync_toggle(ChatSyncAction::Mute, None, "b@s.whatsapp.net", 100);
    assert!(!mute.enabled);
    assert_eq!(mute.detail, "Off");
}

#[test]
fn expired_mutes_are_off() {
    let mut chat = summary();
    chat.muted_until_ms = Some(50);
    let chats = vec![chat];
    let mute = chat_sync_toggle(
        ChatSyncAction::Mute,
        find_chat(&chats, "a@s.whatsapp.net"),
        "a@s.whatsapp.net",
        100,
    );
    assert!(!mute.enabled);
}

#[test]
fn destructive_rows_wait_while_a_request_is_pending() {
    let (id, label, action) = destructive_row(DestructiveChatAction::Clear, "a@s.whatsapp.net", false);
    assert_eq!(id, "clear-chat");
    assert_eq!(label, "Clear messages…");
    assert!(matches!(
        action,
        Some(ChatAction::Clear { delete_starred: false, delete_media: false, .. })
    ));
    let (id, label, action) = destructive_row(DestructiveChatAction::Delete, "a@s.whatsapp.net", true);
    assert_eq!(id, "delete-chat");
    assert_eq!(label, "Working…");
    assert!(action.is_none());
}

#[test]
fn leave_and_favorite_rows_reflect_the_state() {
    assert_eq!(leave_group_row(true, false), ("Working…", false));
    assert_eq!(leave_group_row(false, true), ("Reopen group info to confirm leave status", false));
    assert_eq!(leave_group_row(false, false), ("Leave group", true));
    let mut fav = summary();
    fav.favorite = true;
    let chats = vec![fav];
    assert_eq!(favorite_detail(&chats, Some("a@s.whatsapp.net")), "On this device");
    assert_eq!(favorite_detail(&chats, Some("b@s.whatsapp.net")), "Off");
    assert_eq!(favorite_detail(&chats, None), "Off");
}

#[test]
fn contact_rows_block_unblock_and_delete() {
    let block = contact_block_row("1555@s.whatsapp.net", false, false, true);
    assert_eq!((block.id, block.label, block.enabled), ("block-contact", "Block…", true));
    assert!(matches!(block.action, ContactAction::Block { ref jid } if jid == "1555@s.whatsapp.net"));
    let unblock = contact_block_row("1555@s.whatsapp.net", true, true, true);
    assert_eq!((unblock.id, unblock.label, unblock.enabled), ("unblock-contact", "Working…", false));
    assert!(matches!(unblock.action, ContactAction::Unblock { .. }));
    let remove = contact_remove_row("1555@s.whatsapp.net", Some("1555"), false, false).expect("own number");
    assert_eq!((remove.id, remove.label, remove.enabled), ("delete-contact", "Delete contact…", false));
    assert!(contact_remove_row("1555@lid", Some("1555"), false, true).is_none());
}

#[test]
fn details_load_by_the_kind_of_the_selected_chat() {
    let mut group = summary();
    group.id = "g@g.us".to_string();
    group.kind = ChatKind::Group;
    let mut news = summary();
    news.id = "n@newsletter".to_string();
    news.kind = ChatKind::Newsletter;
    let chats = vec![summary(), group, news];
    assert!(matches!(plan_details_load(&chats, Some("a@s.whatsapp.net")), DetailsLoad::Direct { chat } if chat == "a@s.whatsapp.net"));
    assert!(matches!(plan_details_load(&chats, Some("g@g.us")), DetailsLoad::Group { chat } if chat == "g@g.us"));
    let unsupported = plan_details_load(&chats, Some("n@newsletter"));
    assert_eq!(details_load_error(&unsupported), Some("Information is not available for this conversation type"));
    let missing = plan_details_load(&chats, Some("x"));
    assert_eq!(details_load_error(&missing), Some("Conversation information is unavailable"));
    assert!(matches!(plan_details_load(&chats, None), DetailsLoad::Unavailable));
    assert_eq!(details_load_error(&DetailsLoad::Group { chat: "g".to_string() }), None);
}

#[test]
fn join_requests_load_only_for_managed_groups_while_connected() {
    assert!(membership_requests_wanted(true, true, true, true));
    assert!(!membership_requests_wanted(false, true, true, true));
    assert!(!membership_requests_wanted(true, false, true, true));
    assert!(!membership_requests_wanted(true, true, false, true));
    assert!(!membership_requests_wanted(true, true, true, false));
}
