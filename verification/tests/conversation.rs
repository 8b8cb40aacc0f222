use wasabi::model::MediaDescriptor;
use wasabi::conversation::{
    chat_confirmation_copy, format_bytes, group_member_confirmation_copy,
    leave_group_confirmation_copy, media_metadata, ChatAction,
};
use wasabi::root::{GroupLeaveTarget, GroupMemberAction, GroupMemberActionKind, GroupMemberTarget, ParticipantRole};

#[test]
fn formats_media_sizes_for_desktop_cards() {
    assert_eq!(format_bytes(900), "900 B");
    assert_eq!(format_bytes(184_000), "180 KB");
    assert_eq!(format_bytes(2_830_000), "2.7 MB");
}

#[test]
fn destructive_chat_confirmations_name_and_distinguish_the_target() {
    let clear = ChatAction::Clear {
        chat: "a@s.whatsapp.net".to_string(),
        delete_starred: false,
        delete_media: false,
    };
    let delete = ChatAction::Delete {
        chat: "a@s.whatsapp.net".to_string(),
        delete_media: false,
    };

    let clear_copy = chat_confirmation_copy(&clear, "Avery Chen");
    let delete_copy = chat_confirmation_copy(&delete, "Avery Chen");
    assert!(clear_copy.0.contains("Avery Chen"));
    assert!(clear_copy.1.contains("Starred messages"));
    assert_eq!(clear_copy.2, "Clear messages");
    assert!(delete_copy.0.contains("Avery Chen"));
    assert!(delete_copy.1.contains("other participants"));
    assert_eq!(delete_copy.2, "Delete chat");
}

#[test]
fn group_member_confirmations_name_the_exact_person_and_group() {
    let target = GroupMemberTarget {
        chat: "preview-group@g.us".to_string(),
        group_name: "Weekend hiking crew".to_string(),
        participant: "preview-avery@s.whatsapp.net".to_string(),
        participant_name: "Avery Chen".to_string(),
        participant_role: ParticipantRole::Admin,
    };
    let removal = GroupMemberAction {
        target,
        kind: GroupMemberActionKind::Remove,
    };

    let copy = group_member_confirmation_copy(&removal);

    assert!(copy.0.contains("Avery Chen"));
    assert!(copy.0.contains("Weekend hiking crew"));
    assert_eq!(copy.2, "Remove");
    assert!(copy.4);
}

#[test]
fn leave_group_confirmation_names_history_behavior() {
    let target = GroupLeaveTarget {
        chat: "preview-group@g.us".to_string(),
        group_name: "Weekend hiking crew".to_string(),
    };

    let copy = leave_group_confirmation_copy(&target);

    assert!(copy.0.contains("Weekend hiking crew"));
    assert!(copy.1.contains("Existing history"));
    assert!(copy.1.contains("linked account accepts"));
}

#[test]
fn media_sizes_switch_units_at_exact_boundaries() {
    assert_eq!(format_bytes(0), "0 B");
    assert_eq!(format_bytes(1023), "1023 B");
    assert_eq!(format_bytes(1024), "1 KB");
    assert_eq!(format_bytes(1536), "2 KB");
    assert_eq!(format_bytes(1024 * 1024), "1.0 MB");
}

#[test]
fn only_clear_and_delete_are_destructive() {
    let chat = || "a@s.whatsapp.net".to_string();
    assert!(ChatAction::Clear { chat: chat(), delete_starred: false, delete_media: false }.is_destructive());
    assert!(ChatAction::Delete { chat: chat(), delete_media: false }.is_destructive());
    assert!(!ChatAction::Pin { chat: chat(), pinned: true }.is_destructive());
    assert!(!ChatAction::MarkRead { chat: chat(), read: true }.is_destructive());
}

#[test]
fn media_metadata_joins_what_is_known() {
    let media = MediaDescriptor {
        id: "m".to_string(),
        mime_type: Some("video/mp4".to_string()),
        file_name: None,
        file_size: Some(2_830_000),
        duration_seconds: Some(125),
        width: Some(1280),
        height: Some(720),
    };
    assert_eq!(media_metadata(&media), "2:05 · 1280×720 · 2.7 MB · video/mp4");
    let bare = MediaDescriptor {
        id: "m".to_string(),
        mime_type: None,
        file_name: None,
        file_size: None,
        duration_seconds: None,
        width: Some(10),
        height: None,
    };
    assert_eq!(media_metadata(&bare), "");
}

fn bare_media(file_name: Option<&str>) -> MediaDescriptor {
    MediaDescriptor {
        id: "m".to_string(),
        mime_type: None,
        file_name: file_name.map(|s| s.to_string()),
        file_size: None,
        duration_seconds: None,
        width: None,
        height: None,
    }
}

#[test]
fn media_cards_say_what_a_click_does() {
    wasabi_media_card_check();
}

fn wasabi_media_card_check() {
    let state = wasabi::media_viewer::MediaDownloadState::Downloading;
    let photo = wasabi::model::MessageKind::Image { caption: Some("beach".to_string()), media: bare_media(None) };
    let card = wasabi::conversation::media_card(&photo, false, None).unwrap();
    assert_eq!(card.headline, "Photo");
    assert_eq!(card.transfer_label, "Click to download");
    assert!(card.can_download && card.visual);
    assert_eq!(card.caption.as_deref(), Some("beach"));
    let card = wasabi::conversation::media_card(&photo, false, Some(state)).unwrap();
    assert_eq!((card.transfer_label, card.can_download), ("Downloading…", false));

    let mut doc_media = bare_media(Some("report.pdf"));
    doc_media.file_size = Some(2048);
    doc_media.mime_type = Some("application/pdf".to_string());
    let doc = wasabi::model::MessageKind::Document { media: doc_media };
    let failed = wasabi::media_viewer::MediaDownloadState::Failed;
    let card = wasabi::conversation::media_card(&doc, false, Some(failed)).unwrap();
    assert_eq!(card.headline, "report.pdf");
    assert_eq!(card.detail, "Download failed · click to retry · 2 KB · application/pdf");
    assert!(card.can_download && !card.visual && card.caption.is_none());
    let card = wasabi::conversation::media_card(&doc, true, None).unwrap();
    assert_eq!(card.headline, "Media unavailable");
    assert!(!card.can_download);

    let voice = wasabi::model::MessageKind::Audio { voice_note: true, media: bare_media(None) };
    let ready = wasabi::media_viewer::MediaDownloadState::Ready { available: true };
    let card = wasabi::conversation::media_card(&voice, false, Some(ready)).unwrap();
    assert_eq!((card.headline.as_str(), card.detail.as_str()), ("Voice message", "Downloaded to secure cache"));
    let sticker = wasabi::model::MessageKind::Sticker { animated: true, media: bare_media(None) };
    assert_eq!(wasabi::conversation::media_card(&sticker, false, None).unwrap().headline, "Animated sticker");
    let text = wasabi::model::MessageKind::Text { body: "hi".to_string() };
    assert!(wasabi::conversation::media_card(&text, false, None).is_none());
}

#[test]
fn message_actions_offer_what_fits_the_message() {
    let s = wasabi::conversation::message_sheet(true, false, true, true, false, false, true);
    assert!(s.can_copy && s.can_reply && s.can_edit && s.can_retry && s.can_revoke);
    assert_eq!(s.star_label, "Star message");
    let s = wasabi::conversation::message_sheet(false, true, false, false, false, true, false);
    assert!(s.can_copy && !s.can_reply && !s.can_edit && !s.can_retry && !s.can_revoke);
    assert_eq!(s.star_label, "Unstar message");
    let s = wasabi::conversation::message_sheet(false, false, true, false, true, false, false);
    assert!(!s.can_copy && !s.can_reply && !s.can_retry && s.can_revoke);
    assert_eq!(wasabi::conversation::QUICK_REACTIONS.len(), 5);
}

#[test]
fn deletions_are_confirmed_with_what_they_do() {
    let (t, _, c, p) = wasabi::conversation::message_delete_copy(wasabi::conversation::MessageDeletion::ForMe, Some("hello"));
    assert_eq!((t, c, p.as_str()), ("Delete message for you?", "Delete for me", "hello"));
    let (t, d, c, p) = wasabi::conversation::message_delete_copy(wasabi::conversation::MessageDeletion::ForEveryone, None);
    assert_eq!((t, c, p.as_str()), ("Delete message for everyone?", "Delete for everyone", "Selected message"));
    assert!(d.starts_with("WhatsApp will replace"));
    let (t, d, c, _) = wasabi::conversation::message_delete_copy(wasabi::conversation::MessageDeletion::Other, None);
    assert_eq!((t, d, c), ("Confirm message action?", "This action will be synchronized.", "Confirm"));
    assert_eq!(wasabi::conversation::connection_banner_text("Reconnecting…"), "Reconnecting… — cached messages remain available");
}

#[test]
fn the_timeline_pages_near_its_ends_and_counts_new_messages() {
    use_paging();
}

fn use_paging() {
    let p = wasabi::conversation::history_paging;
    assert_eq!(p(50, false, true, false, 8, false, false, false), (true, false));
    assert_eq!(p(50, false, true, false, 9, false, false, false), (false, false));
    assert_eq!(p(50, false, true, true, 0, false, false, false), (false, false));
    assert_eq!(p(0, false, true, false, 0, true, false, true), (false, false));
    assert_eq!(p(50, true, true, false, 0, true, false, true), (false, false));
    assert_eq!(p(50, false, false, false, 0, true, false, true), (false, true));
    assert_eq!(p(50, false, false, false, 0, true, true, true), (false, false));
    assert_eq!(p(50, false, false, false, 0, true, false, false), (false, false));
    assert_eq!(wasabi::conversation::new_messages_pill(1), "1 new message");
    assert_eq!(wasabi::conversation::new_messages_pill(0), "0 new messages");
    assert_eq!(wasabi::conversation::new_messages_pill(12), "12 new messages");
}

#[test]
fn bubble_meta_and_header_lines() {
    assert_eq!(wasabi::conversation::bubble_meta(true, "10:42", Some("✓✓")), "edited · 10:42 ✓✓");
    assert_eq!(wasabi::conversation::bubble_meta(false, "10:42", None), "10:42");
    assert_eq!(wasabi::conversation::contact_subtitle(Some("5511999")), "+5511999");
    assert_eq!(wasabi::conversation::contact_subtitle(None), "Contact");
    assert_eq!(wasabi::conversation::quoted_sender(Some("Ana")), "Ana");
    assert_eq!(wasabi::conversation::quoted_sender(None), "Original message");
}

#[test]
fn media_sizes_follow_the_double_everywhere() {
    let reference = |bytes: u64| -> String {
        const KIB: f64 = 1024.0;
        const MIB: f64 = KIB * 1024.0;
        let bytes = bytes as f64;
        if bytes >= MIB {
            format!("{:.1} MB", bytes / MIB)
        } else if bytes >= KIB {
            format!("{:.0} KB", bytes / KIB)
        } else {
            format!("{bytes:.0} B")
        }
    };
    let mut x: u64 = 0x2545_F491_4F6C_DD1D;
    for shift in 0..64u32 {
        for _ in 0..300 {
            x = x.wrapping_mul(6364136223846793005).wrapping_add(1442695040888963407);
            let b = x >> shift;
            assert_eq!(format_bytes(b), reference(b), "{b}");
        }
    }
    assert_eq!(format_bytes(u64::MAX), reference(u64::MAX));
}

#[test]
fn bubbles_show_deleted_notes_media_or_text_and_offer_retry_on_failure() {
    let media = MediaDescriptor {
        id: "m".to_string(),
        mime_type: None,
        file_name: None,
        file_size: None,
        duration_seconds: None,
        width: None,
        height: None,
    };
    let image = wasabi::model::MessageKind::Image { caption: None, media };
    let text = wasabi::model::MessageKind::Text { body: "hi".to_string() };
    let odd = wasabi::model::MessageKind::Unsupported;
    assert_eq!(wasabi::conversation::deleted_message_text(), "This message was deleted");
    assert_eq!(wasabi::conversation::bubble_content(true, &image), wasabi::conversation::BubbleContent::Deleted);
    assert_eq!(wasabi::conversation::bubble_content(false, &odd), wasabi::conversation::BubbleContent::Notice);
    assert_eq!(wasabi::conversation::bubble_content(false, &image), wasabi::conversation::BubbleContent::Media);
    assert_eq!(wasabi::conversation::bubble_content(false, &text), wasabi::conversation::BubbleContent::Text);
    assert_eq!(wasabi::conversation::retry_offer(true, wasabi::model::MessageStatus::Failed, false), Some("Retry"));
    assert_eq!(wasabi::conversation::retry_offer(true, wasabi::model::MessageStatus::Failed, true), Some("Retrying…"));
    assert_eq!(wasabi::conversation::retry_offer(false, wasabi::model::MessageStatus::Failed, false), None);
    assert_eq!(wasabi::conversation::retry_offer(true, wasabi::model::MessageStatus::Sent, true), None);
}
