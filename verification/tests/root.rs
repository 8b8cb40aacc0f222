use wasabi::model::{ChatKind, ChatSummary};
use wasabi::root::{plan_list_sync, JumpStep, ListSync, ReadingPosition, ReloadPlacement};
use wasabi::root::{
    dismissal, Dismissal,
    group_creation_failure, group_member_action_matches_role, group_member_add_failure,
    normalized_contact_query, notification_chat_summary, optimistic_own_reaction,
    should_clear_visible_edit, should_restore_composer, submitted_edit_matches, timeline_splice,
    typing_refresh_due, Draft, ErrorKind, GroupMemberActionKind, NotificationCandidate,
    NotificationDedupe, ParticipantRole, ReactionSummary, TypingDisplay, TypingState,
    TYPING_REFRESH_AFTER_MS,
};

#[test]
fn formatted_phone_searches_use_canonical_digits_for_the_cache() {
    assert_eq!(normalized_contact_query("+1 (555) 123-4567"), "15551234567");
    assert_eq!(normalized_contact_query("Avery Chen"), "Avery Chen");
}

#[test]
fn ambiguous_group_creation_failure_blocks_blind_retry() {
    let (_, timeout_uncertain) = group_creation_failure(ErrorKind::Timeout);
    let (_, offline_uncertain) = group_creation_failure(ErrorKind::NotConnected);
    let (_, rejected_uncertain) = group_creation_failure(ErrorKind::Protocol);
    assert!(timeout_uncertain);
    assert!(!offline_uncertain);
    assert!(!rejected_uncertain);
}

#[test]
fn ambiguous_member_add_failure_requires_metadata_refresh() {
    let (_, timeout_uncertain) = group_member_add_failure(ErrorKind::Timeout);
    let (_, offline_uncertain) = group_member_add_failure(ErrorKind::NotConnected);
    let (_, rejected_uncertain) = group_member_add_failure(ErrorKind::Protocol);
    assert!(timeout_uncertain);
    assert!(offline_uncertain);
    assert!(!rejected_uncertain);
}

#[test]
fn group_member_role_actions_never_target_creator_or_wrong_role() {
    assert!(group_member_action_matches_role(
        GroupMemberActionKind::Promote,
        ParticipantRole::Member
    ));
    assert!(group_member_action_matches_role(
        GroupMemberActionKind::Demote,
        ParticipantRole::Admin
    ));
    assert!(!group_member_action_matches_role(
        GroupMemberActionKind::Promote,
        ParticipantRole::Admin
    ));
    assert!(!group_member_action_matches_role(
        GroupMemberActionKind::Remove,
        ParticipantRole::SuperAdmin
    ));
}

#[test]
fn composing_updates_are_throttled_until_refresh_interval() {
    let now: u64 = 1_700_000_000_000;
    assert!(typing_refresh_due(None, now));
    assert!(!typing_refresh_due(Some(now), now));
    assert!(typing_refresh_due(Some(now), now + TYPING_REFRESH_AFTER_MS));
}

#[test]
fn incoming_typing_labels_distinguish_direct_group_and_recording() {
    let direct = TypingDisplay {
        state: TypingState::Composing,
        participant: None,
        generation: 1,
    };
    assert_eq!(direct.label(false), "typing…");

    let group = TypingDisplay {
        state: TypingState::RecordingAudio,
        participant: Some("alex@s.whatsapp.net".to_string()),
        generation: 1,
    };
    assert_eq!(group.label(true), "alex is recording audio…");
}

#[test]
fn timeline_splices_only_changed_identity_range() {
    assert_eq!(
        timeline_splice(&["date", "m2"], &["date", "m1", "m2"]),
        (1..1, 1)
    );
    assert_eq!(
        timeline_splice(&["date", "m1", "m2"], &["date", "m2", "m3"]),
        (1..3, 2)
    );
    assert_eq!(timeline_splice(&["date", "m1"], &["date", "m1"]), (2..2, 0));
}

#[test]
fn only_pre_durable_text_failure_restores_an_untouched_composer() {
    assert!(should_restore_composer(false, true, ""));
    assert!(!should_restore_composer(true, true, ""));
    assert!(!should_restore_composer(false, false, ""));
    assert!(!should_restore_composer(false, true, "new draft"));
}

#[test]
fn successful_edit_clears_only_the_exact_submitted_draft() {
    let target = "message-a".to_string();
    let exact = Draft {
        body: " corrected ".to_string(),
        edit_target: Some(target.clone()),
        ..Default::default()
    };
    assert!(submitted_edit_matches(Some(&exact), &target, "corrected"));

    let newer_text = Draft {
        body: "newer correction".to_string(),
        reply_to: exact.reply_to.clone(),
        edit_target: exact.edit_target.clone(),
    };
    assert!(!submitted_edit_matches(
        Some(&newer_text),
        &target,
        "corrected"
    ));
    assert!(!submitted_edit_matches(
        Some(&exact),
        "message-b",
        "corrected"
    ));
}

#[test]
fn edit_completion_never_clears_an_identical_draft_after_chat_switch() {
    let target = "message-a";
    assert!(should_clear_visible_edit(
        Some("chat-a"),
        "chat-a",
        Some(target),
        target,
        "corrected",
        "corrected",
    ));
    assert!(!should_clear_visible_edit(
        Some("chat-b"),
        "chat-a",
        Some(target),
        target,
        "corrected",
        "corrected",
    ));
}

#[test]
fn optimistic_reaction_replaces_or_removes_only_our_choice() {
    let existing = vec![
        ReactionSummary {
            emoji: "👍".to_string(),
            count: 2,
            reacted_by_me: true,
        },
        ReactionSummary {
            emoji: "❤️".to_string(),
            count: 3,
            reacted_by_me: false,
        },
    ];
    let changed = optimistic_own_reaction(&existing, "❤️");
    assert_eq!(changed[0].count, 1);
    assert!(!changed[0].reacted_by_me);
    assert_eq!(changed[1].count, 4);
    assert!(changed[1].reacted_by_me);

    let removed = optimistic_own_reaction(&changed, "");
    assert_eq!(removed[1].count, 3);
    assert!(!removed[1].reacted_by_me);
}

#[test]
fn a_reaction_on_a_new_emoji_adds_a_chip_and_a_lone_choice_disappears() {
    let existing = vec![ReactionSummary {
        emoji: "👍".to_string(),
        count: 1,
        reacted_by_me: true,
    }];
    let changed = optimistic_own_reaction(&existing, "🎉");
    assert_eq!(changed.len(), 1);
    assert_eq!(changed[0].emoji, "🎉");
    assert_eq!(changed[0].count, 1);
    assert!(changed[0].reacted_by_me);
}

#[test]
fn phone_numbers_need_seven_to_fifteen_digits_and_no_letters() {
    assert_eq!(normalized_contact_query("  555.123.4567  "), "5551234567");
    assert_eq!(normalized_contact_query("123456"), "123456");
    assert_eq!(normalized_contact_query("1234567"), "1234567");
    assert_eq!(normalized_contact_query("+1234567890123456"), "+1234567890123456");
    assert_eq!(normalized_contact_query("555-CALL-NOW"), "555-CALL-NOW");
    assert_eq!(normalized_contact_query(""), "");
}

#[test]
fn typing_refresh_tolerates_a_clock_that_goes_backwards() {
    assert!(!typing_refresh_due(Some(10_000), 5_000));
    assert!(!typing_refresh_due(Some(1_000), 4_999));
    assert!(typing_refresh_due(Some(1_000), 5_000));
}

#[test]
fn paused_typing_and_group_fallbacks_read_naturally() {
    let paused = TypingDisplay {
        state: TypingState::Paused,
        participant: Some("sam@s.whatsapp.net".to_string()),
        generation: 3,
    };
    assert_eq!(paused.label(true), "");
    let anonymous = TypingDisplay {
        state: TypingState::Composing,
        participant: None,
        generation: 3,
    };
    assert_eq!(anonymous.label(true), "typing…");
}

#[test]
fn every_failure_kind_has_its_own_copy() {
    let (rate, rate_uncertain) = group_creation_failure(ErrorKind::RateLimited);
    assert!(rate.contains("Too many group requests"));
    assert!(!rate_uncertain);
    let (other, _) = group_creation_failure(ErrorKind::Storage);
    assert!(other.contains("Couldn’t create this group"));
    let (offline, _) = group_member_add_failure(ErrorKind::NotConnected);
    assert!(!offline.is_empty());
}

#[test]
fn a_repeated_notification_is_suppressed_until_it_ages_out() {
    let mut seen = NotificationDedupe::with_limit(2);
    assert!(seen.remember("a@s.whatsapp.net".to_string(), "m1".to_string()));
    assert!(!seen.remember("a@s.whatsapp.net".to_string(), "m1".to_string()));
    assert!(seen.remember("a@s.whatsapp.net".to_string(), "m2".to_string()));
    assert!(seen.remember("b@s.whatsapp.net".to_string(), "m1".to_string()));
    assert_eq!(seen.len(), 2);
    assert!(!seen.contains("a@s.whatsapp.net", "m1"));
    assert!(seen.remember("a@s.whatsapp.net".to_string(), "m1".to_string()));
}

#[test]
fn notification_rows_take_their_kind_from_the_jid_server() {
    let candidate = |chat: &str| NotificationCandidate {
        chat: chat.to_string(),
        message: "m1".to_string(),
        title: "Crew".to_string(),
        preview: "see you".to_string(),
        timestamp_ms: 42,
    };
    let group: ChatSummary = notification_chat_summary(&candidate("crew@g.us"));
    assert_eq!(group.kind, ChatKind::Group);
    assert_eq!(group.display_name.as_deref(), Some("Crew"));
    assert_eq!(group.last_message_preview.as_deref(), Some("see you"));
    assert_eq!(group.unread_count, 1);
    assert_eq!(group.last_activity_ms, 42);
    assert!(!group.archived);
    assert_eq!(
        notification_chat_summary(&candidate("news@newsletter")).kind,
        ChatKind::Newsletter
    );
    assert_eq!(
        notification_chat_summary(&candidate("status@broadcast")).kind,
        ChatKind::System
    );
    assert_eq!(
        notification_chat_summary(&candidate("a@s.whatsapp.net")).kind,
        ChatKind::Direct
    );
}

#[test]
fn timeline_splice_handles_empty_and_disjoint_timelines() {
    let empty: [&str; 0] = [];
    assert_eq!(timeline_splice(&empty, &["a", "b"]), (0..0, 2));
    assert_eq!(timeline_splice(&["a", "b"], &empty), (0..2, 0));
    assert_eq!(timeline_splice(&["a"], &["b"]), (0..1, 1));
}

#[test]
fn escape_closes_the_innermost_surface() {
    assert_eq!(dismissal(true, true, true, true), Dismissal::Nothing);
    assert_eq!(dismissal(true, false, true, true), Dismissal::CloseNewChat);
    assert_eq!(dismissal(false, false, true, true), Dismissal::CloseSettingsOverlay);
    assert_eq!(dismissal(false, false, false, true), Dismissal::CloseMessageOverlay);
    assert_eq!(dismissal(false, false, false, false), Dismissal::CloseRightPanel);
}

#[test]
fn the_message_list_follows_a_reload_and_keeps_the_top_row() {
    let before = ["date", "m1", "m2", "m3"];
    assert!(matches!(plan_list_sync(&before, &["m9"], 3, 0), ListSync::Reset { len: 1 }));
    assert!(matches!(plan_list_sync(&before, &before, 4, 2), ListSync::Remeasure));
    match plan_list_sync(&before, &["date", "m0", "m1", "m2", "m3"], 4, 2) {
        ListSync::Splice { range, inserted, scroll_to } => {
            assert_eq!((range, inserted), (1..1, 1));
            assert_eq!(scroll_to, Some(3));
        }
        _ => panic!("a changed timeline is spliced"),
    }
    match plan_list_sync(&before, &["date", "m2", "m3"], 4, 1) {
        ListSync::Splice { range, inserted, scroll_to } => {
            assert_eq!((range, inserted), (1..2, 0));
            assert_eq!(scroll_to, None);
        }
        _ => panic!("a changed timeline is spliced"),
    }
    match plan_list_sync(&before, &["date", "m1"], 4, 9) {
        ListSync::Splice { scroll_to, .. } => assert_eq!(scroll_to, None),
        _ => panic!("a changed timeline is spliced"),
    }
}

#[test]
fn new_messages_are_counted_mid_history_and_cleared_at_the_bottom() {
    let mut p = ReadingPosition { pending_new: 0, near_bottom: false };
    assert!(p.on_reload(false, 3) == ReloadPlacement::MergeInPlace);
    assert_eq!(p.pending_new, 3);
    assert!(p.on_reload(false, 2) == ReloadPlacement::MergeInPlace);
    assert_eq!(p.pending_new, 3);
    assert!(p.jump_to_newest(false) == JumpStep::Reload);
    assert_eq!((p.pending_new, p.near_bottom), (0, true));
    assert!(p.on_reload(false, 9) == ReloadPlacement::AnchorNewest);
    assert_eq!(p.pending_new, 0);
    assert!(p.jump_to_newest(false) == JumpStep::ScrollToEnd);
    assert!(p.jump_to_newest(true) == JumpStep::Reload);
    let mut empty = ReadingPosition { pending_new: 4, near_bottom: false };
    assert!(empty.on_reload(true, 1) == ReloadPlacement::AnchorNewest);
    assert_eq!(empty.pending_new, 0);
}

#[test]
fn the_centre_shows_storage_pairing_or_the_conversation() {
    use_center();
}

fn use_center() {
    let v = wasabi::root::center_view;
    assert!(v(false, true, true, true, true, true) == wasabi::root::CenterView::OpeningStorage);
    assert!(v(true, false, true, true, true, true) == wasabi::root::CenterView::Pairing);
    assert!(v(true, true, false, false, false, false) == wasabi::root::CenterView::Pairing);
    assert!(v(true, false, false, true, true, true) == wasabi::root::CenterView::Conversation { panel: wasabi::root::PanelPlacement::Drawer, overlay: true });
    assert!(v(true, false, false, true, false, false) == wasabi::root::CenterView::Conversation { panel: wasabi::root::PanelPlacement::Docked, overlay: false });
    assert!(v(true, false, false, false, true, false) == wasabi::root::CenterView::Conversation { panel: wasabi::root::PanelPlacement::Hidden, overlay: false });
}

#[test]
fn a_clicked_notification_lists_its_chat_once() {
    let candidate = NotificationCandidate {
        chat: "crew@g.us".to_string(),
        message: "m1".to_string(),
        title: "Crew".to_string(),
        preview: "see you".to_string(),
        timestamp_ms: 42,
    };
    let mut chats: Vec<ChatSummary> = Vec::new();
    assert!(wasabi::root::list_notified_chat(&mut chats, &candidate));
    assert_eq!(chats.len(), 1);
    assert_eq!(chats[0].id, "crew@g.us");
    assert_eq!(chats[0].kind, ChatKind::Group);
    assert!(!wasabi::root::list_notified_chat(&mut chats, &candidate));
    assert_eq!(chats.len(), 1);
}

#[test]
fn replies_of_superseded_loads_do_not_count() {
    let mut g = wasabi::root::LoadGeneration { latest: 0 };
    let first = g.begin();
    assert!(g.is_current(first));
    let second = g.begin();
    assert_eq!((first, second), (1, 2));
    assert!(!g.is_current(first));
    assert!(g.is_current(second));
    g.cancel();
    assert!(!g.is_current(second));
}
