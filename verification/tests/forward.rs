use wasabi::forward::{forward_candidates, forward_order, text_less};
use wasabi::model::{ChatKind, ChatSummary, ContactSummary};

fn chat(id: &str, name: &str, archived: bool, kind: ChatKind) -> ChatSummary {
    ChatSummary {
        id: id.to_string(),
        kind,
        display_name: Some(name.to_string()),
        last_activity_ms: 1,
        last_message_preview: None,
        unread_count: 0,
        pinned_at_ms: None,
        muted_until_ms: None,
        archived,
        favorite: false,
        draft_preview: None,
    }
}

fn contact(id: &str, name: &str) -> ContactSummary {
    ContactSummary {
        jid: id.to_string(),
        display_name: name.to_string(),
        phone_number: None,
    }
}

#[test]
fn candidates_exclude_source_archived_and_empty_search_contacts() {
    let source = "me@s.whatsapp.net".to_string();
    let chats = vec![
        chat("me@s.whatsapp.net", "Current", false, ChatKind::Direct),
        chat("alice@s.whatsapp.net", "Alice", false, ChatKind::Direct),
        chat("old@s.whatsapp.net", "Old", true, ChatKind::Direct),
        chat("crew@g.us", "Crew", false, ChatKind::Group),
    ];
    let contacts = vec![
        contact("alice@s.whatsapp.net", "Alice"),
        contact("bob@s.whatsapp.net", "Bob"),
    ];

    let listed = forward_candidates(&chats, &contacts, &source, "");
    assert_eq!(
        listed.iter().map(|row| row.id.as_str()).collect::<Vec<_>>(),
        vec!["alice@s.whatsapp.net", "crew@g.us"]
    );

    let searched = forward_candidates(&chats, &contacts, &source, "bo");
    assert_eq!(
        searched
            .iter()
            .map(|row| row.display_name.as_str())
            .collect::<Vec<_>>(),
        vec!["Bob"]
    );
    assert!(forward_candidates(&chats, &contacts, &source, "")
        .iter()
        .all(|row| row.id != source));
}

#[test]
fn pinned_then_recent_then_by_id() {
    let mut a = chat("a@s.whatsapp.net", "A", false, ChatKind::Direct);
    let mut b = chat("b@s.whatsapp.net", "B", false, ChatKind::Direct);
    let mut c = chat("c@s.whatsapp.net", "C", false, ChatKind::Direct);
    let mut d = chat("d@s.whatsapp.net", "D", false, ChatKind::Direct);
    a.last_activity_ms = 50;
    b.last_activity_ms = 10;
    b.pinned_at_ms = Some(5);
    c.last_activity_ms = 50;
    d.pinned_at_ms = Some(9);
    let chats = vec![a, b, c, d];
    assert_eq!(forward_order(&chats, "x@s.whatsapp.net"), vec![3, 1, 0, 2]);
    let rows = forward_candidates(&chats, &[], "x@s.whatsapp.net", "");
    assert_eq!(
        rows.iter().map(|row| row.id.as_str()).collect::<Vec<_>>(),
        vec!["d@s.whatsapp.net", "b@s.whatsapp.net", "a@s.whatsapp.net", "c@s.whatsapp.net"]
    );
}

#[test]
fn search_is_trimmed_case_insensitive_and_lists_each_conversation_once() {
    let chats = vec![
        chat("crew@g.us", "Weekend Crew", false, ChatKind::Group),
        chat("news@newsletter", "Crew News", false, ChatKind::Newsletter),
        chat("crew@g.us", "Weekend Crew", false, ChatKind::Group),
    ];
    let contacts = vec![
        contact("crew@g.us", "Crew"),
        contact("cara@s.whatsapp.net", "Cara Crewe"),
        contact("cara@s.whatsapp.net", "Cara Crewe"),
    ];
    let rows = forward_candidates(&chats, &contacts, "me@s.whatsapp.net", "  CREW ");
    assert_eq!(
        rows.iter()
            .map(|row| (row.id.as_str(), row.display_name.as_str(), row.is_group))
            .collect::<Vec<_>>(),
        vec![
            ("crew@g.us", "Weekend Crew", true),
            ("cara@s.whatsapp.net", "Cara Crewe", false),
        ]
    );
}

#[test]
fn a_chat_without_a_name_is_listed_under_its_number() {
    let mut unnamed = chat("15551234567@s.whatsapp.net", "", false, ChatKind::Direct);
    unnamed.display_name = None;
    let rows = forward_candidates(&[unnamed], &[], "me@s.whatsapp.net", "555");
    assert_eq!(rows.len(), 1);
    assert_eq!(rows[0].display_name, "15551234567");
}

#[test]
fn text_order_is_by_code_point() {
    assert!(text_less("a", "b"));
    assert!(text_less("a", "ab"));
    assert!(!text_less("ab", "ab"));
    assert!(text_less("Z", "a"));
    assert!(text_less("z", "é"));
}

#[test]
fn the_forward_list_and_status_explain_themselves() {
    let n = wasabi::forward::forward_list_notice(true, false, true, false, None).unwrap();
    assert_eq!(n.0, "Loading conversations…");
    let n = wasabi::forward::forward_list_notice(false, true, false, true, None).unwrap();
    assert_eq!((n.0, n.1.as_str()), ("No conversations to forward to", "Open or search another chat first."));
    let n = wasabi::forward::forward_list_notice(false, false, true, false, Some("offline")).unwrap();
    assert_eq!((n.0, n.1.as_str()), ("Contacts unavailable", "offline"));
    let n = wasabi::forward::forward_list_notice(true, true, true, false, None).unwrap();
    assert_eq!(n.0, "No matching conversations");
    assert!(wasabi::forward::forward_list_notice(true, false, false, false, None).is_none());

    let (s, ok) = wasabi::forward::forward_status(None, false, true, 0);
    assert_eq!((s.as_str(), ok), ("Choose conversations, then Forward. Closing sends nothing.", false));
    assert_eq!(wasabi::forward::forward_status(None, false, true, 1), ("Forward to 1 conversation".to_string(), true));
    assert_eq!(wasabi::forward::forward_status(None, false, true, 3), ("Forward to 3 conversations".to_string(), true));
    assert_eq!(wasabi::forward::forward_status(None, true, true, 3), ("Forwarding…".to_string(), false));
    assert_eq!(wasabi::forward::forward_status(None, false, false, 3), ("Connect to forward this message".to_string(), false));
    assert_eq!(wasabi::forward::forward_status(Some("Failed"), false, true, 2), ("Failed".to_string(), true));
}
