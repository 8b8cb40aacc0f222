use wasabi::model::ContactSummary;
use wasabi::new_group::{available_group_contacts, selected_summary};

fn contact(display_name: &str, jid: &str) -> ContactSummary {
    ContactSummary {
        jid: jid.to_string(),
        display_name: display_name.to_string(),
        phone_number: None,
    }
}

#[test]
fn existing_group_members_are_not_offered_again() {
    let contacts = [
        ("Already here", "existing@s.whatsapp.net"),
        ("Available", "available@s.whatsapp.net"),
    ]
    .into_iter()
    .map(|(display_name, jid)| contact(display_name, jid))
    .collect::<Vec<_>>();
    let members = vec!["existing@s.whatsapp.net".to_string()];

    let available = available_group_contacts(&contacts, &members);

    assert_eq!(available.len(), 1);
    assert_eq!(available[0].jid.as_str(), "available@s.whatsapp.net");
}

#[test]
fn selection_summary_names_three_then_counts_the_rest() {
    assert_eq!(selected_summary(&[]), "Select at least one contact");
    let people = vec![
        contact("Ann", "a@s.whatsapp.net"),
        contact("Ben", "b@s.whatsapp.net"),
        contact("Cy", "c@s.whatsapp.net"),
        contact("Di", "d@s.whatsapp.net"),
        contact("Ed", "e@s.whatsapp.net"),
    ];
    assert_eq!(selected_summary(&people[..1]), "Ann");
    assert_eq!(selected_summary(&people[..3]), "Ann, Ben, Cy");
    assert_eq!(selected_summary(&people), "Ann, Ben, Cy +2 more");
}

fn person(jid: &str) -> wasabi::model::ContactSummary {
    wasabi::model::ContactSummary { jid: jid.to_string(), display_name: jid.to_uppercase(), phone_number: None }
}

fn jids(s: &[wasabi::model::ContactSummary]) -> Vec<String> {
    s.iter().map(|c| c.jid.clone()).collect()
}

#[test]
fn further_contact_pages_never_list_anyone_twice() {
    let mut listed = vec![person("a"), person("b")];
    wasabi::new_group::merge_contact_page(&mut listed, &[person("b"), person("c"), person("c"), person("d")]);
    assert_eq!(jids(&listed), vec!["a", "b", "c", "d"]);
    wasabi::new_group::merge_contact_page(&mut listed, &[]);
    assert_eq!(listed.len(), 4);
}

#[test]
fn the_group_picker_toggles_caps_and_steps() {
    use_picker();
}

fn use_picker() {
    let mut p = wasabi::new_group::GroupPicker {
        mode: wasabi::new_group::NewChatMode::Direct,
        participants: Vec::new(),
        error: Some("old".to_string()),
        uncertain: true,
        creating: true,
    };
    p.begin();
    assert!(p.mode == wasabi::new_group::NewChatMode::GroupParticipants);
    assert!(p.error.is_none() && !p.uncertain && !p.creating);
    assert!(!p.go_on());
    assert_eq!(p.error.as_deref(), Some("Select at least one participant."));
    p.toggle(person("a"));
    p.toggle(person("b"));
    p.toggle(person("a"));
    assert_eq!(jids(&p.participants), vec!["b"]);
    assert!(p.go_on());
    assert!(p.mode == wasabi::new_group::NewChatMode::GroupSubject);
    assert!(matches!(p.back(), wasabi::new_group::BackStep::FocusSearch));
    assert!(p.mode == wasabi::new_group::NewChatMode::GroupParticipants);
    assert!(matches!(p.back(), wasabi::new_group::BackStep::Stay));
    assert!(p.mode == wasabi::new_group::NewChatMode::Direct);
    assert!(p.participants.is_empty());

    p.begin();
    for i in 0..wasabi::new_group::GROUP_INVITEE_MAX {
        p.toggle(person(&format!("p{i}")));
    }
    assert_eq!(p.participants.len(), 256);
    assert!(p.error.is_none());
    p.toggle(person("one-more"));
    assert_eq!(p.participants.len(), 256);
    assert_eq!(p.error.as_deref(), Some("A group can include up to 256 invited participants."));
    p.toggle(person("p7"));
    assert_eq!(p.participants.len(), 255);

    p.mode = wasabi::new_group::NewChatMode::AddGroupMembers;
    assert!(matches!(p.back(), wasabi::new_group::BackStep::ClosePanel));
    p.creating = true;
    p.mode = wasabi::new_group::NewChatMode::GroupSubject;
    assert!(matches!(p.back(), wasabi::new_group::BackStep::Stay));
    assert!(p.mode == wasabi::new_group::NewChatMode::GroupSubject);
}

#[test]
fn new_group_steps_are_titled_and_validated() {
    wasabi_new_group_steps();
}

fn wasabi_new_group_steps() {
    assert_eq!(wasabi::new_group::new_chat_title(wasabi::new_group::NewChatMode::Direct), "New chat");
    assert_eq!(wasabi::new_group::new_chat_title(wasabi::new_group::NewChatMode::GroupSubject), "New group");
    assert_eq!(wasabi::new_group::new_chat_title(wasabi::new_group::NewChatMode::AddGroupMembers), "Add members");
    assert_eq!(wasabi::new_group::new_chat_title(wasabi::new_group::NewChatMode::GroupParticipants), "Add group members");
    assert_eq!(wasabi::new_group::group_footer_note(None), "Group membership is sent only after you confirm.");
    assert_eq!(wasabi::new_group::group_footer_note(Some("Offline")), "Offline");
    let (counter, label, ok) = wasabi::new_group::subject_step_state("  Trip  ", 25, false, false);
    assert_eq!((counter.as_str(), label, ok), ("4 / 25 characters", "Create group", true));
    let (_, label, ok) = wasabi::new_group::subject_step_state("Trip", 25, true, false);
    assert_eq!((label, ok), ("Creating…", false));
    assert!(!wasabi::new_group::subject_step_state("   ", 25, false, false).2);
    assert!(!wasabi::new_group::subject_step_state("abcdef", 5, false, false).2);
    assert!(!wasabi::new_group::subject_step_state("abc", 5, false, true).2);
    let n = wasabi::new_group::participant_list_notice(Some("denied"), 3, true, 3, false).unwrap();
    assert_eq!((n.0, n.1.as_str()), ("Contacts unavailable", "denied"));
    assert_eq!(wasabi::new_group::participant_list_notice(None, 0, true, 0, false).unwrap().0, "Loading contacts…");
    assert_eq!(wasabi::new_group::participant_list_notice(None, 4, true, 0, true).unwrap().0, "No new contacts found");
    assert_eq!(wasabi::new_group::participant_list_notice(None, 0, false, 0, false).unwrap().0, "No contacts found");
    assert!(wasabi::new_group::participant_list_notice(None, 4, true, 2, false).is_none());
}

#[test]
fn the_new_chat_list_explains_why_it_is_empty() {
    let n = wasabi::new_group::new_chat_notice(None, 0, false, "  ", true).unwrap();
    assert_eq!(n.0, "No contacts found");
    let n = wasabi::new_group::new_chat_notice(None, 0, false, "", false).unwrap();
    assert_eq!(n.0, "No cached contacts");
    let n = wasabi::new_group::new_chat_notice(None, 0, false, " ana ", false).unwrap();
    assert_eq!((n.0, n.1.as_str()), ("No matching contacts", "Try a saved name or complete phone number."));
    assert_eq!(wasabi::new_group::new_chat_notice(None, 0, true, "", true).unwrap().0, "Loading contacts…");
    assert_eq!(wasabi::new_group::new_chat_notice(Some("x"), 5, false, "", true).unwrap().1, "x");
    assert!(wasabi::new_group::new_chat_notice(None, 5, true, "", true).is_none());
    assert!(wasabi::new_group::contact_list_tail(true, true) == wasabi::new_group::ContactListTail::LoadingMore);
    assert!(wasabi::new_group::contact_list_tail(false, true) == wasabi::new_group::ContactListTail::LoadMore);
    assert!(wasabi::new_group::contact_list_tail(false, false) == wasabi::new_group::ContactListTail::Nothing);
}
