use wasabi::message_details::{
    details_body, group_reaction_actors, group_receipt_actors, DetailsBody, REACTION_EMPTY,
    RECEIPT_EMPTY,
};
use wasabi::model::{MessageStatus, ReactionActor, ReceiptActor};

fn reaction(name: &str, emoji: &str, is_self: bool) -> ReactionActor {
    ReactionActor {
        display_name: name.to_string(),
        emoji: emoji.to_string(),
        is_self,
    }
}

fn receipt(name: &str, status: MessageStatus, timestamp_ms: i64) -> ReceiptActor {
    ReceiptActor {
        display_name: name.to_string(),
        status,
        timestamp_ms,
    }
}

#[test]
fn two_senders_with_the_same_emoji_stay_two_people() {
    let actors = [
        reaction("Alice", "👍", false),
        reaction("You", "👍", true),
        reaction("Cara", "❤️", false),
    ];
    let groups = group_reaction_actors(&actors);
    assert_eq!(groups.len(), 2);
    assert_eq!(groups[0].0, "👍");
    assert_eq!(groups[0].1.len(), 2);
    assert_eq!(groups[0].1[0].display_name, "Alice");
    assert_eq!(groups[0].1[1].display_name, "You");
    assert_eq!(groups[1].1.len(), 1);
    assert_eq!(REACTION_EMPTY, "No reactions to show");
}

#[test]
fn receipt_groups_split_read_and_delivered_without_inventing_rows() {
    let actors = [
        receipt("Alice", MessageStatus::Read, 2),
        receipt("Bob", MessageStatus::Delivered, 1),
    ];
    let groups = group_receipt_actors(&actors);
    assert_eq!(groups[0].0, "Read");
    assert_eq!(groups[0].1.len(), 1);
    assert_eq!(groups[1].0, "Delivered");
    assert_eq!(groups[1].1.len(), 1);
    assert!(group_receipt_actors(&[]).is_empty());
    assert_eq!(RECEIPT_EMPTY, "Receipt details are not available yet");
}

#[test]
fn emoji_groups_follow_first_appearance() {
    let actors = [
        reaction("Cara", "❤️", false),
        reaction("Alice", "👍", false),
        reaction("Dan", "❤️", false),
    ];
    let groups = group_reaction_actors(&actors);
    assert_eq!(groups.len(), 2);
    assert_eq!(groups[0].0, "❤️");
    assert_eq!(groups[0].1.len(), 2);
    assert_eq!(groups[0].1[1].display_name, "Dan");
    assert_eq!(groups[1].0, "👍");
}

#[test]
fn receipts_in_other_states_are_not_listed() {
    let actors = [
        receipt("Alice", MessageStatus::Sent, 2),
        receipt("Bob", MessageStatus::Delivered, 1),
    ];
    let groups = group_receipt_actors(&actors);
    assert_eq!(groups.len(), 1);
    assert_eq!(groups[0].0, "Delivered");
}

#[test]
fn details_body_prefers_loading_then_failure() {
    assert_eq!(details_body(true, true, 3), DetailsBody::Loading);
    assert_eq!(details_body(false, true, 3), DetailsBody::Failed);
    assert_eq!(details_body(false, false, 0), DetailsBody::Empty);
    assert_eq!(details_body(false, false, 2), DetailsBody::Groups);
}
