use wasabi::message_actions::{
    begin_message_action, settle_message_action, MarkedRow, MessageActionKind, RetryFlights,
};
use wasabi::root::ReactionSummary;

fn chip(emoji: &str, count: u32, mine: bool) -> ReactionSummary {
    ReactionSummary { emoji: emoji.to_string(), count, reacted_by_me: mine }
}

fn row(chat: &str, id: &str, starred: bool, reactions: Vec<ReactionSummary>) -> MarkedRow {
    MarkedRow { chat: chat.to_string(), id: id.to_string(), starred, reactions }
}

fn chips(r: &MarkedRow) -> Vec<(String, u32, bool)> {
    r.reactions.iter().map(|c| (c.emoji.clone(), c.count, c.reacted_by_me)).collect()
}

#[test]
fn a_refused_star_is_flipped_back() {
    let mut flights = RetryFlights::new();
    let mut rows = vec![row("a", "1", false, vec![]), row("a", "2", false, vec![])];
    let kind = MessageActionKind::Star { starred: true };
    let pending = begin_message_action(&mut flights, &mut rows, "a", "2", &kind).unwrap();
    assert!(rows[1].starred);
    assert!(!rows[0].starred);
    settle_message_action(&mut flights, &mut rows, "a", "2", &pending, true);
    assert!(!rows[1].starred);
}

#[test]
fn an_accepted_star_stays() {
    let mut flights = RetryFlights::new();
    let mut rows = vec![row("a", "1", false, vec![])];
    let kind = MessageActionKind::Star { starred: true };
    let pending = begin_message_action(&mut flights, &mut rows, "a", "1", &kind).unwrap();
    settle_message_action(&mut flights, &mut rows, "a", "1", &pending, false);
    assert!(rows[0].starred);
}

#[test]
fn starring_a_starred_row_that_is_refused_unstars_it() {
    let mut flights = RetryFlights::new();
    let mut rows = vec![row("a", "1", true, vec![])];
    let kind = MessageActionKind::Star { starred: true };
    let pending = begin_message_action(&mut flights, &mut rows, "a", "1", &kind).unwrap();
    settle_message_action(&mut flights, &mut rows, "a", "1", &pending, true);
    assert!(!rows[0].starred);
}

#[test]
fn a_refused_reaction_puts_the_chips_back_unless_they_changed_meanwhile() {
    let mut flights = RetryFlights::new();
    let before = vec![chip("👍", 2, true), chip("😂", 1, false)];
    let mut rows = vec![row("a", "1", false, before)];
    let kind = MessageActionKind::React { emoji: "😂".to_string() };
    let pending = begin_message_action(&mut flights, &mut rows, "a", "1", &kind).unwrap();
    assert_eq!(
        chips(&rows[0]),
        vec![("👍".to_string(), 1, false), ("😂".to_string(), 2, true)]
    );
    settle_message_action(&mut flights, &mut rows, "a", "1", &pending, true);
    assert_eq!(
        chips(&rows[0]),
        vec![("👍".to_string(), 2, true), ("😂".to_string(), 1, false)]
    );

    let pending = begin_message_action(&mut flights, &mut rows, "a", "1", &kind).unwrap();
    rows[0].reactions = vec![chip("🎉", 1, false)];
    settle_message_action(&mut flights, &mut rows, "a", "1", &pending, true);
    assert_eq!(chips(&rows[0]), vec![("🎉".to_string(), 1, false)]);
}

#[test]
fn a_retry_in_flight_is_not_sent_twice() {
    let mut flights = RetryFlights::new();
    let mut rows = vec![row("a", "1", false, vec![])];
    let first = begin_message_action(&mut flights, &mut rows, "a", "1", &MessageActionKind::Retry);
    let first = first.expect("the first retry goes out");
    assert!(flights.contains("a", "1"));
    assert!(begin_message_action(&mut flights, &mut rows, "a", "1", &MessageActionKind::Retry).is_none());
    assert!(begin_message_action(&mut flights, &mut rows, "a", "2", &MessageActionKind::Retry).is_some());
    settle_message_action(&mut flights, &mut rows, "a", "1", &first, true);
    assert!(!flights.contains("a", "1"));
    assert!(flights.contains("a", "2"));
    assert!(begin_message_action(&mut flights, &mut rows, "a", "1", &MessageActionKind::Retry).is_some());
}

#[test]
fn actions_on_a_message_not_loaded_change_no_row() {
    let mut flights = RetryFlights::new();
    let mut rows = vec![row("a", "1", false, vec![chip("👍", 1, false)])];
    let kind = MessageActionKind::React { emoji: "👍".to_string() };
    let pending = begin_message_action(&mut flights, &mut rows, "b", "1", &kind).unwrap();
    assert!(pending.reaction_change.is_none());
    assert_eq!(chips(&rows[0]), vec![("👍".to_string(), 1, false)]);
    let pending = begin_message_action(&mut flights, &mut rows, "a", "1", &MessageActionKind::Other).unwrap();
    settle_message_action(&mut flights, &mut rows, "a", "1", &pending, true);
    assert_eq!(chips(&rows[0]), vec![("👍".to_string(), 1, false)]);
}
