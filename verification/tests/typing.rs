use wasabi::root::TYPING_REFRESH_AFTER_MS;
use wasabi::typing::{OutboundTyping, TypingStep};

#[test]
fn composing_is_announced_then_throttled_then_paused() {
    let mut typing = OutboundTyping::new();
    let first = typing.on_composer_change("a", true, false, 1_000);
    assert_eq!(first, TypingStep::Compose { announce: true, generation: 1 });
    let second = typing.on_composer_change("a", true, false, 2_000);
    assert_eq!(second, TypingStep::Compose { announce: false, generation: 2 });
    let third = typing.on_composer_change("a", true, false, 1_000 + TYPING_REFRESH_AFTER_MS);
    assert_eq!(third, TypingStep::Compose { announce: true, generation: 3 });

    // The timer armed by the second change is stale; the third's acts once.
    assert!(!typing.on_pause_timer("a", 2));
    assert!(typing.on_pause_timer("a", 3));
    assert!(!typing.on_pause_timer("a", 3));
    assert_eq!(typing.slot("a"), (3, None));
}

#[test]
fn emptying_the_composer_pauses_only_after_an_announcement() {
    let mut typing = OutboundTyping::new();
    assert_eq!(typing.on_composer_change("a", true, true, 10), TypingStep::Stop { announce_pause: false });
    assert_eq!(typing.slot("a"), (2, None));
    typing.on_composer_change("a", true, false, 20);
    assert_eq!(typing.on_composer_change("a", true, true, 30), TypingStep::Stop { announce_pause: true });
    assert_eq!(typing.slot("a"), (5, None));
}

#[test]
fn chats_are_tracked_apart_and_nothing_happens_offline() {
    let mut typing = OutboundTyping::new();
    assert_eq!(typing.on_composer_change("a", false, false, 10), TypingStep::Ignore);
    assert_eq!(typing.slot("a"), (0, None));
    typing.on_composer_change("a", true, false, 10);
    typing.on_composer_change("b", true, false, 10);
    assert!(typing.stop("a"));
    assert!(!typing.stop("a"));
    assert_eq!(typing.slot("b"), (1, Some(10)));
    assert!(!typing.stop("never-opened"));
    assert_eq!(typing.slot("never-opened"), (1, None));
}

#[test]
fn incoming_indicators_expire_only_with_their_own_timer() {
    use_incoming();
}

fn use_incoming() {
    let mut t = wasabi::typing::IncomingTyping::new();
    let g1 = t.on_update("a", wasabi::root::TypingState::Composing, Some("5511@s".to_string()));
    assert_eq!(g1, Some(1));
    let g2 = t.on_update("a", wasabi::root::TypingState::RecordingAudio, None);
    assert_eq!(g2, Some(2));
    assert!(!t.on_expiry("a", 1));
    assert_eq!(t.get("a").map(|d| d.generation), Some(2));
    assert!(t.get("a").map(|d| d.state == wasabi::root::TypingState::RecordingAudio).unwrap());
    assert!(t.on_expiry("a", 2));
    assert!(t.get("a").is_none());

    assert_eq!(t.on_update("b", wasabi::root::TypingState::Composing, None), Some(1));
    assert_eq!(t.on_update("b", wasabi::root::TypingState::Paused, None), None);
    assert!(t.get("b").is_none());
    assert!(!t.on_expiry("b", 1));

    t.on_update("c", wasabi::root::TypingState::Composing, None);
    t.on_update("d", wasabi::root::TypingState::Composing, None);
    t.on_lagged();
    assert!(t.get("c").is_none() && t.get("d").is_none());
}
