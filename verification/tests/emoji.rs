use std::collections::HashSet;
use wasabi::emoji::{insert_at_char_offset, EmojiCategory};

#[test]
fn category_lists_are_non_empty_unique_and_non_blank() {
    let mut seen = HashSet::new();
    let mut labels = HashSet::new();
    let mut total = 0usize;
    for category in EmojiCategory::ALL {
        let label = category.label();
        assert!(!label.is_empty(), "{category:?} label");
        assert!(labels.insert(label), "duplicate category label {label}");
        let list = category.emoji();
        assert!(!list.is_empty(), "{category:?} is empty");
        let mut local = HashSet::new();
        for emoji in &list {
            assert!(!emoji.is_empty(), "{category:?} contains an empty glyph");
            assert!(
                !emoji.chars().any(char::is_whitespace),
                "{category:?} glyph {emoji:?} contains whitespace"
            );
            assert!(local.insert(emoji.as_str()), "{category:?} repeats {emoji}");
            assert!(
                seen.insert(emoji.clone()),
                "duplicate emoji {emoji} across categories"
            );
            total += 1;
        }
    }
    assert!(
        total >= 200,
        "expected a few hundred common emoji, got {total}"
    );
}

#[test]
fn insert_helper_places_emoji_at_the_character_offset() {
    assert_eq!(insert_at_char_offset("hi", 2, "🎉"), "hi🎉");
    assert_eq!(insert_at_char_offset("héllo", 1, "👋"), "h👋éllo");
    assert_eq!(insert_at_char_offset("", 0, "😊"), "😊");
}

#[test]
fn an_offset_past_the_end_appends() {
    assert_eq!(insert_at_char_offset("ab", 10, "👍"), "ab👍");
    assert_eq!(insert_at_char_offset("ab", 0, "👍"), "👍ab");
}

#[test]
fn each_tab_shows_its_first_glyph_family() {
    assert_eq!(EmojiCategory::Smileys.tab_glyph(), "😊");
    assert_eq!(EmojiCategory::Symbols.tab_glyph(), "❤️");
    assert_eq!(EmojiCategory::Travel.label(), "Travel");
    assert_eq!(EmojiCategory::Smileys.emoji()[0], "😀");
    assert_eq!(EmojiCategory::ALL.len(), 8);
}
