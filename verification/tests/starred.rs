use wasabi::starred::{filter_starred, load_more_label, starred_list_view, StarredHit};

fn hit(name: &str, preview: &str) -> StarredHit {
    StarredHit { chat_name: name.to_string(), preview: preview.to_string() }
}

#[test]
fn starred_search_matches_names_and_texts_ignoring_case() {
    let hits = vec![hit("Family", "Dinner at EIGHT"), hit("Work", "standup notes"), hit("Ana", "eight")];
    assert_eq!(filter_starred(&hits, "  "), vec![0, 1, 2]);
    assert_eq!(filter_starred(&hits, " eight "), vec![0, 2]);
    assert_eq!(filter_starred(&hits, "WORK"), vec![1]);
    assert_eq!(filter_starred(&hits, "zzz"), Vec::<usize>::new());
    assert_eq!(filter_starred(&[], "x"), Vec::<usize>::new());
}

#[test]
fn the_starred_list_explains_empty_loading_and_failed_states() {
    let v = starred_list_view(false, true, None, false, false);
    assert_eq!(v.notice.map(|n| n.0), Some("Loading starred messages"));
    let v = starred_list_view(false, false, Some("offline"), false, true);
    let n = v.notice.unwrap();
    assert_eq!((n.0, n.1.as_str()), ("Couldn't load starred messages", "offline"));
    assert!(!v.load_more);
    let v = starred_list_view(false, false, None, false, false);
    assert_eq!(v.notice.unwrap().1, "Star a message in a chat to find it here.");
    let v = starred_list_view(true, false, None, false, true);
    assert_eq!(v.notice.map(|n| n.0), Some("No matching starred messages"));
    assert!(v.load_more && !v.show_rows);
    let v = starred_list_view(true, true, Some("partial"), true, false);
    assert!(v.notice.is_none() && v.show_rows && !v.load_more);
    assert_eq!(v.trailing_error.as_deref(), Some("partial"));
    assert_eq!(load_more_label(true), "Loading more…");
    assert_eq!(load_more_label(false), "Load more starred messages");
}
