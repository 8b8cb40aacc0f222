use wasabi::avatars::{AvatarCache, AvatarOutcome};

#[test]
fn pictures_are_asked_for_once_until_refreshed() {
    let mut cache = AvatarCache::new();
    assert_eq!(cache.request("", true), None);
    assert_eq!(cache.request("a@s", false), Some(1));
    assert_eq!(cache.request("a@s", false), None);
    assert_eq!(cache.avatar_path("a@s"), None);
    assert!(cache.settle("a@s", 1, AvatarOutcome::Found("/cache/a.jpg".to_string())));
    assert_eq!(cache.avatar_path("a@s").as_deref(), Some("/cache/a.jpg"));
    assert_eq!(cache.request("a@s", false), None);
    assert_eq!(cache.request("a@s", true), Some(2));
    // The shown picture stays while it reloads.
    assert_eq!(cache.avatar_path("a@s").as_deref(), Some("/cache/a.jpg"));
}

#[test]
fn only_the_latest_answer_counts() {
    let mut cache = AvatarCache::new();
    let first = cache.request("a@s", true).unwrap();
    let second = cache.request("a@s", true).unwrap();
    assert_eq!((first, second), (1, 2));
    assert!(!cache.settle("a@s", first, AvatarOutcome::Found("/old.jpg".to_string())));
    assert_eq!(cache.avatar_path("a@s"), None);
    assert!(cache.settle("a@s", second, AvatarOutcome::NotFound));
    assert_eq!(cache.avatar_path("a@s"), None);
    assert!(!cache.settle("b@s", 1, AvatarOutcome::NotFound));
}

#[test]
fn a_failure_keeps_a_shown_picture_and_may_be_retried() {
    let mut cache = AvatarCache::new();
    let g = cache.request("a@s", false).unwrap();
    cache.settle("a@s", g, AvatarOutcome::Found("/a.jpg".to_string()));
    let g = cache.request("a@s", true).unwrap();
    assert!(cache.settle("a@s", g, AvatarOutcome::Failed));
    assert_eq!(cache.avatar_path("a@s").as_deref(), Some("/a.jpg"));

    let g = cache.request("b@s", false).unwrap();
    assert!(cache.settle("b@s", g, AvatarOutcome::Failed));
    assert_eq!(cache.avatar_path("b@s"), None);
    // A failed picture is asked for again without a refresh.
    assert_eq!(cache.request("b@s", false), Some(g + 1));
    let g = cache.request("c@s", false).unwrap();
    cache.settle("c@s", g, AvatarOutcome::NotFound);
    assert_eq!(cache.request("c@s", false), None);
}
