use wasabi::settings::{blocklist_notice, picker_choices, privacy_notice, profile_about_hint, profile_name_or};
use wasabi::settings::{CacheCall, CacheFeedback, CacheOp, MediaCachePanel};
use wasabi::settings::{
    cache_usage_label, format_bytes, quota_label, settings_overlay_copy, shortcut_labels,
    SettingsOverlay, CACHE_QUOTA_CHOICES_MB,
};

#[test]
fn cache_usage_is_human_readable() {
    assert_eq!(format_bytes(0), "0.0 MB");
    assert_eq!(format_bytes(512 * 1024 * 1024), "512.0 MB");
    assert_eq!(format_bytes(1536 * 1024 * 1024), "1.5 GB");
}

#[test]
fn logout_confirmation_is_explicit_about_local_data() {
    let (title, detail, confirm) = settings_overlay_copy(&SettingsOverlay::Logout);
    assert!(title.contains("desktop"));
    assert!(detail.contains("remain on this computer"));
    assert_eq!(confirm, "Log out");
}

#[test]
fn remove_photo_confirmation_is_explicit() {
    let (title, _, confirm) = settings_overlay_copy(&SettingsOverlay::RemoveProfilePicture);
    assert!(title.contains("profile photo"));
    assert_eq!(confirm, "Remove photo");
}

#[test]
fn cache_usage_label_covers_loading_and_unknown() {
    assert_eq!(cache_usage_label(true, None), "Calculating…");
    assert_eq!(cache_usage_label(false, None), "Not calculated");
    assert_eq!(cache_usage_label(true, Some(1024 * 1024)), "1.0 MB");
}

#[test]
fn quota_choices_read_in_their_natural_unit() {
    let labels: Vec<String> = CACHE_QUOTA_CHOICES_MB.iter().map(|mb| quota_label(*mb)).collect();
    assert_eq!(labels, vec!["512 MB", "1 GB", "2 GB", "5 GB"]);
}

#[test]
fn shortcuts_follow_the_enter_setting() {
    assert_eq!(shortcut_labels(true), ("Enter", "Shift+Enter"));
    assert_eq!(
        shortcut_labels(false),
        ("Disabled — Enter inserts a new line", "Enter or Shift+Enter")
    );
}

#[test]
fn unblock_confirmation_names_the_contact() {
    let (title, _, confirm) = settings_overlay_copy(&SettingsOverlay::UnblockContact {
        jid: "a@s.whatsapp.net".to_string(),
        name: "Avery Chen".to_string(),
    });
    assert!(title.contains("Avery Chen"));
    assert!(!confirm.is_empty());
}

fn panel() -> MediaCachePanel {
    MediaCachePanel { loading: false, usage_bytes: None, quota_mb: 1024, feedback: None }
}

#[test]
fn one_cache_operation_runs_at_a_time() {
    let mut p = panel();
    assert!(matches!(p.begin(&CacheOp::Usage), Some(CacheCall::Usage)));
    assert!(p.loading);
    assert!(p.begin(&CacheOp::Clear).is_none());
    assert!(!p.settle(&CacheOp::Usage, Ok(7 * 1024 * 1024)));
    assert_eq!(p.usage_bytes, Some(7 * 1024 * 1024));
    assert!(!p.loading);
    assert!(matches!(p.begin(&CacheOp::Clear), Some(CacheCall::Clear)));
    assert!(!p.settle(&CacheOp::Clear, Ok(123)));
    assert_eq!(p.usage_bytes, Some(0));
    assert!(matches!(&p.feedback, Some(CacheFeedback::Success(t)) if t == "Media cache cleared"));
}

#[test]
fn quota_changes_take_only_offered_choices_and_keep_the_old_quota_on_error() {
    let mut p = panel();
    assert!(p.begin(&CacheOp::SetQuota { quota_mb: 300 }).is_none());
    assert!(!p.loading);
    let op = CacheOp::SetQuota { quota_mb: 2048 };
    assert!(matches!(p.begin(&op), Some(CacheCall::SetQuota { bytes: 2_147_483_648 })));
    assert!(!p.settle(&op, Err("Storage is busy".to_string())));
    assert_eq!(p.quota_mb, 1024);
    assert!(matches!(&p.feedback, Some(CacheFeedback::Error(t)) if t == "Storage is busy"));
    assert!(p.begin(&op).is_some());
    assert!(p.settle(&op, Ok(5_000)));
    assert_eq!(p.quota_mb, 2048);
    assert_eq!(p.usage_bytes, Some(5_000));
    assert!(matches!(&p.feedback, Some(CacheFeedback::Success(t)) if t == "Cache quota set to 2048 MB"));
}

#[test]
fn profile_and_privacy_lines_follow_the_state() {
    assert_eq!(profile_about_hint(true, true), "Refresh when connected");
    assert_eq!(profile_about_hint(false, false), "Connect to edit your profile");
    assert_eq!(profile_about_hint(false, true), "Visible according to your About privacy setting.");
    assert_eq!(profile_name_or(Some("Ana"), "Your profile"), "Ana");
    assert_eq!(profile_name_or(Some(""), "Your profile"), "Your profile");
    assert_eq!(profile_name_or(None, "wasabi account"), "wasabi account");
    assert_eq!(privacy_notice(true, false, true), Some("Loading…"));
    assert_eq!(privacy_notice(true, true, true), None);
    assert_eq!(privacy_notice(false, false, true), Some("Unavailable until the linked account answers"));
    assert_eq!(privacy_notice(false, false, false), Some("Unavailable until connected"));
    assert_eq!(blocklist_notice(true, None, Some("x")).as_deref(), Some("Loading…"));
    assert_eq!(blocklist_notice(false, Some(2), Some("failed")).as_deref(), Some("failed"));
    assert_eq!(blocklist_notice(false, Some(0), None).as_deref(), Some("No blocked contacts"));
    assert_eq!(blocklist_notice(true, Some(3), None), None);
    assert_eq!(blocklist_notice(false, None, None).as_deref(), Some("Unavailable until connected"));
}

#[test]
fn a_current_privacy_value_not_offered_is_shown_first() {
    assert_eq!(picker_choices(&[1u8, 2, 3], Some(2)), vec![1, 2, 3]);
    assert_eq!(picker_choices(&[1u8, 2, 3], Some(9)), vec![9, 1, 2, 3]);
    assert_eq!(picker_choices(&[1u8, 2, 3], None), vec![1, 2, 3]);
    assert_eq!(picker_choices::<u8>(&[], Some(4)), vec![4]);
}

#[test]
fn cache_sizes_follow_the_double_everywhere() {
    let reference = |bytes: u64| -> String {
        const MIB: f64 = 1024.0 * 1024.0;
        const GIB: f64 = MIB * 1024.0;
        if bytes as f64 >= GIB {
            format!("{:.1} GB", bytes as f64 / GIB)
        } else {
            format!("{:.1} MB", bytes as f64 / MIB)
        }
    };
    let mut x: u64 = 0x1234_5678_9ABC_DEF1;
    for shift in 0..64u32 {
        for _ in 0..300 {
            x = x.wrapping_mul(6364136223846793005).wrapping_add(1442695040888963407);
            let b = x >> shift;
            assert_eq!(format_bytes(b), reference(b), "{b}");
        }
    }
    assert_eq!(format_bytes(u64::MAX), reference(u64::MAX));
}
