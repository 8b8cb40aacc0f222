use wasabi::media_viewer::{
    lightbox_kind, media_viewer_neighbor, media_viewer_targets, viewer_uses_original,
    LightboxKind, MediaDownload, MediaDownloadState, VIEWER_ORIGINAL_MAX_BYTES,
};
use wasabi::model::{MediaDescriptor, MessageKind, MessageRow};

fn media(id: &str) -> MediaDescriptor {
    MediaDescriptor {
        id: id.to_string(),
        mime_type: None,
        file_name: None,
        file_size: None,
        duration_seconds: None,
        width: None,
        height: None,
    }
}

fn row(id: &str, kind: MessageKind) -> MessageRow {
    MessageRow {
        id: id.to_string(),
        chat: "chat-a@s.whatsapp.net".to_string(),
        timestamp_ms: 1,
        edited_at_ms: None,
        kind,
    }
}

fn ready(chat: &str, media: &str, available: bool) -> MediaDownload {
    MediaDownload {
        chat: chat.to_string(),
        media: media.to_string(),
        state: MediaDownloadState::Ready { available },
    }
}

#[test]
fn navigation_skips_non_cached_and_non_visual_kinds() {
    let chat = "chat-a@s.whatsapp.net";
    let rows = vec![
        row("text", MessageKind::Text { body: "hi".to_string() }),
        row("photo", MessageKind::Image { caption: None, media: media("photo") }),
        row("audio", MessageKind::Audio { voice_note: false, media: media("audio") }),
        row("uncached", MessageKind::Image { caption: None, media: media("uncached") }),
        row("evicted", MessageKind::Image { caption: None, media: media("evicted") }),
        row(
            "video",
            MessageKind::Video { caption: None, video_note: false, media: media("video") },
        ),
        row("sticker", MessageKind::Sticker { animated: false, media: media("sticker") }),
    ];
    // The cached file of "evicted" is gone; the others are on disk.
    let downloads = vec![
        ready(chat, "photo", true),
        ready(chat, "audio", true),
        ready(chat, "evicted", false),
        ready(chat, "video", true),
        ready(chat, "sticker", true),
    ];

    let targets = media_viewer_targets(&rows, &downloads);
    let ids: Vec<_> = targets.iter().map(|id| id.as_str().to_string()).collect();
    assert_eq!(ids, vec!["photo", "video", "sticker"]);
    assert_eq!(
        media_viewer_neighbor(&targets, "photo", 1).as_deref(),
        Some("video")
    );
    assert_eq!(
        media_viewer_neighbor(&targets, "video", -1).as_deref(),
        Some("photo")
    );
    assert_eq!(media_viewer_neighbor(&targets, "sticker", 1), None);
    assert_eq!(media_viewer_neighbor(&targets, "photo", -1), None);
}

#[test]
fn huge_originals_use_a_bounded_preview() {
    let mut media = media("huge");
    media.width = Some(8000);
    media.height = Some(4000);
    // The cache path does not exist, so no size is read from disk.
    assert!(!viewer_uses_original(&media, None));
    media.width = Some(800);
    media.height = Some(600);
    media.file_size = Some(200_000);
    assert!(viewer_uses_original(&media, None));
    media.file_size = Some(VIEWER_ORIGINAL_MAX_BYTES + 1);
    assert!(!viewer_uses_original(&media, None));
}

#[test]
fn the_size_on_disk_counts_when_the_message_has_none() {
    let m = media("local");
    assert!(viewer_uses_original(&m, Some(VIEWER_ORIGINAL_MAX_BYTES)));
    assert!(!viewer_uses_original(&m, Some(VIEWER_ORIGINAL_MAX_BYTES + 1)));
    assert!(viewer_uses_original(&m, None));
}

#[test]
fn only_images_videos_and_stickers_open_in_the_lightbox() {
    assert_eq!(
        lightbox_kind(&MessageKind::Image { caption: None, media: media("a") }),
        Some(LightboxKind::Image)
    );
    assert_eq!(
        lightbox_kind(&MessageKind::Document { media: media("b") }),
        None
    );
    assert_eq!(lightbox_kind(&MessageKind::Unsupported), None);
}

#[test]
fn stepping_from_an_unknown_message_finds_nothing() {
    let targets = vec!["a".to_string(), "b".to_string()];
    assert_eq!(media_viewer_neighbor(&targets, "zzz", 1), None);
    assert_eq!(media_viewer_neighbor(&targets, "a", 0).as_deref(), Some("a"));
    assert_eq!(media_viewer_neighbor(&targets, "a", 2), None);
}

#[test]
fn downloads_start_once_and_may_be_retried_after_failure() {
    use_download_guard();
}

fn use_download_guard() {
    use_state(None, true);
    use_state(Some(wasabi::media_viewer::MediaDownloadState::Failed), true);
    use_state(Some(wasabi::media_viewer::MediaDownloadState::Downloading), false);
    use_state(Some(wasabi::media_viewer::MediaDownloadState::Ready { available: false }), false);
}

fn use_state(s: Option<wasabi::media_viewer::MediaDownloadState>, expected: bool) {
    assert_eq!(wasabi::media_viewer::download_should_start(s), expected);
}

#[test]
fn the_lightbox_stage_prefers_decodable_originals() {
    use_stage();
}

fn use_stage() {
    let k = wasabi::media_viewer::LightboxKind::Image;
    let v = wasabi::media_viewer::LightboxKind::Video;
    let st = wasabi::media_viewer::viewer_stage;
    assert!(st(k, false, true, true) == wasabi::media_viewer::ViewerStage::Missing);
    assert!(st(v, true, false, false) == wasabi::media_viewer::ViewerStage::VideoStill { still: false });
    assert!(st(v, true, false, true) == wasabi::media_viewer::ViewerStage::VideoStill { still: true });
    assert!(st(k, true, true, true) == wasabi::media_viewer::ViewerStage::Picture { original: true });
    assert!(st(k, true, false, true) == wasabi::media_viewer::ViewerStage::Picture { original: false });
    assert!(st(k, true, false, false) == wasabi::media_viewer::ViewerStage::Picture { original: true });
    assert_eq!(wasabi::media_viewer::lightbox_title(k), "Photo");
    assert_eq!(wasabi::media_viewer::lightbox_title(v), "Video");
    assert_eq!(wasabi::media_viewer::lightbox_title(wasabi::media_viewer::LightboxKind::Sticker), "Sticker");
}
