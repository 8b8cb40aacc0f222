//! Lightbox rules: which messages it shows, when it loads the original
//! file instead of a bounded preview, and how it steps between items.

use vstd::prelude::*;
use crate::conversation;
use crate::model::{MediaDescriptor, MessageKind, MessageRow};
use crate::text;

verus! {

/// Largest original file the viewer decodes directly.
pub const VIEWER_ORIGINAL_MAX_BYTES: u64 = 8388608;

/// Longest edge of an original the viewer decodes directly.
pub const VIEWER_ORIGINAL_MAX_EDGE: u32 = 2048;

/// Visual kinds the lightbox can show.
#[derive(Clone, Copy, Debug, PartialEq, Eq, Structural)]
pub enum LightboxKind {
    Image,
    Sticker,
    Video,
}

/// How the lightbox shows a message, if at all.
pub fn lightbox_kind(kind: &MessageKind) -> (r: Option<LightboxKind>)
    ensures
        r == match kind {
            MessageKind::Image { .. } => Some(LightboxKind::Image),
            MessageKind::Sticker { .. } => Some(LightboxKind::Sticker),
            MessageKind::Video { .. } => Some(LightboxKind::Video),
            _ => None::<LightboxKind>,
        },
{
    match kind {
        MessageKind::Image { .. } => Some(LightboxKind::Image),
        MessageKind::Sticker { .. } => Some(LightboxKind::Sticker),
        MessageKind::Video { .. } => Some(LightboxKind::Video),
        _ => None,
    }
}

/// Images, stickers and videos open in the lightbox.
pub open spec fn is_visual(kind: MessageKind) -> bool {
    kind is Image || kind is Sticker || kind is Video
}

/// Whether the lightbox can show a message.
pub fn is_lightbox_kind(kind: &MessageKind) -> (r: bool)
    ensures
        r == is_visual(*kind),
{
    lightbox_kind(kind).is_some()
}

/// The original is shown unless its known dimensions exceed 2048 pixels on
/// the longer edge, or its size (the recorded one, else the size found on
/// disk) exceeds 8 MiB.
pub open spec fn uses_original(m: MediaDescriptor, disk_size: Option<u64>) -> bool {
    let too_wide = match (m.width, m.height) {
        (Some(w), Some(h)) => w > VIEWER_ORIGINAL_MAX_EDGE || h > VIEWER_ORIGINAL_MAX_EDGE,
        _ => false,
    };
    let size = match m.file_size {
        Some(s) => Some(s),
        None => disk_size,
    };
    let too_big = match size {
        Some(s) => s > VIEWER_ORIGINAL_MAX_BYTES,
        None => false,
    };
    !too_wide && !too_big
}

/// The viewer decodes an original only when it is small enough: when both
/// dimensions are known and either one, width or height, exceeds 2048
/// pixels, or when the size (the recorded one, else the one on disk)
/// exceeds 8 MiB, it shows the bounded preview; within both limits, or with
/// nothing known, it shows the original.
pub proof fn law_original_only_within_limits(m: MediaDescriptor, disk_size: Option<u64>)
    ensures
        m.width is Some && m.height is Some && m.width.unwrap() > 2048 ==> !uses_original(m, disk_size),
        m.width is Some && m.height is Some && m.height.unwrap() > 2048 ==> !uses_original(m, disk_size),
        m.file_size is Some && m.file_size.unwrap() > 8388608 ==> !uses_original(m, disk_size),
        m.file_size is None && disk_size is Some && disk_size.unwrap() > 8388608 ==> !uses_original(
            m,
            disk_size,
        ),
        (m.width is Some ==> m.width.unwrap() <= 2048) && (m.height is Some ==> m.height.unwrap()
            <= 2048) && (m.file_size is Some ==> m.file_size.unwrap() <= 8388608) && (m.file_size is None
            && disk_size is Some ==> disk_size.unwrap() <= 8388608) ==> uses_original(m, disk_size),
        m.width is None && m.file_size is None && disk_size is None ==> uses_original(m, disk_size),
{
}

/// Whether the viewer decodes the original file; `disk_size` is the size of
/// the cached file, consulted only when the message does not record one.
pub fn viewer_uses_original(media: &MediaDescriptor, disk_size: Option<u64>) -> (r: bool)
    ensures
        r == uses_original(*media, disk_size),
{
    if let (Some(width), Some(height)) = (media.width, media.height) {
        let longest = if width > height {
            width
        } else {
            height
        };
        if longest > VIEWER_ORIGINAL_MAX_EDGE {
            return false;
        }
    }
    let size = match media.file_size {
        Some(s) => Some(s),
        None => disk_size,
    };
    if let Some(size) = size {
        if size > VIEWER_ORIGINAL_MAX_BYTES {
            return false;
        }
    }
    true
}

/// State of one media download, with a finished download already checked
/// against the cache (`available` when the cached file is still there).
#[derive(Clone, Copy, Debug, PartialEq, Eq, Structural)]
pub enum MediaDownloadState {
    Downloading,
    Ready { available: bool },
    Failed,
}

/// Whether a download of a media item is to start: not while one is on
/// its way or once it finished; after a failure it may be tried again.
pub fn download_should_start(state: Option<MediaDownloadState>) -> (r: bool)
    ensures
        r == (state is None || state == Some(MediaDownloadState::Failed)),
{
    match state {
        Some(MediaDownloadState::Downloading) | Some(MediaDownloadState::Ready { .. }) => false,
        _ => true,
    }
}

/// A download keyed by chat and media id.
#[derive(Debug)]
pub struct MediaDownload {
    pub chat: String,
    pub media: String,
    pub state: MediaDownloadState,
}

/// Downloads as the window keeps them: at most one per (chat, media) pair.
pub open spec fn distinct_downloads(downloads: Seq<MediaDownload>) -> bool {
    forall|i: int, j: int|
        0 <= i < j < downloads.len() ==> !(downloads[i].chat@ == downloads[j].chat@
            && downloads[i].media@ == downloads[j].media@)
}

/// The state recorded for (`chat`, `media`): that of its entry (the first
/// one, should there be several).
pub open spec fn download_state(
    downloads: Seq<MediaDownload>,
    chat: Seq<char>,
    media: Seq<char>,
) -> Option<MediaDownloadState>
    decreases downloads.len(),
{
    if downloads.len() == 0 {
        None
    } else if downloads[0].chat@ == chat && downloads[0].media@ == media {
        Some(downloads[0].state)
    } else {
        download_state(downloads.drop_first(), chat, media)
    }
}

fn find_download(downloads: &[MediaDownload], chat: &str, media: &str) -> (r: Option<
    MediaDownloadState,
>)
    ensures
        r == download_state(downloads@, chat@, media@),
{
    let mut i: usize = 0;
    assert(downloads@.skip(0) == downloads@);
    while i < downloads.len()
        invariant
            i <= downloads@.len(),
            download_state(downloads@, chat@, media@) == download_state(
                downloads@.skip(i as int),
                chat@,
                media@,
            ),
        decreases downloads@.len() - i,
    {
        assert(downloads@.skip(i as int).drop_first() == downloads@.skip(i + 1));
        assert(downloads@.skip(i as int)[0] == downloads@[i as int]);
        if text::same_text(downloads[i].chat.as_str(), chat) && text::same_text(
            downloads[i].media.as_str(),
            media,
        ) {
            return Some(downloads[i].state);
        }
        i = i + 1;
    }
    None
}

/// A message the lightbox can step to: visual, and its media is downloaded
/// and still in the cache.
pub open spec fn is_viewer_target(row: MessageRow, downloads: Seq<MediaDownload>) -> bool {
    &&& is_visual(row.kind)
    &&& match row.kind {
        MessageKind::Image { media, .. } => download_state(downloads, row.chat@, media.id@)
            == Some(MediaDownloadState::Ready { available: true }),
        MessageKind::Sticker { media, .. } => download_state(downloads, row.chat@, media.id@)
            == Some(MediaDownloadState::Ready { available: true }),
        MessageKind::Video { media, .. } => download_state(downloads, row.chat@, media.id@)
            == Some(MediaDownloadState::Ready { available: true }),
        _ => false,
    }
}

/// Ids of the viewer targets among `rows`, in timeline order.
pub open spec fn viewer_targets(rows: Seq<MessageRow>, downloads: Seq<MediaDownload>) -> Seq<
    Seq<char>,
>
    decreases rows.len(),
{
    if rows.len() == 0 {
        seq![]
    } else {
        let p = viewer_targets(rows.drop_last(), downloads);
        if is_viewer_target(rows.last(), downloads) {
            p.push(rows.last().id@)
        } else {
            p
        }
    }
}

/// The messages the lightbox steps through, in timeline order, given the
/// downloads, one per (chat, media) pair.
pub fn media_viewer_targets(rows: &[MessageRow], downloads: &[MediaDownload]) -> (r: Vec<String>)
    requires
        distinct_downloads(downloads@),
    ensures
        r@.map_values(|s: String| s@) == viewer_targets(rows@, downloads@),
{
    let mut out: Vec<String> = Vec::new();
    for i in 0..rows.len()
        invariant
            out@.map_values(|s: String| s@) == viewer_targets(rows@.take(i as int), downloads@),
    {
        let row = &rows[i];
        assert(rows@.take(i + 1).drop_last() == rows@.take(i as int));
        let ready = if is_lightbox_kind(&row.kind) {
            match conversation::media_descriptor(&row.kind) {
                Some(media) => match find_download(downloads, row.chat.as_str(), media.id.as_str()) {
                    Some(MediaDownloadState::Ready { available }) => available,
                    _ => false,
                },
                None => false,
            }
        } else {
            false
        };
        if ready {
            out.push(row.id.clone());
        }
        assert(out@.map_values(|s: String| s@) == viewer_targets(rows@.take(i + 1), downloads@));
    }
    assert(rows@.take(rows@.len() as int) == rows@);
    out
}

/// The target `delta` steps away from `current`, if `current` is a target
/// and the step stays within the list.
pub open spec fn neighbor_of(targets: Seq<Seq<char>>, current: Seq<char>, delta: int) -> Option<
    Seq<char>,
> {
    if exists|i: int| 0 <= i < targets.len() && targets[i] == current {
        let i = choose|i: int|
            0 <= i < targets.len() && targets[i] == current && forall|j: int|
                0 <= j < i ==> targets[j] != current;
        if 0 <= i + delta < targets.len() {
            Some(targets[i + delta])
        } else {
            None
        }
    } else {
        None
    }
}

/// The lightbox target `delta` steps from `current`, if there is one.
pub fn media_viewer_neighbor(targets: &[String], current: &str, delta: isize) -> (r: Option<
    String,
>)
    ensures
        match r {
            Some(s) => neighbor_of(targets@.map_values(|s: String| s@), current@, delta as int)
                == Some(s@),
            None => neighbor_of(targets@.map_values(|s: String| s@), current@, delta as int)
                is None,
        },
{
    let ghost t = targets@.map_values(|s: String| s@);
    let mut i: usize = 0;
    while i < targets.len()
        invariant
            i <= targets@.len(),
            t == targets@.map_values(|s: String| s@),
            forall|j: int| 0 <= j < i ==> t[j] != current@,
        ensures
            i <= targets@.len(),
            forall|j: int| 0 <= j < i ==> t[j] != current@,
            i < targets@.len() ==> t[i as int] == current@,
        decreases targets@.len() - i,
    {
        if text::same_text(targets[i].as_str(), current) {
            break;
        }
        i = i + 1;
    }
    if i == targets.len() {
        return None;
    }
    proof {
        assert(t[i as int] == current@);
        let c = choose|k: int|
            0 <= k < t.len() && t[k] == current@ && forall|j: int| 0 <= j < k ==> t[j] != current@;
        assert(0 <= i < t.len() && t[i as int] == current@ && forall|j: int|
            0 <= j < i ==> t[j] != current@);
        if c < i {
            assert(t[c] != current@);
        }
        if c > i {
            assert(t[i as int] != current@);
        }
    }
    let n = targets.len() as i128;
    let next = i as i128 + delta as i128;
    if next < 0 || next >= n {
        None
    } else {
        Some(targets[next as usize].clone())
    }
}

/// The lightbox title for each kind of media.
pub fn lightbox_title(kind: LightboxKind) -> (r: &'static str)
    ensures
        r@ == match kind {
            LightboxKind::Image => "Photo"@,
            LightboxKind::Sticker => "Sticker"@,
            LightboxKind::Video => "Video"@,
        },
{
    match kind {
        LightboxKind::Image => "Photo",
        LightboxKind::Sticker => "Sticker",
        LightboxKind::Video => "Video",
    }
}

/// What the lightbox's stage shows.
#[derive(PartialEq, Eq, Structural)]
pub enum ViewerStage {
    /// A video's still (when a cached one is available) and a button that
    /// opens the system player.
    VideoStill { still: bool },
    /// A picture: the original file, or the thumbnail in its place (when
    /// one is cached; else the original all the same).
    Picture { original: bool },
    /// The file is no longer in the cache.
    Missing,
}

/// The lightbox's stage: nothing to show without the cached file; a video
/// shows a still; a picture shows the original when it may be decoded
/// here, else its thumbnail when there is one.
pub fn viewer_stage(kind: LightboxKind, cached: bool, uses_original: bool, thumb: bool) -> (r: ViewerStage)
    ensures
        r == (if !cached {
            ViewerStage::Missing
        } else if kind == LightboxKind::Video {
            ViewerStage::VideoStill { still: thumb }
        } else {
            ViewerStage::Picture { original: uses_original || !thumb }
        }),
{
    if !cached {
        ViewerStage::Missing
    } else {
        match kind {
            LightboxKind::Video => ViewerStage::VideoStill { still: thumb },
            _ => ViewerStage::Picture { original: uses_original || !thumb },
        }
    }
}

} // verus!
