//! Settings copy: cache sizes, quota choices, key-binding labels and the
//! confirmation dialogs of account-level actions.

use vstd::prelude::*;
use crate::text;
use crate::binary64;
use crate::model::{views, SameView};
use crate::chat_state::{str_view, string_view};
use vstd::string::StrSliceExecFns;

verus! {

/// Cache size label: gigabytes from one binary gigabyte up, megabytes
/// below, one decimal, rounded to nearest with ties to even. The count is
/// taken as a double first, which changes it only above 2^53.
pub open spec fn cache_size_label(bytes: nat) -> Seq<char> {
    if bytes >= 1073741824 {
        text::fixed(text::round_half_even(binary64::integer_as_double(bytes) * 10, 1073741824), 1) + " GB"@
    } else {
        text::fixed(text::round_half_even(binary64::integer_as_double(bytes) * 10, 1048576), 1) + " MB"@
    }
}

/// A cache size for the storage settings.
pub fn format_bytes(bytes: u64) -> (r: String)
    ensures
        r@ == cache_size_label(bytes as nat),
{
    let mut s = String::new();
    let b = binary64::u64_as_double(bytes);
    if bytes >= 1073741824 {
        text::push_fixed(&mut s, text::div_round_half_even(b * 10, 1073741824), 1);
        text::push_str(&mut s, " GB");
    } else {
        text::push_fixed(&mut s, text::div_round_half_even(b * 10, 1048576), 1);
        text::push_str(&mut s, " MB");
    }
    s
}

/// The "media cache in use" value: a calculation in progress with nothing
/// known yet, the known size, or that nothing was calculated.
pub fn cache_usage_label(loading: bool, usage_bytes: Option<u64>) -> (r: String)
    ensures
        loading && usage_bytes is None ==> r@ == "Calculating…"@,
        usage_bytes matches Some(b) ==> r@ == cache_size_label(b as nat),
        !loading && usage_bytes is None ==> r@ == "Not calculated"@,
{
    match usage_bytes {
        Some(b) => format_bytes(b),
        None => if loading {
            String::from_str("Calculating…")
        } else {
            String::from_str("Not calculated")
        },
    }
}

/// The cache quota choices offered, in megabytes.
pub const CACHE_QUOTA_CHOICES_MB: [u64; 4] = [512, 1024, 2048, 5120];

/// A quota choice label: whole gigabytes from 1024 MB up, megabytes below.
pub fn quota_label(quota_mb: u64) -> (r: String)
    ensures
        quota_mb >= 1024 ==> r@ == text::decimal(quota_mb as nat / 1024) + " GB"@,
        quota_mb < 1024 ==> r@ == text::decimal(quota_mb as nat) + " MB"@,
{
    let mut s = String::new();
    if quota_mb >= 1024 {
        text::push_decimal(&mut s, (quota_mb / 1024) as u128);
        text::push_str(&mut s, " GB");
    } else {
        text::push_decimal(&mut s, quota_mb as u128);
        text::push_str(&mut s, " MB");
    }
    s
}

/// The shown bindings for sending and for a new line.
pub fn shortcut_labels(enter_to_send: bool) -> (r: (&'static str, &'static str))
    ensures
        enter_to_send ==> r.0@ == "Enter"@ && r.1@ == "Shift+Enter"@,
        !enter_to_send ==> r.0@ == "Disabled — Enter inserts a new line"@ && r.1@
            == "Enter or Shift+Enter"@,
{
    if enter_to_send {
        ("Enter", "Shift+Enter")
    } else {
        ("Disabled — Enter inserts a new line", "Enter or Shift+Enter")
    }
}

/// An account-level action awaiting confirmation.
#[derive(Debug)]
pub enum SettingsOverlay {
    ClearMediaCache,
    Logout,
    RemoveProfilePicture,
    UnblockContact { jid: String, name: String },
}

/// Title, explanation and confirm label of a settings confirmation.
pub fn settings_overlay_copy(overlay: &SettingsOverlay) -> (r: (String, String, String))
    ensures
        overlay is ClearMediaCache ==> {
            &&& r.0@ == "Clear downloaded media?"@
            &&& r.1@
                == "Cached photos, videos, audio, and documents will be removed from this computer. Messages remain available and media can be downloaded again."@
            &&& r.2@ == "Clear cache"@
        },
        overlay is Logout ==> {
            &&& r.0@ == "Log out of this desktop?"@
            &&& r.1@
                == "This companion will be unlinked from WhatsApp. Cached chats and account data remain on this computer unless you remove them separately."@
            &&& r.2@ == "Log out"@
        },
        overlay is RemoveProfilePicture ==> {
            &&& r.0@ == "Remove your profile photo?"@
            &&& r.1@
                == "The photo is removed from your WhatsApp account after the linked session accepts the request."@
            &&& r.2@ == "Remove photo"@
        },
        overlay matches SettingsOverlay::UnblockContact { name, .. } ==> {
            &&& r.0@ == "Unblock "@ + name@ + "?"@
            &&& r.1@
                == "They will be able to message you again after the linked account accepts the request."@
            &&& r.2@ == "Unblock"@
        },
{
    match overlay {
        SettingsOverlay::ClearMediaCache => (
            String::from_str("Clear downloaded media?"),
            String::from_str(
                "Cached photos, videos, audio, and documents will be removed from this computer. Messages remain available and media can be downloaded again.",
            ),
            String::from_str("Clear cache"),
        ),
        SettingsOverlay::Logout => (
            String::from_str("Log out of this desktop?"),
            String::from_str(
                "This companion will be unlinked from WhatsApp. Cached chats and account data remain on this computer unless you remove them separately.",
            ),
            String::from_str("Log out"),
        ),
        SettingsOverlay::RemoveProfilePicture => (
            String::from_str("Remove your profile photo?"),
            String::from_str(
                "The photo is removed from your WhatsApp account after the linked session accepts the request.",
            ),
            String::from_str("Remove photo"),
        ),
        SettingsOverlay::UnblockContact { name, .. } => {
            let mut title = String::new();
            text::push_str(&mut title, "Unblock ");
            text::push_str(&mut title, name.as_str());
            text::push_str(&mut title, "?");
            (
                title,
                String::from_str(
                    "They will be able to message you again after the linked account accepts the request.",
                ),
                String::from_str("Unblock"),
            )
        },
    }
}

/// Whether `q` is one of the quota choices.
pub open spec fn is_quota_choice(q: u64) -> bool {
    q == 512 || q == 1024 || q == 2048 || q == 5120
}

/// Whether an operation is refused: another is on its way, or the quota
/// asked for is not one of the choices.
pub open spec fn refused(loading: bool, op: CacheOp) -> bool {
    loading || match op {
        CacheOp::SetQuota { quota_mb } => !is_quota_choice(quota_mb),
        _ => false,
    }
}

/// An operation on the media cache.
pub enum CacheOp {
    Clear,
    Usage,
    SetQuota { quota_mb: u64 },
}

/// What the settings page says after an operation.
pub enum CacheFeedback {
    Success(String),
    Error(String),
}

/// The media-cache part of the settings page.
pub struct MediaCachePanel {
    /// An operation is on its way.
    pub loading: bool,
    pub usage_bytes: Option<u64>,
    pub quota_mb: u64,
    pub feedback: Option<CacheFeedback>,
}

/// Mathematical view of a [`CacheFeedback`]: success, and the words.
pub open spec fn feedback_view(f: Option<CacheFeedback>) -> Option<(bool, Seq<char>)> {
    match f {
        Some(CacheFeedback::Success(t)) => Some((true, t@)),
        Some(CacheFeedback::Error(t)) => Some((false, t@)),
        None => None,
    }
}

/// Whether the operation is the one the session should run: what it asks
/// for, with a quota in bytes.
pub enum CacheCall {
    Clear,
    Usage,
    SetQuota { bytes: u64 },
}

impl MediaCachePanel {
    /// Starts `op` unless another operation is on its way (or the quota is
    /// not one of the choices); the call to make. Starting a clear or a
    /// quota change drops the last feedback.
    pub fn begin(&mut self, op: &CacheOp) -> (r: Option<CacheCall>)
        ensures
            refused(old(self).loading, *op) ==> r is None && final(self).loading == old(self).loading && final(self).usage_bytes
                == old(self).usage_bytes && final(self).quota_mb == old(self).quota_mb
                && feedback_view(final(self).feedback) == feedback_view(old(self).feedback),
            !refused(old(self).loading, *op) ==> {
                &&& final(self).loading
                &&& final(self).usage_bytes == old(self).usage_bytes
                &&& final(self).quota_mb == old(self).quota_mb
                &&& match op {
                    CacheOp::Clear => r matches Some(CacheCall::Clear) && final(self).feedback
                        is None,
                    CacheOp::Usage => r matches Some(CacheCall::Usage) && feedback_view(
                        final(self).feedback,
                    ) == feedback_view(old(self).feedback),
                    CacheOp::SetQuota { quota_mb } => r matches Some(CacheCall::SetQuota { bytes })
                        && bytes == quota_mb * 1048576 && final(self).feedback is None,
                }
            },
    {
        if self.loading {
            return None;
        }
        match op {
            CacheOp::Clear => {
                self.loading = true;
                self.feedback = None;
                Some(CacheCall::Clear)
            },
            CacheOp::Usage => {
                self.loading = true;
                Some(CacheCall::Usage)
            },
            CacheOp::SetQuota { quota_mb } => {
                let q = *quota_mb;
                if !(q == 512 || q == 1024 || q == 2048 || q == 5120) {
                    return None;
                }
                self.loading = true;
                self.feedback = None;
                Some(CacheCall::SetQuota { bytes: q * 1048576 })
            },
        }
    }

    /// Takes the session's answer to `op`: the byte count it reports (not
    /// used for a clear) or its error message. Returns whether the settings
    /// are to be saved (a new quota).
    pub fn settle(&mut self, op: &CacheOp, answer: Result<u64, String>) -> (save: bool)
        ensures
            !final(self).loading,
            save == (op is SetQuota && answer is Ok),
            match answer {
                Ok(bytes) => match op {
                    CacheOp::Clear => final(self).usage_bytes == Some(0u64) && final(self).quota_mb
                        == old(self).quota_mb && feedback_view(final(self).feedback) == Some(
                        (true, "Media cache cleared"@),
                    ),
                    CacheOp::Usage => final(self).usage_bytes == Some(bytes) && final(self).quota_mb
                        == old(self).quota_mb && feedback_view(final(self).feedback)
                        == feedback_view(old(self).feedback),
                    CacheOp::SetQuota { quota_mb } => final(self).usage_bytes == Some(bytes)
                        && final(self).quota_mb == quota_mb && feedback_view(final(self).feedback)
                        == Some(
                        (true, "Cache quota set to "@ + text::decimal(quota_mb as nat) + " MB"@),
                    ),
                },
                Err(message) => final(self).usage_bytes == old(self).usage_bytes
                    && final(self).quota_mb == old(self).quota_mb && feedback_view(
                    final(self).feedback,
                ) == Some((false, message@)),
            },
    {
        self.loading = false;
        match answer {
            Ok(bytes) => match op {
                CacheOp::Clear => {
                    self.usage_bytes = Some(0);
                    self.feedback = Some(CacheFeedback::Success(String::from_str("Media cache cleared")));
                    false
                },
                CacheOp::Usage => {
                    self.usage_bytes = Some(bytes);
                    false
                },
                CacheOp::SetQuota { quota_mb } => {
                    self.quota_mb = *quota_mb;
                    self.usage_bytes = Some(bytes);
                    let mut t = String::from_str("Cache quota set to ");
                    text::push_decimal(&mut t, *quota_mb as u128);
                    text::push_str(&mut t, " MB");
                    self.feedback = Some(CacheFeedback::Success(t));
                    true
                },
            },
            Err(message) => {
                self.feedback = Some(CacheFeedback::Error(message));
                false
            },
        }
    }
}

/// The hint under the profile's About field.
pub fn profile_about_hint(needs_refresh: bool, connected: bool) -> (r: &'static str)
    ensures
        r@ == (if needs_refresh {
            "Refresh when connected"@
        } else if !connected {
            "Connect to edit your profile"@
        } else {
            "Visible according to your About privacy setting."@
        }),
{
    if needs_refresh {
        "Refresh when connected"
    } else if !connected {
        "Connect to edit your profile"
    } else {
        "Visible according to your About privacy setting."
    }
}

/// The account's name as shown, or `fallback` when there is no profile or
/// its name is empty.
pub fn profile_name_or(push_name: Option<&str>, fallback: &str) -> (r: String)
    ensures
        r@ == match push_name {
            Some(n) => if n@.len() > 0 {
                n@
            } else {
                fallback@
            },
            None => fallback@,
        },
{
    match push_name {
        Some(n) => if n.unicode_len() > 0 {
            n.to_string()
        } else {
            fallback.to_string()
        },
        None => fallback.to_string(),
    }
}

/// The privacy section's single line in place of the pickers: loading
/// with nothing known, or unavailable (online: until the account answers;
/// offline: until connected); `None` once settings are known.
pub fn privacy_notice(loading: bool, have_settings: bool, connected: bool) -> (r: Option<&'static str>)
    ensures
        (loading && !have_settings) ==> (r matches Some(t) && t@ == "Loading…"@),
        (!loading && have_settings) || (loading && have_settings) ==> r is None,
        (!loading && !have_settings && connected) ==> (r matches Some(t) && t@
            == "Unavailable until the linked account answers"@),
        (!loading && !have_settings && !connected) ==> (r matches Some(t) && t@
            == "Unavailable until connected"@),
{
    if loading && !have_settings {
        Some("Loading…")
    } else if have_settings {
        None
    } else if connected {
        Some("Unavailable until the linked account answers")
    } else {
        Some("Unavailable until connected")
    }
}

/// The blocklist's single line in place of its rows: loading with nothing
/// known, an error, none blocked, or unavailable offline; `None` when the
/// blocked contacts are listed.
pub fn blocklist_notice(loading: bool, blocked: Option<usize>, error: Option<&str>) -> (r: Option<String>)
    ensures
        string_view(r) == (if loading && blocked is None {
            Some("Loading…"@)
        } else if error is Some {
            str_view(error)
        } else {
            match blocked {
                Some(n) => if n == 0 {
                    Some("No blocked contacts"@)
                } else {
                    None
                },
                None => Some("Unavailable until connected"@),
            }
        }),
{
    if loading && blocked.is_none() {
        return Some(String::from_str("Loading…"));
    }
    if let Some(e) = error {
        return Some(e.to_string());
    }
    match blocked {
        Some(n) => if n == 0 {
            Some(String::from_str("No blocked contacts"))
        } else {
            None
        },
        None => Some(String::from_str("Unavailable until connected")),
    }
}

/// The choices of a privacy picker: those offered, with the current value
/// put first when it is not among them.
pub fn picker_choices<T: Copy + SameView>(offered: &[T], current: Option<T>) -> (r: Vec<T>)
    ensures
        r@ == match current {
            Some(c) => if views(offered@).contains(c@) {
                offered@
            } else {
                seq![c] + offered@
            },
            None => offered@,
        },
{
    let mut found = false;
    if let Some(c) = current {
        let mut i: usize = 0;
        while i < offered.len() && !found
            invariant
                i <= offered@.len(),
                found ==> views(offered@).contains(c@),
                !found ==> forall|j: int| 0 <= j < i ==> offered@[j]@ != c@,
            decreases offered@.len() - i,
        {
            if offered[i].same_view(&c) {
                found = true;
                assert(views(offered@)[i as int] == c@);
            }
            i = i + 1;
        }
        assert(found || !views(offered@).contains(c@));
    }
    let mut out: Vec<T> = Vec::new();
    if let Some(c) = current {
        if !found {
            out.push(c);
        }
    }
    let ghost start = out@;
    for i in 0..offered.len()
        invariant
            out@ == start + offered@.take(i as int),
    {
        out.push(offered[i]);
        assert(offered@.take(i + 1) == offered@.take(i as int).push(offered@[i as int]));
    }
    assert(offered@.take(offered@.len() as int) == offered@);
    out
}

/// Said when the device settings could not be written.
pub fn settings_save_error(error: &str) -> (r: String)
    ensures
        r@ == "Could not save settings: "@ + error@,
{
    let mut t = String::from_str("Could not save settings: ");
    text::push_str(&mut t, error);
    t
}

} // verus!
