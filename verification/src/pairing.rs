//! Device pairing: the status copy of the QR and phone-number panels, the
//! grouping of companion codes, and the QR module grid to paint.

use vstd::prelude::*;
use crate::text;

verus! {

/// Connection state of the linked session.
#[derive(Clone, Copy, Debug, PartialEq, Eq, Structural)]
pub enum SessionState {
    Starting,
    Connecting,
    Pairing,
    Connected,
    Disconnected,
    Failed,
    LoggedOut,
}

impl SessionState {
    /// Whether the session is connected.
    pub fn is_connected(&self) -> (r: bool)
        ensures
            r == (*self == SessionState::Connected),
    {
        *self == SessionState::Connected
    }
}

/// Seconds shown in a countdown: whole seconds left, plus one so the label
/// never reads zero while the code is still valid.
pub fn countdown_secs(remaining_ms: u64) -> (r: u64)
    ensures
        r == remaining_ms / 1000 + 1,
{
    remaining_ms / 1000 + 1
}

/// The status line under the QR code.
pub open spec fn qr_status_line(requesting: bool, countdown: Option<u64>, state: SessionState) -> Seq<char> {
    if requesting {
        "Starting secure pairing…"@
    } else {
        match countdown {
            Some(secs) => "Code refreshes in "@ + text::decimal(secs as nat) + "s"@,
            None => if state == SessionState::Connecting {
                "Connecting to WhatsApp…"@
            } else if state == SessionState::Failed || state == SessionState::Disconnected {
                "Connection needs attention. Try again."@
            } else {
                "Waiting for QR…"@
            },
        }
    }
}

/// The status line under the QR code.
pub fn pairing_status_line(requesting: bool, countdown: Option<u64>, state: SessionState) -> (r:
    String)
    ensures
        r@ == qr_status_line(requesting, countdown, state),
{
    if requesting {
        return String::from_str("Starting secure pairing…");
    }
    match countdown {
        Some(secs) => {
            let mut s = String::new();
            text::push_str(&mut s, "Code refreshes in ");
            text::push_decimal(&mut s, secs as u128);
            text::push_str(&mut s, "s");
            s
        },
        None => match state {
            SessionState::Connecting => String::from_str("Connecting to WhatsApp…"),
            SessionState::Failed | SessionState::Disconnected => String::from_str(
                "Connection needs attention. Try again.",
            ),
            _ => String::from_str("Waiting for QR…"),
        },
    }
}

/// The action area of a pairing panel.
#[derive(Clone, Copy, Debug, PartialEq, Eq, Structural)]
pub enum PairingAction {
    /// A request is running; shows the given progress label.
    Busy,
    /// The session is connecting; no request can start.
    Connecting,
    /// A request can start; `retry` after an error.
    Start { retry: bool },
    /// A phone code is already shown.
    CodeReady,
}

/// The QR panel's start button: busy while requesting, waiting while
/// connecting, otherwise a start (or retry after an error) button.
pub fn qr_pairing_action(requesting: bool, state: SessionState, has_error: bool) -> (r: PairingAction)
    ensures
        requesting ==> r == PairingAction::Busy,
        !requesting && state == SessionState::Connecting ==> r == PairingAction::Connecting,
        !requesting && state != SessionState::Connecting ==> r == (PairingAction::Start {
            retry: has_error,
        }),
{
    if requesting {
        PairingAction::Busy
    } else if state == SessionState::Connecting {
        PairingAction::Connecting
    } else {
        PairingAction::Start { retry: has_error }
    }
}

/// The phone panel's action: busy while requesting, waiting while
/// connecting, a request button when no code is shown, else "code ready".
pub fn phone_pairing_action(
    requesting: bool,
    state: SessionState,
    has_code: bool,
    has_error: bool,
) -> (r: PairingAction)
    ensures
        requesting ==> r == PairingAction::Busy,
        !requesting && state == SessionState::Connecting ==> r == PairingAction::Connecting,
        !requesting && state != SessionState::Connecting && !has_code ==> r == (
        PairingAction::Start { retry: has_error }),
        !requesting && state != SessionState::Connecting && has_code ==> r
            == PairingAction::CodeReady,
{
    if requesting {
        PairingAction::Busy
    } else if state == SessionState::Connecting {
        PairingAction::Connecting
    } else if !has_code {
        PairingAction::Start { retry: has_error }
    } else {
        PairingAction::CodeReady
    }
}

/// The number of leading characters of `s` whose UTF-8 encoding is exactly
/// `b` bytes long, when a character boundary falls there.
pub open spec fn chars_at_byte(s: Seq<char>, b: nat) -> Option<nat> {
    if exists|k: nat| k <= s.len() && text::utf8_len(s.take(k as int)) == b {
        Some(choose|k: nat| k <= s.len() && text::utf8_len(s.take(k as int)) == b)
    } else {
        None
    }
}

/// A companion code as displayed: white space removed, then bytes 0..4 and
/// 4..8 shown as two groups two spaces apart (anything after byte 8 is not
/// shown); a code without character boundaries at bytes 4 and 8 is shown
/// compacted as it is.
pub open spec fn pair_code_display(code: Seq<char>) -> Seq<char> {
    let c = text::without_ws(code);
    match (chars_at_byte(c, 4), chars_at_byte(c, 8)) {
        (Some(i), Some(j)) => c.take(i as int) + "  "@ + c.subrange(i as int, j as int),
        _ => c,
    }
}

proof fn lemma_utf8_len_step(s: Seq<char>, k: int)
    requires
        0 <= k < s.len(),
    ensures
        text::utf8_len(s.take(k + 1)) == text::utf8_len(s.take(k)) + text::utf8_width(s[k]),
{
    assert(s.take(k + 1).drop_last() == s.take(k));
}

proof fn lemma_utf8_len_increasing(s: Seq<char>, a: int, b: int)
    requires
        0 <= a < b <= s.len(),
    ensures
        text::utf8_len(s.take(a)) < text::utf8_len(s.take(b)),
    decreases b - a,
{
    lemma_utf8_len_step(s, b - 1);
    if a < b - 1 {
        lemma_utf8_len_increasing(s, a, b - 1);
    }
}

proof fn lemma_chars_at_byte(s: Seq<char>, b: nat, k: nat)
    requires
        k <= s.len(),
        text::utf8_len(s.take(k as int)) == b,
    ensures
        chars_at_byte(s, b) == Some(k),
{
    let c = choose|k: nat| k <= s.len() && text::utf8_len(s.take(k as int)) == b;
    if c < k {
        lemma_utf8_len_increasing(s, c as int, k as int);
    } else if c > k {
        lemma_utf8_len_increasing(s, k as int, c as int);
    }
}

/// Companion code grouped for reading.
pub fn display_pair_code(code: &str) -> (r: String)
    ensures
        r@ == pair_code_display(code@),
{
    let v = text::chars_of(code);
    let c = text::strip_ws(v.as_slice());
    let mut bytes: usize = 0;
    let mut at4: Option<usize> = None;
    let mut at8: Option<usize> = None;
    let mut i: usize = 0;
    assert(c@.take(0) == Seq::<char>::empty());
    loop
        invariant_except_break
            i <= c@.len(),
            bytes == text::utf8_len(c@.take(i as int)),
            bytes <= 12,
            forall|k: nat|
                k < i && text::utf8_len(c@.take(k as int)) == 4 ==> at4 == Some(k as usize),
            forall|k: nat|
                k < i && text::utf8_len(c@.take(k as int)) == 8 ==> at8 == Some(k as usize),
            at4 matches Some(k) ==> k <= c@.len() && text::utf8_len(c@.take(k as int)) == 4,
            at8 matches Some(k) ==> k <= c@.len() && text::utf8_len(c@.take(k as int)) == 8,
        ensures
            i <= c@.len(),
            bytes == text::utf8_len(c@.take(i as int)),
            i == c@.len() || bytes >= 8,
            forall|k: nat|
                k <= i && text::utf8_len(c@.take(k as int)) == 4 ==> at4 == Some(k as usize),
            forall|k: nat|
                k <= i && text::utf8_len(c@.take(k as int)) == 8 ==> at8 == Some(k as usize),
            at4 matches Some(k) ==> k <= c@.len() && text::utf8_len(c@.take(k as int)) == 4,
            at8 matches Some(k) ==> k <= c@.len() && text::utf8_len(c@.take(k as int)) == 8,
        decreases c@.len() - i,
    {
        proof {
            assert forall|k: nat| k < i implies text::utf8_len(c@.take(k as int)) < bytes by {
                lemma_utf8_len_increasing(c@, k as int, i as int);
            }
        }
        if bytes == 4 {
            at4 = Some(i);
        }
        if bytes == 8 {
            at8 = Some(i);
        }
        if i == c.len() || bytes >= 8 {
            break;
        }
        proof {
            lemma_utf8_len_step(c@, i as int);
        }
        bytes = bytes + text::char_utf8_width(c[i]);
        i = i + 1;
    }
    proof {
        assert forall|k: nat| i < k <= c@.len() implies text::utf8_len(c@.take(k as int)) > 8 by {
            lemma_utf8_len_increasing(c@, i as int, k as int);
        }
        match at4 {
            Some(k) => lemma_chars_at_byte(c@, 4, k as nat),
            None => {
                assert(!exists|k: nat| k <= c@.len() && text::utf8_len(c@.take(k as int)) == 4);
            },
        }
        match at8 {
            Some(k) => lemma_chars_at_byte(c@, 8, k as nat),
            None => {
                assert(!exists|k: nat| k <= c@.len() && text::utf8_len(c@.take(k as int)) == 8);
            },
        }
    }
    match (at4, at8) {
        (Some(a), Some(b)) => {
            proof {
                if a > b {
                    lemma_utf8_len_increasing(c@, b as int, a as int);
                }
            }
            let mut out = String::new();
            let mut k: usize = 0;
            while k < a
                invariant
                    a <= b <= c@.len(),
                    k <= a,
                    out@ == c@.take(k as int),
                decreases a - k,
            {
                text::push_char(&mut out, c[k]);
                assert(c@.take(k + 1) == c@.take(k as int).push(c@[k as int]));
                k = k + 1;
            }
            text::push_str(&mut out, "  ");
            let ghost head = out@;
            while k < b
                invariant
                    a <= b <= c@.len(),
                    a <= k <= b,
                    out@ == head + c@.subrange(a as int, k as int),
                decreases b - k,
            {
                text::push_char(&mut out, c[k]);
                assert(c@.subrange(a as int, k + 1) == c@.subrange(a as int, k as int).push(
                    c@[k as int],
                ));
                k = k + 1;
            }
            out
        },
        _ => text::string_from_chars(c.as_slice()),
    }
}

/// Light modules framing a QR symbol on each side.
pub const QR_QUIET_ZONE: usize = 4;

/// The QR symbol the encoder produces for a payload (medium error
/// correction, smallest fitting version): its width and its modules in
/// row-major order, `true` for dark; `None` when it cannot encode it.
pub uninterp spec fn qr_symbol(payload: Seq<u8>) -> Option<(nat, Seq<bool>)>;

/// Calls `qrcode::QrCode::new`, then `width` and `to_colors`; a symbol has
/// one module per cell of its width-by-width grid.
#[verifier::external_body]
fn encode_qr(payload: &[u8]) -> (r: Option<(usize, Vec<bool>)>)
    ensures
        match r {
            Some((w, m)) => qr_symbol(payload@) == Some((w as nat, m@)) && m@.len() == w * w,
            None => qr_symbol(payload@) is None,
        },
{
    match qrcode::QrCode::new(payload) {
        Ok(code) => Some((
            code.width(),
            code.to_colors().into_iter().map(|c| c == qrcode::Color::Dark).collect(),
        )),
        Err(_) => None,
    }
}

/// The module grid of a QR symbol.
pub struct QrMatrix {
    width: usize,
    dark: Vec<bool>,
}

impl QrMatrix {
    /// Modules per side.
    pub closed spec fn width_spec(&self) -> nat {
        self.width as nat
    }

    /// The modules in row-major order, `true` for dark.
    pub closed spec fn modules(&self) -> Seq<bool> {
        self.dark@
    }

    /// The grid holds one module per cell.
    pub closed spec fn wf(&self) -> bool {
        self.dark@.len() == self.width * self.width
    }

    /// Modules per side, without the quiet zone.
    pub fn width(&self) -> (w: usize)
        ensures
            w == self.width_spec(),
    {
        self.width
    }

    /// Modules per side of the painted frame, quiet zone included.
    pub fn total_modules(&self) -> (n: usize)
        requires
            self.wf(),
        ensures
            n == self.width_spec() + 2 * QR_QUIET_ZONE,
    {
        let n = self.dark.len();
        proof {
            let w = self.width as int;
            assert(w + 8 <= usize::MAX) by (nonlinear_arith)
                requires
                    w * w == n,
                    n <= usize::MAX,
                    usize::MAX >= 0xffff_ffff,
                    w >= 0,
            {
                if w >= 16 {
                    assert(w * w >= 16 * w);
                }
            }
        }
        self.width + 2 * QR_QUIET_ZONE
    }

    /// Whether module (`x`, `y`) of the symbol (quiet zone excluded) is dark.
    pub fn is_dark(&self, x: usize, y: usize) -> (d: bool)
        requires
            self.wf(),
            x < self.width_spec(),
            y < self.width_spec(),
        ensures
            d == self.modules()[y * self.width_spec() + x],
    {
        let n = self.dark.len();
        proof {
            let w = self.width as int;
            assert(y * w + x < w * w) by (nonlinear_arith)
                requires
                    0 <= x < w,
                    0 <= y < w,
            ;
        }
        self.dark[y * self.width + x]
    }
}

/// Encodes a pairing payload (its UTF-8 bytes) into a QR grid; `None` when
/// the encoder rejects it and the panel shows that the QR is unavailable.
pub fn qr_matrix(payload: &str) -> (r: Option<QrMatrix>)
    ensures
        match r {
            Some(m) => m.wf() && qr_symbol(vstd::utf8::encode_utf8(payload@)) == Some(
                (m.width_spec(), m.modules()),
            ),
            None => qr_symbol(vstd::utf8::encode_utf8(payload@)) is None,
        },
{
    match encode_qr(payload.as_bytes()) {
        Some((width, dark)) => Some(QrMatrix { width, dark }),
        None => None,
    }
}

} // verus!
