//! Deterministic fixture plan and report arithmetic of the large-database
//! benchmark: which chat each generated row lands in, when it was sent, what
//! it says, and how the timing samples are summarised and printed.

use vstd::prelude::*;
use crate::text;
use crate::binary64;
use crate::model::ChatSummary;

verus! {

/// Charter-grade scale: ten thousand chats.
pub const CHATS: u64 = 10_000;

/// Every seventh chat is a group.
pub const GROUP_EVERY: u64 = 7;

/// Size of the fixed sender pool of group chats.
pub const GROUP_PARTICIPANTS: u64 = 20;

/// Fixed base instant (2023-01-01T00:00:00Z) in milliseconds.
pub const BASE_MS: i64 = 1_672_531_200_000;

/// The dataset spans three years of wall-clock time.
pub const SPAN_MS: i64 = 94_608_000_000;

/// Term embedded in every generated body.
pub const SEARCH_TERM: &'static str = "update";

/// What the generator writes for one draw of the mix.
#[derive(Clone, Copy, Debug, PartialEq, Eq, Structural)]
pub enum Kind {
    IncomingText,
    OutgoingText,
    ImageMeta,
}

/// The traffic mix bucket of a draw: 70% incoming text, 15% outgoing text,
/// 10% image metadata, and the last 5% folded back into incoming text.
pub open spec fn kind_of(draw: nat) -> Kind {
    let b = draw % 100;
    if b <= 69 {
        Kind::IncomingText
    } else if b <= 84 {
        Kind::OutgoingText
    } else if b <= 94 {
        Kind::ImageMeta
    } else {
        Kind::IncomingText
    }
}

/// The traffic-mix bucket of a draw.
pub fn kind_for(draw: u64) -> (k: Kind)
    ensures
        k == kind_of(draw as nat),
{
    let b = draw % 100;
    if b <= 69 {
        Kind::IncomingText
    } else if b <= 84 {
        Kind::OutgoingText
    } else if b <= 94 {
        Kind::ImageMeta
    } else {
        Kind::IncomingText
    }
}

/// Multiplier and increment of the generator's linear congruence.
pub const LCG_MUL: u64 = 6364136223846793005;

/// Increment of the generator's linear congruence.
pub const LCG_INC: u64 = 1442695040888963407;

/// One step of the congruence modulo 2^64.
pub open spec fn lcg_step(state: u64) -> u64 {
    ((state as nat * LCG_MUL as nat + LCG_INC as nat) % 0x1_0000_0000_0000_0000) as u64
}

/// Tiny linear congruential generator; only its high bits are handed out.
pub struct Lcg {
    state: u64,
}

impl View for Lcg {
    type V = u64;

    closed spec fn view(&self) -> u64 {
        self.state
    }
}

impl Lcg {
    /// Seeds the generator; the state is forced odd.
    pub fn new(seed: u64) -> (g: Lcg)
        ensures
            g@ == (seed | 1),
    {
        Lcg { state: seed | 1 }
    }

    /// Advances the state and returns its top 31 bits.
    pub fn next(&mut self) -> (r: u64)
        ensures
            final(self)@ == lcg_step(old(self)@),
            r == final(self)@ / 0x2_0000_0000,
    {
        let s = self.state;
        let m = s.wrapping_mul(LCG_MUL);
        let n = m.wrapping_add(LCG_INC);
        proof {
            let p: nat = s as nat * LCG_MUL as nat;
            assert(m as nat == p % 0x1_0000_0000_0000_0000);
            vstd::arithmetic::div_mod::lemma_add_mod_noop(
                p as int,
                LCG_INC as int,
                0x1_0000_0000_0000_0000,
            );
        }
        self.state = n;
        assert(n >> 33 == n / 0x2_0000_0000) by (bit_vector);
        n >> 33
    }
}

/// Whether a chat number is on the group slot of the seven-chat cycle.
pub fn is_group_chat(c: u64) -> (r: bool)
    ensures
        r == (c % GROUP_EVERY == GROUP_EVERY - 1),
{
    c % GROUP_EVERY == GROUP_EVERY - 1
}

/// The JID text of fixture chat `c`.
pub open spec fn chat_jid_spec(c: nat) -> Seq<char> {
    if c % 7 == 6 {
        "120363011"@ + text::padded(c, 5) + "@g.us"@
    } else {
        "5599"@ + text::padded(30_000_000 + c, 8) + "@s.whatsapp.net"@
    }
}

/// The JID of fixture chat `c`: groups get a `@g.us` id, everyone else a
/// phone-number JID.
pub fn chat_jid(c: u64) -> (r: String)
    requires
        c <= u64::MAX - 30_000_000,
    ensures
        r@ == chat_jid_spec(c as nat),
{
    let mut s = String::new();
    if is_group_chat(c) {
        text::push_str(&mut s, "120363011");
        text::push_padded(&mut s, c as u128, 5);
        text::push_str(&mut s, "@g.us");
    } else {
        text::push_str(&mut s, "5599");
        text::push_padded(&mut s, (30_000_000 + c) as u128, 8);
        text::push_str(&mut s, "@s.whatsapp.net");
    }
    s
}

/// The JID of group sender `p` of the fixed participant pool.
pub fn participant_jid(p: u64) -> (r: String)
    requires
        p <= u64::MAX - 41_000_000,
    ensures
        r@ == "5597"@ + text::padded(41_000_000 + p as nat, 8) + "@s.whatsapp.net"@,
{
    let mut s = String::new();
    text::push_str(&mut s, "5597");
    text::push_padded(&mut s, (41_000_000 + p) as u128, 8);
    text::push_str(&mut s, "@s.whatsapp.net");
    s
}

/// The eight phrases that generated bodies rotate through.
pub open spec fn phrase(i: nat) -> Seq<char> {
    if i == 0 {
        "standup notes"@
    } else if i == 1 {
        "lunch plans"@
    } else if i == 2 {
        "photo from the trip"@
    } else if i == 3 {
        "invoice attached"@
    } else if i == 4 {
        "running late"@
    } else if i == 5 {
        "call me back"@
    } else if i == 6 {
        "schedule moved"@
    } else {
        "check this link"@
    }
}

fn phrase_text(i: u64) -> (r: &'static str)
    requires
        i < 8,
    ensures
        r@ == phrase(i as nat),
{
    if i == 0 {
        "standup notes"
    } else if i == 1 {
        "lunch plans"
    } else if i == 2 {
        "photo from the trip"
    } else if i == 3 {
        "invoice attached"
    } else if i == 4 {
        "running late"
    } else if i == 5 {
        "call me back"
    } else if i == 6 {
        "schedule moved"
    } else {
        "check this link"
    }
}

/// Body text of generated message `ordinal`: a rotating phrase, the search
/// term, and the ordinal.
pub fn body(ordinal: u64) -> (r: String)
    ensures
        r@ == phrase(ordinal as nat % 8) + " "@ + SEARCH_TERM@ + " #"@ + text::decimal(
            ordinal as nat,
        ),
{
    let mut s = String::new();
    text::push_str(&mut s, phrase_text(ordinal % 8));
    text::push_str(&mut s, " ");
    text::push_str(&mut s, SEARCH_TERM);
    text::push_str(&mut s, " #");
    text::push_decimal(&mut s, ordinal as u128);
    s
}

/// `ns` rendered for the report: milliseconds with two decimals from one
/// millisecond up, microseconds with one decimal from one microsecond up,
/// plain nanoseconds below; the quotient is taken and printed in binary64.
pub open spec fn fmt_ns_spec(ns: nat) -> Seq<char> {
    if ns >= 1_000_000 {
        binary64::float_quotient_text(ns, 1_000_000, 2) + " ms"@
    } else if ns >= 1_000 {
        binary64::float_quotient_text(ns, 1_000, 1) + " µs"@
    } else {
        text::decimal(ns) + " ns"@
    }
}

/// A duration in nanoseconds, rendered for the report table.
pub fn fmt_ns(ns: u128) -> (r: String)
    ensures
        r@ == fmt_ns_spec(ns as nat),
{
    let mut s = String::new();
    if ns >= 1_000_000 {
        text::push_fixed(&mut s, binary64::quotient_units(ns, 1_000_000, 2), 2);
        text::push_str(&mut s, " ms");
    } else if ns >= 1_000 {
        text::push_fixed(&mut s, binary64::quotient_units(ns, 1_000, 1), 1);
        text::push_str(&mut s, " µs");
    } else {
        text::push_decimal(&mut s, ns);
        text::push_str(&mut s, " ns");
    }
    s
}

/// Microseconds with one decimal, for the machine-readable summary line.
pub fn us(ns: u128) -> (r: String)
    ensures
        r@ == us_spec(ns as nat),
{
    let mut s = String::new();
    text::push_fixed(&mut s, binary64::quotient_units(ns, 1_000, 1), 1);
    s
}

/// 1024 to the power `k`.
pub open spec fn kib_pow(k: nat) -> nat
    decreases k,
{
    if k == 0 {
        1
    } else {
        1024 * kib_pow((k - 1) as nat)
    }
}

/// The unit suffix of step `k` of the binary size ladder.
pub open spec fn size_unit(k: nat) -> Seq<char> {
    if k == 0 {
        "B"@
    } else if k == 1 {
        "KiB"@
    } else if k == 2 {
        "MiB"@
    } else if k == 3 {
        "GiB"@
    } else {
        "TiB"@
    }
}

/// The ladder step a size is shown in: the largest unit (up to TiB) that
/// the size reaches.
pub open spec fn size_step(b: nat) -> nat {
    if b >= kib_pow(4) {
        4
    } else if b >= kib_pow(3) {
        3
    } else if b >= kib_pow(2) {
        2
    } else if b >= kib_pow(1) {
        1
    } else {
        0
    }
}

/// `b` bytes in the largest fitting binary unit with one decimal, the count
/// taken as a double first (which changes it only above 2^53).
pub open spec fn humansize_spec(b: nat) -> Seq<char> {
    let k = size_step(b);
    text::fixed(text::round_half_even(binary64::integer_as_double(b) * 10, kib_pow(k)), 1) + " "@
        + size_unit(k)
}

/// A byte count in binary units, for the report.
pub fn humansize_bytes(b: u64) -> (r: String)
    ensures
        r@ == humansize_spec(b as nat),
{
    let mut unit: u64 = 0;
    let mut den: u128 = 1;
    proof {
        reveal_with_fuel(kib_pow, 5);
    }
    while unit < 4 && (b as u128) >= den * 1024
        invariant
            unit <= 4,
            den == kib_pow(unit as nat),
            unit > 0 ==> b >= kib_pow(unit as nat),
            den <= kib_pow(4),
        decreases 4 - unit,
    {
        den = den * 1024;
        unit = unit + 1;
        proof {
            reveal_with_fuel(kib_pow, 5);
        }
    }
    proof {
        reveal_with_fuel(kib_pow, 5);
        assert(unit == size_step(b as nat));
    }
    let mut s = String::new();
    text::push_fixed(&mut s, text::div_round_half_even(binary64::u64_as_double(b) * 10, den), 1);
    text::push_str(&mut s, " ");
    text::push_str(&mut s, unit_text(unit));
    s
}

fn unit_text(k: u64) -> (r: &'static str)
    ensures
        r@ == size_unit(k as nat),
{
    if k == 0 {
        "B"
    } else if k == 1 {
        "KiB"
    } else if k == 2 {
        "MiB"
    } else if k == 3 {
        "GiB"
    } else {
        "TiB"
    }
}


/// What the report printed when the benchmark finished generating.
pub struct GenReport {
    pub rows: u64,
    pub elapsed: std::time::Duration,
}

/// Millisecond spacing between consecutive generated rows: the three-year
/// span divided evenly, never below one millisecond.
pub open spec fn spacing_spec(total_rows: nat) -> nat {
    if total_rows > SPAN_MS {
        1
    } else if total_rows == 0 {
        SPAN_MS as nat
    } else {
        SPAN_MS as nat / total_rows
    }
}

/// Millisecond spacing between consecutive generated rows.
pub fn spacing_ms(total_rows: u64) -> (r: i64)
    ensures
        r == spacing_spec(total_rows as nat),
        r >= 1,
{
    if total_rows > SPAN_MS as u64 {
        1
    } else if total_rows == 0 {
        SPAN_MS
    } else {
        let d = total_rows as i64;
        proof {
            assert(SPAN_MS / d >= 1) by (nonlinear_arith)
                requires
                    1 <= d <= SPAN_MS,
            ;
        }
        SPAN_MS / d
    }
}

/// Rows that chat `c` receives: an even share, with the remainder handed
/// one each to the first chats.
pub open spec fn chat_rows_spec(total_rows: nat, c: nat) -> nat {
    total_rows / (CHATS as nat) + if c < total_rows % (CHATS as nat) {
        1nat
    } else {
        0nat
    }
}

/// Rows generated into chat `c`.
pub fn rows_in_chat(total_rows: u64, c: u64) -> (r: u64)
    ensures
        r == chat_rows_spec(total_rows as nat, c as nat),
{
    let per_chat = total_rows / CHATS;
    let remainder = total_rows % CHATS;
    proof {
        assert(per_chat < u64::MAX) by (nonlinear_arith)
            requires
                per_chat == total_rows / 10_000,
        ;
    }
    per_chat + if c < remainder {
        1
    } else {
        0
    }
}

/// Rows handed to chats `0..k` together.
pub open spec fn rows_before_chat(total_rows: nat, k: nat) -> nat
    decreases k,
{
    if k == 0 {
        0
    } else {
        rows_before_chat(total_rows, (k - 1) as nat) + chat_rows_spec(total_rows, (k - 1) as nat)
    }
}

proof fn lemma_rows_before_chat(total_rows: nat, k: nat)
    ensures
        rows_before_chat(total_rows, k) == k * (total_rows / 10_000) + (if k < total_rows
            % 10_000 {
            k
        } else {
            total_rows % 10_000
        }),
    decreases k,
{
    if k > 0 {
        let km: nat = (k - 1) as nat;
        lemma_rows_before_chat(total_rows, km);
        let q = total_rows / 10_000;
        let r = total_rows % 10_000;
        assert(k * q == km * q + q) by (nonlinear_arith)
            requires
                km + 1 == k,
        ;
        assert(rows_before_chat(total_rows, k) == rows_before_chat(total_rows, km)
            + chat_rows_spec(total_rows, km));
        assert(chat_rows_spec(total_rows, km) == q + (if km < r {
            1nat
        } else {
            0nat
        }));
        assert(rows_before_chat(total_rows, km) == km * q + (if km < r {
            km
        } else {
            r
        }));
    } else {
        assert(k * (total_rows / 10_000) == 0) by (nonlinear_arith)
            requires
                k == 0,
        ;
    }
}

/// Over all ten thousand chats the shares add up to exactly the requested
/// number of rows: nothing is lost or generated twice.
pub proof fn law_chat_shares_cover_all_rows(total_rows: nat)
    ensures
        rows_before_chat(total_rows, CHATS as nat) == total_rows,
{
    lemma_rows_before_chat(total_rows, CHATS as nat);
    let q = total_rows / 10_000;
    let r = total_rows % 10_000;
    assert(total_rows == 10_000 * q + r) by (nonlinear_arith)
        requires
            q == total_rows / 10_000,
            r == total_rows % 10_000,
    ;
}

/// Seed of the generator's traffic mix.
pub const MIX_SEED: u64 = 0xDA7A_BA5E;

/// One row the generator writes: its chat, its global position, and its
/// place in the traffic mix.
#[derive(Clone, Copy, Debug, PartialEq, Eq, Structural)]
pub struct GenRow {
    pub chat: u64,
    pub ordinal: u64,
    pub kind: Kind,
}

/// Walks the generated rows in order: chat by chat, each chat its share,
/// one draw of the mix per row.
pub struct RowPlanner {
    total_rows: u64,
    chat: u64,
    done_in_chat: u64,
    ordinal: u64,
    rng: Lcg,
}

impl RowPlanner {
    /// Rows requested in all.
    pub closed spec fn total(&self) -> nat {
        self.total_rows as nat
    }

    /// Position of the next row.
    pub closed spec fn position(&self) -> nat {
        self.ordinal as nat
    }

    /// State of the traffic-mix generator.
    pub closed spec fn mix_state(&self) -> u64 {
        self.rng@
    }

    /// The planner is between rows of its walk.
    pub closed spec fn wf(&self) -> bool {
        &&& self.chat <= CHATS
        &&& self.ordinal == rows_before_chat(self.total_rows as nat, self.chat as nat)
            + self.done_in_chat
        &&& self.chat < CHATS ==> self.done_in_chat <= chat_rows_spec(
            self.total_rows as nat,
            self.chat as nat,
        )
        &&& self.chat == CHATS ==> self.done_in_chat == 0
    }

    /// A walk over `total_rows` rows from the first chat.
    pub fn new(total_rows: u64) -> (p: RowPlanner)
        ensures
            p.wf(),
            p.total() == total_rows,
            p.position() == 0,
            p.mix_state() == (MIX_SEED | 1),
    {
        RowPlanner { total_rows, chat: 0, done_in_chat: 0, ordinal: 0, rng: Lcg::new(MIX_SEED) }
    }

    /// The next row, or `None` once all rows are planned. Row `k` belongs
    /// to the chat whose share covers position `k`.
    pub fn next_row(&mut self) -> (r: Option<GenRow>)
        requires
            old(self).wf(),
        ensures
            final(self).wf(),
            final(self).total() == old(self).total(),
            old(self).position() >= old(self).total() ==> r is None && final(self).position()
                == old(self).position() && final(self).mix_state() == old(self).mix_state(),
            old(self).position() < old(self).total() ==> (r matches Some(row) && {
                &&& row.ordinal == old(self).position()
                &&& row.chat < CHATS
                &&& rows_before_chat(old(self).total(), row.chat as nat) <= row.ordinal
                    < rows_before_chat(old(self).total(), row.chat as nat + 1)
                &&& row.kind == kind_of((lcg_step(old(self).mix_state()) / 0x2_0000_0000) as nat)
                &&& final(self).position() == old(self).position() + 1
                &&& final(self).mix_state() == lcg_step(old(self).mix_state())
            }),
    {
        proof {
            law_chat_shares_cover_all_rows(self.total_rows as nat);
            lemma_rows_before_monotone(self.total_rows as nat, self.chat as nat, CHATS as nat);
        }
        while self.chat < CHATS && self.done_in_chat >= rows_in_chat(self.total_rows, self.chat)
            invariant
                self.wf(),
                self.total_rows == old(self).total_rows,
                self.ordinal == old(self).ordinal,
                self.rng == old(self).rng,
                rows_before_chat(self.total_rows as nat, CHATS as nat) == self.total_rows,
            decreases CHATS - self.chat,
        {
            self.chat = self.chat + 1;
            self.done_in_chat = 0;
        }
        if self.chat >= CHATS {
            return None;
        }
        proof {
            lemma_rows_before_monotone(self.total_rows as nat, (self.chat + 1) as nat, CHATS as nat);
        }
        let row_chat = self.chat;
        let row_ordinal = self.ordinal;
        let draw = self.rng.next();
        let kind = kind_for(draw);
        self.done_in_chat = self.done_in_chat + 1;
        self.ordinal = self.ordinal + 1;
        Some(GenRow { chat: row_chat, ordinal: row_ordinal, kind })
    }
}

/// Inbound rows applied to the store together.
pub const INBOUND_BATCH: u64 = 500;

/// Rows between two flushes of the store's write queue.
pub const PROGRESS_EVERY: u64 = 50_000;

/// What the generator asks of the store next.
#[derive(Clone, Copy, Debug, PartialEq, Eq, Structural)]
pub enum GenStep {
    /// Record the row as an outgoing message, written at once.
    RecordOutgoing(GenRow),
    /// Add the row to the batch of inbound messages.
    Queue(GenRow),
    /// Apply the inbound messages queued so far.
    ApplyBatch,
    /// Drain the store's write queue and report progress.
    Flush,
    /// Every row is written and flushed.
    Done,
}

/// Whether `row` is the row a planner in state `p` hands out next: the
/// next position, in the chat whose share covers it, with the next draw of
/// the traffic mix.
pub open spec fn planned_row(p: RowPlanner, row: GenRow) -> bool {
    &&& row.ordinal == p.position()
    &&& row.chat < CHATS
    &&& rows_before_chat(p.total(), row.chat as nat) <= row.ordinal < rows_before_chat(
        p.total(),
        row.chat as nat + 1,
    )
    &&& row.kind == kind_of((lcg_step(p.mix_state()) / 0x2_0000_0000) as nat)
}

/// The next planned row, with what the generator's batching needs of it.
fn pull_row(planner: &mut RowPlanner) -> (r: Option<GenRow>)
    requires
        old(planner).wf(),
    ensures
        final(planner).wf(),
        final(planner).total() == old(planner).total(),
        old(planner).position() >= old(planner).total() ==> r is None && final(planner).position()
            == old(planner).position(),
        old(planner).position() < old(planner).total() ==> (r matches Some(row) && {
            &&& planned_row(*old(planner), row)
            &&& final(planner).position() == old(planner).position() + 1
            &&& final(planner).mix_state() == lcg_step(old(planner).mix_state())
        }),
{
    planner.next_row()
}

/// Whether the store is flushed after row `ordinal`: after every fifty
/// thousandth row.
fn flush_after(ordinal: u64) -> (r: bool)
    requires
        ordinal < u64::MAX,
    ensures
        r == ((ordinal + 1) % PROGRESS_EVERY as int == 0),
{
    (ordinal + 1) % PROGRESS_EVERY == 0
}

/// The generator's walk over its rows, with the batching and flushing of
/// the store's writes.
pub struct Generation {
    planner: RowPlanner,
    queued: u64,
    apply_due: bool,
    flush_due: bool,
    flushed_at_end: bool,
}

impl Generation {
    /// The row walk.
    pub closed spec fn rows(&self) -> RowPlanner {
        self.planner
    }

    /// Inbound rows queued and not yet applied.
    pub closed spec fn queued(&self) -> nat {
        self.queued as nat
    }

    /// A full batch waits to be applied.
    pub closed spec fn apply_due(&self) -> bool {
        self.apply_due
    }

    /// A flush waits to be made.
    pub closed spec fn flush_due(&self) -> bool {
        self.flush_due
    }

    /// The closing flush was made.
    pub closed spec fn finished(&self) -> bool {
        self.flushed_at_end
    }

    /// Batches never exceed their size, a full one is applied next, and the
    /// closing flush comes only after the last row.
    pub closed spec fn wf(&self) -> bool {
        &&& self.planner.wf()
        &&& self.queued <= INBOUND_BATCH
        &&& self.apply_due == (self.queued == INBOUND_BATCH)
        &&& self.flushed_at_end ==> self.planner.position() >= self.planner.total()
            && self.queued == 0 && !self.flush_due
    }

    /// A generation of `total_rows` rows.
    pub fn new(total_rows: u64) -> (g: Generation)
        ensures
            g.wf(),
            g.rows().total() == total_rows,
            g.rows().position() == 0,
            g.rows().mix_state() == (MIX_SEED | 1),
            g.queued() == 0,
            !g.flush_due(),
            !g.finished(),
    {
        Generation {
            planner: RowPlanner::new(total_rows),
            queued: 0,
            apply_due: false,
            flush_due: false,
            flushed_at_end: false,
        }
    }

    /// The next thing to ask of the store: a pending full batch, then a
    /// pending flush, then the next row (outgoing rows are recorded, the
    /// others queued; every fifty thousandth row is followed by a flush);
    /// once the rows are out, the last partial batch, one closing flush,
    /// and then `Done` for good.
    pub fn next_step(&mut self) -> (step: GenStep)
        requires
            old(self).wf(),
        ensures
            final(self).wf(),
            final(self).rows().total() == old(self).rows().total(),
            step == GenStep::Done ==> final(self).queued() == 0 && final(self).finished()
                && final(self).rows().position() >= final(self).rows().total(),
            old(self).apply_due() ==> {
                &&& step == GenStep::ApplyBatch
                &&& final(self).queued() == 0
                &&& final(self).rows() == old(self).rows()
                &&& final(self).flush_due() == old(self).flush_due()
                &&& final(self).finished() == old(self).finished()
            },
            !old(self).apply_due() && old(self).flush_due() ==> {
                &&& step == GenStep::Flush
                &&& !final(self).flush_due()
                &&& final(self).rows() == old(self).rows()
                &&& final(self).queued() == old(self).queued()
                &&& final(self).finished() == old(self).finished()
            },
            !old(self).apply_due() && !old(self).flush_due() && old(self).rows().position() < old(self).rows().total() ==> {
                &&& match step {
                    GenStep::RecordOutgoing(row) => {
                        &&& row.kind == Kind::OutgoingText
                        &&& row.ordinal == old(self).rows().position()
                        &&& planned_row(old(self).rows(), row)
                        &&& final(self).queued() == old(self).queued()
                        &&& final(self).flush_due() == ((row.ordinal + 1) % PROGRESS_EVERY as int == 0)
                    },
                    GenStep::Queue(row) => {
                        &&& row.kind != Kind::OutgoingText
                        &&& row.ordinal == old(self).rows().position()
                        &&& planned_row(old(self).rows(), row)
                        &&& final(self).queued() == old(self).queued() + 1
                        &&& final(self).flush_due() == ((row.ordinal + 1) % PROGRESS_EVERY as int == 0)
                    },
                    _ => false,
                }
                &&& final(self).rows().position() == old(self).rows().position() + 1
                &&& final(self).rows().mix_state() == lcg_step(old(self).rows().mix_state())
                &&& !final(self).finished()
            },
            !old(self).apply_due() && !old(self).flush_due() && old(self).rows().position() >= old(self).rows().total() ==> {
                &&& final(self).rows().position() == old(self).rows().position()
                &&& !final(self).flush_due()
                &&& old(self).queued() > 0 ==> step == GenStep::ApplyBatch && final(self).queued() == 0 && !final(self).finished()
                &&& old(self).queued() == 0 && !old(self).finished() ==> step == GenStep::Flush && final(self).finished()
                &&& old(self).queued() == 0 && old(self).finished() ==> step == GenStep::Done && final(self).finished()
            },
    {
        if self.apply_due {
            self.apply_due = false;
            self.queued = 0;
            return GenStep::ApplyBatch;
        }
        if self.flush_due {
            self.flush_due = false;
            return GenStep::Flush;
        }
        let next = pull_row(&mut self.planner);
        match next {
            Some(row) => self.take_row(row),
            None => self.close(),
        }
    }

    /// Hands out a planned row: recorded when outgoing, else queued.
    fn take_row(&mut self, row: GenRow) -> (step: GenStep)
        requires
            old(self).queued < INBOUND_BATCH,
            row.ordinal < u64::MAX,
        ensures
            final(self).planner == old(self).planner,
            final(self).flushed_at_end == old(self).flushed_at_end,
            final(self).flush_due == ((row.ordinal + 1) % PROGRESS_EVERY as int == 0),
            final(self).apply_due == (final(self).queued == INBOUND_BATCH),
            row.kind == Kind::OutgoingText ==> step == GenStep::RecordOutgoing(row)
                && final(self).queued == old(self).queued,
            row.kind != Kind::OutgoingText ==> step == GenStep::Queue(row) && final(self).queued
                == old(self).queued + 1,
    {
        let step = if row.kind == Kind::OutgoingText {
            GenStep::RecordOutgoing(row)
        } else {
            self.queued = self.queued + 1;
            GenStep::Queue(row)
        };
        self.apply_due = self.queued == INBOUND_BATCH;
        self.flush_due = flush_after(row.ordinal);
        step
    }

    /// After the last row: the partial batch, then the closing flush.
    fn close(&mut self) -> (step: GenStep)
        ensures
            final(self).planner == old(self).planner,
            !final(self).flush_due,
            final(self).queued == 0,
            final(self).apply_due == false,
            old(self).queued > 0 ==> step == GenStep::ApplyBatch && final(self).flushed_at_end
                == old(self).flushed_at_end,
            old(self).queued == 0 && !old(self).flushed_at_end ==> step == GenStep::Flush
                && final(self).flushed_at_end,
            old(self).queued == 0 && old(self).flushed_at_end ==> step == GenStep::Done
                && final(self).flushed_at_end,
    {
        self.flush_due = false;
        self.apply_due = false;
        if self.queued > 0 {
            self.queued = 0;
            GenStep::ApplyBatch
        } else if !self.flushed_at_end {
            self.flushed_at_end = true;
            GenStep::Flush
        } else {
            GenStep::Done
        }
    }
}

/// Timestamps ascend with the row position and every chat's rows form one
/// run, so a later row never belongs to an earlier chat: each chat's
/// history orders naturally and later chats are newer.
pub proof fn law_later_rows_belong_to_later_chats(
    total_rows: nat,
    spacing: nat,
    k1: nat,
    c1: nat,
    k2: nat,
    c2: nat,
)
    requires
        spacing >= 1,
        k1 < k2,
        rows_before_chat(total_rows, c1) <= k1 < rows_before_chat(total_rows, c1 + 1),
        rows_before_chat(total_rows, c2) <= k2 < rows_before_chat(total_rows, c2 + 1),
    ensures
        c1 <= c2,
        BASE_MS + k1 * spacing < BASE_MS + k2 * spacing,
{
    if c2 < c1 {
        lemma_rows_before_monotone(total_rows, c2 + 1, c1);
    }
    assert(k1 * spacing < k2 * spacing) by (nonlinear_arith)
        requires
            k1 < k2,
            spacing >= 1,
    ;
}

/// Chats later in the walk start no earlier.
proof fn lemma_rows_before_monotone(total_rows: nat, a: nat, b: nat)
    requires
        a <= b,
    ensures
        rows_before_chat(total_rows, a) <= rows_before_chat(total_rows, b),
    decreases b - a,
{
    if a < b {
        lemma_rows_before_monotone(total_rows, a, (b - 1) as nat);
    }
}

/// Send time of generated row `ordinal`: rows ascend from the base instant
/// by a fixed spacing.
pub fn row_timestamp_ms(ordinal: u64, spacing: i64) -> (r: i64)
    requires
        spacing >= 1,
        BASE_MS + ordinal as int * spacing <= i64::MAX,
    ensures
        r == BASE_MS + ordinal as int * spacing,
{
    proof {
        assert(ordinal as int <= ordinal as int * spacing) by (nonlinear_arith)
            requires
                spacing >= 1,
        ;
    }
    BASE_MS + (ordinal as i64) * spacing
}

/// Message id of generated row `ordinal`.
pub fn message_id(ordinal: u64) -> (r: String)
    ensures
        r@ == "GEN"@ + text::padded(ordinal as nat, 9),
{
    let mut s = String::new();
    text::push_str(&mut s, "GEN");
    text::push_padded(&mut s, ordinal as u128, 9);
    s
}

/// Push name of the group sender of row `ordinal`; the pool has twenty
/// members.
pub fn group_push_name(ordinal: u64) -> (r: String)
    ensures
        r@ == "GenUser"@ + text::padded(ordinal as nat % 20, 2),
{
    let mut s = String::new();
    text::push_str(&mut s, "GenUser");
    text::push_padded(&mut s, (ordinal % GROUP_PARTICIPANTS) as u128, 2);
    s
}

/// Metadata-only image payload of a generated image row.
pub struct ImageFixture {
    pub url: String,
    pub mimetype: String,
    pub file_length: u64,
    pub width: u32,
    pub height: u32,
}

/// Metadata of the image that generated row `ordinal` carries.
pub fn image_fixture(ordinal: u64) -> (r: ImageFixture)
    ensures
        r.url@ == "https://media.gen.invalid/"@ + text::decimal(ordinal as nat) + ".jpg"@,
        r.mimetype@ == "image/jpeg"@,
        r.file_length == 48_000 + ordinal % 4_096,
        r.width == 1080,
        r.height == 1350,
{
    let mut url = String::new();
    text::push_str(&mut url, "https://media.gen.invalid/");
    text::push_decimal(&mut url, ordinal as u128);
    text::push_str(&mut url, ".jpg");
    let mut mimetype = String::new();
    text::push_str(&mut mimetype, "image/jpeg");
    ImageFixture { url, mimetype, file_length: 48_000 + ordinal % 4_096, width: 1080, height: 1350 }
}

/// The sender JID of a generated row: a rotating pool member in groups,
/// the chat itself otherwise.
pub fn sender_jid(chat: u64, ordinal: u64) -> (r: String)
    requires
        chat <= u64::MAX - 30_000_000,
    ensures
        chat % 7 == 6 ==> r@ == "5597"@ + text::padded(41_000_000 + ordinal as nat % 20, 8)
            + "@s.whatsapp.net"@,
        chat % 7 != 6 ==> r@ == chat_jid_spec(chat as nat),
{
    if is_group_chat(chat) {
        participant_jid(ordinal % GROUP_PARTICIPANTS)
    } else {
        chat_jid(chat)
    }
}

/// Runtime mode of the benchmark.
#[derive(Clone, Copy, Debug, PartialEq, Eq, Structural)]
pub enum Mode {
    Gen,
    Bench,
    Both,
}

/// A `MODE` value that names no mode; holds the value lower-cased.
#[derive(Debug)]
pub struct ModeError {
    pub value: String,
}

/// A text as `{:?}` prints it (the `Debug` form of `str`): in double
/// quotes, with quotes, backslashes, control and non-printable characters
/// escaped.
pub uninterp spec fn debug_quoted(s: Seq<char>) -> Seq<char>;

/// Whether every character is an ASCII letter or digit.
pub open spec fn ascii_alphanumeric(s: Seq<char>) -> bool {
    forall|i: int|
        0 <= i < s.len() ==> ('a' <= #[trigger] s[i] <= 'z' || 'A' <= s[i] <= 'Z' || '0' <= s[i]
            <= '9')
}

/// Calls the `Debug` formatting of `str` (`format!("{:?}", s)`). Its
/// escaping rules are named, not restated; only that a text of ASCII
/// letters and digits comes back between double quotes, unescaped, is
/// stated.
#[verifier::external_body]
fn debug_quoted_text(s: &str) -> (r: String)
    ensures
        r@ == debug_quoted(s@),
        ascii_alphanumeric(s@) ==> r@ == "\""@ + s@ + "\""@,
{
    format!("{:?}", s)
}

impl ModeError {
    /// What the benchmark says of a `MODE` value that names no mode.
    pub fn message(&self) -> (r: String)
        ensures
            r@ == "MODE must be gen|bench|both, got "@ + debug_quoted(self.value@),
    {
        let mut t = String::from_str("MODE must be gen|bench|both, got ");
        let q = debug_quoted_text(self.value.as_str());
        text::push_str(&mut t, q.as_str());
        t
    }
}

/// ASCII lower-casing of one character (`char::to_ascii_lowercase`).
pub open spec fn ascii_lower(c: char) -> char {
    if 'A' <= c && c <= 'Z' {
        ((c as u32) + 32) as char
    } else {
        c
    }
}

/// ASCII lower-casing of a text (`str::to_ascii_lowercase`).
pub open spec fn ascii_lower_seq(s: Seq<char>) -> Seq<char> {
    Seq::new(s.len(), |i: int| ascii_lower(s[i]))
}

fn to_ascii_lower(c: char) -> (r: char)
    ensures
        r == ascii_lower(c),
{
    if 'A' <= c && c <= 'Z' {
        let u = (c as u32) + 32;
        proof {
            assert(0x61 <= u <= 0x7a);
        }
        char_from_ascii(u)
    } else {
        c
    }
}

fn char_from_ascii(u: u32) -> (c: char)
    requires
        u < 0x80,
    ensures
        c == u as char,
{
    let b = u as u8;
    b as char
}

/// Parses the `MODE` setting case-insensitively (ASCII).
pub fn parse_mode(raw: &str) -> (r: Result<Mode, ModeError>)
    ensures
        ascii_lower_seq(raw@) == "gen"@ ==> r == Ok::<Mode, ModeError>(Mode::Gen),
        ascii_lower_seq(raw@) == "bench"@ ==> r == Ok::<Mode, ModeError>(Mode::Bench),
        ascii_lower_seq(raw@) == "both"@ ==> r == Ok::<Mode, ModeError>(Mode::Both),
        ascii_lower_seq(raw@) != "gen"@ && ascii_lower_seq(raw@) != "bench"@ && ascii_lower_seq(
            raw@,
        ) != "both"@ ==> (r matches Err(e) && e.value@ == ascii_lower_seq(raw@)),
{
    let v = text::chars_of(raw);
    let mut lower: Vec<char> = Vec::new();
    for i in 0..v.len()
        invariant
            v@ == raw@,
            lower@ == ascii_lower_seq(v@.take(i as int)),
    {
        lower.push(to_ascii_lower(v[i]));
        assert(lower@ == ascii_lower_seq(v@.take(i + 1)));
    }
    assert(v@.take(v@.len() as int) == v@);
    let value = text::string_from_chars(lower.as_slice());
    proof {
        reveal_strlit("gen");
        reveal_strlit("bench");
        reveal_strlit("both");
    }
    if value == String::from_str("gen") {
        Ok(Mode::Gen)
    } else if value == String::from_str("bench") {
        Ok(Mode::Bench)
    } else if value == String::from_str("both") {
        Ok(Mode::Both)
    } else {
        Err(ModeError { value })
    }
}

/// Sorts timing samples ascending (`slice::sort_unstable`).
#[verifier::external_body]
fn sort_samples(v: &mut Vec<u128>)
    ensures
        final(v)@.to_multiset() == old(v)@.to_multiset(),
        forall|i: int, j: int| 0 <= i <= j < final(v)@.len() ==> final(v)@[i] <= final(v)@[j],
{
    v.sort_unstable();
}

/// Median and 95th percentile of one benchmarked operation.
#[derive(Clone, Copy, Debug, PartialEq, Eq, Structural)]
pub struct OpSummary {
    pub median_ns: u128,
    pub p95_ns: u128,
}

/// Median of ascending samples: the middle one, or the floor of the mean of
/// the two middle ones.
pub open spec fn median_of(s: Seq<u128>) -> nat {
    let n = s.len() as int;
    if n % 2 == 1 {
        s[n / 2] as nat
    } else {
        ((s[n / 2 - 1] + s[n / 2]) / 2) as nat
    }
}

/// Index of the 95th-percentile sample among `n` ascending ones.
pub open spec fn p95_index(n: nat) -> nat {
    if n * 95 / 100 == 0 {
        0
    } else {
        (n * 95 / 100 - 1) as nat
    }
}

/// Sorts the samples in place and reads median and 95th percentile off the
/// sorted order.
pub fn summarize_samples(samples: &mut Vec<u128>) -> (r: OpSummary)
    requires
        old(samples)@.len() >= 1,
        old(samples)@.len() * 95 <= usize::MAX,
    ensures
        final(samples)@.to_multiset() == old(samples)@.to_multiset(),
        forall|i: int, j: int|
            0 <= i <= j < final(samples)@.len() ==> final(samples)@[i] <= final(samples)@[j],
        r.median_ns == median_of(final(samples)@),
        r.p95_ns == final(samples)@[p95_index(final(samples)@.len()) as int],
{
    sort_samples(samples);
    proof {
        old(samples)@.to_multiset_ensures();
        samples@.to_multiset_ensures();
    }
    let n = samples.len();
    let median = if n % 2 == 1 {
        samples[n / 2]
    } else {
        let a = samples[n / 2 - 1];
        let b = samples[n / 2];
        a / 2 + b / 2 + (a % 2 + b % 2) / 2
    };
    let k = n * 95 / 100;
    let idx = if k == 0 {
        0
    } else {
        k - 1
    };
    OpSummary { median_ns: median, p95_ns: samples[idx] }
}

/// `n` spaces.
pub open spec fn spaces(n: nat) -> Seq<char> {
    Seq::new(n, |i: int| ' ')
}

/// `s` left-aligned in a column of `width` characters.
pub open spec fn pad_end(s: Seq<char>, width: nat) -> Seq<char> {
    if s.len() < width {
        s + spaces((width - s.len()) as nat)
    } else {
        s
    }
}

/// `s` right-aligned in a column of `width` characters.
pub open spec fn pad_start(s: Seq<char>, width: nat) -> Seq<char> {
    if s.len() < width {
        spaces((width - s.len()) as nat) + s
    } else {
        s
    }
}

fn push_spaces(out: &mut String, n: usize)
    ensures
        final(out)@ == old(out)@ + spaces(n as nat),
{
    let mut i: usize = 0;
    while i < n
        invariant
            i <= n,
            out@ == old(out)@ + spaces(i as nat),
        decreases n - i,
    {
        text::push_char(out, ' ');
        assert(spaces((i + 1) as nat) == spaces(i as nat).push(' '));
        i = i + 1;
    }
}

fn char_count(s: &str) -> (n: usize)
    ensures
        n == s@.len(),
{
    let v = text::chars_of(s);
    v.len()
}

fn push_aligned(out: &mut String, s: &str, width: usize, right: bool)
    ensures
        final(out)@ == old(out)@ + if right {
            pad_start(s@, width as nat)
        } else {
            pad_end(s@, width as nat)
        },
{
    let n = char_count(s);
    if right && n < width {
        push_spaces(out, width - n);
    }
    text::push_str(out, s);
    if !right && n < width {
        push_spaces(out, width - n);
    }
}

/// A line of the report table: the operation in a 30-character column,
/// then the median, the 95th percentile and the iteration count
/// right-aligned in columns of 12, 12 and 8.
pub open spec fn table_line(label: Seq<char>, p50: Seq<char>, p95: Seq<char>, iters: Seq<char>) -> Seq<
    char,
> {
    pad_end(label, 30) + pad_start(p50, 12) + pad_start(p95, 12) + pad_start(iters, 8)
}

/// A line of the report table.
pub fn report_line(label: &str, p50: &str, p95: &str, iters: &str) -> (r: String)
    ensures
        r@ == table_line(label@, p50@, p95@, iters@),
{
    let mut out = String::new();
    push_aligned(&mut out, label, 30, false);
    push_aligned(&mut out, p50, 12, true);
    push_aligned(&mut out, p95, 12, true);
    push_aligned(&mut out, iters, 8, true);
    out
}

/// A two-column line of the report: a label in a 30-character column and a
/// value right-aligned in 12.
pub fn labelled_value(label: &str, value: &str) -> (r: String)
    ensures
        r@ == pad_end(label@, 30) + pad_start(value@, 12),
{
    let mut out = String::new();
    push_aligned(&mut out, label, 30, false);
    push_aligned(&mut out, value, 12, true);
    out
}

/// Timings of one benchmarked operation, under its machine-readable key.
pub struct KeyedSummary {
    pub key: &'static str,
    pub summary: OpSummary,
}

/// The microsecond rendering of the summary line.
pub open spec fn us_spec(ns: nat) -> Seq<char> {
    binary64::float_quotient_text(ns, 1_000, 1)
}

/// The fields of the summary line for the given operations.
pub open spec fn op_fields(stats: Seq<KeyedSummary>) -> Seq<char>
    decreases stats.len(),
{
    if stats.len() == 0 {
        seq![]
    } else {
        let last = stats.last();
        op_fields(stats.drop_last()) + (if stats.len() > 1 {
            ","@
        } else {
            seq![]
        }) + "\""@ + last.key@ + "_p50_us\":"@ + us_spec(last.summary.median_ns as nat) + ",\""@
            + last.key@ + "_p95_us\":"@ + us_spec(last.summary.p95_ns as nat)
    }
}

/// The machine-readable tail of the report: each operation's median and
/// 95th percentile in microseconds, the database size, and the SQLite page
/// count and size when known.
pub open spec fn summary_spec(stats: Seq<KeyedSummary>, db_bytes: nat, pages: Option<(u64, u64)>) -> Seq<
    char,
> {
    "SUMMARY {"@ + op_fields(stats) + (if stats.len() > 0 {
        ","@
    } else {
        seq![]
    }) + "\"db_bytes\":"@ + text::decimal(db_bytes) + match pages {
        Some((count, size)) => ",\"page_count\":"@ + text::decimal(count as nat)
            + ",\"page_size\":"@ + text::decimal(size as nat),
        None => seq![],
    } + "}"@
}

/// The machine-readable tail of the report.
pub fn summary_line(stats: &[KeyedSummary], db_bytes: u64, pages: Option<(u64, u64)>) -> (r: String)
    ensures
        r@ == summary_spec(stats@, db_bytes as nat, pages),
{
    let mut out = String::from_str("SUMMARY {");
    let ghost head = out@;
    let mut i: usize = 0;
    while i < stats.len()
        invariant
            i <= stats@.len(),
            head == "SUMMARY {"@,
            out@ == head + op_fields(stats@.take(i as int)),
        decreases stats@.len() - i,
    {
        let ghost before = out@;
        if i > 0 {
            text::push_str(&mut out, ",");
        }
        text::push_str(&mut out, "\"");
        text::push_str(&mut out, stats[i].key);
        text::push_str(&mut out, "_p50_us\":");
        let a = us(stats[i].summary.median_ns);
        text::push_str(&mut out, a.as_str());
        text::push_str(&mut out, ",\"");
        text::push_str(&mut out, stats[i].key);
        text::push_str(&mut out, "_p95_us\":");
        let b = us(stats[i].summary.p95_ns);
        text::push_str(&mut out, b.as_str());
        proof {
            let t = stats@.take(i + 1);
            assert(t.drop_last() == stats@.take(i as int));
            assert(t.last() == stats@[i as int]);
        }
        i = i + 1;
    }
    assert(stats@.take(stats@.len() as int) == stats@);
    if stats.len() > 0 {
        text::push_str(&mut out, ",");
    }
    text::push_str(&mut out, "\"db_bytes\":");
    text::push_decimal(&mut out, db_bytes as u128);
    if let Some((count, size)) = pages {
        text::push_str(&mut out, ",\"page_count\":");
        text::push_decimal(&mut out, count as u128);
        text::push_str(&mut out, ",\"page_size\":");
        text::push_decimal(&mut out, size as u128);
    }
    text::push_str(&mut out, "}");
    out
}

/// Chats asked for per page of the chat list.
pub const CHAT_PAGE: usize = 100;

/// Where a page of the chat list ends; the next page starts after it.
pub struct ChatPageCursor {
    pub pinned_at_ms: Option<i64>,
    pub last_activity_ms: i64,
    pub chat: String,
}

/// Whether cursor `k` stands at the row `c`.
pub open spec fn cursor_at(k: ChatPageCursor, c: ChatSummary) -> bool {
    &&& k.pinned_at_ms == c.pinned_at_ms
    &&& k.last_activity_ms == c.last_activity_ms
    &&& k.chat@ == c.id@
}

/// Whether two cursors stand at the same place.
pub open spec fn same_cursor(a: ChatPageCursor, b: ChatPageCursor) -> bool {
    &&& a.pinned_at_ms == b.pinned_at_ms
    &&& a.last_activity_ms == b.last_activity_ms
    &&& a.chat@ == b.chat@
}

/// The cursor that stands at the row `c`.
pub fn cursor_of(c: &ChatSummary) -> (k: ChatPageCursor)
    ensures
        cursor_at(k, *c),
{
    ChatPageCursor {
        pinned_at_ms: c.pinned_at_ms,
        last_activity_ms: c.last_activity_ms,
        chat: c.id.clone(),
    }
}

impl ChatPageCursor {
    /// A copy of this cursor.
    pub fn duplicate(&self) -> (k: ChatPageCursor)
        ensures
            same_cursor(k, *self),
    {
        ChatPageCursor {
            pinned_at_ms: self.pinned_at_ms,
            last_activity_ms: self.last_activity_ms,
            chat: self.chat.clone(),
        }
    }
}

/// The walk over the chat list that collects the cursor at the tail of each
/// page, to find a page deep in the list.
pub struct CursorWalk {
    pub cursors: Vec<ChatPageCursor>,
    pub done: bool,
}

impl CursorWalk {
    /// A walk that has seen no page yet.
    pub fn new() -> (w: CursorWalk)
        ensures
            w.cursors@.len() == 0,
            !w.done,
    {
        CursorWalk { cursors: Vec::new(), done: false }
    }

    /// Takes the next page of at most `page_size` chats. An empty page ends
    /// the walk; otherwise the cursor at its last row is kept, and the walk
    /// goes on after it while the page was full. Returns where the next page
    /// starts, or `None` once the walk is done.
    pub fn on_page(&mut self, page: &[ChatSummary], page_size: usize) -> (next: Option<
        ChatPageCursor,
    >)
        requires
            !old(self).done,
        ensures
            page@.len() == 0 ==> final(self).cursors@ == old(self).cursors@ && final(self).done
                && next is None,
            page@.len() > 0 ==> {
                &&& final(self).cursors@.len() == old(self).cursors@.len() + 1
                &&& final(self).cursors@.take(old(self).cursors@.len() as int) == old(
                    self,
                ).cursors@
                &&& cursor_at(final(self).cursors@.last(), page@.last())
                &&& final(self).done == (page@.len() < page_size)
                &&& match next {
                    Some(k) => !final(self).done && cursor_at(k, page@.last()),
                    None => final(self).done,
                }
            },
    {
        let n = page.len();
        if n == 0 {
            self.done = true;
            return None;
        }
        let tail = cursor_of(&page[n - 1]);
        let ahead = tail.duplicate();
        let ghost before = self.cursors@;
        self.cursors.push(tail);
        assert(self.cursors@.take(before.len() as int) == before);
        if n < page_size {
            self.done = true;
            None
        } else {
            Some(ahead)
        }
    }

    /// The cursor four fifths of the way down the collected ones, or `None`
    /// when no page was seen.
    pub fn deep_cursor(&self) -> (k: Option<ChatPageCursor>)
        ensures
            match k {
                Some(k) => self.cursors@.len() > 0 && same_cursor(
                    k,
                    self.cursors@[(self.cursors@.len() * 4 / 5) as int],
                ),
                None => self.cursors@.len() == 0,
            },
    {
        let n = self.cursors.len();
        if n == 0 {
            return None;
        }
        let at = n / 5 * 4 + n % 5 * 4 / 5;
        assert(at == n * 4 / 5 && at < n) by (nonlinear_arith)
            requires
                at == n / 5 * 4 + n % 5 * 4 / 5,
                n > 0,
        ;
        Some(self.cursors[at].duplicate())
    }
}

} // verus!
