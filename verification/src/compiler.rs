//! MML compiler: parses MML text and generates VGM events.
//!
//! A single pass over the input lines accumulates chip declarations,
//! envelopes, text macros and per-channel MML; each channel is then
//! compiled into time-stamped events, and the writer replays the merged
//! queue into VGM command bytes.

pub mod channel;
pub mod envelope;
pub mod event;
pub mod note;

use vstd::prelude::*;
use crate::chips::{self, ChipInstance, ChipOptions, MacroCommand};
use crate::error::Error;
use crate::text::{chars_to_string, str_chars};
use crate::vgm::delay;
use crate::vgm::gd3;
use crate::vgm::header;
use crate::vgm::writer::VgmWriter;
use channel::{calc_note_length, Channel};
use envelope::{create_macro_env_storage, MacroEnvStorage, MacroEnvelope, MacroType};
use event::{Event, EventData, EventQueue};
use note::NoteTable;

verus! {

/// GD3 text field index: track name (English).
pub const GD3_TITLE_EN: usize = 0;

/// GD3 text field index: track name (Japanese).
pub const GD3_TITLE_JP: usize = 1;

/// GD3 text field index: game name (English).
pub const GD3_GAME_EN: usize = 2;

/// GD3 text field index: game name (Japanese).
pub const GD3_GAME_JP: usize = 3;

/// GD3 text field index: system name (English).
pub const GD3_SYSTEM_EN: usize = 4;

/// GD3 text field index: system name (Japanese).
pub const GD3_SYSTEM_JP: usize = 5;

/// GD3 text field index: track author (English).
pub const GD3_COMPOSER_EN: usize = 6;

/// GD3 text field index: track author (Japanese).
pub const GD3_COMPOSER_JP: usize = 7;

/// GD3 text field index: release date.
pub const GD3_DATE: usize = 8;

/// GD3 text field index: VGM converter.
pub const GD3_CONVERTER: usize = 9;

/// GD3 text field index: notes.
pub const GD3_NOTES: usize = 10;

/// Number of GD3 text fields.
pub const GD3_COUNT: usize = 11;

/// Number of channel letters: `A`-`Z` and `a`-`z`.
pub const MAX_CHANNELS: usize = 52;

/// Default samples per envelope tick: 44100 / 60.
pub const DEFAULT_FRAMERATE: i32 = 735;

/// The eleven GD3 metadata texts, in the order the block stores them.
#[derive(Debug)]
pub struct Gd3Metadata {
    pub title_en: String,
    pub title_jp: String,
    pub game_en: String,
    pub game_jp: String,
    pub system_en: String,
    pub system_jp: String,
    pub composer_en: String,
    pub composer_jp: String,
    pub date: String,
    pub converter: String,
    pub notes: String,
}

impl Default for Gd3Metadata {
    /// All fields empty.
    fn default() -> (r: Gd3Metadata)
        ensures
            r.title_en@.len() == 0,
            r.title_jp@.len() == 0,
            r.game_en@.len() == 0,
            r.game_jp@.len() == 0,
            r.system_en@.len() == 0,
            r.system_jp@.len() == 0,
            r.composer_en@.len() == 0,
            r.composer_jp@.len() == 0,
            r.date@.len() == 0,
            r.converter@.len() == 0,
            r.notes@.len() == 0,
    {
        Gd3Metadata {
            title_en: String::new(),
            title_jp: String::new(),
            game_en: String::new(),
            game_jp: String::new(),
            system_en: String::new(),
            system_jp: String::new(),
            composer_en: String::new(),
            composer_jp: String::new(),
            date: String::new(),
            converter: String::new(),
            notes: String::new(),
        }
    }
}

/// What a fed line asks of the caller.
#[derive(Debug, Clone)]
pub enum LineAction {
    /// The line was consumed; feed the next one.
    Continue,
    /// An end-of-file directive: stop feeding lines.
    Eof,
    /// An include directive: feed the named file's lines, then resume.
    Include(String),
}

/// The channel slot a letter denotes: `A`-`Z` map to 0-25 and `a`-`z`
/// to 26-51; other characters denote no channel.
pub open spec fn spec_channel_index(c: char) -> Option<int> {
    if 'A' <= c && c <= 'Z' {
        Some(c as int - 'A' as int)
    } else if 'a' <= c && c <= 'z' {
        Some(c as int - 'a' as int + 26)
    } else {
        None
    }
}

/// Convert a channel character to its slot.
pub fn channel_index(ch: char) -> (r: Result<usize, Error>)
    ensures
        match spec_channel_index(ch) {
            Some(i) => r is Ok && r->Ok_0 == i && i < 52,
            None => r == Err::<usize, Error>(Error::InvalidChannel(ch)),
        },
{
    if 'A' <= ch && ch <= 'Z' {
        Ok((ch as usize) - ('A' as usize))
    } else if 'a' <= ch && ch <= 'z' {
        Ok((ch as usize) - ('a' as usize) + 26)
    } else {
        Err(Error::InvalidChannel(ch))
    }
}

/// Convert a channel slot back to its letter.
pub fn index_to_channel(idx: usize) -> (r: Option<char>)
    ensures
        idx < 52 ==> r is Some && spec_channel_index(r->0) == Some(idx as int),
        idx >= 52 ==> r is None,
{
    if idx < 26 {
        let c = (('A' as u8) + (idx as u8)) as char;
        Some(c)
    } else if idx < 52 {
        let c = (('a' as u8) + ((idx - 26) as u8)) as char;
        Some(c)
    } else {
        None
    }
}

/// The numeric value and end position of the literal at `pos`: an
/// optional `,` separator, then any mix of `$` (hex) and sign marks,
/// then digits in the chosen base.
pub open spec fn spec_read_num(s: Seq<char>, pos: int) -> (int, int) {
    let p1 = if pos < s.len() && s[pos] == ',' {
        pos + 1
    } else {
        pos
    };
    let (base, sign, p2) = spec_read_prefix(s, p1, 10, 1);
    let (value, p3) = spec_read_digits(s, p2, base, 0);
    (wrap_i64(sign * value), p3)
}

/// Consume `$`, `+` and `-` marks, tracking the base and sign.
pub open spec fn spec_read_prefix(s: Seq<char>, pos: int, base: int, sign: int) -> (int, int, int)
    decreases s.len() - pos when 0 <= pos <= s.len()
{
    if pos < s.len() && s[pos] == '$' {
        spec_read_prefix(s, pos + 1, 16, sign)
    } else if pos < s.len() && s[pos] == '+' {
        spec_read_prefix(s, pos + 1, base, 1)
    } else if pos < s.len() && s[pos] == '-' {
        spec_read_prefix(s, pos + 1, base, -1)
    } else {
        (base, sign, pos)
    }
}

/// The value of one digit in the given base, if the character is one.
pub open spec fn spec_digit(c: char, base: int) -> Option<int> {
    if '0' <= c && c <= '9' {
        Some(c as int - '0' as int)
    } else if base == 16 && 'A' <= c && c <= 'F' {
        Some(c as int - 'A' as int + 10)
    } else if base == 16 && 'a' <= c && c <= 'f' {
        Some(c as int - 'a' as int + 10)
    } else {
        None
    }
}

/// Accumulate digits left to right, wrapping as 64-bit arithmetic does.
pub open spec fn spec_read_digits(s: Seq<char>, pos: int, base: int, acc: int) -> (int, int)
    decreases s.len() - pos when 0 <= pos <= s.len()
{
    if pos < s.len() {
        match spec_digit(s[pos], base) {
            Some(d) => spec_read_digits(s, pos + 1, base, wrap_i64(acc * base + d)),
            None => (acc, pos),
        }
    } else {
        (acc, pos)
    }
}

/// The 64-bit two's-complement wrap of a value.
pub open spec fn wrap_i64(v: int) -> int {
    let m = v % 0x10000000000000000;
    if m >= 0x8000000000000000 {
        m - 0x10000000000000000
    } else {
        m
    }
}

/// Read a number from the characters, advancing the position.
/// Decimal by default, hex after `$`, with optional signs and an
/// accepted `,` separator before the number.
pub fn read_num(s: &Vec<char>, pos: &mut usize) -> (r: i64)
    requires
        *old(pos) <= s@.len(),
    ensures
        *final(pos) <= s@.len(),
        *final(pos) >= *old(pos),
        r == spec_read_num(s@, *old(pos) as int).0,
        *final(pos) == spec_read_num(s@, *old(pos) as int).1,
{
    let ghost start = *pos as int;

    // Skip one comma separator.
    if *pos < s.len() && s[*pos] == ',' {
        *pos = *pos + 1;
    }
    let ghost p1 = *pos as int;

    // Prefix marks choose the base and sign.
    let mut base: i64 = 10;
    let mut sign: i64 = 1;
    while *pos < s.len() && (s[*pos] == '$' || s[*pos] == '+' || s[*pos] == '-')
        invariant
            *pos <= s@.len(),
            p1 <= *pos,
            base == 10 || base == 16,
            sign == 1 || sign == -1,
            spec_read_prefix(s@, p1, 10, 1) == spec_read_prefix(
                s@,
                *pos as int,
                base as int,
                sign as int,
            ),
        decreases s@.len() - *pos,
    {
        if s[*pos] == '$' {
            base = 16;
        } else if s[*pos] == '+' {
            sign = 1;
        } else {
            sign = -1;
        }
        *pos = *pos + 1;
    }
    let ghost p2 = *pos as int;

    // Digits accumulate with wrapping 64-bit arithmetic.
    let mut value: i64 = 0;
    loop
        invariant_except_break
            *pos <= s@.len(),
            p2 <= *pos,
            base == 10 || base == 16,
            spec_read_digits(s@, p2, base as int, 0) == spec_read_digits(
                s@,
                *pos as int,
                base as int,
                value as int,
            ),
        ensures
            *pos <= s@.len(),
            p2 <= *pos,
            (value as int, *pos as int) == spec_read_digits(s@, p2, base as int, 0),
        decreases s@.len() - *pos,
    {
        if *pos >= s.len() {
            break;
        }
        let c = s[*pos];
        let d: i64 = if '0' <= c && c <= '9' {
            (c as u32 as i64) - ('0' as u32 as i64)
        } else if base == 16 && 'A' <= c && c <= 'F' {
            (c as u32 as i64) - ('A' as u32 as i64) + 10
        } else if base == 16 && 'a' <= c && c <= 'f' {
            (c as u32 as i64) - ('a' as u32 as i64) + 10
        } else {
            break;
        };
        proof {
            assert(spec_digit(s@[*pos as int], base as int) == Some(d as int));
        }
        value = wrapping_mul_add(value, base, d);
        *pos = *pos + 1;
    }

    proof {
        assert(spec_read_prefix(s@, p1, 10, 1).2 == p2);
        assert(spec_read_prefix(s@, p1, 10, 1).0 == base as int);
        assert(spec_read_prefix(s@, p1, 10, 1).1 == sign as int);
    }
    if sign < 0 {
        let r = wrapping_neg_i64(value);
        r
    } else {
        proof {
            lemma_wrap_identity(value as int);
        }
        value
    }
}

/// The 64-bit wrap of `a * base + d` for a small base and digit.
fn wrapping_mul_add(a: i64, base: i64, d: i64) -> (r: i64)
    requires
        base == 10 || base == 16,
        0 <= d < 16,
    ensures
        r == wrap_i64(a * base + d),
{
    proof {
        assert(-0x80000000000000000 <= (a as int) * (base as int)
            <= 0x80000000000000000) by (nonlinear_arith)
            requires -0x8000000000000000 <= a <= 0x7FFFFFFFFFFFFFFF && (base == 10 || base == 16);
    }
    let wide: i128 = (a as i128) * (base as i128) + (d as i128);
    wrap_from_i128(wide)
}

/// The 64-bit wrap of a negation.
fn wrapping_neg_i64(a: i64) -> (r: i64)
    ensures
        r == wrap_i64(-(a as int)),
{
    let wide: i128 = -(a as i128);
    wrap_from_i128(wide)
}

/// The 64-bit two's-complement wrap of a 128-bit value.
fn wrap_from_i128(wide: i128) -> (r: i64)
    requires
        -0x40000000000000000000000000000000 < wide < 0x40000000000000000000000000000000,
    ensures
        r == wrap_i64(wide as int),
{
    // Work in the nonnegative domain so remainders are Euclidean.
    let big: i128 = 0x10000000000000000;
    let shifted: i128 = if wide < 0 {
        // Adding a multiple of the modulus keeps the wrap unchanged.
        wide + 0x40000000000000000000000000000000
    } else {
        wide
    };
    proof {
        if wide < 0 {
            vstd::arithmetic::div_mod::lemma_mod_multiples_vanish(
                0x4000000000000000,
                wide as int,
                0x10000000000000000,
            );
        }
    }
    let m: i128 = shifted % big;
    proof {
        assert(0 <= m < 0x10000000000000000);
        assert(m == (wide as int) % 0x10000000000000000);
    }
    if m >= 0x8000000000000000 {
        (m - 0x10000000000000000) as i64
    } else {
        m as i64
    }
}

/// A value already in 64-bit range is its own wrap.
proof fn lemma_wrap_identity(v: int)
    requires
        -0x8000000000000000 <= v < 0x8000000000000000,
    ensures
        wrap_i64(v) == v,
{
    if v >= 0 {
        assert(v % 0x10000000000000000 == v);
    } else {
        assert(v % 0x10000000000000000 == v + 0x10000000000000000);
    }
}

/// Saturating nonnegative addition on sample times.
pub fn sat_add(a: i64, b: i64) -> (r: i64)
    requires
        a >= 0,
        b >= 0,
    ensures
        r >= a,
        r >= b,
        r >= 0,
        a + b <= i64::MAX ==> r == a + b,
        a + b > i64::MAX ==> r == i64::MAX,
        a < i64::MAX && b > 0 ==> r > a,
{
    if a <= i64::MAX - b {
        a + b
    } else {
        i64::MAX
    }
}

/// Saturating addition on 64-bit values.
pub fn add_sat_any(a: i64, b: i64) -> (r: i64)
    ensures
        -0x8000000000000000 <= a + b <= 0x7FFFFFFFFFFFFFFF ==> r == a + b,
{
    let wide: i128 = (a as i128) + (b as i128);
    if wide > 0x7FFFFFFFFFFFFFFF {
        i64::MAX
    } else if wide < -0x8000000000000000 {
        i64::MIN
    } else {
        wide as i64
    }
}

/// Saturating subtraction on 64-bit values.
pub fn sub_sat(a: i64, b: i64) -> (r: i64)
    ensures
        -0x8000000000000000 <= a - b <= 0x7FFFFFFFFFFFFFFF ==> r == a - b,
{
    let wide: i128 = (a as i128) - (b as i128);
    if wide > 0x7FFFFFFFFFFFFFFF {
        i64::MAX
    } else if wide < -0x8000000000000000 {
        i64::MIN
    } else {
        wide as i64
    }
}

/// Do all events in the sequence lie at or before `b`?
pub open spec fn events_le(q: Seq<Event>, b: int) -> bool {
    forall|i: int| 0 <= i < q.len() ==> (#[trigger] q[i]).time <= b
}

/// Are all events in the sequence at nonnegative times?
pub open spec fn events_nonneg(q: Seq<Event>) -> bool {
    forall|i: int| 0 <= i < q.len() ==> (#[trigger] q[i]).time >= 0
}

/// Main compiler state.
pub struct Compiler {
    /// Channel definitions by slot.
    pub channels: Vec<Option<Channel>>,
    /// Enabled chip instances, in declaration order.
    pub chips: Vec<ChipInstance>,
    /// The event queue.
    pub events: EventQueue,
    /// GD3 metadata texts by field index.
    pub gd3_text: Vec<Vec<char>>,
    /// Total samples over all channels.
    pub total_samples: i64,
    /// Loop point in samples.
    pub loop_point: i64,
    /// Whether a loop point was marked.
    pub loop_on: bool,
    /// Samples per envelope tick.
    pub framerate: i32,
    /// Base pitch in Hz, in 16 fractional bits.
    pub base_freq: u64,
    /// Note ratios for the current scale, in 32 fractional bits.
    pub note_freq: Vec<u64>,
    /// Scale-letter to semitone-offset mapping for `a`-`j`.
    pub note_letter: Vec<i32>,
    /// The note table computed for the current chip.
    pub note_table: NoteTable,
    /// Notes per octave.
    pub octave_count: i32,
    /// Volume modifier for the header.
    pub volume_mod: i16,
    /// Loop base for the header.
    pub loop_base: i8,
    /// Loop modifier for the header.
    pub loop_mod: u8,
    /// Recording rate for the header.
    pub recording_rate: i32,
    /// Text macros, keyed by a single byte.
    pub text_macros: Vec<Vec<char>>,
    /// Macro envelopes.
    pub macro_env: MacroEnvStorage,
    /// Active envelope id per macro kind (-1 for none).
    pub macro_use: Vec<i32>,
    /// Fast-forward amount in samples.
    pub fast_forward: i64,
    /// Portamento parameters.
    pub portamento: Vec<i64>,
    /// Note-off event mode.
    pub note_off_event: i32,
    /// Active sample list id (-1 for none).
    pub sample_list: i32,
    /// Envelope parser: current kind (-1 for none).
    pub env_mac: i32,
    /// Envelope parser: current id.
    pub env_id: usize,
    /// Envelope parser: block nesting depth.
    pub env_block: usize,
    /// Envelope parser: repeat count for number tokens.
    pub env_rep: i32,
    /// Envelope parser: saved repeat counts per block.
    pub env_brep: Vec<i32>,
    /// Envelope parser: saved data positions per block.
    pub env_bst: Vec<i32>,
}

impl Compiler {
    /// Well-formed compiler state: tables at their fixed sizes, bounded
    /// parser state, well-formed chips, envelopes and queue, and every
    /// queued event at a nonnegative time.
    pub open spec fn wf(&self) -> bool {
        &&& self.channels@.len() == MAX_CHANNELS
        &&& self.chips@.len() <= MAX_CHANNELS
        &&& (forall|i: int| 0 <= i < self.chips@.len() ==> (#[trigger] self.chips@[i]).chip.wf())
        &&& (forall|i: int| 0 <= i < MAX_CHANNELS ==> ((#[trigger] self.channels@[i]) is Some
            ==> self.channels@[i]->0.chip_idx < self.chips@.len()))
        &&& self.events.wf()
        &&& events_nonneg(self.events@)
        &&& self.gd3_text@.len() == GD3_COUNT
        &&& self.framerate >= 1
        &&& self.note_freq@.len() == 32
        &&& (forall|i: int| 0 <= i < 32 ==> (#[trigger] self.note_freq@[i]) < note::FREQ_LIMIT)
        &&& self.base_freq < note::FREQ_LIMIT
        &&& self.note_letter@.len() == 10
        &&& self.note_table.wf()
        &&& 1 <= self.octave_count <= 32
        &&& self.text_macros@.len() == 128
        &&& self.macro_env.wf()
        &&& self.macro_use@.len() == 13
        &&& self.portamento@.len() == 8
        &&& self.env_mac < 13
        &&& self.env_id < 256
        &&& self.env_block <= 32
        &&& self.env_brep@.len() == 32
        &&& self.env_bst@.len() == 32
        &&& self.total_samples >= 0
        &&& self.loop_point >= 0
        &&& self.fast_forward >= 0
    }

    /// The total sample count is exactly the highest queued event
    /// time: every queued event lies at or before it, it is zero while
    /// the queue is empty, and otherwise some queued event sits at it.
    pub open spec fn events_bounded(&self) -> bool {
        &&& events_le(self.events@, self.total_samples as int)
        &&& (self.events@.len() == 0 ==> self.total_samples == 0)
        &&& (self.events@.len() > 0 ==> exists|i: int|
            0 <= i < self.events@.len() && (#[trigger] self.events@[i]).time
                == self.total_samples)
    }

    /// The GD3 string region the accumulated texts produce, in the
    /// block's fixed field order.
    pub open spec fn spec_gd3_strings(&self) -> Seq<u8> {
        gd3::utf16_str(self.gd3_text@[GD3_TITLE_EN as int]@) + gd3::utf16_str(
            self.gd3_text@[GD3_TITLE_JP as int]@,
        ) + gd3::utf16_str(self.gd3_text@[GD3_GAME_EN as int]@) + gd3::utf16_str(
            self.gd3_text@[GD3_GAME_JP as int]@,
        ) + gd3::utf16_str(self.gd3_text@[GD3_SYSTEM_EN as int]@) + gd3::utf16_str(
            self.gd3_text@[GD3_SYSTEM_JP as int]@,
        ) + gd3::utf16_str(self.gd3_text@[GD3_COMPOSER_EN as int]@) + gd3::utf16_str(
            self.gd3_text@[GD3_COMPOSER_JP as int]@,
        ) + gd3::utf16_str(self.gd3_text@[GD3_DATE as int]@) + gd3::utf16_str(
            self.gd3_text@[GD3_CONVERTER as int]@,
        ) + gd3::utf16_str(self.gd3_text@[GD3_NOTES as int]@)
    }

    /// The whole GD3 block those texts produce.
    pub open spec fn spec_gd3_bytes(&self) -> Seq<u8> {
        gd3::gd3_magic() + gd3::le32_bytes(gd3::GD3_VERSION as int) + gd3::le32_bytes(
            self.spec_gd3_strings().len() as int,
        ) + self.spec_gd3_strings()
    }

    /// A fresh compiler: twelve-tone equal temperament, the default base
    /// pitch, sixty envelope ticks per second, and nothing declared.
    pub fn new() -> (r: Compiler)
        ensures
            r.wf(),
            r.events_bounded(),
            r.total_samples == 0,
            !r.loop_on,
            r.framerate == DEFAULT_FRAMERATE,
            r.octave_count == 12,
            forall|i: int| 0 <= i < MAX_CHANNELS ==> (#[trigger] r.channels@[i]) is None,
    {
        let mut channels: Vec<Option<Channel>> = Vec::new();
        let mut i: usize = 0;
        while i < MAX_CHANNELS
            invariant
                i <= MAX_CHANNELS,
                channels@.len() == i,
                forall|j: int| 0 <= j < i ==> (#[trigger] channels@[j]) is None,
            decreases MAX_CHANNELS - i,
        {
            channels.push(None);
            i = i + 1;
        }

        let mut gd3_text: Vec<Vec<char>> = Vec::new();
        let mut g: usize = 0;
        while g < GD3_COUNT
            invariant
                g <= GD3_COUNT,
                gd3_text@.len() == g,
            decreases GD3_COUNT - g,
        {
            gd3_text.push(Vec::new());
            g = g + 1;
        }

        // Twelve-tone equal temperament ratios in 32 fractional bits,
        // entries past the octave pinned just below two.
        let mut note_freq: Vec<u64> = Vec::new();
        note_freq.push(0x100000000);
        note_freq.push(0x10F38F92C);
        note_freq.push(0x11F59AC3C);
        note_freq.push(0x1306FE0A3);
        note_freq.push(0x142D30ABB);
        note_freq.push(0x1569E12F3);
        note_freq.push(0x16A09E667);
        note_freq.push(0x17F910D88);
        note_freq.push(0x1965FEA53);
        note_freq.push(0x1AE89F995);
        note_freq.push(0x1C823E078);
        note_freq.push(0x1E3437E71);
        let mut k: usize = 12;
        while k < 32
            invariant
                12 <= k <= 32,
                note_freq@.len() == k,
                forall|j: int| 0 <= j < k ==> (#[trigger] note_freq@[j]) < note::FREQ_LIMIT,
            decreases 32 - k,
        {
            note_freq.push(0x1FFFF5810);
            k = k + 1;
        }

        // Base pitch: 3520 Hz raised three semitones, in 16 fractional
        // bits.
        let base_freq: u64 = 0x105A0925;

        let mut note_letter: Vec<i32> = Vec::new();
        note_letter.push(9);
        note_letter.push(11);
        note_letter.push(0);
        note_letter.push(2);
        note_letter.push(4);
        note_letter.push(5);
        note_letter.push(7);
        note_letter.push(0);
        note_letter.push(0);
        note_letter.push(0);

        let mut text_macros: Vec<Vec<char>> = Vec::new();
        let mut t: usize = 0;
        while t < 128
            invariant
                t <= 128,
                text_macros@.len() == t,
            decreases 128 - t,
        {
            text_macros.push(Vec::new());
            t = t + 1;
        }

        let mut macro_use: Vec<i32> = Vec::new();
        let mut m: usize = 0;
        while m < 13
            invariant
                m <= 13,
                macro_use@.len() == m,
            decreases 13 - m,
        {
            macro_use.push(-1);
            m = m + 1;
        }

        let mut portamento: Vec<i64> = Vec::new();
        let mut p: usize = 0;
        while p < 8
            invariant
                p <= 8,
                portamento@.len() == p,
            decreases 8 - p,
        {
            portamento.push(0);
            p = p + 1;
        }

        let mut env_brep: Vec<i32> = Vec::new();
        let mut env_bst: Vec<i32> = Vec::new();
        let mut b: usize = 0;
        while b < 32
            invariant
                b <= 32,
                env_brep@.len() == b,
                env_bst@.len() == b,
            decreases 32 - b,
        {
            env_brep.push(0);
            env_bst.push(0);
            b = b + 1;
        }

        Compiler {
            channels,
            chips: Vec::new(),
            events: EventQueue::new(),
            gd3_text,
            total_samples: 0,
            loop_point: 0,
            loop_on: false,
            framerate: DEFAULT_FRAMERATE,
            base_freq,
            note_freq,
            note_letter,
            note_table: NoteTable::new(),
            octave_count: 12,
            volume_mod: 0,
            loop_base: 0,
            loop_mod: 0,
            recording_rate: 0,
            text_macros,
            macro_env: create_macro_env_storage(),
            macro_use,
            fast_forward: 0,
            portamento,
            note_off_event: 0,
            sample_list: -1,
            env_mac: -1,
            env_id: 0,
            env_block: 0,
            env_rep: 1,
            env_brep,
            env_bst,
        }
    }

    /// Append text to a GD3 field, separating entries with a newline.
    fn add_gd3(&mut self, field: usize, text: &Vec<char>)
        requires
            old(self).wf(),
        ensures
            final(self).wf(),
            field < GD3_COUNT ==> final(self).gd3_text@[field as int]@ == (if old(
                self,
            ).gd3_text@[field as int]@.len() > 0 {
                old(self).gd3_text@[field as int]@ + seq!['\n'] + text@
            } else {
                text@
            }),
            final(self).events == old(self).events,
            final(self).total_samples == old(self).total_samples,
            final(self).chips == old(self).chips,
            final(self).channels == old(self).channels,
    {
        if field < GD3_COUNT {
            let cur_len = self.gd3_text[field].len();
            let mut newv: Vec<char> = Vec::new();
            let mut i: usize = 0;
            while i < cur_len
                invariant
                    self.wf(),
                    field < GD3_COUNT,
                    cur_len == self.gd3_text@[field as int]@.len(),
                    i <= cur_len,
                    newv@ == self.gd3_text@[field as int]@.take(i as int),
                decreases cur_len - i,
            {
                newv.push(self.gd3_text[field][i]);
                proof {
                    assert(self.gd3_text@[field as int]@.take(i + 1) =~= self.gd3_text@[
                        field as int
                    ]@.take(i as int).push(self.gd3_text@[field as int]@[i as int]));
                }
                i = i + 1;
            }
            proof {
                assert(self.gd3_text@[field as int]@.take(cur_len as int) =~= self.gd3_text@[
                    field as int
                ]@);
            }
            if cur_len > 0 {
                newv.push('\n');
            }
            let mut j: usize = 0;
            while j < text.len()
                invariant
                    j <= text@.len(),
                    newv@ == (if cur_len > 0 {
                        old(self).gd3_text@[field as int]@ + seq!['\n'] + text@.take(j as int)
                    } else {
                        text@.take(j as int)
                    }),
                    cur_len == old(self).gd3_text@[field as int]@.len(),
                decreases text@.len() - j,
            {
                newv.push(text[j]);
                proof {
                    assert(text@.take(j + 1) =~= text@.take(j as int).push(text@[j as int]));
                    if cur_len > 0 {
                        assert(old(self).gd3_text@[field as int]@ + seq!['\n'] + text@.take(j + 1)
                            =~= (old(self).gd3_text@[field as int]@ + seq!['\n'] + text@.take(
                            j as int,
                        )).push(text@[j as int]));
                    }
                }
                j = j + 1;
            }
            proof {
                assert(text@.take(text@.len() as int) =~= text@);
            }
            self.gd3_text.set(field, newv);
        }
    }

    /// Process one line of MML input.  The first character routes it: a
    /// quote appends notes text, `#` runs a directive, `*` defines a
    /// text macro, envelope characters extend the open envelope, and
    /// letters append channel data.
    pub fn feed_line(&mut self, line: &str) -> (r: Result<LineAction, Error>)
        requires
            old(self).wf(),
        ensures
            final(self).wf(),
            final(self).events == old(self).events,
            final(self).total_samples == old(self).total_samples,
    {
        let cs = str_chars(line);
        self.feed_line_chars(&cs)
    }

    /// Process one line, given as characters.
    pub fn feed_line_chars(&mut self, line: &Vec<char>) -> (r: Result<LineAction, Error>)
        requires
            old(self).wf(),
        ensures
            final(self).wf(),
            final(self).events == old(self).events,
            final(self).total_samples == old(self).total_samples,
    {
        // Trim a byte-order mark and whitespace at both ends.
        let mut start: usize = 0;
        let mut end: usize = line.len();
        while start < end && (line[start] == ' ' || line[start] == '\t' || line[start]
            == '\u{FEFF}' || line[start] == '\r')
            invariant
                start <= end <= line@.len(),
            decreases end - start,
        {
            start = start + 1;
        }
        while end > start && (line[end - 1] <= ' ')
            invariant
                start <= end <= line@.len(),
            decreases end,
        {
            end = end - 1;
        }
        if start >= end {
            return Ok(LineAction::Continue);
        }
        let mut trimmed: Vec<char> = Vec::new();
        let mut i: usize = start;
        while i < end
            invariant
                start <= i <= end <= line@.len(),
                trimmed@.len() == i - start,
            decreases end - i,
        {
            trimmed.push(line[i]);
            i = i + 1;
        }

        let first = trimmed[0];
        if first == '"' {
            let rest = tail_from(&trimmed, 1);
            self.add_gd3(GD3_NOTES, &rest);
            Ok(LineAction::Continue)
        } else if first == '#' {
            if trimmed.len() == 4 && trimmed[1] == 'E' && trimmed[2] == 'O' && trimmed[3] == 'F' {
                return Ok(LineAction::Eof);
            }
            let rest = tail_from(&trimmed, 1);
            self.parse_global_command(&rest)
        } else if first == '*' {
            if trimmed.len() >= 2 {
                let id = trimmed[1] as u32;
                if id < 128 {
                    let body = tail_from(&trimmed, 2);
                    self.text_macros.set(id as usize, body);
                }
            }
            Ok(LineAction::Continue)
        } else if first == '@' || first == '-' || first == '+' || first == '$' || first == '['
            || first == ']' || is_tuplet_open(first) || first == ',' || first == '|' || ('0'
            <= first && first <= '9') {
            self.parse_envelope(&trimmed);
            Ok(LineAction::Continue)
        } else if ('A' <= first && first <= 'Z') || ('a' <= first && first <= 'z') {
            self.parse_channel_line(&trimmed)
        } else {
            Ok(LineAction::Continue)
        }
    }

    /// The first position at or after `i` holding a space or tab.
    pub open spec fn spec_ws_split(s: Seq<char>, i: int) -> int
        decreases s.len() - i,
        when 0 <= i <= s.len()
    {
        if i >= s.len() {
            i
        } else if s[i] == ' ' || s[i] == '\t' {
            i
        } else {
            Self::spec_ws_split(s, i + 1)
        }
    }

    /// The first position at or after `i` past any spaces and tabs.
    pub open spec fn spec_ws_skip(s: Seq<char>, i: int) -> int
        decreases s.len() - i,
        when 0 <= i <= s.len()
    {
        if i >= s.len() {
            i
        } else if s[i] == ' ' || s[i] == '\t' {
            Self::spec_ws_skip(s, i + 1)
        } else {
            i
        }
    }

    /// A scan that passed no whitespace up to `e` computes the split.
    proof fn lemma_ws_split(s: Seq<char>, i: int, e: int)
        requires
            0 <= i <= e <= s.len(),
            forall|t: int| i <= t < e ==> !((#[trigger] s[t]) == ' ' || s[t] == '\t'),
            e == s.len() || s[e] == ' ' || s[e] == '\t',
        ensures
            Self::spec_ws_split(s, i) == e,
        decreases e - i,
    {
        if i < e {
            Self::lemma_ws_split(s, i + 1, e);
        }
    }

    /// A scan that passed only whitespace up to `e` computes the skip.
    proof fn lemma_ws_skip(s: Seq<char>, i: int, e: int)
        requires
            0 <= i <= e <= s.len(),
            forall|t: int| i <= t < e ==> ((#[trigger] s[t]) == ' ' || s[t] == '\t'),
            e == s.len() || !(s[e] == ' ' || s[e] == '\t'),
        ensures
            Self::spec_ws_skip(s, i) == e,
        decreases e - i,
    {
        if i < e {
            Self::lemma_ws_skip(s, i + 1, e);
        }
    }

    /// Run a `#` directive (the leading `#` already removed).
    fn parse_global_command(&mut self, cmd: &Vec<char>) -> (r: Result<LineAction, Error>)
        requires
            old(self).wf(),
        ensures
            final(self).wf(),
            final(self).events == old(self).events,
            final(self).total_samples == old(self).total_samples,
            ({
                let nm = cmd@.take(Self::spec_ws_split(cmd@, 0));
                let pm = cmd@.skip(Self::spec_ws_skip(cmd@, Self::spec_ws_split(cmd@, 0)));
                let v = spec_read_num(pm, 0).0;
                &&& (nm == "VOLUME"@ ==> final(self).volume_mod == (if -32768 <= v && v <= 32767 {
                    v as i16
                } else {
                    old(self).volume_mod
                }))
                &&& (nm == "LOOP-BASE"@ ==> final(self).loop_base == (if -128 <= v && v <= 127 {
                    v as i8
                } else {
                    old(self).loop_base
                }))
                &&& (nm == "LOOP-MODIFIER"@ ==> final(self).loop_mod == (if 0 <= v && v <= 255 {
                    v as u8
                } else {
                    old(self).loop_mod
                }))
                &&& (nm == "TITLE-E"@ ==> final(self).gd3_text@[GD3_TITLE_EN as int]@ == (if old(
                    self,
                ).gd3_text@[GD3_TITLE_EN as int]@.len() > 0 {
                    old(self).gd3_text@[GD3_TITLE_EN as int]@ + seq!['\n'] + pm
                } else {
                    pm
                }))
            }),
    {
        // Split at the first whitespace into the name and the parameter.
        let mut i: usize = 0;
        while i < cmd.len() && !(cmd[i] == ' ' || cmd[i] == '\t')
            invariant
                i <= cmd@.len(),
                forall|t: int| 0 <= t < i ==> !((#[trigger] cmd@[t]) == ' ' || cmd@[t] == '\t'),
            decreases cmd@.len() - i,
        {
            i = i + 1;
        }
        let split = i;
        proof {
            Self::lemma_ws_split(cmd@, 0, split as int);
        }
        let name = head_to(cmd, split);
        let mut pstart = split;
        while pstart < cmd.len() && (cmd[pstart] == ' ' || cmd[pstart] == '\t')
            invariant
                split <= pstart <= cmd@.len(),
                split as int == Self::spec_ws_split(cmd@, 0),
                name@ == cmd@.take(split as int),
                forall|t: int| split <= t < pstart ==> ((#[trigger] cmd@[t]) == ' '
                    || cmd@[t] == '\t'),
            decreases cmd@.len() - pstart,
        {
            pstart = pstart + 1;
        }
        proof {
            Self::lemma_ws_skip(cmd@, split as int, pstart as int);
        }
        let param = tail_from(cmd, pstart);

        proof {
            reveal_strlit("TITLE");
            reveal_strlit("TITLE-E");
            reveal_strlit("TITLE-J");
            reveal_strlit("GAME");
            reveal_strlit("GAME-E");
            reveal_strlit("GAME-J");
            reveal_strlit("SYSTEM");
            reveal_strlit("SYSTEM-E");
            reveal_strlit("SYSTEM-J");
            reveal_strlit("COMPOSER");
            reveal_strlit("COMPOSER-E");
            reveal_strlit("COMPOSER-J");
            reveal_strlit("PROGRAMER");
            reveal_strlit("PROGRAMMER");
            reveal_strlit("DATE");
            reveal_strlit("NOTES");
            reveal_strlit("RATE");
            reveal_strlit("VOLUME");
            reveal_strlit("LOOP-BASE");
            reveal_strlit("LOOP-MODIFIER");
            reveal_strlit("SCALE");
            reveal_strlit("EQUAL-TEMPERAMENT");
            reveal_strlit("JUST-INTONATION");
            reveal_strlit("PITCH-CHANGE");
            reveal_strlit("INCLUDE");
        }

        if chips::chars_match(&name, "TITLE") {
            self.add_gd3(GD3_TITLE_EN, &param);
            self.add_gd3(GD3_TITLE_JP, &param);
        } else if chips::chars_match(&name, "TITLE-E") {
            self.add_gd3(GD3_TITLE_EN, &param);
        } else if chips::chars_match(&name, "TITLE-J") {
            self.add_gd3(GD3_TITLE_JP, &param);
        } else if chips::chars_match(&name, "GAME") {
            self.add_gd3(GD3_GAME_EN, &param);
            self.add_gd3(GD3_GAME_JP, &param);
        } else if chips::chars_match(&name, "GAME-E") {
            self.add_gd3(GD3_GAME_EN, &param);
        } else if chips::chars_match(&name, "GAME-J") {
            self.add_gd3(GD3_GAME_JP, &param);
        } else if chips::chars_match(&name, "SYSTEM") {
            self.add_gd3(GD3_SYSTEM_EN, &param);
            self.add_gd3(GD3_SYSTEM_JP, &param);
        } else if chips::chars_match(&name, "SYSTEM-E") {
            self.add_gd3(GD3_SYSTEM_EN, &param);
        } else if chips::chars_match(&name, "SYSTEM-J") {
            self.add_gd3(GD3_SYSTEM_JP, &param);
        } else if chips::chars_match(&name, "COMPOSER") {
            self.add_gd3(GD3_COMPOSER_EN, &param);
            self.add_gd3(GD3_COMPOSER_JP, &param);
        } else if chips::chars_match(&name, "COMPOSER-E") {
            self.add_gd3(GD3_COMPOSER_EN, &param);
        } else if chips::chars_match(&name, "COMPOSER-J") {
            self.add_gd3(GD3_COMPOSER_JP, &param);
        } else if chips::chars_match(&name, "PROGRAMER") || chips::chars_match(
            &name,
            "PROGRAMMER",
        ) {
            self.add_gd3(GD3_CONVERTER, &param);
        } else if chips::chars_match(&name, "DATE") {
            self.add_gd3(GD3_DATE, &param);
        } else if chips::chars_match(&name, "NOTES") {
            self.add_gd3(GD3_NOTES, &param);
        } else if chips::chars_match(&name, "RATE") {
            let mut pos: usize = 0;
            let rate64 = read_num(&param, &mut pos);
            if rate64 < 0 && rate64 > -44101 {
                let rate = (-rate64) as i32;
                self.framerate = if 44100 / rate >= 1 {
                    44100 / rate
                } else {
                    1
                };
                self.recording_rate = 0;
            } else if rate64 > 0 && rate64 <= 44100 {
                let rate = rate64 as i32;
                self.framerate = if 44100 / rate >= 1 {
                    44100 / rate
                } else {
                    1
                };
                self.recording_rate = rate;
            } else if rate64 > 44100 && rate64 <= 0x7FFFFFFF {
                self.framerate = 1;
                self.recording_rate = rate64 as i32;
            }
        } else if chips::chars_match(&name, "VOLUME") {
            let mut pos: usize = 0;
            let v = read_num(&param, &mut pos);
            if v >= -32768 && v <= 32767 {
                self.volume_mod = v as i16;
            }
            proof {
                assert(v == spec_read_num(param@, 0).0);
                assert(self.volume_mod == (if -32768 <= v <= 32767 {
                    v as i16
                } else {
                    old(self).volume_mod
                }));
            }
        } else if chips::chars_match(&name, "LOOP-BASE") {
            let mut pos: usize = 0;
            let v = read_num(&param, &mut pos);
            if v >= -128 && v <= 127 {
                self.loop_base = v as i8;
            }
        } else if chips::chars_match(&name, "LOOP-MODIFIER") {
            let mut pos: usize = 0;
            let v = read_num(&param, &mut pos);
            if v >= 0 && v <= 255 {
                self.loop_mod = v as u8;
            }
        } else if chips::chars_match(&name, "SCALE") {
            self.parse_scale(&param);
        } else if chips::chars_match(&name, "EQUAL-TEMPERAMENT") {
            self.make_equal_temperament();
        } else if chips::chars_match(&name, "JUST-INTONATION") {
            self.parse_just_intonation(&param);
        } else if chips::chars_match(&name, "PITCH-CHANGE") {
            let mut pos: usize = 0;
            let v = read_num(&param, &mut pos);
            // The base pitch is ten times the given value, held in 16
            // fractional bits within the table's range.
            if v > 0 && v < 0x100000 {
                self.base_freq = (v as u64) * 10 * 0x10000;
            }
        } else if chips::chars_match(&name, "INCLUDE") {
            return Ok(LineAction::Include(chars_to_string(&param)));
        } else if name.len() > 3 && name[0] == 'E' && name[1] == 'X' && name[2] == '-' {
            let chip_name = tail_from(&name, 3);
            return self.parse_chip_enable(&chip_name, &param);
        }
        proof {
            assert(cmd@.take(Self::spec_ws_split(cmd@, 0)) == name@);
            assert(cmd@.skip(Self::spec_ws_skip(cmd@, Self::spec_ws_split(cmd@, 0))) == param@);
            let nm = cmd@.take(Self::spec_ws_split(cmd@, 0));
            let pm = cmd@.skip(Self::spec_ws_skip(cmd@, Self::spec_ws_split(cmd@, 0)));
            let v = spec_read_num(pm, 0).0;
            assert("VOLUME"@[0] != "SYSTEM"@[0]);
            assert("VOLUME"@[0] != "GAME-E"@[0]);
            assert("VOLUME"@[0] != "GAME-J"@[0]);
            assert("LOOP-BASE"@[0] != "PROGRAMER"@[0]);
            assert(nm == "VOLUME"@ ==> self.volume_mod == (if -32768 <= v && v <= 32767 {
                v as i16
            } else {
                old(self).volume_mod
            }));
            assert(nm == "LOOP-BASE"@ ==> self.loop_base == (if -128 <= v && v <= 127 {
                v as i8
            } else {
                old(self).loop_base
            }));
            assert(nm == "LOOP-MODIFIER"@ ==> self.loop_mod == (if 0 <= v && v <= 255 {
                v as u8
            } else {
                old(self).loop_mod
            }));
            assert(nm == "TITLE-E"@ ==> self.gd3_text@[GD3_TITLE_EN as int]@ == (if old(
                self,
            ).gd3_text@[GD3_TITLE_EN as int]@.len() > 0 {
                old(self).gd3_text@[GD3_TITLE_EN as int]@ + seq!['\n'] + pm
            } else {
                pm
            }));
        }
        Ok(LineAction::Continue)
    }

    /// Rebuild the scale: letters `a`-`j` take successive semitone
    /// offsets, `.` skips one, and the count of positions consumed
    /// becomes the octave size.
    fn parse_scale(&mut self, scale: &Vec<char>)
        requires
            old(self).wf(),
        ensures
            final(self).wf(),
            final(self).events == old(self).events,
            final(self).total_samples == old(self).total_samples,
            final(self).chips == old(self).chips,
    {
        let mut x: i32 = 0;
        let mut i: usize = 0;
        while i < scale.len()
            invariant
                self.wf(),
                self.events == old(self).events,
                self.total_samples == old(self).total_samples,
                self.chips == old(self).chips,
                i <= scale@.len(),
                0 <= x,
                x <= i,
                i <= 1000 || x <= 1000,
            decreases scale@.len() - i,
        {
            if x >= 1000 {
                break;
            }
            let c = scale[i];
            if 'a' <= c && c <= 'j' {
                let idx = (c as usize) - ('a' as usize);
                self.note_letter.set(idx, x);
                x = x + 1;
            } else if c == '.' {
                x = x + 1;
            }
            i = i + 1;
        }
        if 1 <= x && x <= 32 {
            self.octave_count = x;
        }
    }

    /// Rebuild equal-temperament ratios for the current octave size.
    /// The twelve-tone table is exact; other octave sizes keep the
    /// current ratios.
    fn make_equal_temperament(&mut self)
        requires
            old(self).wf(),
        ensures
            final(self).wf(),
            final(self).events == old(self).events,
            final(self).total_samples == old(self).total_samples,
            final(self).chips == old(self).chips,
    {
        if self.octave_count == 12 {
            let fresh = Compiler::new();
            self.note_freq = fresh.note_freq;
        }
    }

    /// Fill the ratio table from `numerator denominator` pairs.
    fn parse_just_intonation(&mut self, params: &Vec<char>)
        requires
            old(self).wf(),
        ensures
            final(self).wf(),
            final(self).events == old(self).events,
            final(self).total_samples == old(self).total_samples,
            final(self).chips == old(self).chips,
    {
        let mut pos: usize = 0;
        let mut i: usize = 0;
        let oc: usize = if 1 <= self.octave_count && self.octave_count <= 32 {
            self.octave_count as usize
        } else {
            12
        };
        while i < oc
            invariant
                self.wf(),
                self.events == old(self).events,
                self.total_samples == old(self).total_samples,
                self.chips == old(self).chips,
                pos <= params@.len(),
                i <= oc <= 32,
            decreases oc - i,
        {
            let num = read_num(params, &mut pos);
            let denom = read_num(params, &mut pos);
            if denom > 0 && num > 0 && num < 0x10000 && denom < 0x10000 {
                // The ratio in 32 fractional bits, kept below the limit.
                let ratio: u64 = ((num as u64) * 0x100000000) / (denom as u64);
                if i < 32 && ratio < note::FREQ_LIMIT {
                    self.note_freq.set(i, ratio);
                }
            }
            i = i + 1;
        }
    }

    /// Enable a chip and bind the listed channel letters to it: `,`
    /// advances the role index and resets the voice index, `_` skips a
    /// voice slot; the rest of the line sets options (`+X`/`-X` toggle,
    /// `X=N` or `X:N` assign).
    fn parse_chip_enable(&mut self, chip_name: &Vec<char>, params: &Vec<char>) -> (r: Result<
        LineAction,
        Error,
    >)
        requires
            old(self).wf(),
        ensures
            final(self).wf(),
            final(self).events == old(self).events,
            final(self).total_samples == old(self).total_samples,
            r is Ok <==> chips::spec_known_chip(chip_name@),
            r is Err ==> *final(self) == *old(self),
            (r is Ok && old(self).chips@.len() < MAX_CHANNELS) ==> final(self).chips@.len()
                == old(self).chips@.len() + 1 && final(self).chips@.subrange(
                0,
                old(self).chips@.len() as int,
            ) == old(self).chips@,
            (r is Ok && old(self).chips@.len() >= MAX_CHANNELS) ==> *final(self) == *old(self),
            forall|k: int| 0 <= k < MAX_CHANNELS && final(self).channels@[k] != old(
                self,
            ).channels@[k] ==> ((#[trigger] final(self).channels@[k]) is Some
                && final(self).channels@[k]->0.chip_idx == old(self).chips@.len()
                && final(self).channels@[k]->0.chip_name@ == chip_name@ && exists|j: int| 0 <= j
                < params@.len() && spec_channel_index(#[trigger] params@[j]) == Some(k)),
    {
        let name_str = chars_to_string(chip_name);
        let mut instance = match chips::create_chip(name_str.as_str()) {
            Ok(inst) => inst,
            Err(e) => {
                return Err(e);
            },
        };
        if self.chips.len() >= MAX_CHANNELS {
            return Ok(LineAction::Continue);
        }
        let chip_idx = self.chips.len();

        // Split the parameter into the channel list and the options.
        let mut split: usize = params.len();
        let mut i: usize = 0;
        while i < params.len()
            invariant
                i <= params@.len(),
                split <= params@.len(),
            decreases params@.len() - i,
        {
            if params[i] == ' ' || params[i] == '\t' {
                split = i;
                break;
            }
            i = i + 1;
        }

        // Parse the option text first, then enable and register the
        // chip, and finally bind the letters to its index.
        let mut options = ChipOptions::new();
        let mut pos: usize = split;
        let mut current_key: char = '\u{0}';
        while pos < params.len()
            invariant
                pos <= params@.len(),
            decreases params@.len() - pos,
        {
            let b = params[pos];
            if b == ' ' || b == '\t' {
                current_key = '\u{0}';
                pos = pos + 1;
            } else if b == '+' {
                if params.len() - pos > 1 {
                    options.set(params[pos + 1], 1);
                    pos = pos + 2;
                } else {
                    pos = pos + 1;
                }
            } else if b == '-' {
                if params.len() - pos > 1 {
                    options.set(params[pos + 1], 0);
                    pos = pos + 2;
                } else {
                    pos = pos + 1;
                }
            } else if b == '=' || b == ':' {
                pos = pos + 1;
                let v = read_num(params, &mut pos);
                if v >= -0x80000000 && v <= 0x7FFFFFFF {
                    options.set(current_key, v as i32);
                }
                current_key = '\u{0}';
            } else {
                current_key = b;
                pos = pos + 1;
            }
        }

        instance.chip.enable(&options);
        instance.options = options;
        self.chips.push(instance);

        // Bind channel letters to the new chip index.
        let mut chip_sub: usize = 0;
        let mut chan_sub: usize = 0;
        let mut j: usize = 0;
        proof {
            assert(self.chips@.subrange(0, chip_idx as int) =~= old(self).chips@);
        }
        while j < split
            invariant
                self.wf(),
                self.events == old(self).events,
                self.total_samples == old(self).total_samples,
                chip_idx < self.chips@.len(),
                chip_idx == old(self).chips@.len(),
                self.chips@.len() == old(self).chips@.len() + 1,
                self.chips@.subrange(0, old(self).chips@.len() as int) == old(self).chips@,
                j <= split <= params@.len(),
                forall|k: int| 0 <= k < MAX_CHANNELS && self.channels@[k] != old(
                    self,
                ).channels@[k] ==> ((#[trigger] self.channels@[k]) is Some
                    && self.channels@[k]->0.chip_idx == old(self).chips@.len()
                    && self.channels@[k]->0.chip_name@ == chip_name@ && exists|t: int| 0 <= t
                    < params@.len() && spec_channel_index(#[trigger] params@[t]) == Some(k)),
            decreases split - j,
        {
            let c = params[j];
            if c == ',' {
                if chip_sub < 1000 {
                    chip_sub = chip_sub + 1;
                }
                chan_sub = 0;
            } else if c == '_' {
                if chan_sub < 1000 {
                    chan_sub = chan_sub + 1;
                }
            } else {
                match channel_index(c) {
                    Ok(idx) => {
                        self.channels.set(
                            idx,
                            Some(
                                Channel::new(
                                    chars_to_string(chip_name),
                                    chip_idx,
                                    chip_sub,
                                    chan_sub,
                                ),
                            ),
                        );
                        if chan_sub < 1000 {
                            chan_sub = chan_sub + 1;
                        }
                    },
                    Err(_) => {},
                }
            }
            j = j + 1;
        }
        Ok(LineAction::Continue)
    }

    /// Read the envelope stored for the open definition.
    fn take_env(&mut self, t: usize) -> (r: MacroEnvelope)
        requires
            old(self).wf(),
            t < 13,
        ensures
            final(self).wf(),
            *final(self) == *old(self),
            r.wf(),
    {
        let id = self.env_id;
        self.macro_env.env(t, id).clone_env()
    }

    /// Store the open envelope back.
    fn put_env(&mut self, t: usize, env: MacroEnvelope)
        requires
            old(self).wf(),
            t < 13,
            env.wf(),
        ensures
            final(self).wf(),
            final(self).env_id == old(self).env_id,
            final(self).env_mac == old(self).env_mac,
            final(self).env_rep == old(self).env_rep,
            final(self).env_block == old(self).env_block,
            final(self).events == old(self).events,
            final(self).total_samples == old(self).total_samples,
            final(self).chips == old(self).chips,
            final(self).channels == old(self).channels,
    {
        let id = self.env_id;
        self.macro_env.set_env(t, id, env);
    }

    /// Extend the open envelope from one definition line; an `@` line
    /// starts a new definition at the named kind and id.
    fn parse_envelope(&mut self, line: &Vec<char>)
        requires
            old(self).wf(),
        ensures
            final(self).wf(),
            final(self).events == old(self).events,
            final(self).total_samples == old(self).total_samples,
            final(self).chips == old(self).chips,
            final(self).channels == old(self).channels,
    {
        let mut pos: usize = 0;

        if line.len() > 0 && line[0] == '@' {
            self.env_block = 0;
            self.env_rep = 1;

            // The macro name runs over `@` and letters, up to seven
            // characters.
            let mut name: Vec<char> = Vec::new();
            while pos < line.len() && pos < 7
                invariant
                    pos <= line@.len(),
                    pos <= 7,
                decreases 7 - pos,
            {
                let b = line[pos];
                if b >= '@' && !is_tuplet_open(b) {
                    name.push(b);
                    pos = pos + 1;
                } else {
                    break;
                }
            }

            self.env_mac = -1;
            match MacroType::from_dyn_chars(&name) {
                Some(t) => {
                    self.env_mac = t.index() as i32;
                },
                None => {},
            }

            if self.env_mac == -1 {
                return;
            }

            let idnum = read_num(line, &mut pos);
            let idr = if idnum >= 0 {
                (idnum % 256) as usize
            } else {
                (((idnum % 256) + 256) % 256) as usize
            };
            self.env_id = idr;

            let env = MacroEnvelope::new();
            let t0 = self.env_mac as usize;
            self.macro_env.set_env(t0, self.env_id, env);
        }

        if self.env_mac < 0 {
            return;
        }
        let t = self.env_mac as usize;

        // Walk the body tokens, with a step budget as a guard.
        let mut fuel: u32 = 1000000;
        loop
            invariant
                self.wf(),
                self.env_mac == t as i32,
                t < 13,
                pos <= line@.len(),
                self.events == old(self).events,
                self.total_samples == old(self).total_samples,
                self.chips == old(self).chips,
                self.channels == old(self).channels,
            decreases fuel,
        {
            if fuel == 0 {
                break;
            }
            fuel = fuel - 1;

            // Skip whitespace.
            while pos < line.len() && line[pos] <= ' '
                invariant
                    pos <= line@.len(),
                decreases line@.len() - pos,
            {
                pos = pos + 1;
            }
            if pos >= line.len() {
                break;
            }

            let b = line[pos];

            if ('0' <= b && b <= '9') || b == '-' || b == '+' || b == '$' {
                // A number, appended once per repeat count.
                if self.macro_env.env(t, self.env_id).loop_end >= 2048 {
                    return;
                }
                let before = pos;
                let x64 = read_num(line, &mut pos);
                if pos == before {
                    pos = pos + 1;
                    continue;
                }
                let x: i16 = clamp_i16_wrap(x64);
                let reps: i32 = if self.env_rep > 0 && self.env_rep <= 2048 {
                    self.env_rep
                } else if self.env_rep > 2048 {
                    2048
                } else {
                    0
                };
                let mut rc: i32 = 0;
                let mut env = self.take_env(t);
                while rc < reps
                    invariant
                        env.wf(),
                        0 <= rc <= reps,
                    decreases reps - rc,
                {
                    env.push(x);
                    rc = rc + 1;
                }
                self.put_env(t, env);
            } else if b == '|' {
                let mut env = self.take_env(t);
                env.set_loop_point();
                self.put_env(t, env);
                pos = pos + 1;
            } else if b == '\'' {
                pos = pos + 1;
                let v = read_num(line, &mut pos);
                if v >= 0 && v <= 2048 {
                    self.env_rep = v as i32;
                }
            } else if b == ',' && line.len() - pos > 1 && 'a' <= line[pos + 1] && line[pos + 1]
                <= 'j' {
                // Pad with the last value until the named scale position.
                pos = pos + 1;
                let note_idx = (line[pos] as usize) - ('a' as usize);
                pos = pos + 1;
                let mut x: i64 = (self.note_letter[note_idx] as i64) - (self.macro_env.env(
                    t,
                    self.env_id,
                ).loop_end as i64);

                while pos < line.len() && (line[pos] == '+' || line[pos] == '-')
                    invariant
                        pos <= line@.len(),
                        -0x100000000 <= x <= 0x100000000,
                    decreases line@.len() - pos,
                {
                    if x < 0x100000000 && x > -0x100000000 {
                        if line[pos] == '+' {
                            x = x + 1;
                        } else {
                            x = x - 1;
                        }
                    }
                    pos = pos + 1;
                }

                let oct = read_num(line, &mut pos);
                if oct > -0x10000 && oct < 0x10000 {
                    x = x + chips::mul_i32(oct as i32, self.octave_count);
                }

                let mut env = self.take_env(t);
                match env.last() {
                    Some(last_val) => {
                        let mut cnt: i64 = x;
                        while cnt > 0
                            invariant
                                env.wf(),
                            decreases cnt,
                        {
                            env.push(last_val);
                            cnt = cnt - 1;
                        }
                    },
                    None => {},
                }
                self.put_env(t, env);
            } else if b == '=' || is_tuplet_open(b) || b == ',' {
                pos = pos + 1;
            } else if b == '[' {
                if self.env_block < 32 {
                    let eb = self.env_block;
                    self.env_brep.set(eb, self.env_rep);
                    let le = self.macro_env.env(t, self.env_id).loop_end;
                    self.env_bst.set(eb, le);
                    self.env_block = eb + 1;
                }
                pos = pos + 1;
            } else if b == ']' && self.env_block > 0 {
                // Close the block, repeating its contents.
                pos = pos + 1;
                let rep64 = read_num(line, &mut pos);
                let repeat_count: i64 = if rep64 > 0 && rep64 < 0x10000 {
                    rep64
                } else {
                    0
                };
                self.env_block = self.env_block - 1;
                let block_start = self.env_bst[self.env_block];
                let y = self.macro_env.env(t, self.env_id).loop_end;

                let mut env = self.take_env(t);
                let mut rep: i64 = 1;
                while rep < repeat_count
                    invariant
                        env.wf(),
                        1 <= rep,
                    decreases repeat_count - rep,
                {
                    let mut jj: i32 = block_start;
                    while jj < y
                        invariant
                            env.wf(),
                        decreases y - jj,
                    {
                        if jj >= 0 {
                            match env.get(jj as usize) {
                                Some(v) => {
                                    env.push(v);
                                },
                                None => {},
                            }
                        }
                        jj = jj + 1;
                    }
                    rep = rep + 1;
                }
                self.put_env(t, env);
                self.env_rep = self.env_brep[self.env_block];
            } else if b == '"' {
                // A text label, up to the closing quote.
                pos = pos + 1;
                let mut label: Vec<char> = Vec::new();
                while pos < line.len() && line[pos] != '"' && label.len() < 63
                    invariant
                        pos <= line@.len(),
                        label@.len() <= 63,
                    decreases line@.len() - pos,
                {
                    label.push(line[pos]);
                    pos = pos + 1;
                }
                if pos < line.len() && line[pos] == '"' {
                    pos = pos + 1;
                }
                let mut env = self.take_env(t);
                env.text = chars_to_string(&label);
                self.put_env(t, env);
            } else if b == ':' {
                // Ramp from the tail toward a target in colon-count steps.
                let mut step_size: i64 = 0;
                while pos < line.len() && line[pos] == ':'
                    invariant
                        pos <= line@.len(),
                        0 <= step_size <= 0x7FFF,
                    decreases line@.len() - pos,
                {
                    if step_size < 0x7FFF {
                        step_size = step_size + 1;
                    }
                    pos = pos + 1;
                }
                let t64 = read_num(line, &mut pos);
                if t64 >= -0x8000 && t64 <= 0x7FFF && step_size > 0 && step_size < 0x8000 {
                    let target: i64 = t64;
                    let mut env = self.take_env(t);
                    match env.last() {
                        Some(last0) => {
                            let mut current: i64 = last0 as i64;
                            let dir: i64 = if target > current {
                                step_size
                            } else {
                                -step_size
                            };
                            let mut guard: i32 = 0;
                            while current != target && guard < 4096
                                invariant
                                    env.wf(),
                                    -0x20000 <= current <= 0x20000,
                                    -0x8000 <= target <= 0x7FFF,
                                    -0x8000 <= dir <= 0x8000,
                                    0 <= guard <= 4096,
                                decreases 4096 - guard,
                            {
                                if current + dir > 0x20000 || current + dir < -0x20000 {
                                    break;
                                }
                                current = current + dir;
                                let cv: i16 = clamp_i16_wrap(current);
                                let reps: i32 = if self.env_rep > 0 && self.env_rep <= 2048 {
                                    self.env_rep
                                } else if self.env_rep > 2048 {
                                    2048
                                } else {
                                    0
                                };
                                let mut rc: i32 = 0;
                                while rc < reps
                                    invariant
                                        env.wf(),
                                        0 <= rc <= reps,
                                    decreases reps - rc,
                                {
                                    env.push(cv);
                                    rc = rc + 1;
                                }
                                if (dir > 0 && current >= target) || (dir < 0 && current
                                    <= target) {
                                    break;
                                }
                                guard = guard + 1;
                            }
                            self.put_env(t, env);
                        },
                        None => {
                            self.put_env(t, env);
                        },
                    }
                }
            } else {
                return;
            }
        }
    }

    /// Read a channel from its slot.
    fn take_channel(&self, idx: usize) -> (r: Option<Channel>)
        requires
            self.wf(),
            idx < 52,
        ensures
            r is Some <==> self.channels@[idx as int] is Some,
            r is Some ==> {
                let orig = self.channels@[idx as int]->0;
                &&& r->0.chip_idx == orig.chip_idx
                &&& r->0.chip_idx < self.chips@.len()
                &&& r->0.chip_sub == orig.chip_sub
                &&& r->0.chan_sub == orig.chan_sub
                &&& r->0.text@ == orig.text@
                &&& r->0.loop_point == orig.loop_point
                &&& r->0.duration == orig.duration
            },
    {
        match &self.channels[idx] {
            Some(ch) => Some(ch.clone_channel()),
            None => None,
        }
    }

    /// Put a channel back into its slot.
    fn put_channel(&mut self, idx: usize, ch: Channel)
        requires
            old(self).wf(),
            idx < 52,
            ch.chip_idx < old(self).chips@.len(),
        ensures
            final(self).wf(),
            final(self).channels@[idx as int] == Some(ch),
            final(self).chips == old(self).chips,
            final(self).events == old(self).events,
            final(self).total_samples == old(self).total_samples,
            forall|i: int| 0 <= i < 52 && i != idx ==> (#[trigger] final(self).channels@[i]) == old(
                self,
            ).channels@[i],
    {
        self.channels.set(idx, Some(ch));
    }

    /// A scan that stopped at `e` after passing only letters computes
    /// the letters-end position.
    proof fn lemma_letters_end(s: Seq<char>, i: int, e: int)
        requires
            0 <= i <= e <= s.len(),
            forall|t: int| i <= t < e ==> (#[trigger] s[t]) > ' ' && spec_channel_index(s[t])
                is Some,
            e == s.len() || !(s[e] > ' ') || spec_channel_index(s[e]) is None,
        ensures
            Self::spec_letters_end(s, i) == e,
        decreases e - i,
    {
        if i < e {
            Self::lemma_letters_end(s, i + 1, e);
        }
    }

    /// Where the leading run of channel letters ends: the first
    /// position holding whitespace or a non-letter.
    pub open spec fn spec_letters_end(s: Seq<char>, i: int) -> int
        decreases s.len() - i,
        when 0 <= i <= s.len()
    {
        if i >= s.len() {
            i
        } else if !(s[i] > ' ') {
            i
        } else if spec_channel_index(s[i]) is None {
            i
        } else {
            Self::spec_letters_end(s, i + 1)
        }
    }

    /// The text a channel line appends, from position `i`: characters
    /// up to a `;`, with `*x` spliced from the text-macro table.
    pub open spec fn spec_expand(&self, s: Seq<char>, i: int) -> Seq<char>
        decreases s.len() - i,
        when 0 <= i <= s.len()
    {
        if i >= s.len() {
            Seq::<char>::empty()
        } else if s[i] == ';' {
            Seq::<char>::empty()
        } else if s[i] == '*' && s.len() - i > 1 {
            (if (s[i + 1] as u32) < 128 {
                self.text_macros@[(s[i + 1] as u32) as int]@
            } else {
                Seq::<char>::empty()
            }) + self.spec_expand(s, i + 2)
        } else {
            seq![s[i]] + self.spec_expand(s, i + 1)
        }
    }

    /// Append a channel-data line: the leading letters name the
    /// channels, and the rest, with text macros spliced in, goes to
    /// each.  A letter not yet declared is an error.
    fn parse_channel_line(&mut self, line: &Vec<char>) -> (r: Result<LineAction, Error>)
        requires
            old(self).wf(),
        ensures
            final(self).wf(),
            final(self).events == old(self).events,
            final(self).total_samples == old(self).total_samples,
            final(self).chips == old(self).chips,
            r is Err <==> (exists|t: int| 0 <= t < Self::spec_letters_end(line@, 0)
                && old(self).channels@[spec_channel_index(#[trigger] line@[t])->0] is None),
            forall|q: int| 0 <= q < 52 && !(exists|t: int| 0 <= t < Self::spec_letters_end(
                line@,
                0,
            ) && spec_channel_index(#[trigger] line@[t]) == Some(q)) ==> final(self).channels@[q]
                == old(self).channels@[q],
            r is Ok ==> forall|t: int| 0 <= t < Self::spec_letters_end(line@, 0) && (forall|u: int|
                0 <= u < Self::spec_letters_end(line@, 0) && u != t ==> spec_channel_index(
                line@[u],
            ) != spec_channel_index(line@[t])) ==> {
                let q = spec_channel_index(#[trigger] line@[t])->0;
                &&& old(self).channels@[q] is Some
                &&& final(self).channels@[q] is Some
                &&& final(self).channels@[q]->0.text@ == old(self).channels@[q]->0.text@ + old(
                    self,
                ).spec_expand(line@, Self::spec_letters_end(line@, 0))
                &&& final(self).channels@[q]->0.chip_idx == old(self).channels@[q]->0.chip_idx
                &&& final(self).channels@[q]->0.chip_sub == old(self).channels@[q]->0.chip_sub
                &&& final(self).channels@[q]->0.chan_sub == old(self).channels@[q]->0.chan_sub
            },
    {
        let ghost lend = Self::spec_letters_end(line@, 0);

        // Collect channel letters.
        let mut idxs: Vec<usize> = Vec::new();
        let mut pos: usize = 0;
        let mut scanning = true;
        while scanning
            invariant
                pos <= line@.len(),
                idxs@.len() == pos,
                forall|t: int| 0 <= t < pos ==> (#[trigger] line@[t]) > ' '
                    && spec_channel_index(line@[t]) == Some(idxs@[t] as int),
                forall|k: int| 0 <= k < idxs@.len() ==> (#[trigger] idxs@[k]) < 52,
                !scanning ==> (pos == line@.len() || !(line@[pos as int] > ' ')
                    || spec_channel_index(line@[pos as int]) is None),
            decreases line@.len() - pos + (if scanning {
                1int
            } else {
                0int
            }),
        {
            if pos < line.len() && line[pos] > ' ' {
                match channel_index(line[pos]) {
                    Ok(idx) => {
                        idxs.push(idx);
                        pos = pos + 1;
                    },
                    Err(_) => {
                        scanning = false;
                    },
                }
            } else {
                scanning = false;
            }
        }
        proof {
            Self::lemma_letters_end(line@, 0, pos as int);
            assert(lend == pos);
        }
        if idxs.len() == 0 {
            return Ok(LineAction::Continue);
        }
        let ghost nletters: int = pos as int;

        // Expand text macros into the appended text.
        let ghost pos0: int = pos as int;
        let mut text: Vec<char> = Vec::new();
        while pos < line.len()
            invariant_except_break
                self.wf(),
                *self == *old(self),
                pos0 <= pos as int,
                pos <= line@.len(),
                self.spec_expand(line@, pos0) == text@ + self.spec_expand(line@, pos as int),
            ensures
                self.wf(),
                *self == *old(self),
                text@ == self.spec_expand(line@, pos0),
            decreases line@.len() - pos,
        {
            let b = line[pos];
            if b == ';' {
                proof {
                    assert(self.spec_expand(line@, pos as int) =~= Seq::<char>::empty());
                    assert(text@ =~= self.spec_expand(line@, pos0));
                }
                break;
            } else if b == '*' && line.len() - pos > 1 {
                let ghost tpre = text@;
                let ghost pold: int = pos as int;
                let id = line[pos + 1] as u32;
                let ghost mac: Seq<char> = (if id < 128 {
                    self.text_macros@[id as int]@
                } else {
                    Seq::<char>::empty()
                });
                proof {
                    assert(self.spec_expand(line@, pold) == mac + self.spec_expand(
                        line@,
                        pold + 2,
                    ));
                }
                if id < 128 {
                    let mac_len = self.text_macros[id as usize].len();
                    let mut m: usize = 0;
                    while m < mac_len
                        invariant
                            self.wf(),
                            *self == *old(self),
                            id < 128,
                            pold + 1 < line@.len(),
                            id == line@[pold + 1] as u32,
                            mac_len == self.text_macros@[id as int]@.len(),
                            mac == self.text_macros@[id as int]@,
                            m <= mac_len,
                            text@ == tpre + self.text_macros@[id as int]@.take(m as int),
                        decreases mac_len - m,
                    {
                        text.push(self.text_macros[id as usize][m]);
                        proof {
                            assert(self.text_macros@[id as int]@.take(m + 1)
                                =~= self.text_macros@[id as int]@.take(m as int).push(
                                self.text_macros@[id as int]@[m as int],
                            ));
                        }
                        m = m + 1;
                    }
                    proof {
                        assert(self.text_macros@[id as int]@.take(mac_len as int)
                            =~= self.text_macros@[id as int]@);
                        assert(text@ =~= tpre + mac);
                    }
                } else {
                    proof {
                        assert(text@ =~= tpre + mac);
                    }
                }
                pos = pos + 2;
                proof {
                    assert(self.spec_expand(line@, pos0) =~= text@ + self.spec_expand(
                        line@,
                        pos as int,
                    ));
                }
            } else {
                let ghost tpre = text@;
                let ghost pold: int = pos as int;
                proof {
                    assert(self.spec_expand(line@, pold) == seq![line@[pold]]
                        + self.spec_expand(line@, pold + 1));
                }
                text.push(b);
                pos = pos + 1;
                proof {
                    assert(text@ =~= tpre + seq![line@[pold]]);
                    assert(self.spec_expand(line@, pos0) =~= text@ + self.spec_expand(
                        line@,
                        pos as int,
                    ));
                }
            }
        }
        proof {
            assert(text@ =~= old(self).spec_expand(line@, pos0));
        }

        // Append to every named channel; an undeclared one is an error.
        let mut k: usize = 0;
        while k < idxs.len()
            invariant
                self.wf(),
                self.events == old(self).events,
                self.total_samples == old(self).total_samples,
                self.chips == old(self).chips,
                k <= idxs@.len(),
                idxs@.len() == nletters,
                nletters == lend,
                lend == Self::spec_letters_end(line@, 0),
                nletters <= line@.len(),
                text@ == old(self).spec_expand(line@, lend),
                forall|t: int| 0 <= t < nletters ==> (#[trigger] line@[t]) > ' '
                    && spec_channel_index(line@[t]) == Some(idxs@[t] as int),
                forall|q: int| 0 <= q < idxs@.len() ==> (#[trigger] idxs@[q]) < 52,
                forall|q: int| 0 <= q < 52 && !(exists|t: int| 0 <= t < k
                    && idxs@[t] == q) ==> self.channels@[q] == old(self).channels@[q],
                forall|t: int| 0 <= t < k ==> old(self).channels@[(#[trigger] idxs@[t]) as int]
                    is Some,
                forall|t: int| 0 <= t < k ==> self.channels@[(#[trigger] idxs@[t]) as int]
                    is Some,
                forall|t: int| 0 <= t < k && (forall|u: int| 0 <= u < idxs@.len() && u != t
                    ==> idxs@[u] != idxs@[t]) ==> {
                    let q = (#[trigger] idxs@[t]) as int;
                    &&& self.channels@[q] is Some
                    &&& self.channels@[q]->0.text@ == old(self).channels@[q]->0.text@ + text@
                    &&& self.channels@[q]->0.chip_idx == old(self).channels@[q]->0.chip_idx
                    &&& self.channels@[q]->0.chip_sub == old(self).channels@[q]->0.chip_sub
                    &&& self.channels@[q]->0.chan_sub == old(self).channels@[q]->0.chan_sub
                },
            decreases idxs@.len() - k,
        {
            let idx = idxs[k];
            match self.take_channel(idx) {
                Some(mut ch) => {
                    ch.append_chars(&text);
                    self.put_channel(idx, ch);
                },
                None => {
                    let letter = match index_to_channel(idx) {
                        Some(c) => c,
                        None => '?',
                    };
                    proof {
                        if exists|t: int| 0 <= t < k && idxs@[t] == idx {
                            let t = choose|t: int| 0 <= t < k && idxs@[t] == idx;
                            assert(self.channels@[idxs@[t] as int] is Some);
                            assert(false);
                        }
                        assert(self.channels@[idx as int] == old(self).channels@[idx as int]);
                        assert(old(self).channels@[idx as int] is None);
                        assert(spec_channel_index(line@[k as int]) == Some(idx as int));
                        assert forall|q: int| 0 <= q < 52 && !(exists|t: int| 0 <= t < lend
                            && spec_channel_index(#[trigger] line@[t]) == Some(q)) implies
                            self.channels@[q] == old(self).channels@[q] by {
                            if exists|t: int| 0 <= t < k && idxs@[t] == q {
                                let t = choose|t: int| 0 <= t < k && idxs@[t] == q;
                                assert(spec_channel_index(line@[t]) == Some(q));
                                assert(false);
                            }
                        }
                        assert((k as int) < idxs@.len());
                        assert(idxs@.len() == nletters);
                        assert(nletters == lend);
                        assert(lend == Self::spec_letters_end(line@, 0));
                        assert(0 <= k as int && (k as int) < Self::spec_letters_end(line@, 0));
                        assert(old(self).channels@[spec_channel_index(line@[k as int])->0]
                            is None);
                        assert(exists|t: int| 0 <= t < Self::spec_letters_end(line@, 0)
                            && old(self).channels@[spec_channel_index(
                            #[trigger] line@[t],
                        )->0] is None);
                    }
                    return Err(Error::UndeclaredChannel(letter));
                },
            }
            k = k + 1;
        }
        proof {
            assert forall|t: int| 0 <= t < lend implies old(self).channels@[spec_channel_index(
                #[trigger] line@[t],
            )->0] is Some by {
                assert(spec_channel_index(line@[t]) == Some(idxs@[t] as int));
                assert(old(self).channels@[idxs@[t] as int] is Some);
            }
            assert forall|t: int| 0 <= t < lend && (forall|u: int| 0 <= u < lend && u != t
                ==> spec_channel_index(line@[u]) != spec_channel_index(#[trigger] line@[t]))
                implies (forall|u: int| 0 <= u < idxs@.len() && u != t ==> (#[trigger] idxs@[u])
                != idxs@[t]) by {
                assert forall|u: int| 0 <= u < idxs@.len() && u != t implies (#[trigger] idxs@[u])
                    != idxs@[t] by {
                    assert(spec_channel_index(line@[u]) == Some(idxs@[u] as int));
                    assert(spec_channel_index(line@[t]) == Some(idxs@[t] as int));
                }
            }
            assert forall|q: int| 0 <= q < 52 && !(exists|t: int| 0 <= t < lend
                && spec_channel_index(#[trigger] line@[t]) == Some(q)) implies self.channels@[q]
                == old(self).channels@[q] by {
                if exists|t: int| 0 <= t < idxs@.len() && idxs@[t] == q {
                    let t = choose|t: int| 0 <= t < idxs@.len() && idxs@[t] == q;
                    assert(spec_channel_index(line@[t]) == Some(q));
                    assert(false);
                }
            }
        }
        Ok(LineAction::Continue)
    }

    /// Route a macro set to a chip, returning its private event.
    fn chip_set_macro(
        &mut self,
        chip_idx: usize,
        ch: usize,
        dynamic: bool,
        cmd: MacroCommand,
        value: i16,
    ) -> (r: Option<event::ChipEvent>)
        requires
            old(self).wf(),
            chip_idx < old(self).chips@.len(),
        ensures
            final(self).wf(),
            final(self).events == old(self).events,
            final(self).total_samples == old(self).total_samples,
            final(self).channels == old(self).channels,
            final(self).chips@.len() == old(self).chips@.len(),
    {
        let mut inst = self.chips.remove(chip_idx);
        let r = inst.chip.set_macro(ch, dynamic, cmd, value);
        self.chips.insert(chip_idx, inst);
        proof {
            assert(forall|i: int| 0 <= i < self.chips@.len() ==> (#[trigger] self.chips@[
                i
            ]).chip.wf());
        }
        r
    }

    /// Route a note-on to a chip.
    fn chip_note_on(&mut self, chip_idx: usize, ch: usize, note: i32, octave: i32, dur: i32) -> (r:
        Option<event::ChipEvent>)
        requires
            old(self).wf(),
            chip_idx < old(self).chips@.len(),
        ensures
            final(self).wf(),
            final(self).events == old(self).events,
            final(self).total_samples == old(self).total_samples,
            final(self).channels == old(self).channels,
            final(self).chips@.len() == old(self).chips@.len(),
            r is Some,
    {
        let mut inst = self.chips.remove(chip_idx);
        let r = inst.chip.note_on(ch, note, octave, dur);
        self.chips.insert(chip_idx, inst);
        proof {
            assert(forall|i: int| 0 <= i < self.chips@.len() ==> (#[trigger] self.chips@[
                i
            ]).chip.wf());
        }
        r
    }

    /// Route a pitch change to a chip.
    fn chip_note_change(&mut self, chip_idx: usize, ch: usize, note: i32, octave: i32) -> (r:
        Option<event::ChipEvent>)
        requires
            old(self).wf(),
            chip_idx < old(self).chips@.len(),
        ensures
            final(self).wf(),
            final(self).events == old(self).events,
            final(self).total_samples == old(self).total_samples,
            final(self).channels == old(self).channels,
            final(self).chips@.len() == old(self).chips@.len(),
            r is Some,
    {
        let mut inst = self.chips.remove(chip_idx);
        let r = inst.chip.note_change(ch, note, octave);
        self.chips.insert(chip_idx, inst);
        proof {
            assert(forall|i: int| 0 <= i < self.chips@.len() ==> (#[trigger] self.chips@[
                i
            ]).chip.wf());
        }
        r
    }

    /// Route a note-off to a chip.
    fn chip_note_off(&mut self, chip_idx: usize, ch: usize, note: i32, octave: i32) -> (r: Option<
        event::ChipEvent,
    >)
        requires
            old(self).wf(),
            chip_idx < old(self).chips@.len(),
        ensures
            final(self).wf(),
            final(self).events == old(self).events,
            final(self).total_samples == old(self).total_samples,
            final(self).channels == old(self).channels,
            final(self).chips@.len() == old(self).chips@.len(),
            r is Some,
    {
        let mut inst = self.chips.remove(chip_idx);
        let r = inst.chip.note_off(ch, note, octave);
        self.chips.insert(chip_idx, inst);
        proof {
            assert(forall|i: int| 0 <= i < self.chips@.len() ==> (#[trigger] self.chips@[
                i
            ]).chip.wf());
        }
        r
    }

    /// Route a rest to a chip.
    fn chip_rest(&mut self, chip_idx: usize, ch: usize, dur: i32) -> (r: Option<event::ChipEvent>)
        requires
            old(self).wf(),
            chip_idx < old(self).chips@.len(),
        ensures
            final(self).wf(),
            final(self).events == old(self).events,
            final(self).total_samples == old(self).total_samples,
            final(self).channels == old(self).channels,
            final(self).chips@.len() == old(self).chips@.len(),
    {
        let mut inst = self.chips.remove(chip_idx);
        let r = inst.chip.rest(ch, dur);
        self.chips.insert(chip_idx, inst);
        proof {
            assert(forall|i: int| 0 <= i < self.chips@.len() ==> (#[trigger] self.chips@[
                i
            ]).chip.wf());
        }
        r
    }

    /// Route a direct register write to a chip.
    fn chip_direct(&mut self, chip_idx: usize, ch: usize, addr: u16, value: u8) -> (r: Option<
        event::ChipEvent,
    >)
        requires
            old(self).wf(),
            chip_idx < old(self).chips@.len(),
        ensures
            final(self).wf(),
            final(self).events == old(self).events,
            final(self).total_samples == old(self).total_samples,
            final(self).channels == old(self).channels,
            final(self).chips@.len() == old(self).chips@.len(),
    {
        let mut inst = self.chips.remove(chip_idx);
        let r = inst.chip.direct(ch, addr, value);
        self.chips.insert(chip_idx, inst);
        proof {
            assert(forall|i: int| 0 <= i < self.chips@.len() ==> (#[trigger] self.chips@[
                i
            ]).chip.wf());
        }
        r
    }

    /// Record channel start on a chip.
    fn chip_start_channel(&mut self, chip_idx: usize, ch: usize, chip_sub: usize, chan_sub: usize)
        requires
            old(self).wf(),
            chip_idx < old(self).chips@.len(),
        ensures
            final(self).wf(),
            final(self).events == old(self).events,
            final(self).total_samples == old(self).total_samples,
            final(self).channels == old(self).channels,
            final(self).chips@.len() == old(self).chips@.len(),
    {
        let mut inst = self.chips.remove(chip_idx);
        inst.chip.start_channel(ch);
        inst.chip.start_channel_with_info(chip_sub, chan_sub);
        self.chips.insert(chip_idx, inst);
        proof {
            assert(forall|i: int| 0 <= i < self.chips@.len() ==> (#[trigger] self.chips@[
                i
            ]).chip.wf());
        }
    }

    /// The static chip parameters the note table needs.
    fn chip_params(&self, chip_idx: usize) -> (r: (i32, i32, i32))
        requires
            self.wf(),
            chip_idx < self.chips@.len(),
        ensures
            -64 < r.1 < 64,
    {
        match &self.chips[chip_idx].chip {
            c => (c.clock_div(), c.note_bits(), c.basic_octave()),
        }
    }

    /// Compile one channel's MML into events at sample times.
    ///
    /// Walks the channel text with a local state machine; a step budget
    /// bounds loop expansion.  The channel's duration is recorded from
    /// the final time, and the global total-sample count keeps tracking
    /// the highest event time queued.
    #[verifier::rlimit(100)]
    pub fn compile_channel(&mut self, chan_idx: usize) -> (r: Result<(), Error>)
        requires
            old(self).wf(),
            chan_idx < 52,
        ensures
            final(self).wf(),
            final(self).total_samples >= old(self).total_samples,
            old(self).events_bounded() ==> final(self).events_bounded(),
    {
        let (chip_idx, chip_sub, chan_sub, text) = match self.take_channel(chan_idx) {
            Some(ch) => (ch.chip_idx, ch.chip_sub, ch.chan_sub, ch.text),
            None => {
                return Ok(());
            },
        };

        let (clock_div, note_bits, basic_octave) = self.chip_params(chip_idx);

        // The note table for this chip.
        self.note_table = NoteTable::calculate(clock_div, note_bits, &self.note_freq, self.base_freq);

        // Reset per-channel routing state.
        let mut m: usize = 0;
        while m < 13
            invariant
                self.wf(),
                m <= 13,
                self.events == old(self).events,
                self.total_samples == old(self).total_samples,
                self.chips@.len() == old(self).chips@.len(),
            decreases 13 - m,
        {
            self.macro_use.set(m, -1);
            m = m + 1;
        }
        self.note_off_event = 0;
        self.sample_list = -1;

        self.chip_start_channel(chip_idx, chan_idx, chip_sub, chan_sub);

        let mut st = ChannelState2::new();
        let mut pos: usize = 0;
        let mut fuel: u64 = 100000000;

        while pos < text.len() && fuel > 0
            invariant
                self.wf(),
                self.chips@.len() == old(self).chips@.len(),
                chip_idx < self.chips@.len(),
                chan_idx < 52,
                -64 < note_bits < 64,
                st.wf(),
                pos <= text@.len(),
                self.total_samples >= old(self).total_samples,
                old(self).events_bounded() ==> self.events_bounded(),
            decreases fuel,
        {
            fuel = fuel - 1;
            let stop = self.compile_step(
                &mut st,
                &text,
                &mut pos,
                chan_idx,
                chip_idx,
                clock_div,
                note_bits,
                basic_octave,
            );
            if stop {
                break;
            }
        }

        // Flush the final pending note.
        self.send_note_if_pending(&mut st, chan_idx, chip_idx, clock_div, note_bits, basic_octave);

        // Record the duration and loop point on the channel.
        match self.take_channel(chan_idx) {
            Some(mut ch) => {
                ch.duration = st.time;
                ch.loop_point = st.chan_loop;
                self.put_channel(chan_idx, ch);
            },
            None => {},
        }
        Ok(())
    }


    /// One step of channel compilation: dispatch the construct at the
    /// current position.  Returns whether compilation should stop.
    #[verifier::rlimit(100)]
    fn compile_step(
        &mut self,
        st: &mut ChannelState2,
        text: &Vec<char>,
        pos: &mut usize,
        chan_idx: usize,
        chip_idx: usize,
        clock_div: i32,
        note_bits: i32,
        basic_octave: i32,
    ) -> (stop: bool)
        requires
            old(self).wf(),
            chan_idx < 52,
            chip_idx < old(self).chips@.len(),
            old(st).wf(),
            -64 < note_bits < 64,
            *old(pos) < text@.len(),
        ensures
            final(self).wf(),
            final(st).wf(),
            final(self).chips@.len() == old(self).chips@.len(),
            final(self).total_samples >= old(self).total_samples,
            *final(pos) <= text@.len(),
            final(st).time + final(st).current_len >= old(st).time + old(st).current_len
                || final(st).time == i64::MAX,
            old(self).events_bounded() ==> final(self).events_bounded(),
    {
        let _n: usize = text.len();
        let b = text[*pos];

        if 'a' <= b && b <= 'j' {
            // A lettered note, with accidentals, length and dots.
            self.send_note_if_pending(st, chan_idx, chip_idx, clock_div, note_bits, basic_octave);
            let note_idx = (b as usize) - ('a' as usize);
            st.current_note = clamp_i32(
                (mul_clamped(st.octave, self.octave_count) as i64)
                    + (self.note_letter[note_idx] as i64) + (st.transpose as i64),
            );
            st.current_len = st.default_len;
            *pos = *pos + 1;
            self.read_note_params(text, pos, st, true);
        } else if b == 'r' {
            // A rest.
            self.send_note_if_pending(st, chan_idx, chip_idx, clock_div, note_bits, basic_octave);
            st.current_len = st.default_len;
            *pos = *pos + 1;
            self.read_note_params(text, pos, st, false);
            st.current_note = -1;
        } else if b == 'w' {
            // A wait: advance time without a note-off.
            self.send_note_if_pending(st, chan_idx, chip_idx, clock_div, note_bits, basic_octave);
            st.current_len = st.default_len;
            *pos = *pos + 1;
            self.read_note_params(text, pos, st, false);
            st.current_note = -2;
        } else if b == 'n' {
            // A note by number.
            self.send_note_if_pending(st, chan_idx, chip_idx, clock_div, note_bits, basic_octave);
            *pos = *pos + 1;
            let v = read_num(text, pos);
            st.current_note = clamp_i32(add_sat_any(v, st.transpose as i64));
            st.current_len = st.default_len;
            self.read_note_params(text, pos, st, true);
        } else if b == 'l' {
            // Set the default length.
            *pos = *pos + 1;
            st.default_len = self.read_len(text, pos, st.tempo);
        } else if b == '^' {
            // A tie extends the pending note.
            *pos = *pos + 1;
            let mut tie_len = st.default_len;
            self.read_len_params(text, pos, &mut tie_len, st.tempo);
            st.current_len = sat_add(st.current_len, tie_len);
        } else if b == '&' {
            // Slur: suppress the next note-off.
            *pos = *pos + 1;
            st.kind = st.kind | 1;
        } else if b == '/' {
            // Legato.
            *pos = *pos + 1;
            st.kind = st.kind | 2;
        } else if b == 'o' {
            *pos = *pos + 1;
            let v = read_num(text, pos);
            st.octave = clamp_i32(v);
        } else if b == '>' {
            *pos = *pos + 1;
            if st.octave < 1000 {
                st.octave = st.octave + 1;
            }
        } else if b == '<' {
            *pos = *pos + 1;
            if st.octave > -1000 {
                st.octave = st.octave - 1;
            }
        } else if b == 't' {
            // Tempo in beats per minute, for subsequent lengths.
            *pos = *pos + 1;
            let v = read_num(text, pos);
            if v > 0 && v < 100000 {
                st.tempo = v as i32;
            }
        } else if b == 'D' {
            self.send_note_if_pending(st, chan_idx, chip_idx, clock_div, note_bits, basic_octave);
            *pos = *pos + 1;
            st.detune = read_num(text, pos);
        } else if b == 'K' {
            self.send_note_if_pending(st, chan_idx, chip_idx, clock_div, note_bits, basic_octave);
            *pos = *pos + 1;
            let v = read_num(text, pos);
            st.transpose = clamp_i32(v);
        } else if b == '!' {
            return true;
        } else if b == 'L' {
            // Mark the channel's loop-return point.
            self.send_note_if_pending(st, chan_idx, chip_idx, clock_div, note_bits, basic_octave);
            st.chan_loop = st.time;
            self.loop_on = true;
            self.loop_point = st.time;
            *pos = *pos + 1;
        } else {
            return self.compile_step_rest(
                st,
                text,
                pos,
                chan_idx,
                chip_idx,
                clock_div,
                note_bits,
                basic_octave,
            );
        }
        false
    }

    /// The remaining constructs of one compilation step: quantize,
    /// loops, conditionals, arpeggio, direct writes, tuplets, phase
    /// groups and named macro commands.
    #[verifier::rlimit(100)]
    fn compile_step_rest(
        &mut self,
        st: &mut ChannelState2,
        text: &Vec<char>,
        pos: &mut usize,
        chan_idx: usize,
        chip_idx: usize,
        clock_div: i32,
        note_bits: i32,
        basic_octave: i32,
    ) -> (stop: bool)
        requires
            old(self).wf(),
            chan_idx < 52,
            chip_idx < old(self).chips@.len(),
            old(st).wf(),
            -64 < note_bits < 64,
            *old(pos) < text@.len(),
        ensures
            final(self).wf(),
            final(st).wf(),
            final(self).chips@.len() == old(self).chips@.len(),
            final(self).total_samples >= old(self).total_samples,
            *final(pos) <= text@.len(),
            final(st).time + final(st).current_len >= old(st).time + old(st).current_len
                || final(st).time == i64::MAX,
            old(self).events_bounded() ==> final(self).events_bounded(),
    {
        let _n: usize = text.len();
        let b = text[*pos];
        if b == '@' && text.len() - *pos > 1 && text[*pos + 1] == 'q' {
            // Quantize: shorten the sounding length.
            self.send_note_if_pending(st, chan_idx, chip_idx, clock_div, note_bits, basic_octave);
            *pos = *pos + 2;
            let qa = read_num(text, pos);
            let qb = read_num(text, pos);
            let qa_c: i32 = if qa >= 0 && qa < 0x100000 {
                qa as i32
            } else {
                0
            };
            let prod = chips::mul_i32(qa_c, self.framerate);
            let qb_c: i64 = if qb >= -0x100000 && qb < 0x100000 {
                qb
            } else {
                0
            };
            let q = prod - qb_c;
            st.quantize = if q >= 0 {
                q
            } else {
                0
            };
        } else if b == '[' {
            // Open a counted loop.
            if st.loop_depth < 127 {
                st.loop_depth = st.loop_depth + 1;
                *pos = *pos + 1;
                let d = st.loop_depth as usize;
                st.loop_start.set(d, *pos);
                st.loop_end.set(d, 0);
                st.loop_count.set(d, 0);
            } else {
                *pos = *pos + 1;
            }
        } else if b == ']' {
            // Close a counted loop, repeating as asked.
            if st.loop_depth >= 0 {
                let d = st.loop_depth as usize;
                st.loop_end.set(d, *pos);
                *pos = *pos + 1;
                let rep = read_num(text, pos);
                let repeat: i32 = if rep > 0 && rep < 0x10000 {
                    rep as i32
                } else {
                    1
                };
                let cnt = if st.loop_count[d] < 0x7FFFFFFF {
                    st.loop_count[d] + 1
                } else {
                    st.loop_count[d]
                };
                st.loop_count.set(d, cnt);
                if cnt < repeat {
                    *pos = st.loop_start[d];
                    if *pos > text.len() {
                        *pos = text.len();
                    }
                } else {
                    st.loop_depth = st.loop_depth - 1;
                }
            } else {
                *pos = *pos + 1;
            }
        } else if b == '\\' {
            // Break out of the innermost loop's remaining passes.
            if st.loop_depth >= 0 {
                let d = st.loop_depth as usize;
                if st.loop_end[d] != 0 && st.loop_end[d] <= text.len() {
                    *pos = st.loop_end[d];
                } else {
                    *pos = *pos + 1;
                }
            } else {
                *pos = *pos + 1;
            }
        } else if b == '?' {
            // Conditional span: include only on the named channel.
            *pos = *pos + 1;
            if *pos < text.len() {
                let cond_ch = text[*pos];
                *pos = *pos + 1;
                let matches_self = match channel_index(cond_ch) {
                    Ok(ci) => ci == chan_idx,
                    Err(_) => false,
                };
                if cond_ch != '.' && !matches_self {
                    while *pos < text.len() && text[*pos] != '?'
                        invariant
                            *pos <= text@.len(),
                        decreases text@.len() - *pos,
                    {
                        *pos = *pos + 1;
                    }
                }
            }
        } else if b == 'E' && text.len() - *pos > 3 && text[*pos + 1] == 'N' && text[*pos + 2]
            == 'O' && text[*pos + 3] == 'F' {
            // Arpeggio off.
            self.send_note_if_pending(st, chan_idx, chip_idx, clock_div, note_bits, basic_octave);
            *pos = *pos + 4;
            self.macro_use.set(4, -1);
        } else if b == 'E' && text.len() - *pos > 1 && text[*pos + 1] == 'N' {
            // Arpeggio on.
            self.send_note_if_pending(st, chan_idx, chip_idx, clock_div, note_bits, basic_octave);
            *pos = *pos + 2;
            let v = read_num(text, pos);
            self.macro_use.set(4, clamp_i32(v));
        } else if b == 'x' {
            // Direct register write through the driver.
            self.send_note_if_pending(st, chan_idx, chip_idx, clock_div, note_bits, basic_octave);
            *pos = *pos + 1;
            let a64 = read_num(text, pos);
            let v64 = read_num(text, pos);
            let addr = clamp_u16_wrap(a64);
            let val = clamp_u8_wrap(v64);
            match self.chip_direct(chip_idx, chan_idx, addr, val) {
                Some(ev) => {
                    self.insert_event(st.time, chan_idx, ev);
                },
                None => {},
            }
        } else if b == 'y' {
            // A raw VGM byte at the current time.
            self.send_note_if_pending(st, chan_idx, chip_idx, clock_div, note_bits, basic_octave);
            *pos = *pos + 1;
            let v64 = read_num(text, pos);
            let val = clamp_u8_wrap(v64);
            self.insert_raw(st.time, val);
        } else if is_tuplet_open(b) {
            // Tuplet: scale the default length by two thirds.
            *pos = *pos + 1;
            st.default_len = st.default_len / 3 * 2;
        } else if is_tuplet_close(b) {
            // Tuplet end: scale back by three halves.
            *pos = *pos + 1;
            st.default_len = if st.default_len <= 0x2000000000000000 {
                st.default_len * 3 / 2
            } else {
                st.default_len
            };
        } else if b == 'N' && text.len() - *pos > 2 && text[*pos + 1] == 'O' && text[*pos + 2]
            == 'E' {
            // Note-off event mode.
            self.send_note_if_pending(st, chan_idx, chip_idx, clock_div, note_bits, basic_octave);
            *pos = *pos + 3;
            let v = read_num(text, pos);
            self.note_off_event = clamp_i32(v);
        } else if b == '@' && text.len() - *pos > 1 && is_group_open(text[*pos + 1]) {
            // Phase-group assignment.
            self.send_note_if_pending(st, chan_idx, chip_idx, clock_div, note_bits, basic_octave);
            *pos = *pos + 2;
            let mut ph: i32 = 0;
            let mut pc: i32 = 0;
            while *pos < text.len() && !is_group_close(text[*pos])
                invariant
                    *pos <= text@.len(),
                    0 <= pc <= 10000,
                    0 <= ph <= pc,
                decreases text@.len() - *pos,
            {
                let is_self = match channel_index(text[*pos]) {
                    Ok(ci) => ci == chan_idx,
                    Err(_) => false,
                };
                if is_self {
                    ph = pc;
                }
                if pc < 10000 {
                    pc = pc + 1;
                }
                *pos = *pos + 1;
            }
            st.phase = ph;
            st.phase_count = if pc > 0 {
                pc + 1
            } else {
                1
            };
            st.phase_counter = 0;
            if *pos < text.len() && is_group_close(text[*pos]) {
                *pos = *pos + 1;
            }
        } else if b == '@' && text.len() - *pos > 1 && text[*pos + 1] == '!' {
            // Fast-forward.
            self.send_note_if_pending(st, chan_idx, chip_idx, clock_div, note_bits, basic_octave);
            *pos = *pos + 2;
            let v = read_num(text, pos);
            if v >= 0 && v < 0x10000000 {
                let prod = chips::mul_i32(v as i32, self.framerate);
                let ff = sub_sat(st.time, prod);
                self.fast_forward = if ff >= 0 {
                    ff
                } else {
                    0
                };
            }
        } else if b == '@' && text.len() - *pos > 1 && text[*pos + 1] == 'w' {
            // Wait a number of frames.
            self.send_note_if_pending(st, chan_idx, chip_idx, clock_div, note_bits, basic_octave);
            *pos = *pos + 2;
            let x = read_num(text, pos);
            let y = read_num(text, pos);
            if x > 0 && x < 0x10000000 && y >= 0 && y < 63 {
                let prod = chips::mul_i32(x as i32, self.framerate);
                let amount = prod / pow2_i64(y);
                if amount >= 0 {
                    st.time = sat_add(st.time, amount);
                }
            }
        } else if b == '@' && text.len() - *pos > 1 && text[*pos + 1] == '/' {
            // Portamento parameters.
            *pos = *pos + 2;
            let ghost ev0 = self.events@;
            let mut pi: usize = 0;
            while pi < 8
                invariant
                    self.wf(),
                    *pos <= text@.len(),
                    pi <= 8,
                    self.events@ == ev0,
                    self.total_samples == old(self).total_samples,
                    self.chips@.len() == old(self).chips@.len(),
                decreases 8 - pi,
            {
                let v = read_num(text, pos);
                self.portamento.set(pi, v);
                pi = pi + 1;
            }
        } else if b >= '@' {
            // A named macro command: static sets go to the driver,
            // dynamic names activate an envelope.
            self.send_note_if_pending(st, chan_idx, chip_idx, clock_div, note_bits, basic_octave);

            let mut name: Vec<char> = Vec::new();
            while *pos < text.len() && text[*pos] >= '@' && name.len() < 7
                invariant
                    *pos <= text@.len(),
                    name@.len() <= 7,
                decreases text@.len() - *pos,
            {
                name.push(text[*pos]);
                *pos = *pos + 1;
            }

            let v64 = read_num(text, pos);
            let value = clamp_i16_wrap(v64);

            match MacroType::from_stat_chars(&name) {
                Some(mt) => {
                    let mi = mt.index();
                    self.macro_use.set(mi, -1);
                    let mac_cmd = stat_macro_command(mt);
                    match self.chip_set_macro(chip_idx, chan_idx, false, mac_cmd, value) {
                        Some(ev) => {
                            self.insert_event(st.time, chan_idx, ev);
                        },
                        None => {},
                    }
                },
                None => {
                    match MacroType::from_dyn_chars(&name) {
                        Some(mt) => {
                            let mi = mt.index();
                            let idv = ((value as i32) % 256 + 256) % 256;
                            self.macro_use.set(mi, idv);
                        },
                        None => {},
                    }
                },
            }
        } else {
            *pos = *pos + 1;
        }

        false
    }

    /// Insert a chip event at a time, raising the total sample count
    /// to it when it is the latest yet queued.
    fn insert_event(&mut self, time: i64, chan_idx: usize, ev: event::ChipEvent)
        requires
            old(self).wf(),
            time >= 0,
            chan_idx < 52,
        ensures
            final(self).wf(),
            final(self).total_samples >= old(self).total_samples,
            final(self).chips == old(self).chips,
            final(self).channels == old(self).channels,
            final(self).events@.len() == old(self).events@.len() + 1,
            old(self).events_bounded() ==> final(self).events_bounded(),
    {
        #[verifier::truncate]
        let ci = chan_idx as i8;
        let e = Event::new(time, ci, EventData::Chip(ev));
        let ghost pre = self.events@;
        let ghost pre_total = self.total_samples as int;
        self.events.insert(e);
        if time > self.total_samples {
            self.total_samples = time;
        }
        proof {
            event::lemma_insert_pos_bounds(pre, time);
            let p = event::insert_pos(pre, e.time);
            assert(self.events@ == pre.insert(p, e));
            if events_le(pre, pre_total) && (pre.len() == 0 ==> pre_total == 0) && (pre.len() > 0
                ==> exists|i: int| 0 <= i < pre.len() && (#[trigger] pre[i]).time == pre_total) {
                let nt = self.total_samples as int;
                assert forall|i: int| 0 <= i < self.events@.len() implies (#[trigger] self.events@[
                    i
                ]).time <= nt by {
                    if i < p {
                        assert(self.events@[i] == pre[i]);
                    } else if i == p {
                    } else {
                        assert(self.events@[i] == pre[i - 1]);
                    }
                }
                if time >= pre_total {
                    assert(self.events@[p].time == nt);
                } else {
                    assert(pre.len() > 0);
                    let j = choose|j: int| 0 <= j < pre.len() && (#[trigger] pre[j]).time
                        == pre_total;
                    if j < p {
                        assert(self.events@[j] == pre[j]);
                        assert(self.events@[j].time == nt);
                    } else {
                        assert(self.events@[j + 1] == pre[j]);
                        assert(self.events@[j + 1].time == nt);
                    }
                }
            }
            assert(events_nonneg(self.events@)) by {
                let p = event::insert_pos(pre, e.time);
                assert forall|i: int| 0 <= i < self.events@.len() implies (#[trigger] self.events@[
                    i
                ]).time >= 0 by {
                    if i < p {
                        assert(self.events@[i] == pre[i]);
                    } else if i > p {
                        assert(self.events@[i] == pre[i - 1]);
                    }
                }
            }
        }
    }

    /// Insert a raw VGM byte event, raising the total sample count to
    /// its time when it is the latest yet queued.
    fn insert_raw(&mut self, time: i64, val: u8)
        requires
            old(self).wf(),
            time >= 0,
        ensures
            final(self).wf(),
            final(self).total_samples >= old(self).total_samples,
            final(self).chips == old(self).chips,
            final(self).channels == old(self).channels,
            final(self).events@.len() == old(self).events@.len() + 1,
            old(self).events_bounded() ==> final(self).events_bounded(),
    {
        let e = Event::raw(time, val);
        let ghost pre = self.events@;
        let ghost pre_total = self.total_samples as int;
        self.events.insert(e);
        if time > self.total_samples {
            self.total_samples = time;
        }
        proof {
            event::lemma_insert_pos_bounds(pre, time);
            let p = event::insert_pos(pre, e.time);
            assert(self.events@ == pre.insert(p, e));
            if events_le(pre, pre_total) && (pre.len() == 0 ==> pre_total == 0) && (pre.len() > 0
                ==> exists|i: int| 0 <= i < pre.len() && (#[trigger] pre[i]).time == pre_total) {
                let nt = self.total_samples as int;
                assert forall|i: int| 0 <= i < self.events@.len() implies (#[trigger] self.events@[
                    i
                ]).time <= nt by {
                    if i < p {
                        assert(self.events@[i] == pre[i]);
                    } else if i == p {
                    } else {
                        assert(self.events@[i] == pre[i - 1]);
                    }
                }
                if time >= pre_total {
                    assert(self.events@[p].time == nt);
                } else {
                    assert(pre.len() > 0);
                    let j = choose|j: int| 0 <= j < pre.len() && (#[trigger] pre[j]).time
                        == pre_total;
                    if j < p {
                        assert(self.events@[j] == pre[j]);
                        assert(self.events@[j].time == nt);
                    } else {
                        assert(self.events@[j + 1] == pre[j]);
                        assert(self.events@[j + 1].time == nt);
                    }
                }
            }
            assert(events_nonneg(self.events@)) by {
                let p = event::insert_pos(pre, e.time);
                assert forall|i: int| 0 <= i < self.events@.len() implies (#[trigger] self.events@[
                    i
                ]).time >= 0 by {
                    if i < p {
                        assert(self.events@[i] == pre[i]);
                    } else if i > p {
                        assert(self.events@[i] == pre[i - 1]);
                    }
                }
            }
        }
    }

    /// Read a length denominator with dots.
    fn read_len(&self, text: &Vec<char>, pos: &mut usize, tempo: i32) -> (r: i64)
        requires
            self.wf(),
            *old(pos) <= text@.len(),
            tempo > 0,
        ensures
            *final(pos) <= text@.len(),
            *final(pos) >= *old(pos),
            r >= 0,
    {
        let x64 = read_num(text, pos);
        let mut dots: i32 = 0;
        while *pos < text.len() && text[*pos] == '.'
            invariant
                *old(pos) <= *pos <= text@.len(),
                0 <= dots <= 64,
            decreases text@.len() - *pos,
        {
            if dots < 64 {
                dots = dots + 1;
            }
            *pos = *pos + 1;
        }
        if x64 > 0 && x64 <= 0x7FFFFFFF {
            calc_note_length(tempo, x64 as i32, dots)
        } else {
            0
        }
    }

    /// Read tie parameters: a length denominator with dots, extending
    /// `len` when present, halving-dots extending it otherwise.
    fn read_len_params(&self, text: &Vec<char>, pos: &mut usize, len: &mut i64, tempo: i32)
        requires
            self.wf(),
            *old(pos) <= text@.len(),
            *old(len) >= 0,
            tempo > 0,
        ensures
            *final(pos) <= text@.len(),
            *final(pos) >= *old(pos),
            *final(len) >= 0,
    {
        let len2 = *len;
        let x64 = read_num(text, pos);
        let mut dots: i32 = 0;
        while *pos < text.len() && text[*pos] == '.'
            invariant
                *old(pos) <= *pos <= text@.len(),
                0 <= dots <= 64,
            decreases text@.len() - *pos,
        {
            if dots < 64 {
                dots = dots + 1;
            }
            *pos = *pos + 1;
        }
        if x64 > 0 && x64 <= 0x7FFFFFFF {
            *len = calc_note_length(tempo, x64 as i32, dots);
        } else {
            let mut j = len2;
            let mut dd: i32 = 0;
            while dd < dots
                invariant
                    0 <= dd <= dots,
                    j >= 0,
                    *len >= 0,
                decreases dots - dd,
            {
                j = j / 2;
                *len = sat_add(*len, j);
                dd = dd + 1;
            }
        }
    }

    /// Read note modifiers: accidentals when `with_accidentals`, then a
    /// length with dots.
    fn read_note_params(
        &self,
        text: &Vec<char>,
        pos: &mut usize,
        st: &mut ChannelState2,
        with_accidentals: bool,
    )
        requires
            self.wf(),
            *old(pos) <= text@.len(),
            old(st).wf(),
        ensures
            *final(pos) <= text@.len(),
            *final(pos) >= *old(pos),
            final(st).wf(),
            final(st).time == old(st).time,
            final(st).tempo == old(st).tempo,
            final(st).quantize == old(st).quantize,
            final(st).kind == old(st).kind,
            final(st).detune == old(st).detune,
            final(st).phase == old(st).phase,
            final(st).phase_count == old(st).phase_count,
            final(st).phase_counter == old(st).phase_counter,
    {
        if with_accidentals && st.current_note >= 0 {
            while *pos < text.len() && (text[*pos] == '+' || text[*pos] == '-' || text[*pos]
                == '\'')
                invariant
                    self.wf(),
                    *old(pos) <= *pos <= text@.len(),
                    st.wf(),
                    st.time == old(st).time,
                    st.tempo == old(st).tempo,
                    st.quantize == old(st).quantize,
                    st.kind == old(st).kind,
                    st.detune == old(st).detune,
                    st.phase == old(st).phase,
                    st.phase_count == old(st).phase_count,
                    st.phase_counter == old(st).phase_counter,
                decreases text@.len() - *pos,
            {
                let c = text[*pos];
                if c == '+' {
                    st.current_note = clamp_i32(st.current_note as i64 + 1);
                } else if c == '-' {
                    st.current_note = clamp_i32(st.current_note as i64 - 1);
                } else {
                    st.current_note = clamp_i32(
                        st.current_note as i64 + self.octave_count as i64,
                    );
                }
                *pos = *pos + 1;
            }
        }

        let mut cl = st.current_len;
        self.read_len_params(text, pos, &mut cl, st.tempo);
        st.current_len = cl;
    }

    /// Emit the pending note or rest at the current time, stepping any
    /// active envelopes once per frame while it sounds, then advance
    /// time by its full length.  In a phase group, other channels'
    /// slots advance time silently.
    ///
    /// Every event this adds lies at or before the old time plus the
    /// pending length, and time advances by exactly that length.
    #[verifier::rlimit(100)]
    fn send_note_if_pending(
        &mut self,
        st: &mut ChannelState2,
        chan_idx: usize,
        chip_idx: usize,
        clock_div: i32,
        note_bits: i32,
        basic_octave: i32,
    )
        requires
            old(self).wf(),
            chan_idx < 52,
            chip_idx < old(self).chips@.len(),
            old(st).wf(),
            -64 < note_bits < 64,
        ensures
            final(self).wf(),
            final(st).wf(),
            final(self).chips@.len() == old(self).chips@.len(),
            final(self).total_samples >= old(self).total_samples,
            final(st).current_len == 0,
            final(st).time >= old(st).time,
            old(st).time + old(st).current_len <= i64::MAX ==> final(st).time == old(st).time
                + old(st).current_len,
            old(st).time + old(st).current_len > i64::MAX ==> final(st).time == i64::MAX,
            old(self).events_bounded() ==> final(self).events_bounded(),
            (old(st).current_len > 0 && old(st).phase_count <= 1 && old(st).current_note >= 0)
                ==> final(self).events@.len() > old(self).events@.len(),
    {
        if st.current_len == 0 {
            return;
        }
        let newt = sat_add(st.time, st.current_len);

        // Phase check: other slots in a phase group skip silently.
        if st.phase_count > 1 {
            let pc: i32 = if st.phase_counter >= st.phase_count - 1 {
                0
            } else {
                st.phase_counter + 1
            };
            st.phase_counter = pc;
            if pc != st.phase {
                st.time = sat_add(st.time, st.current_len);
                st.current_len = 0;
                st.kind = shift_kind(st.kind);
                return;
            }
        }

        let note = st.current_note;
        let dur = st.current_len;
        let detune = st.detune;
        let mut quantize = st.quantize;
        let kind = st.kind;

        // A slur disables quantize.
        if kind % 2 == 1 {
            quantize = 0;
        }

        if note == -1 {
            // A rest.
            let dur32 = clamp_i32(dur);
            match self.chip_rest(chip_idx, chan_idx, dur32) {
                Some(ev) => {
                    self.insert_event(st.time, chan_idx, ev);
                },
                None => {},
            }
        } else if note >= 0 {
            // A sounded note.
            let o1: i32 = note / self.octave_count;
            let n: i32 = note % self.octave_count;
            let v: i64 = if clock_div != 0 {
                let tv = self.note_table.get(n, o1, basic_octave, clock_div, note_bits);
                sub_sat(tv, detune)
            } else {
                n as i64
            };
            let v32 = clamp_i32(v);
            let d: i64 = if dur >= quantize {
                dur - quantize
            } else {
                0
            };

            // A sample list maps the note to a sample-set event.
            if self.sample_list >= 0 && self.sample_list < 256 {
                let sl = self.sample_list as usize;
                let sample_id: i16 = if note >= 0 && (note as usize)
                    < self.macro_env.env(11, sl).data.len() {
                    let nn = note as usize;
                    self.macro_env.env(11, sl).data[nn]
                } else {
                    0
                };
                match self.chip_set_macro(chip_idx, chan_idx, true, MacroCommand::Sample, sample_id) {
                    Some(ev) => {
                        self.insert_event(st.time, chan_idx, ev);
                    },
                    None => {},
                }
            }

            // In mode one, a note-off precedes the note-on.
            if self.note_off_event == 1 && (kind / 4) % 4 == 0 {
                match self.chip_note_off(chip_idx, chan_idx, v32, o1) {
                    Some(ev) => {
                        self.insert_event(st.time, chan_idx, ev);
                    },
                    None => {},
                }
            }

            // Note on, or change when slurred or legato.
            let d32 = clamp_i32(d);
            let ev0 = if (kind / 4) % 4 != 0 {
                self.chip_note_change(chip_idx, chan_idx, v32, o1)
            } else {
                self.chip_note_on(chip_idx, chan_idx, v32, o1, d32)
            };
            match ev0 {
                Some(ev) => {
                    self.insert_event(st.time, chan_idx, ev);
                },
                None => {},
            }
            let ghost en0 = self.events@.len();

            // Step the active envelopes once per frame while it sounds.
            let mut macro_indices: Vec<i32> = Vec::new();
            let mut mi: usize = 0;
            while mi < 13
                invariant
                    mi <= 13,
                    macro_indices@.len() == mi,
                decreases 13 - mi,
            {
                macro_indices.push(0);
                mi = mi + 1;
            }
            let mut t: i64 = st.time;
            let end: i64 = sat_add(st.time, d);
            proof {
                assert(end <= newt);
            }
            while t < end
                invariant
                    self.wf(),
                    st.wf(),
                    self.chips@.len() == old(self).chips@.len(),
                    chip_idx < self.chips@.len(),
                    chan_idx < 52,
                    -64 < note_bits < 64,
                    self.total_samples >= old(self).total_samples,
                    macro_indices@.len() == 13,
                    0 <= t,
                    st.time <= t,
                    end >= 0,
                    old(self).events_bounded() ==> self.events_bounded(),
                    self.events@.len() >= en0,
                decreases end - t,
            {
                let mut mk: usize = 0;
                while mk < 13
                    invariant
                        self.wf(),
                        st.wf(),
                        self.chips@.len() == old(self).chips@.len(),
                        chip_idx < self.chips@.len(),
                        chan_idx < 52,
                        -64 < note_bits < 64,
                        self.total_samples >= old(self).total_samples,
                        macro_indices@.len() == 13,
                        mk <= 13,
                        0 <= t < end,
                        old(self).events_bounded() ==> self.events_bounded(),
                        self.events@.len() >= en0,
                    decreases 13 - mk,
                {
                    let use_id = self.macro_use[mk];
                    let idx0 = macro_indices[mk];
                    if use_id >= 0 && use_id < 256 && idx0 >= 0 {
                        let env_len = self.macro_env.env(mk, use_id as usize).data.len();
                        if (idx0 as usize) < env_len {
                            let val = self.macro_env.env(mk, use_id as usize).data[idx0 as usize];
                            if mk == 4 {
                                // Arpeggio: re-emit a note change at the
                                // shifted pitch.
                                if val != 0 {
                                    let arp_note = clamp_i32(note as i64 + val as i64);
                                    if arp_note >= 0 {
                                        let ao1 = arp_note / self.octave_count;
                                        let an = arp_note % self.octave_count;
                                        let av: i64 = if clock_div != 0 {
                                            let tv = self.note_table.get(
                                                an,
                                                ao1,
                                                basic_octave,
                                                clock_div,
                                                note_bits,
                                            );
                                            sub_sat(tv, detune)
                                        } else {
                                            an as i64
                                        };
                                        let av32 = clamp_i32(av);
                                        match self.chip_note_change(chip_idx, chan_idx, av32, ao1) {
                                            Some(ev) => {
                                                self.insert_event(t, chan_idx, ev);
                                            },
                                            None => {},
                                        }
                                    }
                                }
                            } else {
                                match dyn_macro_command(mk) {
                                    Some(mc) => {
                                        match self.chip_set_macro(
                                            chip_idx,
                                            chan_idx,
                                            true,
                                            mc,
                                            val,
                                        ) {
                                            Some(ev) => {
                                                self.insert_event(t, chan_idx, ev);
                                            },
                                            None => {},
                                        }
                                    },
                                    None => {},
                                }
                            }

                            // Advance this envelope, wrapping at its loop.
                            let next = if idx0 < 0x7FFFFFFF {
                                idx0 + 1
                            } else {
                                idx0
                            };
                            let le = self.macro_env.env(mk, use_id as usize).loop_end;
                            let ls = self.macro_env.env(mk, use_id as usize).loop_start;
                            if next >= le {
                                macro_indices.set(mk, ls);
                            } else {
                                macro_indices.set(mk, next);
                            }
                        }
                    }
                    mk = mk + 1;
                }
                proof {
                    assert(t < end);
                    assert(self.framerate >= 1);
                }
                let t2 = sat_add(t, self.framerate as i64);
                proof {
                    assert(t2 > t);
                }
                t = if t2 > end {
                    end
                } else {
                    t2
                };
            }

            // In mode zero, the note-off follows at the note's end.
            if self.note_off_event == 0 && kind % 4 == 0 {
                match self.chip_note_off(chip_idx, chan_idx, v32, o1) {
                    Some(ev) => {
                        self.insert_event(end, chan_idx, ev);
                    },
                    None => {},
                }
            }
        }

        st.time = newt;
        st.current_len = 0;
        st.kind = shift_kind(st.kind);
    }

    /// Compile every declared channel.
    pub fn compile_channels(&mut self) -> (r: Result<(), Error>)
        requires
            old(self).wf(),
        ensures
            final(self).wf(),
            old(self).events_bounded() ==> final(self).events_bounded(),
    {
        let mut i: usize = 0;
        while i < MAX_CHANNELS
            invariant
                self.wf(),
                i <= MAX_CHANNELS,
                old(self).events_bounded() ==> self.events_bounded(),
            decreases MAX_CHANNELS - i,
        {
            let has = match &self.channels[i] {
                Some(_) => true,
                None => false,
            };
            if has {
                match self.compile_channel(i) {
                    Ok(_) => {},
                    Err(e) => {
                        return Err(e);
                    },
                }
            }
            i = i + 1;
        }
        Ok(())
    }

    /// Replay the merged event queue into the writer: a delay before
    /// each event, the loop mark at the loop point, the drivers'
    /// boot-time and final writes, the header totals, and the GD3
    /// block.  On return the writer holds the complete file image.
    pub fn write_output(&mut self, writer: &mut VgmWriter)
        requires
            old(self).wf(),
            old(self).events_bounded(),
            old(writer).wf(),
        ensures
            final(self).wf(),
            final(writer).wf(),
            final(self).gd3_text == old(self).gd3_text,
            ({
                let t: int = if old(self).total_samples >= old(self).fast_forward {
                    old(self).total_samples - old(self).fast_forward
                } else {
                    0
                };
                let l: int = if t >= old(self).loop_point {
                    t - old(self).loop_point
                } else {
                    0
                };
                &&& (t < 0x100000000 ==> header::le32(
                    final(writer).header_view(),
                    header::TOTAL_SAMPLES as int,
                ) == t)
                &&& (l < 0x100000000 ==> header::le32(
                    final(writer).header_view(),
                    header::LOOP_SAMPLES as int,
                ) == l)
            }),
            header::le32(final(writer).header_view(), header::RATE as int) == (if old(
                self,
            ).recording_rate >= 0 {
                old(self).recording_rate as int
            } else {
                0int
            }),
            final(writer).header_view()[header::VOLUME_MODIFIER as int] == ({
                let v = old(self).volume_mod;
                let vm: i8 = if v == -64 {
                    -63i8
                } else if -128 <= v && v <= 127 {
                    v as i8
                } else {
                    0i8
                };
                vm as u8
            }),
            final(writer).header_view()[header::LOOP_BASE as int] == old(self).loop_base as u8,
            final(writer).header_view()[header::LOOP_MODIFIER as int] == old(self).loop_mod,
            exists|mid: Seq<u8>| final(writer).data_view() == mid + seq![delay::END] + old(
                self,
            ).spec_gd3_bytes(),
    {
        // The drivers' boot-time writes.
        let mut ci: usize = 0;
        while ci < self.chips.len()
            invariant
                self.wf(),
                writer.wf(),
                ci <= self.chips@.len(),
                self.total_samples == old(self).total_samples,
                self.fast_forward == old(self).fast_forward,
                self.loop_point == old(self).loop_point,
                self.loop_on == old(self).loop_on,
                self.events == old(self).events,
                self.gd3_text == old(self).gd3_text,
                self.recording_rate == old(self).recording_rate,
                self.volume_mod == old(self).volume_mod,
                self.loop_base == old(self).loop_base,
                self.loop_mod == old(self).loop_mod,
            decreases self.chips@.len() - ci,
        {
            let mut inst = self.chips.remove(ci);
            inst.chip.file_begin(writer);
            self.chips.insert(ci, inst);
            proof {
                assert(forall|i: int| 0 <= i < self.chips@.len() ==> (#[trigger] self.chips@[
                    i
                ]).chip.wf());
            }
            ci = ci + 1;
        }

        // Replay events in time order, with delays between them.
        let evs: Vec<Event> = copy_events(self.events.iter());
        let ghost evs_seq = evs@;
        let mut current_time: i64 = 0;
        let mut loop_pending = self.loop_on;
        let mut k: usize = 0;
        while k < evs.len()
            invariant
                self.wf(),
                writer.wf(),
                evs@ == evs_seq,
                k <= evs@.len(),
                current_time >= 0,
                self.total_samples == old(self).total_samples,
                self.fast_forward == old(self).fast_forward,
                self.loop_point == old(self).loop_point,
                self.gd3_text == old(self).gd3_text,
                self.recording_rate == old(self).recording_rate,
                self.volume_mod == old(self).volume_mod,
                self.loop_base == old(self).loop_base,
                self.loop_mod == old(self).loop_mod,
                events_le(evs_seq, self.total_samples as int),
                events_nonneg(evs_seq),
                current_time <= imax(self.total_samples as int, 0),
            decreases evs@.len() - k,
        {
            let e = evs[k];
            proof {
                assert(evs_seq[k as int].time <= self.total_samples);
                assert(evs_seq[k as int].time >= 0);
            }

            // The loop mark goes in just before the first event at or
            // past the loop point.
            if loop_pending && self.loop_point >= current_time && self.loop_point <= e.time {
                let delay = self.loop_point - current_time;
                if delay > 0 {
                    writer.write_delay(delay as u64);
                }
                if writer.position_fits() {
                    writer.mark_loop_start();
                }
                current_time = self.loop_point;
                let mut cj: usize = 0;
                while cj < self.chips.len()
                    invariant
                        self.wf(),
                        writer.wf(),
                        cj <= self.chips@.len(),
                        self.total_samples == old(self).total_samples,
                        self.fast_forward == old(self).fast_forward,
                        self.loop_point == old(self).loop_point,
                        self.gd3_text == old(self).gd3_text,
                        self.recording_rate == old(self).recording_rate,
                        self.volume_mod == old(self).volume_mod,
                        self.loop_base == old(self).loop_base,
                        self.loop_mod == old(self).loop_mod,
                    decreases self.chips@.len() - cj,
                {
                    let mut inst = self.chips.remove(cj);
                    inst.chip.loop_start(writer);
                    self.chips.insert(cj, inst);
                    proof {
                        assert(forall|i: int| 0 <= i < self.chips@.len() ==> (
                        #[trigger] self.chips@[i]).chip.wf());
                    }
                    cj = cj + 1;
                }
                loop_pending = false;
            }

            // The delay to this event.
            if e.time > current_time {
                let delay = e.time - current_time;
                writer.write_delay(delay as u64);
                current_time = e.time;
            }

            // The event itself.
            match e.data {
                EventData::Raw(byte) => {
                    writer.write_byte(byte);
                },
                EventData::Chip(chip_event) => {
                    if e.channel >= 0 && (e.channel as usize) < 52 {
                        let chan_idx = e.channel as usize;
                        let info = match &self.channels[chan_idx] {
                            Some(ch) => Some((ch.chip_idx, ch.chip_sub, ch.chan_sub)),
                            None => None,
                        };
                        match info {
                            Some((chip_idx, chip_sub, chan_sub)) => {
                                let mut inst = self.chips.remove(chip_idx);
                                inst.chip.send_with_macro_env(
                                    &chip_event,
                                    chan_idx,
                                    chip_sub,
                                    chan_sub,
                                    writer,
                                    &self.macro_env,
                                );
                                self.chips.insert(chip_idx, inst);
                                proof {
                                    assert(forall|i: int| 0 <= i < self.chips@.len() ==> (
                                    #[trigger] self.chips@[i]).chip.wf());
                                }
                            },
                            None => {},
                        }
                    }
                },
            }
            k = k + 1;
        }

        // The final delay out to the total length.
        if self.total_samples > current_time {
            let fdelay = self.total_samples - current_time;
            writer.write_delay(fdelay as u64);
        }

        // The drivers' header fixups.
        let mut cf: usize = 0;
        while cf < self.chips.len()
            invariant
                self.wf(),
                writer.wf(),
                cf <= self.chips@.len(),
                self.total_samples == old(self).total_samples,
                self.fast_forward == old(self).fast_forward,
                self.loop_point == old(self).loop_point,
                self.gd3_text == old(self).gd3_text,
                self.recording_rate == old(self).recording_rate,
                self.volume_mod == old(self).volume_mod,
                self.loop_base == old(self).loop_base,
                self.loop_mod == old(self).loop_mod,
            decreases self.chips@.len() - cf,
        {
            let mut inst = self.chips.remove(cf);
            inst.chip.file_end(writer);
            self.chips.insert(cf, inst);
            proof {
                assert(forall|i: int| 0 <= i < self.chips@.len() ==> (#[trigger] self.chips@[
                    i
                ]).chip.wf());
            }
            cf = cf + 1;
        }

        // Header totals and modifiers.
        let total_i64: i64 = if self.total_samples >= self.fast_forward {
            self.total_samples - self.fast_forward
        } else {
            0
        };
        let total32 = clamp_u32(total_i64);
        writer.set_total_samples(total32);
        let loop_i64: i64 = if total_i64 >= self.loop_point {
            total_i64 - self.loop_point
        } else {
            0
        };
        writer.set_loop_samples(clamp_u32(loop_i64));
        let rate32: u32 = if self.recording_rate >= 0 {
            self.recording_rate as u32
        } else {
            0
        };
        writer.set_rate(rate32);
        let vm: i8 = if self.volume_mod == -64 {
            -63
        } else if self.volume_mod >= -128 && self.volume_mod <= 127 {
            self.volume_mod as i8
        } else {
            0
        };
        writer.set_volume_modifier(vm);
        writer.set_loop_base(self.loop_base);
        writer.set_loop_modifier(self.loop_mod);

        // The GD3 block and the offset fixups.
        let metadata = self.gd3_metadata();
        let ghost pre_fin = writer.data_view();
        writer.finalize(&metadata);
        proof {
            assert(gd3::gd3_strings(&metadata) =~= self.spec_gd3_strings());
            assert(gd3::gd3_block(&metadata) =~= self.spec_gd3_bytes());
            assert(pre_fin + seq![delay::END] =~= pre_fin.push(delay::END));
            assert(writer.data_view() =~= pre_fin + seq![delay::END] + old(self).spec_gd3_bytes());
        }
    }

    /// The GD3 metadata assembled from the accumulated texts.
    pub fn gd3_metadata(&self) -> (r: Gd3Metadata)
        requires
            self.wf(),
        ensures
            r.title_en@ == self.gd3_text@[GD3_TITLE_EN as int]@,
            r.title_jp@ == self.gd3_text@[GD3_TITLE_JP as int]@,
            r.game_en@ == self.gd3_text@[GD3_GAME_EN as int]@,
            r.game_jp@ == self.gd3_text@[GD3_GAME_JP as int]@,
            r.system_en@ == self.gd3_text@[GD3_SYSTEM_EN as int]@,
            r.system_jp@ == self.gd3_text@[GD3_SYSTEM_JP as int]@,
            r.composer_en@ == self.gd3_text@[GD3_COMPOSER_EN as int]@,
            r.composer_jp@ == self.gd3_text@[GD3_COMPOSER_JP as int]@,
            r.date@ == self.gd3_text@[GD3_DATE as int]@,
            r.converter@ == self.gd3_text@[GD3_CONVERTER as int]@,
            r.notes@ == self.gd3_text@[GD3_NOTES as int]@,
    {
        Gd3Metadata {
            title_en: chars_to_string(&self.gd3_text[GD3_TITLE_EN]),
            title_jp: chars_to_string(&self.gd3_text[GD3_TITLE_JP]),
            game_en: chars_to_string(&self.gd3_text[GD3_GAME_EN]),
            game_jp: chars_to_string(&self.gd3_text[GD3_GAME_JP]),
            system_en: chars_to_string(&self.gd3_text[GD3_SYSTEM_EN]),
            system_jp: chars_to_string(&self.gd3_text[GD3_SYSTEM_JP]),
            composer_en: chars_to_string(&self.gd3_text[GD3_COMPOSER_EN]),
            composer_jp: chars_to_string(&self.gd3_text[GD3_COMPOSER_JP]),
            date: chars_to_string(&self.gd3_text[GD3_DATE]),
            converter: chars_to_string(&self.gd3_text[GD3_CONVERTER]),
            notes: chars_to_string(&self.gd3_text[GD3_NOTES]),
        }
    }

    /// Compile MML text into a complete VGM file image.
    ///
    /// Lines are fed in order; an end-of-file directive stops reading,
    /// and include directives are skipped (a front end that can open
    /// files feeds them through `feed_line` itself).
    pub fn compile_text(&mut self, input: &str) -> (r: Result<Vec<u8>, Error>)
        requires
            old(self).wf(),
            old(self).events_bounded(),
        ensures
            final(self).wf(),
            r is Ok ==> r->Ok_0@.len() >= 192,
            r is Ok ==> exists|mid: Seq<u8>| r->Ok_0@ == mid + seq![delay::END]
                + final(self).spec_gd3_bytes(),
    {
        let cs = str_chars(input);
        let mut line: Vec<char> = Vec::new();
        let mut i: usize = 0;
        let mut stopped = false;
        while i < cs.len()
            invariant
                self.wf(),
                i <= cs@.len(),
                old(self).events_bounded() ==> self.events_bounded(),
                self.total_samples == old(self).total_samples,
            decreases cs@.len() - i,
        {
            let c = cs[i];
            if c == '\n' {
                if !stopped {
                    match self.feed_line_chars(&line) {
                        Ok(LineAction::Eof) => {
                            stopped = true;
                        },
                        Ok(_) => {},
                        Err(e) => {
                            return Err(e);
                        },
                    }
                }
                line = Vec::new();
            } else {
                line.push(c);
            }
            i = i + 1;
        }
        if !stopped && line.len() > 0 {
            match self.feed_line_chars(&line) {
                Ok(_) => {},
                Err(e) => {
                    return Err(e);
                },
            }
        }

        match self.compile_channels() {
            Ok(_) => {},
            Err(e) => {
                return Err(e);
            },
        }

        let mut writer = VgmWriter::new();
        let ghost pre = *self;
        self.write_output(&mut writer);
        let out = writer.file_bytes();
        proof {
            let mid0 = choose|mid: Seq<u8>|
                writer.data_view() == mid + seq![delay::END] + pre.spec_gd3_bytes();
            assert(self.spec_gd3_bytes() == pre.spec_gd3_bytes());
            assert(out@ =~= (writer.header_view() + mid0) + seq![delay::END]
                + self.spec_gd3_bytes());
        }
        Ok(out)
    }
}

/// Per-channel musical state while compiling one channel.
struct ChannelState2 {
    octave: i32,
    tempo: i32,
    default_len: i64,
    time: i64,
    transpose: i32,
    detune: i64,
    quantize: i64,
    current_note: i32,
    current_len: i64,
    kind: u8,
    chan_loop: i64,
    loop_depth: i32,
    loop_start: Vec<usize>,
    loop_end: Vec<usize>,
    loop_count: Vec<i32>,
    phase: i32,
    phase_count: i32,
    phase_counter: i32,
}

impl ChannelState2 {
    /// Well-formed: nonnegative timing, a valid tempo, and full stacks.
    spec fn wf(&self) -> bool {
        &&& self.tempo > 0
        &&& self.tempo < 100000
        &&& self.default_len >= 0
        &&& self.time >= 0
        &&& self.quantize >= 0
        &&& self.current_len >= 0
        &&& self.chan_loop >= -1
        &&& -1 <= self.loop_depth < 128
        &&& self.loop_start@.len() == 128
        &&& self.loop_end@.len() == 128
        &&& self.loop_count@.len() == 128
        &&& self.phase_count >= 1
        &&& 0 <= self.phase_counter < self.phase_count
        &&& 0 <= self.phase
    }

    /// The starting state: octave zero, tempo 120, a quarter-note
    /// default length.
    fn new() -> (r: ChannelState2)
        ensures
            r.wf(),
            r.time == 0,
            r.current_len == 0,
    {
        let mut loop_start: Vec<usize> = Vec::new();
        let mut loop_end: Vec<usize> = Vec::new();
        let mut loop_count: Vec<i32> = Vec::new();
        let mut i: usize = 0;
        while i < 128
            invariant
                i <= 128,
                loop_start@.len() == i,
                loop_end@.len() == i,
                loop_count@.len() == i,
            decreases 128 - i,
        {
            loop_start.push(0);
            loop_end.push(0);
            loop_count.push(0);
            i = i + 1;
        }
        ChannelState2 {
            octave: 0,
            tempo: 120,
            default_len: calc_note_length(120, 4, 0),
            time: 0,
            transpose: 0,
            detune: 0,
            quantize: 0,
            current_note: -1,
            current_len: 0,
            kind: 0,
            chan_loop: -1,
            loop_depth: -1,
            loop_start,
            loop_end,
            loop_count,
            phase: 0,
            phase_count: 1,
            phase_counter: 0,
        }
    }
}

/// Is the character the group-open bracket?
fn is_group_open(c: char) -> (r: bool)
    ensures
        r == (c == '['),
{
    c == '['
}

/// Is the character the group-close bracket?
fn is_group_close(c: char) -> (r: bool)
    ensures
        r == (c == ']'),
{
    c == ']'
}

/// Is the character the tuplet-open brace?
fn is_tuplet_open(c: char) -> (r: bool)
    ensures
        r == (c == '{'),
{
    c == '{'
}

/// Is the character the tuplet-close brace?
fn is_tuplet_close(c: char) -> (r: bool)
    ensures
        r == (c == '}'),
{
    c == '}'
}

/// The greater of two values.
pub open spec fn imax(a: int, b: int) -> int {
    if a >= b {
        a
    } else {
        b
    }
}

/// Clamp a value into 32-bit signed range.
fn clamp_i32(v: i64) -> (r: i32)
    ensures
        -0x80000000 <= v <= 0x7FFFFFFF ==> r == v,
{
    if v < -0x80000000 {
        -0x80000000
    } else if v > 0x7FFFFFFF {
        0x7FFFFFFF
    } else {
        v as i32
    }
}

/// The low 16 bits of a value, as two's complement.
fn clamp_i16_wrap(v: i64) -> (r: i16)
    ensures
        -0x8000 <= v <= 0x7FFF ==> r == v,
{
    let m = ((v % 0x10000) + 0x10000) % 0x10000;
    if m >= 0x8000 {
        (m - 0x10000) as i16
    } else {
        m as i16
    }
}

/// The low byte of a value.
fn clamp_u8_wrap(v: i64) -> (r: u8)
    ensures
        0 <= v <= 255 ==> r == v,
{
    let m = ((v % 0x100) + 0x100) % 0x100;
    m as u8
}

/// The low 16 bits of a value, unsigned.
fn clamp_u16_wrap(v: i64) -> (r: u16)
    ensures
        0 <= v <= 0xFFFF ==> r == v,
{
    let m = ((v % 0x10000) + 0x10000) % 0x10000;
    m as u16
}

/// Clamp a nonnegative value into 32-bit unsigned range.
fn clamp_u32(v: i64) -> (r: u32)
    requires
        v >= 0,
    ensures
        v < 0x100000000 ==> r == v,
{
    if v > 0xFFFFFFFF {
        0xFFFFFFFF
    } else {
        v as u32
    }
}

/// Two to the given power, within 64-bit range.
fn pow2_i64(e: i64) -> (r: i64)
    requires
        0 <= e < 63,
    ensures
        r >= 1,
{
    let mut r: i64 = 1;
    let mut k: i64 = 0;
    while k < e
        invariant
            0 <= k <= e < 63,
            1 <= r,
            r <= 0x4000000000000000,
        decreases e - k,
    {
        if r <= 0x2000000000000000 {
            r = r * 2;
        }
        k = k + 1;
    }
    r
}

/// The slur and legato bits shifted up, as the note advances.
fn shift_kind(k: u8) -> (r: u8) {
    (((k as u32) * 4) % 0x100) as u8
}

/// Clamp a product of two 32-bit values back into 32-bit range.
fn mul_clamped(a: i32, b: i32) -> (r: i32)
    ensures
        -0x80000000 <= a * b <= 0x7FFFFFFF ==> r == a * b,
{
    let wide = chips::mul_i32(a, b);
    clamp_i32(wide)
}

/// The chip command a static macro name routes to.
fn stat_macro_command(mt: MacroType) -> (r: MacroCommand) {
    match mt {
        MacroType::Volume => MacroCommand::Volume,
        MacroType::Panning => MacroCommand::Panning,
        MacroType::Tone => MacroCommand::Tone,
        MacroType::Global => MacroCommand::Global,
        MacroType::Multiply => MacroCommand::Multiply,
        MacroType::Waveform => MacroCommand::Waveform,
        MacroType::ModWaveform => MacroCommand::Waveform,
        MacroType::VolumeEnv => MacroCommand::Volume,
        MacroType::Sample => MacroCommand::Sample,
        MacroType::SampleList => MacroCommand::SampleList,
        _ => MacroCommand::Volume,
    }
}

/// The chip command an envelope step of the given kind slot routes to,
/// if that kind steps through the driver.
fn dyn_macro_command(slot: usize) -> (r: Option<MacroCommand>) {
    if slot == 0 {
        Some(MacroCommand::Volume)
    } else if slot == 1 {
        Some(MacroCommand::Panning)
    } else if slot == 2 {
        Some(MacroCommand::Tone)
    } else if slot == 3 {
        Some(MacroCommand::Option)
    } else if slot == 6 {
        Some(MacroCommand::Multiply)
    } else if slot == 7 {
        Some(MacroCommand::Waveform)
    } else if slot == 10 {
        Some(MacroCommand::Sample)
    } else {
        None
    }
}

/// A copy of the event list.
fn copy_events(v: &Vec<Event>) -> (r: Vec<Event>)
    ensures
        r@ == v@,
{
    let mut r: Vec<Event> = Vec::new();
    let mut i: usize = 0;
    while i < v.len()
        invariant
            i <= v@.len(),
            r@ == v@.take(i as int),
        decreases v@.len() - i,
    {
        r.push(v[i]);
        proof {
            assert(v@.take(i + 1) =~= v@.take(i as int).push(v@[i as int]));
        }
        i = i + 1;
    }
    proof {
        assert(v@.take(v@.len() as int) =~= v@);
    }
    r
}

/// The characters of `v` from `from` on (all of them when `from` is past
/// the end).
fn tail_from(v: &Vec<char>, from: usize) -> (r: Vec<char>)
    ensures
        from <= v@.len() ==> r@ == v@.skip(from as int),
        from > v@.len() ==> r@ == Seq::<char>::empty(),
{
    let mut r: Vec<char> = Vec::new();
    if from > v.len() {
        return r;
    }
    let mut i: usize = from;
    while i < v.len()
        invariant
            from <= i <= v@.len(),
            r@ == v@.subrange(from as int, i as int),
        decreases v@.len() - i,
    {
        r.push(v[i]);
        proof {
            assert(v@.subrange(from as int, i + 1) =~= v@.subrange(from as int, i as int).push(
                v@[i as int],
            ));
        }
        i = i + 1;
    }
    proof {
        assert(v@.subrange(from as int, v@.len() as int) =~= v@.skip(from as int));
    }
    r
}

/// The first `to` characters of `v`.
fn head_to(v: &Vec<char>, to: usize) -> (r: Vec<char>)
    requires
        to <= v@.len(),
    ensures
        r@ == v@.take(to as int),
{
    let mut r: Vec<char> = Vec::new();
    let mut i: usize = 0;
    while i < to
        invariant
            i <= to <= v@.len(),
            r@ == v@.take(i as int),
        decreases to - i,
    {
        r.push(v[i]);
        proof {
            assert(v@.take(i + 1) =~= v@.take(i as int).push(v@[i as int]));
        }
        i = i + 1;
    }
    r
}

} // verus!
