//! Sound chip drivers.
//!
//! One driver per supported chip family.  Each driver owns its shadow
//! registers, maps abstract musical events to the chip's register set,
//! emits VGM command bytes through the writer, and tracks chip-scope
//! state such as dual-chip activation and assignment tables.

pub mod ay8910;
pub mod ay8930;
pub mod dmg;
pub mod huc6280;
pub mod nes_apu;
pub mod opl2;
pub mod opl3;
pub mod opl4;
pub mod opll;
pub mod opn2;
pub mod pokey;
pub mod qsound;
pub mod sn76489;
pub mod t6w28;

use vstd::prelude::*;
use crate::compiler::envelope::MacroEnvStorage;
use crate::compiler::event::ChipEvent;
use crate::error::Error;
use crate::text::str_chars;
use crate::vgm::writer::VgmWriter;

verus! {

/// VGM chip id: SN76489.
pub const CHIP_ID_SN76489: u8 = 0;

/// VGM chip id: YM2413.
pub const CHIP_ID_YM2413: u8 = 1;

/// VGM chip id: YM2612.
pub const CHIP_ID_YM2612: u8 = 2;

/// VGM chip id: YM3812.
pub const CHIP_ID_YM3812: u8 = 9;

/// VGM chip id: YMF262.
pub const CHIP_ID_YMF262: u8 = 12;

/// VGM chip id of the YMF278B.
pub const CHIP_ID_YMF278B: u8 = 13;

/// VGM chip id: AY-3-8910.
pub const CHIP_ID_AY8910: u8 = 18;

/// VGM chip id: GameBoy DMG.
pub const CHIP_ID_GB_DMG: u8 = 19;

/// VGM chip id: NES APU.
pub const CHIP_ID_NES_APU: u8 = 20;

/// VGM chip id: HuC6280.
pub const CHIP_ID_HUC6280: u8 = 27;

/// VGM chip id: Pokey.
pub const CHIP_ID_POKEY: u8 = 30;

/// VGM chip id: QSound.
pub const CHIP_ID_QSOUND: u8 = 31;

/// Abstract macro command routed to a driver's `set_macro`.
#[derive(Debug, Clone, Copy, PartialEq, Eq)]
pub enum MacroCommand {
    Volume,
    Panning,
    Tone,
    Option,
    Arpeggio,
    Global,
    Multiply,
    Waveform,
    ModWaveform,
    VolumeEnv,
    Sample,
    SampleList,
    Midi,
}

/// The value stored for `key`, or zero when the key was never set.
pub open spec fn spec_option_value(s: Seq<(char, i32)>, key: char) -> int
    decreases s.len(),
{
    if s.len() == 0 {
        0
    } else if s[0].0 == key {
        s[0].1 as int
    } else {
        spec_option_value(s.drop_first(), key)
    }
}

/// Chip configuration options: a mapping from single-character option key
/// to signed integer, consulted at chip enablement.
#[derive(Debug, Clone)]
pub struct ChipOptions {
    entries: Vec<(char, i32)>,
}

impl ChipOptions {
    /// The value each key maps to (zero for unset keys).
    pub open spec fn spec_get(&self, key: char) -> int {
        spec_option_value(self.entries_view(), key)
    }

    /// The stored entries, earliest-set first.
    pub closed spec fn entries_view(&self) -> Seq<(char, i32)> {
        self.entries@
    }

    /// An empty option set.
    pub fn new() -> (r: ChipOptions)
        ensures
            forall|k: char| r.spec_get(k) == 0,
            r.entries_view().len() == 0,
    {
        ChipOptions { entries: Vec::new() }
    }

    /// The value set for `key`, or zero.
    pub fn get(&self, key: char) -> (r: i32)
        ensures
            r == self.spec_get(key),
    {
        proof {
            assert(self.entries@.skip(0) =~= self.entries@);
        }
        let mut i: usize = 0;
        while i < self.entries.len()
            invariant
                i <= self.entries@.len(),
                spec_option_value(self.entries@, key) == spec_option_value(
                    self.entries@.skip(i as int),
                    key,
                ),
            decreases self.entries@.len() - i,
        {
            proof {
                assert(self.entries@.skip(i as int)[0] == self.entries@[i as int]);
                assert(self.entries@.skip(i as int).drop_first() =~= self.entries@.skip(i + 1));
            }
            if self.entries[i].0 == key {
                return self.entries[i].1;
            }
            i = i + 1;
        }
        proof {
            assert(self.entries@.skip(self.entries@.len() as int) =~= Seq::<(char, i32)>::empty());
        }
        0
    }

    /// Set the value for `key`, replacing any earlier setting.
    pub fn set(&mut self, key: char, value: i32)
        ensures
            final(self).spec_get(key) == value,
            forall|k: char| k != key ==> final(self).spec_get(k) == old(self).spec_get(k),
    {
        let ghost pre = self.entries@;
        self.entries.insert(0, (key, value));
        proof {
            assert(self.entries@.drop_first() =~= pre);
            assert forall|k: char| k != key implies spec_option_value(self.entries@, k)
                == spec_option_value(pre, k) by {
                assert(self.entries@[0].0 == key);
            }
        }
    }
}

impl Default for ChipOptions {
    /// An empty option set.
    fn default() -> (r: ChipOptions)
        ensures
            forall|k: char| r.spec_get(k) == 0,
    {
        ChipOptions::new()
    }
}

/// The exact 64-bit product of two 32-bit values.
pub fn mul_i32(a: i32, b: i32) -> (r: i64)
    ensures
        r == a * b,
        -0x4000000000000000 <= r <= 0x4000000000000000,
{
    proof {
        assert((a as int) * (b as int) <= 0x4000000000000000 && (a as int) * (b as int)
            >= -0x4000000000000000) by (nonlinear_arith)
            requires -0x80000000 <= a <= 0x7FFFFFFF && -0x80000000 <= b <= 0x7FFFFFFF;
    }
    (a as i64) * (b as i64)
}

/// The header clock word: the clock value with bit 30 set when a second
/// chip instance is driven.
pub fn clock_with_dual(clock: i32, dual: bool) -> (r: u32)
    ensures
        0 <= clock < 0x40000000 ==> r == clock + (if dual {
            0x40000000int
        } else {
            0int
        }),
{
    #[verifier::truncate]
    let base = clock as u32;
    if dual {
        let r = base | 0x40000000;
        proof {
            assert(base < 0x40000000u32 ==> base | 0x40000000u32 == base + 0x40000000)
                by (bit_vector);
        }
        r
    } else {
        base
    }
}

/// The writer after a driver call: data only appended, header and loop
/// mark untouched.
pub open spec fn writer_extended(w0: VgmWriter, w1: VgmWriter) -> bool {
    &&& w1.wf()
    &&& w1.header_view() == w0.header_view()
    &&& w1.loop_view() == w0.loop_view()
    &&& w1.data_view().len() >= w0.data_view().len()
    &&& w1.data_view().subrange(0, w0.data_view().len() as int) == w0.data_view()
}

/// The writer after a driver's header fixup: data and loop mark untouched.
pub open spec fn writer_header_only(w0: VgmWriter, w1: VgmWriter) -> bool {
    &&& w1.wf()
    &&& w1.data_view() == w0.data_view()
    &&& w1.loop_view() == w0.loop_view()
    &&& w1.header_view().len() == w0.header_view().len()
}

/// Are the characters of `cs` exactly those of `pat`?
pub fn chars_match(cs: &Vec<char>, pat: &str) -> (r: bool)
    ensures
        r == (cs@ == pat@),
{
    let ps = str_chars(pat);
    if cs.len() != ps.len() {
        proof {
            assert(cs@ != pat@);
        }
        return false;
    }
    let mut i: usize = 0;
    while i < cs.len()
        invariant
            cs@.len() == ps@.len(),
            ps@ == pat@,
            i <= cs@.len(),
            forall|j: int| 0 <= j < i ==> cs@[j] == ps@[j],
        decreases cs@.len() - i,
    {
        if cs[i] != ps[i] {
            proof {
                assert(cs@ != pat@);
            }
            return false;
        }
        i = i + 1;
    }
    proof {
        assert(cs@ =~= pat@);
    }
    true
}

/// One driver per chip family, dispatched by variant.
#[derive(Debug)]
pub enum Chip {
    Sn76489(sn76489::Sn76489),
    Opn2(opn2::Opn2),
    Opll(opll::Opll),
    Opl2(opl2::Opl2),
    Opl3(opl3::Opl3),
    Opl4(opl4::Opl4),
    Ay8910(ay8910::Ay8910),
    Ay8930(ay8930::Ay8930),
    NesApu(nes_apu::NesApu),
    Dmg(dmg::Dmg),
    HuC6280(huc6280::HuC6280),
    Pokey(pokey::Pokey),
    QSound(qsound::QSound),
    T6w28(t6w28::T6w28),
}

/// Do two chip values carry the same driver variant?
pub open spec fn same_variant(a: Chip, b: Chip) -> bool {
    match (a, b) {
        (Chip::Sn76489(_), Chip::Sn76489(_)) => true,
        (Chip::Opn2(_), Chip::Opn2(_)) => true,
        (Chip::Opll(_), Chip::Opll(_)) => true,
        (Chip::Opl2(_), Chip::Opl2(_)) => true,
        (Chip::Opl3(_), Chip::Opl3(_)) => true,
        (Chip::Opl4(_), Chip::Opl4(_)) => true,
        (Chip::Ay8910(_), Chip::Ay8910(_)) => true,
        (Chip::Ay8930(_), Chip::Ay8930(_)) => true,
        (Chip::NesApu(_), Chip::NesApu(_)) => true,
        (Chip::Dmg(_), Chip::Dmg(_)) => true,
        (Chip::HuC6280(_), Chip::HuC6280(_)) => true,
        (Chip::Pokey(_), Chip::Pokey(_)) => true,
        (Chip::QSound(_), Chip::QSound(_)) => true,
        (Chip::T6w28(_), Chip::T6w28(_)) => true,
        _ => false,
    }
}

impl Chip {
    /// Well-formed: the held driver's tables are well-formed.
    pub open spec fn wf(&self) -> bool {
        match self {
            Chip::Sn76489(c) => c.wf(),
            Chip::Opn2(c) => c.wf(),
            Chip::Opll(c) => c.wf(),
            Chip::Opl2(c) => c.wf(),
            Chip::Opl3(c) => c.wf(),
            Chip::Opl4(c) => c.wf(),
            Chip::Ay8910(c) => c.wf(),
            Chip::Ay8930(c) => c.wf(),
            Chip::NesApu(c) => c.wf(),
            Chip::Dmg(c) => c.wf(),
            Chip::HuC6280(c) => c.wf(),
            Chip::Pokey(c) => c.wf(),
            Chip::QSound(c) => c.wf(),
            Chip::T6w28(c) => c.wf(),
        }
    }

    /// The chip's name.
    pub fn name(&self) -> (r: &'static str) {
        match self {
            Chip::Sn76489(c) => c.name(),
            Chip::Opn2(c) => c.name(),
            Chip::Opll(c) => c.name(),
            Chip::Opl2(c) => c.name(),
            Chip::Opl3(c) => c.name(),
            Chip::Opl4(c) => c.name(),
            Chip::Ay8910(c) => c.name(),
            Chip::Ay8930(c) => c.name(),
            Chip::NesApu(c) => c.name(),
            Chip::Dmg(c) => c.name(),
            Chip::HuC6280(c) => c.name(),
            Chip::Pokey(c) => c.name(),
            Chip::QSound(c) => c.name(),
            Chip::T6w28(c) => c.name(),
        }
    }

    /// The chip's VGM chip id.
    pub fn chip_id(&self) -> u8 {
        match self {
            Chip::Sn76489(c) => c.chip_id(),
            Chip::Opn2(c) => c.chip_id(),
            Chip::Opll(c) => c.chip_id(),
            Chip::Opl2(c) => c.chip_id(),
            Chip::Opl3(c) => c.chip_id(),
            Chip::Opl4(c) => c.chip_id(),
            Chip::Ay8910(c) => c.chip_id(),
            Chip::Ay8930(c) => c.chip_id(),
            Chip::NesApu(c) => c.chip_id(),
            Chip::Dmg(c) => c.chip_id(),
            Chip::HuC6280(c) => c.chip_id(),
            Chip::Pokey(c) => c.chip_id(),
            Chip::QSound(c) => c.chip_id(),
            Chip::T6w28(c) => c.chip_id(),
        }
    }

    /// Clock divisor: negative for period-based chips, positive for
    /// frequency-based ones.
    pub fn clock_div(&self) -> i32 {
        match self {
            Chip::Sn76489(c) => c.clock_div(),
            Chip::Opn2(c) => c.clock_div(),
            Chip::Opll(c) => c.clock_div(),
            Chip::Opl2(c) => c.clock_div(),
            Chip::Opl3(c) => c.clock_div(),
            Chip::Opl4(c) => c.clock_div(),
            Chip::Ay8910(c) => c.clock_div(),
            Chip::Ay8930(c) => c.clock_div(),
            Chip::NesApu(c) => c.clock_div(),
            Chip::Dmg(c) => c.clock_div(),
            Chip::HuC6280(c) => c.clock_div(),
            Chip::Pokey(c) => c.clock_div(),
            Chip::QSound(c) => c.clock_div(),
            Chip::T6w28(c) => c.clock_div(),
        }
    }

    /// Width of the hardware pitch field; negative when the driver does
    /// not octave-shift table entries.
    pub fn note_bits(&self) -> (r: i32)
        ensures
            -64 < r < 64,
    {
        match self {
            Chip::Sn76489(c) => c.note_bits(),
            Chip::Opn2(c) => c.note_bits(),
            Chip::Opll(c) => c.note_bits(),
            Chip::Opl2(c) => c.note_bits(),
            Chip::Opl3(c) => c.note_bits(),
            Chip::Opl4(c) => c.note_bits(),
            Chip::Ay8910(c) => c.note_bits(),
            Chip::Ay8930(c) => c.note_bits(),
            Chip::NesApu(c) => c.note_bits(),
            Chip::Dmg(c) => c.note_bits(),
            Chip::HuC6280(c) => c.note_bits(),
            Chip::Pokey(c) => c.note_bits(),
            Chip::QSound(c) => c.note_bits(),
            Chip::T6w28(c) => c.note_bits(),
        }
    }

    /// The chip's reference octave.
    pub fn basic_octave(&self) -> i32 {
        match self {
            Chip::Sn76489(c) => c.basic_octave(),
            Chip::Opn2(c) => c.basic_octave(),
            Chip::Opll(c) => c.basic_octave(),
            Chip::Opl2(c) => c.basic_octave(),
            Chip::Opl3(c) => c.basic_octave(),
            Chip::Opl4(c) => c.basic_octave(),
            Chip::Ay8910(c) => c.basic_octave(),
            Chip::Ay8930(c) => c.basic_octave(),
            Chip::NesApu(c) => c.basic_octave(),
            Chip::Dmg(c) => c.basic_octave(),
            Chip::HuC6280(c) => c.basic_octave(),
            Chip::Pokey(c) => c.basic_octave(),
            Chip::QSound(c) => c.basic_octave(),
            Chip::T6w28(c) => c.basic_octave(),
        }
    }

    /// Apply parsed chip options.
    pub fn enable(&mut self, options: &ChipOptions)
        requires
            old(self).wf(),
        ensures
            final(self).wf(),
            same_variant(*old(self), *final(self)),
    {
        match self {
            Chip::Sn76489(c) => c.enable(options),
            Chip::Opn2(c) => c.enable(options),
            Chip::Opll(c) => c.enable(options),
            Chip::Opl2(c) => c.enable(options),
            Chip::Opl3(c) => c.enable(options),
            Chip::Opl4(c) => c.enable(options),
            Chip::Ay8910(c) => c.enable(options),
            Chip::Ay8930(c) => c.enable(options),
            Chip::NesApu(c) => c.enable(options),
            Chip::Dmg(c) => c.enable(options),
            Chip::HuC6280(c) => c.enable(options),
            Chip::Pokey(c) => c.enable(options),
            Chip::QSound(c) => c.enable(options),
            Chip::T6w28(c) => c.enable(options),
        }
    }

    /// Emit boot-time register initialization.
    pub fn file_begin(&mut self, writer: &mut VgmWriter)
        requires
            old(self).wf(),
            old(writer).wf(),
        ensures
            final(self).wf(),
            same_variant(*old(self), *final(self)),
            writer_extended(*old(writer), *final(writer)),
    {
        match self {
            Chip::Sn76489(c) => c.file_begin(writer),
            Chip::Opn2(c) => c.file_begin(writer),
            Chip::Opll(c) => c.file_begin(writer),
            Chip::Opl2(c) => c.file_begin(writer),
            Chip::Opl3(c) => c.file_begin(writer),
            Chip::Opl4(c) => c.file_begin(writer),
            Chip::Ay8910(c) => c.file_begin(writer),
            Chip::Ay8930(c) => c.file_begin(writer),
            Chip::NesApu(c) => c.file_begin(writer),
            Chip::Dmg(c) => c.file_begin(writer),
            Chip::HuC6280(c) => c.file_begin(writer),
            Chip::Pokey(c) => c.file_begin(writer),
            Chip::QSound(c) => c.file_begin(writer),
            Chip::T6w28(c) => c.file_begin(writer),
        }
    }

    /// Finalize the chip's clock and flag fields in the header.
    pub fn file_end(&mut self, writer: &mut VgmWriter)
        requires
            old(self).wf(),
            old(writer).wf(),
        ensures
            final(self).wf(),
            same_variant(*old(self), *final(self)),
            writer_header_only(*old(writer), *final(writer)),
    {
        match self {
            Chip::Sn76489(c) => c.file_end(writer),
            Chip::Opn2(c) => c.file_end(writer),
            Chip::Opll(c) => c.file_end(writer),
            Chip::Opl2(c) => c.file_end(writer),
            Chip::Opl3(c) => c.file_end(writer),
            Chip::Opl4(c) => c.file_end(writer),
            Chip::Ay8910(c) => c.file_end(writer),
            Chip::Ay8930(c) => c.file_end(writer),
            Chip::NesApu(c) => c.file_end(writer),
            Chip::Dmg(c) => c.file_end(writer),
            Chip::HuC6280(c) => c.file_end(writer),
            Chip::Pokey(c) => c.file_end(writer),
            Chip::QSound(c) => c.file_end(writer),
            Chip::T6w28(c) => c.file_end(writer),
        }
    }

    /// Invalidate caches whose value may differ at loop re-entry.
    pub fn loop_start(&mut self, writer: &mut VgmWriter)
        requires
            old(self).wf(),
            old(writer).wf(),
        ensures
            final(self).wf(),
            same_variant(*old(self), *final(self)),
            writer_extended(*old(writer), *final(writer)),
    {
        match self {
            Chip::Sn76489(c) => c.loop_start(writer),
            Chip::Opn2(c) => c.loop_start(writer),
            Chip::Opll(c) => c.loop_start(writer),
            Chip::Opl2(c) => c.loop_start(writer),
            Chip::Opl3(c) => c.loop_start(writer),
            Chip::Opl4(c) => c.loop_start(writer),
            Chip::Ay8910(c) => c.loop_start(writer),
            Chip::Ay8930(c) => c.loop_start(writer),
            Chip::NesApu(c) => c.loop_start(writer),
            Chip::Dmg(c) => c.loop_start(writer),
            Chip::HuC6280(c) => c.loop_start(writer),
            Chip::Pokey(c) => c.loop_start(writer),
            Chip::QSound(c) => c.loop_start(writer),
            Chip::T6w28(c) => c.loop_start(writer),
        }
    }

    /// Record that a channel starts compiling.
    pub fn start_channel(&mut self, channel: usize)
        requires
            old(self).wf(),
        ensures
            final(self).wf(),
            same_variant(*old(self), *final(self)),
    {
        match self {
            Chip::Sn76489(c) => c.start_channel(channel),
            Chip::Opn2(c) => c.start_channel(channel),
            Chip::Opll(c) => c.start_channel(channel),
            Chip::Opl2(c) => c.start_channel(channel),
            Chip::Opl3(c) => c.start_channel(channel),
            Chip::Opl4(c) => c.start_channel(channel),
            Chip::Ay8910(c) => c.start_channel(channel),
            Chip::Ay8930(c) => c.start_channel(channel),
            Chip::NesApu(c) => c.start_channel(channel),
            Chip::Dmg(c) => c.start_channel(channel),
            Chip::HuC6280(c) => c.start_channel(channel),
            Chip::Pokey(c) => c.start_channel(channel),
            Chip::QSound(c) => c.start_channel(channel),
            Chip::T6w28(c) => c.start_channel(channel),
        }
    }

    /// Record the highest sub-indices a channel requests.
    pub fn start_channel_with_info(&mut self, chip_sub: usize, chan_sub: usize)
        requires
            old(self).wf(),
        ensures
            final(self).wf(),
            same_variant(*old(self), *final(self)),
    {
        match self {
            Chip::Sn76489(c) => c.start_channel_with_info(chip_sub, chan_sub),
            Chip::Opn2(c) => c.start_channel_with_info(chip_sub, chan_sub),
            Chip::Opll(c) => c.start_channel_with_info(chip_sub, chan_sub),
            Chip::Opl2(c) => c.start_channel_with_info(chip_sub, chan_sub),
            Chip::Opl3(c) => c.start_channel_with_info(chip_sub, chan_sub),
            Chip::Opl4(c) => c.start_channel_with_info(chip_sub, chan_sub),
            Chip::Ay8910(c) => c.start_channel_with_info(chip_sub, chan_sub),
            Chip::Ay8930(c) => c.start_channel_with_info(chip_sub, chan_sub),
            Chip::NesApu(c) => c.start_channel_with_info(chip_sub, chan_sub),
            Chip::Dmg(c) => c.start_channel_with_info(chip_sub, chan_sub),
            Chip::HuC6280(c) => c.start_channel_with_info(chip_sub, chan_sub),
            Chip::Pokey(c) => c.start_channel_with_info(chip_sub, chan_sub),
            Chip::QSound(c) => c.start_channel_with_info(chip_sub, chan_sub),
            Chip::T6w28(c) => c.start_channel_with_info(chip_sub, chan_sub),
        }
    }

    /// Translate an abstract macro set into a driver-private event.
    pub fn set_macro(
        &mut self,
        channel: usize,
        is_dynamic: bool,
        command: MacroCommand,
        value: i16,
    ) -> (r: Option<ChipEvent>)
        requires
            old(self).wf(),
        ensures
            final(self).wf(),
            same_variant(*old(self), *final(self)),
    {
        match self {
            Chip::Sn76489(c) => c.set_macro(channel, is_dynamic, command, value),
            Chip::Opn2(c) => c.set_macro(channel, is_dynamic, command, value),
            Chip::Opll(c) => c.set_macro(channel, is_dynamic, command, value),
            Chip::Opl2(c) => c.set_macro(channel, is_dynamic, command, value),
            Chip::Opl3(c) => c.set_macro(channel, is_dynamic, command, value),
            Chip::Opl4(c) => c.set_macro(channel, is_dynamic, command, value),
            Chip::Ay8910(c) => c.set_macro(channel, is_dynamic, command, value),
            Chip::Ay8930(c) => c.set_macro(channel, is_dynamic, command, value),
            Chip::NesApu(c) => c.set_macro(channel, is_dynamic, command, value),
            Chip::Dmg(c) => c.set_macro(channel, is_dynamic, command, value),
            Chip::HuC6280(c) => c.set_macro(channel, is_dynamic, command, value),
            Chip::Pokey(c) => c.set_macro(channel, is_dynamic, command, value),
            Chip::QSound(c) => c.set_macro(channel, is_dynamic, command, value),
            Chip::T6w28(c) => c.set_macro(channel, is_dynamic, command, value),
        }
    }

    /// The driver-private event for a note-on.
    pub fn note_on(&mut self, channel: usize, note: i32, octave: i32, duration: i32) -> (r: Option<
        ChipEvent,
    >)
        requires
            old(self).wf(),
        ensures
            final(self).wf(),
            same_variant(*old(self), *final(self)),
            r is Some,
    {
        match self {
            Chip::Sn76489(c) => c.note_on(channel, note, octave, duration),
            Chip::Opn2(c) => c.note_on(channel, note, octave, duration),
            Chip::Opll(c) => c.note_on(channel, note, octave, duration),
            Chip::Opl2(c) => c.note_on(channel, note, octave, duration),
            Chip::Opl3(c) => c.note_on(channel, note, octave, duration),
            Chip::Opl4(c) => c.note_on(channel, note, octave, duration),
            Chip::Ay8910(c) => c.note_on(channel, note, octave, duration),
            Chip::Ay8930(c) => c.note_on(channel, note, octave, duration),
            Chip::NesApu(c) => c.note_on(channel, note, octave, duration),
            Chip::Dmg(c) => c.note_on(channel, note, octave, duration),
            Chip::HuC6280(c) => c.note_on(channel, note, octave, duration),
            Chip::Pokey(c) => c.note_on(channel, note, octave, duration),
            Chip::QSound(c) => c.note_on(channel, note, octave, duration),
            Chip::T6w28(c) => c.note_on(channel, note, octave, duration),
        }
    }

    /// The driver-private event for a pitch change on a sounding note.
    pub fn note_change(&mut self, channel: usize, note: i32, octave: i32) -> (r: Option<ChipEvent>)
        requires
            old(self).wf(),
        ensures
            final(self).wf(),
            same_variant(*old(self), *final(self)),
            r is Some,
    {
        match self {
            Chip::Sn76489(c) => c.note_change(channel, note, octave),
            Chip::Opn2(c) => c.note_change(channel, note, octave),
            Chip::Opll(c) => c.note_change(channel, note, octave),
            Chip::Opl2(c) => c.note_change(channel, note, octave),
            Chip::Opl3(c) => c.note_change(channel, note, octave),
            Chip::Opl4(c) => c.note_change(channel, note, octave),
            Chip::Ay8910(c) => c.note_change(channel, note, octave),
            Chip::Ay8930(c) => c.note_change(channel, note, octave),
            Chip::NesApu(c) => c.note_change(channel, note, octave),
            Chip::Dmg(c) => c.note_change(channel, note, octave),
            Chip::HuC6280(c) => c.note_change(channel, note, octave),
            Chip::Pokey(c) => c.note_change(channel, note, octave),
            Chip::QSound(c) => c.note_change(channel, note, octave),
            Chip::T6w28(c) => c.note_change(channel, note, octave),
        }
    }

    /// The driver-private event for a note-off.
    pub fn note_off(&mut self, channel: usize, note: i32, octave: i32) -> (r: Option<ChipEvent>)
        requires
            old(self).wf(),
        ensures
            final(self).wf(),
            same_variant(*old(self), *final(self)),
            r is Some,
    {
        match self {
            Chip::Sn76489(c) => c.note_off(channel, note, octave),
            Chip::Opn2(c) => c.note_off(channel, note, octave),
            Chip::Opll(c) => c.note_off(channel, note, octave),
            Chip::Opl2(c) => c.note_off(channel, note, octave),
            Chip::Opl3(c) => c.note_off(channel, note, octave),
            Chip::Opl4(c) => c.note_off(channel, note, octave),
            Chip::Ay8910(c) => c.note_off(channel, note, octave),
            Chip::Ay8930(c) => c.note_off(channel, note, octave),
            Chip::NesApu(c) => c.note_off(channel, note, octave),
            Chip::Dmg(c) => c.note_off(channel, note, octave),
            Chip::HuC6280(c) => c.note_off(channel, note, octave),
            Chip::Pokey(c) => c.note_off(channel, note, octave),
            Chip::QSound(c) => c.note_off(channel, note, octave),
            Chip::T6w28(c) => c.note_off(channel, note, octave),
        }
    }

    /// The driver-private event for a rest.
    pub fn rest(&mut self, channel: usize, duration: i32) -> (r: Option<ChipEvent>)
        requires
            old(self).wf(),
        ensures
            final(self).wf(),
            same_variant(*old(self), *final(self)),
    {
        match self {
            Chip::Sn76489(c) => c.rest(channel, duration),
            Chip::Opn2(c) => c.rest(channel, duration),
            Chip::Opll(c) => c.rest(channel, duration),
            Chip::Opl2(c) => c.rest(channel, duration),
            Chip::Opl3(c) => c.rest(channel, duration),
            Chip::Opl4(c) => c.rest(channel, duration),
            Chip::Ay8910(c) => c.rest(channel, duration),
            Chip::Ay8930(c) => c.rest(channel, duration),
            Chip::NesApu(c) => c.rest(channel, duration),
            Chip::Dmg(c) => c.rest(channel, duration),
            Chip::HuC6280(c) => c.rest(channel, duration),
            Chip::Pokey(c) => c.rest(channel, duration),
            Chip::QSound(c) => c.rest(channel, duration),
            Chip::T6w28(c) => c.rest(channel, duration),
        }
    }

    /// The driver-private event for a direct register write.
    pub fn direct(&mut self, channel: usize, address: u16, value: u8) -> (r: Option<ChipEvent>)
        requires
            old(self).wf(),
        ensures
            final(self).wf(),
            same_variant(*old(self), *final(self)),
    {
        match self {
            Chip::Sn76489(c) => c.direct(channel, address, value),
            Chip::Opn2(c) => c.direct(channel, address, value),
            Chip::Opll(c) => c.direct(channel, address, value),
            Chip::Opl2(c) => c.direct(channel, address, value),
            Chip::Opl3(c) => c.direct(channel, address, value),
            Chip::Opl4(c) => c.direct(channel, address, value),
            Chip::Ay8910(c) => c.direct(channel, address, value),
            Chip::Ay8930(c) => c.direct(channel, address, value),
            Chip::NesApu(c) => c.direct(channel, address, value),
            Chip::Dmg(c) => c.direct(channel, address, value),
            Chip::HuC6280(c) => c.direct(channel, address, value),
            Chip::Pokey(c) => c.direct(channel, address, value),
            Chip::QSound(c) => c.direct(channel, address, value),
            Chip::T6w28(c) => c.direct(channel, address, value),
        }
    }

    /// Perform the register writes for an event, appending VGM command
    /// bytes; shadow registers may suppress redundant writes.
    pub fn send(
        &mut self,
        event: &ChipEvent,
        channel: usize,
        chip_sub: usize,
        chan_sub: usize,
        writer: &mut VgmWriter,
    )
        requires
            old(self).wf(),
            old(writer).wf(),
        ensures
            final(self).wf(),
            same_variant(*old(self), *final(self)),
            writer_extended(*old(writer), *final(writer)),
    {
        match self {
            Chip::Sn76489(c) => c.send(event, channel, chip_sub, chan_sub, writer),
            Chip::Opn2(c) => c.send(event, channel, chip_sub, chan_sub, writer),
            Chip::Opll(c) => c.send(event, channel, chip_sub, chan_sub, writer),
            Chip::Opl2(c) => c.send(event, channel, chip_sub, chan_sub, writer),
            Chip::Opl3(c) => c.send(event, channel, chip_sub, chan_sub, writer),
            Chip::Opl4(c) => c.send(event, channel, chip_sub, chan_sub, writer),
            Chip::Ay8910(c) => c.send(event, channel, chip_sub, chan_sub, writer),
            Chip::Ay8930(c) => c.send(event, channel, chip_sub, chan_sub, writer),
            Chip::NesApu(c) => c.send(event, channel, chip_sub, chan_sub, writer),
            Chip::Dmg(c) => c.send(event, channel, chip_sub, chan_sub, writer),
            Chip::HuC6280(c) => c.send(event, channel, chip_sub, chan_sub, writer),
            Chip::Pokey(c) => c.send(event, channel, chip_sub, chan_sub, writer),
            Chip::QSound(c) => c.send(event, channel, chip_sub, chan_sub, writer),
            Chip::T6w28(c) => c.send(event, channel, chip_sub, chan_sub, writer),
        }
    }

    /// Like `send`, with read access to the envelope store for chips
    /// whose instrument patches or waveforms live in envelopes.
    pub fn send_with_macro_env(
        &mut self,
        event: &ChipEvent,
        channel: usize,
        chip_sub: usize,
        chan_sub: usize,
        writer: &mut VgmWriter,
        macro_env: &MacroEnvStorage,
    )
        requires
            old(self).wf(),
            old(writer).wf(),
            macro_env.wf(),
        ensures
            final(self).wf(),
            same_variant(*old(self), *final(self)),
            writer_extended(*old(writer), *final(writer)),
    {
        match self {
            Chip::Opn2(c) => c.send_with_macro_env(event, channel, chip_sub, chan_sub, writer, macro_env),
            Chip::Opll(c) => c.send_with_macro_env(event, channel, chip_sub, chan_sub, writer, macro_env),
            Chip::Opl2(c) => c.send_with_macro_env(event, channel, chip_sub, chan_sub, writer, macro_env),
            Chip::Opl3(c) => c.send_with_macro_env(event, channel, chip_sub, chan_sub, writer, macro_env),
            Chip::Opl4(c) => c.send_with_macro_env(event, channel, chip_sub, chan_sub, writer, macro_env),
            Chip::Dmg(c) => c.send_with_macro_env(event, channel, chip_sub, chan_sub, writer, macro_env),
            Chip::HuC6280(c) => c.send_with_macro_env(event, channel, chip_sub, chan_sub, writer, macro_env),
            Chip::Sn76489(c) => c.send(event, channel, chip_sub, chan_sub, writer),
            Chip::Ay8910(c) => c.send(event, channel, chip_sub, chan_sub, writer),
            Chip::Ay8930(c) => c.send(event, channel, chip_sub, chan_sub, writer),
            Chip::NesApu(c) => c.send(event, channel, chip_sub, chan_sub, writer),
            Chip::Pokey(c) => c.send(event, channel, chip_sub, chan_sub, writer),
            Chip::QSound(c) => c.send(event, channel, chip_sub, chan_sub, writer),
            Chip::T6w28(c) => c.send(event, channel, chip_sub, chan_sub, writer),
        }
    }
}

/// A chip driver together with the options it was enabled with.
#[derive(Debug)]
pub struct ChipInstance {
    pub chip: Chip,
    pub options: ChipOptions,
}

impl ChipInstance {
    /// Wrap a driver with empty options.
    pub fn new(chip: Chip) -> (r: ChipInstance)
        ensures
            r.chip == chip,
            forall|k: char| r.options.spec_get(k) == 0,
    {
        ChipInstance { chip, options: ChipOptions::new() }
    }
}

/// Does the name denote a chip in the driver registry?
pub open spec fn spec_known_chip(s: Seq<char>) -> bool {
    ||| s == "PSG"@
    ||| s == "OPN2"@
    ||| s == "OPLL"@
    ||| s == "OPL2"@
    ||| s == "OPL3"@
    ||| s == "OPL4"@
    ||| s == "AY8910"@
    ||| s == "GI-AY"@
    ||| s == "AY8930"@
    ||| s == "2A03"@
    ||| s == "FAMICOM"@
    ||| s == "DMG"@
    ||| s == "GAMEBOY"@
    ||| s == "HuC6280"@
    ||| s == "Pokey"@
    ||| s == "QSound"@
    ||| s == "T6W28"@
}

/// Create a chip instance by name; unknown names are rejected.
pub fn create_chip(name: &str) -> (r: Result<ChipInstance, Error>)
    ensures
        r is Ok <==> spec_known_chip(name@),
        r is Ok ==> r->Ok_0.chip.wf(),
{
    let cs = str_chars(name);
    let chip: Chip = if chars_match(&cs, "PSG") {
        Chip::Sn76489(sn76489::Sn76489::new())
    } else if chars_match(&cs, "OPN2") {
        Chip::Opn2(opn2::Opn2::new())
    } else if chars_match(&cs, "OPLL") {
        Chip::Opll(opll::Opll::new())
    } else if chars_match(&cs, "OPL2") {
        Chip::Opl2(opl2::Opl2::new())
    } else if chars_match(&cs, "OPL3") {
        Chip::Opl3(opl3::Opl3::new())
    } else if chars_match(&cs, "OPL4") {
        Chip::Opl4(opl4::Opl4::new())
    } else if chars_match(&cs, "AY8910") || chars_match(&cs, "GI-AY") {
        Chip::Ay8910(ay8910::Ay8910::new())
    } else if chars_match(&cs, "AY8930") {
        Chip::Ay8930(ay8930::Ay8930::new())
    } else if chars_match(&cs, "2A03") || chars_match(&cs, "FAMICOM") {
        Chip::NesApu(nes_apu::NesApu::new())
    } else if chars_match(&cs, "DMG") || chars_match(&cs, "GAMEBOY") {
        Chip::Dmg(dmg::Dmg::new())
    } else if chars_match(&cs, "HuC6280") {
        Chip::HuC6280(huc6280::HuC6280::new())
    } else if chars_match(&cs, "Pokey") {
        Chip::Pokey(pokey::Pokey::new())
    } else if chars_match(&cs, "QSound") {
        Chip::QSound(qsound::QSound::new())
    } else if chars_match(&cs, "T6W28") {
        Chip::T6w28(t6w28::T6w28::new())
    } else {
        return Err(Error::UnknownChip(<String as vstd::string::StringExecFns>::from_str(name)));
    };
    Ok(ChipInstance::new(chip))
}

/// All chip names the registry accepts, one name per driver, in a
/// fixed order; `create_chip` accepts every listed name.
pub fn list_chips() -> (r: Vec<&'static str>)
    ensures
        r@.len() == 14,
        r@[0]@ == "PSG"@,
        r@[1]@ == "OPN2"@,
        r@[2]@ == "OPLL"@,
        r@[3]@ == "OPL2"@,
        r@[4]@ == "OPL3"@,
        r@[5]@ == "OPL4"@,
        r@[6]@ == "AY8910"@,
        r@[7]@ == "AY8930"@,
        r@[8]@ == "2A03"@,
        r@[9]@ == "DMG"@,
        r@[10]@ == "HuC6280"@,
        r@[11]@ == "Pokey"@,
        r@[12]@ == "QSound"@,
        r@[13]@ == "T6W28"@,
        forall|i: int| 0 <= i < r@.len() ==> spec_known_chip((#[trigger] r@[i])@),
{
    let mut v: Vec<&'static str> = Vec::new();
    v.push("PSG");
    v.push("OPN2");
    v.push("OPLL");
    v.push("OPL2");
    v.push("OPL3");
    v.push("OPL4");
    v.push("AY8910");
    v.push("AY8930");
    v.push("2A03");
    v.push("DMG");
    v.push("HuC6280");
    v.push("Pokey");
    v.push("QSound");
    v.push("T6W28");
    proof {
        assert forall|i: int| 0 <= i < v@.len() implies spec_known_chip((#[trigger] v@[i])@) by {
            if i == 0 {
            } else if i == 1 {
            } else if i == 2 {
            } else if i == 3 {
            } else if i == 4 {
            } else if i == 5 {
            } else if i == 6 {
            } else if i == 7 {
            } else if i == 8 {
            } else if i == 9 {
            } else if i == 10 {
            } else if i == 11 {
            } else if i == 12 {
            } else {
                assert(i == 13);
            }
        }
    }
    v
}

} // verus!
