//! YMF278B (OPL4) sound chip driver.
//!
//! The FM half of the YMF278B is an OPL3-compatible core; register
//! writes go out as YMF278B port writes, and the wavetable half is
//! left at its boot defaults.

use vstd::prelude::*;
use super::{ChipOptions, MacroCommand, CHIP_ID_YMF278B, writer_extended};
use crate::compiler::envelope::MacroEnvStorage;
use crate::compiler::event::ChipEvent;
use crate::vgm::header;
use crate::vgm::header::le32;
use crate::vgm::writer::VgmWriter;

verus! {

/// The first-operator offset of each two-operator channel.
fn chop(d: usize) -> (r: u8)
    requires
        d < 9,
    ensures
        r <= 18,
{
    if d == 0 {
        0
    } else if d == 1 {
        1
    } else if d == 2 {
        2
    } else if d == 3 {
        8
    } else if d == 4 {
        9
    } else if d == 5 {
        10
    } else if d == 6 {
        16
    } else if d == 7 {
        17
    } else {
        18
    }
}

/// Operator offsets within a four-operator channel.
fn fop(op: usize) -> (r: u8)
    ensures
        r <= 11,
{
    if op % 4 == 0 {
        0
    } else if op % 4 == 1 {
        3
    } else if op % 4 == 2 {
        8
    } else {
        11
    }
}

/// The YMF278B port byte for each port and instance; bit seven
/// selects the second chip.
fn inst_port(id: usize) -> (r: u8) {
    if id % 4 == 0 {
        0x00
    } else if id % 4 == 1 {
        0x01
    } else if id % 4 == 2 {
        0x80
    } else {
        0x81
    }
}

/// A mask of the lowest `n` bits, for the connection-select register.
fn low_mask(n: usize) -> (r: u8)
    requires
        n <= 6,
{
    if n == 0 {
        0
    } else if n == 1 {
        1
    } else if n == 2 {
        3
    } else if n == 3 {
        7
    } else if n == 4 {
        15
    } else if n == 5 {
        31
    } else {
        63
    }
}

/// YMF278B OPL4 chip.
#[derive(Debug)]
pub struct Opl4 {
    pub clock: i32,
    /// Two-operator channel assignments.
    pub a2op: Vec<u8>,
    /// Four-operator channel assignments.
    pub a4op: Vec<u8>,
    /// Voices used per role: two-op, four-op, rhythm.
    pub use_count: Vec<usize>,
    pub dual: bool,
    /// Rhythm register shadow per chip.
    pub drum: Vec<u8>,
    /// Rhythm sample selection per chip.
    pub sam: Vec<u16>,
    /// Cached tone, volume and panning bits.
    pub tone: u16,
}

impl Opl4 {
    /// Well-formed tables.
    pub open spec fn wf(&self) -> bool {
        &&& self.a2op@.len() == 36
        &&& self.a4op@.len() == 12
        &&& self.use_count@.len() == 3
        &&& self.drum@.len() == 2
        &&& self.sam@.len() == 2
    }

    /// A fresh driver.
    pub fn new() -> (r: Opl4)
        ensures
            r.wf(),
            r.clock == 33868800,
            !r.dual,
    {
        let mut a2op: Vec<u8> = Vec::new();
        let mut i: usize = 0;
        while i < 36
            invariant
                i <= 36,
                a2op@.len() == i,
            decreases 36 - i,
        {
            a2op.push(0);
            i = i + 1;
        }
        let mut a4op: Vec<u8> = Vec::new();
        let mut j: usize = 0;
        while j < 12
            invariant
                j <= 12,
                a4op@.len() == j,
            decreases 12 - j,
        {
            a4op.push(0);
            j = j + 1;
        }
        let mut use_count: Vec<usize> = Vec::new();
        use_count.push(0);
        use_count.push(0);
        use_count.push(0);
        let mut drum: Vec<u8> = Vec::new();
        drum.push(0);
        drum.push(0);
        let mut sam: Vec<u16> = Vec::new();
        sam.push(0);
        sam.push(0);
        Opl4 { clock: 33868800, a2op, a4op, use_count, dual: false, drum, sam, tone: 0xC000 }
    }

    /// Emit one register write on the given port and instance; writes to
    /// the second instance are dropped unless dual mode is on.
    fn poke(&self, id: usize, addr: u8, data: u8, writer: &mut VgmWriter)
        requires
            old(writer).wf(),
        ensures
            final(writer).wf(),
            writer_extended(*old(writer), *final(writer)),
    {
        if (id % 4) >= 2 && !self.dual {
            proof {
                assert(writer.data_view().subrange(0, old(writer).data_view().len() as int)
                    =~= old(writer).data_view());
            }
            return;
        }
        writer.write4(0xD0, inst_port(id), addr, data);
        proof {
            assert(writer.data_view().subrange(0, old(writer).data_view().len() as int)
                =~= old(writer).data_view());
        }
    }

    /// Write a channel register; a rhythm channel code fans out to the
    /// three rhythm channels.
    fn poke_chan(&self, ch: usize, addr: u8, data: u8, writer: &mut VgmWriter)
        requires
            old(writer).wf(),
            addr <= 0xC0,
        ensures
            final(writer).wf(),
            writer_extended(*old(writer), *final(writer)),
    {
        if (ch % 16) == 15 {
            self.poke(ch / 64, addr | 6, data, writer);
            self.poke(ch / 64, addr | 7, data, writer);
            self.poke(ch / 64, addr | 8, data, writer);
        } else {
            self.poke(ch / 64, addr | ((ch % 16) as u8), data, writer);
        }
        proof {
            assert(writer.data_view().subrange(0, old(writer).data_view().len() as int)
                =~= old(writer).data_view());
        }
    }

    /// Write an operator register of a channel.
    fn poke_oper(&self, ch: usize, op: usize, addr: u8, data: u8, writer: &mut VgmWriter)
        requires
            old(writer).wf(),
            addr <= 0xE0,
        ensures
            final(writer).wf(),
            writer_extended(*old(writer), *final(writer)),
    {
        if (ch % 16) == 15 {
            #[verifier::truncate]
            let a = (((op % 4) as u64) + (addr as u64) + 16) as u8;
            self.poke(ch / 64, a, data, writer);
        } else {
            if (ch % 16) < 9 {
                #[verifier::truncate]
                let a = ((chop(ch % 16) as u64) + (fop(op) as u64) + (addr as u64)) as u8;
                self.poke(ch / 64, a, data, writer);
            }
        }
        proof {
            assert(writer.data_view().subrange(0, old(writer).data_view().len() as int)
                =~= old(writer).data_view());
        }
    }

    /// One value of the instrument patch, zero when out of range.
    fn patch_at(data: &Vec<i16>, i: usize) -> (r: i16)
        ensures
            i < data@.len() ==> r == data@[i as int],
            i >= data@.len() ==> r == 0,
    {
        if i < data.len() {
            data[i]
        } else {
            0
        }
    }

    /// Write a channel's operators from the patch, with the volume folded
    /// into the uncarried total levels; `patch` also rewrites the
    /// envelope and waveform bytes.
    fn instrument(
        &self,
        sub: usize,
        ch: usize,
        patch: bool,
        data: u16,
        macro_env: &MacroEnvStorage,
        writer: &mut VgmWriter,
    )
        requires
            old(writer).wf(),
            macro_env.wf(),
        ensures
            final(writer).wf(),
            writer_extended(*old(writer), *final(writer)),
    {
        let inst_idx = (data % 256) as usize;
        let env = macro_env.env(3, inst_idx);
        let inst_data = env.data.clone();

        let mut op: usize = ((sub % 2) + 1) * 2;
        let fb_data = Self::patch_at(&inst_data, op * 5);
        #[verifier::truncate]
        let fbu = fb_data as u16;
        let alg: u8 = ((fbu / 16) % 4) as u8;
        let fb: u8 = (fbu % 8) as u8;
        let vol: i64 = ((data / 0x100) % 0x40) as i64;
        proof {
            assert(0 <= vol < 0x40);
        }
        #[verifier::truncate]
        let pan = (((data / 0x400) as u16) & 0x30) as u8;

        while op > 0
            invariant
                old(writer).wf(),
                macro_env.wf(),
                writer.wf(),
                writer.header_view() == old(writer).header_view(),
                writer.loop_view() == old(writer).loop_view(),
                writer.data_view().len() >= old(writer).data_view().len(),
                writer.data_view().subrange(0, old(writer).data_view().len() as int) == old(
                    writer,
                ).data_view(),
                op <= 4,
            decreases op,
        {
            op = op - 1;
            let op_flags = Self::patch_at(&inst_data, op * 5 + 4);
            #[verifier::truncate]
            let flags = op_flags as u16;
            if patch {
                #[verifier::truncate]
                let p0 = Self::patch_at(&inst_data, op * 5) as u8;
                self.poke_oper(ch, op, 0x20, p0, writer);
                if (flags & 0x10) != 0 {
                    #[verifier::truncate]
                    let p1 = Self::patch_at(&inst_data, op * 5 + 1) as u8;
                    self.poke_oper(ch, op, 0x40, p1, writer);
                }
                #[verifier::truncate]
                let p2 = Self::patch_at(&inst_data, op * 5 + 2) as u8;
                self.poke_oper(ch, op, 0x60, p2, writer);
                #[verifier::truncate]
                let p3 = Self::patch_at(&inst_data, op * 5 + 3) as u8;
                self.poke_oper(ch, op, 0x80, p3, writer);
                self.poke_oper(ch, op, 0xE0, (flags % 8) as u8, writer);
            }
            if (flags & 0x10) == 0 {
                let tl = Self::patch_at(&inst_data, op * 5 + 1);
                #[verifier::truncate]
                let tlu = tl as u16;
                let volc: i64 = if 0 <= vol && vol < 0x40 {
                    vol
                } else {
                    0
                };
                let mut x: i64 = ((tlu % 0x40) as i64) + volc;
                if x > 63 {
                    x = 63;
                }
                #[verifier::truncate]
                let tl_hi = (tlu & 0xC0) as u8;
                self.poke_oper(ch, op, 0x40, (x as u8) | tl_hi, writer);
            }
            proof {
                assert(writer.data_view().subrange(0, old(writer).data_view().len() as int)
                    =~= old(writer).data_view());
            }
        }

        if (sub % 2) == 1 && ch < 0xFFFD {
            self.poke_chan(ch + 3, 0xC0, alg / 2, writer);
        }
        let x = (fb * 2) | (alg % 2);
        self.poke_chan(ch, 0xC0, x | pan, writer);
        proof {
            assert(writer.data_view().subrange(0, old(writer).data_view().len() as int)
                =~= old(writer).data_view());
        }
    }

    /// The chip's name.
    pub fn name(&self) -> (r: &'static str)
        ensures
            r@ == "OPL4"@,
    {
        "OPL4"
    }

    /// The chip's VGM chip id.
    pub fn chip_id(&self) -> (r: u8)
        ensures
            r == CHIP_ID_YMF278B,
    {
        CHIP_ID_YMF278B
    }

    /// Frequency-based: the FM sample rate is the master clock over
    /// 768, against 288 on the YMF262, so the note reference is the
    /// clock over twenty-four.
    pub fn clock_div(&self) -> (r: i32)
        ensures
            self.clock >= 0 ==> r == self.clock / 24,
    {
        self.clock / 24
    }

    /// Ten-bit pitch register, unshifted by octave.
    pub fn note_bits(&self) -> (r: i32)
        ensures
            r == -10,
    {
        -10
    }

    /// Reference octave.
    pub fn basic_octave(&self) -> (r: i32)
        ensures
            r == 0,
    {
        0
    }

    /// Apply parsed options with the hardware default clock.
    pub fn enable(&mut self, options: &ChipOptions)
        requires
            old(self).wf(),
        ensures
            final(self).wf(),
            final(self).clock == (if options.spec_get('H') == 0 {
                33868800int
            } else {
                options.spec_get('H')
            }),
    {
        self.clock = options.get('H');
        if self.clock == 0 {
            self.clock = 33868800;
        }
    }

    /// Record one two-operator assignment and advance the slot counter.
    fn push2(&mut self, i: &mut usize, v: u8)
        requires
            old(self).wf(),
        ensures
            final(self).wf(),
            final(self).dual == old(self).dual,
            final(self).use_count == old(self).use_count,
            final(self).a4op == old(self).a4op,
            final(self).drum == old(self).drum,
            final(self).sam == old(self).sam,
            final(self).tone == old(self).tone,
            final(self).clock == old(self).clock,
    {
        if *i < 36 {
            self.a2op.set(*i, v);
            *i = *i + 1;
        }
    }

    /// Record one four-operator assignment and advance the slot counter.
    fn push4(&mut self, i: &mut usize, v: u8)
        requires
            old(self).wf(),
        ensures
            final(self).wf(),
            final(self).dual == old(self).dual,
            final(self).use_count == old(self).use_count,
            final(self).a2op == old(self).a2op,
            final(self).drum == old(self).drum,
            final(self).sam == old(self).sam,
            final(self).tone == old(self).tone,
            final(self).clock == old(self).clock,
    {
        if *i < 12 {
            self.a4op.set(*i, v);
            *i = *i + 1;
        }
    }

    /// Build the channel assignments from the measured usage, resolve the
    /// dual flag, and emit the mode-enable writes.
    pub fn file_begin(&mut self, writer: &mut VgmWriter)
        requires
            old(self).wf(),
            old(writer).wf(),
        ensures
            final(self).wf(),
            writer_extended(*old(writer), *final(writer)),
    {
        let mut a2: usize = 0;
        let mut a4: usize = 0;

        self.dual = self.use_count[2] > 1;

        self.push2(&mut a2, 0x46);
        self.push2(&mut a2, 0x47);
        self.push2(&mut a2, 0x48);
        if self.use_count[2] < 1 {
            self.push2(&mut a2, 0x06);
            self.push2(&mut a2, 0x07);
            self.push2(&mut a2, 0x08);
        }
        let u1 = self.use_count[1];
        if u1 < 1 {
            self.push2(&mut a2, 0x00);
            self.push2(&mut a2, 0x03);
        } else {
            self.push4(&mut a4, 0x00);
        }
        if u1 < 2 {
            self.push2(&mut a2, 0x01);
            self.push2(&mut a2, 0x04);
        } else {
            self.push4(&mut a4, 0x01);
        }
        if u1 < 3 {
            self.push2(&mut a2, 0x02);
            self.push2(&mut a2, 0x05);
        } else {
            self.push4(&mut a4, 0x02);
        }
        if u1 < 4 {
            self.push2(&mut a2, 0x40);
            self.push2(&mut a2, 0x43);
        } else {
            self.push4(&mut a4, 0x40);
        }
        if u1 < 5 {
            self.push2(&mut a2, 0x41);
            self.push2(&mut a2, 0x44);
        } else {
            self.push4(&mut a4, 0x41);
        }
        if u1 < 6 {
            self.push2(&mut a2, 0x42);
            self.push2(&mut a2, 0x45);
        } else {
            self.push4(&mut a4, 0x42);
        }
        if u1 < 7 {
            self.push2(&mut a2, 0x80);
            self.push2(&mut a2, 0x83);
        } else {
            self.push4(&mut a4, 0x80);
        }
        if u1 < 8 {
            self.push2(&mut a2, 0x81);
            self.push2(&mut a2, 0x84);
        } else {
            self.push4(&mut a4, 0x81);
        }
        if u1 < 9 {
            self.push2(&mut a2, 0x82);
            self.push2(&mut a2, 0x85);
        } else {
            self.push4(&mut a4, 0x82);
        }
        if u1 < 10 {
            self.push2(&mut a2, 0xC0);
            self.push2(&mut a2, 0xC3);
        } else {
            self.push4(&mut a4, 0xC0);
        }
        if u1 < 11 {
            self.push2(&mut a2, 0xC1);
            self.push2(&mut a2, 0xC4);
        } else {
            self.push4(&mut a4, 0xC1);
        }
        if u1 < 12 {
            self.push2(&mut a2, 0xC2);
            self.push2(&mut a2, 0xC5);
        } else {
            self.push4(&mut a4, 0xC2);
        }
        self.push2(&mut a2, 0xC6);
        self.push2(&mut a2, 0xC7);
        self.push2(&mut a2, 0xC8);
        if self.use_count[2] < 2 {
            self.push2(&mut a2, 0x86);
            self.push2(&mut a2, 0x87);
            self.push2(&mut a2, 0x88);
        }

        // Any two-operator voice assigned to the second instance forces
        // dual mode, as does four-operator usage past one chip.
        let mut x: usize = 0;
        let limit: usize = if self.use_count[0] < 36 {
            self.use_count[0]
        } else {
            36
        };
        while x < limit
            invariant
                self.wf(),
                limit <= 36,
                x <= limit,
            decreases limit - x,
        {
            if (self.a2op[x] & 0x80) != 0 {
                self.dual = true;
            }
            x = x + 1;
        }
        if self.use_count[1] > 6 {
            self.dual = true;
        }

        self.poke(0, 0x01, 0x20, writer);
        self.poke(1, 0x05, 0x01, writer);
        self.poke(2, 0x01, 0x20, writer);
        self.poke(3, 0x05, 0x01, writer);

        let c1: usize = if self.use_count[1] < 6 {
            self.use_count[1]
        } else {
            6
        };
        let conn1: u8 = low_mask(c1);
        self.poke(1, 0x04, conn1, writer);
        let conn2: u8 = if self.use_count[1] > 6 {
            let c2: usize = if self.use_count[1] - 6 < 6 {
                self.use_count[1] - 6
            } else {
                6
            };
            low_mask(c2)
        } else {
            0
        };
        self.poke(3, 0x04, conn2, writer);

        self.drum.set(0, 0);
        self.drum.set(1, 0);
        self.sam.set(0, 0);
        self.sam.set(1, 0);
        self.tone = 0xC000;
        proof {
            assert(writer.data_view().subrange(0, old(writer).data_view().len() as int)
                =~= old(writer).data_view());
        }
    }

    /// Fix the YMF278B clock field, bit 30 for dual-chip use.
    pub fn file_end(&mut self, writer: &mut VgmWriter)
        requires
            old(self).wf(),
            old(writer).wf(),
        ensures
            final(self).wf(),
            *final(self) == *old(self),
            final(writer).wf(),
            final(writer).data_view() == old(writer).data_view(),
            final(writer).loop_view() == old(writer).loop_view(),
            0 <= old(self).clock < 0x40000000 ==> le32(
                final(writer).header_view(),
                header::YMF278B_CLOCK as int,
            ) == old(self).clock + (if old(self).dual {
                0x40000000int
            } else {
                0int
            }),
            forall|i: int| 0 <= i < header::VGM_HEADER_SIZE && !(header::YMF278B_CLOCK <= i < header::YMF278B_CLOCK + 4)
                ==> final(writer).header_view()[i] == old(writer).header_view()[i],
    {
        let clock_val = super::clock_with_dual(self.clock, self.dual);
        writer.set_chip_clock(header::YMF278B_CLOCK, clock_val);
    }

    /// Nothing to invalidate at the loop point.
    pub fn loop_start(&mut self, writer: &mut VgmWriter)
        requires
            old(self).wf(),
            old(writer).wf(),
        ensures
            final(self).wf(),
            *final(self) == *old(self),
            writer_extended(*old(writer), *final(writer)),
    {
        proof {
            assert(writer.data_view().subrange(0, old(writer).data_view().len() as int)
                =~= old(writer).data_view());
        }
    }

    /// Nothing to record at channel start.
    pub fn start_channel(&mut self, channel: usize)
        requires
            old(self).wf(),
        ensures
            final(self).wf(),
            *final(self) == *old(self),
    {
    }

    /// Record the highest voice index per role.
    pub fn start_channel_with_info(&mut self, chip_sub: usize, chan_sub: usize)
        requires
            old(self).wf(),
        ensures
            final(self).wf(),
            (chip_sub < 3 && chan_sub < 100 && old(self).use_count@[chip_sub as int] < chan_sub
                + 1) ==> final(self).use_count@ == old(self).use_count@.update(
                chip_sub as int,
                (chan_sub + 1) as usize,
            ),
            !(chip_sub < 3 && chan_sub < 100 && old(self).use_count@[chip_sub as int] < chan_sub
                + 1) ==> final(self).use_count == old(self).use_count,
    {
        if chip_sub < 3 {
            if chan_sub < 100 {
                let b = chan_sub + 1;
                if self.use_count[chip_sub] < b {
                    self.use_count.set(chip_sub, b);
                }
            }
        }
    }

    /// Translate macro sets, folding volume and panning into the cached
    /// tone word.
    pub fn set_macro(
        &mut self,
        channel: usize,
        is_dynamic: bool,
        command: MacroCommand,
        value: i16,
    ) -> (r: Option<ChipEvent>)
        requires
            old(self).wf(),
        ensures
            final(self).wf(),
    {
        match command {
            MacroCommand::Volume => {
                #[verifier::truncate]
                let vu = value as u16;
                let inv = ((63u16 & !vu) % 64) * 0x100;
                self.tone = (self.tone & 0xC0FF) | (inv & 0x3F00);
                Some(ChipEvent::new(0x403, self.tone as i32, 0))
            },
            MacroCommand::Panning => {
                let pan: u16 = if value < 0 {
                    0x4000
                } else if value > 0 {
                    0x8000
                } else {
                    0xC000
                };
                self.tone = (self.tone & 0x3FFF) | pan;
                Some(ChipEvent::new(0x403, self.tone as i32, 0))
            },
            MacroCommand::Tone => {
                #[verifier::truncate]
                let low = ((value as u16) % 256) as u16;
                self.tone = (self.tone & !0xFF) | low;
                Some(ChipEvent::new(0x405, self.tone as i32, 0))
            },
            MacroCommand::Global => Some(ChipEvent::new(0x406, value as i32, 0)),
            MacroCommand::Sample => Some(ChipEvent::new(0x404, value as i32, 0)),
            _ => None,
        }
    }

    /// A note-on packs the frequency with the octave block and key-on bit.
    pub fn note_on(&mut self, channel: usize, note: i32, octave: i32, duration: i32) -> (r: Option<
        ChipEvent,
    >)
        requires
            old(self).wf(),
        ensures
            final(self).wf(),
            *final(self) == *old(self),
            r is Some,
    {
        #[verifier::truncate]
        let packed = (((note as i64) | (((octave as i64) * 1024) % 0x100000000) | 0x2000))
            as i32;
        Some(ChipEvent::new(0x400, packed, 0))
    }

    /// A pitch change repeats the note-on packing.
    pub fn note_change(&mut self, channel: usize, note: i32, octave: i32) -> (r: Option<ChipEvent>)
        requires
            old(self).wf(),
        ensures
            final(self).wf(),
            *final(self) == *old(self),
            r is Some,
    {
        #[verifier::truncate]
        let packed = (((note as i64) | (((octave as i64) * 1024) % 0x100000000) | 0x2000))
            as i32;
        Some(ChipEvent::new(0x400, packed, 0))
    }

    /// A note-off carries the frequency without the key-on bit.
    pub fn note_off(&mut self, channel: usize, note: i32, octave: i32) -> (r: Option<ChipEvent>)
        requires
            old(self).wf(),
        ensures
            final(self).wf(),
            *final(self) == *old(self),
            r is Some,
    {
        #[verifier::truncate]
        let packed = (((note as i64) | (((octave as i64) * 1024) % 0x100000000))) as i32;
        Some(ChipEvent::new(0x400, packed, 0))
    }

    /// A rest leaves the channel alone.
    pub fn rest(&mut self, channel: usize, duration: i32) -> (r: Option<ChipEvent>)
        requires
            old(self).wf(),
        ensures
            final(self).wf(),
            *final(self) == *old(self),
            r is None,
    {
        None
    }

    /// A direct write carries the port and register in the event type.
    pub fn direct(&mut self, channel: usize, address: u16, value: u8) -> (r: Option<ChipEvent>)
        requires
            old(self).wf(),
        ensures
            final(self).wf(),
            *final(self) == *old(self),
            r == Some(ChipEvent { event_type: address, value1: value as i32, value2: 0 }),
    {
        Some(ChipEvent::new(address, value as i32, 0))
    }

    /// The channel code an event addresses.
    fn chan_code(&self, chip_sub: usize, chan_sub: usize) -> (r: usize)
        requires
            self.wf(),
    {
        let a = chip_sub;
        let b = chan_sub;
        if a == 2 {
            15 | ((b % 4) * 128)
        } else if a != 0 {
            (self.a4op[b % 12]) as usize
        } else {
            (self.a2op[b % 36]) as usize
        }
    }

    /// Perform the register writes for one event without patch access.
    pub fn send(
        &mut self,
        event: &ChipEvent,
        channel: usize,
        chip_sub: usize,
        chan_sub: usize,
        writer: &mut VgmWriter,
    )
        requires
            old(self).wf(),
            old(writer).wf(),
        ensures
            final(self).wf(),
            writer_extended(*old(writer), *final(writer)),
    {
        let b = chan_sub;
        let c = self.chan_code(chip_sub, chan_sub);

        if event.event_type >= 0x400 {
            let cmd = event.event_type % 8;
            if cmd == 0 {
                // Note on, off or change.
                #[verifier::truncate]
                let d = event.value1 as u16;
                self.poke_chan(c, 0xA0, (d % 0x100) as u8, writer);
                self.poke_chan(c, 0xB0, (d / 0x100) as u8, writer);
            } else if cmd == 1 && b < 2 {
                // Rhythm on.
                #[verifier::truncate]
                let mut d = event.value1 as u16;
                if (self.sam[b] / 32) != 0 {
                    d = self.sam[b] / 32;
                }
                self.poke_chan(c, 0xA0, (d % 0x100) as u8, writer);
                self.poke_chan(c, 0xB0, (d / 0x100) as u8, writer);
                #[verifier::truncate]
                let sam_low = (self.sam[b] % 32) as u8;
                let dr = sam_low | 0x20 | (self.drum[b] & 0xC0);
                self.drum.set(b, dr);
                self.poke(b * 2, 0xBD, dr, writer);
            } else if cmd == 2 && b < 2 {
                // Rhythm off.
                let dr = self.drum[b] & 0xE0;
                self.drum.set(b, dr);
                self.poke(b * 2, 0xBD, dr, writer);
            } else if cmd == 4 && b < 2 {
                // Rhythm sample select.
                #[verifier::truncate]
                let s = event.value1 as u16;
                self.sam.set(b, s);
            } else if cmd == 6 {
                // Global tremolo and vibrato depth.
                #[verifier::truncate]
                let d = event.value1 as u8;
                let d0 = (self.drum[0] & 0x3F) | ((d % 4) * 64);
                self.drum.set(0, d0);
                self.poke(0, 0xBD, d0, writer);
                let d1 = (self.drum[1] & 0x3F) | ((d % 4) * 64);
                self.drum.set(1, d1);
                self.poke(2, 0xBD, d1, writer);
                let hi = ((d / 4) % 4) * 64;
                self.poke(0, 0x08, hi, writer);
                self.poke(2, 0x08, hi, writer);
            }
        } else {
            // Direct register write.
            let port = (event.event_type / 0x100) as usize;
            #[verifier::truncate]
            let addr = (event.event_type % 0x100) as u8;
            #[verifier::truncate]
            let v1 = event.value1 as u8;
            self.poke(port, addr, v1, writer);
        }
        proof {
            assert(writer.data_view().subrange(0, old(writer).data_view().len() as int)
                =~= old(writer).data_view());
        }
    }

    /// Like `send`, but volume and instrument changes write the patch
    /// from the instrument envelope.
    pub fn send_with_macro_env(
        &mut self,
        event: &ChipEvent,
        channel: usize,
        chip_sub: usize,
        chan_sub: usize,
        writer: &mut VgmWriter,
        macro_env: &MacroEnvStorage,
    )
        requires
            old(self).wf(),
            old(writer).wf(),
            macro_env.wf(),
        ensures
            final(self).wf(),
            writer_extended(*old(writer), *final(writer)),
    {
        let a = chip_sub;
        let c = self.chan_code(chip_sub, chan_sub);

        if event.event_type >= 0x400 {
            let cmd = event.event_type % 8;
            if cmd == 3 {
                #[verifier::truncate]
                let d = event.value1 as u16;
                self.instrument(a, c, false, d, macro_env, writer);
            } else if cmd == 5 {
                #[verifier::truncate]
                let d = event.value1 as u16;
                self.instrument(a, c, true, d, macro_env, writer);
            } else {
                self.send(event, channel, chip_sub, chan_sub, writer);
            }
        } else {
            self.send(event, channel, chip_sub, chan_sub, writer);
        }
        proof {
            assert(writer.data_view().subrange(0, old(writer).data_view().len() as int)
                =~= old(writer).data_view());
        }
    }
}

impl Default for Opl4 {
    /// A fresh driver.
    fn default() -> (r: Opl4)
        ensures
            r.wf(),
    {
        Opl4::new()
    }
}

} // verus!
