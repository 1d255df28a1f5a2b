//! YM3812 (OPL2) sound chip driver.

use vstd::prelude::*;
use super::{ChipOptions, MacroCommand, CHIP_ID_YM3812, writer_extended};
use crate::compiler::envelope::MacroEnvStorage;
use crate::compiler::event::ChipEvent;
use crate::vgm::header;
use crate::vgm::header::le32;
use crate::vgm::writer::VgmWriter;

verus! {

/// The first-operator offset of each melody channel.
fn oper_off(d: usize) -> (r: usize)
    requires
        d < 9,
    ensures
        r <= 18,
{
    if d == 0 {
        0
    } else if d == 1 {
        1
    } else if d == 2 {
        2
    } else if d == 3 {
        8
    } else if d == 4 {
        9
    } else if d == 5 {
        10
    } else if d == 6 {
        16
    } else if d == 7 {
        17
    } else {
        18
    }
}

/// YM3812 OPL2 chip.
#[derive(Debug)]
pub struct Opl2 {
    pub clock: i32,
    /// Register shadow, chip-major (two chips of 256; -1 unknown).
    pub memory: Vec<i16>,
    /// Dual-chip split point (0 when single).
    pub dual: usize,
    /// Voices used per role: melody, rhythm.
    pub subc: Vec<usize>,
    /// Instrument per role and voice, role-major.
    pub instr: Vec<usize>,
    /// Volume per role and voice, role-major.
    pub vol: Vec<i32>,
}

impl Opl2 {
    /// Well-formed tables.
    pub open spec fn wf(&self) -> bool {
        &&& self.memory@.len() == 512
        &&& self.subc@.len() == 2
        &&& self.instr@.len() == 108
        &&& self.vol@.len() == 108
    }

    /// A fresh driver.
    pub fn new() -> (r: Opl2)
        ensures
            r.wf(),
            r.clock == 3579545,
    {
        let mut memory: Vec<i16> = Vec::new();
        let mut i: usize = 0;
        while i < 512
            invariant
                i <= 512,
                memory@.len() == i,
            decreases 512 - i,
        {
            memory.push(-1);
            i = i + 1;
        }
        let mut subc: Vec<usize> = Vec::new();
        subc.push(0);
        subc.push(0);
        let mut instr: Vec<usize> = Vec::new();
        let mut vol: Vec<i32> = Vec::new();
        let mut j: usize = 0;
        while j < 108
            invariant
                j <= 108,
                instr@.len() == j,
                vol@.len() == j,
            decreases 108 - j,
        {
            instr.push(0);
            vol.push(0);
            j = j + 1;
        }
        Opl2 { clock: 3579545, memory, dual: 0, subc, instr, vol }
    }

    /// Write one register through the shadow, skipping unchanged values.
    fn write_opl(&mut self, chip: usize, address: usize, value: u8, writer: &mut VgmWriter)
        requires
            old(self).wf(),
            old(writer).wf(),
        ensures
            final(self).wf(),
            writer_extended(*old(writer), *final(writer)),
            ({
                let slot = (chip % 2) * 256 + address % 256;
                let emit = old(self).memory@[slot as int] != value as i16;
                &&& (emit ==> final(self).memory@ == old(self).memory@.update(
                    slot as int,
                    value as i16,
                ) && final(writer).data_view() == old(writer).data_view() + seq![
                    (if chip % 2 != 0 {
                        0xAAu8
                    } else {
                        0x5Au8
                    }),
                    (address % 256) as u8,
                    value,
                ])
                &&& (!emit ==> final(self).memory == old(self).memory
                    && final(writer).data_view() == old(writer).data_view())
            }),
            final(self).subc == old(self).subc,
            final(self).dual == old(self).dual,
            final(self).clock == old(self).clock,
            final(self).instr == old(self).instr,
            final(self).vol == old(self).vol,
    {
        let chip = chip % 2;
        let address = address % 256;
        let slot = chip * 256 + address;
        if self.memory[slot] != value as i16 {
            self.memory.set(slot, value as i16);
            let cmd: u8 = if chip != 0 {
                0xAA
            } else {
                0x5A
            };
            writer.write3(cmd, address as u8, value);
        }
        proof {
            assert(writer.data_view().subrange(0, old(writer).data_view().len() as int)
                =~= old(writer).data_view());
        }
    }

    /// Masked register update through the shadow.
    fn set_opl(&mut self, chip: usize, address: usize, mask: u8, set: u8, writer: &mut VgmWriter)
        requires
            old(self).wf(),
            old(writer).wf(),
        ensures
            final(self).wf(),
            writer_extended(*old(writer), *final(writer)),
    {
        let chip = chip % 2;
        let address = address % 256;
        let cached = self.memory[chip * 256 + address];
        let current: u8 = if cached >= 0 {
            #[verifier::truncate]
            let c = cached as u8;
            c
        } else {
            0
        };
        let value = (current & !mask) | (set & mask);
        self.write_opl(chip, address, value, writer);
    }

    /// One value of the instrument patch, zero when out of range.
    fn patch_at(data: &Vec<i16>, i: usize) -> (r: i16)
        ensures
            i < data@.len() ==> r == data@[i as int],
            i >= data@.len() ==> r == 0,
    {
        if i < data.len() {
            data[i]
        } else {
            0
        }
    }

    /// Write one operator pair's patch bytes and leveled volume.
    fn set_instrument(
        &mut self,
        c: usize,
        ch: usize,
        o: usize,
        inst_data: &Vec<i16>,
        v: i32,
        writer: &mut VgmWriter,
    )
        requires
            old(self).wf(),
            old(writer).wf(),
            o <= 21,
            ch < 9,
        ensures
            final(self).wf(),
            writer_extended(*old(writer), *final(writer)),
    {
        let c = c % 2;
        let s: usize = (o % 8) / 3;
        let bd_cached = self.memory[c * 256 + 0xBD];
        let bd_val: u8 = if bd_cached >= 0 {
            #[verifier::truncate]
            let b = bd_cached as u8;
            b
        } else {
            0
        };
        let bd_mode = (bd_val & 0x20) != 0;
        #[verifier::truncate]
        let conn = (Self::patch_at(inst_data, 10) as u16 % 2) as u8;
        let h = (bd_mode && o > 16) || conn != 0 || s != 0;

        let lvl = Self::patch_at(inst_data, s | 2) as i64;
        let mut vol: i64 = (v as i64) + ((((lvl % 0x10000) + 0x10000) % 0x10000) % 64);
        if vol > 63 {
            vol = 63;
        }
        if vol < 0 {
            vol = 0;
        }

        #[verifier::truncate]
        let p0 = Self::patch_at(inst_data, s) as u8;
        self.write_opl(c, o | 0x20, p0, writer);
        #[verifier::truncate]
        let lvl_u8 = lvl as u8;
        let tl: u8 = if h {
            (lvl_u8 & 0xC0) | (vol as u8)
        } else {
            lvl_u8
        };
        self.write_opl(c, o | 0x40, tl, writer);
        #[verifier::truncate]
        let p4 = Self::patch_at(inst_data, s | 4) as u8;
        self.write_opl(c, o | 0x60, p4, writer);
        #[verifier::truncate]
        let p6 = Self::patch_at(inst_data, s | 6) as u8;
        self.write_opl(c, o | 0x80, p6, writer);
        #[verifier::truncate]
        let p8 = Self::patch_at(inst_data, s | 8) as u8;
        self.write_opl(c, o | 0xE0, p8, writer);
        if s == 0 {
            #[verifier::truncate]
            let p10 = Self::patch_at(inst_data, 10) as u8;
            self.write_opl(c, ch | 0xC0, p10, writer);
        }
        proof {
            assert(writer.data_view().subrange(0, old(writer).data_view().len() as int)
                =~= old(writer).data_view());
        }
    }

    /// The chip's name.
    pub fn name(&self) -> (r: &'static str)
        ensures
            r@ == "OPL2"@,
    {
        "OPL2"
    }

    /// The chip's VGM chip id.
    pub fn chip_id(&self) -> (r: u8)
        ensures
            r == CHIP_ID_YM3812,
    {
        CHIP_ID_YM3812
    }

    /// Frequency-based: the clock over nine.
    pub fn clock_div(&self) -> (r: i32)
        ensures
            self.clock >= 0 ==> r == self.clock / 9,
    {
        self.clock / 9
    }

    /// Ten-bit pitch register, unshifted by octave.
    pub fn note_bits(&self) -> (r: i32)
        ensures
            r == -10,
    {
        -10
    }

    /// Reference octave.
    pub fn basic_octave(&self) -> (r: i32)
        ensures
            r == 7,
    {
        7
    }

    /// Apply parsed options with the hardware default clock.
    pub fn enable(&mut self, options: &ChipOptions)
        requires
            old(self).wf(),
        ensures
            final(self).wf(),
            final(self).clock == (if options.spec_get('H') == 0 {
                3579545int
            } else {
                options.spec_get('H')
            }),
    {
        self.clock = options.get('H');
        if self.clock == 0 {
            self.clock = 3579545;
        }
    }

    /// Reset the shadow, resolve the dual split, and emit the power-up
    /// writes on each chip in use.
    pub fn file_begin(&mut self, writer: &mut VgmWriter)
        requires
            old(self).wf(),
            old(writer).wf(),
        ensures
            final(self).wf(),
            writer_extended(*old(writer), *final(writer)),
    {
        let mut i: usize = 0;
        while i < 512
            invariant
                i <= 512,
                self.memory@.len() == 512,
                self.subc@.len() == 2,
                self.instr@.len() == 108,
                self.vol@.len() == 108,
            decreases 512 - i,
        {
            self.memory.set(i, -1);
            i = i + 1;
        }

        self.dual = if self.subc[1] == 2 {
            6
        } else {
            9
        };
        if self.subc[1] < 2 && self.subc[0] <= self.dual {
            self.dual = 0;
        }

        let chip_count: usize = if self.dual != 0 {
            2
        } else {
            1
        };
        let mut c: usize = 0;
        while c < chip_count
            invariant
                old(writer).wf(),
                self.wf(),
                chip_count <= 2,
                writer.wf(),
                writer.header_view() == old(writer).header_view(),
                writer.loop_view() == old(writer).loop_view(),
                writer.data_view().len() >= old(writer).data_view().len(),
                writer.data_view().subrange(0, old(writer).data_view().len() as int) == old(
                    writer,
                ).data_view(),
                c <= chip_count,
            decreases chip_count - c,
        {
            self.write_opl(c, 0x01, 0x20, writer);
            self.write_opl(c, 0x08, 0x00, writer);
            let mut reg: usize = 0x20;
            while reg < 0xB9
                invariant
                    old(writer).wf(),
                    self.wf(),
                    writer.wf(),
                    writer.header_view() == old(writer).header_view(),
                    writer.loop_view() == old(writer).loop_view(),
                    writer.data_view().len() >= old(writer).data_view().len(),
                    writer.data_view().subrange(0, old(writer).data_view().len() as int) == old(
                        writer,
                    ).data_view(),
                    reg <= 0xB9,
                    c < 2,
                decreases 0xB9 - reg,
            {
                self.write_opl(c, reg, 0x00, writer);
                proof {
                    assert(writer.data_view().subrange(
                        0,
                        old(writer).data_view().len() as int,
                    ) =~= old(writer).data_view());
                }
                reg = reg + 1;
            }
            let rhythm: u8 = if self.subc[1] > c {
                0x20
            } else {
                0x00
            };
            self.write_opl(c, 0xBD, rhythm, writer);
            proof {
                assert(writer.data_view().subrange(0, old(writer).data_view().len() as int)
                    =~= old(writer).data_view());
            }
            c = c + 1;
        }
        proof {
            assert(writer.data_view().subrange(0, old(writer).data_view().len() as int)
                =~= old(writer).data_view());
        }
    }

    /// Fix the YM3812 clock field, bit 30 for dual-chip use.
    pub fn file_end(&mut self, writer: &mut VgmWriter)
        requires
            old(self).wf(),
            old(writer).wf(),
        ensures
            final(self).wf(),
            *final(self) == *old(self),
            final(writer).wf(),
            final(writer).data_view() == old(writer).data_view(),
            final(writer).loop_view() == old(writer).loop_view(),
            0 <= old(self).clock < 0x40000000 ==> le32(
                final(writer).header_view(),
                header::YM3812_CLOCK as int,
            ) == old(self).clock + (if old(self).dual != 0 {
                0x40000000int
            } else {
                0int
            }),
            forall|i: int| 0 <= i < header::VGM_HEADER_SIZE && !(header::YM3812_CLOCK <= i < header::YM3812_CLOCK + 4)
                ==> final(writer).header_view()[i] == old(writer).header_view()[i],
    {
        let clock_val = super::clock_with_dual(self.clock, self.dual != 0);
        writer.set_chip_clock(header::YM3812_CLOCK, clock_val);
    }

    /// Invalidate the frequency registers at the loop point: their value
    /// at loop re-entry may differ from the shadow.
    pub fn loop_start(&mut self, writer: &mut VgmWriter)
        requires
            old(self).wf(),
            old(writer).wf(),
        ensures
            final(self).wf(),
            writer_extended(*old(writer), *final(writer)),
            forall|i: int| 0xA0 <= i < 0xB0 ==> (#[trigger] final(self).memory@[i]) == -1
                && final(self).memory@[256 + i] == -1,
    {
        let mut i: usize = 0xA0;
        while i < 0xB0
            invariant
                0xA0 <= i <= 0xB0,
                self.memory@.len() == 512,
                self.subc@.len() == 2,
                self.instr@.len() == 108,
                self.vol@.len() == 108,
                forall|j: int| 0xA0 <= j < i ==> (#[trigger] self.memory@[j]) == -1
                    && self.memory@[256 + j] == -1,
            decreases 0xB0 - i,
        {
            self.memory.set(i, -1);
            self.memory.set(256 + i, -1);
            i = i + 1;
        }
        proof {
            assert(writer.data_view().subrange(0, old(writer).data_view().len() as int)
                =~= old(writer).data_view());
        }
    }

    /// Nothing to record at channel start.
    pub fn start_channel(&mut self, channel: usize)
        requires
            old(self).wf(),
        ensures
            final(self).wf(),
            *final(self) == *old(self),
    {
    }

    /// Record the highest voice index per role.
    pub fn start_channel_with_info(&mut self, chip_sub: usize, chan_sub: usize)
        requires
            old(self).wf(),
        ensures
            final(self).wf(),
            ({
                let x: int = if chip_sub != 0 {
                    1
                } else {
                    0
                };
                if old(self).subc@[x] <= chan_sub && chan_sub < 100 {
                    final(self).subc@ == old(self).subc@.update(x, (chan_sub + 1) as usize)
                } else {
                    final(self).subc == old(self).subc
                }
            }),
    {
        let x: usize = if chip_sub != 0 {
            1
        } else {
            0
        };
        if self.subc[x] <= chan_sub && chan_sub < 100 {
            self.subc.set(x, chan_sub + 1);
        }
    }

    /// Translate macro sets.
    pub fn set_macro(
        &mut self,
        channel: usize,
        is_dynamic: bool,
        command: MacroCommand,
        value: i16,
    ) -> (r: Option<ChipEvent>)
        requires
            old(self).wf(),
        ensures
            final(self).wf(),
            *final(self) == *old(self),
    {
        match command {
            MacroCommand::Volume => {
                #[verifier::truncate]
                let v = (63u16 & !(value as u16)) as i32;
                Some(ChipEvent::new(4, v, 0))
            },
            MacroCommand::Tone => {
                #[verifier::truncate]
                let v = ((value as u16) % 256) as i32;
                Some(ChipEvent::new(3, v, 0))
            },
            MacroCommand::Global => {
                #[verifier::truncate]
                let d1 = (((value as u16) % 4) * 64) as i32;
                #[verifier::truncate]
                let d2 = ((((value as u16) / 4) % 4) * 64) as i32;
                Some(ChipEvent::new(5, d1, d2))
            },
            _ => None,
        }
    }

    /// A note-on packs the frequency with the octave block and key-on bit.
    pub fn note_on(&mut self, channel: usize, note: i32, octave: i32, duration: i32) -> (r: Option<
        ChipEvent,
    >)
        requires
            old(self).wf(),
        ensures
            final(self).wf(),
            *final(self) == *old(self),
            r is Some,
    {
        #[verifier::truncate]
        let nu = note as u32;
        let d1 = (nu % 256) as i32;
        #[verifier::truncate]
        let ou = octave as u32;
        let d2 = (((nu / 256) % 4) | ((ou % 0x40) * 4) | 0x20) as i32;
        Some(ChipEvent::new(1, d1, d2))
    }

    /// A pitch change repeats the note-on packing.
    pub fn note_change(&mut self, channel: usize, note: i32, octave: i32) -> (r: Option<ChipEvent>)
        requires
            old(self).wf(),
        ensures
            final(self).wf(),
            *final(self) == *old(self),
            r is Some,
    {
        #[verifier::truncate]
        let nu = note as u32;
        let d1 = (nu % 256) as i32;
        #[verifier::truncate]
        let ou = octave as u32;
        let d2 = (((nu / 256) % 4) | ((ou % 0x40) * 4) | 0x20) as i32;
        Some(ChipEvent::new(1, d1, d2))
    }

    /// A note-off.
    pub fn note_off(&mut self, channel: usize, note: i32, octave: i32) -> (r: Option<ChipEvent>)
        requires
            old(self).wf(),
        ensures
            final(self).wf(),
            *final(self) == *old(self),
            r == Some(ChipEvent { event_type: 2, value1: 0, value2: 0 }),
    {
        Some(ChipEvent::new(2, 0, 0))
    }

    /// A rest is a note-off.
    pub fn rest(&mut self, channel: usize, duration: i32) -> (r: Option<ChipEvent>)
        requires
            old(self).wf(),
        ensures
            final(self).wf(),
            *final(self) == *old(self),
            r == Some(ChipEvent { event_type: 2, value1: 0, value2: 0 }),
    {
        Some(ChipEvent::new(2, 0, 0))
    }

    /// A direct write.
    pub fn direct(&mut self, channel: usize, address: u16, value: u8) -> (r: Option<ChipEvent>)
        requires
            old(self).wf(),
        ensures
            final(self).wf(),
            *final(self) == *old(self),
            r == Some(ChipEvent { event_type: 0, value1: address as i32, value2: value as i32 }),
    {
        Some(ChipEvent::new(0, address as i32, value as i32))
    }

    /// The chip and melody channel an event addresses.
    fn split(&self, chip_sub: usize, chan_sub: usize) -> (r: (usize, usize))
        requires
            self.wf(),
        ensures
            r.0 < 2,
            r.1 < 9,
    {
        let a = chip_sub;
        let b = chan_sub;
        if a != 0 {
            (b % 2, 0)
        } else {
            if self.dual != 0 && b >= self.dual {
                (1, (b % self.dual) % 9)
            } else {
                (0, b % 9)
            }
        }
    }

    /// Perform the register writes for one event without patch access.
    pub fn send(
        &mut self,
        event: &ChipEvent,
        channel: usize,
        chip_sub: usize,
        chan_sub: usize,
        writer: &mut VgmWriter,
    )
        requires
            old(self).wf(),
            old(writer).wf(),
        ensures
            final(self).wf(),
            writer_extended(*old(writer), *final(writer)),
    {
        let a = chip_sub;
        let b = chan_sub;
        let (c, d) = self.split(a, b);

        if event.event_type == 0 {
            // Direct write.
            #[verifier::truncate]
            let addr = ((event.value1 as u32) % 256) as usize;
            #[verifier::truncate]
            let v2 = event.value2 as u8;
            self.write_opl(c, addr, v2, writer);
        } else if event.event_type == 1 {
            // Note on.
            let mut ch = d;
            if a != 0 && a <= 11 {
                ch = (11 - a) % 9;
            }
            #[verifier::truncate]
            let v1 = event.value1 as u8;
            #[verifier::truncate]
            let v2 = event.value2 as u8;
            if a == 1 || a == 2 {
                self.write_opl(c, 0xA7, v1, writer);
                self.write_opl(c, 0xB7, v2, writer);
                ch = 8;
            }
            self.write_opl(c, 0xA0 | ch, v1, writer);
            self.write_opl(c, 0xB0 | ch, v2, writer);
            if a != 0 && a <= 8 {
                self.set_opl(c, 0xBD, 1u8 << ((a - 1) as u8), 0xFF, writer);
            }
        } else if event.event_type == 2 {
            // Note off.
            if a != 0 {
                if a <= 8 {
                    self.set_opl(c, 0xBD, 1u8 << ((a - 1) as u8), 0, writer);
                }
            } else {
                self.set_opl(c, 0xB0 | d, 0x20, 0, writer);
            }
        } else if event.event_type == 3 {
            // Instrument select; the patch write needs the store.
            if a < 6 && b < 18 {
                let v1: usize = if event.value1 >= 0 && event.value1 < 256 {
                    event.value1 as usize
                } else {
                    255
                };
                self.instr.set(a * 18 + b, v1);
            }
        } else if event.event_type == 4 {
            // Volume; the level write needs the store.
            if a < 6 && b < 18 {
                self.vol.set(a * 18 + b, event.value1);
            }
        } else if event.event_type == 5 {
            // Global tremolo and vibrato depth.
            let cached = self.memory[c * 256 + 0xBD];
            let bd: u8 = if cached >= 0 {
                #[verifier::truncate]
                let x = cached as u8;
                x
            } else {
                0
            };
            #[verifier::truncate]
            let v1 = event.value1 as u8;
            self.write_opl(c, 0xBD, (bd & 0x3F) | v1, writer);
            #[verifier::truncate]
            let v2 = event.value2 as u8;
            self.write_opl(c, 0x08, v2, writer);
        }
        proof {
            assert(writer.data_view().subrange(0, old(writer).data_view().len() as int)
                =~= old(writer).data_view());
        }
    }

    /// Like `send`, but instrument and volume changes write the patch
    /// from the instrument envelope.
    pub fn send_with_macro_env(
        &mut self,
        event: &ChipEvent,
        channel: usize,
        chip_sub: usize,
        chan_sub: usize,
        writer: &mut VgmWriter,
        macro_env: &MacroEnvStorage,
    )
        requires
            old(self).wf(),
            old(writer).wf(),
            macro_env.wf(),
        ensures
            final(self).wf(),
            writer_extended(*old(writer), *final(writer)),
    {
        let a = chip_sub;
        let b = chan_sub;
        let (c, d) = self.split(a, b);

        if (event.event_type == 3 || event.event_type == 4) && a < 6 && b < 18 {
            if event.event_type == 3 {
                let v1: usize = if event.value1 >= 0 && event.value1 < 256 {
                    event.value1 as usize
                } else {
                    255
                };
                self.instr.set(a * 18 + b, v1);
            } else {
                self.vol.set(a * 18 + b, event.value1);
            }

            let inst_idx = self.instr[a * 18 + b] % 256;
            let env = macro_env.env(3, inst_idx);
            let data = env.data.clone();
            let vol = self.vol[a * 18 + b];

            if a == 1 || a == 2 {
                self.set_instrument(c, 7, 17, &data, vol, writer);
                self.set_instrument(c, 8, 21, &data, vol, writer);
            } else if a == 3 {
                self.set_instrument(c, 8, 18, &data, vol, writer);
            } else if a == 4 {
                self.set_instrument(c, 7, 17, &data, vol, writer);
                self.set_instrument(c, 7, 20, &data, vol, writer);
            } else if a == 5 {
                self.set_instrument(c, 6, 16, &data, vol, writer);
                self.set_instrument(c, 6, 19, &data, vol, writer);
            } else {
                self.set_instrument(c, d, oper_off(d), &data, vol, writer);
                self.set_instrument(c, d, oper_off(d) + 3, &data, vol, writer);
            }
            proof {
                assert(writer.data_view().subrange(0, old(writer).data_view().len() as int)
                    =~= old(writer).data_view());
            }
        } else {
            self.send(event, channel, chip_sub, chan_sub, writer);
        }
        proof {
            assert(writer.data_view().subrange(0, old(writer).data_view().len() as int)
                =~= old(writer).data_view());
        }
    }
}

impl Default for Opl2 {
    /// A fresh driver.
    fn default() -> (r: Opl2)
        ensures
            r.wf(),
    {
        Opl2::new()
    }
}

} // verus!
