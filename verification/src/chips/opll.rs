//! YM2413 (OPLL) sound chip driver.

use vstd::prelude::*;
use super::{ChipOptions, MacroCommand, CHIP_ID_YM2413, writer_extended};
use crate::compiler::envelope::MacroEnvStorage;
use crate::compiler::event::ChipEvent;
use crate::vgm::header;
use crate::vgm::header::le32;
use crate::vgm::writer::VgmWriter;

verus! {

/// An i16 shadow value reinterpreted as its unsigned bits.
pub open spec fn opll_u16_of(x: i16) -> u16 {
    if x >= 0 {
        x as u16
    } else {
        (x + 0x10000) as u16
    }
}

/// The cached bits kept by a masked update: the shadow value's bits
/// under the mask.
pub open spec fn opll_masked(cached: i16, mask: u8) -> i16 {
    (opll_u16_of(cached) & (mask as u16)) as i16
}

/// YM2413 OPLL chip.
#[derive(Debug)]
pub struct Opll {
    pub clock: i32,
    /// Dual-chip and channel-count tracking.
    pub dual: i32,
    /// Rhythm mode enabled.
    pub drum: bool,
    /// Sustain and instrument bits.
    pub sus: u8,
    /// Register shadow, chip-major (two chips of 64 registers; 256 marks
    /// unknown).
    pub mem: Vec<i16>,
}

impl Opll {
    /// Well-formed shadow table.
    pub open spec fn wf(&self) -> bool {
        self.mem@.len() == 128
    }

    /// A fresh driver with unknown registers.
    pub fn new() -> (r: Opll)
        ensures
            r.wf(),
            r.clock == 3579545,
    {
        let mut mem: Vec<i16> = Vec::new();
        let mut i: usize = 0;
        while i < 128
            invariant
                i <= 128,
                mem@.len() == i,
            decreases 128 - i,
        {
            mem.push(256);
            i = i + 1;
        }
        Opll { clock: 3579545, dual: 0, drum: false, sus: 0, mem }
    }

    /// Write one register through the shadow: masked bits keep their
    /// cached value, and an unchanged register is not rewritten.
    fn opll_put(&mut self, chip: usize, address: usize, mask: u8, data: u8, writer: &mut VgmWriter)
        requires
            old(self).wf(),
            old(writer).wf(),
        ensures
            final(self).wf(),
            writer_extended(*old(writer), *final(writer)),
            ({
                let ac: int = if (address % 256) >= 0x80 {
                    ((address / 64) % 2) as int
                } else {
                    (chip % 2) as int
                };
                let slot = ac * 64 + address % 64;
                let combined = (data as i16) | opll_masked(old(self).mem@[slot], mask);
                &&& (old(self).mem@[slot] == combined ==> final(self).mem == old(self).mem
                    && final(writer).data_view() == old(writer).data_view())
                &&& (old(self).mem@[slot] != combined ==> final(self).mem@ == old(
                    self,
                ).mem@.update(slot, combined) && final(writer).data_view() == old(
                    writer,
                ).data_view() + seq![
                    (if ac != 0 {
                        0xA1u8
                    } else {
                        0x51u8
                    }),
                    (address % 64) as u8,
                    combined as u8,
                ])
            }),
            final(self).clock == old(self).clock,
            final(self).dual == old(self).dual,
            final(self).drum == old(self).drum,
            final(self).sus == old(self).sus,
    {
        let actual_chip: usize = if (address % 256) >= 0x80 {
            (address / 64) % 2
        } else {
            chip % 2
        };
        let addr = address % 64;
        let slot = actual_chip * 64 + addr;
        let cached = self.mem[slot];
        let cb: u16 = if cached >= 0 {
            cached as u16
        } else {
            ((cached as i32) + 0x10000) as u16
        };
        let m16 = mask as u16;
        let mw = cb & m16;
        proof {
            assert(cb & m16 < 256) by (bit_vector)
                requires
                    m16 <= 255,
            ;
        }
        let masked: i16 = mw as i16;
        let combined: i16 = (data as i16) | masked;
        proof {
            let d16 = data as i16;
            assert(0 <= (d16 | masked) < 256 && (masked == 0 ==> (d16 | masked) == d16)) by (
            bit_vector)
                requires
                    0 <= d16 < 256,
                    0 <= masked < 256,
            ;
        }

        if self.mem[slot] == combined {
            proof {
                assert(writer.data_view().subrange(0, old(writer).data_view().len() as int)
                    =~= old(writer).data_view());
            }
            return;
        }

        let cmd: u8 = if actual_chip != 0 {
            0xA1
        } else {
            0x51
        };
        let cv = combined as u8;
        writer.write3(cmd, addr as u8, cv);
        self.mem.set(slot, combined);
        proof {
            assert(writer.data_view().subrange(0, old(writer).data_view().len() as int)
                =~= old(writer).data_view());
        }
    }

    /// The chip's name.
    pub fn name(&self) -> (r: &'static str)
        ensures
            r@ == "OPLL"@,
    {
        "OPLL"
    }

    /// The chip's VGM chip id.
    pub fn chip_id(&self) -> (r: u8)
        ensures
            r == CHIP_ID_YM2413,
    {
        CHIP_ID_YM2413
    }

    /// Frequency-based: the clock over nine.
    pub fn clock_div(&self) -> (r: i32)
        ensures
            self.clock >= 0 ==> r == self.clock / 9,
    {
        self.clock / 9
    }

    /// Nine-bit pitch register, unshifted by octave.
    pub fn note_bits(&self) -> (r: i32)
        ensures
            r == -9,
    {
        -9
    }

    /// Reference octave.
    pub fn basic_octave(&self) -> (r: i32)
        ensures
            r == 7,
    {
        7
    }

    /// Apply parsed options with the hardware default clock.
    pub fn enable(&mut self, options: &ChipOptions)
        requires
            old(self).wf(),
        ensures
            final(self).wf(),
            final(self).clock == (if options.spec_get('H') == 0 {
                3579545int
            } else {
                options.spec_get('H')
            }),
    {
        self.clock = options.get('H');
        if self.clock == 0 {
            self.clock = 3579545;
        }
    }

    /// Reset the shadow, resolve the dual mode and prime the rhythm
    /// register when melody-only.
    pub fn file_begin(&mut self, writer: &mut VgmWriter)
        requires
            old(self).wf(),
            old(writer).wf(),
        ensures
            final(self).wf(),
            writer_extended(*old(writer), *final(writer)),
    {
        let mut i: usize = 0;
        while i < 128
            invariant
                i <= 128,
                self.mem@.len() == 128,
            decreases 128 - i,
        {
            self.mem.set(i, 256);
            i = i + 1;
        }

        let dual_val: i32 = if self.drum && self.dual >= 6 {
            6
        } else if self.dual >= 9 {
            9
        } else {
            127
        };
        self.dual = dual_val;

        if !self.drum {
            self.opll_put(0, 0x0E, 0x00, 0x00, writer);
            if dual_val != 127 {
                self.opll_put(1, 0x0E, 0x00, 0x00, writer);
                proof {
                    assert(writer.data_view().subrange(
                        0,
                        old(writer).data_view().len() as int,
                    ) =~= old(writer).data_view());
                }
            }
        }
        proof {
            assert(writer.data_view().subrange(0, old(writer).data_view().len() as int)
                =~= old(writer).data_view());
        }
    }

    /// Fix the YM2413 clock field, bit 30 for dual-chip use.
    pub fn file_end(&mut self, writer: &mut VgmWriter)
        requires
            old(self).wf(),
            old(writer).wf(),
        ensures
            final(self).wf(),
            *final(self) == *old(self),
            final(writer).wf(),
            final(writer).data_view() == old(writer).data_view(),
            final(writer).loop_view() == old(writer).loop_view(),
            0 <= old(self).clock < 0x40000000 ==> le32(
                final(writer).header_view(),
                header::YM2413_CLOCK as int,
            ) == old(self).clock + (if old(self).dual != 127 {
                0x40000000int
            } else {
                0int
            }),
            forall|i: int| 0 <= i < header::VGM_HEADER_SIZE && !(header::YM2413_CLOCK <= i < header::YM2413_CLOCK + 4)
                ==> final(writer).header_view()[i] == old(writer).header_view()[i],
    {
        let clock_val = super::clock_with_dual(self.clock, self.dual != 127);
        writer.set_chip_clock(header::YM2413_CLOCK, clock_val);
    }

    /// Nothing to invalidate at the loop point.
    pub fn loop_start(&mut self, writer: &mut VgmWriter)
        requires
            old(self).wf(),
            old(writer).wf(),
        ensures
            final(self).wf(),
            *final(self) == *old(self),
            writer_extended(*old(writer), *final(writer)),
    {
        proof {
            assert(writer.data_view().subrange(0, old(writer).data_view().len() as int)
                =~= old(writer).data_view());
        }
    }

    /// Nothing to record at channel start.
    pub fn start_channel(&mut self, channel: usize)
        requires
            old(self).wf(),
        ensures
            final(self).wf(),
            *final(self) == *old(self),
    {
    }

    /// Record the rhythm role and the highest voice index.
    pub fn start_channel_with_info(&mut self, chip_sub: usize, chan_sub: usize)
        requires
            old(self).wf(),
        ensures
            final(self).wf(),
            final(self).drum == (old(self).drum || chip_sub != 0),
            chan_sub < 0x80000000 ==> final(self).dual as int == (if chan_sub > old(self).dual {
                chan_sub as int
            } else {
                old(self).dual as int
            }),
    {
        #[verifier::truncate]
        let csu = chip_sub as u64;
        let s = #[verifier::truncate] (((csu % 8) * 32) as u8);
        self.sus = s;
        if chip_sub != 0 {
            self.drum = true;
        }
        #[verifier::truncate]
        let cs = chan_sub as i32;
        if cs > self.dual {
            self.dual = cs;
        }
    }

    /// Translate macro sets; tone selects the instrument nibble.
    pub fn set_macro(
        &mut self,
        channel: usize,
        is_dynamic: bool,
        command: MacroCommand,
        value: i16,
    ) -> (r: Option<ChipEvent>)
        requires
            old(self).wf(),
        ensures
            final(self).wf(),
    {
        match command {
            MacroCommand::Volume => {
                #[verifier::truncate]
                let v = (0x0Fu16 & !(value as u16)) as i32;
                Some(ChipEvent::new(0xF3, v, 0xF0))
            },
            MacroCommand::Tone | MacroCommand::Sample => {
                #[verifier::truncate]
                let vb = value as u16;
                if (vb & 0xFFE0) != 0 {
                    self.sus = 0;
                    None
                } else {
                    #[verifier::truncate]
                    let s = (vb & 0x10) as u8;
                    self.sus = s;
                    let inst = (((vb % 16) * 16)) as i32;
                    Some(ChipEvent::new(0xF3, inst, 0x0F))
                }
            },
            _ => None,
        }
    }

    /// A note-on carries the frequency low byte and the octave with the
    /// key-on bit.
    pub fn note_on(&mut self, channel: usize, note: i32, octave: i32, duration: i32) -> (r: Option<
        ChipEvent,
    >)
        requires
            old(self).wf(),
        ensures
            final(self).wf(),
            *final(self) == *old(self),
            r is Some,
    {
        let actual_note: i32 = if (self.sus & 0xE0) != 0 {
            (self.sus / 32) as i32
        } else {
            note
        };
        #[verifier::truncate]
        let anu = actual_note as u32;
        let lo = (anu % 0x100) as i32;
        #[verifier::truncate]
        let ocu = octave as u32;
        let hi = (((anu / 0x100) % 2) | ((ocu % 0x80) * 2) | 0x10) as i32;
        Some(ChipEvent::new(0xFF, lo, hi))
    }

    /// A pitch change repeats the note-on packing.
    pub fn note_change(&mut self, channel: usize, note: i32, octave: i32) -> (r: Option<ChipEvent>)
        requires
            old(self).wf(),
        ensures
            final(self).wf(),
            *final(self) == *old(self),
            r is Some,
    {
        let actual_note: i32 = if (self.sus & 0xE0) != 0 {
            (self.sus / 32) as i32
        } else {
            note
        };
        #[verifier::truncate]
        let anu = actual_note as u32;
        let lo = (anu % 0x100) as i32;
        #[verifier::truncate]
        let ocu = octave as u32;
        let hi = (((anu / 0x100) % 2) | ((ocu % 0x80) * 2) | 0x10) as i32;
        Some(ChipEvent::new(0xFF, lo, hi))
    }

    /// A note-off clears the key-on bit.
    pub fn note_off(&mut self, channel: usize, note: i32, octave: i32) -> (r: Option<ChipEvent>)
        requires
            old(self).wf(),
        ensures
            final(self).wf(),
            *final(self) == *old(self),
            r == Some(ChipEvent { event_type: 0xF2, value1: 0, value2: 0xEF }),
    {
        Some(ChipEvent::new(0xF2, 0x00, 0xEF))
    }

    /// A rest clears the key-on bit.
    pub fn rest(&mut self, channel: usize, duration: i32) -> (r: Option<ChipEvent>)
        requires
            old(self).wf(),
        ensures
            final(self).wf(),
            *final(self) == *old(self),
            r == Some(ChipEvent { event_type: 0xF2, value1: 0, value2: 0xEF }),
    {
        Some(ChipEvent::new(0xF2, 0x00, 0xEF))
    }

    /// A direct write carries the register address in the event type.
    pub fn direct(&mut self, channel: usize, address: u16, value: u8) -> (r: Option<ChipEvent>)
        requires
            old(self).wf(),
        ensures
            final(self).wf(),
            *final(self) == *old(self),
            r == Some(ChipEvent { event_type: address, value1: value as i32, value2: 0 }),
    {
        Some(ChipEvent::new(address, value as i32, 0))
    }

    /// Perform the register writes for one event.
    pub fn send(
        &mut self,
        event: &ChipEvent,
        channel: usize,
        chip_sub: usize,
        chan_sub: usize,
        writer: &mut VgmWriter,
    )
        requires
            old(self).wf(),
            old(writer).wf(),
        ensures
            final(self).wf(),
            writer_extended(*old(writer), *final(writer)),
    {
        let b = chip_sub;
        let dual_val: usize = if self.dual >= 1 {
            self.dual as usize
        } else {
            1
        };
        let c: usize = (b & chan_sub) | (if chan_sub >= dual_val {
            1
        } else {
            0
        });
        let d: usize = chan_sub % dual_val;
        let et = event.event_type;

        if 0xF0 <= et && et <= 0xF7 {
            // A register family of this channel, masked.
            let x: usize = ((et % 8) as usize) * 16;
            #[verifier::truncate]
            let mask = event.value2 as u8;
            #[verifier::truncate]
            let data = event.value1 as u8;
            if b != 0 {
                // Rhythm mode drives hardware channels 6, 7 and 8.
                self.opll_put(c, x | 6, mask, data, writer);
                self.opll_put(c, x | 7, mask, data, writer);
                self.opll_put(c, x | 8, mask, data, writer);
            } else {
                self.opll_put(c, x | (d % 16), mask, data, writer);
            }
        } else if et == 0xFD {
            // Custom instrument: needs the envelope store.
        } else if et == 0xFE {
            // Rhythm note on.
            #[verifier::truncate]
            let freq_low = event.value1 as u8;
            #[verifier::truncate]
            let freq_high = event.value2 as u8;
            let sus_val = self.sus & 0x1F;
            self.opll_put(c, 0x16, 0, freq_low, writer);
            self.opll_put(c, 0x17, 0, freq_low, writer);
            self.opll_put(c, 0x18, 0, freq_low, writer);
            self.opll_put(c, 0x26, 0, freq_high, writer);
            self.opll_put(c, 0x27, 0, freq_high, writer);
            self.opll_put(c, 0x28, 0, freq_high, writer);
            self.opll_put(c, 0x0E, 0x20, sus_val, writer);
        } else if et == 0xFF {
            // Melody note on.
            #[verifier::truncate]
            let freq_low = event.value1 as u8;
            #[verifier::truncate]
            let freq_high = event.value2 as u8;
            self.opll_put(c, 0x10 | (d % 16), 0, freq_low, writer);
            self.opll_put(c, 0x20 | (d % 16), 0, freq_high, writer);
        } else {
            // Direct register write.
            #[verifier::truncate]
            let mask = event.value2 as u8;
            #[verifier::truncate]
            let data = event.value1 as u8;
            self.opll_put(c, et as usize, mask, data, writer);
        }
        proof {
            assert(writer.data_view().subrange(0, old(writer).data_view().len() as int)
                =~= old(writer).data_view());
        }
    }

    /// Like `send`, but a custom-instrument select copies the patch bytes
    /// from the instrument envelope.
    pub fn send_with_macro_env(
        &mut self,
        event: &ChipEvent,
        channel: usize,
        chip_sub: usize,
        chan_sub: usize,
        writer: &mut VgmWriter,
        macro_env: &MacroEnvStorage,
    )
        requires
            old(self).wf(),
            old(writer).wf(),
            macro_env.wf(),
        ensures
            final(self).wf(),
            writer_extended(*old(writer), *final(writer)),
    {
        let b = chip_sub;
        let dual_val: usize = if self.dual >= 1 {
            self.dual as usize
        } else {
            1
        };
        let c: usize = (b & chan_sub) | (if chan_sub >= dual_val {
            1
        } else {
            0
        });
        let d: usize = chan_sub % dual_val;

        if event.event_type == 0xFD {
            // Custom instrument: the first eight patch bytes.
            let idx: usize = if event.value1 >= 0 && event.value1 < 256 {
                event.value1 as usize
            } else {
                255
            };
            let env = macro_env.env(3, idx);
            let mut x: usize = 0;
            while x < 8
                invariant
                    old(writer).wf(),
                    self.wf(),
                    writer.wf(),
                    writer.header_view() == old(writer).header_view(),
                    writer.loop_view() == old(writer).loop_view(),
                    writer.data_view().len() >= old(writer).data_view().len(),
                    writer.data_view().subrange(0, old(writer).data_view().len() as int) == old(
                        writer,
                    ).data_view(),
                    x <= 8,
                decreases 8 - x,
            {
                let val: u8 = if x < env.data.len() {
                    #[verifier::truncate]
                    let v = env.data[x] as u8;
                    v
                } else {
                    0
                };
                self.opll_put(c, x, 0, val, writer);
                proof {
                    assert(writer.data_view().subrange(
                        0,
                        old(writer).data_view().len() as int,
                    ) =~= old(writer).data_view());
                }
                x = x + 1;
            }
            self.opll_put(c, 0x30 | (d % 16), 0x0F, 0x00, writer);
            proof {
                assert(writer.data_view().subrange(0, old(writer).data_view().len() as int)
                    =~= old(writer).data_view());
            }
        } else {
            self.send(event, channel, chip_sub, chan_sub, writer);
        }
    }
}

impl Default for Opll {
    /// A fresh driver.
    fn default() -> (r: Opll)
        ensures
            r.wf(),
    {
        Opll::new()
    }
}

} // verus!
