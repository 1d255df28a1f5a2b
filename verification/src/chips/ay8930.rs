//! AY8930 sound chip driver: an AY-3-8910 successor with 16-bit tone
//! periods, banked registers and extended envelopes.

use vstd::prelude::*;
use super::{ChipOptions, MacroCommand, CHIP_ID_AY8910, writer_extended};
use crate::compiler::event::ChipEvent;
use crate::vgm::header;
use crate::vgm::header::le32;
use crate::vgm::writer::VgmWriter;

verus! {

/// The per-voice envelope-period high register.
fn enh_reg(b: usize) -> (r: u8)
    requires
        b < 6,
    ensures
        r <= 0x92,
{
    if b == 0 {
        0x0B
    } else if b == 1 {
        0x10
    } else if b == 2 {
        0x12
    } else if b == 3 {
        0x8B
    } else if b == 4 {
        0x90
    } else {
        0x92
    }
}

/// The per-voice envelope-mode register.
fn enm_reg(b: usize) -> (r: u8)
    requires
        b < 6,
{
    if b == 0 {
        0x0D
    } else if b == 1 {
        0x14
    } else if b == 2 {
        0x15
    } else if b == 3 {
        0x8D
    } else if b == 4 {
        0x94
    } else {
        0x95
    }
}

/// AY8930 chip.
#[derive(Debug)]
pub struct Ay8930 {
    pub clock: i32,
    pub opt_s: i32,
    pub opt_flags: u8,
    /// Enable register shadow per chip.
    pub ena: Vec<u8>,
    /// Envelope amplitude register shadow per chip.
    pub enva: Vec<u8>,
    /// Current register bank per chip.
    pub bank: Vec<u8>,
    pub vol: u8,
    pub mul: i32,
    pub dual: bool,
}

impl Ay8930 {
    /// Well-formed shadow tables.
    pub open spec fn wf(&self) -> bool {
        &&& self.ena@.len() == 2
        &&& self.enva@.len() == 2
        &&& self.bank@.len() == 2
    }

    /// A fresh driver.
    pub fn new() -> (r: Ay8930)
        ensures
            r.wf(),
            r.clock == 1789750,
            !r.dual,
    {
        let mut ena: Vec<u8> = Vec::new();
        ena.push(0);
        ena.push(0);
        let mut enva: Vec<u8> = Vec::new();
        enva.push(0);
        enva.push(0);
        let mut bank: Vec<u8> = Vec::new();
        bank.push(0);
        bank.push(0);
        Ay8930 { clock: 1789750, opt_s: 0, opt_flags: 1, ena, enva, bank, vol: 31, mul: 0, dual: false }
    }

    /// Write one register, switching banks when the address's bank bit
    /// differs from the current one.
    fn poke(&mut self, address: u8, data: u8, writer: &mut VgmWriter)
        requires
            old(self).wf(),
            old(writer).wf(),
        ensures
            final(self).wf(),
            writer_extended(*old(writer), *final(writer)),
    {
        let mut d = data;
        let chip = (address / 0x80) as usize;

        if (address % 16) == 13 {
            d = d | (address & 0x10) | 0xA0;
            self.enva.set(chip % 2, d);
        } else if self.bank[chip % 2] != (address & 0x10) {
            writer.write3(0xA0, 0x0D | (address & 0x8D), self.enva[chip % 2]);
        }

        self.bank.set(chip % 2, address & 0x10);
        writer.write3(0xA0, address & 0x8F, d);
        proof {
            assert(writer.data_view().subrange(0, old(writer).data_view().len() as int)
                =~= old(writer).data_view());
        }
    }

    /// The chip's name.
    pub fn name(&self) -> (r: &'static str)
        ensures
            r@ == "AY8930"@,
    {
        "AY8930"
    }

    /// Shares the AY8910 header field.
    pub fn chip_id(&self) -> (r: u8)
        ensures
            r == CHIP_ID_AY8910,
    {
        CHIP_ID_AY8910
    }

    /// Period-based: the negated clock.
    pub fn clock_div(&self) -> (r: i32)
        ensures
            self.clock > i32::MIN ==> r == -self.clock,
    {
        #[verifier::truncate]
        let r = (-(self.clock as i64)) as i32;
        r
    }

    /// Sixteen-bit pitch register.
    pub fn note_bits(&self) -> (r: i32)
        ensures
            r == 16,
    {
        16
    }

    /// Reference octave.
    pub fn basic_octave(&self) -> (r: i32)
        ensures
            r == 0,
    {
        0
    }

    /// Apply parsed options with the hardware default clock.
    pub fn enable(&mut self, options: &ChipOptions)
        requires
            old(self).wf(),
        ensures
            final(self).wf(),
            final(self).clock == (if options.spec_get('H') == 0 {
                1789750int
            } else {
                options.spec_get('H')
            }),
    {
        self.clock = options.get('H');
        if self.clock == 0 {
            self.clock = 1789750;
        }
        self.opt_s = options.get('S');
        let f0: u8 = if options.get('l') != 0 {
            1
        } else {
            0
        };
        let f1: u8 = if options.get('s') != 0 {
            2
        } else {
            0
        };
        let f2: u8 = if options.get('d') != 0 {
            4
        } else {
            0
        };
        let f3: u8 = if options.get('r') != 0 {
            8
        } else {
            0
        };
        self.opt_flags = f0 + f1 + f2 + f3;
    }

    /// Reset the shadows and switch the chips into extended mode.
    pub fn file_begin(&mut self, writer: &mut VgmWriter)
        requires
            old(self).wf(),
            old(writer).wf(),
        ensures
            final(self).wf(),
            writer_extended(*old(writer), *final(writer)),
    {
        self.ena.set(0, 0);
        self.ena.set(1, 0);
        self.enva.set(0, 0);
        self.enva.set(1, 0);
        self.bank.set(0, 0);
        self.bank.set(1, 0);
        self.vol = 31;
        self.mul = 0;

        self.poke(0x0D, 0xA0, writer);
        if self.dual {
            self.poke(0x8D, 0xA0, writer);
            proof {
                assert(writer.data_view().subrange(0, old(writer).data_view().len() as int)
                    =~= old(writer).data_view());
            }
        }
        proof {
            assert(writer.data_view().subrange(0, old(writer).data_view().len() as int)
                =~= old(writer).data_view());
        }
    }

    /// Fix the AY8910-family header fields; the chip type marks an AY8930.
    pub fn file_end(&mut self, writer: &mut VgmWriter)
        requires
            old(self).wf(),
            old(writer).wf(),
        ensures
            final(self).wf(),
            *final(self) == *old(self),
            final(writer).wf(),
            final(writer).data_view() == old(writer).data_view(),
            final(writer).loop_view() == old(writer).loop_view(),
            0 <= old(self).clock < 0x40000000 ==> le32(
                final(writer).header_view(),
                header::AY8910_CLOCK as int,
            ) == old(self).clock + (if old(self).dual {
                0x40000000int
            } else {
                0int
            }),
            forall|i: int| 0 <= i < header::VGM_HEADER_SIZE && !(header::AY8910_CLOCK <= i < header::AY8910_CLOCK + 4) && i != header::AY8910_TYPE && i != header::AY8910_FLAGS
                ==> final(writer).header_view()[i] == old(writer).header_view()[i],
    {
        let clock_val = super::clock_with_dual(self.clock, self.dual);
        writer.set_chip_clock(header::AY8910_CLOCK, clock_val);
        writer.set_header_u8(header::AY8910_TYPE, 3);
        writer.set_header_u8(header::AY8910_FLAGS, self.opt_flags);
    }

    /// Nothing to invalidate at the loop point.
    pub fn loop_start(&mut self, writer: &mut VgmWriter)
        requires
            old(self).wf(),
            old(writer).wf(),
        ensures
            final(self).wf(),
            *final(self) == *old(self),
            writer_extended(*old(writer), *final(writer)),
    {
        proof {
            assert(writer.data_view().subrange(0, old(writer).data_view().len() as int)
                =~= old(writer).data_view());
        }
    }

    /// Reset the volume shadow at channel start.
    pub fn start_channel(&mut self, channel: usize)
        requires
            old(self).wf(),
        ensures
            final(self).wf(),
            final(self).vol == 31,
            final(self).mul == 0,
    {
        self.mul = 0;
        self.vol = 31;
    }

    /// Record the dual flag from the voice index.
    pub fn start_channel_with_info(&mut self, chip_sub: usize, chan_sub: usize)
        requires
            old(self).wf(),
        ensures
            final(self).wf(),
            final(self).dual == (old(self).dual || chan_sub / 3 != 0),
    {
        self.mul = 0;
        self.vol = 31;
        if chan_sub / 3 != 0 {
            self.dual = true;
        }
    }

    /// Translate macro sets.
    pub fn set_macro(
        &mut self,
        channel: usize,
        is_dynamic: bool,
        command: MacroCommand,
        value: i16,
    ) -> (r: Option<ChipEvent>)
        requires
            old(self).wf(),
        ensures
            final(self).wf(),
    {
        match command {
            MacroCommand::Volume => {
                #[verifier::truncate]
                let v31 = ((value as u16) % 32) as u8;
                if is_dynamic && self.vol == v31 {
                    return None;
                }
                self.vol = v31;
                Some(ChipEvent::new(0x21, self.vol as i32, 0))
            },
            MacroCommand::Tone => Some(ChipEvent::new(0x22, value as i32, 0)),
            MacroCommand::Multiply => {
                self.vol = 0x3F;
                self.mul = value as i32;
                None
            },
            MacroCommand::VolumeEnv => {
                self.vol = 0x3F;
                let env_shape: i32 = if value > 0 {
                    13
                } else {
                    9
                };
                let mag: i32 = if value < 0 {
                    -(value as i32)
                } else {
                    value as i32
                };
                self.mul = if value > 0 {
                    -mag
                } else {
                    mag
                };
                Some(ChipEvent::new(0x21, self.vol as i32, env_shape))
            },
            _ => None,
        }
    }

    /// The pitch after the octave-shift option, with the volume packed
    /// above bit 16 and the envelope period in the second value.
    fn pack_note(&self, note: i32) -> (r: (i32, i32)) {
        let shift_r: u32 = if self.opt_s < 0 && self.opt_s > -32 {
            (-(self.opt_s)) as u32
        } else {
            0
        };
        let note_val: i32 = if shift_r > 0 {
            let denom = 1i64 << (shift_r as i64);
            if denom != 0 {
                #[verifier::truncate]
                let nv = ((note as i64) / denom) as i32;
                nv
            } else {
                note
            }
        } else {
            note
        };
        let env_period: i64 = if self.mul > 0 {
            let base = super::mul_i32(note, self.mul) / 64;
            if self.opt_s > 0 && self.opt_s < 32 {
                let denom = 1i64 << (self.opt_s as i64);
                if denom != 0 {
                    base / denom
                } else {
                    base
                }
            } else {
                base
            }
        } else {
            -(self.mul as i64)
        };
        #[verifier::truncate]
        let packed = ((note_val as i64) + ((self.vol as i64) * 0x10000)) as i32;
        #[verifier::truncate]
        let ep = env_period as i32;
        (packed, ep)
    }

    /// A note-on.
    pub fn note_on(&mut self, channel: usize, note: i32, octave: i32, duration: i32) -> (r: Option<
        ChipEvent,
    >)
        requires
            old(self).wf(),
        ensures
            final(self).wf(),
            *final(self) == *old(self),
            r is Some,
    {
        let (packed, ep) = self.pack_note(note);
        Some(ChipEvent::new(0x20, packed, ep))
    }

    /// A pitch change.
    pub fn note_change(&mut self, channel: usize, note: i32, octave: i32) -> (r: Option<ChipEvent>)
        requires
            old(self).wf(),
        ensures
            final(self).wf(),
            *final(self) == *old(self),
            r is Some,
    {
        let (packed, ep) = self.pack_note(note);
        Some(ChipEvent::new(0x20, packed, ep))
    }

    /// A note-off.
    pub fn note_off(&mut self, channel: usize, note: i32, octave: i32) -> (r: Option<ChipEvent>)
        requires
            old(self).wf(),
        ensures
            final(self).wf(),
            *final(self) == *old(self),
            r == Some(ChipEvent { event_type: 0x20, value1: 0, value2: 0 }),
    {
        Some(ChipEvent::new(0x20, 0, 0))
    }

    /// A rest is a note-off.
    pub fn rest(&mut self, channel: usize, duration: i32) -> (r: Option<ChipEvent>)
        requires
            old(self).wf(),
        ensures
            final(self).wf(),
            *final(self) == *old(self),
            r == Some(ChipEvent { event_type: 0x20, value1: 0, value2: 0 }),
    {
        Some(ChipEvent::new(0x20, 0, 0))
    }

    /// A direct write carries the register address in the event type.
    pub fn direct(&mut self, channel: usize, address: u16, value: u8) -> (r: Option<ChipEvent>)
        requires
            old(self).wf(),
        ensures
            final(self).wf(),
            *final(self) == *old(self),
            r == Some(ChipEvent { event_type: address, value1: value as i32, value2: 0 }),
    {
        Some(ChipEvent::new(address, value as i32, 0))
    }

    /// Perform the register writes for one event.
    pub fn send(
        &mut self,
        event: &ChipEvent,
        channel: usize,
        chip_sub: usize,
        chan_sub: usize,
        writer: &mut VgmWriter,
    )
        requires
            old(self).wf(),
            old(writer).wf(),
        ensures
            final(self).wf(),
            writer_extended(*old(writer), *final(writer)),
    {
        let b = chan_sub;
        // Voice indices past two chips of three voices address no channel.
        if b > 5 {
            proof {
                assert(writer.data_view().subrange(0, old(writer).data_view().len() as int)
                    =~= old(writer).data_view());
            }
            return;
        }
        let c = b / 3;
        let d = b % 3;
        let cbit: u8 = (c as u8) * 0x80;

        if event.event_type == 0x20 {
            // Key on or off.
            #[verifier::truncate]
            let note = ((event.value1 as u32) % 0x10000) as u16;
            #[verifier::truncate]
            let vol = (((event.value1 as u32) / 0x10000) % 0x100) as u8;
            #[verifier::truncate]
            let env_period = event.value2 as u16;

            #[verifier::truncate]
            let ep_lo = (env_period % 0x100) as u8;
            #[verifier::truncate]
            let ep_hi = (env_period / 0x100) as u8;
            self.poke(enh_reg(b), ep_lo, writer);
            self.poke(enh_reg(b) + 1, ep_hi, writer);
            self.poke((d as u8) | cbit | 8, vol, writer);
            #[verifier::truncate]
            let n_lo = (note % 0x100) as u8;
            #[verifier::truncate]
            let n_hi = (note / 0x100) as u8;
            self.poke(((d as u8) * 2) | cbit, n_lo, writer);
            self.poke(((d as u8) * 2) | cbit | 1, n_hi, writer);
        } else if event.event_type == 0x21 {
            // Volume, with an optional envelope shape.
            #[verifier::truncate]
            let vol = event.value1 as u8;
            self.poke((d as u8) | cbit | 8, vol, writer);
            if event.value2 != 0 {
                #[verifier::truncate]
                let shape = event.value2 as u8;
                self.poke(enm_reg(b), shape, writer);
            }
        } else if event.event_type == 0x22 {
            // Tone, noise and duty control.
            #[verifier::truncate]
            let val = event.value1 as u8;
            let e0 = self.ena[c] & !(9u8 << (d as u8));
            let e = e0 | (((val & 1) | ((val & 2) << 2)) << (d as u8));
            self.ena.set(c, e);
            self.poke(7 | cbit, e, writer);
            self.poke(enm_reg(b), ((val >> 2) | 8) & 15, writer);
            self.poke(cbit | (0x16 + (d as u8)), val >> 5, writer);
        } else {
            // Direct register write, mirrored to both chips.
            #[verifier::truncate]
            let addr = event.event_type as u8;
            #[verifier::truncate]
            let v1 = event.value1 as u8;
            self.poke(addr, v1, writer);
            self.poke(addr | 0x80, v1, writer);
        }
        proof {
            assert(writer.data_view().subrange(0, old(writer).data_view().len() as int)
                =~= old(writer).data_view());
        }
    }
}

impl Default for Ay8930 {
    /// A fresh driver.
    fn default() -> (r: Ay8930)
        ensures
            r.wf(),
    {
        Ay8930::new()
    }
}

} // verus!
