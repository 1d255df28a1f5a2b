//! AY-3-8910 sound chip driver.

use vstd::prelude::*;
use super::{ChipOptions, MacroCommand, CHIP_ID_AY8910, writer_extended};
use crate::compiler::event::ChipEvent;
use crate::vgm::header;
use crate::vgm::header::le32;
use crate::vgm::writer::VgmWriter;

verus! {

/// AY-3-8910 chip.
#[derive(Debug)]
pub struct Ay8910 {
    pub clock: i32,
    /// Enable register shadow per chip.
    pub ena: Vec<u8>,
    /// Current volume.
    pub vol: u8,
    /// Dual-chip tracking.
    pub dual: i32,
    /// Whether the envelope role is in use.
    pub spec_chan: bool,
    /// Envelope multiplier.
    pub mul: i32,
    pub opt_s: i32,
    pub opt_t: u8,
    pub opt_l: bool,
    pub opt_s_flag: bool,
    pub opt_d_flag: bool,
    pub opt_r_flag: bool,
}

impl Ay8910 {
    /// Well-formed shadow tables.
    pub open spec fn wf(&self) -> bool {
        self.ena@.len() == 2
    }

    /// A fresh driver.
    pub fn new() -> (r: Ay8910)
        ensures
            r.wf(),
            r.clock == 1789750,
            r.vol == 15,
            r.dual == 0,
            !r.spec_chan,
    {
        let mut ena: Vec<u8> = Vec::new();
        ena.push(0);
        ena.push(0);
        Ay8910 {
            clock: 1789750,
            ena,
            vol: 15,
            dual: 0,
            spec_chan: false,
            mul: 0,
            opt_s: 1,
            opt_t: 0,
            opt_l: true,
            opt_s_flag: false,
            opt_d_flag: false,
            opt_r_flag: false,
        }
    }

    /// Emit one register write: `0xA0 address data`.
    fn poke(&self, address: u8, data: u8, writer: &mut VgmWriter)
        requires
            old(writer).wf(),
        ensures
            final(writer).wf(),
            final(writer).data_view() == old(writer).data_view() + seq![0xA0u8, address, data],
            final(writer).header_view() == old(writer).header_view(),
            final(writer).loop_view() == old(writer).loop_view(),
    {
        writer.write3(0xA0, address, data);
    }

    /// The chip's name.
    pub fn name(&self) -> (r: &'static str)
        ensures
            r@ == "GI-AY"@,
    {
        "GI-AY"
    }

    /// The chip's VGM chip id.
    pub fn chip_id(&self) -> (r: u8)
        ensures
            r == CHIP_ID_AY8910,
    {
        CHIP_ID_AY8910
    }

    /// Period-based: the negated clock.
    pub fn clock_div(&self) -> (r: i32)
        ensures
            self.clock > i32::MIN ==> r == -self.clock,
    {
        #[verifier::truncate]
        let r = (-(self.clock as i64)) as i32;
        r
    }

    /// Twelve-bit pitch register.
    pub fn note_bits(&self) -> (r: i32)
        ensures
            r == 12,
    {
        12
    }

    /// Reference octave.
    pub fn basic_octave(&self) -> (r: i32)
        ensures
            r == 1,
    {
        1
    }

    /// Apply parsed options, with hardware defaults for unset values.
    pub fn enable(&mut self, options: &ChipOptions)
        requires
            old(self).wf(),
        ensures
            final(self).wf(),
            final(self).clock == (if options.spec_get('H') == 0 {
                1789750int
            } else {
                options.spec_get('H')
            }),
    {
        self.clock = options.get('H');
        if self.clock == 0 {
            self.clock = 1789750;
        }
        self.opt_s = options.get('S');
        if self.opt_s == 0 {
            self.opt_s = 1;
        }
        #[verifier::truncate]
        let t = options.get('T') as u8;
        self.opt_t = t;
        self.opt_l = options.get('l') != 0;
        self.opt_s_flag = options.get('s') != 0;
        self.opt_d_flag = options.get('d') != 0;
        self.opt_r_flag = options.get('r') != 0;
    }

    /// Reset the enable shadows and resolve the dual flag.
    pub fn file_begin(&mut self, writer: &mut VgmWriter)
        requires
            old(self).wf(),
            old(writer).wf(),
        ensures
            final(self).wf(),
            writer_extended(*old(writer), *final(writer)),
    {
        self.ena.set(0, 0);
        self.ena.set(1, 0);
        let spec_val: i32 = if self.spec_chan {
            1
        } else {
            0
        };
        self.dual = if self.dual > 2 - spec_val {
            1
        } else {
            0
        };
        proof {
            assert(writer.data_view().subrange(0, old(writer).data_view().len() as int)
                =~= old(writer).data_view());
        }
    }

    /// Fix the AY8910 header fields: clock with bit 30 as the dual flag,
    /// chip type, and flag bits.
    pub fn file_end(&mut self, writer: &mut VgmWriter)
        requires
            old(self).wf(),
            old(writer).wf(),
        ensures
            final(self).wf(),
            *final(self) == *old(self),
            final(writer).wf(),
            final(writer).data_view() == old(writer).data_view(),
            final(writer).loop_view() == old(writer).loop_view(),
            0 <= old(self).clock < 0x40000000 ==> le32(
                final(writer).header_view(),
                header::AY8910_CLOCK as int,
            ) == old(self).clock + (if old(self).dual != 0 {
                0x40000000int
            } else {
                0int
            }),
            forall|i: int| 0 <= i < header::VGM_HEADER_SIZE && !(header::AY8910_CLOCK <= i < header::AY8910_CLOCK + 4) && i != header::AY8910_TYPE && i != header::AY8910_FLAGS
                ==> final(writer).header_view()[i] == old(writer).header_view()[i],
    {
        let clock_val = super::clock_with_dual(self.clock, self.dual != 0);
        writer.set_chip_clock(header::AY8910_CLOCK, clock_val);
        writer.set_header_u8(header::AY8910_TYPE, self.opt_t);
        let flags: u8 = (if self.opt_l {
            1u8
        } else {
            0u8
        }) + (if self.opt_s_flag {
            2u8
        } else {
            0u8
        }) + (if self.opt_d_flag {
            4u8
        } else {
            0u8
        }) + (if self.opt_r_flag {
            8u8
        } else {
            0u8
        });
        writer.set_header_u8(header::AY8910_FLAGS, flags);
    }

    /// Nothing to invalidate at the loop point.
    pub fn loop_start(&mut self, writer: &mut VgmWriter)
        requires
            old(self).wf(),
            old(writer).wf(),
        ensures
            final(self).wf(),
            *final(self) == *old(self),
            writer_extended(*old(writer), *final(writer)),
    {
        proof {
            assert(writer.data_view().subrange(0, old(writer).data_view().len() as int)
                =~= old(writer).data_view());
        }
    }

    /// Nothing to record at channel start.
    pub fn start_channel(&mut self, channel: usize)
        requires
            old(self).wf(),
        ensures
            final(self).wf(),
            *final(self) == *old(self),
    {
    }

    /// Record role usage and the highest voice index.
    pub fn start_channel_with_info(&mut self, chip_sub: usize, chan_sub: usize)
        requires
            old(self).wf(),
        ensures
            final(self).wf(),
            final(self).vol == 15,
            final(self).mul == 0,
            final(self).spec_chan == (old(self).spec_chan || chip_sub != 0),
            chan_sub < 0x80000000 ==> final(self).dual as int == (if chip_sub != 0 && chan_sub
                != 0 {
                6int
            } else if chan_sub > old(self).dual {
                chan_sub as int
            } else {
                old(self).dual as int
            }),
    {
        self.mul = 0;
        self.vol = 15;
        if chip_sub != 0 {
            self.spec_chan = true;
        }
        #[verifier::truncate]
        let cs = chan_sub as i32;
        if cs > self.dual {
            self.dual = cs;
        }
        if chip_sub != 0 && chan_sub != 0 {
            self.dual = 6;
        }
    }

    /// Translate a macro set to a driver event.
    pub fn set_macro(
        &mut self,
        channel: usize,
        is_dynamic: bool,
        command: MacroCommand,
        value: i16,
    ) -> (r: Option<ChipEvent>)
        requires
            old(self).wf(),
        ensures
            final(self).wf(),
    {
        match command {
            MacroCommand::Volume => {
                #[verifier::truncate]
                let vb = value as u8;
                if is_dynamic && self.vol == vb {
                    return None;
                }
                #[verifier::truncate]
                let v15 = (value & 15) as u8;
                self.vol = v15;
                Some(ChipEvent::new(0x21, self.vol as i32, 0))
            },
            MacroCommand::Tone => Some(ChipEvent::new(0x22, value as i32, 0)),
            MacroCommand::Multiply => {
                self.vol = 0x1F;
                self.mul = value as i32;
                None
            },
            MacroCommand::VolumeEnv => {
                self.vol = 0x1F;
                let env_shape: i32 = if value > 0 {
                    13
                } else {
                    9
                };
                let mag: i32 = if value < 0 {
                    -(value as i32)
                } else {
                    value as i32
                };
                self.mul = if value > 0 {
                    -mag
                } else {
                    mag
                };
                Some(ChipEvent::new(0x21, self.vol as i32, env_shape))
            },
            MacroCommand::Sample => Some(ChipEvent::new(0x06, value as i32, 0)),
            _ => None,
        }
    }

    /// A note-on packs the pitch with the cached volume and multiplier.
    pub fn note_on(&mut self, channel: usize, note: i32, octave: i32, duration: i32) -> (r: Option<
        ChipEvent,
    >)
        requires
            old(self).wf(),
        ensures
            final(self).wf(),
            *final(self) == *old(self),
            r is Some,
    {
        Some(ChipEvent::new(0x20, note, self.pack_vol_mul()))
    }

    /// A pitch change repeats the note-on packing.
    pub fn note_change(&mut self, channel: usize, note: i32, octave: i32) -> (r: Option<ChipEvent>)
        requires
            old(self).wf(),
        ensures
            final(self).wf(),
            *final(self) == *old(self),
            r is Some,
    {
        Some(ChipEvent::new(0x20, note, self.pack_vol_mul()))
    }

    /// The volume in the low byte and the multiplier above bit 16.
    fn pack_vol_mul(&self) -> (r: i32) {
        #[verifier::truncate]
        let r = ((self.vol as i64) + ((self.mul as i64) * 0x10000)) as i32;
        r
    }

    /// A note-off silences the voice.
    pub fn note_off(&mut self, channel: usize, note: i32, octave: i32) -> (r: Option<ChipEvent>)
        requires
            old(self).wf(),
        ensures
            final(self).wf(),
            *final(self) == *old(self),
            r == Some(ChipEvent { event_type: 0x20, value1: 0, value2: 0 }),
    {
        Some(ChipEvent::new(0x20, 0, 0))
    }

    /// A rest silences the voice.
    pub fn rest(&mut self, channel: usize, duration: i32) -> (r: Option<ChipEvent>)
        requires
            old(self).wf(),
        ensures
            final(self).wf(),
            *final(self) == *old(self),
            r == Some(ChipEvent { event_type: 0x20, value1: 0, value2: 0 }),
    {
        Some(ChipEvent::new(0x20, 0, 0))
    }

    /// A direct write carries the register address in the event type.
    pub fn direct(&mut self, channel: usize, address: u16, value: u8) -> (r: Option<ChipEvent>)
        requires
            old(self).wf(),
        ensures
            final(self).wf(),
            *final(self) == *old(self),
            r == Some(ChipEvent { event_type: address, value1: value as i32, value2: 0 }),
    {
        Some(ChipEvent::new(address, value as i32, 0))
    }

    /// Perform the register writes for one event.
    pub fn send(
        &mut self,
        event: &ChipEvent,
        channel: usize,
        chip_sub: usize,
        chan_sub: usize,
        writer: &mut VgmWriter,
    )
        requires
            old(self).wf(),
            old(writer).wf(),
        ensures
            final(self).wf(),
            writer_extended(*old(writer), *final(writer)),
    {
        let a = chip_sub;
        let b = chan_sub;
        let spec_val: usize = if self.spec_chan {
            1
        } else {
            0
        };
        let cc: usize = (a & b) | (if b > 2 - spec_val {
            1
        } else {
            0
        });
        // Only the low bit of the chip index reaches the address byte.
        let c: u8 = (cc % 2) as u8;
        let d: u8 = if a != 0 {
            2
        } else {
            ((b % (3 - spec_val)) as u8)
        };

        if event.event_type == 0x20 {
            // Key on or off.
            #[verifier::truncate]
            let note = event.value1 as u16;
            #[verifier::truncate]
            let vol = (event.value2 % 0x100) as u8;
            #[verifier::truncate]
            let hi16 = ((event.value2 as u32) / 0x10000) as u16;
            let env_period: u16 = if hi16 >= 0x8000 {
                #[verifier::truncate]
                let neg = (0x10000u32 - hi16 as u32) as u16;
                neg
            } else {
                hi16
            };

            if a != 0 {
                // The envelope role drives the envelope period registers.
                #[verifier::truncate]
                let ep_lo = (env_period % 0x100) as u8;
                #[verifier::truncate]
                let ep_hi = (env_period / 0x100) as u8;
                self.poke(11 | (c << 7), ep_lo, writer);
                self.poke(12 | (c << 7), ep_hi, writer);
            }
            self.poke(d | (c << 7) | 8, vol, writer);
            #[verifier::truncate]
            let n_lo = (note % 0x100) as u8;
            #[verifier::truncate]
            let n_hi = (note / 0x100) as u8;
            self.poke((d << 1) | (c << 7), n_lo, writer);
            self.poke((d << 1) | (c << 7) | 1, n_hi, writer);
        } else if event.event_type == 0x21 {
            // Volume, with an optional envelope shape.
            #[verifier::truncate]
            let vol = event.value1 as u8;
            #[verifier::truncate]
            let env_shape = event.value2 as u8;
            self.poke(d | (c << 7) | 8, vol, writer);
            if a != 0 && env_shape != 0 {
                self.poke(13 | (c << 7), env_shape, writer);
            }
        } else if event.event_type == 0x22 {
            // Tone and noise enable control.
            #[verifier::truncate]
            let val = event.value1 as u8;
            let ci = c as usize;
            let mut e: u8 = self.ena[ci];
            e = e & !(9u8 << d);
            e = e | (((val & 1) | ((val & 2) << 2)) << d);
            self.ena.set(ci, e);
            self.poke(7 | (c << 7), e, writer);
            if a != 0 {
                self.poke(13 | (c << 7), (val >> 2) | 8, writer);
            }
        } else {
            // Direct register write.
            #[verifier::truncate]
            let addr = (event.event_type as u8) ^ (c << 7);
            #[verifier::truncate]
            let v1 = event.value1 as u8;
            self.poke(addr, v1, writer);
        }
        proof {
            assert(writer.data_view().subrange(0, old(writer).data_view().len() as int)
                =~= old(writer).data_view());
        }
    }
}

impl Default for Ay8910 {
    /// A fresh driver.
    fn default() -> (r: Ay8910)
        ensures
            r.wf(),
    {
        Ay8910::new()
    }
}

} // verus!
