//! Pokey (Atari) sound chip driver: four channels with 16-bit and
//! high-pass-filter pairings.

use vstd::prelude::*;
use super::{ChipOptions, MacroCommand, CHIP_ID_POKEY, writer_extended};
use crate::compiler::event::ChipEvent;
use crate::vgm::header;
use crate::vgm::header::le32;
use crate::vgm::writer::VgmWriter;

verus! {

/// Pokey chip.
#[derive(Debug)]
pub struct Pokey {
    pub clock: i32,
    pub opt_c: i32,
    pub opt_p: i32,
    pub opt_x: bool,
    pub audctl: u8,
    pub audc: u8,
    pub mul: i16,
    /// Channel state, role-major (three roles of four voices).
    pub stat: Vec<u8>,
    /// Channel address assignment.
    pub ass: Vec<u8>,
}

impl Pokey {
    /// Well-formed tables.
    pub open spec fn wf(&self) -> bool {
        &&& self.stat@.len() == 12
        &&& self.ass@.len() == 4
    }

    /// A fresh driver.
    pub fn new() -> (r: Pokey)
        ensures
            r.wf(),
            r.clock == 1789773,
    {
        let mut stat: Vec<u8> = Vec::new();
        let mut i: usize = 0;
        while i < 12
            invariant
                i <= 12,
                stat@.len() == i,
            decreases 12 - i,
        {
            stat.push(0x10);
            i = i + 1;
        }
        let mut ass: Vec<u8> = Vec::new();
        ass.push(0);
        ass.push(2);
        ass.push(4);
        ass.push(6);
        Pokey {
            clock: 1789773,
            opt_c: 0,
            opt_p: 0,
            opt_x: false,
            audctl: 0,
            audc: 0,
            mul: 0,
            stat,
            ass,
        }
    }

    /// Emit one register write: `0xBB address data`.
    fn poke(&self, address: u8, data: u8, writer: &mut VgmWriter)
        requires
            old(writer).wf(),
        ensures
            final(writer).wf(),
            final(writer).data_view() == old(writer).data_view() + seq![0xBBu8, address, data],
            final(writer).header_view() == old(writer).header_view(),
            final(writer).loop_view() == old(writer).loop_view(),
    {
        writer.write3(0xBB, address, data);
    }

    /// The chip's name.
    pub fn name(&self) -> (r: &'static str)
        ensures
            r@ == "Pokey"@,
    {
        "Pokey"
    }

    /// The chip's VGM chip id.
    pub fn chip_id(&self) -> (r: u8)
        ensures
            r == CHIP_ID_POKEY,
    {
        CHIP_ID_POKEY
    }

    /// Period-based: the clock over the selected divisor, negated.
    pub fn clock_div(&self) -> (r: i32) {
        let divisor: i32 = if self.opt_c != 0 {
            114
        } else {
            28
        };
        #[verifier::truncate]
        let r = (-((self.clock / divisor) as i64)) as i32;
        r
    }

    /// Eight-bit pitch register.
    pub fn note_bits(&self) -> (r: i32)
        ensures
            r == 8,
    {
        8
    }

    /// Reference octave.
    pub fn basic_octave(&self) -> (r: i32)
        ensures
            r == 2,
    {
        2
    }

    /// Apply parsed options with the hardware default clock.
    pub fn enable(&mut self, options: &ChipOptions)
        requires
            old(self).wf(),
        ensures
            final(self).wf(),
            final(self).clock == (if options.spec_get('H') == 0 {
                1789773int
            } else {
                options.spec_get('H')
            }),
    {
        self.clock = options.get('H');
        if self.clock == 0 {
            self.clock = 1789773;
        }
        self.opt_c = options.get('c');
        self.opt_p = options.get('p');
        self.opt_x = options.get('x') != 0;
        #[verifier::truncate]
        let ac = ((self.opt_c as i64) | ((self.opt_p as i64) * 128)) as u8;
        self.audctl = ac;
    }

    /// Reset the state and emit the power-up register writes.
    pub fn file_begin(&mut self, writer: &mut VgmWriter)
        requires
            old(self).wf(),
            old(writer).wf(),
        ensures
            final(self).wf(),
            writer_extended(*old(writer), *final(writer)),
            forall|t: int| 0 <= t < 12 ==> final(self).stat@[t] == 0x10,
            final(self).ass@ == seq![0u8, 2, 4, 6],
            final(self).audc == 0,
            final(self).mul == 0,
            final(self).audctl == old(self).audctl,
            final(writer).data_view() == old(writer).data_view() + seq![
                0xBBu8,
                0,
                0x00,
                0xBB,
                1,
                0xF0,
                0xBB,
                2,
                0x00,
                0xBB,
                3,
                0xF0,
                0xBB,
                4,
                0x00,
                0xBB,
                5,
                0xF0,
                0xBB,
                6,
                0x00,
                0xBB,
                7,
                0xF0,
                0xBB,
                8,
                old(self).audctl,
            ],
    {
        let mut i: usize = 0;
        while i < 12
            invariant
                i <= 12,
                self.stat@.len() == 12,
                self.ass@.len() == 4,
                self.audctl == old(self).audctl,
                forall|t: int| 0 <= t < i ==> self.stat@[t] == 0x10,
            decreases 12 - i,
        {
            self.stat.set(i, 0x10);
            i = i + 1;
        }
        self.ass.set(0, 0);
        self.ass.set(1, 2);
        self.ass.set(2, 4);
        self.ass.set(3, 6);
        self.audc = 0;
        self.mul = 0;

        self.poke(0, 0x00, writer);
        self.poke(1, 0xF0, writer);
        self.poke(2, 0x00, writer);
        self.poke(3, 0xF0, writer);
        self.poke(4, 0x00, writer);
        self.poke(5, 0xF0, writer);
        self.poke(6, 0x00, writer);
        self.poke(7, 0xF0, writer);
        self.poke(8, self.audctl, writer);
        proof {
            assert(self.ass@ =~= seq![0u8, 2, 4, 6]);
            assert(writer.data_view() =~= old(writer).data_view() + seq![
                0xBBu8,
                0,
                0x00,
                0xBB,
                1,
                0xF0,
                0xBB,
                2,
                0x00,
                0xBB,
                3,
                0xF0,
                0xBB,
                4,
                0x00,
                0xBB,
                5,
                0xF0,
                0xBB,
                6,
                0x00,
                0xBB,
                7,
                0xF0,
                0xBB,
                8,
                old(self).audctl,
            ]);
            assert(writer.data_view().subrange(0, old(writer).data_view().len() as int)
                =~= old(writer).data_view());
        }
    }

    /// Fix the Pokey clock field.
    pub fn file_end(&mut self, writer: &mut VgmWriter)
        requires
            old(self).wf(),
            old(writer).wf(),
        ensures
            final(self).wf(),
            *final(self) == *old(self),
            final(writer).wf(),
            final(writer).data_view() == old(writer).data_view(),
            final(writer).loop_view() == old(writer).loop_view(),
            0 <= old(self).clock < 0x40000000 ==> le32(
                final(writer).header_view(),
                header::POKEY_CLOCK as int,
            ) == old(self).clock,
            forall|i: int| 0 <= i < header::VGM_HEADER_SIZE && !(header::POKEY_CLOCK <= i < header::POKEY_CLOCK + 4)
                ==> final(writer).header_view()[i] == old(writer).header_view()[i],
    {
        let clock_val = super::clock_with_dual(self.clock, false);
        writer.set_chip_clock(header::POKEY_CLOCK, clock_val);
    }

    /// Nothing to invalidate at the loop point.
    pub fn loop_start(&mut self, writer: &mut VgmWriter)
        requires
            old(self).wf(),
            old(writer).wf(),
        ensures
            final(self).wf(),
            *final(self) == *old(self),
            writer_extended(*old(writer), *final(writer)),
    {
        proof {
            assert(writer.data_view().subrange(0, old(writer).data_view().len() as int)
                =~= old(writer).data_view());
        }
    }

    /// Reset the volume shadow at channel start.
    pub fn start_channel(&mut self, channel: usize)
        requires
            old(self).wf(),
        ensures
            final(self).wf(),
            final(self).audc == 0,
    {
        self.audc = 0;
    }

    /// Record the pairing mode in the assignments and control register.
    pub fn start_channel_with_info(&mut self, chip_sub: usize, chan_sub: usize)
        requires
            old(self).wf(),
        ensures
            final(self).wf(),
    {
        self.audc = 0;
        if chip_sub < 3 && chan_sub < 4 {
            self.stat.set(chip_sub * 4 + chan_sub, 0x10);
        }
        if chan_sub < 8 {
            if chip_sub == 1 {
                // 16-bit pairing.
                self.ass.set(0, 4);
                self.ass.set(1, 6);
                self.audctl = self.audctl | (0x10u8 >> (chan_sub as u8));
            } else if chip_sub == 2 {
                // High-pass filter pairing.
                self.ass.set(0, 2);
                self.ass.set(1, 6);
                self.audctl = self.audctl | (0x04u8 >> (chan_sub as u8));
            }
        }
    }

    /// Volume and distortion macros update the cached control byte.
    pub fn set_macro(
        &mut self,
        channel: usize,
        is_dynamic: bool,
        command: MacroCommand,
        value: i16,
    ) -> (r: Option<ChipEvent>)
        requires
            old(self).wf(),
        ensures
            final(self).wf(),
    {
        match command {
            MacroCommand::Volume => {
                #[verifier::truncate]
                let v = (value as u16 % 16) as u8;
                if (self.audc & 0x0F) != v {
                    self.audc = (self.audc & 0xE0) | v;
                    Some(ChipEvent::new(0xFD, self.audc as i32, 0))
                } else {
                    None
                }
            },
            MacroCommand::Tone => {
                #[verifier::truncate]
                let v = (value as u16 % 8) as u8;
                if (self.audc >> 5) != v {
                    self.audc = (self.audc & 0x0F) | (v << 5);
                    Some(ChipEvent::new(0xFD, self.audc as i32, 0))
                } else {
                    None
                }
            },
            MacroCommand::Multiply => {
                self.mul = value;
                None
            },
            _ => None,
        }
    }

    /// A note-on carries the pitch and the filter multiplier.
    pub fn note_on(&mut self, channel: usize, note: i32, octave: i32, duration: i32) -> (r: Option<
        ChipEvent,
    >)
        requires
            old(self).wf(),
        ensures
            final(self).wf(),
            *final(self) == *old(self),
            r == Some(ChipEvent { event_type: 0xFE, value1: note, value2: old(self).mul as i32 }),
    {
        Some(ChipEvent::new(0xFE, note, self.mul as i32))
    }

    /// A pitch change.
    pub fn note_change(&mut self, channel: usize, note: i32, octave: i32) -> (r: Option<ChipEvent>)
        requires
            old(self).wf(),
        ensures
            final(self).wf(),
            *final(self) == *old(self),
            r == Some(ChipEvent { event_type: 0xFE, value1: note, value2: old(self).mul as i32 }),
    {
        Some(ChipEvent::new(0xFE, note, self.mul as i32))
    }

    /// A note-off.
    pub fn note_off(&mut self, channel: usize, note: i32, octave: i32) -> (r: Option<ChipEvent>)
        requires
            old(self).wf(),
        ensures
            final(self).wf(),
            *final(self) == *old(self),
            r == Some(ChipEvent { event_type: 0xFF, value1: 0, value2: 0 }),
    {
        Some(ChipEvent::new(0xFF, 0, 0))
    }

    /// A rest leaves the channel alone.
    pub fn rest(&mut self, channel: usize, duration: i32) -> (r: Option<ChipEvent>)
        requires
            old(self).wf(),
        ensures
            final(self).wf(),
            *final(self) == *old(self),
            r is None,
    {
        None
    }

    /// A direct write carries the register address in the event type.
    pub fn direct(&mut self, channel: usize, address: u16, value: u8) -> (r: Option<ChipEvent>)
        requires
            old(self).wf(),
        ensures
            final(self).wf(),
            *final(self) == *old(self),
            r == Some(ChipEvent { event_type: address, value1: value as i32, value2: 0 }),
    {
        Some(ChipEvent::new(address, value as i32, 0))
    }

    /// Perform the register writes for one event.
    pub fn send(
        &mut self,
        event: &ChipEvent,
        channel: usize,
        chip_sub: usize,
        chan_sub: usize,
        writer: &mut VgmWriter,
    )
        requires
            old(self).wf(),
            old(writer).wf(),
        ensures
            final(self).wf(),
            writer_extended(*old(writer), *final(writer)),
    {
        let c = chip_sub;
        let d = chan_sub;
        // Sub-indices past the pairing capacity address no channel.
        if c > 2 || d > 3 {
            proof {
                assert(writer.data_view().subrange(0, old(writer).data_view().len() as int)
                    =~= old(writer).data_view());
            }
            return;
        }
        let slot = c * 4 + d;

        // The register base for this voice in its pairing mode.
        let a: u8 = if c != 0 {
            let shift: u8 = if c == 1 {
                2
            } else {
                1
            };
            (d as u8) << shift
        } else {
            self.ass[d]
        };

        if event.event_type == 0xFD {
            // Volume and distortion.
            #[verifier::truncate]
            let vu = event.value1 as u32;
            let v1 = (vu % 0x100) as u8;
            let st = (self.stat[slot] & 0x10) | (v1 & 0xEF);
            self.stat.set(slot, st);
            if (st & 0x10) == 0 {
                self.poke(a | 1, st, writer);
            }
        } else if event.event_type == 0xFE {
            // Key on.
            let note64: i64 = event.value1 as i64;
            let adjusted: i64 = if c == 1 {
                let n = note64 - 7;
                // Swap the bytes for the 16-bit pairing.
                let low = ((n % 0x10000) + 0x10000) % 0x100;
                let high = (((n / 0x100) % 0x100) + 0x100) % 0x100;
                low * 0x100 + high
            } else {
                note64 - 1
            };
            #[verifier::truncate]
            let n_lo = (adjusted % 0x100) as u8;
            self.poke(a, n_lo, writer);

            if c == 1 {
                #[verifier::truncate]
                let n_hi = ((adjusted / 0x100) % 0x100) as u8;
                self.poke(a | 2, n_hi, writer);
            }

            if c == 2 {
                // Filter pairing: write the computed filter value.
                let mut filter_val: i64 = if event.value2 > 0 {
                    super::mul_i32(event.value1, event.value2) - 1
                } else if event.value2 < 0 {
                    ((event.value1 as i64) / (-(event.value2 as i64))) - 1
                } else {
                    0x40
                };
                if filter_val < 0 {
                    filter_val = 0;
                }
                if filter_val > 255 {
                    filter_val = 255;
                }
                self.poke(a | 4, filter_val as u8, writer);
            }

            // Turn the volume on when the voice was muted.
            if (self.stat[slot] & 0x10) != 0 {
                let st = self.stat[slot] & 0xEF;
                self.stat.set(slot, st);
                self.poke(a | 1, st, writer);
            }
        } else if event.event_type == 0xFF {
            // Key off.
            if (self.stat[slot] & 0x10) != 0 {
                proof {
                    assert(writer.data_view().subrange(
                        0,
                        old(writer).data_view().len() as int,
                    ) =~= old(writer).data_view());
                }
                return;
            }
            let st = self.stat[slot] | 0x10;
            self.stat.set(slot, st);
            self.poke(a | 1, 0xF0, writer);
            self.poke(a, 0x00, writer);
            if c == 1 {
                self.poke(a | 2, 0x00, writer);
            }
        } else {
            // Direct register write.
            #[verifier::truncate]
            let addr = event.event_type as u8;
            #[verifier::truncate]
            let v1 = event.value1 as u8;
            self.poke(addr, v1, writer);
        }
        proof {
            assert(writer.data_view().subrange(0, old(writer).data_view().len() as int)
                =~= old(writer).data_view());
        }
    }
}

impl Default for Pokey {
    /// A fresh driver.
    fn default() -> (r: Pokey)
        ensures
            r.wf(),
    {
        Pokey::new()
    }
}

} // verus!
