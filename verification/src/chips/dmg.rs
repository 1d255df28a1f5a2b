//! GameBoy DMG sound chip driver.

use vstd::prelude::*;
use super::{ChipOptions, MacroCommand, CHIP_ID_GB_DMG, writer_extended};
use crate::compiler::envelope::MacroEnvStorage;
use crate::compiler::event::ChipEvent;
use crate::vgm::header;
use crate::vgm::header::le32;
use crate::vgm::writer::VgmWriter;

verus! {

/// The DMG noise divisor code for each raw noise index.
fn noise_code(idx: u8) -> (r: u8)
    requires
        idx < 16,
    ensures
        r < 16,
{
    if idx == 0 {
        1
    } else if idx == 1 {
        9
    } else if idx == 2 {
        2
    } else if idx == 3 {
        10
    } else if idx == 4 {
        3
    } else if idx == 5 {
        5
    } else if idx == 6 {
        13
    } else if idx == 7 {
        6
    } else if idx == 8 {
        14
    } else if idx == 9 {
        7
    } else if idx == 10 {
        15
    } else if idx == 11 {
        11
    } else if idx == 12 {
        4
    } else if idx == 13 {
        8
    } else if idx == 14 {
        12
    } else {
        0
    }
}

/// GameBoy DMG chip.
#[derive(Debug)]
pub struct Dmg {
    pub clock: i32,
    pub dual: bool,
    /// Panning register shadow per chip.
    pub pan: Vec<u8>,
    /// Current volume and envelope nibbles.
    pub vol: u8,
}

impl Dmg {
    /// Well-formed shadow tables.
    pub open spec fn wf(&self) -> bool {
        self.pan@.len() == 2
    }

    /// A fresh driver.
    pub fn new() -> (r: Dmg)
        ensures
            r.wf(),
            r.clock == 4194304,
            !r.dual,
    {
        let mut pan: Vec<u8> = Vec::new();
        pan.push(0xFF);
        pan.push(0xFF);
        Dmg { clock: 4194304, dual: false, pan, vol: 0xF0 }
    }

    /// The chip's name.
    pub fn name(&self) -> (r: &'static str)
        ensures
            r@ == "GAMEBOY"@,
    {
        "GAMEBOY"
    }

    /// The chip's VGM chip id.
    pub fn chip_id(&self) -> (r: u8)
        ensures
            r == CHIP_ID_GB_DMG,
    {
        CHIP_ID_GB_DMG
    }

    /// Period-based: the negated clock.
    pub fn clock_div(&self) -> (r: i32)
        ensures
            self.clock > i32::MIN ==> r == -self.clock,
    {
        #[verifier::truncate]
        let r = (-(self.clock as i64)) as i32;
        r
    }

    /// Eleven-bit pitch register.
    pub fn note_bits(&self) -> (r: i32)
        ensures
            r == 11,
    {
        11
    }

    /// Reference octave.
    pub fn basic_octave(&self) -> (r: i32)
        ensures
            r == 1,
    {
        1
    }

    /// Apply parsed options with the hardware default clock.
    pub fn enable(&mut self, options: &ChipOptions)
        requires
            old(self).wf(),
        ensures
            final(self).wf(),
            final(self).clock == (if options.spec_get('H') == 0 {
                4194304int
            } else {
                options.spec_get('H')
            }),
    {
        self.clock = options.get('H');
        if self.clock == 0 {
            self.clock = 4194304;
        }
    }

    /// Reset the shadows and emit the sound-system power-up writes.
    pub fn file_begin(&mut self, writer: &mut VgmWriter)
        requires
            old(self).wf(),
            old(writer).wf(),
        ensures
            final(self).wf(),
            writer_extended(*old(writer), *final(writer)),
            final(self).pan@ == old(self).pan@.update(0, 0xFFu8).update(1, 0xFFu8),
            final(self).vol == 0xF0,
            final(self).dual == old(self).dual,
            final(self).clock == old(self).clock,
            final(writer).data_view() == old(writer).data_view() + seq![
                0xB3u8,
                0x16,
                0xFF,
                0xB3,
                0x14,
                0x77,
                0xB3,
                0x15,
                0xFF,
            ] + (if old(self).dual {
                seq![0xB3u8, 0x96, 0xFF, 0xB3, 0x94, 0x77, 0xB3, 0x95, 0xFF]
            } else {
                Seq::<u8>::empty()
            }),
    {
        self.pan.set(0, 0xFF);
        self.pan.set(1, 0xFF);
        self.vol = 0xF0;

        writer.write3(0xB3, 0x16, 0xFF);
        writer.write3(0xB3, 0x14, 0x77);
        writer.write3(0xB3, 0x15, 0xFF);

        let ghost boot = seq![0xB3u8, 0x16, 0xFF, 0xB3, 0x14, 0x77, 0xB3, 0x15, 0xFF];
        proof {
            assert(writer.data_view() =~= old(writer).data_view() + boot);
        }
        if self.dual {
            writer.write3(0xB3, 0x96, 0xFF);
            writer.write3(0xB3, 0x94, 0x77);
            writer.write3(0xB3, 0x95, 0xFF);
            proof {
                assert(writer.data_view() =~= old(writer).data_view() + boot + seq![
                    0xB3u8,
                    0x96,
                    0xFF,
                    0xB3,
                    0x94,
                    0x77,
                    0xB3,
                    0x95,
                    0xFF,
                ]);
            }
        } else {
            proof {
                assert(writer.data_view() =~= old(writer).data_view() + boot
                    + Seq::<u8>::empty());
            }
        }
        proof {
            assert(writer.data_view().subrange(0, old(writer).data_view().len() as int)
                =~= old(writer).data_view());
        }
    }

    /// Fix the DMG clock field, bit 30 for dual-chip use.
    pub fn file_end(&mut self, writer: &mut VgmWriter)
        requires
            old(self).wf(),
            old(writer).wf(),
        ensures
            final(self).wf(),
            *final(self) == *old(self),
            final(writer).wf(),
            final(writer).data_view() == old(writer).data_view(),
            final(writer).loop_view() == old(writer).loop_view(),
            0 <= old(self).clock < 0x40000000 ==> le32(
                final(writer).header_view(),
                header::GB_DMG_CLOCK as int,
            ) == old(self).clock + (if old(self).dual {
                0x40000000int
            } else {
                0int
            }),
            forall|i: int| 0 <= i < header::VGM_HEADER_SIZE && !(header::GB_DMG_CLOCK <= i < header::GB_DMG_CLOCK + 4)
                ==> final(writer).header_view()[i] == old(writer).header_view()[i],
    {
        let clock_val = super::clock_with_dual(self.clock, self.dual);
        writer.set_chip_clock(header::GB_DMG_CLOCK, clock_val);
    }

    /// Nothing to invalidate at the loop point.
    pub fn loop_start(&mut self, writer: &mut VgmWriter)
        requires
            old(self).wf(),
            old(writer).wf(),
        ensures
            final(self).wf(),
            *final(self) == *old(self),
            writer_extended(*old(writer), *final(writer)),
    {
        proof {
            assert(writer.data_view().subrange(0, old(writer).data_view().len() as int)
                =~= old(writer).data_view());
        }
    }

    /// Reset the volume at channel start.
    pub fn start_channel(&mut self, channel: usize)
        requires
            old(self).wf(),
        ensures
            final(self).wf(),
            final(self).vol == 0xF0,
    {
        self.vol = 0xF0;
    }

    /// Nothing to record from sub-indices.
    pub fn start_channel_with_info(&mut self, chip_sub: usize, chan_sub: usize)
        requires
            old(self).wf(),
        ensures
            final(self).wf(),
            *final(self) == *old(self),
    {
    }

    /// Translate macro sets; volume updates the cached register nibble.
    pub fn set_macro(
        &mut self,
        channel: usize,
        is_dynamic: bool,
        command: MacroCommand,
        value: i16,
    ) -> (r: Option<ChipEvent>)
        requires
            old(self).wf(),
        ensures
            final(self).wf(),
    {
        match command {
            MacroCommand::Panning => Some(ChipEvent::new(0xFFF0, value as i32, 0)),
            MacroCommand::Volume => {
                #[verifier::truncate]
                let high = ((value as i64) * 16) as u8;
                self.vol = (self.vol & 0x0F) | high;
                Some(ChipEvent::new(0xFFF1, value as i32, 0))
            },
            MacroCommand::VolumeEnv => {
                let env_val: u8 = if value <= 0 {
                    #[verifier::truncate]
                    let m = (-(value as i32)) as u8;
                    m
                } else {
                    #[verifier::truncate]
                    let m = (value as u8) | 8;
                    m
                };
                self.vol = (self.vol & 0xF0) | (env_val & 0x0F);
                None
            },
            MacroCommand::Waveform => Some(ChipEvent::new(0xFFF2, value as i32, 0)),
            MacroCommand::Tone => Some(ChipEvent::new(0xFFF3, value as i32, 0)),
            _ => None,
        }
    }

    /// A note-on packs the pitch with the cached volume and the octave.
    pub fn note_on(&mut self, channel: usize, note: i32, octave: i32, duration: i32) -> (r: Option<
        ChipEvent,
    >)
        requires
            old(self).wf(),
        ensures
            final(self).wf(),
            *final(self) == *old(self),
            r is Some,
    {
        #[verifier::truncate]
        let v2 = ((self.vol as i64) + (octave as i64) * 0x100) as i32;
        Some(ChipEvent::new(0xFFF4, note, v2))
    }

    /// A pitch change.
    pub fn note_change(&mut self, channel: usize, note: i32, octave: i32) -> (r: Option<ChipEvent>)
        requires
            old(self).wf(),
        ensures
            final(self).wf(),
            *final(self) == *old(self),
            r == Some(ChipEvent { event_type: 0xFFF5, value1: note, value2: octave }),
    {
        Some(ChipEvent::new(0xFFF5, note, octave))
    }

    /// A note-off.
    pub fn note_off(&mut self, channel: usize, note: i32, octave: i32) -> (r: Option<ChipEvent>)
        requires
            old(self).wf(),
        ensures
            final(self).wf(),
            *final(self) == *old(self),
            r == Some(ChipEvent { event_type: 0xFFF6, value1: 0, value2: 0 }),
    {
        Some(ChipEvent::new(0xFFF6, 0, 0))
    }

    /// A rest leaves the channel alone.
    pub fn rest(&mut self, channel: usize, duration: i32) -> (r: Option<ChipEvent>)
        requires
            old(self).wf(),
        ensures
            final(self).wf(),
            *final(self) == *old(self),
            r is None,
    {
        None
    }

    /// A direct write carries the register address in the event type.
    pub fn direct(&mut self, channel: usize, address: u16, value: u8) -> (r: Option<ChipEvent>)
        requires
            old(self).wf(),
        ensures
            final(self).wf(),
            *final(self) == *old(self),
            r == Some(ChipEvent { event_type: address, value1: value as i32, value2: 0 }),
    {
        Some(ChipEvent::new(address, value as i32, 0))
    }

    /// Perform the register writes for one event.
    pub fn send(
        &mut self,
        event: &ChipEvent,
        channel: usize,
        chip_sub: usize,
        chan_sub: usize,
        writer: &mut VgmWriter,
    )
        requires
            old(self).wf(),
            old(writer).wf(),
        ensures
            final(self).wf(),
            writer_extended(*old(writer), *final(writer)),
            final(self).dual == (old(self).dual || (chip_sub <= 5 && chan_sub <= 7 && chan_sub > (
            if chip_sub == 0 {
                1int
            } else {
                0int
            }))),
    {
        let a = chip_sub;
        let b = chan_sub;
        // Role indices past the hardware capacity address no channel.
        if a > 5 || b > 7 {
            proof {
                assert(writer.data_view().subrange(0, old(writer).data_view().len() as int)
                    =~= old(writer).data_view());
            }
            return;
        }
        let c: usize = if b > (if a == 0 {
            1
        } else {
            0
        }) {
            1
        } else {
            0
        };
        if c > 0 {
            self.dual = true;
        }
        // Sub-indices past the four hardware voices address no channel.
        if a > 2 || b > 7 {
            proof {
                assert(writer.data_view().subrange(0, old(writer).data_view().len() as int)
                    =~= old(writer).data_view());
            }
            return;
        }
        let d: usize = a + (if a == 0 {
            b % 2
        } else {
            0
        }) + (if a != 0 {
            1
        } else {
            0
        });

        if d > 3 || b > 7 {
            proof {
                assert(writer.data_view().subrange(0, old(writer).data_view().len() as int)
                    =~= old(writer).data_view());
            }
            return;
        }
        let cbit: u8 = (c as u8) << 7;

        if event.event_type == 0xFFF0 {
            // Stereo panning.
            let mask: u8 = 0x11u8 << (d as u8);
            let val = event.value1;
            let bits: u8 = if val < 0 {
                0x10u8 << (d as u8)
            } else if val > 0 {
                0x01u8 << (d as u8)
            } else {
                0x11u8 << (d as u8)
            };
            let p = (self.pan[c] & !mask) | bits;
            self.pan.set(c, p);
            writer.write3(0xB3, cbit | 0x15, p);
        } else if event.event_type == 0xFFF1 {
            // Wave-channel master volume.
            if a == 1 {
                #[verifier::truncate]
                let vol = event.value1 as u8;
                self.vol = vol;
                #[verifier::truncate]
                let shifted = (((4i64 - vol as i64)) * 32) as u8;
                writer.write3(0xB3, cbit | 0x0C, shifted);
            }
        } else if event.event_type == 0xFFF2 {
            // Wave table select: needs the envelope store.
        } else if event.event_type == 0xFFF3 {
            // Duty cycle for the square channels.
            #[verifier::truncate]
            let duty = ((event.value1 as i64) * 64) as u8;
            writer.write3(0xB3, cbit | (((b % 8) as u8) * 5 + 1), duty);
        } else if event.event_type == 0xFFF4 {
            // Note on.
            #[verifier::truncate]
            let vol = (event.value2 % 0x100) as u8;
            let octave = event.value2 / 0x100;
            let note: u32 = if a == 2 {
                #[verifier::truncate]
                let idx = ((event.value1 as u32) % 16) as u8;
                let code = noise_code(idx) as u32;
                #[verifier::truncate]
                let oct4 = (((15i64 - octave as i64)) * 16) as u32;
                code | oct4
            } else {
                #[verifier::truncate]
                let n = event.value1 as u32;
                n
            };
            let period: u32 = (note ^ 0x7FF) % 0x10000;
            let vol_reg: u8 = vol | (if a == 1 {
                0x80
            } else {
                0
            });

            let vreg_off: u8 = ((d as u8) * 5) + (if a != 1 {
                2
            } else {
                0
            });
            writer.write3(0xB3, cbit | vreg_off, vol_reg);
            #[verifier::truncate]
            let p_lo = (period % 0x100) as u8;
            writer.write3(0xB3, cbit | ((d as u8) * 5 + 3), p_lo);
            #[verifier::truncate]
            let p_hi = ((period / 0x100) | 0x80) as u8;
            writer.write3(0xB3, cbit | ((d as u8) * 5 + 4), p_hi);
        } else if event.event_type == 0xFFF5 {
            // Pitch change.
            let octave = event.value2;
            if a == 2 {
                #[verifier::truncate]
                let idx = ((event.value1 as u32) % 16) as u8;
                let code = noise_code(idx) as u32;
                #[verifier::truncate]
                let oct4 = (((15i64 - octave as i64)) * 16) as u32;
                #[verifier::truncate]
                let nb = (code | oct4) as u8;
                writer.write3(0xB3, cbit | 0x12, nb);
            } else {
                #[verifier::truncate]
                let note = event.value1 as u32;
                let period: u32 = (note ^ 0x7FF) % 0x10000;
                #[verifier::truncate]
                let p_lo = (period % 0x100) as u8;
                #[verifier::truncate]
                let p_hi = (period / 0x100) as u8;
                writer.write3(0xB3, cbit | ((d as u8) * 5 + 3), p_lo);
                writer.write3(0xB3, cbit | ((d as u8) * 5 + 4), p_hi);
            }
        } else if event.event_type == 0xFFF6 {
            // Note off.
            let reg: u8 = if a == 1 {
                0x0A
            } else {
                (d as u8) * 5 + 2
            };
            writer.write3(0xB3, cbit | reg, 0x00);
        } else {
            // Direct register write.
            #[verifier::truncate]
            let addr = event.event_type as u8;
            #[verifier::truncate]
            let v1 = event.value1 as u8;
            writer.write3(0xB3, addr, v1);
        }
        proof {
            assert(writer.data_view().subrange(0, old(writer).data_view().len() as int)
                =~= old(writer).data_view());
        }
    }

    /// Like `send`, but a wave-table select copies the waveform envelope
    /// into the chip's wave RAM.
    pub fn send_with_macro_env(
        &mut self,
        event: &ChipEvent,
        channel: usize,
        chip_sub: usize,
        chan_sub: usize,
        writer: &mut VgmWriter,
        macro_env: &MacroEnvStorage,
    )
        requires
            old(self).wf(),
            old(writer).wf(),
            macro_env.wf(),
        ensures
            final(self).wf(),
            writer_extended(*old(writer), *final(writer)),
    {
        let c: u8 = if chan_sub > (if chip_sub == 0 {
            1
        } else {
            0
        }) {
            1
        } else {
            0
        };

        if event.event_type == 0xFFF2 {
            // Wave table write: 16 bytes, two nibbles per byte.
            let idx: usize = if event.value1 >= 0 && event.value1 < 256 {
                event.value1 as usize
            } else {
                255
            };
            let env = macro_env.env(7, idx);
            let data = &env.data;
            let mut i: usize = 0;
            while i < 16
                invariant
                    old(writer).wf(),
                    writer.wf(),
                    writer.header_view() == old(writer).header_view(),
                    writer.loop_view() == old(writer).loop_view(),
                    writer.data_view().len() >= old(writer).data_view().len(),
                    writer.data_view().subrange(0, old(writer).data_view().len() as int) == old(
                        writer,
                    ).data_view(),
                    i <= 16,
                decreases 16 - i,
            {
                let high: u8 = if i * 2 < data.len() {
                    #[verifier::truncate]
                    let h = data[i * 2] as u8;
                    h
                } else {
                    0
                };
                let low: u8 = if i * 2 + 1 < data.len() {
                    #[verifier::truncate]
                    let l = data[i * 2 + 1] as u8;
                    l
                } else {
                    0
                };
                #[verifier::truncate]
                let byte = (((high as u32) * 16) | ((low as u32) % 16)) as u8;
                writer.write3(0xB3, (c << 7) | 0x20 | (i as u8), byte);
                proof {
                    assert(writer.data_view().subrange(
                        0,
                        old(writer).data_view().len() as int,
                    ) =~= old(writer).data_view());
                }
                i = i + 1;
            }
        } else {
            self.send(event, channel, chip_sub, chan_sub, writer);
        }
    }
}

impl Default for Dmg {
    /// A fresh driver.
    fn default() -> (r: Dmg)
        ensures
            r.wf(),
    {
        Dmg::new()
    }
}

} // verus!
