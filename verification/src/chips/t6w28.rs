//! T6W28 sound chip driver: an SN76489 relative with separate left and
//! right output channels.

use vstd::prelude::*;
use super::{ChipOptions, MacroCommand, CHIP_ID_SN76489, writer_extended};
use crate::compiler::event::ChipEvent;
use crate::vgm::header;
use crate::vgm::header::le32;
use crate::vgm::writer::VgmWriter;

verus! {

/// T6W28 chip.
#[derive(Debug)]
pub struct T6w28 {
    pub clock: i32,
    pub opt_f: i32,
    pub opt_s: i32,
    pub opt_flags: u8,
    /// Volume shadow per channel (-1 unknown).
    pub vol: Vec<i32>,
    /// Panning per channel.
    pub pan: Vec<i32>,
    /// Tone period shadow per channel.
    pub tone: Vec<i32>,
    /// Key state per channel.
    pub noteon: Vec<bool>,
    /// Noise mode shadow (-1 unknown).
    pub noise: i32,
}

impl T6w28 {
    /// Well-formed shadow tables.
    pub open spec fn wf(&self) -> bool {
        &&& self.vol@.len() == 4
        &&& self.pan@.len() == 4
        &&& self.tone@.len() == 4
        &&& self.noteon@.len() == 4
    }

    /// A fresh driver.
    pub fn new() -> (r: T6w28)
        ensures
            r.wf(),
            r.clock == 3072000,
    {
        let mut vol: Vec<i32> = Vec::new();
        let mut pan: Vec<i32> = Vec::new();
        let mut tone: Vec<i32> = Vec::new();
        let mut noteon: Vec<bool> = Vec::new();
        let mut i: usize = 0;
        while i < 4
            invariant
                i <= 4,
                vol@.len() == i,
                pan@.len() == i,
                tone@.len() == i,
                noteon@.len() == i,
            decreases 4 - i,
        {
            vol.push(-1);
            pan.push(0);
            tone.push(0);
            noteon.push(false);
            i = i + 1;
        }
        T6w28 { clock: 3072000, opt_f: 9, opt_s: 16, opt_flags: 0, vol, pan, tone, noteon, noise: -1 }
    }

    /// The chip's name.
    pub fn name(&self) -> (r: &'static str)
        ensures
            r@ == "T6W28"@,
    {
        "T6W28"
    }

    /// Shares the SN76489 header field.
    pub fn chip_id(&self) -> (r: u8)
        ensures
            r == CHIP_ID_SN76489,
    {
        CHIP_ID_SN76489
    }

    /// Period-based: the negated clock.
    pub fn clock_div(&self) -> (r: i32)
        ensures
            self.clock > i32::MIN ==> r == -self.clock,
    {
        #[verifier::truncate]
        let r = (-(self.clock as i64)) as i32;
        r
    }

    /// Ten-bit pitch register.
    pub fn note_bits(&self) -> (r: i32)
        ensures
            r == 10,
    {
        10
    }

    /// Reference octave.
    pub fn basic_octave(&self) -> (r: i32)
        ensures
            r == 0,
    {
        0
    }

    /// Apply parsed options with hardware defaults.
    pub fn enable(&mut self, options: &ChipOptions)
        requires
            old(self).wf(),
        ensures
            final(self).wf(),
            final(self).clock == (if options.spec_get('H') == 0 {
                3072000int
            } else {
                options.spec_get('H')
            }),
    {
        self.clock = options.get('H');
        if self.clock == 0 {
            self.clock = 3072000;
        }
        self.opt_f = options.get('F');
        if self.opt_f == 0 {
            self.opt_f = 9;
        }
        self.opt_s = options.get('S');
        if self.opt_s == 0 {
            self.opt_s = 16;
        }
        let f0: u8 = if options.get('f') != 0 {
            1
        } else {
            0
        };
        let f1: u8 = if options.get('n') != 0 {
            2
        } else {
            0
        };
        let f2: u8 = if options.get('s') == 0 {
            4
        } else {
            0
        };
        let f3: u8 = if options.get('d') == 0 {
            8
        } else {
            0
        };
        self.opt_flags = f0 + f1 + f2 + f3;
    }

    /// Invalidate the shadow registers.
    pub fn file_begin(&mut self, writer: &mut VgmWriter)
        requires
            old(self).wf(),
            old(writer).wf(),
        ensures
            final(self).wf(),
            writer_extended(*old(writer), *final(writer)),
    {
        let mut i: usize = 0;
        while i < 4
            invariant
                i <= 4,
                self.vol@.len() == 4,
                self.pan@.len() == 4,
                self.tone@.len() == 4,
                self.noteon@.len() == 4,
            decreases 4 - i,
        {
            self.vol.set(i, -1);
            self.pan.set(i, 0);
            self.tone.set(i, 0);
            self.noteon.set(i, false);
            i = i + 1;
        }
        self.noise = -1;
        proof {
            assert(writer.data_view().subrange(0, old(writer).data_view().len() as int)
                =~= old(writer).data_view());
        }
    }

    /// Fix the SN76489-family header fields; the T6W28 marks both chip
    /// bits (0xC0000000) on the clock.
    pub fn file_end(&mut self, writer: &mut VgmWriter)
        requires
            old(self).wf(),
            old(writer).wf(),
        ensures
            final(self).wf(),
            *final(self) == *old(self),
            final(writer).wf(),
            final(writer).data_view() == old(writer).data_view(),
            final(writer).loop_view() == old(writer).loop_view(),
            0 <= old(self).clock < 0x40000000 ==> le32(
                final(writer).header_view(),
                header::SN76489_CLOCK as int,
            ) == old(self).clock + 0xC0000000,
            forall|i: int| 0 <= i < header::VGM_HEADER_SIZE && !(header::SN76489_CLOCK <= i < header::SN76489_CLOCK + 4) && i != header::SN76489_FEEDBACK && i != header::SN76489_SHIFT_WIDTH && i != header::SN76489_FLAGS
                ==> final(writer).header_view()[i] == old(writer).header_view()[i],
    {
        let clk = self.clock;
        #[verifier::truncate]
        let base = clk as u32;
        let clock_val = base | 0xC0000000;
        proof {
            assert(base < 0x40000000u32 ==> base | 0xC0000000u32 == base + 0xC0000000)
                by (bit_vector);
        }
        writer.set_chip_clock(header::SN76489_CLOCK, clock_val);
        #[verifier::truncate]
        let fb = self.opt_f as u8;
        writer.set_header_u8(header::SN76489_FEEDBACK, fb);
        #[verifier::truncate]
        let sw = self.opt_s as u8;
        writer.set_header_u8(header::SN76489_SHIFT_WIDTH, sw);
        writer.set_header_u8(header::SN76489_FLAGS, self.opt_flags);
    }

    /// Nothing to invalidate at the loop point.
    pub fn loop_start(&mut self, writer: &mut VgmWriter)
        requires
            old(self).wf(),
            old(writer).wf(),
        ensures
            final(self).wf(),
            *final(self) == *old(self),
            writer_extended(*old(writer), *final(writer)),
    {
        proof {
            assert(writer.data_view().subrange(0, old(writer).data_view().len() as int)
                =~= old(writer).data_view());
        }
    }

    /// Nothing to record at channel start.
    pub fn start_channel(&mut self, channel: usize)
        requires
            old(self).wf(),
        ensures
            final(self).wf(),
            *final(self) == *old(self),
    {
    }

    /// Nothing to record from sub-indices.
    pub fn start_channel_with_info(&mut self, chip_sub: usize, chan_sub: usize)
        requires
            old(self).wf(),
        ensures
            final(self).wf(),
            *final(self) == *old(self),
    {
    }

    /// Tone, volume and panning macros become driver events.
    pub fn set_macro(
        &mut self,
        channel: usize,
        is_dynamic: bool,
        command: MacroCommand,
        value: i16,
    ) -> (r: Option<ChipEvent>)
        requires
            old(self).wf(),
        ensures
            final(self).wf(),
            *final(self) == *old(self),
            r == match command {
                MacroCommand::Tone => Some(
                    ChipEvent { event_type: 5, value1: value as i32, value2: 0 },
                ),
                MacroCommand::Volume => Some(
                    ChipEvent { event_type: 2, value1: value as i32, value2: 0 },
                ),
                MacroCommand::Panning => Some(
                    ChipEvent { event_type: 1, value1: value as i32, value2: 0 },
                ),
                _ => None::<ChipEvent>,
            },
    {
        match command {
            MacroCommand::Tone => Some(ChipEvent::new(5, value as i32, 0)),
            MacroCommand::Volume => Some(ChipEvent::new(2, value as i32, 0)),
            MacroCommand::Panning => Some(ChipEvent::new(1, value as i32, 0)),
            _ => None,
        }
    }

    /// A note-on carries the pitch.
    pub fn note_on(&mut self, channel: usize, note: i32, octave: i32, duration: i32) -> (r: Option<
        ChipEvent,
    >)
        requires
            old(self).wf(),
        ensures
            final(self).wf(),
            *final(self) == *old(self),
            r == Some(ChipEvent { event_type: 3, value1: note, value2: 0 }),
    {
        Some(ChipEvent::new(3, note, 0))
    }

    /// A pitch change is the same event.
    pub fn note_change(&mut self, channel: usize, note: i32, octave: i32) -> (r: Option<ChipEvent>)
        requires
            old(self).wf(),
        ensures
            final(self).wf(),
            *final(self) == *old(self),
            r == Some(ChipEvent { event_type: 3, value1: note, value2: 0 }),
    {
        Some(ChipEvent::new(3, note, 0))
    }

    /// A note-off.
    pub fn note_off(&mut self, channel: usize, note: i32, octave: i32) -> (r: Option<ChipEvent>)
        requires
            old(self).wf(),
        ensures
            final(self).wf(),
            *final(self) == *old(self),
            r == Some(ChipEvent { event_type: 4, value1: 0, value2: 0 }),
    {
        Some(ChipEvent::new(4, 0, 0))
    }

    /// A rest is a note-off.
    pub fn rest(&mut self, channel: usize, duration: i32) -> (r: Option<ChipEvent>)
        requires
            old(self).wf(),
        ensures
            final(self).wf(),
            *final(self) == *old(self),
            r == Some(ChipEvent { event_type: 4, value1: 0, value2: 0 }),
    {
        Some(ChipEvent::new(4, 0, 0))
    }

    /// A direct write.
    pub fn direct(&mut self, channel: usize, address: u16, value: u8) -> (r: Option<ChipEvent>)
        requires
            old(self).wf(),
        ensures
            final(self).wf(),
            *final(self) == *old(self),
            r == Some(ChipEvent { event_type: 0, value1: address as i32, value2: 0 }),
    {
        Some(ChipEvent::new(0, address as i32, 0))
    }

    /// Emit the per-channel volume as separate left and right attenuation
    /// writes, applying the panning offsets.
    fn write_volume(&self, c: usize, writer: &mut VgmWriter)
        requires
            self.wf(),
            c < 4,
            old(writer).wf(),
        ensures
            writer_extended(*old(writer), *final(writer)),
    {
        let vol64 = self.vol[c] as i64;
        let pan64 = self.pan[c] as i64;
        let left_vol: i64 = vol64 - (if pan64 > 0 {
            pan64
        } else {
            0
        });
        let left_atten: i64 = if left_vol < 0 {
            0
        } else {
            left_vol
        };
        #[verifier::truncate]
        let la = left_atten as u8;
        writer.write2(0x50, (0x9F ^ la) | ((c as u8) << 5));

        let right_vol: i64 = vol64 + (if pan64 < 0 {
            pan64
        } else {
            0
        });
        let right_atten: i64 = if right_vol < 0 {
            0
        } else {
            right_vol
        };
        #[verifier::truncate]
        let ra = right_atten as u8;
        writer.write2(0x30, (0x9F ^ ra) | ((c as u8) << 5));
        proof {
            assert(writer.data_view().subrange(0, old(writer).data_view().len() as int)
                =~= old(writer).data_view());
        }
    }

    /// Perform the register writes for one event.
    pub fn send(
        &mut self,
        event: &ChipEvent,
        channel: usize,
        chip_sub: usize,
        chan_sub: usize,
        writer: &mut VgmWriter,
    )
        requires
            old(self).wf(),
            old(writer).wf(),
        ensures
            final(self).wf(),
            writer_extended(*old(writer), *final(writer)),
    {
        let a = chip_sub;
        let b = chan_sub;
        let c: usize = if a != 0 {
            3
        } else {
            b % 4
        };
        let v = event.value1;

        if event.event_type == 0 {
            // Direct write.
            let cmd: u8 = if a != 0 {
                0x30
            } else {
                0x50
            };
            #[verifier::truncate]
            let vb = v as u8;
            writer.write2(cmd, vb);
        } else if event.event_type == 1 {
            // Stereo balance.
            self.pan.set(c, v);
            if self.noteon[c] {
                self.write_volume(c, writer);
            }
        } else if event.event_type == 2 {
            // Volume.
            self.vol.set(c, v);
            if self.noteon[c] {
                self.write_volume(c, writer);
            }
        } else if event.event_type == 3 {
            // Note on or pitch change.
            if self.tone[c] != v {
                self.tone.set(c, v);
                let cmd: u8 = if a != 0 {
                    0x30
                } else {
                    0x50
                };
                #[verifier::truncate]
                let tbits = self.tone[c] as u32;
                #[verifier::truncate]
                let lo = (tbits % 16) as u8;
                let latch: u8 = lo | 0x80 | (if a != 0 {
                    0x40
                } else {
                    (c as u8) << 5
                });
                writer.write2(cmd, latch);
                #[verifier::truncate]
                let hi = ((tbits / 16) % 0x100) as u8;
                writer.write2(cmd, hi);
            }
            if !self.noteon[c] {
                self.noteon.set(c, true);
                self.write_volume(c, writer);
            }
        } else if event.event_type == 4 {
            // Note off: silence both sides.
            if self.noteon[c] {
                self.noteon.set(c, false);
                writer.write2(0x50, 0x9F | ((c as u8) << 5));
                writer.write2(0x30, 0x9F | ((c as u8) << 5));
            }
        } else if event.event_type == 5 {
            // Noise mode.
            if a != 0 && self.noise != v {
                self.noise = v;
                #[verifier::truncate]
                let vb = ((v as i64) * 4) as u8;
                writer.write2(0x30, 0xE3 | vb);
            }
        }
        proof {
            assert(writer.data_view().subrange(0, old(writer).data_view().len() as int)
                =~= old(writer).data_view());
        }
    }
}

impl Default for T6w28 {
    /// A fresh driver.
    fn default() -> (r: T6w28)
        ensures
            r.wf(),
    {
        T6w28::new()
    }
}

} // verus!
