//! NES APU (2A03) sound chip driver.

use vstd::prelude::*;
use super::{ChipOptions, MacroCommand, CHIP_ID_NES_APU, writer_extended};
use crate::compiler::event::ChipEvent;
use crate::vgm::header;
use crate::vgm::header::le32;
use crate::vgm::writer::VgmWriter;

verus! {

/// NES APU (2A03) chip.
#[derive(Debug)]
pub struct NesApu {
    pub clock: i32,
    /// Channel-enable register shadow per chip.
    pub enable: Vec<u8>,
    /// Duty and volume shadow for the square channels, chip-major.
    pub dutyvol: Vec<u8>,
    /// Dual-chip activation.
    pub dual: bool,
}

impl NesApu {
    /// Well-formed shadow tables.
    pub open spec fn wf(&self) -> bool {
        &&& self.enable@.len() == 2
        &&& self.dutyvol@.len() == 4
    }

    /// A fresh driver.
    pub fn new() -> (r: NesApu)
        ensures
            r.wf(),
            r.clock == 1789772,
            !r.dual,
    {
        let mut enable: Vec<u8> = Vec::new();
        enable.push(0);
        enable.push(0);
        let mut dutyvol: Vec<u8> = Vec::new();
        dutyvol.push(0x30);
        dutyvol.push(0x30);
        dutyvol.push(0x30);
        dutyvol.push(0x30);
        NesApu { clock: 1789772, enable, dutyvol, dual: false }
    }

    /// The chip's name.
    pub fn name(&self) -> (r: &'static str)
        ensures
            r@ == "FAMICOM"@,
    {
        "FAMICOM"
    }

    /// The chip's VGM chip id.
    pub fn chip_id(&self) -> (r: u8)
        ensures
            r == CHIP_ID_NES_APU,
    {
        CHIP_ID_NES_APU
    }

    /// Period-based: the negated clock.
    pub fn clock_div(&self) -> (r: i32)
        ensures
            self.clock > i32::MIN ==> r == -self.clock,
    {
        #[verifier::truncate]
        let r = (-(self.clock as i64)) as i32;
        r
    }

    /// Eleven-bit pitch register.
    pub fn note_bits(&self) -> (r: i32)
        ensures
            r == 11,
    {
        11
    }

    /// Reference octave.
    pub fn basic_octave(&self) -> (r: i32)
        ensures
            r == 2,
    {
        2
    }

    /// Apply parsed options with the hardware default clock.
    pub fn enable_chip(&mut self, options: &ChipOptions)
        requires
            old(self).wf(),
        ensures
            final(self).wf(),
            final(self).clock == (if options.spec_get('H') == 0 {
                1789772int
            } else {
                options.spec_get('H')
            }),
    {
        self.clock = options.get('H');
        if self.clock == 0 {
            self.clock = 1789772;
        }
    }

    /// Apply parsed options.
    pub fn enable(&mut self, options: &ChipOptions)
        requires
            old(self).wf(),
        ensures
            final(self).wf(),
    {
        self.enable_chip(options);
    }

    /// Reset every shadow and clear the dual flag.
    pub fn file_begin(&mut self, writer: &mut VgmWriter)
        requires
            old(self).wf(),
            old(writer).wf(),
        ensures
            final(self).wf(),
            !final(self).dual,
            writer_extended(*old(writer), *final(writer)),
    {
        self.enable.set(0, 0);
        self.enable.set(1, 0);
        self.dutyvol.set(0, 0x30);
        self.dutyvol.set(1, 0x30);
        self.dutyvol.set(2, 0x30);
        self.dutyvol.set(3, 0x30);
        self.dual = false;
        proof {
            assert(writer.data_view().subrange(0, old(writer).data_view().len() as int)
                =~= old(writer).data_view());
        }
    }

    /// Fix the NES APU clock field, bit 30 for dual-chip use.
    pub fn file_end(&mut self, writer: &mut VgmWriter)
        requires
            old(self).wf(),
            old(writer).wf(),
        ensures
            final(self).wf(),
            *final(self) == *old(self),
            final(writer).wf(),
            final(writer).data_view() == old(writer).data_view(),
            final(writer).loop_view() == old(writer).loop_view(),
            0 <= old(self).clock < 0x40000000 ==> le32(
                final(writer).header_view(),
                header::NES_APU_CLOCK as int,
            ) == old(self).clock + (if old(self).dual {
                0x40000000int
            } else {
                0int
            }),
            forall|i: int| 0 <= i < header::VGM_HEADER_SIZE && !(header::NES_APU_CLOCK <= i < header::NES_APU_CLOCK + 4)
                ==> final(writer).header_view()[i] == old(writer).header_view()[i],
    {
        let clock_val = super::clock_with_dual(self.clock, self.dual);
        writer.set_chip_clock(header::NES_APU_CLOCK, clock_val);
    }

    /// Nothing to invalidate at the loop point.
    pub fn loop_start(&mut self, writer: &mut VgmWriter)
        requires
            old(self).wf(),
            old(writer).wf(),
        ensures
            final(self).wf(),
            *final(self) == *old(self),
            writer_extended(*old(writer), *final(writer)),
    {
        proof {
            assert(writer.data_view().subrange(0, old(writer).data_view().len() as int)
                =~= old(writer).data_view());
        }
    }

    /// Nothing to record at channel start.
    pub fn start_channel(&mut self, channel: usize)
        requires
            old(self).wf(),
        ensures
            final(self).wf(),
            *final(self) == *old(self),
    {
    }

    /// Nothing to record from sub-indices.
    pub fn start_channel_with_info(&mut self, chip_sub: usize, chan_sub: usize)
        requires
            old(self).wf(),
        ensures
            final(self).wf(),
            *final(self) == *old(self),
    {
    }

    /// Volume and duty macros become masked duty/volume events.
    pub fn set_macro(
        &mut self,
        channel: usize,
        is_dynamic: bool,
        command: MacroCommand,
        value: i16,
    ) -> (r: Option<ChipEvent>)
        requires
            old(self).wf(),
        ensures
            final(self).wf(),
            *final(self) == *old(self),
    {
        match command {
            MacroCommand::Volume => Some(ChipEvent::new(0xFFFD, value as i32, 0xF0)),
            MacroCommand::Tone => {
                #[verifier::truncate]
                let duty = (((value as i64) * 64)) as i32;
                Some(ChipEvent::new(0xFFFD, duty, 0x3F))
            },
            _ => None,
        }
    }

    /// A note-on carries the period and the octave.
    pub fn note_on(&mut self, channel: usize, note: i32, octave: i32, duration: i32) -> (r: Option<
        ChipEvent,
    >)
        requires
            old(self).wf(),
        ensures
            final(self).wf(),
            *final(self) == *old(self),
            r == Some(ChipEvent { event_type: 0xFFFF, value1: note, value2: octave }),
    {
        Some(ChipEvent::new(0xFFFF, note, octave))
    }

    /// A pitch change.
    pub fn note_change(&mut self, channel: usize, note: i32, octave: i32) -> (r: Option<ChipEvent>)
        requires
            old(self).wf(),
        ensures
            final(self).wf(),
            *final(self) == *old(self),
            r == Some(ChipEvent { event_type: 0xFFFE, value1: note, value2: octave }),
    {
        Some(ChipEvent::new(0xFFFE, note, octave))
    }

    /// A note-off.
    pub fn note_off(&mut self, channel: usize, note: i32, octave: i32) -> (r: Option<ChipEvent>)
        requires
            old(self).wf(),
        ensures
            final(self).wf(),
            *final(self) == *old(self),
            r == Some(ChipEvent { event_type: 0xFFFC, value1: 0, value2: 0 }),
    {
        Some(ChipEvent::new(0xFFFC, 0, 0))
    }

    /// A rest leaves the channel alone.
    pub fn rest(&mut self, channel: usize, duration: i32) -> (r: Option<ChipEvent>)
        requires
            old(self).wf(),
        ensures
            final(self).wf(),
            *final(self) == *old(self),
            r is None,
    {
        None
    }

    /// A direct write carries the register address in the event type.
    pub fn direct(&mut self, channel: usize, address: u16, value: u8) -> (r: Option<ChipEvent>)
        requires
            old(self).wf(),
        ensures
            final(self).wf(),
            *final(self) == *old(self),
            r == Some(ChipEvent { event_type: address, value1: value as i32, value2: 0 }),
    {
        Some(ChipEvent::new(address, value as i32, 0))
    }

    /// Perform the register writes for one event.
    pub fn send(
        &mut self,
        event: &ChipEvent,
        channel: usize,
        chip_sub: usize,
        chan_sub: usize,
        writer: &mut VgmWriter,
    )
        requires
            old(self).wf(),
            old(writer).wf(),
        ensures
            final(self).wf(),
            writer_extended(*old(writer), *final(writer)),
            final(self).dual == (old(self).dual || (chip_sub <= 5 && chan_sub <= 7 && chan_sub > (
            if chip_sub == 0 {
                1int
            } else {
                0int
            }))),
    {
        let a = chip_sub;
        let b = chan_sub;
        // Role indices past the hardware capacity address no channel.
        if a > 5 || b > 7 {
            proof {
                assert(writer.data_view().subrange(0, old(writer).data_view().len() as int)
                    =~= old(writer).data_view());
            }
            return;
        }
        let c: usize = if b > (if a == 0 {
            1
        } else {
            0
        }) {
            1
        } else {
            0
        };
        let d: usize = a + (if a == 0 {
            b % 2
        } else {
            0
        }) + (if a != 0 {
            1
        } else {
            0
        });

        if c > 0 {
            self.dual = true;
        }
        // Sub-indices past the hardware capacity address no channel.
        if d > 4 {
            proof {
                assert(writer.data_view().subrange(0, old(writer).data_view().len() as int)
                    =~= old(writer).data_view());
            }
            return;
        }
        let cbit: u8 = (c as u8) << 7;

        if event.event_type == 0xFFFC {
            // Note off: clear the channel's enable bit.
            let mask: u8 = 0x1F ^ (1u8 << (d as u8));
            let e = self.enable[c] & mask;
            self.enable.set(c, e);
            writer.write3(0xB4, cbit | 0x15, e);
        } else if event.event_type == 0xFFFD {
            // Duty and volume for the square channels.
            #[verifier::truncate]
            let mask = event.value2 as u8;
            #[verifier::truncate]
            let val = event.value1 as u8;
            let idx = c * 2 + (b % 2);
            let dv = (self.dutyvol[idx] & mask) | val;
            self.dutyvol.set(idx, dv);
            writer.write3(0xB4, cbit | (((b % 2) as u8) * 4), dv);
        } else if event.event_type == 0xFFFE {
            // Pitch change.
            let period = self.period_of(a, event.value1, event.value2);
            #[verifier::truncate]
            let p_lo = (period % 0x100) as u8;
            #[verifier::truncate]
            let p_hi = ((period / 0x100) | 0xF8) as u8;
            writer.write3(0xB4, cbit | ((d as u8) * 4) | 2, p_lo);
            writer.write3(0xB4, cbit | ((d as u8) * 4) | 3, p_hi);
        } else if event.event_type == 0xFFFF {
            // Note on.
            let channel_bit: u8 = 1u8 << (d as u8);

            // The triangle channel needs its linear counter primed.
            if a == 1 {
                writer.write3(0xB4, cbit | 0x08, 0xFF);
            }

            let e = self.enable[c] | channel_bit;
            self.enable.set(c, e);
            writer.write3(0xB4, cbit | 0x15, e);

            let period = self.period_of(a, event.value1, event.value2);
            #[verifier::truncate]
            let p_lo = (period % 0x100) as u8;
            #[verifier::truncate]
            let p_hi = ((period / 0x100) | 0xF8) as u8;
            writer.write3(0xB4, cbit | ((d as u8) * 4) | 2, p_lo);
            writer.write3(0xB4, cbit | ((d as u8) * 4) | 3, p_hi);
        } else {
            // Direct register write.
            #[verifier::truncate]
            let addr = event.event_type as u8;
            #[verifier::truncate]
            let v1 = event.value1 as u8;
            writer.write3(0xB4, addr, v1);
        }
        proof {
            assert(writer.data_view().subrange(0, old(writer).data_view().len() as int)
                =~= old(writer).data_view());
        }
    }

    /// The period register value: the noise role packs the octave above
    /// bit 7, the others use the period less one.
    fn period_of(&self, a: usize, value1: i32, value2: i32) -> (r: u16) {
        if a == 2 {
            #[verifier::truncate]
            let v1 = value1 as u16;
            #[verifier::truncate]
            let v2 = ((value2 as i64) * 128) as u16;
            v1 | v2
        } else {
            #[verifier::truncate]
            let p = ((value1 as i64) - 1) as u16;
            p
        }
    }
}

impl Default for NesApu {
    /// A fresh driver.
    fn default() -> (r: NesApu)
        ensures
            r.wf(),
    {
        NesApu::new()
    }
}

} // verus!
