//! QSound sound chip driver: sixteen sample-playback channels.

use vstd::prelude::*;
use super::{ChipOptions, MacroCommand, CHIP_ID_QSOUND, writer_extended};
use crate::compiler::event::ChipEvent;
use crate::vgm::header;
use crate::vgm::header::le32;
use crate::vgm::writer::VgmWriter;

verus! {

/// QSound chip.
#[derive(Debug)]
pub struct QSound {
    pub clock: i32,
    /// Volume shadow per channel.
    pub vol: Vec<i32>,
    /// Key state per channel.
    pub key: Vec<bool>,
    /// Fixed-pitch mode per channel.
    pub per: Vec<bool>,
    /// Most recently used sample.
    pub mru_sam: i32,
}

impl QSound {
    /// Well-formed tables.
    pub open spec fn wf(&self) -> bool {
        &&& self.vol@.len() == 16
        &&& self.key@.len() == 16
        &&& self.per@.len() == 16
    }

    /// A fresh driver.
    pub fn new() -> (r: QSound)
        ensures
            r.wf(),
            r.clock == 4000000,
    {
        let mut vol: Vec<i32> = Vec::new();
        let mut key: Vec<bool> = Vec::new();
        let mut per: Vec<bool> = Vec::new();
        let mut i: usize = 0;
        while i < 16
            invariant
                i <= 16,
                vol@.len() == i,
                key@.len() == i,
                per@.len() == i,
            decreases 16 - i,
        {
            vol.push(0);
            key.push(false);
            per.push(false);
            i = i + 1;
        }
        QSound { clock: 4000000, vol, key, per, mru_sam: -1 }
    }

    /// Emit one register write: `0xC4 data-high data-low address`.
    fn qs_write(&self, address: u8, data: u16, writer: &mut VgmWriter)
        requires
            old(writer).wf(),
        ensures
            final(writer).wf(),
            final(writer).data_view() == old(writer).data_view() + seq![
                0xC4u8,
                ((data / 0x100) as u8),
                ((data % 0x100) as u8),
                address,
            ],
            final(writer).header_view() == old(writer).header_view(),
            final(writer).loop_view() == old(writer).loop_view(),
    {
        writer.write4(0xC4, (data / 0x100) as u8, (data % 0x100) as u8, address);
    }

    /// The chip's name.
    pub fn name(&self) -> (r: &'static str)
        ensures
            r@ == "QSound"@,
    {
        "QSound"
    }

    /// The chip's VGM chip id.
    pub fn chip_id(&self) -> (r: u8)
        ensures
            r == CHIP_ID_QSOUND,
    {
        CHIP_ID_QSOUND
    }

    /// Frequency-based: the clock itself.
    pub fn clock_div(&self) -> (r: i32)
        ensures
            r == self.clock,
    {
        self.clock
    }

    /// Sixteen-bit pitch register.
    pub fn note_bits(&self) -> (r: i32)
        ensures
            r == 16,
    {
        16
    }

    /// Reference octave.
    pub fn basic_octave(&self) -> (r: i32)
        ensures
            r == 7,
    {
        7
    }

    /// Apply parsed options with the hardware default clock.
    pub fn enable(&mut self, options: &ChipOptions)
        requires
            old(self).wf(),
        ensures
            final(self).wf(),
            final(self).clock == (if options.spec_get('H') == 0 {
                4000000int
            } else {
                options.spec_get('H')
            }),
    {
        self.clock = options.get('H');
        if self.clock == 0 {
            self.clock = 4000000;
        }
    }

    /// Reset the per-channel state.
    pub fn file_begin(&mut self, writer: &mut VgmWriter)
        requires
            old(self).wf(),
            old(writer).wf(),
        ensures
            final(self).wf(),
            writer_extended(*old(writer), *final(writer)),
    {
        let mut i: usize = 0;
        while i < 16
            invariant
                i <= 16,
                self.vol@.len() == 16,
                self.key@.len() == 16,
                self.per@.len() == 16,
            decreases 16 - i,
        {
            self.vol.set(i, 0);
            self.key.set(i, false);
            self.per.set(i, false);
            i = i + 1;
        }
        self.mru_sam = -1;
        proof {
            assert(writer.data_view().subrange(0, old(writer).data_view().len() as int)
                =~= old(writer).data_view());
        }
    }

    /// Fix the QSound clock field.
    pub fn file_end(&mut self, writer: &mut VgmWriter)
        requires
            old(self).wf(),
            old(writer).wf(),
        ensures
            final(self).wf(),
            *final(self) == *old(self),
            final(writer).wf(),
            final(writer).data_view() == old(writer).data_view(),
            final(writer).loop_view() == old(writer).loop_view(),
            0 <= old(self).clock < 0x40000000 ==> le32(
                final(writer).header_view(),
                header::QSOUND_CLOCK as int,
            ) == old(self).clock,
            forall|i: int| 0 <= i < header::VGM_HEADER_SIZE && !(header::QSOUND_CLOCK <= i < header::QSOUND_CLOCK + 4)
                ==> final(writer).header_view()[i] == old(writer).header_view()[i],
    {
        let clock_val = super::clock_with_dual(self.clock, false);
        writer.set_chip_clock(header::QSOUND_CLOCK, clock_val);
    }

    /// Nothing to invalidate at the loop point.
    pub fn loop_start(&mut self, writer: &mut VgmWriter)
        requires
            old(self).wf(),
            old(writer).wf(),
        ensures
            final(self).wf(),
            *final(self) == *old(self),
            writer_extended(*old(writer), *final(writer)),
    {
        proof {
            assert(writer.data_view().subrange(0, old(writer).data_view().len() as int)
                =~= old(writer).data_view());
        }
    }

    /// Forget the recently-used sample at channel start.
    pub fn start_channel(&mut self, channel: usize)
        requires
            old(self).wf(),
        ensures
            final(self).wf(),
            final(self).mru_sam == -1,
    {
        self.mru_sam = -1;
    }

    /// Nothing to record from sub-indices.
    pub fn start_channel_with_info(&mut self, chip_sub: usize, chan_sub: usize)
        requires
            old(self).wf(),
        ensures
            final(self).wf(),
            *final(self) == *old(self),
    {
    }

    /// Sample, volume and panning macros become driver events.
    pub fn set_macro(
        &mut self,
        channel: usize,
        is_dynamic: bool,
        command: MacroCommand,
        value: i16,
    ) -> (r: Option<ChipEvent>)
        requires
            old(self).wf(),
        ensures
            final(self).wf(),
            *final(self) == *old(self),
            match command {
                MacroCommand::Sample => r == Some(
                    ChipEvent { event_type: 0xFFFC, value1: value as i32, value2: 0 },
                ),
                MacroCommand::Volume => r == Some(
                    ChipEvent { event_type: 0xFFFD, value1: value as i32, value2: 0 },
                ),
                MacroCommand::Panning => r is Some && r->0.event_type == 0xFFFB && r->0.value1
                    == value + 0x0120,
                _ => r is None,
            },
    {
        match command {
            MacroCommand::Sample => Some(ChipEvent::new(0xFFFC, value as i32, 0)),
            MacroCommand::Volume => Some(ChipEvent::new(0xFFFD, value as i32, 0)),
            MacroCommand::Panning => Some(ChipEvent::new(0xFFFB, value as i32 + 0x0120, 0)),
            _ => None,
        }
    }

    /// A note-on carries the pitch.
    pub fn note_on(&mut self, channel: usize, note: i32, octave: i32, duration: i32) -> (r: Option<
        ChipEvent,
    >)
        requires
            old(self).wf(),
        ensures
            final(self).wf(),
            *final(self) == *old(self),
            r == Some(ChipEvent { event_type: 0xFFF9, value1: note, value2: 0 }),
    {
        Some(ChipEvent::new(0xFFF9, note, 0))
    }

    /// A pitch change.
    pub fn note_change(&mut self, channel: usize, note: i32, octave: i32) -> (r: Option<ChipEvent>)
        requires
            old(self).wf(),
        ensures
            final(self).wf(),
            *final(self) == *old(self),
            r == Some(ChipEvent { event_type: 0xFFF8, value1: note, value2: 0 }),
    {
        Some(ChipEvent::new(0xFFF8, note, 0))
    }

    /// A note-off.
    pub fn note_off(&mut self, channel: usize, note: i32, octave: i32) -> (r: Option<ChipEvent>)
        requires
            old(self).wf(),
        ensures
            final(self).wf(),
            *final(self) == *old(self),
            r == Some(ChipEvent { event_type: 0xFFFA, value1: 0, value2: 0 }),
    {
        Some(ChipEvent::new(0xFFFA, 0, 0))
    }

    /// A rest is a note-off.
    pub fn rest(&mut self, channel: usize, duration: i32) -> (r: Option<ChipEvent>)
        requires
            old(self).wf(),
        ensures
            final(self).wf(),
            *final(self) == *old(self),
            r == Some(ChipEvent { event_type: 0xFFFA, value1: 0, value2: 0 }),
    {
        Some(ChipEvent::new(0xFFFA, 0, 0))
    }

    /// A direct write carries the register address in the event type.
    pub fn direct(&mut self, channel: usize, address: u16, value: u8) -> (r: Option<ChipEvent>)
        requires
            old(self).wf(),
        ensures
            final(self).wf(),
            *final(self) == *old(self),
            r == Some(ChipEvent { event_type: address, value1: value as i32, value2: 0 }),
    {
        Some(ChipEvent::new(address, value as i32, 0))
    }

    /// Perform the register writes for one event.
    pub fn send(
        &mut self,
        event: &ChipEvent,
        channel: usize,
        chip_sub: usize,
        chan_sub: usize,
        writer: &mut VgmWriter,
    )
        requires
            old(self).wf(),
            old(writer).wf(),
        ensures
            final(self).wf(),
            writer_extended(*old(writer), *final(writer)),
    {
        let ch = chan_sub;
        // Voice indices past the sixteen channels address no channel.
        if ch > 15 {
            proof {
                assert(writer.data_view().subrange(0, old(writer).data_view().len() as int)
                    =~= old(writer).data_view());
            }
            return;
        }

        if event.event_type == 0xFFFC {
            // Sample select.
            self.mru_sam = event.value1;
            self.per.set(ch, false);
        } else if event.event_type == 0xFFFD {
            // Volume.
            if self.vol[ch] != event.value1 {
                self.vol.set(ch, event.value1);
                if self.key[ch] {
                    #[verifier::truncate]
                    let v = event.value1 as u16;
                    self.qs_write(((ch * 8) | 6) as u8, v, writer);
                }
            }
        } else if event.event_type == 0xFFFB {
            // Panning.
            #[verifier::truncate]
            let v = event.value1 as u16;
            self.qs_write((ch | 0x80) as u8, v, writer);
        } else if event.event_type == 0xFFFA {
            // Key off.
            if self.key[ch] {
                self.qs_write(((ch * 8) | 6) as u8, 0, writer);
            }
            self.key.set(ch, false);
        } else if event.event_type == 0xFFF9 {
            // Key on.
            #[verifier::truncate]
            let v = event.value1 as u16;
            if self.per[ch] {
                self.qs_write(((ch * 8) | 4) as u8, v, writer);
                self.qs_write(((ch * 8) | 5) as u8, v, writer);
            } else {
                self.qs_write(((ch * 8) | 2) as u8, v, writer);
            }
            #[verifier::truncate]
            let volv = self.vol[ch] as u16;
            self.qs_write(((ch * 8) | 6) as u8, volv, writer);
            self.key.set(ch, true);
        } else if event.event_type == 0xFFF8 {
            // Pitch change.
            #[verifier::truncate]
            let v = event.value1 as u16;
            if self.per[ch] {
                self.qs_write(((ch * 8) | 4) as u8, v, writer);
                self.qs_write(((ch * 8) | 5) as u8, v, writer);
            } else {
                self.qs_write(((ch * 8) | 2) as u8, v, writer);
            }
        } else {
            // Direct register write.
            #[verifier::truncate]
            let addr = event.event_type as u8;
            #[verifier::truncate]
            let v = event.value1 as u16;
            self.qs_write(addr, v, writer);
        }
        proof {
            assert(writer.data_view().subrange(0, old(writer).data_view().len() as int)
                =~= old(writer).data_view());
        }
    }
}

impl Default for QSound {
    /// A fresh driver.
    fn default() -> (r: QSound)
        ensures
            r.wf(),
    {
        QSound::new()
    }
}

} // verus!
