//! HuC6280 (PC-Engine) sound chip driver: six wavetable channels with
//! noise on the last two and an LFO pairing of the first two.

use vstd::prelude::*;
use super::{ChipOptions, MacroCommand, CHIP_ID_HUC6280, writer_extended};
use crate::compiler::envelope::MacroEnvStorage;
use crate::compiler::event::ChipEvent;
use crate::vgm::header;
use crate::vgm::header::le32;
use crate::vgm::writer::VgmWriter;

verus! {

/// The single-chip voice capacity of each role: wave, LFO pair, noise.
/// The low byte of an i32 register value, as the chip sees it.
pub open spec fn hu_byte(x: i32) -> u8 {
    (((x as int) % 256 + 256) % 256) as u8
}

/// Exec counterpart of `hu_byte`.
fn hu_byte_of(x: i32) -> (r: u8)
    ensures
        r == hu_byte(x),
{
    (((x as i64) % 256 + 256) % 256) as u8
}

/// One chip's capacity for each voice role: six melody voices, one
/// noise voice and two sample voices.
pub open spec fn spec_maxsub(role: int) -> int {
    if role == 0 {
        6
    } else if role == 1 {
        1
    } else {
        2
    }
}

fn maxsub(role: usize) -> (r: usize)
    requires
        role < 3,
    ensures
        r >= 1,
        r == spec_maxsub(role as int),
{
    if role == 0 {
        6
    } else if role == 1 {
        1
    } else {
        2
    }
}

/// HuC6280 chip.
#[derive(Debug)]
pub struct HuC6280 {
    pub clock: i32,
    pub dual: bool,
    /// Voices used per role.
    pub usesub: Vec<usize>,
    /// Channel assignments, entry-major pairs of (chip, channel).
    pub assign: Vec<usize>,
    /// Register shadow, (chip * 6 + channel)-major, ten registers each.
    pub memory: Vec<i32>,
    /// Loop-invalidation marks, aligned with `memory`.
    pub memw: Vec<bool>,
    /// LFO multiplier per chip.
    pub mult: Vec<i32>,
    /// Wave index per chip and channel.
    pub wave: Vec<i32>,
    /// Fixed LFO frequency mode per chip.
    pub fixfm: Vec<bool>,
}

impl HuC6280 {
    /// Well-formed tables.
    pub open spec fn wf(&self) -> bool {
        &&& self.usesub@.len() == 3
        &&& self.assign@.len() == 24
        &&& self.memory@.len() == 120
        &&& self.memw@.len() == 120
        &&& self.mult@.len() == 2
        &&& self.wave@.len() == 12
        &&& self.fixfm@.len() == 2
    }

    /// A fresh driver.
    pub fn new() -> (r: HuC6280)
        ensures
            r.wf(),
            r.clock == 3579545,
            !r.dual,
    {
        let mut usesub: Vec<usize> = Vec::new();
        usesub.push(0);
        usesub.push(0);
        usesub.push(0);
        let mut assign: Vec<usize> = Vec::new();
        let mut i: usize = 0;
        while i < 24
            invariant
                i <= 24,
                assign@.len() == i,
            decreases 24 - i,
        {
            assign.push(0);
            i = i + 1;
        }
        let mut memory: Vec<i32> = Vec::new();
        let mut memw: Vec<bool> = Vec::new();
        let mut j: usize = 0;
        while j < 120
            invariant
                j <= 120,
                memory@.len() == j,
                memw@.len() == j,
            decreases 120 - j,
        {
            memory.push(-1);
            memw.push(false);
            j = j + 1;
        }
        let mut mult: Vec<i32> = Vec::new();
        mult.push(4);
        mult.push(4);
        let mut wave: Vec<i32> = Vec::new();
        let mut k: usize = 0;
        while k < 12
            invariant
                k <= 12,
                wave@.len() == k,
            decreases 12 - k,
        {
            wave.push(-1);
            k = k + 1;
        }
        let mut fixfm: Vec<bool> = Vec::new();
        fixfm.push(false);
        fixfm.push(false);
        HuC6280 { clock: 3579545, dual: false, usesub, assign, memory, memw, mult, wave, fixfm }
    }

    /// Write one register through the shadow: select the channel when a
    /// per-channel register targets a different channel than the last
    /// select, then write unless the cached value already matches.
    fn mem_write(&mut self, chip: usize, chan: usize, addr: usize, val: i32, writer: &mut VgmWriter)
        requires
            old(self).wf(),
            old(writer).wf(),
        ensures
            final(self).wf(),
            writer_extended(*old(writer), *final(writer)),
            ({
                let ci = (chip % 2) as int;
                let hn = (chan % 6) as int;
                let ai = (addr % 10) as int;
                let per = 2 <= ai <= 7;
                let mi = (ci * 6 + (if per {
                    hn
                } else {
                    0int
                })) * 10 + ai;
                let sel = ci * 60;
                let emit = old(self).memory@[mi] != val || ai == 6 || old(self).memw@[mi];
                let do_sel = per && old(self).memory@[sel] != hn as i32;
                &&& (!emit ==> final(self).memory == old(self).memory && final(self).memw == old(
                    self,
                ).memw && final(writer).data_view() == old(writer).data_view())
                &&& (emit && !do_sel ==> final(self).memory@ == old(self).memory@.update(mi, val)
                    && final(self).memw@ == old(self).memw@.update(mi, false)
                    && final(writer).data_view() == old(writer).data_view() + seq![
                    0xB9u8,
                    (ci * 0x80 + ai) as u8,
                    hu_byte(val),
                ])
                &&& (emit && do_sel ==> final(self).memory@ == old(self).memory@.update(
                    sel,
                    hn as i32,
                ).update(mi, val) && final(self).memw@ == old(self).memw@.update(mi, false).update(
                    sel,
                    false,
                ) && final(writer).data_view() == old(writer).data_view() + seq![
                    0xB9u8,
                    (ci * 0x80) as u8,
                    hn as u8,
                    0xB9,
                    (ci * 0x80 + ai) as u8,
                    hu_byte(val),
                ])
            }),
            final(self).dual == old(self).dual,
            final(self).clock == old(self).clock,
            final(self).usesub == old(self).usesub,
    {
        let chip = chip % 2;
        let chan = chan % 6;
        let addr = addr % 10;

        let is_per_channel = addr >= 2 && addr <= 7;
        let actual_chan: usize = if is_per_channel {
            chan
        } else {
            0
        };
        let mem_idx = (chip * 6 + actual_chan) * 10 + addr;

        if self.memory[mem_idx] != val || addr == 6 || self.memw[mem_idx] {
            self.memw.set(mem_idx, false);

            // Select the channel first for per-channel registers.
            let sel_idx = (chip * 6) * 10;
            let chan_i32 = chan as i32;
            if is_per_channel && self.memory[sel_idx] != chan_i32 {
                self.memw.set(sel_idx, false);
                self.memory.set(sel_idx, chan_i32);
                let sel_val = chan as u8;
                writer.write3(0xB9, ((chip as u8) * 0x80), sel_val);
            }

            self.memory.set(mem_idx, val);
            let cmd_addr: u8 = ((chip as u8) * 0x80) + (addr as u8);
            let v8 = hu_byte_of(val);
            writer.write3(0xB9, cmd_addr, v8);
        }
        proof {
            assert(writer.data_view().subrange(0, old(writer).data_view().len() as int)
                =~= old(writer).data_view());
        }
    }

    /// The chip's name.
    pub fn name(&self) -> (r: &'static str)
        ensures
            r@ == "HuC6280"@,
    {
        "HuC6280"
    }

    /// The chip's VGM chip id.
    pub fn chip_id(&self) -> (r: u8)
        ensures
            r == CHIP_ID_HUC6280,
    {
        CHIP_ID_HUC6280
    }

    /// Period-based: the negated clock.
    pub fn clock_div(&self) -> (r: i32)
        ensures
            self.clock > i32::MIN ==> r == -self.clock,
    {
        #[verifier::truncate]
        let r = (-(self.clock as i64)) as i32;
        r
    }

    /// Twelve-bit pitch register.
    pub fn note_bits(&self) -> (r: i32)
        ensures
            r == 12,
    {
        12
    }

    /// Reference octave.
    pub fn basic_octave(&self) -> (r: i32)
        ensures
            r == 0,
    {
        0
    }

    /// Apply parsed options with the hardware default clock.
    pub fn enable(&mut self, options: &ChipOptions)
        requires
            old(self).wf(),
        ensures
            final(self).wf(),
            final(self).clock == (if options.spec_get('H') == 0 {
                3579545int
            } else {
                options.spec_get('H')
            }),
    {
        self.clock = options.get('H');
        if self.clock == 0 {
            self.clock = 3579545;
        }
    }

    /// Reset the shadow, build the assignment table from the measured
    /// usage, and emit the power-up writes.
    pub fn file_begin(&mut self, writer: &mut VgmWriter)
        requires
            old(self).wf(),
            old(writer).wf(),
        ensures
            final(self).wf(),
            writer_extended(*old(writer), *final(writer)),
    {
        let mut j: usize = 0;
        while j < 120
            invariant
                j <= 120,
                self.memory@.len() == 120,
                self.memw@.len() == 120,
                self.usesub@.len() == 3,
                self.assign@.len() == 24,
                self.mult@.len() == 2,
                self.wave@.len() == 12,
                self.fixfm@.len() == 2,
            decreases 120 - j,
        {
            self.memory.set(j, -1);
            self.memw.set(j, false);
            j = j + 1;
        }
        self.mult.set(0, 4);
        self.mult.set(1, 4);
        let mut k: usize = 0;
        while k < 12
            invariant
                k <= 12,
                self.memory@.len() == 120,
                self.memw@.len() == 120,
                self.usesub@.len() == 3,
                self.assign@.len() == 24,
                self.mult@.len() == 2,
                self.wave@.len() == 12,
                self.fixfm@.len() == 2,
            decreases 12 - k,
        {
            self.wave.set(k, -1);
            k = k + 1;
        }
        self.fixfm.set(0, false);
        self.fixfm.set(1, false);

        let u0 = self.usesub[0];
        let u1 = if self.usesub[1] < 3 {
            self.usesub[1]
        } else {
            3
        };
        let u2 = if self.usesub[2] < 7 {
            self.usesub[2]
        } else {
            7
        };
        let used = u1 * 2 + u2;
        if used <= 6 && u0 > 6 - used {
            self.dual = true;
        }
        if used > 6 {
            self.dual = true;
        }

        // Build the channel assignments, wave channels 2 and 3 first.
        let mut i: usize = 0;
        self.set_assign(&mut i, 0, 2);
        self.set_assign(&mut i, 0, 3);
        if self.usesub[1] < 1 {
            self.set_assign(&mut i, 0, 0);
            self.set_assign(&mut i, 0, 1);
        }
        if self.usesub[2] < 1 {
            self.set_assign(&mut i, 0, 4);
        }
        if self.usesub[2] < 2 {
            self.set_assign(&mut i, 0, 5);
        }
        self.set_assign(&mut i, 1, 2);
        self.set_assign(&mut i, 1, 3);
        if self.usesub[1] < 2 {
            self.set_assign(&mut i, 1, 0);
            self.set_assign(&mut i, 1, 1);
        }
        if self.usesub[2] < 3 {
            self.set_assign(&mut i, 1, 4);
        }
        if self.usesub[2] < 4 {
            self.set_assign(&mut i, 1, 5);
        }

        // Power-up writes per chip.
        let chip_count: usize = if self.dual {
            2
        } else {
            1
        };
        let mut c: usize = 0;
        while c < chip_count
            invariant
                old(writer).wf(),
                self.wf(),
                chip_count <= 2,
                writer.wf(),
                writer.header_view() == old(writer).header_view(),
                writer.loop_view() == old(writer).loop_view(),
                writer.data_view().len() >= old(writer).data_view().len(),
                writer.data_view().subrange(0, old(writer).data_view().len() as int) == old(
                    writer,
                ).data_view(),
                c <= chip_count,
            decreases chip_count - c,
        {
            self.mem_write(c, 0, 1, 0xFF, writer);
            let lfo_val: i32 = if self.usesub[1] > c {
                0x80
            } else {
                0x00
            };
            self.mem_write(c, 0, 9, lfo_val, writer);

            let mut ch: usize = 0;
            while ch < 6
                invariant
                    old(writer).wf(),
                    self.wf(),
                    writer.wf(),
                    writer.header_view() == old(writer).header_view(),
                    writer.loop_view() == old(writer).loop_view(),
                    writer.data_view().len() >= old(writer).data_view().len(),
                    writer.data_view().subrange(0, old(writer).data_view().len() as int) == old(
                        writer,
                    ).data_view(),
                    ch <= 6,
                    c < 2,
                decreases 6 - ch,
            {
                self.mem_write(c, ch, 4, 0, writer);
                self.mem_write(c, ch, 5, 0xFF, writer);
                proof {
                    assert(writer.data_view().subrange(
                        0,
                        old(writer).data_view().len() as int,
                    ) =~= old(writer).data_view());
                }
                ch = ch + 1;
            }

            let noise4: i32 = if self.usesub[2] <= c * 2 {
                0x80
            } else {
                0x00
            };
            self.mem_write(c, 4, 7, noise4, writer);
            let noise5: i32 = if self.usesub[2] <= c * 2 + 1 {
                0x80
            } else {
                0x00
            };
            self.mem_write(c, 5, 7, noise5, writer);
            proof {
                assert(writer.data_view().subrange(0, old(writer).data_view().len() as int)
                    =~= old(writer).data_view());
            }
            c = c + 1;
        }
        proof {
            assert(writer.data_view().subrange(0, old(writer).data_view().len() as int)
                =~= old(writer).data_view());
        }
    }

    /// Record one assignment pair and advance the slot counter.
    fn set_assign(&mut self, i: &mut usize, chip: usize, chan: usize)
        requires
            old(self).wf(),
        ensures
            final(self).wf(),
            final(self).dual == old(self).dual,
            final(self).usesub == old(self).usesub,
            final(self).memory == old(self).memory,
            final(self).memw == old(self).memw,
            final(self).mult == old(self).mult,
            final(self).wave == old(self).wave,
            final(self).fixfm == old(self).fixfm,
            final(self).clock == old(self).clock,
    {
        if *i < 12 {
            self.assign.set(*i * 2, chip);
            self.assign.set(*i * 2 + 1, chan);
            *i = *i + 1;
        }
    }

    /// Fix the HuC6280 clock field, bit 30 for dual-chip use.
    pub fn file_end(&mut self, writer: &mut VgmWriter)
        requires
            old(self).wf(),
            old(writer).wf(),
        ensures
            final(self).wf(),
            *final(self) == *old(self),
            final(writer).wf(),
            final(writer).data_view() == old(writer).data_view(),
            final(writer).loop_view() == old(writer).loop_view(),
            0 <= old(self).clock < 0x40000000 ==> le32(
                final(writer).header_view(),
                header::HUC6280_CLOCK as int,
            ) == old(self).clock + (if old(self).dual {
                0x40000000int
            } else {
                0int
            }),
            forall|i: int| 0 <= i < header::VGM_HEADER_SIZE && !(header::HUC6280_CLOCK <= i < header::HUC6280_CLOCK + 4)
                ==> final(writer).header_view()[i] == old(writer).header_view()[i],
    {
        let clock_val = super::clock_with_dual(self.clock, self.dual);
        writer.set_chip_clock(header::HUC6280_CLOCK, clock_val);
    }

    /// Mark every shadow entry stale so loop re-entry rewrites them.
    pub fn loop_start(&mut self, writer: &mut VgmWriter)
        requires
            old(self).wf(),
            old(writer).wf(),
        ensures
            final(self).wf(),
            writer_extended(*old(writer), *final(writer)),
            forall|i: int| 0 <= i < 120 ==> final(self).memw@[i],
    {
        let mut i: usize = 0;
        while i < 120
            invariant
                i <= 120,
                self.memory@.len() == 120,
                self.memw@.len() == 120,
                self.usesub@.len() == 3,
                self.assign@.len() == 24,
                self.mult@.len() == 2,
                self.wave@.len() == 12,
                self.fixfm@.len() == 2,
                forall|j: int| 0 <= j < i ==> self.memw@[j],
            decreases 120 - i,
        {
            self.memw.set(i, true);
            i = i + 1;
        }
        proof {
            assert(writer.data_view().subrange(0, old(writer).data_view().len() as int)
                =~= old(writer).data_view());
        }
    }

    /// Nothing to record at channel start.
    pub fn start_channel(&mut self, channel: usize)
        requires
            old(self).wf(),
        ensures
            final(self).wf(),
            *final(self) == *old(self),
    {
    }

    /// Record role usage and check the dual-chip capacity.
    pub fn start_channel_with_info(&mut self, chip_sub: usize, chan_sub: usize)
        requires
            old(self).wf(),
        ensures
            final(self).wf(),
            final(self).dual == (old(self).dual || (chip_sub < 3 && chan_sub >= spec_maxsub(
                chip_sub as int,
            ))),
            (chip_sub < 3 && old(self).usesub@[chip_sub as int] <= chan_sub && chan_sub < 100)
                ==> final(self).usesub@ == old(self).usesub@.update(
                chip_sub as int,
                (chan_sub + 1) as usize,
            ),
            !(chip_sub < 3 && old(self).usesub@[chip_sub as int] <= chan_sub && chan_sub < 100)
                ==> final(self).usesub == old(self).usesub,
    {
        if chip_sub < 3 {
            if chan_sub >= maxsub(chip_sub) {
                self.dual = true;
            }
            if self.usesub[chip_sub] <= chan_sub && chan_sub < 100 {
                self.usesub.set(chip_sub, chan_sub + 1);
            }
        }
    }

    /// Translate macro sets.
    pub fn set_macro(
        &mut self,
        channel: usize,
        is_dynamic: bool,
        command: MacroCommand,
        value: i16,
    ) -> (r: Option<ChipEvent>)
        requires
            old(self).wf(),
        ensures
            final(self).wf(),
            *final(self) == *old(self),
    {
        match command {
            MacroCommand::Volume => {
                #[verifier::truncate]
                let v = ((value as u16) % 32) as i32;
                Some(ChipEvent::new(3, v, 0))
            },
            MacroCommand::Panning => {
                let pan: i32 = if value < 0 {
                    let neg = -(value as i32);
                    #[verifier::truncate]
                    let negu = neg as u32;
                    #[verifier::truncate]
                    let m = (0xFFu32 ^ negu) as i32;
                    m
                } else {
                    #[verifier::truncate]
                    let vu = value as u32;
                    #[verifier::truncate]
                    let scaled = (vu as u64 * 16) as u32;
                    #[verifier::truncate]
                    let m = (0xFFu32 ^ scaled) as i32;
                    m
                };
                Some(ChipEvent::new(4, pan, 0))
            },
            MacroCommand::Tone => Some(ChipEvent::new(5, value as i32, 0)),
            MacroCommand::Multiply => Some(ChipEvent::new(6, value as i32, 0)),
            MacroCommand::ModWaveform => Some(ChipEvent::new(7, value as i32, 0)),
            MacroCommand::Waveform => Some(ChipEvent::new(8, value as i32, 0)),
            MacroCommand::Global => Some(ChipEvent::new(9, value as i32, 0)),
            _ => None,
        }
    }

    /// A note-on carries the pitch.
    pub fn note_on(&mut self, channel: usize, note: i32, octave: i32, duration: i32) -> (r: Option<
        ChipEvent,
    >)
        requires
            old(self).wf(),
        ensures
            final(self).wf(),
            *final(self) == *old(self),
            r == Some(ChipEvent { event_type: 2, value1: note, value2: 0 }),
    {
        Some(ChipEvent::new(2, note, 0))
    }

    /// A pitch change.
    pub fn note_change(&mut self, channel: usize, note: i32, octave: i32) -> (r: Option<ChipEvent>)
        requires
            old(self).wf(),
        ensures
            final(self).wf(),
            *final(self) == *old(self),
            r == Some(ChipEvent { event_type: 2, value1: note, value2: 0 }),
    {
        Some(ChipEvent::new(2, note, 0))
    }

    /// A note-off.
    pub fn note_off(&mut self, channel: usize, note: i32, octave: i32) -> (r: Option<ChipEvent>)
        requires
            old(self).wf(),
        ensures
            final(self).wf(),
            *final(self) == *old(self),
            r == Some(ChipEvent { event_type: 1, value1: 0, value2: 0 }),
    {
        Some(ChipEvent::new(1, 0, 0))
    }

    /// A rest is a note-off.
    pub fn rest(&mut self, channel: usize, duration: i32) -> (r: Option<ChipEvent>)
        requires
            old(self).wf(),
        ensures
            final(self).wf(),
            *final(self) == *old(self),
            r == Some(ChipEvent { event_type: 1, value1: 0, value2: 0 }),
    {
        Some(ChipEvent::new(1, 0, 0))
    }

    /// A direct write packs the channel and register into the value.
    pub fn direct(&mut self, channel: usize, address: u16, value: u8) -> (r: Option<ChipEvent>)
        requires
            old(self).wf(),
        ensures
            final(self).wf(),
            *final(self) == *old(self),
            r == Some(ChipEvent { event_type: 0, value1: address as i32, value2: value as i32 }),
    {
        Some(ChipEvent::new(0, address as i32, value as i32))
    }

    /// The chip and channel an event addresses.
    fn resolve(&self, chip_sub: usize, chan_sub: usize) -> (r: (usize, usize))
        requires
            self.wf(),
        ensures
            r.0 < 2,
            r.1 < 6,
    {
        if chip_sub != 0 {
            let c = (chan_sub / chip_sub) % 2;
            let ch: usize = if chip_sub == 2 {
                4 + (chan_sub % 2)
            } else {
                0
            };
            (c, ch)
        } else {
            let idx = (chan_sub % 12) * 2;
            ((self.assign[idx]) % 2, (self.assign[idx + 1]) % 6)
        }
    }

    /// Perform the register writes for one event.
    pub fn send(
        &mut self,
        event: &ChipEvent,
        channel: usize,
        chip_sub: usize,
        chan_sub: usize,
        writer: &mut VgmWriter,
    )
        requires
            old(self).wf(),
            old(writer).wf(),
        ensures
            final(self).wf(),
            writer_extended(*old(writer), *final(writer)),
    {
        let (chip, chan) = self.resolve(chip_sub, chan_sub);
        let cs = chip_sub;
        let v = event.value1;
        let et = event.event_type;

        if et == 0 {
            // Direct register write, channel packed above the register.
            let addr = event.value1;
            let val = event.value2;
            #[verifier::truncate]
            let a_chan = (((addr as u32) / 16) % 16) as usize;
            #[verifier::truncate]
            let a_reg = ((addr as u32) % 16) as usize;
            self.mem_write(chip, a_chan, a_reg, val, writer);
        } else if et == 1 {
            // Rest or note off: clear the key-on bit.
            let cur = self.memory[(chip * 6 + chan) * 10 + 4];
            let current: i32 = if cur >= 0 {
                cur
            } else {
                0
            };
            #[verifier::truncate]
            let masked = ((current as u32 % 32) | 0x40) as i32;
            self.mem_write(chip, chan, 4, masked, writer);
        } else if et == 2 {
            // Note: write the period, handling the LFO and noise roles.
            let w = v;
            let mut vv = v;

            if cs == 1 {
                if self.fixfm[chip] {
                    vv = 256;
                }
                let mut mult = self.mult[chip];
                #[verifier::truncate]
                let mbits = mult as u32;
                if (mbits % 2) != 0 {
                    vv = ((vv as i64) / 4) as i32;
                } else if (mbits / 2) % 2 != 0 {
                    vv = ((vv as i64) / 2) as i32;
                    mult = ((mult as i64) / 2) as i32;
                } else {
                    mult = ((mult as i64) / 4) as i32;
                }
                self.mem_write(chip, 0, 8, mult, writer);
                #[verifier::truncate]
                let v_lo = ((vv as u32) % 0x100) as i32;
                self.mem_write(chip, 1, 2, v_lo, writer);
                #[verifier::truncate]
                let v_hi = ((vv as u32) / 0x100) as i32;
                self.mem_write(chip, 1, 3, v_hi, writer);
            }

            if cs == 2 {
                #[verifier::truncate]
                let nv = ((v as u32) | 0x80) as i32;
                self.mem_write(chip, chan, 7, nv, writer);
            } else {
                #[verifier::truncate]
                let w_lo = ((w as u32) % 0x100) as i32;
                self.mem_write(chip, chan, 2, w_lo, writer);
                #[verifier::truncate]
                let w_hi = (((w as u32) / 0x100) % 0x1000000) as i32;
                self.mem_write(chip, chan, 3, w_hi, writer);
            }

            // Key on.
            let cur = self.memory[(chip * 6 + chan) * 10 + 4];
            let current: i32 = if cur >= 0 {
                cur
            } else {
                0
            };
            #[verifier::truncate]
            let keyed = ((current as u32 % 32) | 0x80) as i32;
            self.mem_write(chip, chan, 4, keyed, writer);
        } else if et == 3 {
            // Volume.
            let cur = self.memory[(chip * 6 + chan) * 10 + 4];
            let current: i32 = if cur >= 0 {
                cur
            } else {
                0
            };
            #[verifier::truncate]
            let mixed = (((current as u32) & 0xC0) | ((v as u32) % 64)) as i32;
            self.mem_write(chip, chan, 4, mixed, writer);
        } else if et == 4 {
            // Stereo panning.
            self.mem_write(chip, chan, 5, v, writer);
        } else if et == 5 {
            // LFO control and fixed-frequency mode.
            #[verifier::truncate]
            let ctl = ((v as u32) % 4) as i32;
            self.mem_write(chip, 0, 9, ctl, writer);
            let fix = ((v as i64) / 4) != 0;
            self.fixfm.set(chip, fix);
        } else if et == 6 {
            // LFO multiplier.
            if chan_sub < 2 {
                self.mult.set(chan_sub, v);
            }
        } else if et == 9 {
            // Global master volume.
            self.mem_write(0, 0, 1, v, writer);
            if self.dual {
                self.mem_write(1, 0, 1, v, writer);
            }
        }
        proof {
            assert(writer.data_view().subrange(0, old(writer).data_view().len() as int)
                =~= old(writer).data_view());
        }
    }

    /// Like `send`, but waveform selects copy the waveform envelope into
    /// the channel's wave RAM.
    pub fn send_with_macro_env(
        &mut self,
        event: &ChipEvent,
        channel: usize,
        chip_sub: usize,
        chan_sub: usize,
        writer: &mut VgmWriter,
        macro_env: &MacroEnvStorage,
    )
        requires
            old(self).wf(),
            old(writer).wf(),
            macro_env.wf(),
        ensures
            final(self).wf(),
            writer_extended(*old(writer), *final(writer)),
    {
        let (chip, chan) = self.resolve(chip_sub, chan_sub);
        let et = event.event_type;

        if et == 7 || et == 8 {
            // Waveform select: modulator writes to channel 1, carrier to
            // its own channel.
            let target: usize = if et == 7 {
                1
            } else {
                chan
            };
            let idx: usize = if event.value1 >= 0 && event.value1 < 256 {
                event.value1 as usize
            } else {
                255
            };
            #[verifier::truncate]
            let idx_i32 = idx as i32;
            if self.wave[chip * 6 + target] != idx_i32 {
                self.wave.set(chip * 6 + target, idx_i32);
                let cur = self.memory[(chip * 6 + target) * 10 + 4];
                let current: i32 = if cur >= 0 {
                    cur
                } else {
                    0
                };
                #[verifier::truncate]
                let muted = ((current as u32) % 32) as i32;
                self.mem_write(chip, target, 4, muted, writer);

                let env = macro_env.env(7, idx);
                let loop_end: i32 = if env.loop_end >= 1 {
                    env.loop_end - 1
                } else {
                    0
                };
                let mut i: usize = 0;
                while i < 32
                    invariant
                        old(writer).wf(),
                        self.wf(),
                        writer.wf(),
                        writer.header_view() == old(writer).header_view(),
                        writer.loop_view() == old(writer).loop_view(),
                        writer.data_view().len() >= old(writer).data_view().len(),
                        writer.data_view().subrange(
                            0,
                            old(writer).data_view().len() as int,
                        ) == old(writer).data_view(),
                        i <= 32,
                        chip < 2,
                        target < 6,
                        env.wf(),
                    decreases 32 - i,
                {
                    let raw: i32 = if i < env.data.len() {
                        env.data[i] as i32
                    } else {
                        0
                    };
                    #[verifier::truncate]
                    let rawu = raw as u32;
                    #[verifier::truncate]
                    let sample = ((rawu & (loop_end as u32))) as i32;
                    self.mem_write(chip, target, 6, sample, writer);
                    proof {
                        assert(writer.data_view().subrange(
                            0,
                            old(writer).data_view().len() as int,
                        ) =~= old(writer).data_view());
                    }
                    i = i + 1;
                }
            }
        } else {
            self.send(event, channel, chip_sub, chan_sub, writer);
        }
        proof {
            assert(writer.data_view().subrange(0, old(writer).data_view().len() as int)
                =~= old(writer).data_view());
        }
    }
}

impl Default for HuC6280 {
    /// A fresh driver.
    fn default() -> (r: HuC6280)
        ensures
            r.wf(),
    {
        HuC6280::new()
    }
}

} // verus!
