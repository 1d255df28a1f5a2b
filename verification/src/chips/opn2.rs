//! YM2612 (OPN2) sound chip driver.

use vstd::prelude::*;
use super::{ChipOptions, MacroCommand, CHIP_ID_YM2612, writer_extended};
use crate::compiler::envelope::MacroEnvStorage;
use crate::compiler::event::ChipEvent;
use crate::vgm::header;
use crate::vgm::header::le32;
use crate::vgm::writer::VgmWriter;

verus! {

/// Does a write to this shadow address always go to the chip?  The
/// frequency latches 0xA0-0xBF, the 0xE0 block and the key-on register
/// 0x28 have side-effects on a repeated value, so their writes are
/// never suppressed by the shadow.
pub open spec fn opn2_always(a: int) -> bool {
    let reg = a % 0x100;
    (0xA0 <= reg && reg < 0xC0) || reg >= 0xE0 || reg == 0x28
}

/// The three-byte VGM command for one register write at a shadow
/// address: the port command byte, the register and the data.
pub open spec fn opn2_cmd_bytes(a: int, data: u8) -> Seq<u8> {
    seq![
        ((if (a / 0x200) % 2 == 1 {
            0xA2int
        } else {
            0x52int
        }) + ((a / 0x100) % 2)) as u8,
        (a % 0x100) as u8,
        data,
    ]
}

/// The hardware-slot assignment table built at file start: three FM
/// voices per bank, skipping the last voice of each bank that a
/// supplementary (DAC-side) voice has claimed.
pub open spec fn opn2_assign_table(sup: int) -> Seq<u8> {
    seq![0u8, 1] + (if sup < 1 {
        seq![2u8]
    } else {
        Seq::<u8>::empty()
    }) + seq![4u8, 5] + (if sup < 2 {
        seq![6u8]
    } else {
        Seq::<u8>::empty()
    }) + seq![8u8, 9] + (if sup < 3 {
        seq![10u8]
    } else {
        Seq::<u8>::empty()
    }) + seq![12u8, 13] + (if sup < 4 {
        seq![14u8]
    } else {
        Seq::<u8>::empty()
    })
}

/// YM2612 OPN2 chip.
#[derive(Debug)]
pub struct Opn2 {
    pub clock: i32,
    /// Melody channels used.
    pub nor: usize,
    /// Supplementary channels used.
    pub sup: usize,
    pub dual: bool,
    /// Logical-to-hardware channel assignment.
    pub assign: Vec<u8>,
    /// Register shadow over the four port/chip banks (-1 unknown).
    pub mem: Vec<i16>,
    /// Volume per logical channel.
    pub vol: Vec<u8>,
    /// Panning per logical channel.
    pub pan: Vec<u8>,
}

impl Opn2 {
    /// Well-formed tables.
    pub open spec fn wf(&self) -> bool {
        &&& self.assign@.len() == 12
        &&& self.mem@.len() == 0x400
        &&& self.vol@.len() == 12
        &&& self.pan@.len() == 12
    }

    /// A fresh driver.
    pub fn new() -> (r: Opn2)
        ensures
            r.wf(),
            r.clock == 7670454,
            !r.dual,
    {
        let mut assign: Vec<u8> = Vec::new();
        assign.push(0);
        assign.push(1);
        assign.push(4);
        assign.push(5);
        assign.push(8);
        assign.push(9);
        assign.push(12);
        assign.push(13);
        assign.push(14);
        assign.push(10);
        assign.push(6);
        assign.push(2);
        let mut mem: Vec<i16> = Vec::new();
        let mut i: usize = 0;
        while i < 0x400
            invariant
                i <= 0x400,
                mem@.len() == i,
            decreases 0x400 - i,
        {
            mem.push(-1);
            i = i + 1;
        }
        let mut vol: Vec<u8> = Vec::new();
        let mut pan: Vec<u8> = Vec::new();
        let mut j: usize = 0;
        while j < 12
            invariant
                j <= 12,
                vol@.len() == j,
                pan@.len() == j,
            decreases 12 - j,
        {
            vol.push(127);
            pan.push(0xC0);
            j = j + 1;
        }
        Opn2 { clock: 7670454, nor: 0, sup: 0, dual: false, assign, mem, vol, pan }
    }

    /// Write one register through the shadow: the frequency latches,
    /// the envelope registers and the key-on register are always
    /// written, others only when the value changed; second-chip banks
    /// are dropped unless dual mode is on.  The shadow then holds the
    /// written value exactly when the write went out.
    fn opn2_put(&mut self, address: usize, data: u8, writer: &mut VgmWriter)
        requires
            old(self).wf(),
            old(writer).wf(),
        ensures
            final(self).wf(),
            writer_extended(*old(writer), *final(writer)),
            ({
                let a = (address % 0x400) as int;
                let emit = (old(self).mem@[a] != data as i16 || opn2_always(a)) && (old(
                    self,
                ).dual || (a / 0x200) % 2 == 0);
                &&& (emit ==> final(self).mem@ == old(self).mem@.update(a, data as i16)
                    && final(writer).data_view() == old(writer).data_view() + opn2_cmd_bytes(
                    a,
                    data,
                ))
                &&& (!emit ==> final(self).mem == old(self).mem && final(writer).data_view()
                    == old(writer).data_view())
            }),
            final(self).assign == old(self).assign,
            final(self).vol == old(self).vol,
            final(self).pan == old(self).pan,
            final(self).dual == old(self).dual,
            final(self).clock == old(self).clock,
            final(self).nor == old(self).nor,
            final(self).sup == old(self).sup,
    {
        let address = address % 0x400;
        let reg = address % 0x100;
        let second = (address / 0x200) % 2 == 1;
        let always = (0xA0 <= reg && reg < 0xC0) || reg >= 0xE0 || reg == 0x28;
        if (self.mem[address] != data as i16 || always) && (self.dual || !second) {
            self.mem.set(address, data as i16);
            let base: u8 = if second {
                0xA2
            } else {
                0x52
            };
            let cmd: u8 = base + (((address / 0x100) % 2) as u8);
            writer.write3(cmd, reg as u8, data);
        }
        proof {
            assert(writer.data_view().subrange(0, old(writer).data_view().len() as int)
                =~= old(writer).data_view());
        }
    }

    /// One value of the instrument patch, zero when out of range.
    fn patch_at(data: &Vec<i16>, i: usize) -> (r: i16)
        ensures
            i < data@.len() ==> r == data@[i as int],
            i >= data@.len() ==> r == 0,
    {
        if i < data.len() {
            data[i]
        } else {
            0
        }
    }

    /// Write the four operators of a channel from the patch, applying
    /// the channel volume to the carrier levels.
    fn update_oper(&mut self, mo: bool, ch: usize, oper_data: &Vec<i16>, writer: &mut VgmWriter)
        requires
            old(self).wf(),
            old(writer).wf(),
            ch < 12,
        ensures
            final(self).wf(),
            writer_extended(*old(writer), *final(writer)),
    {
        let asg = self.assign[ch] as usize;
        let ad = ((asg / 4) % 4) * 256 + (asg % 4);

        // Which operators carry to the output, by the algorithm.
        let alg = (Self::patch_at(oper_data, 28) as i64 % 8 + 8) % 8;
        let mut aff0: i32 = 0;
        let mut aff1: i32 = 0;
        let mut aff2: i32 = 0;
        let aff3: i32 = 16;
        if alg > 3 {
            aff2 = 16;
        }
        if alg > 4 {
            aff1 = 16;
        }
        if alg == 7 {
            aff0 = 16;
        }

        let mut i: usize = 0;
        while i < 4
            invariant
                old(writer).wf(),
                self.wf(),
                writer.wf(),
                writer.header_view() == old(writer).header_view(),
                writer.loop_view() == old(writer).loop_view(),
                writer.data_view().len() >= old(writer).data_view().len(),
                writer.data_view().subrange(0, old(writer).data_view().len() as int) == old(
                    writer,
                ).data_view(),
                i <= 4,
                ch < 12,
                ad < 0x400,
            decreases 4 - i,
        {
            let op_aff: i32 = if mo {
                Self::patch_at(oper_data, i * 3 + 32) as i32
            } else {
                if i == 0 {
                    aff0
                } else if i == 1 {
                    aff1
                } else if i == 2 {
                    aff2
                } else {
                    aff3
                }
            };

            let mut j: usize = 0;
            while j < 7
                invariant
                    old(writer).wf(),
                    self.wf(),
                    writer.wf(),
                    writer.header_view() == old(writer).header_view(),
                    writer.loop_view() == old(writer).loop_view(),
                    writer.data_view().len() >= old(writer).data_view().len(),
                    writer.data_view().subrange(0, old(writer).data_view().len() as int) == old(
                        writer,
                    ).data_view(),
                    j <= 7,
                    i < 4,
                    ch < 12,
                    ad < 0x400,
                decreases 7 - j,
            {
                let mut k: i64 = Self::patch_at(oper_data, i * 7 + j) as i64;
                if j == 1 {
                    // Total level: fold in the channel volume.
                    k = k + (super::mul_i32(self.vol[ch] as i32, op_aff) / 16);
                    if k < 0 {
                        k = 0;
                    }
                    if k > 127 {
                        k = 127;
                    }
                }
                #[verifier::truncate]
                let kb = k as u8;
                self.opn2_put((ad / 256) * 256 + (ad % 4) + i * 4 + (j + 3) * 16, kb, writer);
                proof {
                    assert(writer.data_view().subrange(
                        0,
                        old(writer).data_view().len() as int,
                    ) =~= old(writer).data_view());
                }
                j = j + 1;
            }
            i = i + 1;
        }

        // Algorithm and feedback, then panning and LFO sensitivity.
        #[verifier::truncate]
        let alg_fb = Self::patch_at(oper_data, 28) as u8;
        self.opn2_put((ad / 256) * 256 + 0xB0 + (ad % 4), alg_fb, writer);
        #[verifier::truncate]
        let patch_pan = Self::patch_at(oper_data, 29) as u8;
        let pan_lfo = patch_pan | self.pan[ch];
        self.opn2_put((ad / 256) * 256 + 0xB4 + (ad % 4), pan_lfo, writer);
        proof {
            assert(writer.data_view().subrange(0, old(writer).data_view().len() as int)
                =~= old(writer).data_view());
        }
    }

    /// Write a channel's frequency latches; in the supplementary mode
    /// each operator may carry its own frequency.
    fn update_note(
        &mut self,
        mo: bool,
        ch: usize,
        note: i32,
        oper_data: &Vec<i16>,
        writer: &mut VgmWriter,
    )
        requires
            old(self).wf(),
            old(writer).wf(),
            ch < 12,
        ensures
            final(self).wf(),
            writer_extended(*old(writer), *final(writer)),
    {
        let asg = self.assign[ch] as usize;
        let mut ad = ((asg / 4) % 4) * 256 + (asg % 4);

        if mo {
            let mut i: usize = 0;
            while i < 4
                invariant
                    old(writer).wf(),
                    self.wf(),
                    writer.wf(),
                    writer.header_view() == old(writer).header_view(),
                    writer.loop_view() == old(writer).loop_view(),
                    writer.data_view().len() >= old(writer).data_view().len(),
                    writer.data_view().subrange(0, old(writer).data_view().len() as int) == old(
                        writer,
                    ).data_view(),
                    i <= 4,
                    ad < 0x400,
                decreases 4 - i,
            {
                let op_note = Self::patch_at(oper_data, i * 3 + 31);
                let op_block = Self::patch_at(oper_data, i * 3 + 30);
                let base: i64 = if op_note != 0 {
                    op_note as i64
                } else {
                    note as i64
                };
                #[verifier::truncate]
                let baseu = base as u64;
                #[verifier::truncate]
                let blocku = op_block as u64;
                let h: u64 = baseu | ((blocku % 0x10000) * 2048);
                #[verifier::truncate]
                let h_hi = ((h / 0x100) % 0x100) as u8;
                #[verifier::truncate]
                let h_lo = (h % 0x100) as u8;
                self.opn2_put((ad / 256) * 256 + 0xA4 + (ad % 4) + i, h_hi, writer);
                self.opn2_put((ad / 256) * 256 + 0xA0 + (ad % 4) + i, h_lo, writer);
                ad = if (ad / 4) % 2 == 0 {
                    ad + 4
                } else {
                    ad
                };
                proof {
                    assert(writer.data_view().subrange(
                        0,
                        old(writer).data_view().len() as int,
                    ) =~= old(writer).data_view());
                }
                i = i + 1;
            }
        } else {
            #[verifier::truncate]
            let n_hi = (((note as u32) / 0x100) % 0x100) as u8;
            #[verifier::truncate]
            let n_lo = ((note as u32) % 0x100) as u8;
            self.opn2_put(ad | 0xA4, n_hi, writer);
            self.opn2_put(ad | 0xA0, n_lo, writer);
        }
        proof {
            assert(writer.data_view().subrange(0, old(writer).data_view().len() as int)
                =~= old(writer).data_view());
        }
    }

    /// The chip's name.
    pub fn name(&self) -> (r: &'static str)
        ensures
            r@ == "OPN2"@,
    {
        "OPN2"
    }

    /// The chip's VGM chip id.
    pub fn chip_id(&self) -> (r: u8)
        ensures
            r == CHIP_ID_YM2612,
    {
        CHIP_ID_YM2612
    }

    /// Frequency-based: the clock itself.
    pub fn clock_div(&self) -> (r: i32)
        ensures
            r == self.clock,
    {
        self.clock
    }

    /// Eleven-bit pitch register, unshifted by octave.
    pub fn note_bits(&self) -> (r: i32)
        ensures
            r == -11,
    {
        -11
    }

    /// Reference octave.
    pub fn basic_octave(&self) -> (r: i32)
        ensures
            r == 7,
    {
        7
    }

    /// Apply parsed options with the hardware default clock.
    pub fn enable(&mut self, options: &ChipOptions)
        requires
            old(self).wf(),
        ensures
            final(self).wf(),
            final(self).clock == (if options.spec_get('H') == 0 {
                7670454int
            } else {
                options.spec_get('H')
            }),
    {
        self.clock = options.get('H');
        if self.clock == 0 {
            self.clock = 7670454;
        }
    }

    /// Reset the shadow and rebuild the channel assignment from the
    /// measured supplementary usage.
    pub fn file_begin(&mut self, writer: &mut VgmWriter)
        requires
            old(self).wf(),
            old(writer).wf(),
        ensures
            final(self).wf(),
            writer_extended(*old(writer), *final(writer)),
            final(writer).data_view() == old(writer).data_view(),
            final(self).clock == old(self).clock,
            final(self).nor == old(self).nor,
            final(self).sup == old(self).sup,
            final(self).dual == old(self).dual,
            forall|t: int| 0 <= t < 0x400 ==> final(self).mem@[t] == -1,
            forall|t: int| 0 <= t < 12 ==> final(self).vol@[t] == 127 && final(self).pan@[t]
                == 0xC0,
            final(self).assign@.take(opn2_assign_table(old(self).sup as int).len() as int)
                == opn2_assign_table(old(self).sup as int),
    {
        let mut i: usize = 0;
        while i < 0x400
            invariant
                i <= 0x400,
                self.mem@.len() == 0x400,
                self.assign@.len() == 12,
                self.vol@.len() == 12,
                self.pan@.len() == 12,
                self.clock == old(self).clock,
                self.nor == old(self).nor,
                self.sup == old(self).sup,
                self.dual == old(self).dual,
                forall|t: int| 0 <= t < i ==> self.mem@[t] == -1,
            decreases 0x400 - i,
        {
            self.mem.set(i, -1);
            i = i + 1;
        }
        let mut j: usize = 0;
        while j < 12
            invariant
                j <= 12,
                self.mem@.len() == 0x400,
                self.assign@.len() == 12,
                self.vol@.len() == 12,
                self.pan@.len() == 12,
                self.clock == old(self).clock,
                self.nor == old(self).nor,
                self.sup == old(self).sup,
                self.dual == old(self).dual,
                forall|t: int| 0 <= t < 0x400 ==> self.mem@[t] == -1,
                forall|t: int| 0 <= t < j ==> self.vol@[t] == 127 && self.pan@[t] == 0xC0,
            decreases 12 - j,
        {
            self.vol.set(j, 127);
            self.pan.set(j, 0xC0);
            j = j + 1;
        }

        // Assignment: skip hardware channels claimed by the
        // supplementary voices.
        let mut k: usize = 0;
        self.push_assign(&mut k, 0);
        self.push_assign(&mut k, 1);
        if self.sup < 1 {
            self.push_assign(&mut k, 2);
        }
        self.push_assign(&mut k, 4);
        self.push_assign(&mut k, 5);
        if self.sup < 2 {
            self.push_assign(&mut k, 6);
        }
        self.push_assign(&mut k, 8);
        self.push_assign(&mut k, 9);
        if self.sup < 3 {
            self.push_assign(&mut k, 10);
        }
        self.push_assign(&mut k, 12);
        self.push_assign(&mut k, 13);
        if self.sup < 4 {
            self.push_assign(&mut k, 14);
        }
        proof {
            assert(self.assign@.take(opn2_assign_table(old(self).sup as int).len() as int)
                =~= opn2_assign_table(old(self).sup as int));
            assert(writer.data_view().subrange(0, old(writer).data_view().len() as int)
                =~= old(writer).data_view());
        }
    }

    /// Record one assignment and advance the slot counter.
    fn push_assign(&mut self, k: &mut usize, v: u8)
        requires
            old(self).wf(),
        ensures
            final(self).wf(),
            final(self).clock == old(self).clock,
            final(self).nor == old(self).nor,
            final(self).sup == old(self).sup,
            final(self).dual == old(self).dual,
            final(self).mem == old(self).mem,
            final(self).vol == old(self).vol,
            final(self).pan == old(self).pan,
            *old(k) < 12 ==> final(self).assign@ == old(self).assign@.update(
                *old(k) as int,
                v,
            ) && *final(k) == *old(k) + 1,
            *old(k) >= 12 ==> final(self).assign == old(self).assign && *final(k) == *old(k),
    {
        if *k < 12 {
            self.assign.set(*k, v);
            *k = *k + 1;
        }
    }

    /// Resolve the dual flag from usage and fix the YM2612 clock field.
    pub fn file_end(&mut self, writer: &mut VgmWriter)
        requires
            old(self).wf(),
            old(writer).wf(),
        ensures
            final(self).wf(),
            final(writer).wf(),
            final(writer).data_view() == old(writer).data_view(),
            final(writer).loop_view() == old(writer).loop_view(),
            final(self).dual == (old(self).sup > 2 || old(self).nor + old(self).sup > 6),
            0 <= old(self).clock < 0x40000000 ==> le32(
                final(writer).header_view(),
                header::YM2612_CLOCK as int,
            ) == old(self).clock + (if old(self).sup > 2 || old(self).nor + old(self).sup > 6 {
                0x40000000int
            } else {
                0int
            }),
            forall|i: int| 0 <= i < header::VGM_HEADER_SIZE && !(header::YM2612_CLOCK <= i < header::YM2612_CLOCK + 4)
                ==> final(writer).header_view()[i] == old(writer).header_view()[i],
    {
        self.dual = self.sup > 2 || (self.sup <= 6 && self.nor > 6 - self.sup);
        let clock_val = super::clock_with_dual(self.clock, self.dual);
        writer.set_chip_clock(header::YM2612_CLOCK, clock_val);
    }

    /// Nothing to invalidate at the loop point.
    pub fn loop_start(&mut self, writer: &mut VgmWriter)
        requires
            old(self).wf(),
            old(writer).wf(),
        ensures
            final(self).wf(),
            *final(self) == *old(self),
            writer_extended(*old(writer), *final(writer)),
    {
        proof {
            assert(writer.data_view().subrange(0, old(writer).data_view().len() as int)
                =~= old(writer).data_view());
        }
    }

    /// Nothing to record at channel start.
    pub fn start_channel(&mut self, channel: usize)
        requires
            old(self).wf(),
        ensures
            final(self).wf(),
            *final(self) == *old(self),
    {
    }

    /// Record the highest melody and supplementary voice indices.
    pub fn start_channel_with_info(&mut self, chip_sub: usize, chan_sub: usize)
        requires
            old(self).wf(),
        ensures
            final(self).wf(),
            chan_sub < usize::MAX && chip_sub != 0 ==> final(self).sup == (if chan_sub + 1 > old(
                self,
            ).sup {
                (chan_sub + 1) as int
            } else {
                old(self).sup as int
            }),
            chan_sub < usize::MAX && chip_sub == 0 ==> final(self).nor == (if chan_sub + 1 > old(
                self,
            ).nor {
                (chan_sub + 1) as int
            } else {
                old(self).nor as int
            }),
    {
        let y = if chan_sub < usize::MAX {
            chan_sub + 1
        } else {
            chan_sub
        };
        if chip_sub != 0 {
            if y > self.sup {
                self.sup = y;
            }
        } else if y > self.nor {
            self.nor = y;
        }
    }

    /// Translate macro sets.
    pub fn set_macro(
        &mut self,
        channel: usize,
        is_dynamic: bool,
        command: MacroCommand,
        value: i16,
    ) -> (r: Option<ChipEvent>)
        requires
            old(self).wf(),
        ensures
            final(self).wf(),
            *final(self) == *old(self),
            match command {
                MacroCommand::Volume => r == Some(
                    ChipEvent { event_type: 0x6000, value1: (value ^ 127) as i32, value2: 0 },
                ),
                MacroCommand::Panning => r is Some && r->0.event_type == 0x7000,
                MacroCommand::Tone => r is Some && r->0.event_type == 0x5000 && 0 <= r->0.value1
                    < 256,
                MacroCommand::Global => r == Some(
                    ChipEvent { event_type: 0x1022, value1: value as i32, value2: 0 },
                ),
                _ => r is None,
            },
    {
        match command {
            MacroCommand::Volume => Some(ChipEvent::new(0x6000, (value ^ 127) as i32, 0)),
            MacroCommand::Panning => {
                let pan: i32 = if value < 0 {
                    0x80
                } else if value > 0 {
                    0x40
                } else {
                    0xC0
                };
                Some(ChipEvent::new(0x7000, pan, 0))
            },
            MacroCommand::Tone => {
                let t = (value as i32) % 256;
                let t2 = if t < 0 {
                    t + 256
                } else {
                    t
                };
                Some(ChipEvent::new(0x5000, t2, 0))
            },
            MacroCommand::Global => Some(ChipEvent::new(0x1022, value as i32, 0)),
            _ => None,
        }
    }

    /// A note-on packs the pitch with the octave block.
    pub fn note_on(&mut self, channel: usize, note: i32, octave: i32, duration: i32) -> (r: Option<
        ChipEvent,
    >)
        requires
            old(self).wf(),
        ensures
            final(self).wf(),
            *final(self) == *old(self),
            r is Some,
    {
        #[verifier::truncate]
        let packed = ((note as i64) | (((octave as i64) * 2048) % 0x100000000)) as i32;
        Some(ChipEvent::new(0x3000, packed, 0))
    }

    /// A pitch change.
    pub fn note_change(&mut self, channel: usize, note: i32, octave: i32) -> (r: Option<ChipEvent>)
        requires
            old(self).wf(),
        ensures
            final(self).wf(),
            *final(self) == *old(self),
            r is Some,
    {
        #[verifier::truncate]
        let packed = ((note as i64) | (((octave as i64) * 2048) % 0x100000000)) as i32;
        Some(ChipEvent::new(0x4000, packed, 0))
    }

    /// A note-off.
    pub fn note_off(&mut self, channel: usize, note: i32, octave: i32) -> (r: Option<ChipEvent>)
        requires
            old(self).wf(),
        ensures
            final(self).wf(),
            *final(self) == *old(self),
            r == Some(ChipEvent { event_type: 0x2000, value1: 0, value2: 0 }),
    {
        Some(ChipEvent::new(0x2000, 0, 0))
    }

    /// A rest leaves the channel alone.
    pub fn rest(&mut self, channel: usize, duration: i32) -> (r: Option<ChipEvent>)
        requires
            old(self).wf(),
        ensures
            final(self).wf(),
            *final(self) == *old(self),
            r is None,
    {
        None
    }

    /// A direct write carries the register address in the event type.
    pub fn direct(&mut self, channel: usize, address: u16, value: u8) -> (r: Option<ChipEvent>)
        requires
            old(self).wf(),
        ensures
            final(self).wf(),
            *final(self) == *old(self),
            r == Some(ChipEvent { event_type: address, value1: value as i32, value2: 0 }),
    {
        Some(ChipEvent::new(address, value as i32, 0))
    }

    /// The logical channel an event addresses.
    fn chan_of(&self, chip_sub: usize, chan_sub: usize) -> (r: Option<usize>)
        ensures
            r is Some ==> r->0 < 12,
    {
        if chip_sub != 0 {
            if chan_sub >= 1 && chan_sub <= 11 {
                Some(12 - chan_sub)
            } else {
                None
            }
        } else {
            if chan_sub < 12 {
                Some(chan_sub)
            } else {
                None
            }
        }
    }

    /// Perform the register writes for one event without patch access.
    pub fn send(
        &mut self,
        event: &ChipEvent,
        channel: usize,
        chip_sub: usize,
        chan_sub: usize,
        writer: &mut VgmWriter,
    )
        requires
            old(self).wf(),
            old(writer).wf(),
        ensures
            final(self).wf(),
            writer_extended(*old(writer), *final(writer)),
    {
        let ch = match self.chan_of(chip_sub, chan_sub) {
            Some(c) => c,
            None => {
                proof {
                    assert(writer.data_view().subrange(
                        0,
                        old(writer).data_view().len() as int,
                    ) =~= old(writer).data_view());
                }
                return;
            },
        };
        let group = event.event_type / 0x1000;

        if group == 0 {
            let addr = (event.event_type % 0x400) as usize;
            #[verifier::truncate]
            let v1 = event.value1 as u8;
            self.opn2_put(addr, v1, writer);
        } else if group == 1 {
            let addr = (event.event_type % 0x100) as usize;
            #[verifier::truncate]
            let v1 = event.value1 as u8;
            self.opn2_put(addr, v1, writer);
            self.opn2_put(addr | 0x100, v1, writer);
            self.opn2_put(addr | 0x200, v1, writer);
            self.opn2_put(addr | 0x300, v1, writer);
        } else if group == 2 {
            // Key off.
            let asg = self.assign[ch] as usize;
            let key_addr = ((asg / 8) % 2) * 256 + 0x28;
            #[verifier::truncate]
            let asg8 = asg as u8;
            self.opn2_put(key_addr, asg8 & 7, writer);
        } else if group == 3 {
            // Key on: frequency, then the key-on strobe.
            let note = event.value1;
            let asg = self.assign[ch] as usize;
            let ad = ((asg / 4) % 4) * 256 + (asg % 4);
            #[verifier::truncate]
            let n_hi = (((note as u32) / 0x100) % 0x100) as u8;
            #[verifier::truncate]
            let n_lo = ((note as u32) % 0x100) as u8;
            self.opn2_put((ad / 256) * 256 + 0xA4 + (ad % 4), n_hi, writer);
            self.opn2_put((ad / 256) * 256 + 0xA0 + (ad % 4), n_lo, writer);
            let key_addr = ((asg / 8) % 2) * 256 + 0x28;
            #[verifier::truncate]
            let asg8 = asg as u8;
            self.opn2_put(key_addr, 0xF0 | (asg8 & 0xF7), writer);
        } else if group == 4 {
            // Pitch change.
            let note = event.value1;
            let asg = self.assign[ch] as usize;
            let ad = ((asg / 4) % 4) * 256 + (asg % 4);
            #[verifier::truncate]
            let n_hi = (((note as u32) / 0x100) % 0x100) as u8;
            #[verifier::truncate]
            let n_lo = ((note as u32) % 0x100) as u8;
            self.opn2_put((ad / 256) * 256 + 0xA4 + (ad % 4), n_hi, writer);
            self.opn2_put((ad / 256) * 256 + 0xA0 + (ad % 4), n_lo, writer);
        } else if group == 6 {
            #[verifier::truncate]
            let v = event.value1 as u8;
            self.vol.set(ch, v);
        } else if group == 7 {
            #[verifier::truncate]
            let v = event.value1 as u8;
            self.pan.set(ch, v);
        }
        proof {
            assert(writer.data_view().subrange(0, old(writer).data_view().len() as int)
                =~= old(writer).data_view());
        }
    }

    /// Perform the register writes for one event, reading the instrument
    /// patch from the envelope store where the event calls for it.
    pub fn send_with_macro_env(
        &mut self,
        event: &ChipEvent,
        channel: usize,
        chip_sub: usize,
        chan_sub: usize,
        writer: &mut VgmWriter,
        macro_env: &MacroEnvStorage,
    )
        requires
            old(self).wf(),
            old(writer).wf(),
            macro_env.wf(),
        ensures
            final(self).wf(),
            writer_extended(*old(writer), *final(writer)),
    {
        let ch = match self.chan_of(chip_sub, chan_sub) {
            Some(c) => c,
            None => {
                proof {
                    assert(writer.data_view().subrange(
                        0,
                        old(writer).data_view().len() as int,
                    ) =~= old(writer).data_view());
                }
                return;
            },
        };
        let mo = chip_sub != 0;
        let group = event.event_type / 0x1000;

        let oper_idx: usize = if event.value2 >= 0 && event.value2 < 256 {
            event.value2 as usize
        } else {
            255
        };

        if group == 3 {
            let env = macro_env.env(3, oper_idx);
            let data = env.data.clone();
            self.update_note(mo, ch, event.value1, &data, writer);
            let asg = self.assign[ch] as usize;
            let key_addr = ((asg / 8) % 2) * 256 + 0x28;
            #[verifier::truncate]
            let asg8 = asg as u8;
            self.opn2_put(key_addr, 0xF0 | (asg8 & 0xF7), writer);
        } else if group == 4 {
            let env = macro_env.env(3, oper_idx);
            let data = env.data.clone();
            self.update_note(mo, ch, event.value1, &data, writer);
        } else if group == 5 {
            let idx: usize = if event.value1 >= 0 && event.value1 < 256 {
                event.value1 as usize
            } else {
                255
            };
            let env = macro_env.env(3, idx);
            let data = env.data.clone();
            self.update_oper(mo, ch, &data, writer);
        } else if group == 6 {
            #[verifier::truncate]
            let v = event.value1 as u8;
            self.vol.set(ch, v);
            let env = macro_env.env(3, oper_idx);
            let data = env.data.clone();
            self.update_oper(mo, ch, &data, writer);
        } else if group == 7 {
            #[verifier::truncate]
            let v = event.value1 as u8;
            self.pan.set(ch, v);
            let env = macro_env.env(3, oper_idx);
            let data = env.data.clone();
            self.update_oper(mo, ch, &data, writer);
        } else {
            self.send(event, channel, chip_sub, chan_sub, writer);
        }
        proof {
            assert(writer.data_view().subrange(0, old(writer).data_view().len() as int)
                =~= old(writer).data_view());
        }
    }
}

impl Default for Opn2 {
    /// A fresh driver.
    fn default() -> (r: Opn2)
        ensures
            r.wf(),
    {
        Opn2::new()
    }
}

} // verus!
