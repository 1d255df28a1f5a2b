//! SN76489 (PSG) sound chip driver.

use vstd::prelude::*;
use super::{ChipOptions, MacroCommand, CHIP_ID_SN76489, writer_extended};
use crate::compiler::event::ChipEvent;
use crate::vgm::header;
use crate::vgm::header::le32;
use crate::vgm::writer::VgmWriter;

verus! {

/// Which physical chip a write goes to: the second chip when the voice
/// index runs past one chip's capacity for its role.
pub open spec fn sn_chip_of(chip_sub: int, chan_sub: int) -> int {
    if chip_sub > 0 {
        if chan_sub >= 1 {
            1
        } else {
            0
        }
    } else {
        if chan_sub >= 3 {
            1
        } else {
            0
        }
    }
}

/// Which hardware channel a write goes to: the noise channel for the
/// noise role, else one of the three tone channels.
pub open spec fn sn_chan_of(chip_sub: int, chan_sub: int) -> int {
    if chip_sub > 0 {
        3
    } else {
        chan_sub % 3
    }
}

/// Law: a write addresses the second chip exactly when the requested
/// voice exceeds the single-chip capacity, which is three tone voices
/// and one noise voice.  With `send` recording this in the dual flag
/// and `file_end` copying the flag into bit 30 of the header clock,
/// the header's dual-chip bit is set exactly when some channel asked
/// for a voice beyond one chip's capacity.
pub proof fn lemma_sn76489_dual_capacity(chip_sub: int, chan_sub: int)
    requires
        chip_sub >= 0,
        chan_sub >= 0,
    ensures
        sn_chip_of(chip_sub, chan_sub) > 0 <==> (if chip_sub > 0 {
            chan_sub >= 1
        } else {
            chan_sub >= 3
        }),
{
}

/// An i64 reinterpreted as its unsigned two's-complement bits.
pub open spec fn sn_wrap_u64(x: i64) -> u64 {
    if x >= 0 {
        x as u64
    } else {
        (x + 0x10000000000000000) as u64
    }
}

/// The low byte of an i32, as the chip sees it.
pub open spec fn sn_byte(x: i32) -> u8 {
    (sn_wrap_u64(x as i64) & 0xFF) as u8
}

/// Exec counterpart of `sn_wrap_u64`.
fn u64_wrap(x: i64) -> (r: u64)
    ensures
        r == sn_wrap_u64(x),
{
    if x >= 0 {
        x as u64
    } else {
        ((x as i128) + 0x10000000000000000i128) as u64
    }
}

/// Exec counterpart of `sn_byte`.
fn byte_wrap(x: i32) -> (r: u8)
    ensures
        r == sn_byte(x),
{
    let w = u64_wrap(x as i64);
    let m = w & 0xFF;
    proof {
        assert(w & 0xFF < 256) by (bit_vector);
    }
    m as u8
}

/// SN76489 PSG chip.
#[derive(Debug)]
pub struct Sn76489 {
    pub clock: i32,
    pub feedback: u8,
    pub shift_width: u8,
    pub flags: u8,
    /// Game Gear stereo register shadow per chip.
    pub stereo: Vec<u8>,
    /// Dual-chip activation.
    pub dual: bool,
    /// Volume shadow per chip and channel (-1 unknown), chip-major.
    pub vol: Vec<i32>,
    /// Tone shadow per chip and channel (-1 unknown), chip-major.
    pub tone: Vec<i64>,
    /// Key state per chip and channel, chip-major.
    pub noteon: Vec<bool>,
    /// Channel of the last tone latch per chip (-1 unknown).
    pub ltone: Vec<i32>,
    pub flag_f: bool,
    pub flag_n: bool,
    pub flag_s: bool,
    pub flag_d: bool,
}

/// The exact byte sequence `send` appends for one event, as a function
/// of the event, the old shadow state and the voice sub-indices.  Each
/// register write is a two-byte VGM command; a suppressed write
/// contributes nothing.
pub open spec fn sn_send_bytes(s: Sn76489, event: ChipEvent, chip_sub: int, chan_sub: int) -> Seq<
    u8,
> {
    let c = sn_chip_of(chip_sub, chan_sub);
    let d = sn_chan_of(chip_sub, chan_sub);
    let slot = c * 4 + d;
    let cmd: u8 = if c > 0 {
        0x30
    } else {
        0x50
    };
    if chip_sub > 1 || chan_sub > 5 {
        Seq::<u8>::empty()
    } else if event.event_type == 0 {
        seq![cmd, sn_byte(event.value1)]
    } else if event.event_type == 1 {
        let x0 = s.stereo@[c];
        let x1 = x0 & !((0x11u8) << (d as u8));
        let x2 = if event.value1 <= 0 {
            x1 | ((0x10u8) << (d as u8))
        } else {
            x1
        };
        let x3 = if event.value1 >= 0 {
            x2 | ((0x01u8) << (d as u8))
        } else {
            x2
        };
        if x3 != x0 {
            seq![
                (if c > 0 {
                    0x3Fu8
                } else {
                    0x4Fu8
                }),
                sn_byte(event.value1),
            ]
        } else {
            Seq::<u8>::empty()
        }
    } else if event.event_type == 2 {
        if s.noteon@[slot] && event.value1 != s.vol@[slot] {
            seq![cmd, ((0x9F ^ sn_byte(event.value1)) | ((d as u8) << 5))]
        } else {
            Seq::<u8>::empty()
        }
    } else if event.event_type == 3 {
        let note = event.value1 as i64;
        let nb = sn_wrap_u64(note);
        let tb = sn_wrap_u64(s.tone@[slot]);
        let w1 = if s.vol@[slot] > 0 && !s.noteon@[slot] {
            seq![cmd, ((0x9F ^ sn_byte(s.vol@[slot])) | ((d as u8) << 5))]
        } else {
            Seq::<u8>::empty()
        };
        let lt0: int = if s.vol@[slot] > 0 && !s.noteon@[slot] {
            -1
        } else {
            s.ltone@[c] as int
        };
        let latch = ((nb ^ tb) & 15) != 0 || (note != s.tone@[slot] && lt0 != d);
        let w2 = if latch {
            seq![cmd, (0x80 | ((nb & 0x0F) as u8) | ((d as u8) << 5))]
        } else {
            Seq::<u8>::empty()
        };
        let lt: int = if latch {
            d
        } else {
            lt0
        };
        let w3 = if lt == d && chip_sub == 0 {
            seq![cmd, (((nb / 16) & 0x3F) as u8)]
        } else {
            Seq::<u8>::empty()
        };
        w1 + w2 + w3
    } else if event.event_type == 4 {
        if s.noteon@[slot] && s.vol@[slot] > 0 {
            seq![cmd, (0x9F | ((d as u8) << 5))]
        } else {
            Seq::<u8>::empty()
        }
    } else {
        Seq::<u8>::empty()
    }
}

/// Law: the volume cache suppresses redundant writes.  A volume event
/// whose value the chip already holds, or whose channel is not keyed
/// on, appends no bytes; one that changes the sounding volume appends
/// exactly one register write.
pub proof fn lemma_sn76489_cache_suppression(
    s: Sn76489,
    event: ChipEvent,
    chip_sub: int,
    chan_sub: int,
)
    requires
        s.wf(),
        0 <= chip_sub <= 1,
        0 <= chan_sub <= 5,
        event.event_type == 2,
    ensures
        ({
            let slot = sn_chip_of(chip_sub, chan_sub) * 4 + sn_chan_of(chip_sub, chan_sub);
            &&& (!(s.noteon@[slot] && event.value1 != s.vol@[slot]) ==> sn_send_bytes(
                s,
                event,
                chip_sub,
                chan_sub,
            ) == Seq::<u8>::empty())
            &&& (s.noteon@[slot] && event.value1 != s.vol@[slot] ==> sn_send_bytes(
                s,
                event,
                chip_sub,
                chan_sub,
            ).len() == 2)
        }),
{
}

impl Sn76489 {
    /// Well-formed shadow-register tables.
    pub open spec fn wf(&self) -> bool {
        &&& self.stereo@.len() == 2
        &&& self.vol@.len() == 8
        &&& self.tone@.len() == 8
        &&& self.noteon@.len() == 8
        &&& self.ltone@.len() == 2
    }

    /// A fresh driver with every cache unknown.
    pub fn new() -> (r: Sn76489)
        ensures
            r.wf(),
            r.clock == 3579545,
            r.feedback == 9,
            r.shift_width == 16,
            !r.dual,
            forall|i: int| 0 <= i < 8 ==> r.vol@[i] == -1 && r.tone@[i] == -1 && !r.noteon@[i],
            forall|i: int| 0 <= i < 2 ==> r.stereo@[i] == 0xFF && r.ltone@[i] == -1,
    {
        let mut stereo: Vec<u8> = Vec::new();
        stereo.push(0xFF);
        stereo.push(0xFF);
        let mut ltone: Vec<i32> = Vec::new();
        ltone.push(-1);
        ltone.push(-1);
        let mut vol: Vec<i32> = Vec::new();
        let mut tone: Vec<i64> = Vec::new();
        let mut noteon: Vec<bool> = Vec::new();
        let mut i: usize = 0;
        while i < 8
            invariant
                i <= 8,
                vol@.len() == i,
                tone@.len() == i,
                noteon@.len() == i,
                forall|j: int| 0 <= j < i ==> vol@[j] == -1 && tone@[j] == -1 && !noteon@[j],
            decreases 8 - i,
        {
            vol.push(-1);
            tone.push(-1);
            noteon.push(false);
            i = i + 1;
        }
        Sn76489 {
            clock: 3579545,
            feedback: 9,
            shift_width: 16,
            flags: 0,
            stereo,
            dual: false,
            vol,
            tone,
            noteon,
            ltone,
            flag_f: false,
            flag_n: false,
            flag_s: true,
            flag_d: true,
        }
    }

    /// The chip's name.
    pub fn name(&self) -> (r: &'static str)
        ensures
            r@ == "PSG"@,
    {
        "PSG"
    }

    /// The chip's VGM chip id.
    pub fn chip_id(&self) -> (r: u8)
        ensures
            r == CHIP_ID_SN76489,
    {
        CHIP_ID_SN76489
    }

    /// Period-based: the negated clock.
    pub fn clock_div(&self) -> (r: i32)
        ensures
            self.clock > i32::MIN ==> r == -self.clock,
    {
        #[verifier::truncate]
        let r = (-(self.clock as i64)) as i32;
        r
    }

    /// Ten-bit pitch register.
    pub fn note_bits(&self) -> (r: i32)
        ensures
            r == 10,
    {
        10
    }

    /// Reference octave.
    pub fn basic_octave(&self) -> (r: i32)
        ensures
            r == 0,
    {
        0
    }

    /// Apply parsed options: clock, feedback, shift width and flag bits,
    /// with hardware defaults for unset values.
    pub fn enable(&mut self, options: &ChipOptions)
        requires
            old(self).wf(),
        ensures
            final(self).wf(),
            final(self).clock == (if options.spec_get('H') == 0 {
                3579545int
            } else {
                options.spec_get('H')
            }),
            final(self).flag_f == (options.spec_get('f') != 0),
            final(self).flag_n == (options.spec_get('n') != 0),
            final(self).flag_s == (options.spec_get('s') == 0),
            final(self).flag_d == (options.spec_get('d') == 0),
    {
        self.clock = options.get('H');
        if self.clock == 0 {
            self.clock = 3579545;
        }
        #[verifier::truncate]
        let fb = options.get('F') as u8;
        self.feedback = fb;
        if self.feedback == 0 {
            self.feedback = 9;
        }
        #[verifier::truncate]
        let sw = options.get('S') as u8;
        self.shift_width = sw;
        if self.shift_width == 0 {
            self.shift_width = 16;
        }
        self.flag_f = options.get('f') != 0;
        self.flag_n = options.get('n') != 0;
        self.flag_s = options.get('s') == 0;
        self.flag_d = options.get('d') == 0;
    }

    /// Invalidate every cache and clear the dual flag.
    pub fn file_begin(&mut self, writer: &mut VgmWriter)
        requires
            old(self).wf(),
            old(writer).wf(),
        ensures
            final(self).wf(),
            writer_extended(*old(writer), *final(writer)),
            !final(self).dual,
            final(self).clock == old(self).clock,
            forall|i: int| 0 <= i < 8 ==> final(self).vol@[i] == -1 && final(self).tone@[i] == -1
                && !final(self).noteon@[i],
            forall|i: int| 0 <= i < 2 ==> final(self).stereo@[i] == 0xFF && final(self).ltone@[i]
                == -1,
    {
        let mut i: usize = 0;
        while i < 8
            invariant
                old(self).wf(),
                self.stereo@.len() == 2,
                self.vol@.len() == 8,
                self.tone@.len() == 8,
                self.noteon@.len() == 8,
                self.ltone@.len() == 2,
                i <= 8,
                self.clock == old(self).clock,
                forall|j: int| 0 <= j < i ==> self.vol@[j] == -1 && self.tone@[j] == -1
                    && !self.noteon@[j],
            decreases 8 - i,
        {
            self.vol.set(i, -1);
            self.tone.set(i, -1);
            self.noteon.set(i, false);
            i = i + 1;
        }
        self.stereo.set(0, 0xFF);
        self.stereo.set(1, 0xFF);
        self.ltone.set(0, -1);
        self.ltone.set(1, -1);
        self.dual = false;
        proof {
            assert(writer.data_view().subrange(0, old(writer).data_view().len() as int)
                =~= old(writer).data_view());
        }
    }

    /// Fix the SN76489 header fields: the clock with bit 30 as the dual
    /// flag, the feedback, the shift width, and the four flag bits.
    pub fn file_end(&mut self, writer: &mut VgmWriter)
        requires
            old(self).wf(),
            old(writer).wf(),
        ensures
            final(self).wf(),
            *final(self) == *old(self),
            final(writer).wf(),
            final(writer).data_view() == old(writer).data_view(),
            final(writer).loop_view() == old(writer).loop_view(),
            0 <= old(self).clock < 0x40000000 ==> le32(
                final(writer).header_view(),
                header::SN76489_CLOCK as int,
            ) == old(self).clock + (if old(self).dual {
                0x40000000int
            } else {
                0int
            }),
            final(writer).header_view()[header::SN76489_FEEDBACK as int] == old(self).feedback,
            final(writer).header_view()[header::SN76489_SHIFT_WIDTH as int] == old(
                self,
            ).shift_width,
            final(writer).header_view()[header::SN76489_FLAGS as int] == (old(self).flag_f as int)
                + 2 * (old(self).flag_n as int) + 4 * (old(self).flag_s as int) + 8 * (old(
                self,
            ).flag_d as int),
            forall|i: int| 0 <= i < header::VGM_HEADER_SIZE && !(header::SN76489_CLOCK <= i < header::SN76489_CLOCK + 4) && i != header::SN76489_FEEDBACK && i != header::SN76489_SHIFT_WIDTH && i != header::SN76489_FLAGS
                ==> final(writer).header_view()[i] == old(writer).header_view()[i],
    {
        let clock_val = super::clock_with_dual(self.clock, self.dual);
        writer.set_chip_clock(header::SN76489_CLOCK, clock_val);
        // The feedback halfword shares a field with the shift width and
        // flag bytes; write it bytewise.
        writer.set_header_u8(header::SN76489_FEEDBACK, self.feedback);
        writer.set_header_u8(header::SN76489_SHIFT_WIDTH, self.shift_width);
        let flags: u8 = (if self.flag_f {
            1u8
        } else {
            0u8
        }) + (if self.flag_n {
            2u8
        } else {
            0u8
        }) + (if self.flag_s {
            4u8
        } else {
            0u8
        }) + (if self.flag_d {
            8u8
        } else {
            0u8
        });
        writer.set_header_u8(header::SN76489_FLAGS, flags);
    }

    /// Nothing to invalidate at the loop point.
    pub fn loop_start(&mut self, writer: &mut VgmWriter)
        requires
            old(self).wf(),
            old(writer).wf(),
        ensures
            final(self).wf(),
            *final(self) == *old(self),
            writer_extended(*old(writer), *final(writer)),
    {
        proof {
            assert(writer.data_view().subrange(0, old(writer).data_view().len() as int)
                =~= old(writer).data_view());
        }
    }

    /// Nothing to record at channel start.
    pub fn start_channel(&mut self, channel: usize)
        requires
            old(self).wf(),
        ensures
            final(self).wf(),
            *final(self) == *old(self),
    {
    }

    /// Nothing to record from sub-indices.
    pub fn start_channel_with_info(&mut self, chip_sub: usize, chan_sub: usize)
        requires
            old(self).wf(),
        ensures
            final(self).wf(),
            *final(self) == *old(self),
    {
    }

    /// Volume and panning macros become driver events; others are absorbed.
    pub fn set_macro(
        &mut self,
        channel: usize,
        is_dynamic: bool,
        command: MacroCommand,
        value: i16,
    ) -> (r: Option<ChipEvent>)
        requires
            old(self).wf(),
        ensures
            final(self).wf(),
            *final(self) == *old(self),
            r == match command {
                MacroCommand::Volume => Some(
                    ChipEvent { event_type: 2, value1: value as i32, value2: 0 },
                ),
                MacroCommand::Panning => Some(
                    ChipEvent { event_type: 1, value1: value as i32, value2: 0 },
                ),
                _ => None::<ChipEvent>,
            },
    {
        match command {
            MacroCommand::Volume => Some(ChipEvent::new(2, value as i32, 0)),
            MacroCommand::Panning => Some(ChipEvent::new(1, value as i32, 0)),
            _ => None,
        }
    }

    /// A note-on becomes a tone event carrying the pitch value.
    pub fn note_on(&mut self, channel: usize, note: i32, octave: i32, duration: i32) -> (r: Option<
        ChipEvent,
    >)
        requires
            old(self).wf(),
        ensures
            final(self).wf(),
            *final(self) == *old(self),
            r == Some(ChipEvent { event_type: 3, value1: note, value2: 0 }),
    {
        Some(ChipEvent::new(3, note, 0))
    }

    /// A pitch change is the same tone event.
    pub fn note_change(&mut self, channel: usize, note: i32, octave: i32) -> (r: Option<ChipEvent>)
        requires
            old(self).wf(),
        ensures
            final(self).wf(),
            *final(self) == *old(self),
            r == Some(ChipEvent { event_type: 3, value1: note, value2: 0 }),
    {
        Some(ChipEvent::new(3, note, 0))
    }

    /// A note-off becomes a key-off event.
    pub fn note_off(&mut self, channel: usize, note: i32, octave: i32) -> (r: Option<ChipEvent>)
        requires
            old(self).wf(),
        ensures
            final(self).wf(),
            *final(self) == *old(self),
            r == Some(ChipEvent { event_type: 4, value1: 0, value2: 0 }),
    {
        Some(ChipEvent::new(4, 0, 0))
    }

    /// A rest is a key-off.
    pub fn rest(&mut self, channel: usize, duration: i32) -> (r: Option<ChipEvent>)
        requires
            old(self).wf(),
        ensures
            final(self).wf(),
            *final(self) == *old(self),
            r == Some(ChipEvent { event_type: 4, value1: 0, value2: 0 }),
    {
        Some(ChipEvent::new(4, 0, 0))
    }

    /// A direct write carries the raw byte.
    pub fn direct(&mut self, channel: usize, address: u16, value: u8) -> (r: Option<ChipEvent>)
        requires
            old(self).wf(),
        ensures
            final(self).wf(),
            *final(self) == *old(self),
            r == Some(ChipEvent { event_type: 0, value1: address as i32, value2: 0 }),
    {
        Some(ChipEvent::new(0, address as i32, 0))
    }

    /// Perform the register writes for one event.
    ///
    /// The volume and tone caches suppress writes whose value the chip
    /// already holds; the tone high-bits write is only valid while this
    /// channel holds the latch, so `ltone` tracks the latched channel
    /// and every other command invalidates it.  Requests for a second
    /// chip set the dual flag and never clear it.
    pub fn send(
        &mut self,
        event: &ChipEvent,
        channel: usize,
        chip_sub: usize,
        chan_sub: usize,
        writer: &mut VgmWriter,
    )
        requires
            old(self).wf(),
            old(writer).wf(),
        ensures
            final(self).wf(),
            writer_extended(*old(writer), *final(writer)),
            final(writer).data_view() == old(writer).data_view() + sn_send_bytes(
                *old(self),
                *event,
                chip_sub as int,
                chan_sub as int,
            ),
            final(self).dual == (old(self).dual || sn_chip_of(chip_sub as int, chan_sub as int)
                > 0),
            final(self).clock == old(self).clock,
            (chip_sub > 1 || chan_sub > 5) ==> {
                &&& final(self).vol == old(self).vol
                &&& final(self).tone == old(self).tone
                &&& final(self).noteon == old(self).noteon
                &&& final(writer).data_view() == old(writer).data_view()
            },
            !(chip_sub > 1 || chan_sub > 5) ==> {
                let c = sn_chip_of(chip_sub as int, chan_sub as int);
                let d = sn_chan_of(chip_sub as int, chan_sub as int);
                let slot = c * 4 + d;
                match event.event_type {
                    2u16 => {
                        &&& final(self).vol@ == old(self).vol@.update(slot, event.value1)
                        &&& final(self).tone == old(self).tone
                        &&& final(self).noteon == old(self).noteon
                        &&& (!(old(self).noteon@[slot] && event.value1 != old(self).vol@[slot])
                            ==> final(writer).data_view() == old(writer).data_view())
                    },
                    3u16 => {
                        &&& final(self).tone@ == old(self).tone@.update(
                            slot,
                            event.value1 as i64,
                        )
                        &&& final(self).noteon@ == old(self).noteon@.update(slot, true)
                        &&& final(self).vol == old(self).vol
                    },
                    4u16 => {
                        &&& final(self).noteon@ == old(self).noteon@.update(slot, false)
                        &&& final(self).vol == old(self).vol
                        &&& final(self).tone == old(self).tone
                        &&& (!(old(self).noteon@[slot] && old(self).vol@[slot] > 0)
                            ==> final(writer).data_view() == old(writer).data_view())
                    },
                    _ => true,
                }
            },
    {
        // c: which chip (0 or 1 for dual); d: which channel on it (0-3).
        let c: usize = if chip_sub > 0 {
            if chan_sub >= 1 {
                1
            } else {
                0
            }
        } else {
            if chan_sub >= 3 {
                1
            } else {
                0
            }
        };
        let d: usize = if chip_sub > 0 {
            3
        } else {
            chan_sub % 3
        };

        // Track whether dual-chip mode is used.
        if c > 0 {
            self.dual = true;
        }

        let ghost sb = sn_send_bytes(*old(self), *event, chip_sub as int, chan_sub as int);
        let ghost base = old(writer).data_view();
        proof {
            assert(c as int == sn_chip_of(chip_sub as int, chan_sub as int));
            assert(d as int == sn_chan_of(chip_sub as int, chan_sub as int));
        }

        // Bounds check.
        if chip_sub > 1 || chan_sub > 5 {
            proof {
                assert(writer.data_view() =~= base + sb);
                assert(writer.data_view().subrange(0, old(writer).data_view().len() as int)
                    =~= old(writer).data_view());
            }
            return;
        }

        let slot = c * 4 + d;
        let cmd_byte: u8 = if c > 0 {
            0x30
        } else {
            0x50
        };

        if event.event_type == 0 {
            // Direct write.
            let v1 = byte_wrap(event.value1);
            writer.write2(cmd_byte, v1);
            self.ltone.set(c, -1);
            proof {
                assert(writer.data_view() =~= base + sb);
            }
        } else if event.event_type == 1 {
            // Stereo (Game Gear).
            let mut x: u8 = self.stereo[c];
            x = x & !((0x11u8) << (d as u8));
            if event.value1 <= 0 {
                x = x | (0x10u8 << (d as u8));
            }
            if event.value1 >= 0 {
                x = x | (0x01u8 << (d as u8));
            }
            if x != self.stereo[c] {
                let stereo_cmd: u8 = if c > 0 {
                    0x3F
                } else {
                    0x4F
                };
                let v1 = byte_wrap(event.value1);
                writer.write2(stereo_cmd, v1);
                self.stereo.set(c, x);
                self.ltone.set(c, -1);
            }
            proof {
                assert(writer.data_view() =~= base + sb);
            }
        } else if event.event_type == 2 {
            // Volume.
            let x = event.value1;
            if self.noteon[slot] && x != self.vol[slot] {
                let xv = byte_wrap(x);
                writer.write2(cmd_byte, (0x9F ^ xv) | ((d as u8) << 5));
                self.ltone.set(c, -1);
            }
            self.vol.set(slot, x);
            proof {
                assert(writer.data_view() =~= base + sb);
            }
        } else if event.event_type == 3 {
            // Note on or pitch change.
            let note = event.value1 as i64;

            // If a volume is cached but the note is not yet sounding,
            // send the volume first.
            if self.vol[slot] > 0 && !self.noteon[slot] {
                let vv = byte_wrap(self.vol[slot]);
                writer.write2(cmd_byte, (0x9F ^ vv) | ((d as u8) << 5));
                self.ltone.set(c, -1);
            }
            self.noteon.set(slot, true);

            // Latch the tone if its low nibble changed, or if it changed
            // at all while another channel holds the latch.
            let note_bits = u64_wrap(note);
            let tone_bits = u64_wrap(self.tone[slot]);
            if ((note_bits ^ tone_bits) & 15) != 0 || (note != self.tone[slot] && self.ltone[c]
                != d as i32) {
                let lo_w = note_bits & 0x0F;
                proof {
                    assert(note_bits & 0x0F < 256) by (bit_vector);
                }
                let lo = lo_w as u8;
                writer.write2(cmd_byte, 0x80 | lo | ((d as u8) << 5));
                self.ltone.set(c, d as i32);
            }

            // Send the high bits while this channel holds the latch, for
            // tone channels only.
            if self.ltone[c] == d as i32 && chip_sub == 0 {
                let hi_q = note_bits / 16;
                let hi_w = hi_q & 0x3F;
                proof {
                    assert(hi_q & 0x3F < 256) by (bit_vector);
                }
                let hi = hi_w as u8;
                writer.write2(cmd_byte, hi);
            }

            self.tone.set(slot, note);
            proof {
                assert(writer.data_view() =~= base + sb);
            }
        } else if event.event_type == 4 {
            // Note off.
            if self.noteon[slot] && self.vol[slot] > 0 {
                writer.write2(cmd_byte, 0x9F | ((d as u8) << 5));
                self.ltone.set(c, -1);
            }
            self.noteon.set(slot, false);
            proof {
                assert(writer.data_view() =~= base + sb);
            }
        } else {
            proof {
                assert(writer.data_view() =~= base + sb);
            }
        }
        proof {
            assert(writer.data_view().subrange(0, old(writer).data_view().len() as int)
                =~= old(writer).data_view());
        }
    }
}

impl Default for Sn76489 {
    /// A fresh driver with every cache unknown.
    fn default() -> (r: Sn76489)
        ensures
            r.wf(),
    {
        Sn76489::new()
    }
}

} // verus!
