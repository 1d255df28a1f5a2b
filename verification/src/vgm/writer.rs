//! VGM writer: assembles the header and data section in memory.
//!
//! The writer owns the 192-byte header shadow and an append-only data
//! buffer.  `finalize` writes the end marker, appends the GD3 block and
//! fixes up the offset fields; `file_bytes` then yields the whole image.

use vstd::prelude::*;
use super::delay;
use super::gd3;
use super::header;
use super::header::VgmHeader;
use crate::compiler::Gd3Metadata;

verus! {

/// VGM file writer over an in-memory image.
#[derive(Debug)]
pub struct VgmWriter {
    header: VgmHeader,
    /// Data section bytes (everything after the 192-byte header).
    data: Vec<u8>,
    /// Absolute file position where the loop starts, if one was marked.
    loop_offset: Option<u64>,
}

impl VgmWriter {
    /// The header bytes as they stand.
    pub closed spec fn header_view(&self) -> Seq<u8> {
        self.header@
    }

    /// The data section bytes as they stand.
    pub closed spec fn data_view(&self) -> Seq<u8> {
        self.data@
    }

    /// The marked loop position, if any.
    pub closed spec fn loop_view(&self) -> Option<u64> {
        self.loop_offset
    }

    /// The full file image: header, then data section.
    pub open spec fn file_view(&self) -> Seq<u8> {
        self.header_view() + self.data_view()
    }

    /// Well-formed: full-size header, and any marked loop position lies
    /// inside the file written so far.
    pub open spec fn wf(&self) -> bool {
        &&& self.header_view().len() == header::VGM_HEADER_SIZE
        &&& match self.loop_view() {
            Some(p) => header::VGM_HEADER_SIZE <= p <= self.file_view().len(),
            None => true,
        }
    }

    /// A fresh writer: initial header, empty data section, no loop mark.
    pub fn new() -> (r: VgmWriter)
        ensures
            r.wf(),
            r.data_view().len() == 0,
            r.loop_view() is None,
            r.header_view().subrange(0, 4) == header::vgm_magic(),
            header::le32(r.header_view(), header::VERSION as int) == header::VGM_VERSION,
            header::le32(r.header_view(), header::DATA_OFFSET as int) == header::VGM_HEADER_SIZE
                - 0x34,
    {
        VgmWriter { header: VgmHeader::new(), data: Vec::new(), loop_offset: None }
    }

    /// Whether the current position fits the position counter.
    pub fn position_fits(&self) -> (r: bool)
        ensures
            r == (self.data_view().len() + header::VGM_HEADER_SIZE <= u64::MAX),
    {
        self.data.len() as u64 <= u64::MAX - 192u64
    }

    /// Current absolute file position (header size plus data written).
    pub fn position(&self) -> (r: u64)
        requires
            self.wf(),
            self.data_view().len() + header::VGM_HEADER_SIZE <= u64::MAX,
        ensures
            r == self.file_view().len(),
    {
        header::VGM_HEADER_SIZE as u64 + self.data.len() as u64
    }

    /// Write a 32-bit value into the header at `offset`.
    pub fn set_chip_clock(&mut self, offset: usize, clock: u32)
        requires
            old(self).wf(),
        ensures
            final(self).wf(),
            final(self).data_view() == old(self).data_view(),
            final(self).loop_view() == old(self).loop_view(),
            offset + 3 < header::VGM_HEADER_SIZE ==> {
                &&& header::le32(final(self).header_view(), offset as int) == clock
                &&& forall|i: int| 0 <= i < header::VGM_HEADER_SIZE && !(offset <= i < offset + 4)
                    ==> final(self).header_view()[i] == old(self).header_view()[i]
            },
            !(offset + 3 < header::VGM_HEADER_SIZE) ==> final(self).header_view() == old(
                self,
            ).header_view(),
    {
        self.header.write_u32(offset, clock);
    }

    /// Write one byte into the header at `offset`.
    pub fn set_header_u8(&mut self, offset: usize, value: u8)
        requires
            old(self).wf(),
        ensures
            final(self).wf(),
            final(self).data_view() == old(self).data_view(),
            final(self).loop_view() == old(self).loop_view(),
            offset < header::VGM_HEADER_SIZE ==> final(self).header_view() == old(
                self,
            ).header_view().update(offset as int, value),
            offset >= header::VGM_HEADER_SIZE ==> final(self).header_view() == old(
                self,
            ).header_view(),
    {
        self.header.write_u8(offset, value);
    }

    /// Set the total-samples header field.
    pub fn set_total_samples(&mut self, samples: u32)
        requires
            old(self).wf(),
        ensures
            final(self).wf(),
            final(self).data_view() == old(self).data_view(),
            final(self).loop_view() == old(self).loop_view(),
            header::le32(final(self).header_view(), header::TOTAL_SAMPLES as int) == samples,
            forall|i: int| 0 <= i < header::VGM_HEADER_SIZE
                && !(header::TOTAL_SAMPLES <= i < header::TOTAL_SAMPLES + 4)
                ==> final(self).header_view()[i] == old(self).header_view()[i],
    {
        self.header.write_u32(header::TOTAL_SAMPLES, samples);
    }

    /// Set the loop-samples header field.
    pub fn set_loop_samples(&mut self, samples: u32)
        requires
            old(self).wf(),
        ensures
            final(self).wf(),
            final(self).data_view() == old(self).data_view(),
            final(self).loop_view() == old(self).loop_view(),
            header::le32(final(self).header_view(), header::LOOP_SAMPLES as int) == samples,
            forall|i: int| 0 <= i < header::VGM_HEADER_SIZE
                && !(header::LOOP_SAMPLES <= i < header::LOOP_SAMPLES + 4)
                ==> final(self).header_view()[i] == old(self).header_view()[i],
    {
        self.header.write_u32(header::LOOP_SAMPLES, samples);
    }

    /// Set the recording-rate header field.
    pub fn set_rate(&mut self, rate: u32)
        requires
            old(self).wf(),
        ensures
            final(self).wf(),
            final(self).data_view() == old(self).data_view(),
            final(self).loop_view() == old(self).loop_view(),
            header::le32(final(self).header_view(), header::RATE as int) == rate,
            forall|i: int| 0 <= i < header::VGM_HEADER_SIZE
                && !(header::RATE <= i < header::RATE + 4)
                ==> final(self).header_view()[i] == old(self).header_view()[i],
    {
        self.header.write_u32(header::RATE, rate);
    }

    /// Set the volume-modifier header field.
    pub fn set_volume_modifier(&mut self, vol: i8)
        requires
            old(self).wf(),
        ensures
            final(self).wf(),
            final(self).data_view() == old(self).data_view(),
            final(self).loop_view() == old(self).loop_view(),
            final(self).header_view() == old(self).header_view().update(
                header::VOLUME_MODIFIER as int,
                (vol as u8),
            ),
    {
        self.header.write_i8(header::VOLUME_MODIFIER, vol);
    }

    /// Set the loop-base header field.
    pub fn set_loop_base(&mut self, base: i8)
        requires
            old(self).wf(),
        ensures
            final(self).wf(),
            final(self).data_view() == old(self).data_view(),
            final(self).loop_view() == old(self).loop_view(),
            final(self).header_view() == old(self).header_view().update(
                header::LOOP_BASE as int,
                (base as u8),
            ),
    {
        self.header.write_i8(header::LOOP_BASE, base);
    }

    /// Set the loop-modifier header field.
    pub fn set_loop_modifier(&mut self, modifier: u8)
        requires
            old(self).wf(),
        ensures
            final(self).wf(),
            final(self).data_view() == old(self).data_view(),
            final(self).loop_view() == old(self).loop_view(),
            final(self).header_view() == old(self).header_view().update(
                header::LOOP_MODIFIER as int,
                modifier,
            ),
    {
        self.header.write_u8(header::LOOP_MODIFIER, modifier);
    }

    /// Record the current position as the loop start.
    pub fn mark_loop_start(&mut self)
        requires
            old(self).wf(),
            old(self).data_view().len() + header::VGM_HEADER_SIZE <= u64::MAX,
        ensures
            final(self).wf(),
            final(self).data_view() == old(self).data_view(),
            final(self).header_view() == old(self).header_view(),
            final(self).loop_view() == Some((old(self).file_view().len()) as u64),
    {
        self.loop_offset = Some(header::VGM_HEADER_SIZE as u64 + self.data.len() as u64);
    }

    /// Append raw bytes to the data section.
    pub fn write_data(&mut self, bytes: &Vec<u8>)
        requires
            old(self).wf(),
        ensures
            final(self).wf(),
            final(self).data_view() == old(self).data_view() + bytes@,
            final(self).header_view() == old(self).header_view(),
            final(self).loop_view() == old(self).loop_view(),
    {
        let mut i: usize = 0;
        while i < bytes.len()
            invariant
                old(self).wf(),
                i <= bytes.len(),
                self.data@ == old(self).data@ + bytes@.take(i as int),
                self.header == old(self).header,
                self.loop_offset == old(self).loop_offset,
            decreases bytes.len() - i,
        {
            self.data.push(bytes[i]);
            proof {
                assert(old(self).data@ + bytes@.take(i + 1) =~= (old(self).data@ + bytes@.take(
                    i as int,
                )).push(bytes@[i as int]));
            }
            i = i + 1;
        }
        proof {
            assert(bytes@.take(bytes@.len() as int) =~= bytes@);
        }
    }


    /// Append two command bytes to the data section.
    pub fn write2(&mut self, a: u8, b: u8)
        requires
            old(self).wf(),
        ensures
            final(self).wf(),
            final(self).data_view() == old(self).data_view() + seq![a, b],
            final(self).header_view() == old(self).header_view(),
            final(self).loop_view() == old(self).loop_view(),
    {
        self.data.push(a);
        self.data.push(b);
        proof {
            assert(self.data@ =~= old(self).data@ + seq![a, b]);
        }
    }

    /// Append three command bytes to the data section.
    pub fn write3(&mut self, a: u8, b: u8, c: u8)
        requires
            old(self).wf(),
        ensures
            final(self).wf(),
            final(self).data_view() == old(self).data_view() + seq![a, b, c],
            final(self).header_view() == old(self).header_view(),
            final(self).loop_view() == old(self).loop_view(),
    {
        self.data.push(a);
        self.data.push(b);
        self.data.push(c);
        proof {
            assert(self.data@ =~= old(self).data@ + seq![a, b, c]);
        }
    }

    /// Append four command bytes to the data section.
    pub fn write4(&mut self, a: u8, b: u8, c: u8, d: u8)
        requires
            old(self).wf(),
        ensures
            final(self).wf(),
            final(self).data_view() == old(self).data_view() + seq![a, b, c, d],
            final(self).header_view() == old(self).header_view(),
            final(self).loop_view() == old(self).loop_view(),
    {
        self.data.push(a);
        self.data.push(b);
        self.data.push(c);
        self.data.push(d);
        proof {
            assert(self.data@ =~= old(self).data@ + seq![a, b, c, d]);
        }
    }

    /// Append a single command byte to the data section.
    pub fn write_byte(&mut self, byte: u8)
        requires
            old(self).wf(),
        ensures
            final(self).wf(),
            final(self).data_view() == old(self).data_view().push(byte),
            final(self).header_view() == old(self).header_view(),
            final(self).loop_view() == old(self).loop_view(),
    {
        self.data.push(byte);
    }

    /// Append the delay commands that wait exactly `samples` samples.
    pub fn write_delay(&mut self, samples: u64)
        requires
            old(self).wf(),
        ensures
            final(self).wf(),
            final(self).data_view() == old(self).data_view() + delay::delay_encoding(
                samples as nat,
            ),
            final(self).header_view() == old(self).header_view(),
            final(self).loop_view() == old(self).loop_view(),
    {
        let commands = delay::generate_delay(samples);
        self.write_data(&commands);
    }

    /// Append the end-of-data marker.
    pub fn write_end(&mut self)
        requires
            old(self).wf(),
        ensures
            final(self).wf(),
            final(self).data_view() == old(self).data_view().push(delay::END),
            final(self).header_view() == old(self).header_view(),
            final(self).loop_view() == old(self).loop_view(),
    {
        self.write_byte(delay::END);
    }

    /// Write the end marker and the GD3 block, then fix up the offset
    /// fields: end-of-file (relative to 0x04), GD3 (relative to 0x14) and
    /// loop (relative to 0x1C).
    pub fn finalize(&mut self, metadata: &Gd3Metadata)
        requires
            old(self).wf(),
        ensures
            final(self).wf(),
            final(self).loop_view() == old(self).loop_view(),
            final(self).data_view() == old(self).data_view().push(delay::END) + gd3::gd3_block(
                metadata,
            ),
            final(self).file_view().len() < 0x100000000 ==> {
                &&& header::le32(final(self).header_view(), header::EOF_OFFSET as int) + 4
                    == final(self).file_view().len()
                &&& header::le32(final(self).header_view(), header::GD3_OFFSET as int) + 0x14
                    == old(self).file_view().len() + 1
                &&& match old(self).loop_view() {
                    Some(p) => header::le32(final(self).header_view(), header::LOOP_OFFSET as int)
                        + 0x1C == p,
                    None => header::le32(final(self).header_view(), header::LOOP_OFFSET as int)
                        == header::le32(old(self).header_view(), header::LOOP_OFFSET as int),
                }
            },
            forall|i: int| 0 <= i < header::VGM_HEADER_SIZE
                && !(header::EOF_OFFSET <= i < header::EOF_OFFSET + 4)
                && !(header::GD3_OFFSET <= i < header::GD3_OFFSET + 4)
                && !(header::LOOP_OFFSET <= i < header::LOOP_OFFSET + 4)
                ==> final(self).header_view()[i] == old(self).header_view()[i],
    {
        self.write_end();

        // The GD3 block begins right after the end marker.
        let gd3_offset_abs: u64 = if self.data.len() as u64 <= u64::MAX - 192u64 {
            192u64 + self.data.len() as u64
        } else {
            u64::MAX
        };

        let gd3_data = gd3::generate_gd3(metadata);
        self.write_data(&gd3_data);
        #[verifier::truncate]
        let gd3_rel = (gd3_offset_abs - 0x14) as u32;
        self.header.write_u32(header::GD3_OFFSET, gd3_rel);

        // End-of-file offset, relative to 0x04.
        let eof_abs: u64 = if self.data.len() as u64 <= u64::MAX - 192u64 {
            192u64 + self.data.len() as u64
        } else {
            u64::MAX
        };
        #[verifier::truncate]
        let eof_rel = (eof_abs - 0x04) as u32;
        self.header.write_u32(header::EOF_OFFSET, eof_rel);

        // Loop offset, relative to 0x1C, if a loop point was marked.
        match self.loop_offset {
            Some(loop_pos) => {
                #[verifier::truncate]
                let loop_rel = (loop_pos - 0x1C) as u32;
                self.header.write_u32(header::LOOP_OFFSET, loop_rel);
                proof {
                    if self.file_view().len() < 0x100000000 {
                        assert(loop_pos - 0x1C < 0x100000000);
                        assert(loop_rel == loop_pos - 0x1C);
                    }
                }
            },
            None => {},
        }
        proof {
            if self.file_view().len() < 0x100000000 {
                assert(eof_abs == self.file_view().len());
                assert(eof_rel == eof_abs - 0x04);
                assert(gd3_offset_abs == old(self).file_view().len() + 1);
                assert(gd3_rel == gd3_offset_abs - 0x14);
                assert(header::le32(self.header_view(), header::EOF_OFFSET as int) == eof_rel);
                assert(header::le32(self.header_view(), header::GD3_OFFSET as int) == gd3_rel);
            }
        }
    }

    /// The complete file image: header bytes, then data section bytes.
    pub fn file_bytes(&self) -> (r: Vec<u8>)
        requires
            self.wf(),
        ensures
            r@ == self.file_view(),
    {
        let mut out: Vec<u8> = Vec::new();
        let hb = self.header.as_bytes();
        let mut i: usize = 0;
        while i < hb.len()
            invariant
                hb@ == self.header_view(),
                i <= hb.len(),
                out@ == self.header_view().take(i as int),
            decreases hb.len() - i,
        {
            out.push(hb[i]);
            proof {
                assert(self.header_view().take(i + 1) =~= self.header_view().take(i as int).push(
                    hb@[i as int],
                ));
            }
            i = i + 1;
        }
        proof {
            assert(self.header_view().take(self.header_view().len() as int) =~= self.header_view());
        }
        let mut j: usize = 0;
        while j < self.data.len()
            invariant
                j <= self.data@.len(),
                out@ == self.header_view() + self.data_view().take(j as int),
            decreases self.data@.len() - j,
        {
            out.push(self.data[j]);
            proof {
                assert(self.header_view() + self.data_view().take(j + 1) =~= (self.header_view()
                    + self.data_view().take(j as int)).push(self.data@[j as int]));
            }
            j = j + 1;
        }
        proof {
            assert(self.data_view().take(self.data_view().len() as int) =~= self.data_view());
        }
        out
    }
}

} // verus!
