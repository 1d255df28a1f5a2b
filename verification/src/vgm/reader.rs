//! VGM file reader and parser.

use vstd::prelude::*;
use vstd::string::StringExecFns;
use super::commands::{command_size, spec_command_size, VgmCommand};
use super::gd3::{utf16_decode};
use super::header::{le16, le32, vgm_magic};
use super::header;
use crate::error::Error;
use crate::text::chars_to_string;

verus! {

/// Parsed VGM header information.
#[derive(Debug)]
pub struct VgmHeader {
    pub version: u32,
    pub eof_offset: u32,
    pub total_samples: u32,
    pub loop_offset: u32,
    pub loop_samples: u32,
    pub rate: u32,
    pub data_offset: u32,
    pub gd3_offset: u32,
    pub volume_modifier: i8,
    pub loop_base: i8,
    pub loop_modifier: u8,
    pub chips: Vec<(String, ChipInfo)>,
}

/// Information about a chip named in the VGM header.
#[derive(Debug, Clone)]
pub struct ChipInfo {
    pub clock: u32,
    pub dual: bool,
    pub extra: Vec<(String, u32)>,
}

/// Parsed GD3 metadata.
#[derive(Debug, Clone)]
pub struct Gd3Info {
    pub title: String,
    pub title_jp: String,
    pub game: String,
    pub game_jp: String,
    pub system: String,
    pub system_jp: String,
    pub composer: String,
    pub composer_jp: String,
    pub date: String,
    pub converter: String,
    pub notes: String,
}

/// Bytes consumed by reading one null-terminated UTF-16LE string: pairs up
/// to and including the terminator, with surrogate pairs taking four bytes
/// and a truncated tail ending the read.
pub open spec fn utf16_consumed(b: Seq<u8>) -> int
    decreases b.len(),
{
    if b.len() < 2 {
        0
    } else {
        let u = b[0] + 0x100 * b[1];
        if u == 0 {
            2
        } else if 0xD800 <= u && u <= 0xDBFF {
            if b.len() >= 4 {
                4 + utf16_consumed(b.skip(4))
            } else {
                2
            }
        } else {
            2 + utf16_consumed(b.skip(2))
        }
    }
}

/// A UTF-16 string read never consumes more bytes than there are.
pub proof fn lemma_utf16_consumed_bounds(b: Seq<u8>)
    ensures
        0 <= utf16_consumed(b) <= b.len(),
    decreases b.len(),
{
    if b.len() >= 2 {
        let u = b[0] + 0x100 * b[1];
        if u == 0 {
        } else if 0xD800 <= u && u <= 0xDBFF {
            if b.len() >= 4 {
                lemma_utf16_consumed_bounds(b.skip(4));
            }
        } else {
            lemma_utf16_consumed_bounds(b.skip(2));
        }
    }
}

/// Where the `k`-th (0-based) GD3 string begins, for strings laid out one
/// after another starting at `base`.
pub open spec fn gd3_field_start(b: Seq<u8>, base: int, k: nat) -> int
    decreases k,
{
    if k == 0 {
        base
    } else {
        let p = gd3_field_start(b, base, (k - 1) as nat);
        p + utf16_consumed(b.skip(p))
    }
}

/// One step of VGM command parsing: the command encoded at `pos` and the
/// position just after it, or `None` when the data ends inside a command.
pub open spec fn spec_parse_command(b: Seq<u8>, pos: int) -> Option<(VgmCommand, int)> {
    let op = b[pos];
    let len = b.len() as int;
    if op == 0x4F {
        if pos + 2 <= len { Some((VgmCommand::GgStereo { data: b[pos + 1] }, pos + 2)) } else { None }
    } else if op == 0x50 {
        if pos + 2 <= len { Some((VgmCommand::Sn76489Write { data: b[pos + 1] }, pos + 2)) } else { None }
    } else if op == 0x51 {
        if pos + 3 <= len { Some((VgmCommand::Ym2413Write { reg: b[pos + 1], data: b[pos + 2] }, pos + 3)) } else { None }
    } else if op == 0x52 {
        if pos + 3 <= len { Some((VgmCommand::Ym2612Write { port: 0, reg: b[pos + 1], data: b[pos + 2] }, pos + 3)) } else { None }
    } else if op == 0x53 {
        if pos + 3 <= len { Some((VgmCommand::Ym2612Write { port: 1, reg: b[pos + 1], data: b[pos + 2] }, pos + 3)) } else { None }
    } else if op == 0x54 {
        if pos + 3 <= len { Some((VgmCommand::Ym2151Write { reg: b[pos + 1], data: b[pos + 2] }, pos + 3)) } else { None }
    } else if op == 0x55 {
        if pos + 3 <= len { Some((VgmCommand::Ym2203Write { reg: b[pos + 1], data: b[pos + 2] }, pos + 3)) } else { None }
    } else if op == 0x56 {
        if pos + 3 <= len { Some((VgmCommand::Ym2608Write { port: 0, reg: b[pos + 1], data: b[pos + 2] }, pos + 3)) } else { None }
    } else if op == 0x57 {
        if pos + 3 <= len { Some((VgmCommand::Ym2608Write { port: 1, reg: b[pos + 1], data: b[pos + 2] }, pos + 3)) } else { None }
    } else if op == 0x58 {
        if pos + 3 <= len { Some((VgmCommand::Ym2610Write { port: 0, reg: b[pos + 1], data: b[pos + 2] }, pos + 3)) } else { None }
    } else if op == 0x59 {
        if pos + 3 <= len { Some((VgmCommand::Ym2610Write { port: 1, reg: b[pos + 1], data: b[pos + 2] }, pos + 3)) } else { None }
    } else if op == 0x5A {
        if pos + 3 <= len { Some((VgmCommand::Ym3812Write { reg: b[pos + 1], data: b[pos + 2] }, pos + 3)) } else { None }
    } else if op == 0x5B {
        if pos + 3 <= len { Some((VgmCommand::Ym3526Write { reg: b[pos + 1], data: b[pos + 2] }, pos + 3)) } else { None }
    } else if op == 0x5C {
        if pos + 3 <= len { Some((VgmCommand::Y8950Write { reg: b[pos + 1], data: b[pos + 2] }, pos + 3)) } else { None }
    } else if op == 0x5D {
        if pos + 3 <= len { Some((VgmCommand::Ymz280bWrite { reg: b[pos + 1], data: b[pos + 2] }, pos + 3)) } else { None }
    } else if op == 0x5E {
        if pos + 3 <= len { Some((VgmCommand::Ymf262Write { port: 0, reg: b[pos + 1], data: b[pos + 2] }, pos + 3)) } else { None }
    } else if op == 0x5F {
        if pos + 3 <= len { Some((VgmCommand::Ymf262Write { port: 1, reg: b[pos + 1], data: b[pos + 2] }, pos + 3)) } else { None }
    } else if op == 0x61 {
        if pos + 3 <= len { Some((VgmCommand::Wait { samples: le16(b, pos + 1) as u32 }, pos + 3)) } else { None }
    } else if op == 0x62 {
        Some((VgmCommand::Wait { samples: 735 }, pos + 1))
    } else if op == 0x63 {
        Some((VgmCommand::Wait { samples: 882 }, pos + 1))
    } else if op == 0x66 {
        Some((VgmCommand::End, pos + 1))
    } else if op == 0x67 {
        if pos + 7 <= len {
            let size = le32(b, pos + 3);
            let skip = size % 0x80000000;
            let after = if pos + 7 + skip <= len { pos + 7 + skip } else { pos + 7 };
            Some((VgmCommand::DataBlock { block_type: b[pos + 2], size: Some(size as u32) }, after))
        } else {
            None
        }
    } else if op == 0x68 {
        if pos + 12 <= len {
            Some((
                VgmCommand::PcmRamWrite {
                    chip_type: b[pos + 2],
                    read_offset: (b[pos + 3] + 0x100 * b[pos + 4] + 0x10000 * b[pos + 5]) as u32,
                    write_offset: (b[pos + 6] + 0x100 * b[pos + 7] + 0x10000 * b[pos + 8]) as u32,
                    size: (b[pos + 9] + 0x100 * b[pos + 10] + 0x10000 * b[pos + 11]) as u32,
                },
                pos + 12,
            ))
        } else {
            None
        }
    } else if 0x70 <= op && op <= 0x7F {
        Some((VgmCommand::Wait { samples: (op - 0x70 + 1) as u32 }, pos + 1))
    } else if 0x80 <= op && op <= 0x8F {
        Some((VgmCommand::Ym2612Dac { data: 0x2A, wait: (op - 0x80) as u8 }, pos + 1))
    } else if op == 0x90 {
        if pos + 5 <= len { Some((VgmCommand::DacStreamSetup { stream_id: b[pos + 1], chip_type: b[pos + 2], port: b[pos + 3], reg: b[pos + 4] }, pos + 5)) } else { None }
    } else if op == 0x91 {
        if pos + 5 <= len { Some((VgmCommand::DacStreamData { stream_id: b[pos + 1], bank_id: b[pos + 2], step_base: b[pos + 3], step_size: b[pos + 4] }, pos + 5)) } else { None }
    } else if op == 0x92 {
        if pos + 6 <= len { Some((VgmCommand::DacStreamFreq { stream_id: b[pos + 1], frequency: le32(b, pos + 2) as u32 }, pos + 6)) } else { None }
    } else if op == 0x93 {
        if pos + 11 <= len {
            Some((
                VgmCommand::DacStreamStart {
                    stream_id: b[pos + 1],
                    data_start: le32(b, pos + 2) as u32,
                    length_mode: b[pos + 6],
                    data_length: le32(b, pos + 7) as u32,
                },
                pos + 11,
            ))
        } else {
            None
        }
    } else if op == 0x94 {
        if pos + 2 <= len { Some((VgmCommand::DacStreamStop { stream_id: b[pos + 1] }, pos + 2)) } else { None }
    } else if op == 0x95 {
        if pos + 5 <= len { Some((VgmCommand::DacStreamFast { stream_id: b[pos + 1], block_id: le16(b, pos + 2) as u16, flags: b[pos + 4] }, pos + 5)) } else { None }
    } else if op == 0xA0 {
        if pos + 3 <= len { Some((VgmCommand::Ay8910Write { reg: b[pos + 1], data: b[pos + 2] }, pos + 3)) } else { None }
    } else if op == 0xB0 {
        if pos + 3 <= len { Some((VgmCommand::Rf5c68Write { reg: b[pos + 1], data: b[pos + 2] }, pos + 3)) } else { None }
    } else if op == 0xB1 {
        if pos + 3 <= len { Some((VgmCommand::Rf5c164Write { reg: b[pos + 1], data: b[pos + 2] }, pos + 3)) } else { None }
    } else if op == 0xB2 {
        if pos + 3 <= len {
            Some((
                VgmCommand::PwmWrite {
                    reg: (b[pos + 1] % 0x10) as u8,
                    data: (0x10 * (b[pos + 1] / 0x10) * 0x10 + b[pos + 2]) as u16,
                },
                pos + 3,
            ))
        } else {
            None
        }
    } else if op == 0xB3 {
        if pos + 3 <= len { Some((VgmCommand::GbDmgWrite { reg: b[pos + 1], data: b[pos + 2] }, pos + 3)) } else { None }
    } else if op == 0xB4 {
        if pos + 3 <= len { Some((VgmCommand::NesApuWrite { reg: b[pos + 1], data: b[pos + 2] }, pos + 3)) } else { None }
    } else if op == 0xB5 {
        if pos + 3 <= len { Some((VgmCommand::MultiPcmWrite { reg: b[pos + 1], data: b[pos + 2] }, pos + 3)) } else { None }
    } else if op == 0xB6 {
        if pos + 3 <= len { Some((VgmCommand::Upd7759Write { reg: b[pos + 1], data: b[pos + 2] }, pos + 3)) } else { None }
    } else if op == 0xB7 {
        if pos + 3 <= len { Some((VgmCommand::Okim6258Write { reg: b[pos + 1], data: b[pos + 2] }, pos + 3)) } else { None }
    } else if op == 0xB8 {
        if pos + 3 <= len { Some((VgmCommand::Okim6295Write { reg: b[pos + 1], data: b[pos + 2] }, pos + 3)) } else { None }
    } else if op == 0xB9 {
        if pos + 3 <= len { Some((VgmCommand::Huc6280Write { reg: b[pos + 1], data: b[pos + 2] }, pos + 3)) } else { None }
    } else if op == 0xBA {
        if pos + 3 <= len { Some((VgmCommand::K053260Write { reg: b[pos + 1], data: b[pos + 2] }, pos + 3)) } else { None }
    } else if op == 0xBB {
        if pos + 3 <= len { Some((VgmCommand::PokeyWrite { reg: b[pos + 1], data: b[pos + 2] }, pos + 3)) } else { None }
    } else if op == 0xBC {
        if pos + 3 <= len { Some((VgmCommand::WonderSwanWrite { reg: b[pos + 1], data: b[pos + 2] }, pos + 3)) } else { None }
    } else if op == 0xBD {
        if pos + 3 <= len { Some((VgmCommand::Saa1099Write { reg: b[pos + 1], data: b[pos + 2] }, pos + 3)) } else { None }
    } else if op == 0xBE {
        if pos + 3 <= len { Some((VgmCommand::Es5503Write { reg: b[pos + 1], data: b[pos + 2] }, pos + 3)) } else { None }
    } else if op == 0xBF {
        if pos + 3 <= len { Some((VgmCommand::Ga20Write { reg: b[pos + 1], data: b[pos + 2] }, pos + 3)) } else { None }
    } else if op == 0xC0 {
        if pos + 4 <= len { Some((VgmCommand::Unknown { opcode: op, bytes: arbitrary() }, pos + 4)) } else { None }
    } else if op == 0xC1 {
        if pos + 4 <= len { Some((VgmCommand::Rf5c68Write { reg: b[pos + 1], data: b[pos + 2] }, pos + 4)) } else { None }
    } else if op == 0xC2 {
        if pos + 4 <= len { Some((VgmCommand::Rf5c164Write { reg: b[pos + 1], data: b[pos + 2] }, pos + 4)) } else { None }
    } else if op == 0xC3 {
        if pos + 4 <= len { Some((VgmCommand::MultiPcmWrite { reg: b[pos + 1], data: b[pos + 2] }, pos + 4)) } else { None }
    } else if op == 0xC4 {
        if pos + 4 <= len { Some((VgmCommand::QsoundWrite { reg: b[pos + 1], data: (0x100 * b[pos + 2] + b[pos + 3]) as u16 }, pos + 4)) } else { None }
    } else if op == 0xC5 {
        if pos + 4 <= len { Some((VgmCommand::ScspWrite { reg: (0x100 * b[pos + 2] + b[pos + 1]) as u16, data: b[pos + 3] }, pos + 4)) } else { None }
    } else if op == 0xC6 {
        if pos + 4 <= len { Some((VgmCommand::WonderSwanWrite { reg: b[pos + 1], data: b[pos + 2] }, pos + 4)) } else { None }
    } else if op == 0xC7 {
        if pos + 4 <= len { Some((VgmCommand::VsuWrite { reg: b[pos + 1], data: b[pos + 2] }, pos + 4)) } else { None }
    } else if op == 0xC8 {
        if pos + 4 <= len { Some((VgmCommand::X1010Write { reg: (0x100 * b[pos + 2] + b[pos + 1]) as u16, data: b[pos + 3] }, pos + 4)) } else { None }
    } else if op == 0xD0 {
        if pos + 4 <= len { Some((VgmCommand::Ymf278Write { port: b[pos + 1], reg: b[pos + 2], data: b[pos + 3] }, pos + 4)) } else { None }
    } else if op == 0xD1 {
        if pos + 4 <= len { Some((VgmCommand::Ymf271Write { port: b[pos + 1], reg: b[pos + 2], data: b[pos + 3] }, pos + 4)) } else { None }
    } else if op == 0xD2 {
        if pos + 4 <= len { Some((VgmCommand::K051649Write { reg: b[pos + 1], data: b[pos + 2] }, pos + 4)) } else { None }
    } else if op == 0xD3 {
        if pos + 4 <= len { Some((VgmCommand::K054539Write { reg: (0x100 * b[pos + 2] + b[pos + 1]) as u16, data: b[pos + 3] }, pos + 4)) } else { None }
    } else if op == 0xD4 {
        if pos + 4 <= len { Some((VgmCommand::C140Write { reg: (0x100 * b[pos + 2] + b[pos + 1]) as u16, data: b[pos + 3] }, pos + 4)) } else { None }
    } else if op == 0xD5 {
        if pos + 4 <= len { Some((VgmCommand::Es5506Write { reg: b[pos + 1], data: (0x100 * b[pos + 3] + b[pos + 2]) as u16 }, pos + 4)) } else { None }
    } else if op == 0xD6 {
        if pos + 4 <= len { Some((VgmCommand::Es5506Write { reg: b[pos + 1], data: (0x100 * b[pos + 2] + b[pos + 3]) as u16 }, pos + 4)) } else { None }
    } else if op == 0xE0 {
        if pos + 5 <= len { Some((VgmCommand::SeekPcm { offset: le32(b, pos + 1) as u32 }, pos + 5)) } else { None }
    } else if op == 0xE1 {
        if pos + 5 <= len {
            Some((
                VgmCommand::C352Write {
                    reg: (0x100 * b[pos + 2] + b[pos + 1]) as u16,
                    data: (0x100 * b[pos + 4] + b[pos + 3]) as u16,
                },
                pos + 5,
            ))
        } else {
            None
        }
    } else {
        let size = spec_command_size(op) as int;
        if pos + 1 + size <= len {
            Some((VgmCommand::Unknown { opcode: op, bytes: arbitrary() }, pos + 1 + size))
        } else {
            None
        }
    }
}

/// The whole command stream from `pos` on: commands up to and including
/// the end marker, or to the end of data; `None` when a command is cut off.
pub open spec fn spec_parse_commands(b: Seq<u8>, pos: int) -> Option<Seq<VgmCommand>>
    decreases b.len() - pos,
    when 0 <= pos <= b.len()
{
    if pos >= b.len() {
        Some(Seq::empty())
    } else {
        match spec_parse_command(b, pos) {
            None => None,
            Some((cmd, next)) => {
                if cmd is End {
                    Some(seq![cmd])
                } else if pos < next <= b.len() {
                    match spec_parse_commands(b, next) {
                        None => None,
                        Some(rest) => Some(seq![cmd] + rest),
                    }
                } else {
                    None
                }
            },
        }
    }
}

/// VGM file reader.
pub struct VgmReader<'a> {
    data: &'a [u8],
    pos: usize,
}

impl<'a> VgmReader<'a> {
    /// The bytes being read.
    pub closed spec fn data_view(&self) -> Seq<u8> {
        self.data@
    }

    /// The current read position.
    pub closed spec fn pos_view(&self) -> int {
        self.pos as int
    }

    /// Create a new reader over raw VGM data.
    pub fn new(data: &'a [u8]) -> (r: VgmReader<'a>)
        ensures
            r.data_view() == data@,
            r.pos_view() == 0,
    {
        VgmReader { data, pos: 0 }
    }

    /// Check if the position has reached the end of the data.
    pub fn is_eof(&self) -> (r: bool)
        ensures
            r == (self.pos_view() >= self.data_view().len()),
    {
        self.pos >= self.data.len()
    }

    /// Get the current position.
    pub fn position(&self) -> (r: usize)
        ensures
            r == self.pos_view(),
    {
        self.pos
    }

    /// Seek to a position.
    pub fn seek(&mut self, pos: usize)
        ensures
            final(self).data_view() == old(self).data_view(),
            final(self).pos_view() == pos,
    {
        self.pos = pos;
    }

    /// Read a single byte, advancing the position.
    pub fn read_u8(&mut self) -> (r: Result<u8, Error>)
        ensures
            final(self).data_view() == old(self).data_view(),
            old(self).pos_view() < old(self).data_view().len() ==> {
                &&& r is Ok
                &&& r->Ok_0 == old(self).data_view()[old(self).pos_view()]
                &&& final(self).pos_view() == old(self).pos_view() + 1
            },
            old(self).pos_view() >= old(self).data_view().len() ==> {
                &&& r is Err
                &&& final(self).pos_view() == old(self).pos_view()
            },
            old(self).pos_view() <= old(self).data_view().len() ==> final(self).pos_view() <= final(self).data_view().len(),
    {
        if self.pos >= self.data.len() {
            return Err(Error::VgmParse(String::from_str("unexpected end of data")));
        }
        let b = self.data[self.pos];
        self.pos = self.pos + 1;
        Ok(b)
    }

    /// Read a 16-bit little-endian value.
    pub fn read_u16_le(&mut self) -> (r: Result<u16, Error>)
        ensures
            final(self).data_view() == old(self).data_view(),
            final(self).pos_view() >= old(self).pos_view(),
            final(self).pos_view() <= old(self).pos_view() + 2,
            old(self).pos_view() + 2 <= old(self).data_view().len() ==> {
                &&& r is Ok
                &&& r->Ok_0 == le16(old(self).data_view(), old(self).pos_view())
                &&& final(self).pos_view() == old(self).pos_view() + 2
            },
            old(self).pos_view() + 2 > old(self).data_view().len() ==> r is Err,
            old(self).pos_view() <= old(self).data_view().len() ==> final(self).pos_view() <= final(self).data_view().len(),
    {
        let lo = self.read_u8()?;
        let hi = self.read_u8()?;
        Ok((lo as u16) + 0x100 * (hi as u16))
    }

    /// Read a 32-bit little-endian value.
    pub fn read_u32_le(&mut self) -> (r: Result<u32, Error>)
        ensures
            final(self).data_view() == old(self).data_view(),
            final(self).pos_view() >= old(self).pos_view(),
            final(self).pos_view() <= old(self).pos_view() + 4,
            old(self).pos_view() + 4 <= old(self).data_view().len() ==> {
                &&& r is Ok
                &&& r->Ok_0 == le32(old(self).data_view(), old(self).pos_view())
                &&& final(self).pos_view() == old(self).pos_view() + 4
            },
            old(self).pos_view() + 4 > old(self).data_view().len() ==> r is Err,
            old(self).pos_view() <= old(self).data_view().len() ==> final(self).pos_view() <= final(self).data_view().len(),
    {
        let lo = self.read_u16_le()?;
        let hi = self.read_u16_le()?;
        Ok((lo as u32) + 0x10000 * (hi as u32))
    }

    /// Read a 24-bit little-endian value.
    pub fn read_u24_le(&mut self) -> (r: Result<u32, Error>)
        ensures
            final(self).data_view() == old(self).data_view(),
            final(self).pos_view() >= old(self).pos_view(),
            final(self).pos_view() <= old(self).pos_view() + 3,
            old(self).pos_view() + 3 <= old(self).data_view().len() ==> {
                &&& r is Ok
                &&& r->Ok_0 == old(self).data_view()[old(self).pos_view()] + 0x100 * old(
                    self,
                ).data_view()[old(self).pos_view() + 1] + 0x10000 * old(self).data_view()[old(
                    self,
                ).pos_view() + 2]
                &&& final(self).pos_view() == old(self).pos_view() + 3
            },
            old(self).pos_view() + 3 > old(self).data_view().len() ==> r is Err,
            old(self).pos_view() <= old(self).data_view().len() ==> final(self).pos_view() <= final(self).data_view().len(),
    {
        let b0 = self.read_u8()?;
        let b1 = self.read_u8()?;
        let b2 = self.read_u8()?;
        Ok((b0 as u32) + 0x100 * (b1 as u32) + 0x10000 * (b2 as u32))
    }

    /// Read `len` bytes into a fresh buffer.
    pub fn read_bytes(&mut self, len: usize) -> (r: Result<Vec<u8>, Error>)
        ensures
            final(self).data_view() == old(self).data_view(),
            old(self).pos_view() + len <= old(self).data_view().len() ==> {
                &&& r is Ok
                &&& r->Ok_0@ == old(self).data_view().subrange(
                    old(self).pos_view(),
                    old(self).pos_view() + len,
                )
                &&& final(self).pos_view() == old(self).pos_view() + len
            },
            old(self).pos_view() + len > old(self).data_view().len() ==> {
                &&& r is Err
                &&& final(self).pos_view() == old(self).pos_view()
            },
    {
        if len > self.data.len() || self.pos > self.data.len() - len {
            return Err(Error::VgmParse(String::from_str("unexpected end of data")));
        }
        let mut bytes: Vec<u8> = Vec::new();
        let ghost p0 = self.pos as int;
        let mut i: usize = 0;
        while i < len
            invariant
                p0 == old(self).pos_view(),
                p0 + len <= self.data@.len(),
                self.pos == p0 + i,
                i <= len,
                bytes@ == self.data@.subrange(p0, p0 + i),
                self.data@ == old(self).data_view(),
            decreases len - i,
        {
            bytes.push(self.data[self.pos]);
            proof {
                assert(self.data@.subrange(p0, p0 + i + 1) =~= self.data@.subrange(p0, p0
                    + i).push(self.data@[p0 + i]));
            }
            self.pos = self.pos + 1;
            i = i + 1;
        }
        Ok(bytes)
    }

    /// Read a u32 at a specific offset without advancing the position.
    fn peek_u32_at(&self, offset: usize) -> (r: Result<u32, Error>)
        ensures
            offset + 4 <= self.data_view().len() ==> {
                &&& r is Ok
                &&& r->Ok_0 == le32(self.data_view(), offset as int)
            },
            offset + 4 > self.data_view().len() ==> r is Err,
    {
        if self.data.len() < 4 || offset > self.data.len() - 4 {
            return Err(Error::VgmParse(String::from_str("offset out of bounds")));
        }
        Ok((self.data[offset] as u32) + 0x100 * (self.data[offset + 1] as u32) + 0x10000 * (
        self.data[offset + 2] as u32) + 0x1000000 * (self.data[offset + 3] as u32))
    }

    /// Read a u16 at a specific offset without advancing the position.
    fn peek_u16_at(&self, offset: usize) -> (r: Result<u16, Error>)
        ensures
            offset + 2 <= self.data_view().len() ==> {
                &&& r is Ok
                &&& r->Ok_0 == le16(self.data_view(), offset as int)
            },
            offset + 2 > self.data_view().len() ==> r is Err,
    {
        if self.data.len() < 2 || offset > self.data.len() - 2 {
            return Err(Error::VgmParse(String::from_str("offset out of bounds")));
        }
        Ok((self.data[offset] as u16) + 0x100 * (self.data[offset + 1] as u16))
    }

    /// Read a u8 at a specific offset without advancing the position.
    fn peek_u8_at(&self, offset: usize) -> (r: Result<u8, Error>)
        ensures
            offset < self.data_view().len() ==> r is Ok && r->Ok_0 == self.data_view()[
                offset as int
            ],
            offset >= self.data_view().len() ==> r is Err,
    {
        if offset >= self.data.len() {
            return Err(Error::VgmParse(String::from_str("offset out of bounds")));
        }
        Ok(self.data[offset])
    }

    /// Validate the VGM magic and parse the header fields.
    ///
    /// Succeeds exactly when the data holds the magic and at least the
    /// 0x80 bytes of header this parser reads; the scalar fields are then
    /// the little-endian values at their documented offsets.
    pub fn parse_header(&mut self) -> (r: Result<VgmHeader, Error>)
        ensures
            final(self).data_view() == old(self).data_view(),
            ({
                let d = old(self).data_view();
                &&& (r is Ok <==> (d.len() >= 0x80 && d.subrange(0, 4) == vgm_magic()))
                &&& r is Ok ==> {
                    let h = r->Ok_0;
                    &&& h.version == le32(d, header::VERSION as int)
                    &&& h.eof_offset == le32(d, header::EOF_OFFSET as int)
                    &&& h.total_samples == le32(d, header::TOTAL_SAMPLES as int)
                    &&& h.loop_offset == le32(d, header::LOOP_OFFSET as int)
                    &&& h.loop_samples == le32(d, header::LOOP_SAMPLES as int)
                    &&& h.rate == le32(d, header::RATE as int)
                    &&& h.gd3_offset == le32(d, header::GD3_OFFSET as int)
                    &&& h.data_offset == (if le32(d, header::VERSION as int) >= 0x150 {
                        if le32(d, header::DATA_OFFSET as int) == 0 {
                            0x0C
                        } else {
                            le32(d, header::DATA_OFFSET as int)
                        }
                    } else {
                        0x0C
                    })
                    &&& h.volume_modifier == spec_cast_byte_signed(d[header::VOLUME_MODIFIER as int])
                    &&& h.loop_base == spec_cast_byte_signed(d[header::LOOP_BASE as int])
                    &&& h.loop_modifier == d[header::LOOP_MODIFIER as int]
                }
            }),
    {
        if self.data.len() < 64 {
            return Err(Error::VgmParse(String::from_str("file too small for VGM header")));
        }
        if !(self.data[0] == 0x56 && self.data[1] == 0x67 && self.data[2] == 0x6D && self.data[3]
            == 0x20) {
            proof {
                assert(old(self).data_view().subrange(0, 4) != vgm_magic());
            }
            return Err(Error::VgmParse(String::from_str("invalid VGM magic")));
        }
        proof {
            assert(old(self).data_view().subrange(0, 4) =~= vgm_magic());
        }
        if self.data.len() < 0x80 {
            return Err(Error::VgmParse(String::from_str("file too small for VGM header")));
        }

        let version = match self.peek_u32_at(header::VERSION) { Ok(v) => v, Err(_) => 0 };
        let eof_offset = match self.peek_u32_at(header::EOF_OFFSET) { Ok(v) => v, Err(_) => 0 };
        let total_samples = match self.peek_u32_at(header::TOTAL_SAMPLES) { Ok(v) => v, Err(_) => 0 };
        let loop_offset = match self.peek_u32_at(header::LOOP_OFFSET) { Ok(v) => v, Err(_) => 0 };
        let loop_samples = match self.peek_u32_at(header::LOOP_SAMPLES) { Ok(v) => v, Err(_) => 0 };
        let rate = match self.peek_u32_at(header::RATE) { Ok(v) => v, Err(_) => 0 };
        let gd3_offset = match self.peek_u32_at(header::GD3_OFFSET) { Ok(v) => v, Err(_) => 0 };

        // Data offset is relative to 0x34; older files default to 0x0C
        // (so that data starts at 0x40).
        let data_offset = if version >= 0x150 {
            let rel_offset = match self.peek_u32_at(header::DATA_OFFSET) { Ok(v) => v, Err(_) => 0 };
            if rel_offset == 0 {
                0x0C
            } else {
                rel_offset
            }
        } else {
            0x0C
        };

        let mut chips: Vec<(String, ChipInfo)> = Vec::new();
        self.parse_chip_clock(&mut chips, "sn76489", header::SN76489_CLOCK);
        self.parse_chip_clock(&mut chips, "ym2413", header::YM2413_CLOCK);
        self.parse_chip_clock(&mut chips, "ym2612", header::YM2612_CLOCK);
        self.parse_chip_clock(&mut chips, "ym2151", header::YM2151_CLOCK);

        // Extended header chips (version 1.51 and up).
        if version >= 0x151 {
            self.parse_chip_clock(&mut chips, "sega_pcm", header::SEGA_PCM_CLOCK);
            self.parse_chip_clock(&mut chips, "ym2203", header::YM2203_CLOCK);
            self.parse_chip_clock(&mut chips, "ym2608", header::YM2608_CLOCK);
            self.parse_chip_clock(&mut chips, "ym2610", header::YM2610_CLOCK);
            self.parse_chip_clock(&mut chips, "ym3812", header::YM3812_CLOCK);
            self.parse_chip_clock(&mut chips, "ym3526", header::YM3526_CLOCK);
            self.parse_chip_clock(&mut chips, "y8950", header::Y8950_CLOCK);
            self.parse_chip_clock(&mut chips, "ymf262", header::YMF262_CLOCK);
            self.parse_chip_clock(&mut chips, "ymf278b", header::YMF278B_CLOCK);
            self.parse_chip_clock(&mut chips, "ymf271", header::YMF271_CLOCK);
            self.parse_chip_clock(&mut chips, "ymz280b", header::YMZ280B_CLOCK);
            self.parse_chip_clock(&mut chips, "rf5c164", header::RF5C164_CLOCK);
            self.parse_chip_clock(&mut chips, "pwm", header::PWM_CLOCK);
            self.parse_chip_clock(&mut chips, "ay8910", header::AY8910_CLOCK);
        }

        // Version 1.61 chips.
        if version >= 0x161 {
            self.parse_chip_clock(&mut chips, "gb_dmg", header::GB_DMG_CLOCK);
            self.parse_chip_clock(&mut chips, "nes_apu", header::NES_APU_CLOCK);
            self.parse_chip_clock(&mut chips, "multi_pcm", header::MULTI_PCM_CLOCK);
            self.parse_chip_clock(&mut chips, "upd7759", header::UPD7759_CLOCK);
            self.parse_chip_clock(&mut chips, "okim6258", header::OKIM6258_CLOCK);
            self.parse_chip_clock(&mut chips, "k051649", header::K051649_CLOCK);
            self.parse_chip_clock(&mut chips, "k054539", header::K054539_CLOCK);
            self.parse_chip_clock(&mut chips, "huc6280", header::HUC6280_CLOCK);
            self.parse_chip_clock(&mut chips, "c140", header::C140_CLOCK);
            self.parse_chip_clock(&mut chips, "k053260", header::K053260_CLOCK);
            self.parse_chip_clock(&mut chips, "pokey", header::POKEY_CLOCK);
            self.parse_chip_clock(&mut chips, "qsound", header::QSOUND_CLOCK);
        }

        // SN76489 extra parameters ride along in dedicated fields.  When
        // present, the SN76489 entry is the first one recorded.
        if chips.len() > 0 {
            let sn_clock_field = match self.peek_u32_at(header::SN76489_CLOCK) {
                Ok(c) => c,
                Err(_) => 0,
            };
            if sn_clock_field != 0 {
                let feedback = match self.peek_u16_at(header::SN76489_FEEDBACK) {
                    Ok(v) => v,
                    Err(_) => 0,
                };
                let shift_width = match self.peek_u8_at(header::SN76489_SHIFT_WIDTH) {
                    Ok(v) => v,
                    Err(_) => 0,
                };
                let sn_flags = match self.peek_u8_at(header::SN76489_FLAGS) {
                    Ok(v) => v,
                    Err(_) => 0,
                };
                let mut extra: Vec<(String, u32)> = Vec::new();
                extra.push((String::from_str("feedback"), feedback as u32));
                extra.push((String::from_str("shift_width"), shift_width as u32));
                extra.push((String::from_str("flags"), sn_flags as u32));
                let clock = chips[0].1.clock;
                let dual = chips[0].1.dual;
                chips.set(0, (String::from_str("sn76489"), ChipInfo { clock, dual, extra }));
            }
        }

        let volume_modifier_b = match self.peek_u8_at(header::VOLUME_MODIFIER) {
            Ok(v) => v,
            Err(_) => 0,
        };
        let loop_base_b = match self.peek_u8_at(header::LOOP_BASE) {
            Ok(v) => v,
            Err(_) => 0,
        };
        let loop_modifier = match self.peek_u8_at(header::LOOP_MODIFIER) {
            Ok(v) => v,
            Err(_) => 0,
        };
        let volume_modifier = cast_byte_signed(volume_modifier_b);
        let loop_base = cast_byte_signed(loop_base_b);

        Ok(VgmHeader {
            version,
            eof_offset,
            total_samples,
            loop_offset,
            loop_samples,
            rate,
            data_offset,
            gd3_offset,
            volume_modifier,
            loop_base,
            loop_modifier,
            chips,
        })
    }

    /// Record one chip from its header clock field: nothing when the field
    /// is absent or zero, otherwise the clock with bit 30 as the dual flag.
    fn parse_chip_clock(&self, chips: &mut Vec<(String, ChipInfo)>, name: &str, clock_offset: usize)
        ensures
            ({
                let d = self.data_view();
                if clock_offset + 4 <= d.len() && le32(d, clock_offset as int) != 0 {
                    exists|e: (String, ChipInfo)|
                        {
                            &&& final(chips)@ == old(chips)@.push(e)
                            &&& e.0@ == name@
                            &&& e.1.clock == le32(d, clock_offset as int) % 0x40000000
                            &&& e.1.dual == (le32(d, clock_offset as int) / 0x40000000 % 2 == 1)
                            &&& e.1.extra@.len() == 0
                        }
                } else {
                    final(chips)@ == old(chips)@
                }
            }),
    {
        if self.data.len() < 4 || clock_offset > self.data.len() - 4 {
            return;
        }
        let clock = match self.peek_u32_at(clock_offset) {
            Ok(c) => c,
            Err(_) => {
                return;
            },
        };
        if clock != 0 {
            let dual = (clock / 0x40000000) % 2 == 1;
            let clock_hz = clock % 0x40000000;
            let info = ChipInfo { clock: clock_hz, dual, extra: Vec::new() };
            chips.push((String::from_str(name), info));
        }
    }

    /// Parse the GD3 metadata block, if the header points at one.
    ///
    /// The eleven fields are the successive null-terminated UTF-16LE
    /// strings that start twelve bytes into the block.
    pub fn parse_gd3(&mut self, header_info: &VgmHeader) -> (r: Result<Option<Gd3Info>, Error>)
        ensures
            final(self).data_view() == old(self).data_view(),
            r is Ok,
            ({
                let d = old(self).data_view();
                let base = header_info.gd3_offset + 0x14 + 12;
                match r {
                    Ok(Some(g)) => {
                        &&& header_info.gd3_offset != 0
                        &&& g.title@ == utf16_decode(d.skip(gd3_field_start(d, base as int, 0)))
                        &&& g.title_jp@ == utf16_decode(d.skip(gd3_field_start(d, base as int, 1)))
                        &&& g.game@ == utf16_decode(d.skip(gd3_field_start(d, base as int, 2)))
                        &&& g.game_jp@ == utf16_decode(d.skip(gd3_field_start(d, base as int, 3)))
                        &&& g.system@ == utf16_decode(d.skip(gd3_field_start(d, base as int, 4)))
                        &&& g.system_jp@ == utf16_decode(d.skip(gd3_field_start(d, base as int, 5)))
                        &&& g.composer@ == utf16_decode(d.skip(gd3_field_start(d, base as int, 6)))
                        &&& g.composer_jp@ == utf16_decode(
                            d.skip(gd3_field_start(d, base as int, 7)),
                        )
                        &&& g.date@ == utf16_decode(d.skip(gd3_field_start(d, base as int, 8)))
                        &&& g.converter@ == utf16_decode(d.skip(gd3_field_start(d, base as int, 9)))
                        &&& g.notes@ == utf16_decode(d.skip(gd3_field_start(d, base as int, 10)))
                    },
                    Ok(None) => true,
                    Err(_) => false,
                }
            }),
            ({
                let d = old(self).data_view();
                let pos = header_info.gd3_offset as int + 0x14;
                (r is Ok && r->Ok_0 is None) <==> (header_info.gd3_offset == 0 || pos + 12
                    > d.len() || !(d[pos] == 0x47 && d[pos + 1] == 0x64 && d[pos + 2] == 0x33
                    && d[pos + 3] == 0x20))
            }),
    {
        if header_info.gd3_offset == 0 {
            return Ok(None);
        }

        // The GD3 offset is relative to 0x14.
        let gd3_pos_u64 = (header_info.gd3_offset as u64) + 0x14;
        if gd3_pos_u64 + 12 > self.data.len() as u64 {
            return Ok(None);
        }
        let gd3_pos = (header_info.gd3_offset as usize) + 0x14;

        self.seek(gd3_pos);

        let magic = match self.read_bytes(4) {
            Ok(m) => m,
            Err(_) => {
                return Ok(None);
            },
        };
        if !(magic[0] == 0x47 && magic[1] == 0x64 && magic[2] == 0x33 && magic[3] == 0x20) {
            return Ok(None);
        }

        let _version = match self.read_u32_le() {
            Ok(v) => v,
            Err(_) => {
                return Ok(None);
            },
        };
        let _size = match self.read_u32_le() {
            Ok(v) => v,
            Err(_) => {
                return Ok(None);
            },
        };

        let ghost d = self.data@;
        let ghost base = gd3_pos + 12;
        proof {
            assert(gd3_field_start(d, base as int, 0) == base as int);
        }
        let title = self.read_utf16_string();
        proof { lemma_gd3_step(d, base as int, 1); }
        let title_jp = self.read_utf16_string();
        proof { lemma_gd3_step(d, base as int, 2); }
        let game = self.read_utf16_string();
        proof { lemma_gd3_step(d, base as int, 3); }
        let game_jp = self.read_utf16_string();
        proof { lemma_gd3_step(d, base as int, 4); }
        let system = self.read_utf16_string();
        proof { lemma_gd3_step(d, base as int, 5); }
        let system_jp = self.read_utf16_string();
        proof { lemma_gd3_step(d, base as int, 6); }
        let composer = self.read_utf16_string();
        proof { lemma_gd3_step(d, base as int, 7); }
        let composer_jp = self.read_utf16_string();
        proof { lemma_gd3_step(d, base as int, 8); }
        let date = self.read_utf16_string();
        proof { lemma_gd3_step(d, base as int, 9); }
        let converter = self.read_utf16_string();
        proof { lemma_gd3_step(d, base as int, 10); }
        let notes = self.read_utf16_string();

        Ok(Some(Gd3Info {
            title,
            title_jp,
            game,
            game_jp,
            system,
            system_jp,
            composer,
            composer_jp,
            date,
            converter,
            notes,
        }))
    }

    /// Read a null-terminated UTF-16LE string from the current position.
    fn read_utf16_string(&mut self) -> (r: String)
        requires
            old(self).pos_view() <= old(self).data_view().len(),
        ensures
            final(self).data_view() == old(self).data_view(),
            r@ == utf16_decode(old(self).data_view().skip(old(self).pos_view())),
            final(self).pos_view() == old(self).pos_view() + utf16_consumed(
                old(self).data_view().skip(old(self).pos_view()),
            ),
            final(self).pos_view() <= final(self).data_view().len(),
    {
        let mut chars: Vec<char> = Vec::new();
        let ghost d = self.data@;
        let ghost start = self.pos as int;
        loop
            invariant_except_break
                d == old(self).data_view(),
                start == old(self).pos_view(),
                self.data@ == d,
                start <= self.pos <= d.len(),
                utf16_decode(d.skip(start)) == chars@ + utf16_decode(d.skip(self.pos as int)),
                utf16_consumed(d.skip(start)) == (self.pos - start) + utf16_consumed(
                    d.skip(self.pos as int),
                ),
            ensures
                self.data@ == d,
                start <= self.pos <= d.len(),
                chars@ == utf16_decode(d.skip(start)),
                self.pos - start == utf16_consumed(d.skip(start)),
            decreases d.len() - self.pos,
        {
            let ghost tail = d.skip(self.pos as int);
            if self.data.len() - self.pos < 2 {
                proof {
                    assert(utf16_decode(tail) =~= Seq::<char>::empty());
                    assert(utf16_consumed(tail) == 0);
                    assert(chars@ + utf16_decode(tail) =~= chars@);
                }
                break;
            }
            let lo = self.data[self.pos];
            let hi = self.data[self.pos + 1];
            let code: u16 = (lo as u16) + 0x100 * (hi as u16);
            proof {
                assert(tail[0] == lo && tail[1] == hi);
                assert(tail[0] + 0x100 * tail[1] == code);
            }
            self.pos = self.pos + 2;
            proof {
                assert(tail.skip(2) =~= d.skip(self.pos as int));
            }
            if code == 0 {
                proof {
                    assert(utf16_decode(tail) =~= Seq::<char>::empty());
                    assert(utf16_consumed(tail) == 2);
                    assert(chars@ + utf16_decode(tail) =~= chars@);
                }
                break;
            }

            if 0xD800 <= code && code <= 0xDBFF {
                if self.data.len() - self.pos < 2 {
                    proof {
                        assert(tail.len() < 4);
                        assert(utf16_decode(tail) =~= Seq::<char>::empty());
                        assert(utf16_consumed(tail) == 2);
                        assert(chars@ + utf16_decode(tail) =~= chars@);
                    }
                    break;
                }
                let lo2 = self.data[self.pos];
                let hi2 = self.data[self.pos + 1];
                let low: u16 = (lo2 as u16) + 0x100 * (hi2 as u16);
                proof {
                    assert(tail[2] == lo2 && tail[3] == hi2);
                    assert(tail[2] + 0x100 * tail[3] == low);
                }
                self.pos = self.pos + 2;
                proof {
                    assert(tail.skip(4) =~= d.skip(self.pos as int));
                    lemma_utf16_consumed_bounds(tail.skip(4));
                }
                if 0xDC00 <= low && low <= 0xDFFF {
                    let code_point: u32 = 0x10000 + ((code as u32) - 0xD800) * 0x400 + ((
                    low as u32) - 0xDC00);
                    let ghost pre = chars@;
                    match char_from_u32(code_point) {
                        Some(c) => {
                            chars.push(c);
                            proof {
                                assert(utf16_decode(tail) =~= seq![(code_point) as char]
                                    + utf16_decode(tail.skip(4)));
                                assert(chars@ + utf16_decode(tail.skip(4)) =~= pre + utf16_decode(
                                    tail,
                                ));
                            }
                        },
                        None => {
                            proof {
                                assert(0x10000 <= code_point <= 0x10FFFF);
                                assert(false);
                            }
                        },
                    }
                } else {
                    proof {
                        assert(utf16_decode(tail) =~= utf16_decode(tail.skip(4)));
                    }
                }
            } else if 0xDC00 <= code && code <= 0xDFFF {
                proof {
                    lemma_utf16_consumed_bounds(tail.skip(2));
                    assert(utf16_decode(tail) =~= utf16_decode(tail.skip(2)));
                }
            } else {
                let ghost pre = chars@;
                proof {
                    lemma_utf16_consumed_bounds(tail.skip(2));
                }
                match char_from_u32(code as u32) {
                    Some(c) => {
                        chars.push(c);
                        proof {
                            assert(utf16_decode(tail) =~= seq![(code as u32) as char]
                                + utf16_decode(tail.skip(2)));
                            assert(chars@ + utf16_decode(tail.skip(2)) =~= pre + utf16_decode(
                                tail,
                            ));
                        }
                    },
                    None => {
                        proof {
                            assert(false);
                        }
                    },
                }
            }
        }
        chars_to_string(&chars)
    }

    /// Parse the command stream that begins at the header's data offset:
    /// all commands up to and including the end marker, or up to the end
    /// of the data.
    pub fn parse_commands(&mut self, header_info: &VgmHeader) -> (r: Result<
        Vec<VgmCommand>,
        Error,
    >)
        ensures
            final(self).data_view() == old(self).data_view(),
            ({
                let d = old(self).data_view();
                let start = header_info.data_offset + 0x34;
                &&& (r is Ok && start <= d.len()) ==> spec_parse_commands(d, start as int) == Some(
                    r->Ok_0@.map_values(|c: VgmCommand| cmd_norm(c)),
                )
                &&& (r is Err && start <= d.len()) ==> spec_parse_commands(d, start as int) is None
            }),
    {
        let data_start_u64 = (header_info.data_offset as u64) + 0x34;
        if data_start_u64 > self.data.len() as u64 {
            self.seek(self.data.len());
            return Ok(Vec::new());
        }
        let data_start = (header_info.data_offset as usize) + 0x34;
        self.seek(data_start);

        let ghost d = self.data@;
        let ghost norm = |c: VgmCommand| cmd_norm(c);
        let mut commands: Vec<VgmCommand> = Vec::new();
        let mut done = false;

        while !done && !(self.pos >= self.data.len())
            invariant
                d == old(self).data_view(),
                data_start == header_info.data_offset + 0x34,
                norm == (|c: VgmCommand| cmd_norm(c)),
                self.data@ == d,
                self.pos <= d.len(),
                !done ==> (match spec_parse_commands(d, self.pos as int) {
                    Some(rest) => spec_parse_commands(d, data_start as int) == Some(
                        commands@.map_values(norm) + rest,
                    ),
                    None => spec_parse_commands(d, data_start as int) is None,
                }),
                done ==> spec_parse_commands(d, data_start as int) == Some(
                    commands@.map_values(norm),
                ),
            decreases (if done { 0int } else { 1int }), d.len() - self.pos,
        {
            let ghost p0 = self.pos as int;
            match self.parse_command() {
                Err(e) => {
                    proof {
                        assert(spec_parse_commands(d, p0) is None);
                    }
                    return Err(e);
                },
                Ok(None) => {
                    proof {
                        assert(false);
                    }
                },
                Ok(Some(cmd)) => {
                    let is_end = matches!(cmd, VgmCommand::End);
                    let ghost scmd = spec_parse_command(d, p0)->Some_0.0;
                    let ghost next = spec_parse_command(d, p0)->Some_0.1;
                    commands.push(cmd);
                    proof {
                        assert(commands@.drop_last().push(cmd) =~= commands@);
                        assert(commands@.drop_last().map_values(norm).push(norm(cmd))
                            =~= commands@.map_values(norm));
                        assert(norm(cmd) == cmd_norm(scmd));
                    }
                    if is_end {
                        proof {
                            assert(scmd is End);
                            assert(cmd_norm(scmd) == scmd);
                            assert(spec_parse_commands(d, p0) == Some(seq![scmd]));
                            assert(commands@.drop_last().map_values(norm) + seq![scmd]
                                =~= commands@.map_values(norm));
                        }
                        done = true;
                    } else {
                        proof {
                            assert(!(scmd is End));
                            assert(cmd_norm(scmd) == norm(cmd));
                            if spec_parse_commands(d, next) is Some {
                                let rest = spec_parse_commands(d, next)->Some_0;
                                assert(spec_parse_commands(d, p0) == Some(seq![scmd] + rest));
                                assert(commands@.drop_last().map_values(norm) + (seq![scmd] + rest)
                                    =~= commands@.map_values(norm) + rest);
                            }
                        }
                    }
                },
            }
        }
        if !done {
            proof {
                assert(spec_parse_commands(d, self.pos as int) == Some(Seq::<VgmCommand>::empty()));
                assert(commands@.map_values(norm) + Seq::<VgmCommand>::empty()
                    =~= commands@.map_values(norm));
            }
        }
        Ok(commands)
    }

    /// Parse a single VGM command at the current position.
    fn parse_command(&mut self) -> (r: Result<Option<VgmCommand>, Error>)
        requires
            old(self).pos_view() <= old(self).data_view().len(),
        ensures
            final(self).data_view() == old(self).data_view(),
            final(self).pos_view() <= final(self).data_view().len(),
            old(self).pos_view() >= old(self).data_view().len() ==> r is Ok && r->Ok_0 is None
                && final(self).pos_view() == old(self).pos_view(),
            old(self).pos_view() < old(self).data_view().len() ==> match spec_parse_command(
                old(self).data_view(),
                old(self).pos_view(),
            ) {
                Some((cmd, next)) => {
                    &&& r is Ok
                    &&& r->Ok_0 is Some
                    &&& cmd_matches(r->Ok_0->0, cmd)
                    &&& final(self).pos_view() == next
                    &&& next > old(self).pos_view()
                    &&& match r->Ok_0->0 {
                        VgmCommand::Unknown { opcode, bytes } => {
                            let d = old(self).data_view();
                            let p = old(self).pos_view();
                            if d[p] == 0xC0 {
                                bytes@.len() == 0
                            } else {
                                bytes@ == d.subrange(p + 1, p + 1 + spec_command_size(d[p]))
                            }
                        },
                        _ => true,
                    }
                },
                None => r is Err,
            },
    {
        if self.is_eof() {
            return Ok(None);
        }

        let ghost d = self.data@;
        let ghost p = self.pos as int;
        let op = self.read_u8()?;

        if op == 0x4F {
            let data = self.read_u8()?;
            Ok(Some(VgmCommand::GgStereo { data }))
        } else if op == 0x50 {
            let data = self.read_u8()?;
            Ok(Some(VgmCommand::Sn76489Write { data }))
        } else if op == 0x51 {
            let reg = self.read_u8()?;
            let data = self.read_u8()?;
            Ok(Some(VgmCommand::Ym2413Write { reg, data }))
        } else if op == 0x52 {
            let reg = self.read_u8()?;
            let data = self.read_u8()?;
            Ok(Some(VgmCommand::Ym2612Write { port: 0, reg, data }))
        } else if op == 0x53 {
            let reg = self.read_u8()?;
            let data = self.read_u8()?;
            Ok(Some(VgmCommand::Ym2612Write { port: 1, reg, data }))
        } else if op == 0x54 {
            let reg = self.read_u8()?;
            let data = self.read_u8()?;
            Ok(Some(VgmCommand::Ym2151Write { reg, data }))
        } else if op == 0x55 {
            let reg = self.read_u8()?;
            let data = self.read_u8()?;
            Ok(Some(VgmCommand::Ym2203Write { reg, data }))
        } else if op == 0x56 {
            let reg = self.read_u8()?;
            let data = self.read_u8()?;
            Ok(Some(VgmCommand::Ym2608Write { port: 0, reg, data }))
        } else if op == 0x57 {
            let reg = self.read_u8()?;
            let data = self.read_u8()?;
            Ok(Some(VgmCommand::Ym2608Write { port: 1, reg, data }))
        } else if op == 0x58 {
            let reg = self.read_u8()?;
            let data = self.read_u8()?;
            Ok(Some(VgmCommand::Ym2610Write { port: 0, reg, data }))
        } else if op == 0x59 {
            let reg = self.read_u8()?;
            let data = self.read_u8()?;
            Ok(Some(VgmCommand::Ym2610Write { port: 1, reg, data }))
        } else if op == 0x5A {
            let reg = self.read_u8()?;
            let data = self.read_u8()?;
            Ok(Some(VgmCommand::Ym3812Write { reg, data }))
        } else if op == 0x5B {
            let reg = self.read_u8()?;
            let data = self.read_u8()?;
            Ok(Some(VgmCommand::Ym3526Write { reg, data }))
        } else if op == 0x5C {
            let reg = self.read_u8()?;
            let data = self.read_u8()?;
            Ok(Some(VgmCommand::Y8950Write { reg, data }))
        } else if op == 0x5D {
            let reg = self.read_u8()?;
            let data = self.read_u8()?;
            Ok(Some(VgmCommand::Ymz280bWrite { reg, data }))
        } else if op == 0x5E {
            let reg = self.read_u8()?;
            let data = self.read_u8()?;
            Ok(Some(VgmCommand::Ymf262Write { port: 0, reg, data }))
        } else if op == 0x5F {
            let reg = self.read_u8()?;
            let data = self.read_u8()?;
            Ok(Some(VgmCommand::Ymf262Write { port: 1, reg, data }))
        } else if op == 0x61 {
            let samples = self.read_u16_le()?;
            Ok(Some(VgmCommand::Wait { samples: samples as u32 }))
        } else if op == 0x62 {
            Ok(Some(VgmCommand::Wait { samples: 735 }))
        } else if op == 0x63 {
            Ok(Some(VgmCommand::Wait { samples: 882 }))
        } else if op == 0x66 {
            Ok(Some(VgmCommand::End))
        } else if op == 0x67 {
            // 0x67 0x66 tt ss ss ss ss (data)
            let _compat = self.read_u8()?;
            let block_type = self.read_u8()?;
            let size = self.read_u32_le()?;
            // Skip the data block content.
            let actual_size = (size % 0x80000000) as usize;
            if actual_size <= self.data.len() - self.pos {
                self.pos = self.pos + actual_size;
            }
            Ok(Some(VgmCommand::DataBlock { block_type, size: Some(size) }))
        } else if op == 0x68 {
            let _compat = self.read_u8()?;
            let chip_type = self.read_u8()?;
            let read_offset = self.read_u24_le()?;
            let write_offset = self.read_u24_le()?;
            let size = self.read_u24_le()?;
            Ok(Some(VgmCommand::PcmRamWrite { chip_type, read_offset, write_offset, size }))
        } else if 0x70 <= op && op <= 0x7F {
            let n = (op - 0x70) as u32 + 1;
            Ok(Some(VgmCommand::Wait { samples: n }))
        } else if 0x80 <= op && op <= 0x8F {
            let wait = op - 0x80;
            Ok(Some(VgmCommand::Ym2612Dac { data: 0x2A, wait }))
        } else if op == 0x90 {
            let stream_id = self.read_u8()?;
            let chip_type = self.read_u8()?;
            let port = self.read_u8()?;
            let reg = self.read_u8()?;
            Ok(Some(VgmCommand::DacStreamSetup { stream_id, chip_type, port, reg }))
        } else if op == 0x91 {
            let stream_id = self.read_u8()?;
            let bank_id = self.read_u8()?;
            let step_base = self.read_u8()?;
            let step_size = self.read_u8()?;
            Ok(Some(VgmCommand::DacStreamData { stream_id, bank_id, step_base, step_size }))
        } else if op == 0x92 {
            let stream_id = self.read_u8()?;
            let frequency = self.read_u32_le()?;
            Ok(Some(VgmCommand::DacStreamFreq { stream_id, frequency }))
        } else if op == 0x93 {
            let stream_id = self.read_u8()?;
            let data_start = self.read_u32_le()?;
            let length_mode = self.read_u8()?;
            let data_length = self.read_u32_le()?;
            Ok(Some(VgmCommand::DacStreamStart { stream_id, data_start, length_mode, data_length }))
        } else if op == 0x94 {
            let stream_id = self.read_u8()?;
            Ok(Some(VgmCommand::DacStreamStop { stream_id }))
        } else if op == 0x95 {
            let stream_id = self.read_u8()?;
            let block_id = self.read_u16_le()?;
            let flags = self.read_u8()?;
            Ok(Some(VgmCommand::DacStreamFast { stream_id, block_id, flags }))
        } else if op == 0xA0 {
            let reg = self.read_u8()?;
            let data = self.read_u8()?;
            Ok(Some(VgmCommand::Ay8910Write { reg, data }))
        } else if op == 0xB0 {
            let reg = self.read_u8()?;
            let data = self.read_u8()?;
            Ok(Some(VgmCommand::Rf5c68Write { reg, data }))
        } else if op == 0xB1 {
            let reg = self.read_u8()?;
            let data = self.read_u8()?;
            Ok(Some(VgmCommand::Rf5c164Write { reg, data }))
        } else if op == 0xB2 {
            let reg = self.read_u8()?;
            let data = self.read_u8()?;
            let data16 = ((reg as u16) / 0x10) * 0x100 + (data as u16);
            let reg4 = reg % 0x10;
            Ok(Some(VgmCommand::PwmWrite { reg: reg4, data: data16 }))
        } else if op == 0xB3 {
            let reg = self.read_u8()?;
            let data = self.read_u8()?;
            Ok(Some(VgmCommand::GbDmgWrite { reg, data }))
        } else if op == 0xB4 {
            let reg = self.read_u8()?;
            let data = self.read_u8()?;
            Ok(Some(VgmCommand::NesApuWrite { reg, data }))
        } else if op == 0xB5 {
            let reg = self.read_u8()?;
            let data = self.read_u8()?;
            Ok(Some(VgmCommand::MultiPcmWrite { reg, data }))
        } else if op == 0xB6 {
            let reg = self.read_u8()?;
            let data = self.read_u8()?;
            Ok(Some(VgmCommand::Upd7759Write { reg, data }))
        } else if op == 0xB7 {
            let reg = self.read_u8()?;
            let data = self.read_u8()?;
            Ok(Some(VgmCommand::Okim6258Write { reg, data }))
        } else if op == 0xB8 {
            let reg = self.read_u8()?;
            let data = self.read_u8()?;
            Ok(Some(VgmCommand::Okim6295Write { reg, data }))
        } else if op == 0xB9 {
            let reg = self.read_u8()?;
            let data = self.read_u8()?;
            Ok(Some(VgmCommand::Huc6280Write { reg, data }))
        } else if op == 0xBA {
            let reg = self.read_u8()?;
            let data = self.read_u8()?;
            Ok(Some(VgmCommand::K053260Write { reg, data }))
        } else if op == 0xBB {
            let reg = self.read_u8()?;
            let data = self.read_u8()?;
            Ok(Some(VgmCommand::PokeyWrite { reg, data }))
        } else if op == 0xBC {
            let reg = self.read_u8()?;
            let data = self.read_u8()?;
            Ok(Some(VgmCommand::WonderSwanWrite { reg, data }))
        } else if op == 0xBD {
            let reg = self.read_u8()?;
            let data = self.read_u8()?;
            Ok(Some(VgmCommand::Saa1099Write { reg, data }))
        } else if op == 0xBE {
            let reg = self.read_u8()?;
            let data = self.read_u8()?;
            Ok(Some(VgmCommand::Es5503Write { reg, data }))
        } else if op == 0xBF {
            let reg = self.read_u8()?;
            let data = self.read_u8()?;
            Ok(Some(VgmCommand::Ga20Write { reg, data }))
        } else if op == 0xC0 {
            // Sega PCM memory write: recorded unparsed.
            let _reg_lo = self.read_u8()?;
            let _reg_hi = self.read_u8()?;
            let _data = self.read_u8()?;
            Ok(Some(VgmCommand::Unknown { opcode: op, bytes: Vec::new() }))
        } else if op == 0xC1 {
            let reg_lo = self.read_u8()?;
            let reg_hi = self.read_u8()?;
            let _data = self.read_u8()?;
            Ok(Some(VgmCommand::Rf5c68Write { reg: reg_lo, data: reg_hi }))
        } else if op == 0xC2 {
            let reg_lo = self.read_u8()?;
            let reg_hi = self.read_u8()?;
            let _data = self.read_u8()?;
            Ok(Some(VgmCommand::Rf5c164Write { reg: reg_lo, data: reg_hi }))
        } else if op == 0xC3 {
            let reg_lo = self.read_u8()?;
            let reg_hi = self.read_u8()?;
            let _data = self.read_u8()?;
            Ok(Some(VgmCommand::MultiPcmWrite { reg: reg_lo, data: reg_hi }))
        } else if op == 0xC4 {
            let reg_lo = self.read_u8()?;
            let reg_hi = self.read_u8()?;
            let data = self.read_u8()?;
            let data16 = (reg_hi as u16) * 0x100 + (data as u16);
            Ok(Some(VgmCommand::QsoundWrite { reg: reg_lo, data: data16 }))
        } else if op == 0xC5 {
            let reg_lo = self.read_u8()?;
            let reg_hi = self.read_u8()?;
            let data = self.read_u8()?;
            let reg = (reg_hi as u16) * 0x100 + (reg_lo as u16);
            Ok(Some(VgmCommand::ScspWrite { reg, data }))
        } else if op == 0xC6 {
            let reg_lo = self.read_u8()?;
            let reg_hi = self.read_u8()?;
            let _data = self.read_u8()?;
            Ok(Some(VgmCommand::WonderSwanWrite { reg: reg_lo, data: reg_hi }))
        } else if op == 0xC7 {
            let reg_lo = self.read_u8()?;
            let reg_hi = self.read_u8()?;
            let _data = self.read_u8()?;
            Ok(Some(VgmCommand::VsuWrite { reg: reg_lo, data: reg_hi }))
        } else if op == 0xC8 {
            let reg_lo = self.read_u8()?;
            let reg_hi = self.read_u8()?;
            let data = self.read_u8()?;
            let reg = (reg_hi as u16) * 0x100 + (reg_lo as u16);
            Ok(Some(VgmCommand::X1010Write { reg, data }))
        } else if op == 0xD0 {
            let port = self.read_u8()?;
            let reg = self.read_u8()?;
            let data = self.read_u8()?;
            Ok(Some(VgmCommand::Ymf278Write { port, reg, data }))
        } else if op == 0xD1 {
            let port = self.read_u8()?;
            let reg = self.read_u8()?;
            let data = self.read_u8()?;
            Ok(Some(VgmCommand::Ymf271Write { port, reg, data }))
        } else if op == 0xD2 {
            let reg = self.read_u8()?;
            let data = self.read_u8()?;
            let _extra = self.read_u8()?;
            Ok(Some(VgmCommand::K051649Write { reg, data }))
        } else if op == 0xD3 {
            let reg_lo = self.read_u8()?;
            let reg_hi = self.read_u8()?;
            let data = self.read_u8()?;
            let reg = (reg_hi as u16) * 0x100 + (reg_lo as u16);
            Ok(Some(VgmCommand::K054539Write { reg, data }))
        } else if op == 0xD4 {
            let reg_lo = self.read_u8()?;
            let reg_hi = self.read_u8()?;
            let data = self.read_u8()?;
            let reg = (reg_hi as u16) * 0x100 + (reg_lo as u16);
            Ok(Some(VgmCommand::C140Write { reg, data }))
        } else if op == 0xD5 {
            let reg = self.read_u8()?;
            let data_lo = self.read_u8()?;
            let data_hi = self.read_u8()?;
            let data = (data_hi as u16) * 0x100 + (data_lo as u16);
            Ok(Some(VgmCommand::Es5506Write { reg, data }))
        } else if op == 0xD6 {
            let reg_lo = self.read_u8()?;
            let reg_hi = self.read_u8()?;
            let data = self.read_u8()?;
            Ok(Some(VgmCommand::Es5506Write { reg: reg_lo, data: (reg_hi as u16) * 0x100 + (
            data as u16) }))
        } else if op == 0xE0 {
            let offset = self.read_u32_le()?;
            Ok(Some(VgmCommand::SeekPcm { offset }))
        } else if op == 0xE1 {
            let reg_lo = self.read_u8()?;
            let reg_hi = self.read_u8()?;
            let data_lo = self.read_u8()?;
            let data_hi = self.read_u8()?;
            let reg = (reg_hi as u16) * 0x100 + (reg_lo as u16);
            let data = (data_hi as u16) * 0x100 + (data_lo as u16);
            Ok(Some(VgmCommand::C352Write { reg, data }))
        } else {
            let size = command_size(op);
            let bytes = if size > 0 {
                self.read_bytes(size)?
            } else {
                Vec::new()
            };
            Ok(Some(VgmCommand::Unknown { opcode: op, bytes }))
        }
    }
}

/// A command with the raw byte payload of an unparsed command replaced by
/// a fixed placeholder, so commands can be compared up to that payload.
pub open spec fn cmd_norm(c: VgmCommand) -> VgmCommand {
    match c {
        VgmCommand::Unknown { opcode, bytes: _ } => VgmCommand::Unknown {
            opcode,
            bytes: arbitrary(),
        },
        other => other,
    }
}

/// Structural match between a parsed command and its specification image,
/// up to the raw byte payload of unparsed commands.
pub open spec fn cmd_matches(a: VgmCommand, b: VgmCommand) -> bool {
    cmd_norm(a) == cmd_norm(b)
}

/// The starts of consecutive GD3 fields advance by the consumed bytes.
proof fn lemma_gd3_step(b: Seq<u8>, base: int, k: nat)
    requires
        k >= 1,
    ensures
        gd3_field_start(b, base, k) == gd3_field_start(b, base, (k - 1) as nat) + utf16_consumed(
            b.skip(gd3_field_start(b, base, (k - 1) as nat)),
        ),
{
}

/// The signed byte with the same bit pattern as the given unsigned byte.
pub open spec fn spec_cast_byte_signed(b: u8) -> i8 {
    if b < 128 {
        b as i8
    } else {
        (b - 256) as i8
    }
}

/// Reinterpret a byte as the signed value with the same bit pattern.
pub fn cast_byte_signed(b: u8) -> (r: i8)
    ensures
        r == spec_cast_byte_signed(b),
{
    if b < 128 {
        b as i8
    } else {
        (b as i16 - 256) as i8
    }
}

/// Relies on `char::from_u32`: `Some` exactly for Unicode scalar values
/// (below 0xD800, or in 0xE000 ..= 0x10FFFF), returning that code point.
#[verifier::external_body]
fn char_from_u32(u: u32) -> (r: Option<char>)
    ensures
        (u < 0xD800 || (0xE000 <= u && u <= 0x10FFFF)) ==> r == Some(u as char),
        !(u < 0xD800 || (0xE000 <= u && u <= 0x10FFFF)) ==> r is None,
{
    char::from_u32(u)
}

} // verus!
