//! Report types for VGM data: a plain-data image of a parsed file, ready
//! for serialization by a front end.

use vstd::prelude::*;
use super::commands::VgmCommand;
use super::reader::{ChipInfo, Gd3Info, VgmHeader};
use crate::text::chars_to_string;

verus! {

/// Top-level report for a VGM file.
#[derive(Debug)]
pub struct VgmJson {
    /// VGM version as text, for example `1.61`.
    pub version: String,
    /// Header information.
    pub header: VgmHeaderJson,
    /// GD3 metadata, if present.
    pub gd3: Option<Gd3Json>,
    /// VGM commands.
    pub commands: Vec<VgmCommand>,
}

/// Report form of the VGM header: zero-valued fields become `None`.
#[derive(Debug)]
pub struct VgmHeaderJson {
    /// Total samples in the file.
    pub total_samples: u32,
    /// Loop offset, when looping.
    pub loop_offset: Option<u32>,
    /// Number of samples in the loop.
    pub loop_samples: Option<u32>,
    /// Playback rate in Hz.
    pub rate: Option<u32>,
    /// Volume modifier.
    pub volume_modifier: Option<i8>,
    /// Loop base.
    pub loop_base: Option<i8>,
    /// Loop modifier.
    pub loop_modifier: Option<u8>,
    /// Sound chips used in this file.
    pub chips: Vec<(String, ChipJson)>,
}

/// Report form of one chip entry.
#[derive(Debug, Clone)]
pub struct ChipJson {
    /// Clock frequency in Hz.
    pub clock: u32,
    /// Whether this is a dual-chip configuration.
    pub dual: bool,
    /// Extra chip-specific parameters.
    pub extra: Vec<(String, u32)>,
}

/// Report form of the GD3 metadata.
#[derive(Debug, Clone)]
pub struct Gd3Json {
    pub title: String,
    pub title_jp: String,
    pub game: String,
    pub game_jp: String,
    pub system: String,
    pub system_jp: String,
    pub composer: String,
    pub composer_jp: String,
    pub date: String,
    pub converter: String,
    pub notes: String,
}

/// The decimal digit character for `d`.
pub open spec fn dec_digit(d: int) -> char {
    ((0x30 + d) as u8) as char
}

/// The lowercase hexadecimal digit character for `d`.
pub open spec fn hex_digit(d: int) -> char {
    if d < 10 {
        ((0x30 + d) as u8) as char
    } else {
        ((0x57 + d) as u8) as char
    }
}

/// The text form of a binary-coded-decimal version word: the major part
/// in decimal, a dot, then the minor byte as two lowercase hex digits.
pub open spec fn spec_format_version(version: u32) -> Seq<char> {
    let major = ((version / 0x100) % 0x100) as int;
    let minor = (version % 0x100) as int;
    let major_digits = if major >= 100 {
        seq![dec_digit(major / 100), dec_digit((major / 10) % 10), dec_digit(major % 10)]
    } else if major >= 10 {
        seq![dec_digit(major / 10), dec_digit(major % 10)]
    } else {
        seq![dec_digit(major)]
    };
    major_digits + seq!['.', hex_digit(minor / 16), hex_digit(minor % 16)]
}

/// Format a binary-coded-decimal version number as text.
pub fn format_version(version: u32) -> (r: String)
    ensures
        r@ == spec_format_version(version),
{
    let major = (version / 0x100) % 0x100;
    let minor = version % 0x100;
    let mut out: Vec<char> = Vec::new();
    if major >= 100 {
        out.push(dec_digit_exec(major / 100));
        out.push(dec_digit_exec((major / 10) % 10));
        out.push(dec_digit_exec(major % 10));
    } else if major >= 10 {
        out.push(dec_digit_exec(major / 10));
        out.push(dec_digit_exec(major % 10));
    } else {
        out.push(dec_digit_exec(major));
    }
    out.push('.');
    out.push(hex_digit_exec(minor / 16));
    out.push(hex_digit_exec(minor % 16));
    proof {
        assert(out@ =~= spec_format_version(version));
    }
    chars_to_string(&out)
}

/// The decimal digit character for `d`.
fn dec_digit_exec(d: u32) -> (r: char)
    requires
        d < 10,
    ensures
        r == dec_digit(d as int),
{
    (0x30 + d as u8) as char
}

/// The lowercase hexadecimal digit character for `d`.
fn hex_digit_exec(d: u32) -> (r: char)
    requires
        d < 16,
    ensures
        r == hex_digit(d as int),
{
    if d < 10 {
        (0x30 + d as u8) as char
    } else {
        (0x57 + d as u8) as char
    }
}

impl ChipJson {
    /// The report entry for one parsed chip.
    pub fn from_info(info: &ChipInfo) -> (r: ChipJson)
        ensures
            r.clock == info.clock,
            r.dual == info.dual,
            r.extra@.len() == info.extra@.len(),
            forall|i: int| 0 <= i < info.extra@.len() ==> (#[trigger] r.extra@[i]).0@ == info.extra@[
                i
            ].0@ && r.extra@[i].1 == info.extra@[i].1,
    {
        let mut extra: Vec<(String, u32)> = Vec::new();
        let mut i: usize = 0;
        while i < info.extra.len()
            invariant
                i <= info.extra@.len(),
                extra@.len() == i,
                forall|j: int| 0 <= j < i ==> (#[trigger] extra@[j]).0@ == info.extra@[j].0@
                    && extra@[j].1 == info.extra@[j].1,
            decreases info.extra@.len() - i,
        {
            extra.push((info.extra[i].0.clone(), info.extra[i].1));
            i = i + 1;
        }
        ChipJson { clock: info.clock, dual: info.dual, extra }
    }
}

impl Gd3Json {
    /// The report form of parsed GD3 metadata.
    pub fn from_info(gd3: &Gd3Info) -> (r: Gd3Json)
        ensures
            r.title@ == gd3.title@,
            r.title_jp@ == gd3.title_jp@,
            r.game@ == gd3.game@,
            r.game_jp@ == gd3.game_jp@,
            r.system@ == gd3.system@,
            r.system_jp@ == gd3.system_jp@,
            r.composer@ == gd3.composer@,
            r.composer_jp@ == gd3.composer_jp@,
            r.date@ == gd3.date@,
            r.converter@ == gd3.converter@,
            r.notes@ == gd3.notes@,
    {
        Gd3Json {
            title: gd3.title.clone(),
            title_jp: gd3.title_jp.clone(),
            game: gd3.game.clone(),
            game_jp: gd3.game_jp.clone(),
            system: gd3.system.clone(),
            system_jp: gd3.system_jp.clone(),
            composer: gd3.composer.clone(),
            composer_jp: gd3.composer_jp.clone(),
            date: gd3.date.clone(),
            converter: gd3.converter.clone(),
            notes: gd3.notes.clone(),
        }
    }
}

impl VgmHeaderJson {
    /// The report form of a parsed header: each optional field is `Some`
    /// exactly when its header value is nonzero.
    pub fn from_header(header: &VgmHeader) -> (r: VgmHeaderJson)
        ensures
            r.total_samples == header.total_samples,
            r.loop_offset == (if header.loop_offset != 0 {
                Some(header.loop_offset)
            } else {
                None::<u32>
            }),
            r.loop_samples == (if header.loop_samples != 0 {
                Some(header.loop_samples)
            } else {
                None::<u32>
            }),
            r.rate == (if header.rate != 0 {
                Some(header.rate)
            } else {
                None::<u32>
            }),
            r.volume_modifier == (if header.volume_modifier != 0 {
                Some(header.volume_modifier)
            } else {
                None::<i8>
            }),
            r.loop_base == (if header.loop_base != 0 {
                Some(header.loop_base)
            } else {
                None::<i8>
            }),
            r.loop_modifier == (if header.loop_modifier != 0 {
                Some(header.loop_modifier)
            } else {
                None::<u8>
            }),
            r.chips@.len() == header.chips@.len(),
            forall|i: int| 0 <= i < header.chips@.len() ==> {
                &&& (#[trigger] r.chips@[i]).0@ == header.chips@[i].0@
                &&& r.chips@[i].1.clock == header.chips@[i].1.clock
                &&& r.chips@[i].1.dual == header.chips@[i].1.dual
            },
    {
        let mut chips: Vec<(String, ChipJson)> = Vec::new();
        let mut i: usize = 0;
        while i < header.chips.len()
            invariant
                i <= header.chips@.len(),
                chips@.len() == i,
                forall|j: int| 0 <= j < i ==> {
                    &&& (#[trigger] chips@[j]).0@ == header.chips@[j].0@
                    &&& chips@[j].1.clock == header.chips@[j].1.clock
                    &&& chips@[j].1.dual == header.chips@[j].1.dual
                },
            decreases header.chips@.len() - i,
        {
            chips.push((header.chips[i].0.clone(), ChipJson::from_info(&header.chips[i].1)));
            i = i + 1;
        }

        VgmHeaderJson {
            total_samples: header.total_samples,
            loop_offset: if header.loop_offset != 0 {
                Some(header.loop_offset)
            } else {
                None
            },
            loop_samples: if header.loop_samples != 0 {
                Some(header.loop_samples)
            } else {
                None
            },
            rate: if header.rate != 0 {
                Some(header.rate)
            } else {
                None
            },
            volume_modifier: if header.volume_modifier != 0 {
                Some(header.volume_modifier)
            } else {
                None
            },
            loop_base: if header.loop_base != 0 {
                Some(header.loop_base)
            } else {
                None
            },
            loop_modifier: if header.loop_modifier != 0 {
                Some(header.loop_modifier)
            } else {
                None
            },
            chips,
        }
    }
}

impl VgmJson {
    /// Assemble the report for a parsed VGM file.
    pub fn new(header: &VgmHeader, gd3: Option<&Gd3Info>, commands: Vec<VgmCommand>) -> (r: VgmJson)
        ensures
            r.version@ == spec_format_version(header.version),
            r.gd3 is Some <==> gd3 is Some,
            r.commands == commands,
    {
        VgmJson {
            version: format_version(header.version),
            header: VgmHeaderJson::from_header(header),
            gd3: match gd3 {
                Some(g) => Some(Gd3Json::from_info(g)),
                None => None,
            },
            commands,
        }
    }
}

} // verus!
