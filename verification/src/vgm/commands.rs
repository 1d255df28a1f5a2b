//! VGM command definitions.

use vstd::prelude::*;

verus! {

/// Game Gear PSG stereo control opcode.
pub const OP_GG_STEREO: u8 = 0x4F;

/// SN76489 write opcode.
pub const OP_SN76489: u8 = 0x50;

/// YM2413 write opcode.
pub const OP_YM2413: u8 = 0x51;

/// YM2612 port 0 write opcode.
pub const OP_YM2612_PORT0: u8 = 0x52;

/// YM2612 port 1 write opcode.
pub const OP_YM2612_PORT1: u8 = 0x53;

/// YM2151 write opcode.
pub const OP_YM2151: u8 = 0x54;

/// YM2203 write opcode.
pub const OP_YM2203: u8 = 0x55;

/// YM2608 port 0 write opcode.
pub const OP_YM2608_PORT0: u8 = 0x56;

/// YM2608 port 1 write opcode.
pub const OP_YM2608_PORT1: u8 = 0x57;

/// YM2610 port 0 write opcode.
pub const OP_YM2610_PORT0: u8 = 0x58;

/// YM2610 port 1 write opcode.
pub const OP_YM2610_PORT1: u8 = 0x59;

/// YM3812 write opcode.
pub const OP_YM3812: u8 = 0x5A;

/// YM3526 write opcode.
pub const OP_YM3526: u8 = 0x5B;

/// Y8950 write opcode.
pub const OP_Y8950: u8 = 0x5C;

/// YMZ280B write opcode.
pub const OP_YMZ280B: u8 = 0x5D;

/// YMF262 port 0 write opcode.
pub const OP_YMF262_PORT0: u8 = 0x5E;

/// YMF262 port 1 write opcode.
pub const OP_YMF262_PORT1: u8 = 0x5F;

/// 16-bit wait opcode.
pub const OP_WAIT_NNNN: u8 = 0x61;

/// Wait-735-samples opcode.
pub const OP_WAIT_60TH: u8 = 0x62;

/// Wait-882-samples opcode.
pub const OP_WAIT_50TH: u8 = 0x63;

/// End-of-data opcode.
pub const OP_END: u8 = 0x66;

/// Data block opcode.
pub const OP_DATA_BLOCK: u8 = 0x67;

/// PCM RAM write opcode.
pub const OP_PCM_RAM_WRITE: u8 = 0x68;

/// AY-3-8910 write opcode.
pub const OP_AY8910: u8 = 0xA0;

/// DAC stream setup opcode.
pub const OP_DAC_STREAM_SETUP: u8 = 0x90;

/// DAC stream data opcode.
pub const OP_DAC_STREAM_DATA: u8 = 0x91;

/// DAC stream frequency opcode.
pub const OP_DAC_STREAM_FREQ: u8 = 0x92;

/// DAC stream start opcode.
pub const OP_DAC_STREAM_START: u8 = 0x93;

/// DAC stream stop opcode.
pub const OP_DAC_STREAM_STOP: u8 = 0x94;

/// DAC stream fast-start opcode.
pub const OP_DAC_STREAM_FAST: u8 = 0x95;

/// Seek-PCM opcode.
pub const OP_SEEK_PCM: u8 = 0xE0;

/// A parsed VGM command.
#[derive(Debug, Clone)]
pub enum VgmCommand {
    /// Game Gear PSG stereo control.
    GgStereo { data: u8 },
    /// SN76489 PSG write.
    Sn76489Write { data: u8 },
    /// YM2413 (OPLL) write.
    Ym2413Write { reg: u8, data: u8 },
    /// YM2612 (OPN2) write.
    Ym2612Write { port: u8, reg: u8, data: u8 },
    /// YM2151 (OPM) write.
    Ym2151Write { reg: u8, data: u8 },
    /// YM2203 (OPN) write.
    Ym2203Write { reg: u8, data: u8 },
    /// YM2608 (OPNA) write.
    Ym2608Write { port: u8, reg: u8, data: u8 },
    /// YM2610 (OPNB) write.
    Ym2610Write { port: u8, reg: u8, data: u8 },
    /// YM3812 (OPL2) write.
    Ym3812Write { reg: u8, data: u8 },
    /// YM3526 (OPL) write.
    Ym3526Write { reg: u8, data: u8 },
    /// Y8950 (MSX-Audio) write.
    Y8950Write { reg: u8, data: u8 },
    /// YMZ280B write.
    Ymz280bWrite { reg: u8, data: u8 },
    /// YMF262 (OPL3) write.
    Ymf262Write { port: u8, reg: u8, data: u8 },
    /// AY-3-8910 write.
    Ay8910Write { reg: u8, data: u8 },
    /// Wait N samples.
    Wait { samples: u32 },
    /// End of sound data.
    End,
    /// Data block.
    DataBlock { block_type: u8, size: Option<u32> },
    /// PCM RAM write.
    PcmRamWrite { chip_type: u8, read_offset: u32, write_offset: u32, size: u32 },
    /// YM2612 DAC write with wait.
    Ym2612Dac { data: u8, wait: u8 },
    /// DAC stream setup.
    DacStreamSetup { stream_id: u8, chip_type: u8, port: u8, reg: u8 },
    /// DAC stream set data.
    DacStreamData { stream_id: u8, bank_id: u8, step_base: u8, step_size: u8 },
    /// DAC stream set frequency.
    DacStreamFreq { stream_id: u8, frequency: u32 },
    /// DAC stream start.
    DacStreamStart { stream_id: u8, data_start: u32, length_mode: u8, data_length: u32 },
    /// DAC stream stop.
    DacStreamStop { stream_id: u8 },
    /// DAC stream fast start.
    DacStreamFast { stream_id: u8, block_id: u16, flags: u8 },
    /// Seek to PCM data bank position.
    SeekPcm { offset: u32 },
    /// RF5C68 write.
    Rf5c68Write { reg: u8, data: u8 },
    /// RF5C164 write.
    Rf5c164Write { reg: u8, data: u8 },
    /// PWM write.
    PwmWrite { reg: u8, data: u16 },
    /// GameBoy DMG write.
    GbDmgWrite { reg: u8, data: u8 },
    /// NES APU write.
    NesApuWrite { reg: u8, data: u8 },
    /// MultiPCM write.
    MultiPcmWrite { reg: u8, data: u8 },
    /// uPD7759 write.
    Upd7759Write { reg: u8, data: u8 },
    /// OKIM6258 write.
    Okim6258Write { reg: u8, data: u8 },
    /// OKIM6295 write.
    Okim6295Write { reg: u8, data: u8 },
    /// K051649 (SCC) write.
    K051649Write { reg: u8, data: u8 },
    /// K054539 write.
    K054539Write { reg: u16, data: u8 },
    /// HuC6280 write.
    Huc6280Write { reg: u8, data: u8 },
    /// C140 write.
    C140Write { reg: u16, data: u8 },
    /// K053260 write.
    K053260Write { reg: u8, data: u8 },
    /// Pokey write.
    PokeyWrite { reg: u8, data: u8 },
    /// QSound write.
    QsoundWrite { reg: u8, data: u16 },
    /// SCSP write.
    ScspWrite { reg: u16, data: u8 },
    /// WonderSwan write.
    WonderSwanWrite { reg: u8, data: u8 },
    /// VSU write.
    VsuWrite { reg: u8, data: u8 },
    /// SAA1099 write.
    Saa1099Write { reg: u8, data: u8 },
    /// ES5503 write.
    Es5503Write { reg: u8, data: u8 },
    /// ES5506 write.
    Es5506Write { reg: u8, data: u16 },
    /// X1-010 write.
    X1010Write { reg: u16, data: u8 },
    /// C352 write.
    C352Write { reg: u16, data: u16 },
    /// GA20 write.
    Ga20Write { reg: u8, data: u8 },
    /// Mikey write.
    MikeyWrite { reg: u8, data: u8 },
    /// YMF278B (OPL4) write.
    Ymf278Write { port: u8, reg: u8, data: u8 },
    /// YMF271 (OPX) write.
    Ymf271Write { port: u8, reg: u8, data: u8 },
    /// Unknown command.
    Unknown { opcode: u8, bytes: Vec<u8> },
}

/// The number of operand bytes that follow the given opcode.
pub open spec fn spec_command_size(opcode: u8) -> usize {
    if opcode == 0x62 || opcode == 0x63 || opcode == 0x66 {
        0
    } else if opcode == 0x4F || opcode == 0x50 {
        1
    } else if opcode == 0x51 || opcode == 0x52 || opcode == 0x53 || opcode == 0x54 || opcode == 0x55
        || opcode == 0x56 || opcode == 0x57 || opcode == 0x58 || opcode == 0x59 || opcode == 0x5A
        || opcode == 0x5B || opcode == 0x5C || opcode == 0x5D || opcode == 0x5E || opcode == 0x5F
        || opcode == 0x61 || opcode == 0xA0 || (0xB0 <= opcode && opcode <= 0xBF) {
        2
    } else if 0xC0 <= opcode && opcode <= 0xC8 {
        3
    } else if (0xD0 <= opcode && opcode <= 0xD6) || opcode == 0xE0 || opcode == 0xE1 {
        4
    } else if 0x70 <= opcode && opcode <= 0x7F {
        0
    } else if 0x80 <= opcode && opcode <= 0x8F {
        0
    } else if opcode == 0x67 {
        0
    } else if opcode == 0x68 {
        11
    } else if opcode == 0x90 {
        4
    } else if opcode == 0x91 {
        4
    } else if opcode == 0x92 {
        5
    } else if opcode == 0x93 {
        10
    } else if opcode == 0x94 {
        1
    } else if opcode == 0x95 {
        4
    } else {
        0
    }
}

/// Get the number of bytes to read after the opcode for a command.
pub fn command_size(opcode: u8) -> (r: usize)
    ensures
        r == spec_command_size(opcode),
{
    if opcode == 0x62 || opcode == 0x63 || opcode == 0x66 {
        0
    } else if opcode == 0x4F || opcode == 0x50 {
        1
    } else if opcode == 0x51 || opcode == 0x52 || opcode == 0x53 || opcode == 0x54 || opcode == 0x55
        || opcode == 0x56 || opcode == 0x57 || opcode == 0x58 || opcode == 0x59 || opcode == 0x5A
        || opcode == 0x5B || opcode == 0x5C || opcode == 0x5D || opcode == 0x5E || opcode == 0x5F
        || opcode == 0x61 || opcode == 0xA0 || (0xB0 <= opcode && opcode <= 0xBF) {
        2
    } else if 0xC0 <= opcode && opcode <= 0xC8 {
        3
    } else if (0xD0 <= opcode && opcode <= 0xD6) || opcode == 0xE0 || opcode == 0xE1 {
        4
    } else if 0x70 <= opcode && opcode <= 0x7F {
        0
    } else if 0x80 <= opcode && opcode <= 0x8F {
        0
    } else if opcode == 0x67 {
        0
    } else if opcode == 0x68 {
        11
    } else if opcode == 0x90 {
        4
    } else if opcode == 0x91 {
        4
    } else if opcode == 0x92 {
        5
    } else if opcode == 0x93 {
        10
    } else if opcode == 0x94 {
        1
    } else if opcode == 0x95 {
        4
    } else {
        0
    }
}

impl VgmCommand {
    /// Check if this is a wait command.
    pub fn is_wait(&self) -> (r: bool)
        ensures
            r == (self is Wait),
    {
        match self {
            VgmCommand::Wait { .. } => true,
            _ => false,
        }
    }

    /// Get wait samples if this is a wait command.
    pub fn wait_samples(&self) -> (r: Option<u32>)
        ensures
            match self {
                VgmCommand::Wait { samples } => r == Some(*samples),
                _ => r is None,
            },
    {
        match self {
            VgmCommand::Wait { samples } => Some(*samples),
            _ => None,
        }
    }
}

} // verus!
