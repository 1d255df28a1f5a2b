//! End-to-end tests: MML text in, VGM image out, checked through the
//! reader.

use vgmck::vgm::commands::VgmCommand;
use vgmck::vgm::json::VgmJson;
use vgmck::vgm::reader::VgmReader;
use vgmck::Compiler;

/// Compile MML text and parse the result back.
fn compile_and_parse(mml: &str) -> VgmJson {
    let mut compiler = Compiler::new();
    let data = compiler.compile_text(mml).expect("compilation failed");
    let mut reader = VgmReader::new(&data);
    let header = reader.parse_header().expect("failed to parse header");
    let gd3 = reader.parse_gd3(&header).expect("failed to parse GD3");
    let commands = reader.parse_commands(&header).expect("failed to parse commands");
    VgmJson::new(&header, gd3.as_ref(), commands)
}

fn has_command<F: Fn(&VgmCommand) -> bool>(vgm: &VgmJson, predicate: F) -> bool {
    vgm.commands.iter().any(|c| predicate(c))
}

fn count_commands<F: Fn(&VgmCommand) -> bool>(vgm: &VgmJson, predicate: F) -> usize {
    vgm.commands.iter().filter(|c| predicate(c)).count()
}

fn chip_clock(vgm: &VgmJson, name: &str) -> Option<u32> {
    vgm.header.chips.iter().find(|(n, _)| n == name).map(|(_, c)| c.clock)
}

#[test]
fn test_psg_basic_note() {
    let vgm = compile_and_parse("\r\n#EX-PSG ABC\r\nA o4c4\r\n");
    assert!(chip_clock(&vgm, "sn76489").is_some(), "sn76489 chip should be present in header");
    assert!(
        has_command(&vgm, |c| matches!(c, VgmCommand::Sn76489Write { .. })),
        "Should have SN76489 write commands"
    );
    assert!(has_command(&vgm, |c| matches!(c, VgmCommand::Wait { .. })), "Should have wait commands");
    assert!(matches!(vgm.commands.last(), Some(VgmCommand::End)), "Should end with End command");
}

#[test]
fn test_psg_multiple_channels() {
    let vgm = compile_and_parse("\r\n#EX-PSG ABC\r\nA o4c4\r\nB o4e4\r\nC o4g4\r\n");
    let writes = count_commands(&vgm, |c| matches!(c, VgmCommand::Sn76489Write { .. }));
    assert!(writes >= 6, "Should have writes for 3 channels (at least 2 per channel for tone+volume)");
}

#[test]
fn test_timing_basic() {
    let vgm = compile_and_parse("\r\n#EX-PSG A\r\nA t120 o4c4\r\n");
    let total = vgm.header.total_samples;
    assert!(
        total > 20000 && total < 25000,
        "Total samples should be around 22050 for a quarter note at 120 BPM, got {}",
        total
    );
}

#[test]
fn test_loop_point() {
    let vgm = compile_and_parse("\r\n#EX-PSG A\r\nA o4c4 L o4d4\r\n");
    assert!(vgm.header.loop_offset.is_some(), "Loop offset should be present");
    assert!(vgm.header.loop_samples.is_some(), "Loop samples should be present");
}

#[test]
fn test_vgm_version() {
    let vgm = compile_and_parse("\r\n#EX-PSG A\r\nA o4c4\r\n");
    assert!(vgm.version.starts_with("1."), "Version should be 1.xx, got {}", vgm.version);
}

#[test]
fn test_octave_changes() {
    let vgm = compile_and_parse("\r\n#EX-PSG A\r\nA o3c4 >c4 >c4 <c4\r\n");
    let writes = count_commands(&vgm, |c| matches!(c, VgmCommand::Sn76489Write { .. }));
    assert!(writes >= 4, "Should have multiple writes for octave changes");
}

#[test]
fn test_rest() {
    let vgm = compile_and_parse("\r\n#EX-PSG A\r\nA o4c4 r4 o4d4\r\n");
    assert!(
        has_command(&vgm, |c| matches!(c, VgmCommand::Wait { .. })),
        "Should have wait commands for rests"
    );
}

#[test]
fn test_tempo_change() {
    let vgm = compile_and_parse("\r\n#EX-PSG A\r\nA t60 o4c4 t240 o4c4\r\n");
    let total = vgm.header.total_samples;
    assert!(total > 50000 && total < 60000, "Total samples should reflect tempo changes, got {}", total);
}

#[test]
fn test_volume_envelope() {
    let vgm = compile_and_parse("\r\n#EX-PSG A\r\n@v0 = 15 14 13 12 11 10 9 8\r\nA @v0 o4c2\r\n");
    let writes = count_commands(&vgm, |c| matches!(c, VgmCommand::Sn76489Write { .. }));
    assert!(writes >= 8, "Should have multiple volume writes for envelope");
}

#[test]
fn test_text_macro() {
    let vgm = compile_and_parse("\r\n#EX-PSG A\r\n*a o4cdef\r\nA *a *a\r\n");
    let writes = count_commands(&vgm, |c| matches!(c, VgmCommand::Sn76489Write { .. }));
    assert!(writes >= 8, "Should have writes for all macro-expanded notes");
}

#[test]
fn test_mml_loop() {
    let vgm = compile_and_parse("\r\n#EX-PSG A\r\nA [o4c8]4\r\n");
    let total = vgm.header.total_samples;
    assert!(total > 40000 && total < 50000, "Loop should expand to 4 notes, got {} samples", total);
}

#[test]
fn test_custom_clock() {
    let vgm = compile_and_parse("\r\n#EX-PSG ABC H=4000000\r\nA o4c4\r\n");
    let clock = chip_clock(&vgm, "sn76489").expect("sn76489 should be present");
    assert_eq!(clock, 4000000, "Clock should be 4MHz");
}

#[test]
fn test_gd3_title() {
    let vgm = compile_and_parse("\r\n#TITLE Test Song Title\r\n#EX-PSG A\r\nA o4c4\r\n");
    let gd3 = vgm.gd3.expect("GD3 should be present");
    assert!(gd3.title.contains("Test Song Title"));
}

#[test]
fn test_gd3_all_fields() {
    let mml = "\r\n#TITLE-E English Title\r\n#TITLE-J Japanese Title\r\n#GAME Test Game\r\n#GAME-J Test Game JP\r\n#SYSTEM Test System\r\n#COMPOSER Test Composer\r\n#DATE 2024-01-01\r\n#PROGRAMMER Test Converter\r\n\"Notes line\r\n#EX-PSG A\r\nA o4c4\r\n";
    let vgm = compile_and_parse(mml);
    let gd3 = vgm.gd3.expect("GD3 should be present");
    assert!(gd3.title.contains("English Title"));
    assert!(gd3.title_jp.contains("Japanese Title"));
    assert!(gd3.game.contains("Test Game"));
    assert!(gd3.game_jp.contains("Test Game JP"));
    assert!(gd3.system.contains("Test System"));
    assert!(gd3.composer.contains("Test Composer"));
    assert!(gd3.date.contains("2024-01-01"));
    assert!(gd3.converter.contains("Test Converter"));
    assert!(gd3.notes.contains("Notes line"));
}

#[test]
fn test_opll_basic_note() {
    let vgm = compile_and_parse("\r\n#EX-OPLL ABC\r\nA @1 o4c4\r\n");
    assert!(chip_clock(&vgm, "ym2413").is_some(), "ym2413 chip should be present");
    assert!(
        has_command(&vgm, |c| matches!(c, VgmCommand::Ym2413Write { .. })),
        "Should have YM2413 write commands"
    );
}

#[test]
fn test_opn2_basic_note() {
    let vgm = compile_and_parse("\r\n#EX-OPN2 ABCDEF\r\nA @1 o4c4\r\n");
    assert!(chip_clock(&vgm, "ym2612").is_some(), "ym2612 chip should be present");
    assert!(
        has_command(&vgm, |c| matches!(c, VgmCommand::Ym2612Write { .. })),
        "Should have YM2612 write commands"
    );
}

#[test]
fn test_ay8910_basic_note() {
    let vgm = compile_and_parse("\r\n#EX-AY8910 ABC\r\nA o4c4\r\n");
    assert!(chip_clock(&vgm, "ay8910").is_some(), "ay8910 chip should be present");
    assert!(
        has_command(&vgm, |c| matches!(c, VgmCommand::Ay8910Write { .. })),
        "Should have AY8910 write commands"
    );
}

#[test]
fn test_nes_apu_basic_note() {
    let vgm = compile_and_parse("\r\n#EX-2A03 ABCDE\r\nA o4c4\r\n");
    assert!(chip_clock(&vgm, "nes_apu").is_some(), "nes_apu chip should be present");
    assert!(
        has_command(&vgm, |c| matches!(c, VgmCommand::NesApuWrite { .. })),
        "Should have NES APU write commands"
    );
}

#[test]
fn test_dmg_basic_note() {
    let vgm = compile_and_parse("\r\n#EX-DMG ABCD\r\nA o4c4\r\n");
    assert!(chip_clock(&vgm, "gb_dmg").is_some(), "gb_dmg chip should be present");
    assert!(
        has_command(&vgm, |c| matches!(c, VgmCommand::GbDmgWrite { .. })),
        "Should have GB DMG write commands"
    );
}

#[test]
fn test_huc6280_basic_note() {
    let vgm = compile_and_parse("\r\n#EX-HuC6280 ABCDEF\r\nA @v15 o4c4\r\n");
    assert!(chip_clock(&vgm, "huc6280").is_some(), "huc6280 chip should be present");
    assert!(
        has_command(&vgm, |c| matches!(c, VgmCommand::Huc6280Write { .. })),
        "Should have HuC6280 write commands"
    );
}

#[test]
fn test_pokey_basic_note() {
    let vgm = compile_and_parse("\r\n#EX-Pokey ABCD\r\nA o4c4\r\n");
    assert!(chip_clock(&vgm, "pokey").is_some(), "pokey chip should be present");
    assert!(
        has_command(&vgm, |c| matches!(c, VgmCommand::PokeyWrite { .. })),
        "Should have Pokey write commands"
    );
}

#[test]
fn test_qsound_basic_note() {
    let vgm = compile_and_parse("\r\n#EX-QSound ABCDEFGHIJKLMNOP\r\nA @v15 o4c4\r\n");
    assert!(chip_clock(&vgm, "qsound").is_some(), "qsound chip should be present");
    assert!(
        has_command(&vgm, |c| matches!(c, VgmCommand::QsoundWrite { .. })),
        "Should have QSound write commands"
    );
}

#[test]
fn test_t6w28_basic_note() {
    let vgm = compile_and_parse("\r\n#EX-T6W28 ABC\r\nA o4c4\r\n");
    assert!(
        chip_clock(&vgm, "sn76489").is_some(),
        "sn76489 chip should be present (T6W28 uses same header field)"
    );
    assert!(
        has_command(&vgm, |c| matches!(c, VgmCommand::Sn76489Write { .. })),
        "Should have SN76489-compatible write commands"
    );
}

#[test]
fn test_ay8930_basic_note() {
    let vgm = compile_and_parse("\r\n#EX-AY8930 ABC\r\nA o4c4\r\n");
    assert!(
        chip_clock(&vgm, "ay8910").is_some(),
        "ay8910 chip should be present (AY8930 uses same header field)"
    );
    assert!(
        has_command(&vgm, |c| matches!(c, VgmCommand::Ay8910Write { .. })),
        "Should have AY8910-compatible write commands"
    );
}

#[test]
fn test_opl2_basic_note() {
    let vgm = compile_and_parse("\r\n#EX-OPL2 ABCDEFGHI\r\nA @1 o4c4\r\n");
    assert!(chip_clock(&vgm, "ym3812").is_some(), "ym3812 chip should be present");
    assert!(
        has_command(&vgm, |c| matches!(c, VgmCommand::Ym3812Write { .. })),
        "Should have YM3812 write commands"
    );
}

#[test]
fn test_opl3_basic_note() {
    let vgm = compile_and_parse("\r\n#EX-OPL3 ABCDEFGHIJKLMNOP\r\nA @1 o4c4\r\n");
    assert!(chip_clock(&vgm, "ymf262").is_some(), "ymf262 chip should be present");
    assert!(
        has_command(&vgm, |c| matches!(c, VgmCommand::Ymf262Write { .. })),
        "Should have YMF262 write commands"
    );
}

#[test]
fn test_multiple_chips() {
    let vgm = compile_and_parse("\r\n#EX-PSG ABC\r\n#EX-OPLL DEF\r\nA o4c4\r\nD o4c4\r\n");
    assert!(chip_clock(&vgm, "sn76489").is_some(), "sn76489 should be present");
    assert!(chip_clock(&vgm, "ym2413").is_some(), "ym2413 should be present");
    assert!(has_command(&vgm, |c| matches!(c, VgmCommand::Sn76489Write { .. })), "Should have SN76489 writes");
    assert!(has_command(&vgm, |c| matches!(c, VgmCommand::Ym2413Write { .. })), "Should have YM2413 writes");
}

#[test]
fn test_direct_register_write_ay8910() {
    let vgm = compile_and_parse("\r\n#EX-AY8910 ABC\r\nA x7,0 o4c4\r\n");
    assert!(
        has_command(&vgm, |c| matches!(c, VgmCommand::Ay8910Write { reg: 7, .. })),
        "Should have direct register write to register 7"
    );
}

#[test]
fn test_total_samples_bounds_event_times() {
    // Every wait in the stream sums to no more than the header total.
    let vgm = compile_and_parse("\r\n#EX-PSG AB\r\nA o4c4 r4 d4\r\nB o3e2\r\n");
    let total: u64 = vgm
        .commands
        .iter()
        .filter_map(|c| match c {
            VgmCommand::Wait { samples } => Some(*samples as u64),
            _ => None,
        })
        .sum();
    assert!(total <= vgm.header.total_samples as u64, "waits {} exceed total {}", total, vgm.header.total_samples);
}

#[test]
fn test_dual_chip_flag_set_when_capacity_exceeded() {
    // Four voices on a three-voice chip raise the dual-chip bit.
    let vgm = compile_and_parse("\r\n#EX-PSG ABCD\r\nA o4c4\r\nB o4d4\r\nC o4e4\r\nD o4f4\r\n");
    let dual = vgm.header.chips.iter().find(|(n, _)| n == "sn76489").map(|(_, c)| c.dual).unwrap();
    assert!(dual, "four PSG voices need a second chip");
}

#[test]
fn test_dual_chip_flag_clear_within_capacity() {
    let vgm = compile_and_parse("\r\n#EX-PSG ABC\r\nA o4c4\r\nB o4d4\r\nC o4e4\r\n");
    let dual = vgm.header.chips.iter().find(|(n, _)| n == "sn76489").map(|(_, c)| c.dual).unwrap();
    assert!(!dual, "three PSG voices fit one chip");
}

#[test]
fn test_unknown_chip_is_rejected() {
    let mut compiler = Compiler::new();
    let r = compiler.compile_text("#EX-NOSUCH A\nA o4c4\n");
    assert!(matches!(r, Err(vgmck::Error::UnknownChip(_))));
}

#[test]
fn test_undeclared_channel_is_rejected() {
    let mut compiler = Compiler::new();
    let r = compiler.compile_text("#EX-PSG A\nB o4c4\n");
    assert!(matches!(r, Err(vgmck::Error::UndeclaredChannel('B'))));
}

#[test]
fn test_psg_cache_suppresses_repeated_volume() {
    // Writing the same volume twice while a note sounds emits one write.
    let once = compile_and_parse("\r\n#EX-PSG A\r\nA v10 o4c4\r\n");
    let twice = compile_and_parse("\r\n#EX-PSG A\r\nA v10 v10 o4c4\r\n");
    let w1 = count_commands(&once, |c| matches!(c, VgmCommand::Sn76489Write { .. }));
    let w2 = count_commands(&twice, |c| matches!(c, VgmCommand::Sn76489Write { .. }));
    assert_eq!(w1, w2, "a repeated identical volume adds no writes");
}

#[test]
fn test_header_offsets_consistent() {
    // The end-of-file offset spans the file; the GD3 pointer lands on
    // its magic.
    let mut compiler = Compiler::new();
    let data = compiler.compile_text("#EX-PSG A\nA o4c4\n").unwrap();
    let eof = u32::from_le_bytes([data[4], data[5], data[6], data[7]]) as usize;
    assert_eq!(eof + 4, data.len());
    let gd3 = u32::from_le_bytes([data[0x14], data[0x15], data[0x16], data[0x17]]) as usize;
    assert!(gd3 != 0);
    assert_eq!(&data[gd3 + 0x14..gd3 + 0x18], b"Gd3 ");
}

#[test]
fn test_opl4_basic() {
    let vgm = compile_and_parse("#EX-OPL4 A\nA o4c4\n");
    assert!(chip_clock(&vgm, "ymf278b").is_some(), "ymf278b chip should be present");
    assert_eq!(chip_clock(&vgm, "ymf278b"), Some(33868800));
    assert!(
        has_command(&vgm, |c| matches!(c, VgmCommand::Ymf278Write { .. })),
        "Should have YMF278B writes"
    );
}

#[test]
fn test_chip_registry_has_opl4() {
    let names = vgmck::chips::list_chips();
    assert_eq!(names.len(), 14);
    assert!(names.contains(&"OPL4"));
    assert!(vgmck::chips::create_chip("OPL4").is_ok());
    for n in names {
        assert!(vgmck::chips::create_chip(n).is_ok(), "listed chip {} must construct", n);
    }
    assert!(vgmck::chips::create_chip("GI-AY").is_ok());
    assert!(vgmck::chips::create_chip("FAMICOM").is_ok());
    assert!(vgmck::chips::create_chip("GAMEBOY").is_ok());
    assert!(vgmck::chips::create_chip("NOCHIP").is_err());
}

#[test]
fn test_total_samples_equals_last_event_time() {
    // The header total is exactly the time of the latest queued event:
    // a trailing rest adds no padding to the total.
    let with_rest = compile_and_parse("#EX-PSG A\nA t120o4c4r4\n");
    let without = compile_and_parse("#EX-PSG A\nA t120o4c4\n");
    assert_eq!(
        with_rest.header.total_samples, without.header.total_samples,
        "a trailing rest must not raise the total past the last event"
    );
}
