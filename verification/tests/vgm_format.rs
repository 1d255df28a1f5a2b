//! Tests for the VGM binary building blocks: delay encoding, GD3 text,
//! header fields and the version formatter.

use vgmck::vgm::delay::generate_delay;
use vgmck::vgm::gd3::{generate_gd3, write_utf16_string};
use vgmck::vgm::json::format_version;
use vgmck::compiler::Gd3Metadata;

#[test]
fn test_short_delay() {
    let cmds = generate_delay(5);
    assert_eq!(cmds, vec![0x74]);
}

#[test]
fn test_60th_delay() {
    let cmds = generate_delay(735);
    assert_eq!(cmds, vec![0x62]);
}

#[test]
fn test_50th_delay() {
    let cmds = generate_delay(882);
    assert_eq!(cmds, vec![0x63]);
}

#[test]
fn test_16bit_delay() {
    let cmds = generate_delay(1000);
    assert_eq!(cmds, vec![0x61, 0xE8, 0x03]);
}

#[test]
fn test_utf16_ascii() {
    let mut data = Vec::new();
    write_utf16_string(&mut data, "ABC");
    assert_eq!(data, vec![0x41, 0x00, 0x42, 0x00, 0x43, 0x00, 0x00, 0x00]);
}

#[test]
fn test_utf16_japanese() {
    let mut data = Vec::new();
    write_utf16_string(&mut data, "\u{3042}");
    assert_eq!(data, vec![0x42, 0x30, 0x00, 0x00]);
}

#[test]
fn test_format_version() {
    assert_eq!(format_version(0x161), "1.61");
    assert_eq!(format_version(0x150), "1.50");
    assert_eq!(format_version(0x100), "1.00");
    assert_eq!(format_version(0x171), "1.71");
}

#[test]
fn test_delay_decodes_exactly() {
    // Every encoding decodes back to its duration, across the command
    // boundaries and the overlap ranges.
    for d in [0u64, 1, 15, 16, 17, 32, 33, 734, 735, 751, 752, 881, 882, 898, 899, 1469, 1470,
        1617, 1764, 65535, 65536, 67152, 67153, 67299, 67300, 200_000]
    {
        let bytes = generate_delay(d);
        let mut total: u64 = 0;
        let mut i = 0;
        while i < bytes.len() {
            match bytes[i] {
                0x62 => {
                    total += 735;
                    i += 1;
                }
                0x63 => {
                    total += 882;
                    i += 1;
                }
                0x61 => {
                    total += bytes[i + 1] as u64 + 256 * bytes[i + 2] as u64;
                    i += 3;
                }
                b if (0x70..=0x7F).contains(&b) => {
                    total += (b - 0x70) as u64 + 1;
                    i += 1;
                }
                other => panic!("unexpected wait byte {other:#x}"),
            }
        }
        assert_eq!(total, d, "delay {d} decoded to {total}");
    }
}

#[test]
fn test_delay_overlap_single_byte() {
    // The overlap ranges absorb a one-sample offset into one byte.
    assert_eq!(generate_delay(736), vec![0x62, 0x70]);
    assert_eq!(generate_delay(883), vec![0x63, 0x70]);
}

#[test]
fn test_gd3_block_layout() {
    let mut m = Gd3Metadata::default();
    m.title_en = String::from("Foo");
    m.title_jp = String::from("Foo");
    let block = generate_gd3(&m);
    assert_eq!(&block[0..4], b"Gd3 ");
    // Version 1.00.
    assert_eq!(&block[4..8], &[0x00, 0x01, 0x00, 0x00]);
    // Byte length of the string region.
    let len = u32::from_le_bytes([block[8], block[9], block[10], block[11]]) as usize;
    assert_eq!(block.len(), 12 + len);
    // Title decodes back.
    assert_eq!(&block[12..18], &[0x46, 0x00, 0x6F, 0x00, 0x6F, 0x00]);
}

#[test]
fn test_gd3_surrogate_pair() {
    // A code point past 0xFFFF is emitted as a surrogate pair.
    let mut data = Vec::new();
    write_utf16_string(&mut data, "\u{1D11E}");
    assert_eq!(data, vec![0x34, 0xD8, 0x1E, 0xDD, 0x00, 0x00]);
}

#[test]
fn test_invalid_channel_character() {
    assert!(matches!(
        vgmck::compiler::channel_index('1'),
        Err(vgmck::Error::InvalidChannel('1'))
    ));
    assert!(matches!(vgmck::compiler::channel_index('A'), Ok(0)));
    assert!(matches!(vgmck::compiler::channel_index('z'), Ok(51)));
}

#[test]
fn test_reader_rejects_bad_magic() {
    let data = vec![0u8; 64];
    let mut reader = vgmck::vgm::reader::VgmReader::new(&data);
    assert!(matches!(reader.parse_header(), Err(vgmck::Error::VgmParse(_))));
}

#[test]
fn test_reader_rejects_truncation() {
    let data = vec![0x56, 0x67, 0x6D, 0x20];
    let mut reader = vgmck::vgm::reader::VgmReader::new(&data);
    assert!(matches!(reader.parse_header(), Err(vgmck::Error::VgmParse(_))));
}

#[test]
fn test_note_length_formula() {
    // A quarter note at 120 beats per minute is 22050 samples.
    assert_eq!(vgmck::compiler::channel::calc_note_length(120, 4, 0), 22050);
    // One dot adds half again.
    assert_eq!(vgmck::compiler::channel::calc_note_length(120, 4, 1), 33075);
    // A zero denominator yields no length.
    assert_eq!(vgmck::compiler::channel::calc_note_length(120, 0, 0), 0);
}

#[test]
fn test_envelope_store_push_and_loop() {
    let mut env = vgmck::compiler::envelope::MacroEnvelope::new();
    env.push(3);
    env.push(5);
    env.set_loop_point();
    env.push(7);
    assert_eq!(env.len(), 3);
    assert_eq!(env.get(0), Some(3));
    assert_eq!(env.get(2), Some(7));
    assert_eq!(env.last(), Some(7));
    assert_eq!(env.loop_start, 2);
}

#[test]
fn test_event_queue_stable_time_order() {
    let mut q = vgmck::compiler::event::EventQueue::new();
    q.insert(vgmck::compiler::event::Event::raw(100, 1));
    q.insert(vgmck::compiler::event::Event::raw(50, 2));
    q.insert(vgmck::compiler::event::Event::raw(100, 3));
    let evs = q.iter();
    assert_eq!(evs.len(), 3);
    assert_eq!(evs[0].time, 50);
    assert_eq!(evs[1].time, 100);
    assert_eq!(evs[2].time, 100);
    // Stable: the later insertion at an equal time comes second.
    assert!(matches!(evs[1].data, vgmck::compiler::event::EventData::Raw(1)));
    assert!(matches!(evs[2].data, vgmck::compiler::event::EventData::Raw(3)));
    assert_eq!(q.last_time(), Some(100));
}

#[test]
fn test_read_num_forms() {
    let cs: Vec<char> = "$1F".chars().collect();
    let mut pos = 0usize;
    assert_eq!(vgmck::compiler::read_num(&cs, &mut pos), 31);
    let cs2: Vec<char> = "-42x".chars().collect();
    let mut pos2 = 0usize;
    assert_eq!(vgmck::compiler::read_num(&cs2, &mut pos2), -42);
    assert_eq!(pos2, 3);
    let cs3: Vec<char> = ",7".chars().collect();
    let mut pos3 = 0usize;
    assert_eq!(vgmck::compiler::read_num(&cs3, &mut pos3), 7);
}

#[test]
fn test_wrapper_arguments_transformed() {
    // The UTF-16 writer must transform its input, not copy it through.
    let mut data = Vec::new();
    vgmck::vgm::gd3::write_utf16_string(&mut data, "A");
    assert_ne!(data, vec![b'A']);
    assert_eq!(data, vec![0x41, 0x00, 0x00, 0x00]);
}
