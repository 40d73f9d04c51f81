use re2line::codec::{
    parse_char_field, parse_diff, parse_frame, parse_game_field, read_recording, write_char_field, write_diff,
    write_frame, write_game_field, write_recording, RecordError,
};
use re2line::game::{MATRIX, SVECTOR, VECTOR};
use re2line::record::{CharacterDiff, CharacterField, FrameRecord, GameField, RECORD_VERSION};
use re2line::roll_type::RollType;

fn sample_frame() -> FrameRecord {
    FrameRecord {
        igt_seconds: 0x0102_0304,
        igt_frames: 5,
        num_rng_rolls: 0x0607,
        game_changes: vec![GameField::Rng(0x1234), GameField::NewGame],
        character_diffs: vec![CharacterDiff::new(3, vec![CharacterField::Id(7), CharacterField::Removed])],
        object_diffs: vec![],
    }
}

fn matrix() -> MATRIX {
    MATRIX { m: [1, -1, 2, -2, 3, -3, 4, -4, 0x1000], pad: 0xbeef, t: VECTOR { x: -5, y: 6, z: 0x1234_5678 } }
}

#[test]
fn frame_bytes_are_little_endian_with_counts() {
    let mut out = Vec::new();
    write_frame(&mut out, &sample_frame());
    assert_eq!(out, vec![
        0x04, 0x03, 0x02, 0x01, // igt seconds
        0x05, // igt frames
        0x07, 0x06, // rng rolls
        0x02, 0x04, 0x34, 0x12, 0x0c, // two game changes
        0x01, 0x03, 0x02, 0x01, 0x07, 0x09, // one diff of two changes
        0x00, // no object diffs
    ]);
}

#[test]
fn header_then_frames() {
    let bytes = write_recording(&vec![sample_frame()]);
    assert_eq!(&bytes[0..6], &[0x52, 0x45, 0x32, 0x52, 0x02, 0x00]);
    assert_eq!(bytes.len(), 6 + 19);
}

#[test]
fn recording_roundtrip() {
    let frames = vec![
        sample_frame(),
        FrameRecord {
            igt_seconds: 61,
            igt_frames: 59,
            num_rng_rolls: 3,
            game_changes: vec![
                GameField::KeysDown(0x180),
                GameField::CharacterRng { char_index: 2, roll_type: RollType::ZombieHealth, start_value: 0x6ca4 },
                GameField::KnownRng { roll_type: RollType::HandgunCrit, start_value: 0x597d },
                GameField::RngRoll(0x004b_2a91, 0x322f),
                GameField::ScriptRng(9),
            ],
            character_diffs: vec![CharacterDiff::new(0, vec![
                CharacterField::State([1, 2, 3, 4]),
                CharacterField::Transform(matrix()),
                CharacterField::Velocity(SVECTOR { vx: -1, vy: 0, vz: 1, pad: 0 }),
                CharacterField::ModelPartTransform(4, matrix()),
                CharacterField::PartTranslation(0, VECTOR { x: 1, y: 2, z: 3 }),
                CharacterField::Size(100, 200),
                CharacterField::Health(-3),
                CharacterField::Flags(0xdead_beef),
            ])],
            object_diffs: vec![CharacterDiff::removed(31)],
        },
    ];
    let bytes = write_recording(&frames);
    let (header, read) = read_recording(&bytes).unwrap();
    assert_eq!(header.version, RECORD_VERSION);
    assert_eq!(format!("{:?}", read), format!("{:?}", frames));
}

#[test]
fn empty_recording_has_no_frames() {
    let (header, frames) = read_recording(&[0x52, 0x45, 0x32, 0x52, 0x02, 0x00]).unwrap();
    assert_eq!(header.version, 2);
    assert!(frames.is_empty());
}

#[test]
fn bad_headers() {
    assert_eq!(read_recording(&[0x52, 0x45, 0x32]).unwrap_err(), RecordError::BadHeader);
    assert_eq!(read_recording(b"RE2X\x02\x00").unwrap_err(), RecordError::BadHeader);
    assert_eq!(read_recording(b"RE2R\x03\x00").unwrap_err(), RecordError::UnsupportedVersion(3));
    assert_eq!(read_recording(b"RE2R\x00\x00").unwrap_err(), RecordError::UnsupportedVersion(0));
}

#[test]
fn bad_frames() {
    // a truncated frame
    assert_eq!(read_recording(b"RE2R\x02\x00\x01").unwrap_err(), RecordError::BadFrame);
    // an unknown game field tag
    let mut bytes = b"RE2R\x02\x00".to_vec();
    bytes.extend_from_slice(&[0, 0, 0, 0, 0, 0, 0, 1, 13, 0, 0]);
    assert_eq!(read_recording(&bytes).unwrap_err(), RecordError::BadFrame);
    // an unknown roll kind
    let mut bytes = b"RE2R\x02\x00".to_vec();
    bytes.extend_from_slice(&[0, 0, 0, 0, 0, 0, 0, 1, 8, 200, 0, 0, 0, 0, 0]);
    assert_eq!(read_recording(&bytes).unwrap_err(), RecordError::BadFrame);
}

#[test]
fn version_one_frames_have_no_objects() {
    let bytes = [
        0x52, 0x45, 0x32, 0x52, 0x01, 0x00,
        0x0a, 0x00, 0x00, 0x00, 0x02, 0x00, 0x00, // time and rolls
        0x01, 0x03, 0x05, // room index 5
        0x01, 0x00, 0x01, 0x01, 0x02, // slot 0: id 2
    ];
    let (header, frames) = read_recording(&bytes).unwrap();
    assert_eq!(header.version, 1);
    assert_eq!(frames.len(), 1);
    assert_eq!(frames[0].igt_seconds, 10);
    assert_eq!(frames[0].igt_frames, 2);
    assert!(frames[0].object_diffs.is_empty());
    assert!(matches!(frames[0].game_changes[0], GameField::RoomIndex(5)));
    assert!(matches!(frames[0].character_diffs[0].changes[0], CharacterField::Id(2)));
    // the same bytes are not a complete version 2 frame
    let (frame, end) = parse_frame(&bytes, 6, 1).unwrap();
    assert_eq!(end, bytes.len());
    assert_eq!(frame.igt_seconds, 10);
    assert!(parse_frame(&bytes, 6, 2).is_none());
}

#[test]
fn fields_roundtrip() {
    let fields = [
        CharacterField::Motion(-300),
        CharacterField::MotionAngle(0x0800),
        CharacterField::Floor(3),
        CharacterField::Type(0x41),
        CharacterField::Transform(matrix()),
    ];
    for f in fields.iter() {
        let mut out = vec![0xaa];
        write_char_field(&mut out, f);
        let (read, end) = parse_char_field(&out, 1).unwrap();
        assert_eq!(end, out.len());
        assert_eq!(format!("{:?}", read), format!("{:?}", f));
    }
    let mut out = Vec::new();
    write_game_field(&mut out, &GameField::CharacterRng { char_index: 1, roll_type: RollType::ZombieStaggerThreshold, start_value: 0xabcd });
    assert_eq!(out, vec![7, 1, 1, 0, 0xcd, 0xab]);
    let (read, end) = parse_game_field(&out, 0).unwrap();
    assert_eq!(end, 6);
    assert!(matches!(read, GameField::CharacterRng { char_index: 1, roll_type: RollType::ZombieStaggerThreshold, start_value: 0xabcd }));
    assert!(parse_game_field(&out, 1).is_some());
    assert!(parse_game_field(&out[..5], 0).is_none());
    assert!(parse_char_field(&[14], 0).is_none());
    assert!(parse_char_field(&[2, 0, 0], 0).is_none());
}

#[test]
fn matrix_bytes() {
    let mut out = Vec::new();
    write_char_field(&mut out, &CharacterField::Transform(matrix()));
    assert_eq!(out.len(), 33);
    assert_eq!(&out[0..5], &[2, 0x01, 0x00, 0xff, 0xff]);
    assert_eq!(&out[17..21], &[0x00, 0x10, 0xef, 0xbe]);
    assert_eq!(&out[21..25], &[0xfb, 0xff, 0xff, 0xff]);
    assert_eq!(&out[29..33], &[0x78, 0x56, 0x34, 0x12]);
}

#[test]
fn diff_bytes() {
    let mut out = Vec::new();
    write_diff(&mut out, &CharacterDiff::removed(33));
    assert_eq!(out, vec![33, 1, 9]);
    let (d, end) = parse_diff(&out, 0).unwrap();
    assert_eq!(end, 3);
    assert_eq!(d.index, 33);
    assert!(matches!(d.changes[0], CharacterField::Removed));
    assert!(parse_diff(&[1, 2, 9], 0).is_none());
}
