//! The flight recorder's frame records: what changed in the game and in each character on
//! one frame.

use vstd::prelude::*;
use crate::game::{MATRIX, SVECTOR, VECTOR};
use crate::roll_type::RollType;

verus! {

/// The version of the record format that is written.
pub const RECORD_VERSION: u16 = 2;
/// Room reserved for changes per character in one frame.
pub const MAX_CHARACTER_CHANGES: usize = 20;

/// A change to one tracked field of a character or object.
#[derive(Debug, Clone, Copy)]
pub enum CharacterField {
    State([u8; 4]),
    Id(u8),
    Transform(MATRIX),
    MotionAngle(i16),
    Motion(i16),
    Size(u16, u16),
    Floor(u8),
    Velocity(SVECTOR),
    Health(i16),
    Removed,
    Type(u8),
    Flags(u32),
    PartTranslation(u8, VECTOR),
    ModelPartTransform(u8, MATRIX),
}

/// A change to the game's state, or an RNG roll, on one frame.
#[derive(Debug, Clone, Copy)]
pub enum GameField {
    KeysDown(u32),
    KeysDownThisFrame(u32),
    StageIndex(u8),
    RoomIndex(u8),
    Rng(u16),
    StageOffset(u8),
    Scenario(u8),
    CharacterRng { char_index: u8, roll_type: RollType, start_value: u16 },
    KnownRng { roll_type: RollType, start_value: u16 },
    ScriptRng(u16),
    RngRoll(u32, u16),
    SoundFlags(u8),
    NewGame,
}

/// The changes to one character (or object) slot.
#[derive(Debug, Clone)]
pub struct CharacterDiff {
    pub index: u8,
    pub changes: Vec<CharacterField>,
}

/// A character diff as values.
pub struct CharacterDiffView {
    pub index: u8,
    pub changes: Seq<CharacterField>,
}

impl View for CharacterDiff {
    type V = CharacterDiffView;

    open spec fn view(&self) -> CharacterDiffView {
        CharacterDiffView { index: self.index, changes: self.changes@ }
    }
}

impl CharacterDiff {
    /// The changes for slot `index` (kept to 8 bits, as the format stores it).
    pub fn new(index: usize, changes: Vec<CharacterField>) -> (r: Self)
        ensures
            r.index == index as u8,
            r.changes@ == changes@,
    {
        Self { index: index as u8, changes }
    }

    /// The slot `index` became empty.
    pub fn removed(index: usize) -> (r: Self)
        ensures
            r.index == index as u8,
            r.changes@ == seq![CharacterField::Removed],
    {
        let mut changes = Vec::new();
        changes.push(CharacterField::Removed);
        Self { index: index as u8, changes }
    }
}

/// The frame record of format version 1, which has no object diffs.
#[derive(Debug)]
pub struct FrameRecordV1 {
    pub igt_seconds: u32,
    pub igt_frames: u8,
    pub num_rng_rolls: u16,
    pub game_changes: Vec<GameField>,
    pub character_diffs: Vec<CharacterDiff>,
}

/// Everything that changed on one frame.
#[derive(Debug)]
pub struct FrameRecord {
    pub igt_seconds: u32,
    pub igt_frames: u8,
    pub num_rng_rolls: u16,
    pub game_changes: Vec<GameField>,
    pub character_diffs: Vec<CharacterDiff>,
    pub object_diffs: Vec<CharacterDiff>,
}

/// The diffs of a list as values.
pub open spec fn diffs_view(diffs: Seq<CharacterDiff>) -> Seq<CharacterDiffView> {
    diffs.map_values(|d: CharacterDiff| d@)
}

/// A frame record as values.
pub struct FrameRecordView {
    pub igt_seconds: u32,
    pub igt_frames: u8,
    pub num_rng_rolls: u16,
    pub game_changes: Seq<GameField>,
    pub character_diffs: Seq<CharacterDiffView>,
    pub object_diffs: Seq<CharacterDiffView>,
}

impl View for FrameRecord {
    type V = FrameRecordView;

    open spec fn view(&self) -> FrameRecordView {
        FrameRecordView {
            igt_seconds: self.igt_seconds,
            igt_frames: self.igt_frames,
            num_rng_rolls: self.num_rng_rolls,
            game_changes: self.game_changes@,
            character_diffs: diffs_view(self.character_diffs@),
            object_diffs: diffs_view(self.object_diffs@),
        }
    }
}

impl FrameRecord {
    /// A version 1 record as a current one, with no object diffs.
    pub fn from_v1(value: FrameRecordV1) -> (r: Self)
        ensures
            r.igt_seconds == value.igt_seconds,
            r.igt_frames == value.igt_frames,
            r.num_rng_rolls == value.num_rng_rolls,
            r.game_changes@ == value.game_changes@,
            r.character_diffs@ == value.character_diffs@,
            r.object_diffs@.len() == 0,
    {
        Self {
            igt_seconds: value.igt_seconds,
            igt_frames: value.igt_frames,
            num_rng_rolls: value.num_rng_rolls,
            game_changes: value.game_changes,
            character_diffs: value.character_diffs,
            object_diffs: Vec::new(),
        }
    }
}

/// The start of a recording: the magic "RE2R" and the format version.
#[derive(Debug, Clone, Copy, PartialEq, Eq, Structural)]
pub struct RecordHeader {
    pub version: u16,
}

impl RecordHeader {
    /// The header of a recording in the current format.
    pub fn new() -> (r: Self)
        ensures
            r.version == RECORD_VERSION,
    {
        Self { version: RECORD_VERSION }
    }
}

} // verus!
