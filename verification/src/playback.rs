//! Playing a recording back: the game state after each frame (room, sounds, RNG value,
//! inputs), the rooms a recording passes through, and moving around in it.

use vstd::prelude::*;
use crate::analysis::{describe_frame_rolls, RollCategory, descriptions_view, frame_rolls, names_view, position_of, FrameRng, InputState, SoundEnvironment};
use crate::codec::{all_wf, frame_ser, frames_view, header_version, lemma_frames_nonempty, lemma_ser_list_min_len, read_recording, read_recording_spec, ser_list, wf_frame, RecordError};
use crate::record::{FrameRecord, FrameRecordView, GameField};
use crate::room::RoomId;
use crate::roll_type::RollType;
use crate::rng::RngSequence;

verus! {

/// The game state after a frame, as far as it does not concern characters.
#[derive(Debug, Clone, Copy, PartialEq, Eq, Structural)]
pub struct PlaybackState {
    pub frame_index: usize,
    pub room_index: usize,
    pub room_id: RoomId,
    pub sounds: SoundEnvironment,
    pub rng_value: u16,
    pub input_flags: u32,
    pub input_flags_this_frame: u32,
    pub is_new_game_start: bool,
}

/// The state before the first frame. Its indices are the largest `usize`, so that the first
/// frame is frame 0 of room visit 0.
pub open spec fn empty_state() -> PlaybackState {
    PlaybackState {
        frame_index: usize::MAX,
        room_index: usize::MAX,
        room_id: RoomId { stage: 0, room: 0, player: 0 },
        sounds: SoundEnvironment(0),
        rng_value: 0,
        input_flags: 0,
        input_flags_this_frame: 0,
        is_new_game_start: false,
    }
}

/// The effect of one game change on the state: the stage, room and scenario make up the room,
/// and the sounds, RNG value, inputs and new game mark are taken over; other changes (RNG
/// rolls) leave it.
pub open spec fn apply_change(s: PlaybackState, c: GameField) -> PlaybackState {
    match c {
        GameField::StageIndex(v) => PlaybackState { room_id: RoomId { stage: v, ..s.room_id }, ..s },
        GameField::RoomIndex(v) => PlaybackState { room_id: RoomId { room: v, ..s.room_id }, ..s },
        GameField::Scenario(v) => PlaybackState { room_id: RoomId { player: v, ..s.room_id }, ..s },
        GameField::SoundFlags(v) => PlaybackState { sounds: SoundEnvironment(v), ..s },
        GameField::Rng(v) => PlaybackState { rng_value: v, ..s },
        GameField::KeysDown(v) => PlaybackState { input_flags: v, ..s },
        GameField::KeysDownThisFrame(v) => PlaybackState { input_flags_this_frame: v, ..s },
        GameField::NewGame => PlaybackState { is_new_game_start: true, ..s },
        _ => s,
    }
}

/// The game changes of a frame applied in order.
pub open spec fn apply_changes(s: PlaybackState, cs: Seq<GameField>) -> PlaybackState
    decreases cs.len(),
{
    if cs.len() == 0 {
        s
    } else {
        apply_change(apply_changes(s, cs.drop_last()), cs.last())
    }
}

/// The state after a frame: the frame's game changes (a new game is marked on its frame only),
/// the next frame index, and the next index in the room visit, which starts again at 0 when
/// the room changes.
pub open spec fn next_state_spec(s: PlaybackState, r: FrameRecordView) -> PlaybackState {
    let a = apply_changes(PlaybackState { is_new_game_start: false, ..s }, r.game_changes);
    PlaybackState {
        frame_index: if s.frame_index < usize::MAX { (s.frame_index + 1) as usize } else { 0 },
        room_index: if a.room_id == s.room_id && s.room_index < usize::MAX { (s.room_index + 1) as usize } else { 0 },
        ..a
    }
}

impl PlaybackState {
    pub fn empty() -> (r: Self)
        ensures
            r == empty_state(),
    {
        PlaybackState {
            frame_index: usize::MAX,
            room_index: usize::MAX,
            room_id: RoomId::new(0, 0, 0),
            sounds: SoundEnvironment::new(0),
            rng_value: 0,
            input_flags: 0,
            input_flags_this_frame: 0,
            is_new_game_start: false,
        }
    }

    /// The state after the given frame.
    pub fn make_next_state(&self, record: &FrameRecord) -> (r: Self)
        ensures
            r == next_state_spec(*self, record@),
    {
        let mut s = PlaybackState { is_new_game_start: false, ..*self };
        let ghost s0 = s;
        let mut i: usize = 0;
        while i < record.game_changes.len()
            invariant
                i <= record.game_changes@.len(),
                s == apply_changes(s0, record.game_changes@.take(i as int)),
            decreases record.game_changes@.len() - i,
        {
            proof {
                assert(record.game_changes@.take(i + 1).drop_last() =~= record.game_changes@.take(i as int));
            }
            match record.game_changes[i] {
                GameField::StageIndex(v) => s.room_id.stage = v,
                GameField::RoomIndex(v) => s.room_id.room = v,
                GameField::Scenario(v) => s.room_id.player = v,
                GameField::SoundFlags(v) => s.sounds = SoundEnvironment::new(v),
                GameField::Rng(v) => s.rng_value = v,
                GameField::KeysDown(v) => s.input_flags = v,
                GameField::KeysDownThisFrame(v) => s.input_flags_this_frame = v,
                GameField::NewGame => s.is_new_game_start = true,
                _ => {},
            }
            i += 1;
        }
        proof {
            assert(record.game_changes@.take(i as int) =~= record.game_changes@);
        }
        let frame_index = if self.frame_index < usize::MAX { self.frame_index + 1 } else { 0 };
        let room_index = if s.room_id == self.room_id && self.room_index < usize::MAX { self.room_index + 1 } else { 0 };
        PlaybackState { frame_index, room_index, ..s }
    }

    pub fn room_id(&self) -> (r: RoomId)
        ensures
            r == self.room_id,
    {
        self.room_id
    }

    /// The buttons held.
    pub fn input_state(&self) -> (r: InputState)
        ensures
            r == InputState::from_flags_spec(self.input_flags),
    {
        InputState::from_flags(self.input_flags)
    }

    /// The buttons pressed on this frame.
    pub fn input_state_this_frame(&self) -> (r: InputState)
        ensures
            r == InputState::from_flags_spec(self.input_flags_this_frame),
    {
        InputState::from_flags(self.input_flags_this_frame)
    }

    pub fn frame_index(&self) -> (r: usize)
        ensures
            r == self.frame_index,
    {
        self.frame_index
    }

    pub fn is_new_game_start(&self) -> (r: bool)
        ensures
            r == self.is_new_game_start,
    {
        self.is_new_game_start
    }
}

/// The state after frame `i` of a recording.
pub open spec fn state_after(frames: Seq<FrameRecordView>, i: nat) -> PlaybackState
    decreases i,
{
    let prev = if i == 0 { empty_state() } else { state_after(frames, (i - 1) as nat) };
    next_state_spec(prev, frames[i as int])
}

/// The state after each frame of a recording.
pub open spec fn states_spec(frames: Seq<FrameRecordView>) -> Seq<PlaybackState> {
    Seq::new(frames.len(), |i: int| state_after(frames, i as nat))
}

/// The first frame of the room visit that frame `i` belongs to: the last frame at or before
/// it whose room index is 0 (the first frame always is one).
pub open spec fn room_start(states: Seq<PlaybackState>, i: int) -> int
    decreases i,
{
    if i <= 0 || states[i].room_index == 0 { if i <= 0 { 0 } else { i } } else { room_start(states, i - 1) }
}

/// The first frame after frame `i` that starts a room visit, searching from `j`, if any.
pub open spec fn next_room_start_from(states: Seq<PlaybackState>, j: int) -> Option<int>
    decreases states.len() - j,
{
    if j >= states.len() {
        None
    } else if j >= 0 && states[j].room_index == 0 {
        Some(j)
    } else {
        next_room_start_from(states, j + 1)
    }
}

/// The frames of the room visit around frame `i`, from its first frame up to the first frame
/// of the next visit (or the end of the recording).
pub open spec fn room_range_of(states: Seq<PlaybackState>, i: int) -> (int, int) {
    (room_start(states, i), match next_room_start_from(states, i + 1) { Some(j) => j, None => states.len() as int })
}

proof fn lemma_room_start_bounds(states: Seq<PlaybackState>, i: int)
    requires
        0 <= i < states.len(),
    ensures
        0 <= room_start(states, i) <= i,
        room_start(states, i) == 0 || states[room_start(states, i)].room_index == 0,
        forall|k: int| room_start(states, i) < k <= i ==> #[trigger] states[k].room_index != 0,
    decreases i,
{
    if i > 0 && states[i].room_index != 0 {
        lemma_room_start_bounds(states, i - 1);
    }
}

pub(crate) proof fn lemma_next_room_start_bounds(states: Seq<PlaybackState>, j: int)
    requires
        0 <= j,
    ensures
        next_room_start_from(states, j) matches Some(k) ==> j <= k < states.len() && states[k].room_index == 0
            && forall|m: int| j <= m < k ==> #[trigger] states[m].room_index != 0,
        next_room_start_from(states, j) is None ==> forall|k: int| j <= k < states.len() ==> #[trigger] states[k].room_index != 0,
    decreases states.len() - j,
{
    if j < states.len() && states[j].room_index != 0 {
        lemma_next_room_start_bounds(states, j + 1);
    }
}

/// Between `a` and `b` no frame starts a room visit, so the next start from either is the same.
proof fn lemma_next_room_start_skip(states: Seq<PlaybackState>, a: int, b: int)
    requires
        0 <= a <= b,
        forall|k: int| a <= k < b && k < states.len() ==> #[trigger] states[k].room_index != 0,
    ensures
        next_room_start_from(states, a) == next_room_start_from(states, b),
    decreases b - a,
{
    if a < b {
        lemma_next_room_start_skip(states, a + 1, b);
    }
}

/// The next start of a room visit from `j` comes no later than any frame from `j` on that
/// starts one.
proof fn lemma_next_room_start_first(states: Seq<PlaybackState>, j: int, k: int)
    requires
        0 <= j <= k < states.len(),
        states[k].room_index == 0,
    ensures
        next_room_start_from(states, j) matches Some(m) && m <= k,
    decreases k - j,
{
    if states[j].room_index != 0 {
        lemma_next_room_start_first(states, j + 1, k);
    }
}

/// Every frame of a room visit has that visit's range.
proof fn lemma_room_range_inside(states: Seq<PlaybackState>, s0: int, i: int)
    requires
        0 <= s0 <= i < states.len(),
        s0 == 0 || states[s0].room_index == 0,
        forall|k: int| s0 < k <= i ==> #[trigger] states[k].room_index != 0,
    ensures
        room_range_of(states, i) == room_range_of(states, s0),
    decreases i - s0,
{
    lemma_room_start_bounds(states, i);
    lemma_room_start_bounds(states, s0);
    let r = room_start(states, i);
    if r != s0 {
        if r < s0 {
            assert(states[s0].room_index != 0 || s0 == 0);
        } else {
            assert(states[r].room_index != 0);
        }
    }
    lemma_next_room_start_skip(states, s0 + 1, i + 1);
}

/// A recording's frame records take at least seven bytes each, so there are fewer of them
/// than the bytes can count.
proof fn lemma_frames_fit(b: Seq<u8>, fs: Seq<FrameRecordView>)
    requires
        b.len() <= usize::MAX,
        read_recording_spec(b) matches Ok((_, r)) && r == fs,
    ensures
        fs.len() < usize::MAX,
{
    let v = header_version(b);
    let w = choose|w: Seq<FrameRecordView>| all_wf(w, wf_frame(v)) && #[trigger] ser_list(w, frame_ser(v)) == b.skip(6);
    assert(w == fs);
    assert forall|x: FrameRecordView| #[trigger] frame_ser(v)(x).len() >= 7 by {
        lemma_frames_nonempty(v, x);
    }
    lemma_ser_list_min_len(fs, frame_ser(v), 7);
}

/// The room statistics of the room visit being played.
#[derive(Debug, Clone, Copy)]
pub struct RoomStats {
    pub num_frames: usize,
    /// The visit's length in microseconds, at 30 frames per second.
    pub total_time: u64,
    pub num_rng_rolls: usize,
    pub rng_position: usize,
}

/// A recording being played back: its frame records, the state after each, the frame being
/// looked at, and the frames of the room visit it is in.
#[derive(Debug)]
pub struct Recording {
    frames: Vec<FrameRecord>,
    states: Vec<PlaybackState>,
    index: usize,
    range_start: usize,
    range_end: usize,
}

fn find_room_start(states: &Vec<PlaybackState>, i: usize) -> (r: usize)
    requires
        i < states@.len(),
    ensures
        r == room_start(states@, i as int),
{
    let mut j = i;
    while j > 0 && states[j].room_index != 0
        invariant
            j <= i < states@.len(),
            room_start(states@, i as int) == room_start(states@, j as int),
        decreases j,
    {
        j -= 1;
    }
    j
}

pub(crate) fn find_next_room_start(states: &Vec<PlaybackState>, from: usize) -> (r: Option<usize>)
    ensures
        match next_room_start_from(states@, from as int) {
            Some(k) => r == Some(k as usize),
            None => r is None,
        },
{
    let mut j = from;
    while j < states.len()
        invariant
            from <= j,
            next_room_start_from(states@, from as int) == next_room_start_from(states@, j as int),
        decreases states@.len() - j,
    {
        if states[j].room_index == 0 {
            return Some(j);
        }
        j += 1;
    }
    None
}

fn build_states(frames: &Vec<FrameRecord>) -> (r: Vec<PlaybackState>)
    ensures
        r@ == states_spec(frames_view(frames@)),
{
    let ghost fv = frames_view(frames@);
    let mut states: Vec<PlaybackState> = Vec::new();
    let mut state = PlaybackState::empty();
    let mut i: usize = 0;
    while i < frames.len()
        invariant
            fv == frames_view(frames@),
            i <= frames@.len(),
            states@ == states_spec(fv).take(i as int),
            state == if i == 0 { empty_state() } else { state_after(fv, (i - 1) as nat) },
        decreases frames@.len() - i,
    {
        state = state.make_next_state(&frames[i]);
        states.push(state);
        i += 1;
        proof {
            assert(states@ =~= states_spec(fv).take(i as int));
        }
    }
    proof {
        assert(states@ =~= states_spec(fv));
    }
    states
}

impl Recording {
    pub closed spec fn frames_v(&self) -> Seq<FrameRecordView> {
        frames_view(self.frames@)
    }

    pub closed spec fn states_v(&self) -> Seq<PlaybackState> {
        self.states@
    }

    pub closed spec fn index_v(&self) -> int {
        self.index as int
    }

    pub closed spec fn range_v(&self) -> (int, int) {
        (self.range_start as int, self.range_end as int)
    }

    /// The states follow from the frames, the index is at most the number of frames, and a
    /// frame being looked at lies in the room visit kept.
    pub open spec fn wf(&self) -> bool {
        &&& self.states_v() == states_spec(self.frames_v())
        &&& self.frames_v().len() < usize::MAX
        &&& self.index_v() <= self.frames_v().len()
        &&& 0 <= self.range_v().0 <= self.range_v().1 <= self.frames_v().len()
        &&& self.index_v() < self.frames_v().len() ==> self.range_v() == room_range_of(self.states_v(), self.index_v())
        &&& self.range_v().0 < self.range_v().1 ==> self.range_v() == room_range_of(self.states_v(), self.range_v().0)
    }

    /// The state at the current frame, while it is a frame of the recording.
    pub fn current_state(&self) -> (r: Option<PlaybackState>)
        requires
            self.wf(),
        ensures
            r == if self.index_v() < self.frames_v().len() { Some(self.states_v()[self.index_v()]) } else { None },
    {
        proof {
            if self.index_v() < self.frames_v().len() {
                lemma_room_start_bounds(self.states_v(), self.index_v());
                lemma_next_room_start_bounds(self.states_v(), self.index_v() + 1);
            }
        }
        if self.range_start <= self.index && self.index < self.range_end {
            Some(self.states[self.index])
        } else {
            None
        }
    }

    /// The record of the frame being looked at, while it is a frame of the recording.
    pub fn current_frame(&self) -> (r: Option<&FrameRecord>)
        ensures
            match r {
                Some(f) => self.index_v() < self.frames_v().len() && f@ == self.frames_v()[self.index_v()],
                None => self.index_v() >= self.frames_v().len(),
            },
    {
        if self.index < self.frames.len() {
            Some(&self.frames[self.index])
        } else {
            None
        }
    }

    /// The frame being looked at.
    pub fn index(&self) -> (r: usize)
        ensures
            r == self.index_v(),
    {
        self.index
    }

    /// The frames of the room visit kept.
    pub fn room_range(&self) -> (r: (usize, usize))
        ensures
            r.0 == self.range_v().0,
            r.1 == self.range_v().1,
    {
        (self.range_start, self.range_end)
    }

    /// The state after each frame.
    pub fn states(&self) -> (r: &Vec<PlaybackState>)
        ensures
            r@ == self.states_v(),
    {
        &self.states
    }

    /// The frame records.
    pub fn frames(&self) -> (r: &Vec<FrameRecord>)
        ensures
            frames_view(r@) == self.frames_v(),
    {
        &self.frames
    }

    /// Moves to frame `index` (at most to the end of the recording) and gives its state; the
    /// room visit kept is the one around `index` (or the last one, past the end).
    pub fn set_index(&mut self, index: usize) -> (r: Option<PlaybackState>)
        requires
            old(self).wf(),
        ensures
            final(self).wf(),
            final(self).frames_v() == old(self).frames_v(),
            final(self).index_v() == if index <= old(self).frames_v().len() { index as int } else { old(self).frames_v().len() as int },
            r == if index < old(self).frames_v().len() { Some(old(self).states_v()[index as int]) } else { None },
            final(self).frames_v().len() > 0 && !(old(self).range_v().0 <= index < old(self).range_v().1)
                ==> final(self).range_v() == room_range_of(old(self).states_v(),
                    if index < old(self).frames_v().len() { index as int } else { old(self).frames_v().len() - 1 }),
    {
        let len = self.frames.len();
        proof {
            assert(self.states@.len() == len);
        }
        let ghost old_range = (self.range_start as int, self.range_end as int);
        self.index = if index > len { len } else { index };
        if !(self.range_start <= index && index < self.range_end) {
            if len > 0 {
                let at = if index < len { index } else { len - 1 };
                let start = find_room_start(&self.states, at);
                let end = match find_next_room_start(&self.states, at + 1) {
                    Some(e) => e,
                    None => len,
                };
                proof {
                    lemma_room_start_bounds(self.states@, at as int);
                    lemma_next_room_start_bounds(self.states@, at + 1);
                    lemma_room_range_inside(self.states@, start as int, at as int);
                }
                self.range_start = start;
                self.range_end = end;
            }
        } else {
            proof {
                let (s0, e0) = old_range;
                if index < len {
                    lemma_room_start_bounds(self.states@, s0);
                    lemma_next_room_start_bounds(self.states@, s0 + 1);
                    assert(forall|k: int| s0 < k <= index ==> #[trigger] self.states@[k].room_index != 0) by {
                        assert forall|k: int| s0 < k <= index implies #[trigger] self.states@[k].room_index != 0 by {
                            if self.states@[k].room_index == 0 {
                                lemma_next_room_start_first(self.states@, s0 + 1, k);
                            }
                        }
                    }
                    assert(s0 == 0 || self.states@[s0].room_index == 0) by {
                        if s0 > 0 {
                            assert(room_start(self.states@, s0) == s0);
                        }
                    }
                    lemma_room_range_inside(self.states@, s0, index as int);
                }
            }
        }
        self.current_state()
    }

    /// Moves to the next frame.
    pub fn next(&mut self) -> (r: Option<PlaybackState>)
        requires
            old(self).wf(),
            old(self).index_v() < usize::MAX,
        ensures
            final(self).wf(),
            final(self).frames_v() == old(self).frames_v(),
            final(self).index_v() == if old(self).index_v() < old(self).frames_v().len() { old(self).index_v() + 1 } else { old(self).frames_v().len() as int },
            r == if old(self).index_v() + 1 < old(self).frames_v().len() { Some(old(self).states_v()[old(self).index_v() + 1]) } else { None },
    {
        self.set_index(self.index + 1)
    }

    /// Moves to the previous frame, if there is one.
    pub fn prev(&mut self) -> (r: Option<PlaybackState>)
        requires
            old(self).wf(),
        ensures
            final(self).wf(),
            final(self).frames_v() == old(self).frames_v(),
            old(self).index_v() == 0 ==> r is None && *final(self) == *old(self),
            old(self).index_v() > 0 ==> final(self).index_v() == old(self).index_v() - 1
                && r == Some(old(self).states_v()[old(self).index_v() - 1]),
    {
        if self.index > 0 {
            self.set_index(self.index - 1)
        } else {
            None
        }
    }

    /// The state at the start of the next room visit, if there is one.
    pub fn peek_next_room(&self) -> (r: Option<PlaybackState>)
        requires
            self.wf(),
        ensures
            r == match next_room_start_from(self.states_v(), self.index_v() + 1) {
                Some(k) => Some(self.states_v()[k]),
                None => None,
            },
    {
        proof { lemma_next_room_start_bounds(self.states@, self.index + 1); }
        match find_next_room_start(&self.states, self.index + 1) {
            Some(k) => Some(self.states[k]),
            None => None,
        }
    }

    /// Moves to the start of the next room visit (or to the end of the recording).
    pub fn next_room(&mut self) -> (r: Option<PlaybackState>)
        requires
            old(self).wf(),
        ensures
            final(self).wf(),
            final(self).frames_v() == old(self).frames_v(),
            final(self).index_v() == match next_room_start_from(old(self).states_v(), old(self).index_v() + 1) {
                Some(k) => k,
                None => old(self).frames_v().len() as int,
            },
            r == match next_room_start_from(old(self).states_v(), old(self).index_v() + 1) {
                Some(k) => Some(old(self).states_v()[k]),
                None => None,
            },
    {
        proof { lemma_next_room_start_bounds(self.states@, self.index + 1); }
        let next_index = match find_next_room_start(&self.states, self.index + 1) {
            Some(k) => k,
            None => self.frames.len(),
        };
        self.set_index(next_index)
    }

    /// A recording of the given frame records, looking at its first frame.
    pub fn from_frames(frames: Vec<FrameRecord>) -> (r: Self)
        requires
            frames@.len() < usize::MAX,
        ensures
            r.wf(),
            r.frames_v() == frames_view(frames@),
            r.index_v() == 0,
    {
        let states = build_states(&frames);
        let range_end = if frames.len() == 0 {
            0
        } else {
            match find_next_room_start(&states, 1) {
                Some(e) => e,
                None => frames.len(),
            }
        };
        proof {
            if frames@.len() > 0 {
                lemma_next_room_start_bounds(states@, 1);
            }
        }
        Recording { frames, states, index: 0, range_start: 0, range_end }
    }

    /// Reads a recording from its bytes, looking at its first frame.
    pub fn read(bytes: &[u8]) -> (r: Result<Self, RecordError>)
        ensures
            match r {
                Ok(rec) => rec.wf() && rec.index_v() == 0 && (read_recording_spec(bytes@) matches Ok((_, fs)) && rec.frames_v() == fs),
                Err(e) => read_recording_spec(bytes@) == Err::<(u16, Seq<FrameRecordView>), RecordError>(e),
            },
    {
        match read_recording(bytes) {
            Ok((_, frames)) => {
                proof {
                    assert(bytes@.len() == bytes.len());
                    lemma_frames_fit(bytes@, frames_view(frames@));
                }
                Ok(Self::from_frames(frames))
            },
            Err(e) => Err(e),
        }
    }
}

/// Each state's frame index is its position, and its index in the room visit is at most that.
pub proof fn lemma_state_indices(frames: Seq<FrameRecordView>, i: nat)
    requires
        i < frames.len(),
        frames.len() < usize::MAX,
    ensures
        state_after(frames, i).frame_index == i,
        state_after(frames, i).room_index <= i,
    decreases i,
{
    if i > 0 {
        lemma_state_indices(frames, (i - 1) as nat);
    }
}

/// A frame other than the first starts a room visit exactly when its room differs from the
/// previous frame's.
pub proof fn lemma_room_start_is_room_change(frames: Seq<FrameRecordView>, k: nat)
    requires
        0 < k < frames.len(),
        frames.len() < usize::MAX,
    ensures
        state_after(frames, k).room_index == 0 <==> state_after(frames, k).room_id != state_after(frames, (k - 1) as nat).room_id,
{
    lemma_state_indices(frames, (k - 1) as nat);
}

/// Between two starts of room visits the room stays the same.
pub proof fn lemma_same_room_until(frames: Seq<FrameRecordView>, e: int, j: int)
    requires
        0 <= e < j <= frames.len(),
        frames.len() < usize::MAX,
        forall|k: int| e < k < j ==> #[trigger] states_spec(frames)[k].room_index != 0,
    ensures
        forall|k: int| e <= k < j ==> #[trigger] states_spec(frames)[k].room_id == states_spec(frames)[e].room_id,
    decreases j - e,
{
    if j - 1 > e {
        lemma_same_room_until(frames, e, j - 1);
        assert(states_spec(frames)[j - 1].room_index != 0);
        lemma_room_start_is_room_change(frames, (j - 1) as nat);
        assert(states_spec(frames)[j - 2].room_id == states_spec(frames)[e].room_id);
    }
}

/// The rolls among a frame's game changes: unknown ones, known kinds and character rolls.
pub open spec fn count_rolls(cs: Seq<GameField>) -> nat
    decreases cs.len(),
{
    if cs.len() == 0 {
        0
    } else {
        count_rolls(cs.drop_last()) + match cs.last() {
            GameField::RngRoll(_, _) | GameField::KnownRng { .. } | GameField::CharacterRng { .. } => 1nat,
            _ => 0nat,
        }
    }
}

/// The rolls made on frames `a` to `b` (excluded).
pub open spec fn rolls_between(frames: Seq<FrameRecordView>, a: int, b: int) -> nat
    decreases b - a,
{
    if b <= a {
        0
    } else {
        rolls_between(frames, a, b - 1) + count_rolls(frames[b - 1].game_changes)
    }
}

fn count_frame_rolls(frame: &FrameRecord) -> (r: usize)
    ensures
        r == count_rolls(frame.game_changes@),
{
    let mut n: usize = 0;
    let mut i: usize = 0;
    while i < frame.game_changes.len()
        invariant
            i <= frame.game_changes@.len(),
            n == count_rolls(frame.game_changes@.take(i as int)),
            n <= i,
        decreases frame.game_changes@.len() - i,
    {
        proof {
            assert(frame.game_changes@.take(i + 1).drop_last() =~= frame.game_changes@.take(i as int));
        }
        match frame.game_changes[i] {
            GameField::RngRoll(_, _) | GameField::KnownRng { .. } | GameField::CharacterRng { .. } => n += 1,
            _ => {},
        }
        i += 1;
    }
    proof {
        assert(frame.game_changes@.take(i as int) =~= frame.game_changes@);
    }
    n
}

/// The first position of `v` in the RNG cycle, if it is there.
pub open spec fn seq_position(s: Seq<u16>, v: u16) -> Option<int> {
    if s.contains(v) { Some(position_of(s, v)) } else { None }
}

fn find_position(seq: &RngSequence, v: u16) -> (r: Option<usize>)
    ensures
        match seq_position(seq@, v) {
            Some(p) => 0 <= p < seq@.len() <= 0x8000 && r == Some(p as usize),
            None => r is None,
        },
{
    let _n = seq.len();
    let r = seq.position(v);
    proof {
        match r {
            Some(i) => {
                assert(seq@[i as int] == v);
                let p = position_of(seq@, v);
                if p != i {
                    if p < i {
                        assert(seq@[p] == v);
                    } else {
                        assert(seq@[i as int] != v);
                    }
                }
            },
            None => {
                if seq@.contains(v) {
                    let j = choose|j: int| 0 <= j < seq@.len() && seq@[j] == v;
                    assert(seq@[j] != v);
                }
            },
        }
    }
    r
}

/// Microseconds per frame at 30 frames per second.
pub const FRAME_MICROS: u64 = 33333;

/// After the first `n` states: the runs finished so far and the run being collected, each a
/// list of the frames that start a room visit (those with room index 0). A room visit that
/// starts a new game starts a new run, unless the current run is still empty.
pub open spec fn timeline_parts(states: Seq<PlaybackState>, n: nat) -> (Seq<Seq<usize>>, Seq<usize>)
    decreases n,
{
    if n == 0 {
        (seq![], seq![])
    } else {
        let (runs, current) = timeline_parts(states, (n - 1) as nat);
        let s = states[n - 1];
        if s.room_index == 0 {
            if s.is_new_game_start && current.len() > 0 {
                (runs.push(current), seq![(n - 1) as usize])
            } else {
                (runs, current.push((n - 1) as usize))
            }
        } else {
            (runs, current)
        }
    }
}

/// The runs of a recording, each as the frames at which it enters a room.
pub open spec fn timeline_spec(states: Seq<PlaybackState>) -> Seq<Seq<usize>> {
    let (runs, current) = timeline_parts(states, states.len());
    if current.len() > 0 { runs.push(current) } else { runs }
}

/// The frames among the first `n` at which the recording enters a room.
pub open spec fn room_entries(states: Seq<PlaybackState>, n: nat) -> Seq<usize>
    decreases n,
{
    if n == 0 {
        seq![]
    } else {
        let prev = room_entries(states, (n - 1) as nat);
        if states[n - 1].room_index == 0 { prev.push((n - 1) as usize) } else { prev }
    }
}

/// The runs of a timeline one after another.
pub open spec fn concat_runs(runs: Seq<Seq<usize>>) -> Seq<usize>
    decreases runs.len(),
{
    if runs.len() == 0 { seq![] } else { concat_runs(runs.drop_last()) + runs.last() }
}

/// The timeline lists every room entry once, in order, split into runs: no run is empty, and
/// every run after the first starts where a new game starts.
pub proof fn lemma_timeline_partitions_entries(states: Seq<PlaybackState>, n: nat)
    requires
        n <= states.len(),
        states.len() <= usize::MAX,
    ensures
        concat_runs(timeline_parts(states, n).0) + timeline_parts(states, n).1 == room_entries(states, n),
        forall|k: int| 0 <= k < timeline_parts(states, n).0.len() ==> (#[trigger] timeline_parts(states, n).0[k]).len() > 0,
        forall|k: int| 0 < k < timeline_parts(states, n).0.len() ==> states[(#[trigger] timeline_parts(states, n).0[k])[0] as int].is_new_game_start,
        timeline_parts(states, n).0.len() > 0 ==> timeline_parts(states, n).1.len() > 0 && states[timeline_parts(states, n).1[0] as int].is_new_game_start,
        forall|j: int| 0 <= j < timeline_parts(states, n).1.len() ==> (#[trigger] timeline_parts(states, n).1[j]) < n,
    decreases n,
{
    if n > 0 {
        let m = (n - 1) as nat;
        lemma_timeline_partitions_entries(states, m);
        let (runs, current) = timeline_parts(states, m);
        let s = states[m as int];
        if s.room_index == 0 && s.is_new_game_start && current.len() > 0 {
            assert(concat_runs(runs.push(current)) == concat_runs(runs) + current) by {
                assert(runs.push(current).drop_last() =~= runs);
            }
            assert(concat_runs(runs.push(current)) + seq![m as usize] =~= (concat_runs(runs) + current).push(m as usize));
            let runs2 = runs.push(current);
            assert forall|k: int| 0 <= k < runs2.len() implies (#[trigger] runs2[k]).len() > 0 by {
                if k < runs.len() {
                    assert(runs2[k] == runs[k]);
                }
            }
        } else if s.room_index == 0 {
            assert(concat_runs(runs) + current.push(m as usize) =~= (concat_runs(runs) + current).push(m as usize));
        }
    }
}

/// The whole timeline: every room entry of the recording once, in order, and no empty run.
pub proof fn lemma_timeline_lists_entries(states: Seq<PlaybackState>)
    requires
        states.len() <= usize::MAX,
    ensures
        concat_runs(timeline_spec(states)) == room_entries(states, states.len()),
        forall|k: int| 0 <= k < timeline_spec(states).len() ==> (#[trigger] timeline_spec(states)[k]).len() > 0,
        forall|k: int| 0 < k < timeline_spec(states).len() ==> states[(#[trigger] timeline_spec(states)[k])[0] as int].is_new_game_start,
{
    lemma_timeline_partitions_entries(states, states.len());
    let (runs, current) = timeline_parts(states, states.len());
    if current.len() > 0 {
        let t = runs.push(current);
        assert(t.drop_last() =~= runs);
        assert forall|k: int| 0 <= k < t.len() implies (#[trigger] t[k]).len() > 0 by {
            if k < runs.len() {
                assert(t[k] == runs[k]);
            }
        }
        assert forall|k: int| 0 < k < t.len() implies states[(#[trigger] t[k])[0] as int].is_new_game_start by {
            if k < runs.len() {
                assert(t[k] == runs[k]);
            }
        }
    } else {
        assert(current =~= Seq::<usize>::empty());
        assert(concat_runs(runs) + current =~= concat_runs(runs));
    }
}

pub open spec fn runs_view(runs: Seq<Vec<usize>>) -> Seq<Seq<usize>> {
    runs.map_values(|r: Vec<usize>| r@)
}

impl Recording {
    /// The recording's runs, each as the frames at which it enters a room, split where a new
    /// game starts.
    pub fn timeline(&self) -> (r: Vec<Vec<usize>>)
        requires
            self.wf(),
        ensures
            runs_view(r@) == timeline_spec(self.states_v()),
    {
        let mut timeline: Vec<Vec<usize>> = Vec::new();
        let mut current_run: Vec<usize> = Vec::new();
        let mut i: usize = 0;
        while i < self.states.len()
            invariant
                i <= self.states@.len(),
                self.states@ == self.states_v(),
                runs_view(timeline@) == timeline_parts(self.states_v(), i as nat).0,
                current_run@ == timeline_parts(self.states_v(), i as nat).1,
            decreases self.states@.len() - i,
        {
            let state = self.states[i];
            if state.room_index == 0 {
                if state.is_new_game_start && current_run.len() > 0 {
                    let run = current_run;
                    proof {
                        assert(runs_view(timeline@.push(run)) =~= runs_view(timeline@).push(run@));
                    }
                    timeline.push(run);
                    current_run = Vec::new();
                    current_run.push(i);
                    proof {
                        assert(current_run@ =~= seq![i]);
                    }
                } else {
                    current_run.push(i);
                }
            }
            i = i + 1;
        }
        if current_run.len() > 0 {
            proof {
                assert(runs_view(timeline@.push(current_run)) =~= runs_view(timeline@).push(current_run@));
            }
            timeline.push(current_run);
        }
        timeline
    }
}

impl Recording {
    /// Statistics of the room visit kept: its frames, its length in time, the rolls made in
    /// it, and the position in the RNG cycle of the RNG value it started with (0 if that value
    /// is not in the cycle). The time counts frames in 32 bits, as the tool does.
    pub fn get_room_stats(&self, seq: &RngSequence) -> (r: RoomStats)
        requires
            self.wf(),
            self.range_v().0 < self.range_v().1,
            rolls_between(self.frames_v(), self.range_v().0, self.range_v().1) <= usize::MAX,
        ensures
            r.num_frames == self.range_v().1 - self.range_v().0,
            r.total_time == ((#[verifier::truncate] (r.num_frames as u32)) as u64) * FRAME_MICROS,
            r.num_rng_rolls == rolls_between(self.frames_v(), self.range_v().0, self.range_v().1),
            r.rng_position == match seq_position(seq@, self.states_v()[self.range_v().0].rng_value & 0x7fff) {
                Some(p) => p,
                None => 0,
            },
    {
        let num_frames = self.range_end - self.range_start;
        let total_time = (#[verifier::truncate] (num_frames as u32)) as u64 * FRAME_MICROS;
        let mut num_rng_rolls: usize = 0;
        let mut i = self.range_start;
        while i < self.range_end
            invariant
                self.wf(),
                self.range_v().0 <= i <= self.range_v().1,
                num_rng_rolls == rolls_between(self.frames_v(), self.range_v().0, i as int),
                rolls_between(self.frames_v(), self.range_v().0, self.range_v().1) <= usize::MAX,
            decreases self.range_end - i,
        {
            let n = count_frame_rolls(&self.frames[i]);
            proof {
                assert(self.frames_v()[i as int] == self.frames@[i as int]@);
                lemma_rolls_between_monotone(self.frames_v(), self.range_v().0, i + 1, self.range_v().1);
            }
            num_rng_rolls = num_rng_rolls + n;
            i += 1;
        }
        let rng_value = self.states[self.range_start].rng_value & 0x7fff;
        let rng_position = match find_position(seq, rng_value) {
            Some(p) => p,
            None => 0,
        };
        RoomStats { num_frames, total_time, num_rng_rolls, rng_position }
    }
}

/// The names of the character slots on frame `k` of a list of them; none where the list does
/// not reach that far.
pub open spec fn names_at(names: Seq<Vec<Option<String>>>, k: int) -> Seq<Option<Seq<char>>> {
    if 0 <= k < names.len() { names_view(names[k]@) } else { seq![] }
}

impl Recording {
    /// The last frame whose rolls are described: the current one, or the recording's last.
    pub open spec fn rolls_end(&self) -> int {
        if self.index_v() < self.frames_v().len() - 1 { self.index_v() } else { self.frames_v().len() - 1 }
    }

    /// The rolls of frame `f` described, with the names of the character slots on it
    /// (frames counted from the start of the room visit kept).
    pub open spec fn frame_rolls_at(&self, character_names: Seq<Vec<Option<String>>>, f: int) -> Seq<(Seq<char>, RollCategory, Option<RollType>, u16)> {
        frame_rolls(
            self.frames_v()[f].game_changes,
            names_at(character_names, f - self.range_v().0),
            self.frames_v()[f].game_changes.len(),
        )
    }

    /// The description of frame `f`'s rolls, stamped `timestamp`, as `FrameRng` holds it.
    pub open spec fn describes_frame(&self, fr: FrameRng, timestamps: Seq<String>, character_names: Seq<Vec<Option<String>>>, f: int) -> bool {
        &&& fr.frame_index == f
        &&& fr.timestamp@ == timestamps[f]@
        &&& descriptions_view(fr.rng_descriptions@) == self.frame_rolls_at(character_names, f)
    }

    /// The RNG rolls of the room visit kept, up to the current frame, described frame by frame
    /// (see `describe_frame_rolls`): one entry for each frame that has rolls, in frame order.
    /// Frame `i` is stamped `timestamps[i]`, and takes its character names from
    /// `character_names[i - start]`, where `start` is the first frame of the visit (none where
    /// that list stops).
    pub fn get_rng_descriptions(&self, timestamps: &Vec<String>, character_names: &Vec<Vec<Option<String>>>) -> (r: Vec<FrameRng>)
        requires
            self.wf(),
            self.frames_v().len() > 0,
            timestamps@.len() == self.frames_v().len(),
        ensures
            forall|k: int| 0 <= k < r@.len() ==> {
                &&& self.range_v().0 <= (#[trigger] r@[k]).frame_index <= self.rolls_end()
                &&& self.describes_frame(r@[k], timestamps@, character_names@, r@[k].frame_index as int)
                &&& r@[k].rng_descriptions@.len() > 0
            },
            forall|k: int, l: int| 0 <= k < l < r@.len() ==> (#[trigger] r@[k]).frame_index < (#[trigger] r@[l]).frame_index,
            forall|f: int| self.range_v().0 <= f <= self.rolls_end() && #[trigger] self.frame_rolls_at(character_names@, f).len() > 0
                ==> exists|k: int| 0 <= k < r@.len() && r@[k].frame_index == f,
    {
        let last = self.frames.len() - 1;
        let end = if self.index < last { self.index } else { last };
        let mut frames: Vec<FrameRng> = Vec::new();
        let stop = end + 1;
        if self.range_start >= stop {
            return frames;
        }
        let mut i = self.range_start;
        let no_names: Vec<Option<String>> = Vec::new();
        while i < stop
            invariant
                self.wf(),
                end == self.rolls_end(),
                stop == end + 1,
                end < self.frames_v().len(),
                timestamps@.len() == self.frames_v().len(),
                self.range_v().0 <= i,
                i <= stop,
                no_names@.len() == 0,
                forall|k: int| 0 <= k < frames@.len() ==> {
                    &&& self.range_v().0 <= (#[trigger] frames@[k]).frame_index < i
                    &&& self.describes_frame(frames@[k], timestamps@, character_names@, frames@[k].frame_index as int)
                    &&& frames@[k].rng_descriptions@.len() > 0
                },
                forall|k: int, l: int| 0 <= k < l < frames@.len() ==> (#[trigger] frames@[k]).frame_index < (#[trigger] frames@[l]).frame_index,
                forall|f: int| self.range_v().0 <= f < i && #[trigger] self.frame_rolls_at(character_names@, f).len() > 0
                    ==> exists|k: int| 0 <= k < frames@.len() && frames@[k].frame_index == f,
            decreases stop - i,
        {
            let k = i - self.range_start;
            let names = if k < character_names.len() { &character_names[k] } else { &no_names };
            proof {
                assert(self.frames_v()[i as int] == self.frames@[i as int]@);
                assert(names_view(names@) =~= names_at(character_names@, k as int));
            }
            let frame_rng = describe_frame_rolls(i, timestamps[i].clone(), &self.frames[i].game_changes, names);
            proof {
                assert(descriptions_view(frame_rng.rng_descriptions@).len() == frame_rng.rng_descriptions@.len());
                assert(self.describes_frame(frame_rng, timestamps@, character_names@, i as int));
            }
            if frame_rng.rng_descriptions.len() > 0 {
                let ghost old_frames = frames@;
                frames.push(frame_rng);
                proof {
                    assert forall|f: int| self.range_v().0 <= f < i + 1 && #[trigger] self.frame_rolls_at(character_names@, f).len() > 0
                        implies exists|k: int| 0 <= k < frames@.len() && frames@[k].frame_index == f by {
                        if f < i {
                            let k0 = choose|k: int| 0 <= k < old_frames.len() && old_frames[k].frame_index == f;
                            assert(frames@[k0] == old_frames[k0]);
                        } else {
                            assert(frames@[frames@.len() - 1].frame_index == f);
                        }
                    }
                }
            } else {
                proof {
                    assert(self.frame_rolls_at(character_names@, i as int).len() == 0);
                }
            }
            i += 1;
        }
        frames
    }
}

impl Recording {
    /// One repaint of playback. A playing recording steps to its next frame once a frame's
    /// time has passed. Within a comparison section that ends before frame `section_end`, a
    /// step that would leave the section is not taken, and playback goes on only while the
    /// other runs compared have not finished (`others_complete`). Gives whether playback goes
    /// on.
    pub fn playback_tick(&mut self, playing: bool, tick_elapsed: bool, section_end: Option<usize>, others_complete: bool) -> (still_playing: bool)
        requires
            old(self).wf(),
            old(self).index_v() < usize::MAX,
        ensures
            final(self).wf(),
            !(playing && tick_elapsed) ==> *final(self) == *old(self) && still_playing == playing,
            playing && tick_elapsed && (section_end matches Some(end) && old(self).index_v() + 1 >= end)
                ==> *final(self) == *old(self) && still_playing == !others_complete,
            playing && tick_elapsed && !(section_end matches Some(end) && old(self).index_v() + 1 >= end) ==> {
                &&& still_playing
                &&& final(self).frames_v() == old(self).frames_v()
                &&& final(self).index_v() == if old(self).index_v() < old(self).frames_v().len() {
                    old(self).index_v() + 1
                } else {
                    old(self).frames_v().len() as int
                }
            },
    {
        if !(playing && tick_elapsed) {
            return playing;
        }
        if let Some(end) = section_end {
            if self.index + 1 >= end {
                return !others_complete;
            }
        }
        self.next();
        true
    }
}

proof fn lemma_rolls_between_monotone(frames: Seq<FrameRecordView>, a: int, b: int, c: int)
    requires
        a <= b <= c,
    ensures
        rolls_between(frames, a, b) <= rolls_between(frames, a, c),
    decreases c - b,
{
    if b < c {
        lemma_rolls_between_monotone(frames, a, b, c - 1);
    }
}

} // verus!
