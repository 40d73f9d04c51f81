//! Finding runs through a room in recordings, to compare them: a room visit that comes from a
//! given room, leaves to a given room, and passes the checkpoints in order.

use vstd::prelude::*;
use crate::playback::{find_next_room_start, next_room_start_from, lemma_next_room_start_bounds, lemma_room_start_is_room_change,
    lemma_same_room_until, states_spec, PlaybackState, Recording};
use crate::room::RoomId;

verus! {

/// Something the player must do in the room for a run to count.
#[derive(Debug, Clone, Copy, PartialEq, Eq, Structural)]
pub enum Checkpoint {
    /// Trigger the AOT with this id.
    Aot(u8),
}

/// What the run search reads of a frame besides the recording's game state: whether the
/// player is there, and the ids of the AOTs the player triggers on that frame.
#[derive(Debug, Clone)]
pub struct FrameSummary {
    pub player_present: bool,
    pub triggered_aots: Vec<u8>,
}

impl Checkpoint {
    pub open spec fn matches_spec(self, frame: FrameSummary) -> bool {
        match self {
            Checkpoint::Aot(id) => frame.player_present && frame.triggered_aots@.contains(id),
        }
    }

    /// Whether the player reaches the checkpoint on the frame.
    pub fn matches(&self, frame: &FrameSummary) -> (r: bool)
        ensures
            r == self.matches_spec(*frame),
    {
        match self {
            Checkpoint::Aot(id) => {
                if !frame.player_present {
                    return false;
                }
                let mut i: usize = 0;
                while i < frame.triggered_aots.len()
                    invariant
                        i <= frame.triggered_aots@.len(),
                        frame.player_present,
                        *self == Checkpoint::Aot(*id),
                        forall|j: int| 0 <= j < i ==> frame.triggered_aots@[j] != *id,
                    decreases frame.triggered_aots@.len() - i,
                {
                    if frame.triggered_aots[i] == *id {
                        assert(frame.triggered_aots@[i as int] == *id);
                        return true;
                    }
                    i += 1;
                }
                false
            },
        }
    }
}

/// Which room visits count as runs: the room, where the player comes from, where the player
/// goes next, and the checkpoints to pass in order.
#[derive(Debug, Clone)]
pub struct RoomFilter {
    pub room_id: RoomId,
    pub entrance_id: RoomId,
    pub exit_id: RoomId,
    pub checkpoints: Vec<Checkpoint>,
}

/// A run found in a recording: the frame it starts on and the last frame of its room visit,
/// where the player's route through the room ends.
#[derive(Debug, Clone, Copy, PartialEq, Eq, Structural)]
pub struct RunSpan {
    pub frame_index: usize,
    pub end_index: usize,
}

/// One frame of the search after the room checks: the checkpoint reached next, the run found
/// if the last checkpoint is passed (when the player is there on the last frame of the room
/// visit, which for the recording's last visit is its last frame), and the next frame to look
/// at (after a run, the next room visit; past the end when there is none).
pub open spec fn frame_step(f: RoomFilter, info: Seq<FrameSummary>, len: int, idx: int, cp: int, start: int, end: int)
    -> (int, Option<RunSpan>, int)
{
    let cp2 = if 0 <= cp < f.checkpoints@.len() && f.checkpoints@[cp].matches_spec(info[idx]) { cp + 1 } else { cp };
    if cp2 == f.checkpoints@.len() {
        let last = if end == usize::MAX { len } else { end };
        let run = if 0 < last <= len && info[last - 1].player_present {
            Some(RunSpan { frame_index: start as usize, end_index: (last - 1) as usize })
        } else {
            None
        };
        (cp2, run, last)
    } else {
        (cp2, None, idx + 1)
    }
}

/// The runs found from frame `idx` on, in order, given the room last entered, the checkpoint
/// to reach next, and the first and the following room visit's frames (`usize::MAX` when there
/// is none). Entering a room (a room change, or the start of a new game) checks the room,
/// where the player came from and where the player goes next; a room visit that does not fit
/// is skipped.
pub open spec fn scan_runs(f: RoomFilter, states: Seq<PlaybackState>, info: Seq<FrameSummary>, idx: int,
    last_room: RoomId, cp: int, start: int, end: int, fuel: nat) -> Seq<RunSpan>
    decreases fuel,
{
    if fuel == 0 || idx < 0 || idx >= states.len() {
        Seq::empty()
    } else {
        let s = states[idx];
        if s.room_id != last_room || s.is_new_game_start {
            let entrance = if s.is_new_game_start { f.entrance_id } else { last_room };
            let next = next_room_start_from(states, idx + 1);
            let end2 = match next { Some(j) => j, None => usize::MAX as int };
            let exit = match next {
                Some(j) => if states[j].is_new_game_start { f.exit_id } else { states[j].room_id },
                None => f.exit_id,
            };
            if s.room_id != f.room_id || entrance != f.entrance_id || exit != f.exit_id {
                let skip_to = match next { Some(j) => j, None => states.len() as int };
                scan_runs(f, states, info, skip_to, s.room_id, 0, s.frame_index as int, end2, (fuel - 1) as nat)
            } else {
                let (cp2, run, next_idx) = frame_step(f, info, states.len() as int, idx, 0, s.frame_index as int, end2);
                let found = match run { Some(r) => seq![r], None => Seq::empty() };
                found + scan_runs(f, states, info, next_idx, s.room_id, cp2, s.frame_index as int, end2, (fuel - 1) as nat)
            }
        } else {
            let (cp2, run, next_idx) = frame_step(f, info, states.len() as int, idx, cp, start, end);
            let found = match run { Some(r) => seq![r], None => Seq::empty() };
            found + scan_runs(f, states, info, next_idx, last_room, cp2, start, end, (fuel - 1) as nat)
        }
    }
}

/// The runs of a recording: the search from its first frame, before any room was entered.
pub open spec fn runs_of(f: RoomFilter, states: Seq<PlaybackState>, info: Seq<FrameSummary>) -> Seq<RunSpan> {
    scan_runs(f, states, info, 0, RoomId { stage: 0, room: 0, player: 0 }, 0, 0, usize::MAX as int, (states.len() + 1) as nat)
}

/// The frame after the room visit that starts at frame `idx`: the first frame of the next
/// visit, or the end of the recording.
pub open spec fn visit_end(states: Seq<PlaybackState>, idx: int) -> int {
    match next_room_start_from(states, idx + 1) {
        Some(j) => j,
        None => states.len() as int,
    }
}

/// At the start of a new game the entrance counts as met, whatever room the search last
/// entered: a room visit that begins with a new game, in the filter's room, that leaves to the
/// filter's exit (or to another new game, or to the end of the recording), whose checkpoints
/// are passed on its first frame (or that has none), and with the player there on its last
/// frame, is the first run found from there on, from the visit's first frame to its last.
pub proof fn lemma_new_game_visit_is_run(f: RoomFilter, states: Seq<PlaybackState>, info: Seq<FrameSummary>,
    idx: int, last_room: RoomId, cp: int, start: int, end: int, fuel: nat)
    requires
        states.len() < usize::MAX,
        info.len() == states.len(),
        0 <= idx < states.len(),
        fuel > 0,
        states[idx].is_new_game_start,
        states[idx].room_id == f.room_id,
        f.checkpoints@.len() == 0 || (f.checkpoints@.len() == 1 && f.checkpoints@[0].matches_spec(info[idx])),
        next_room_start_from(states, idx + 1) matches Some(j) ==> states[j].is_new_game_start
            || states[j].room_id == f.exit_id,
        info[visit_end(states, idx) - 1].player_present,
    ensures
        scan_runs(f, states, info, idx, last_room, cp, start, end, fuel).len() > 0,
        scan_runs(f, states, info, idx, last_room, cp, start, end, fuel)[0] == (RunSpan {
            frame_index: states[idx].frame_index,
            end_index: (visit_end(states, idx) - 1) as usize,
        }),
{
    lemma_next_room_start_bounds(states, idx + 1);
}

/// A recording that starts with a new game in the filter's room, under the same conditions,
/// has that first visit as its first run, whatever the filter's entrance.
pub proof fn lemma_first_new_game_visit_is_run(f: RoomFilter, states: Seq<PlaybackState>, info: Seq<FrameSummary>)
    requires
        0 < states.len() < usize::MAX,
        info.len() == states.len(),
        states[0].is_new_game_start,
        states[0].room_id == f.room_id,
        f.checkpoints@.len() == 0 || (f.checkpoints@.len() == 1 && f.checkpoints@[0].matches_spec(info[0])),
        next_room_start_from(states, 1) matches Some(j) ==> states[j].is_new_game_start
            || states[j].room_id == f.exit_id,
        info[visit_end(states, 0) - 1].player_present,
    ensures
        runs_of(f, states, info).len() > 0,
        runs_of(f, states, info)[0] == (RunSpan {
            frame_index: states[0].frame_index,
            end_index: (visit_end(states, 0) - 1) as usize,
        }),
{
    lemma_new_game_visit_is_run(f, states, info, 0, RoomId { stage: 0, room: 0, player: 0 }, 0, 0,
        usize::MAX as int, (states.len() + 1) as nat);
}

impl RoomFilter {
    pub fn new(room_id: RoomId, entrance_id: RoomId, exit_id: RoomId, checkpoints: Vec<Checkpoint>) -> (r: Self)
        ensures
            r.room_id == room_id,
            r.entrance_id == entrance_id,
            r.exit_id == exit_id,
            r.checkpoints@ == checkpoints@,
    {
        Self { room_id, entrance_id, exit_id, checkpoints }
    }

    /// The runs through the filter's room in a recording, given what the search reads of each
    /// frame.
    pub fn get_runs(&self, recording: &Recording, info: &Vec<FrameSummary>) -> (r: Vec<RunSpan>)
        requires
            recording.wf(),
            info@.len() == recording.frames_v().len(),
        ensures
            r@ == runs_of(*self, recording.states_v(), info@),
    {
        let states = recording.states();
        let ghost frames = recording.frames_v();
        let len = states.len();
        let mut runs: Vec<RunSpan> = Vec::new();
        let mut idx: usize = 0;
        let mut last_room = RoomId::zero();
        let mut cp: usize = 0;
        let mut start: usize = 0;
        let mut end: usize = usize::MAX;
        let ghost mut fuel: nat = (len + 1) as nat;
        let ghost mut entered = false;
        let ghost mut e: int = 0;
        proof {
            assert(runs@ + scan_runs(*self, states@, info@, 0, last_room, 0, 0, usize::MAX as int, fuel)
                =~= runs_of(*self, states@, info@));
        }
        while idx < len
            invariant
                states@ == recording.states_v(),
                states@ == states_spec(frames),
                frames.len() < usize::MAX,
                len == states@.len(),
                len == info@.len(),
                idx <= len,
                cp <= self.checkpoints@.len(),
                fuel >= len - idx + 1,
                runs_of(*self, states@, info@) == runs@ + scan_runs(*self, states@, info@, idx as int, last_room,
                    cp as int, start as int, end as int, fuel),
                !entered ==> end == usize::MAX,
                entered ==> 0 <= e <= idx && e < len
                    && (forall|k: int| e <= k < idx ==> #[trigger] states@[k].room_id == last_room)
                    && (end == usize::MAX ==> next_room_start_from(states@, e + 1) is None)
                    && (end != usize::MAX ==> idx <= end < len && states@[end as int].room_index == 0 && e < end
                        && next_room_start_from(states@, e + 1) == Some(end as int)),
            decreases len - idx,
        {
            let ghost before = runs@;
            let ghost f0 = fuel;
            let s = states[idx];
            let mut entering = false;
            if s.room_id != last_room || s.is_new_game_start {
                entering = true;
                let entrance = if s.is_new_game_start { self.entrance_id } else { last_room };
                let next = find_next_room_start(states, idx + 1);
                proof { lemma_next_room_start_bounds(states@, idx + 1); }
                let (end2, exit) = match next {
                    Some(j) => (j, if states[j].is_new_game_start { self.exit_id } else { states[j].room_id }),
                    None => (usize::MAX, self.exit_id),
                };
                proof {
                    e = idx as int;
                    entered = true;
                }
                last_room = s.room_id;
                start = s.frame_index;
                cp = 0;
                end = end2;
                if s.room_id != self.room_id || entrance != self.entrance_id || exit != self.exit_id {
                    let skip_to = match next {
                        Some(j) => j,
                        None => len,
                    };
                    proof {
                        lemma_same_room_until(frames, e, skip_to as int);
                        fuel = (fuel - 1) as nat;
                    }
                    idx = skip_to;
                    continue;
                }
            } else {
                proof {
                    if entered && end != usize::MAX && idx == end {
                        lemma_room_start_is_room_change(frames, idx as nat);
                        assert(states@[idx - 1].room_id == last_room);
                    }
                }
            }
            let ghost cp0 = cp;
            if cp < self.checkpoints.len() && self.checkpoints[cp].matches(&info[idx]) {
                cp += 1;
            }
            if cp == self.checkpoints.len() {
                let next_idx = if end == usize::MAX { len } else { end };
                if next_idx > 0 && next_idx <= len && info[next_idx - 1].player_present {
                    runs.push(RunSpan { frame_index: start, end_index: next_idx - 1 });
                }
                proof {
                    if entered {
                        lemma_next_room_start_bounds(states@, e + 1);
                        lemma_same_room_until(frames, e, next_idx as int);
                    }
                }
                idx = next_idx;
            } else {
                idx += 1;
            }
            proof {
                fuel = (fuel - 1) as nat;
                assert(runs_of(*self, states@, info@) == runs@ + scan_runs(*self, states@, info@, idx as int, last_room,
                    cp as int, start as int, end as int, fuel)) by {
                    let t = scan_runs(*self, states@, info@, idx as int, last_room, cp as int, start as int, end as int, fuel);
                    assert(runs@ + t =~= before + ((runs@.subrange(before.len() as int, runs@.len() as int)) + t));
                }
            }
        }
        proof {
            assert(runs@ + scan_runs(*self, states@, info@, idx as int, last_room, cp as int, start as int, end as int, fuel)
                =~= runs@);
        }
        runs
    }
}

// ---------------------------------------------------------------------------------------------
// Statistics of the runs compared

/// The frames a run takes: from its first frame to its last, both counted.
pub open spec fn run_frames(r: RunSpan) -> int {
    r.end_index - r.frame_index + 1
}

/// The frames of the first `n` runs together.
pub open spec fn total_frames(runs: Seq<RunSpan>, n: nat) -> int
    decreases n,
{
    if n == 0 { 0 } else { total_frames(runs, (n - 1) as nat) + run_frames(runs[n - 1]) }
}

/// Every run ends no earlier than it starts.
pub open spec fn runs_wf(runs: Seq<RunSpan>) -> bool {
    forall|k: int| 0 <= k < runs.len() ==> (#[trigger] runs[k]).frame_index <= runs[k].end_index
}

proof fn lemma_total_frames_bound(runs: Seq<RunSpan>, n: nat)
    requires
        n <= runs.len(),
        runs_wf(runs),
    ensures
        0 <= total_frames(runs, n),
        forall|k: int| 0 <= k < n ==> run_frames(#[trigger] runs[k]) <= total_frames(runs, n),
    decreases n,
{
    if n > 0 {
        lemma_total_frames_bound(runs, (n - 1) as nat);
        assert(runs[n - 1].frame_index <= runs[n - 1].end_index);
    }
}

/// The frames of the fastest run, of the slowest, and on average (rounded down); none when
/// there are no runs.
pub fn run_times(runs: &Vec<RunSpan>) -> (r: Option<(usize, usize, usize)>)
    requires
        runs_wf(runs@),
        total_frames(runs@, runs@.len()) <= usize::MAX,
    ensures
        runs@.len() == 0 <==> r is None,
        r matches Some((fastest, slowest, average)) ==> {
            &&& exists|k: int| 0 <= k < runs@.len() && run_frames(#[trigger] runs@[k]) == fastest
            &&& forall|k: int| 0 <= k < runs@.len() ==> fastest <= run_frames(#[trigger] runs@[k])
            &&& exists|k: int| 0 <= k < runs@.len() && run_frames(#[trigger] runs@[k]) == slowest
            &&& forall|k: int| 0 <= k < runs@.len() ==> run_frames(#[trigger] runs@[k]) <= slowest
            &&& average == total_frames(runs@, runs@.len()) / (runs@.len() as int)
        },
{
    if runs.len() == 0 {
        return None;
    }
    proof { lemma_total_frames_bound(runs@, runs@.len()); }
    let mut fastest: usize = runs[0].end_index - runs[0].frame_index + 1;
    let mut slowest: usize = fastest;
    let mut total: usize = fastest;
    let mut i: usize = 1;
    proof {
        assert(runs[0].frame_index <= runs[0].end_index);
        assert(total_frames(runs@, 0) == 0);
        assert(total_frames(runs@, 1) == run_frames(runs@[0]));
    }
    while i < runs.len()
        invariant
            1 <= i <= runs@.len(),
            runs_wf(runs@),
            total_frames(runs@, runs@.len()) <= usize::MAX,
            forall|k: int| 0 <= k < runs@.len() ==> run_frames(#[trigger] runs@[k]) <= total_frames(runs@, runs@.len()),
            total == total_frames(runs@, i as nat),
            exists|k: int| 0 <= k < i && run_frames(#[trigger] runs@[k]) == fastest,
            forall|k: int| 0 <= k < i ==> fastest <= run_frames(#[trigger] runs@[k]),
            exists|k: int| 0 <= k < i && run_frames(#[trigger] runs@[k]) == slowest,
            forall|k: int| 0 <= k < i ==> run_frames(#[trigger] runs@[k]) <= slowest,
        decreases runs@.len() - i,
    {
        proof {
            assert(runs@[i as int].frame_index <= runs@[i as int].end_index);
            lemma_total_frames_mono(runs@, (i + 1) as nat, runs@.len());
        }
        let frames = runs[i].end_index - runs[i].frame_index + 1;
        if frames < fastest {
            fastest = frames;
        }
        if frames > slowest {
            slowest = frames;
        }
        total = total + frames;
        i += 1;
    }
    Some((fastest, slowest, total / runs.len()))
}

proof fn lemma_total_frames_mono(runs: Seq<RunSpan>, a: nat, b: nat)
    requires
        a <= b <= runs.len(),
        runs_wf(runs),
    ensures
        total_frames(runs, a) <= total_frames(runs, b),
    decreases b - a,
{
    if a < b {
        lemma_total_frames_mono(runs, a, (b - 1) as nat);
        assert(runs[b - 1].frame_index <= runs[b - 1].end_index);
    }
}

// ---------------------------------------------------------------------------------------------
// Ordering the runs compared

/// Why a comparison cannot be made.
#[derive(Debug, Clone, Copy, PartialEq, Eq, Structural)]
pub enum CompareError {
    /// No recording was chosen.
    NoRecordings,
    /// The recordings hold no run that passes the filter.
    NoRuns,
    /// There is no run at the index asked for.
    InvalidRunIndex(usize),
}

/// A run put into runs ordered by length: after every run no longer than it, before the runs
/// that are longer.
pub open spec fn insert_by_length(sorted: Seq<RunSpan>, r: RunSpan) -> Seq<RunSpan>
    decreases sorted.len(),
{
    if sorted.len() == 0 {
        seq![r]
    } else if run_frames(sorted.last()) <= run_frames(r) {
        sorted.push(r)
    } else {
        insert_by_length(sorted.drop_last(), r).push(sorted.last())
    }
}

/// The runs ordered by length, fastest first; runs of the same length keep their order (a
/// stable sort).
pub open spec fn by_length(runs: Seq<RunSpan>) -> Seq<RunSpan>
    decreases runs.len(),
{
    if runs.len() == 0 {
        seq![]
    } else {
        insert_by_length(by_length(runs.drop_last()), runs.last())
    }
}

/// Inserting at the place after the last run no longer than `r`.
proof fn lemma_insert_at(s: Seq<RunSpan>, r: RunSpan, k: int)
    requires
        0 <= k <= s.len(),
        forall|i: int| k <= i < s.len() ==> run_frames(#[trigger] s[i]) > run_frames(r),
        k == 0 || run_frames(s[k - 1]) <= run_frames(r),
    ensures
        insert_by_length(s, r) == s.take(k).push(r) + s.skip(k),
    decreases s.len(),
{
    if s.len() == k {
        assert(s.take(k) =~= s);
        assert(s.skip(k) =~= Seq::<RunSpan>::empty());
        assert(s.take(k).push(r) + s.skip(k) =~= s.push(r));
    } else {
        let d = s.drop_last();
        assert(run_frames(s.last()) > run_frames(r));
        assert forall|i: int| k <= i < d.len() implies run_frames(#[trigger] d[i]) > run_frames(r) by {
            assert(d[i] == s[i]);
        }
        if k > 0 {
            assert(d[k - 1] == s[k - 1]);
        }
        lemma_insert_at(d, r, k);
        assert(d.take(k) =~= s.take(k));
        assert((d.take(k).push(r) + d.skip(k)).push(s.last()) =~= s.take(k).push(r) + s.skip(k));
    }
}

/// Inserting keeps runs ordered by length.
proof fn lemma_insert_sorted(s: Seq<RunSpan>, r: RunSpan)
    requires
        forall|i: int, j: int| 0 <= i < j < s.len() ==> run_frames(#[trigger] s[i]) <= run_frames(#[trigger] s[j]),
    ensures
        forall|i: int, j: int| 0 <= i < j < insert_by_length(s, r).len()
            ==> run_frames(#[trigger] insert_by_length(s, r)[i]) <= run_frames(#[trigger] insert_by_length(s, r)[j]),
        insert_by_length(s, r).len() == s.len() + 1,
    decreases s.len(),
{
    if s.len() > 0 && run_frames(s.last()) > run_frames(r) {
        let d = s.drop_last();
        lemma_insert_sorted(d, r);
        let t = insert_by_length(d, r);
        assert forall|i: int| 0 <= i < t.len() implies run_frames(#[trigger] t[i]) <= run_frames(s.last()) by {
            lemma_insert_members(d, r);
            if t[i] != r {
                let j = choose|j: int| 0 <= j < d.len() && d[j] == t[i];
                assert(d[j] == s[j]);
            }
        }
    }
}

/// Inserting adds `r` to the runs and nothing else.
proof fn lemma_insert_members(s: Seq<RunSpan>, r: RunSpan)
    ensures
        forall|i: int| 0 <= i < insert_by_length(s, r).len() ==> #[trigger] insert_by_length(s, r)[i] == r
            || exists|j: int| 0 <= j < s.len() && s[j] == insert_by_length(s, r)[i],
    decreases s.len(),
{
    if s.len() > 0 && run_frames(s.last()) > run_frames(r) {
        let d = s.drop_last();
        lemma_insert_members(d, r);
        let t = insert_by_length(s, r);
        assert forall|i: int| 0 <= i < t.len() implies #[trigger] t[i] == r
            || exists|j: int| 0 <= j < s.len() && s[j] == t[i] by {
            if i < t.len() - 1 {
                let u = insert_by_length(d, r);
                assert(t[i] == u[i]);
                if u[i] != r {
                    let j = choose|j: int| 0 <= j < d.len() && d[j] == u[i];
                    assert(s[j] == d[j]);
                }
            } else {
                assert(s[s.len() - 1] == t[i]);
            }
        }
    } else if s.len() > 0 {
        let t = insert_by_length(s, r);
        assert forall|i: int| 0 <= i < t.len() implies #[trigger] t[i] == r
            || exists|j: int| 0 <= j < s.len() && s[j] == t[i] by {
            if i < s.len() {
                assert(s[i] == t[i]);
            }
        }
    }
}

/// Ordering by length gives the runs in non-decreasing order of length.
pub proof fn lemma_by_length_sorted(runs: Seq<RunSpan>)
    ensures
        by_length(runs).len() == runs.len(),
        forall|i: int, j: int| 0 <= i < j < by_length(runs).len()
            ==> run_frames(#[trigger] by_length(runs)[i]) <= run_frames(#[trigger] by_length(runs)[j]),
    decreases runs.len(),
{
    if runs.len() > 0 {
        lemma_by_length_sorted(runs.drop_last());
        lemma_insert_sorted(by_length(runs.drop_last()), runs.last());
    }
}

proof fn lemma_insert_multiset(s: Seq<RunSpan>, r: RunSpan)
    ensures
        insert_by_length(s, r).to_multiset() =~= s.to_multiset().insert(r),
    decreases s.len(),
{
    broadcast use vstd::seq_lib::group_to_multiset_ensures;
    if s.len() == 0 {
        assert(seq![r] =~= Seq::<RunSpan>::empty().push(r));
    } else if run_frames(s.last()) <= run_frames(r) {
    } else {
        let d = s.drop_last();
        lemma_insert_multiset(d, r);
        assert(s =~= d.push(s.last()));
    }
}

/// Ordering by length keeps every run, as often as it occurs: the result is a permutation.
pub proof fn lemma_by_length_permutation(runs: Seq<RunSpan>)
    ensures
        by_length(runs).to_multiset() =~= runs.to_multiset(),
    decreases runs.len(),
{
    broadcast use vstd::seq_lib::group_to_multiset_ensures;
    if runs.len() > 0 {
        lemma_by_length_permutation(runs.drop_last());
        lemma_insert_multiset(by_length(runs.drop_last()), runs.last());
        assert(runs =~= runs.drop_last().push(runs.last()));
    }
}

fn run_length_key(r: &RunSpan) -> (k: i128)
    ensures
        k == r.end_index - r.frame_index,
{
    r.end_index as i128 - r.frame_index as i128
}

/// The runs of a comparison, fastest first (see `by_length`): an error when no recording was
/// chosen, or when the recordings hold no run.
pub fn order_runs(num_recordings: usize, runs: &Vec<RunSpan>) -> (r: Result<Vec<RunSpan>, CompareError>)
    ensures
        num_recordings == 0 ==> r == Err::<Vec<RunSpan>, CompareError>(CompareError::NoRecordings),
        num_recordings > 0 && runs@.len() == 0 ==> r == Err::<Vec<RunSpan>, CompareError>(CompareError::NoRuns),
        num_recordings > 0 && runs@.len() > 0 ==> (r matches Ok(v) && v@ == by_length(runs@)),
{
    if num_recordings == 0 {
        return Err(CompareError::NoRecordings);
    }
    if runs.len() == 0 {
        return Err(CompareError::NoRuns);
    }
    let mut sorted: Vec<RunSpan> = Vec::new();
    let mut i: usize = 0;
    while i < runs.len()
        invariant
            i <= runs@.len(),
            sorted@ == by_length(runs@.take(i as int)),
        decreases runs@.len() - i,
    {
        let r = runs[i];
        let key = run_length_key(&r);
        proof {
            lemma_by_length_sorted(runs@.take(i as int));
        }
        let mut k = sorted.len();
        while k > 0 && run_length_key(&sorted[k - 1]) > key
            invariant
                k <= sorted@.len(),
                key == r.end_index - r.frame_index,
                forall|j: int| k <= j < sorted@.len() ==> run_frames(#[trigger] sorted@[j]) > run_frames(r),
            decreases k,
        {
            k -= 1;
        }
        proof {
            lemma_insert_at(sorted@, r, k as int);
            assert(runs@.take(i + 1).drop_last() =~= runs@.take(i as int));
            assert(runs@.take(i + 1).last() == r);
        }
        sorted.insert(k, r);
        proof {
            assert(sorted@ =~= by_length(runs@.take(i + 1)));
        }
        i += 1;
    }
    proof {
        assert(runs@.take(i as int) =~= runs@);
    }
    Ok(sorted)
}

/// The run at `index` of the runs compared: an error where there is none.
pub fn select_run(runs: &Vec<RunSpan>, index: usize) -> (r: Result<RunSpan, CompareError>)
    ensures
        index < runs@.len() ==> r == Ok::<RunSpan, CompareError>(runs@[index as int]),
        index >= runs@.len() ==> r == Err::<RunSpan, CompareError>(CompareError::InvalidRunIndex(index)),
{
    if index < runs.len() {
        Ok(runs[index])
    } else {
        Err(CompareError::InvalidRunIndex(index))
    }
}

} // verus!
