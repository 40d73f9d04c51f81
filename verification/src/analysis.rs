//! What the analysis tool reads from a recorded frame besides the characters: the input
//! state, the sounds the player makes, and the RNG rolls with their outcomes and where they
//! stand in the RNG cycle.

use vstd::prelude::*;
use crate::rng::{Outcome, RngSequence, describe_spec, outcome_text, roll_description, roll_description_spec};
use crate::record::GameField;
use crate::room::{hex_fixed, push_hex};
use crate::text::{decimal, lemma_text_order, push_decimal, text_less, text_lt};
use crate::roll_type::RollType;
use crate::world::CharacterSettings;

verus! {

pub const KEY_FORWARD: u32 = 0x01;
pub const KEY_RIGHT: u32 = 0x02;
pub const KEY_BACK: u32 = 0x04;
pub const KEY_LEFT: u32 = 0x08;
pub const KEY_ACTION: u32 = 0x80;
pub const KEY_AIM: u32 = 0x100;
pub const KEY_RUN_CANCEL: u32 = 0x200;

/// Which of the player's sounds the enemies in the room can hear, one bit each.
#[derive(Debug, Copy, Clone, PartialEq, Eq, Hash, Structural)]
pub struct SoundEnvironment(pub u8);

impl SoundEnvironment {
    pub fn new(value: u8) -> (r: Self)
        ensures
            r.0 == value,
    {
        Self(value)
    }

    fn bit(self, bit: u8) -> (r: bool)
        ensures
            r == (self.0 & bit != 0),
    {
        (self.0 & bit) != 0
    }

    pub fn is_gunshot_audible(self) -> (r: bool)
        ensures
            r == (self.0 & 0x01 != 0),
    {
        self.bit(0x01)
    }

    pub fn is_walking_footstep_audible(self) -> (r: bool)
        ensures
            r == (self.0 & 0x02 != 0),
    {
        self.bit(0x02)
    }

    pub fn is_running_footstep_audible(self) -> (r: bool)
        ensures
            r == (self.0 & 0x04 != 0),
    {
        self.bit(0x04)
    }

    pub fn is_knife_audible(self) -> (r: bool)
        ensures
            r == (self.0 & 0x08 != 0),
    {
        self.bit(0x08)
    }

    pub fn is_aim_audible(self) -> (r: bool)
        ensures
            r == (self.0 & 0x10 != 0),
    {
        self.bit(0x10)
    }

    pub fn is_silent(self) -> (r: bool)
        ensures
            r == (self.0 == 0),
    {
        self.0 == 0
    }
}

/// The buttons held on a frame.
#[derive(Debug, Clone, Copy, PartialEq, Eq, Structural)]
pub struct InputState {
    pub is_forward_pressed: bool,
    pub is_backward_pressed: bool,
    pub is_left_pressed: bool,
    pub is_right_pressed: bool,
    pub is_action_pressed: bool,
    pub is_run_cancel_pressed: bool,
    pub is_aim_pressed: bool,
}

impl InputState {
    /// The buttons whose bits are set in the game's key flags.
    pub open spec fn from_flags_spec(flags: u32) -> Self {
        InputState {
            is_forward_pressed: flags & KEY_FORWARD != 0,
            is_backward_pressed: flags & KEY_BACK != 0,
            is_left_pressed: flags & KEY_LEFT != 0,
            is_right_pressed: flags & KEY_RIGHT != 0,
            is_action_pressed: flags & KEY_ACTION != 0,
            is_run_cancel_pressed: flags & KEY_RUN_CANCEL != 0,
            is_aim_pressed: flags & KEY_AIM != 0,
        }
    }

    /// The buttons whose bits are set in the game's key flags.
    pub fn from_flags(flags: u32) -> (r: Self)
        ensures
            r == Self::from_flags_spec(flags),
    {
        Self {
            is_forward_pressed: (flags & KEY_FORWARD) != 0,
            is_backward_pressed: (flags & KEY_BACK) != 0,
            is_left_pressed: (flags & KEY_LEFT) != 0,
            is_right_pressed: (flags & KEY_RIGHT) != 0,
            is_action_pressed: (flags & KEY_ACTION) != 0,
            is_run_cancel_pressed: (flags & KEY_RUN_CANCEL) != 0,
            is_aim_pressed: (flags & KEY_AIM) != 0,
        }
    }
}

/// Who a roll was made for.
#[derive(Debug, Clone, Copy, PartialEq, Eq, Structural)]
pub enum RollCategory {
    Character(u8),
    NonCharacter,
    Unknown,
}

/// The first position of `v` in `s` (meaningful when `v` occurs in `s`).
pub open spec fn position_of(s: Seq<u16>, v: u16) -> int {
    choose|i: int| 0 <= i < s.len() && s[i] == v && forall|j: int| 0 <= j < i ==> s[j] != v
}

/// The position `k` steps forward (or backward) from `i` in a cycle of length `n`.
pub open spec fn step_index(n: int, i: int, k: int, forward: bool) -> int {
    if forward { (i + k) % n } else { (i - k) % n }
}

/// The number of steps, from `k` on and below the cycle's length, to the first position whose
/// outcome differs from the outcome at `i`.
pub open spec fn first_change_from(s: Seq<u16>, kind: Outcome, i: int, forward: bool, k: nat) -> Option<nat>
    decreases s.len() - k,
{
    if k >= s.len() {
        None
    } else if outcome_text(kind, s[step_index(s.len() as int, i, k as int, forward)]) != outcome_text(kind, s[i]) {
        Some(k)
    } else {
        first_change_from(s, kind, i, forward, k + 1)
    }
}

/// The nearest position of the cycle, forward or backward from `i`, whose outcome differs
/// from the outcome at `i`: the position, the signed distance to it, and its outcome.
pub open spec fn adjacent_change(s: Seq<u16>, kind: Outcome, i: int, forward: bool) -> Option<(int, int, Seq<char>)> {
    match first_change_from(s, kind, i, forward, 1) {
        Some(k) => {
            let j = step_index(s.len() as int, i, k as int, forward);
            Some((j, if forward { k as int } else { -k }, outcome_text(kind, s[j])))
        },
        None => None,
    }
}

/// The numbers from `from` to `to` (excluded).
pub open spec fn int_range(from: int, to: int) -> Seq<int> {
    Seq::new(if to > from { (to - from) as nat } else { 0 }, |k: int| from + k)
}

/// The positions from `range_min` to `range_max` steps around position `i` of a cycle of
/// length `n`, in the order the tool lists them: the positions that wrap around below the
/// start of the cycle come first, then those from the start (or from `i + range_min`) up to
/// the end, then those that wrap past the end.
pub open spec fn range_positions(n: int, i: int, range_min: int, range_max: int) -> Seq<int> {
    let head = if range_min < -i { int_range(n - (-range_min - i), n) } else { Seq::empty() };
    let min = if range_min < -i { 0 } else { i + range_min };
    let max = i + range_max + 1;
    let upper = if max < n { max } else { n };
    head + int_range(min, upper) + if max > n { int_range(0, max - n) } else { Seq::empty() }
}

/// Positions of the cycle with their outcomes.
pub open spec fn outcomes_at(s: Seq<u16>, kind: Outcome, positions: Seq<int>) -> Seq<(usize, Seq<char>)> {
    positions.map_values(|p: int| (p as usize, outcome_text(kind, s[p])))
}

/// Index and outcome pairs as values.
pub open spec fn outcome_pairs_view(v: Seq<(usize, String)>) -> Seq<(usize, Seq<char>)> {
    v.map_values(|p: (usize, String)| (p.0, p.1@))
}

/// Whether the steps around position `i` stay within one wrap of a cycle of length `n` on
/// either side, and the first step can be counted in an `isize`.
pub open spec fn range_fits(n: int, i: int, range_min: int, range_max: int) -> bool {
    -(n + i) <= range_min && -i <= range_max && i + range_max + 1 <= 2 * n && i + range_min <= isize::MAX
}

/// An RNG roll seen in a recording: what it was for, who made it, and the seed it started
/// from (kept to 15 bits, as the generator uses them).
#[derive(Debug, Clone)]
pub struct RngDescription {
    pub description: String,
    pub category: RollCategory,
    pub roll_type: Option<RollType>,
    pub start_value: u16,
}

fn push_outcomes(out: &mut Vec<(usize, String)>, seq: &RngSequence, kind: Outcome, from: usize, to: usize)
    requires
        to <= seq@.len(),
    ensures
        outcome_pairs_view(final(out)@) == outcome_pairs_view(old(out)@) + outcomes_at(seq@, kind, int_range(from as int, to as int)),
{
    let ghost o = outcome_pairs_view(out@);
    let mut i = from;
    while i < to
        invariant
            to <= seq@.len(),
            from <= to ==> from <= i <= to,
            from > to ==> i == from,
            outcome_pairs_view(out@) == o + outcomes_at(seq@, kind, int_range(from as int, i as int)),
        decreases to - i,
    {
        let ghost before = out@;
        let text = crate::rng::format_outcome(kind, seq.get(i));
        out.push((i, text));
        i += 1;
        proof {
            assert(outcome_pairs_view(out@) =~= outcome_pairs_view(before) + seq![((i - 1) as usize, text@)]);
            assert(outcome_pairs_view(out@) =~= o + outcomes_at(seq@, kind, int_range(from as int, i as int)));
        }
    }
    proof {
        if from > to {
            assert(outcomes_at(seq@, kind, int_range(from as int, to as int)) =~= Seq::<(usize, Seq<char>)>::empty());
            assert(outcomes_at(seq@, kind, int_range(from as int, i as int)) =~= Seq::<(usize, Seq<char>)>::empty());
        }
    }
}

proof fn lemma_outcomes_at_concat(s: Seq<u16>, kind: Outcome, a: Seq<int>, b: Seq<int>, c: Seq<int>)
    ensures
        outcomes_at(s, kind, a + b + c) == outcomes_at(s, kind, a) + outcomes_at(s, kind, b) + outcomes_at(s, kind, c),
{
    assert(outcomes_at(s, kind, a + b + c) =~= outcomes_at(s, kind, a) + outcomes_at(s, kind, b) + outcomes_at(s, kind, c));
}

fn values_around(seq: &RngSequence, kind: Outcome, i: usize, range_min: isize, range_max: isize) -> (r: Vec<(usize, String)>)
    requires
        i < seq@.len(),
        range_fits(seq@.len() as int, i as int, range_min as int, range_max as int),
    ensures
        outcome_pairs_view(r@) == outcomes_at(seq@, kind, range_positions(seq@.len() as int, i as int, range_min as int, range_max as int)),
{
    let mut values: Vec<(usize, String)> = Vec::new();
    let n = seq.len();
    let ii = i as isize;
    let nn = n as isize;
    proof { assert(outcome_pairs_view(values@) =~= Seq::<(usize, Seq<char>)>::empty()); }
    let min: usize = if range_min < -ii {
        let wrap_around = -range_min - ii;
        let wrap_start = (nn - wrap_around) as usize;
        push_outcomes(&mut values, seq, kind, wrap_start, n);
        0
    } else {
        (ii + range_min) as usize
    };
    let ghost head = if (range_min as int) < -(i as int) { int_range(n - (-range_min - i), n as int) } else { Seq::<int>::empty() };
    proof { assert(outcome_pairs_view(values@) =~= outcomes_at(seq@, kind, head)); }
    let max: usize = (ii + range_max) as usize + 1;
    let upper = if max < n { max } else { n };
    push_outcomes(&mut values, seq, kind, min, upper);
    if max > n {
        push_outcomes(&mut values, seq, kind, 0, max - n);
    }
    proof {
        let tail = if max > n { int_range(0, max - n) } else { Seq::<int>::empty() };
        if max <= n {
            assert(outcomes_at(seq@, kind, tail) =~= Seq::<(usize, Seq<char>)>::empty());
        }
        lemma_outcomes_at_concat(seq@, kind, head, int_range(min as int, upper as int), tail);
    }
    values
}

impl RngDescription {
    pub fn new(description: String, category: RollCategory, roll_type: Option<RollType>, start_value: u16) -> (r: Self)
        ensures
            r.description@ == description@,
            r.category == category,
            r.roll_type == roll_type,
            r.start_value == start_value & 0x7fff,
    {
        Self { description, category, roll_type, start_value: start_value & 0x7fff }
    }

    /// A roll made for the character in slot `character_index`.
    pub fn character(description: String, character_index: u8, roll_type: RollType, start_value: u16) -> (r: Self)
        ensures
            r.description@ == description@,
            r.category == RollCategory::Character(character_index),
            r.roll_type == Some(roll_type),
            r.start_value == start_value & 0x7fff,
    {
        Self::new(description, RollCategory::Character(character_index), Some(roll_type), start_value)
    }

    /// A roll of a known kind made for no character.
    pub fn non_character(description: String, roll_type: RollType, start_value: u16) -> (r: Self)
        ensures
            r.description@ == description@,
            r.category == RollCategory::NonCharacter,
            r.roll_type == Some(roll_type),
            r.start_value == start_value & 0x7fff,
    {
        Self::new(description, RollCategory::NonCharacter, Some(roll_type), start_value)
    }

    /// A roll whose purpose is not known.
    pub fn unknown(description: String, start_value: u16) -> (r: Self)
        ensures
            r.description@ == description@,
            r.category == RollCategory::Unknown,
            r.roll_type is None,
            r.start_value == start_value & 0x7fff,
    {
        Self::new(description, RollCategory::Unknown, None, start_value)
    }

    /// Whether nothing is known of what the roll was for.
    pub fn is_unknown(&self) -> (r: bool)
        ensures
            r == (self.category == RollCategory::Unknown || self.roll_type is None),
    {
        self.category == RollCategory::Unknown || self.roll_type.is_none()
    }

    /// The position of the roll's seed in the RNG cycle.
    pub fn rng_index(&self, seq: &RngSequence) -> (r: usize)
        requires
            seq@.contains(self.start_value),
        ensures
            r == position_of(seq@, self.start_value),
            r < seq@.len(),
            seq@[r as int] == self.start_value,
    {
        match seq.position(self.start_value) {
            Some(i) => {
                proof {
                    let p = position_of(seq@, self.start_value);
                    assert(0 <= i < seq@.len() && seq@[i as int] == self.start_value
                        && forall|j: int| 0 <= j < i ==> seq@[j] != self.start_value);
                    if p != i {
                        if p < i {
                            assert(seq@[p] == self.start_value);
                        } else {
                            assert(seq@[i as int] != self.start_value);
                        }
                    }
                }
                i
            },
            None => {
                proof {
                    let j = choose|j: int| 0 <= j < seq@.len() && seq@[j] == self.start_value;
                    assert(seq@[j] != self.start_value);
                }
                0
            },
        }
    }

    fn adjacent_change_of(&self, seq: &RngSequence, kind: Outcome, forward: bool) -> (r: Option<(usize, isize, String)>)
        requires
            seq@.contains(self.start_value),
        ensures
            match adjacent_change(seq@, kind, position_of(seq@, self.start_value), forward) {
                Some((j, d, text)) => r matches Some((rj, rd, rs)) && rj == j && rd == d && rs@ == text,
                None => r is None,
            },
    {
        let rng_index = self.rng_index(seq);
        let value = crate::rng::format_outcome(kind, self.start_value);
        let n = seq.len();
        let ghost s = seq@;
        let ghost i = rng_index as int;
        let mut k: usize = 1;
        let mut next_index: usize = if forward {
            if rng_index + 1 == n { 0 } else { rng_index + 1 }
        } else {
            if rng_index == 0 { n - 1 } else { rng_index - 1 }
        };
        proof {
            let nn = n as int;
            if forward {
                assert((i + 1) % nn == if i + 1 == nn { 0 } else { i + 1 }) by (nonlinear_arith)
                    requires nn > 0, 0 <= i < nn;
            } else {
                assert((i - 1) % nn == if i == 0 { nn - 1 } else { i - 1 }) by (nonlinear_arith)
                    requires nn > 0, 0 <= i < nn;
            }
        }
        while k < n
            invariant
                s == seq@,
                n == s.len(),
                1 <= n <= 0x8000,
                0 <= i < n,
                i == position_of(seq@, self.start_value),
                s[i] == self.start_value,
                value@ == outcome_text(kind, s[i]),
                1 <= k <= n,
                next_index < n,
                next_index == step_index(n as int, i, k as int, forward),
                first_change_from(s, kind, i, forward, 1) == first_change_from(s, kind, i, forward, k as nat),
            decreases n - k,
        {
            let next_value = crate::rng::format_outcome(kind, seq.get(next_index));
            if next_value != value {
                assert(first_change_from(s, kind, i, forward, k as nat) == Some(k as nat));
                let distance: isize = if forward { k as isize } else { -(k as isize) };
                proof {
                    assert(i == position_of(seq@, self.start_value));
                    assert(distance == if forward { k as int } else { -k });
                    assert(next_value@ == outcome_text(kind, s[next_index as int]));
                }
                return Some((next_index, distance, next_value));
            }
            k += 1;
            next_index = if forward {
                if next_index + 1 == n { 0 } else { next_index + 1 }
            } else {
                if next_index == 0 { n - 1 } else { next_index - 1 }
            };
            proof {
                let nn = n as int;
                if forward {
                    assert((i + k) % nn == if (i + k - 1) % nn + 1 == nn { 0 } else { (i + k - 1) % nn + 1 }) by (nonlinear_arith)
                        requires nn > 0, 0 <= i < nn, k >= 1;
                } else {
                    assert((i - k) % nn == if (i - k + 1) % nn == 0 { nn - 1 } else { (i - k + 1) % nn - 1 }) by (nonlinear_arith)
                        requires nn > 0, 0 <= i < nn, k >= 1;
                }
            }
        }
        None
    }

    fn adjacent_unique_value(&self, seq: &RngSequence, forward: bool) -> (r: Option<(usize, isize, String)>)
        requires
            seq@.contains(self.start_value),
        ensures
            match self.roll_type {
                Some(t) => match roll_description_spec(t).result_formatter {
                    Some(kind) => match adjacent_change(seq@, kind, position_of(seq@, self.start_value), forward) {
                        Some((j, d, text)) => r matches Some((rj, rd, rs)) && rj == j && rd == d && rs@ == text,
                        None => r is None,
                    },
                    None => r is None,
                },
                None => r is None,
            },
    {
        let roll_type = match self.roll_type {
            Some(t) => t,
            None => return None,
        };
        let description = roll_description(roll_type);
        match description.result_formatter {
            Some(kind) => self.adjacent_change_of(seq, kind, forward),
            None => None,
        }
    }

    /// The nearest later position in the RNG cycle whose outcome differs from this roll's: the
    /// position, the distance to it and that outcome. `None` for a roll without a known
    /// outcome, or when every position gives the same outcome.
    pub fn next_unique_value(&self, seq: &RngSequence) -> (r: Option<(usize, isize, String)>)
        requires
            seq@.contains(self.start_value),
        ensures
            match self.roll_type {
                Some(t) => match roll_description_spec(t).result_formatter {
                    Some(kind) => match adjacent_change(seq@, kind, position_of(seq@, self.start_value), true) {
                        Some((j, d, text)) => r matches Some((rj, rd, rs)) && rj == j && rd == d && rs@ == text,
                        None => r is None,
                    },
                    None => r is None,
                },
                None => r is None,
            },
    {
        self.adjacent_unique_value(seq, true)
    }

    /// The nearest earlier position in the RNG cycle whose outcome differs from this roll's,
    /// with a negative distance.
    pub fn prev_unique_value(&self, seq: &RngSequence) -> (r: Option<(usize, isize, String)>)
        requires
            seq@.contains(self.start_value),
        ensures
            match self.roll_type {
                Some(t) => match roll_description_spec(t).result_formatter {
                    Some(kind) => match adjacent_change(seq@, kind, position_of(seq@, self.start_value), false) {
                        Some((j, d, text)) => r matches Some((rj, rd, rs)) && rj == j && rd == d && rs@ == text,
                        None => r is None,
                    },
                    None => r is None,
                },
                None => r is None,
            },
    {
        self.adjacent_unique_value(seq, false)
    }

    /// The outcomes of this roll's kind at the positions from `range_min` to `range_max` steps
    /// around its seed in the RNG cycle (see `range_positions`); none for a roll of unknown
    /// purpose.
    pub fn values_in_range(&self, seq: &RngSequence, range_min: isize, range_max: isize) -> (r: Vec<(usize, String)>)
        requires
            !(self.category == RollCategory::Unknown || self.roll_type is None) ==> {
                &&& seq@.contains(self.start_value)
                &&& range_fits(seq@.len() as int, position_of(seq@, self.start_value), range_min as int, range_max as int)
                &&& roll_description_spec(self.roll_type.unwrap()).result_formatter is None
                    ==> range_positions(seq@.len() as int, position_of(seq@, self.start_value), range_min as int, range_max as int).len() == 0
            },
        ensures
            outcome_pairs_view(r@) == if self.category == RollCategory::Unknown || self.roll_type is None {
                Seq::empty()
            } else {
                match roll_description_spec(self.roll_type.unwrap()).result_formatter {
                    Some(kind) => outcomes_at(seq@, kind, range_positions(seq@.len() as int,
                        position_of(seq@, self.start_value), range_min as int, range_max as int)),
                    None => Seq::empty(),
                }
            },
    {
        let mut values: Vec<(usize, String)> = Vec::new();
        if self.is_unknown() {
            proof { assert(outcome_pairs_view(values@) =~= Seq::<(usize, Seq<char>)>::empty()); }
            return values;
        }
        let roll_type = self.roll_type.unwrap();
        let kind = match roll_description(roll_type).result_formatter {
            Some(k) => k,
            None => {
                proof { assert(outcome_pairs_view(values@) =~= Seq::<(usize, Seq<char>)>::empty()); }
                return values;
            },
        };
        let i = self.rng_index(seq);
        values_around(seq, kind, i, range_min, range_max)
    }
}

/// The RNG rolls made on one frame of a recording.
#[derive(Debug, Clone)]
pub struct FrameRng {
    pub frame_index: usize,
    pub timestamp: String,
    pub rng_descriptions: Vec<RngDescription>,
}

impl FrameRng {
    /// A frame with no rolls listed yet.
    pub fn new(frame_index: usize, timestamp: String) -> (r: Self)
        ensures
            r.frame_index == frame_index,
            r.timestamp@ == timestamp@,
            r.rng_descriptions@.len() == 0,
    {
        Self { frame_index, timestamp, rng_descriptions: Vec::new() }
    }
}

/// The description of a roll of unknown purpose: the address it was made from as eight
/// hexadecimal digits, and the seed as four.
pub open spec fn unknown_roll_text(address: u32, value: u16) -> Seq<char> {
    hex_fixed(address as nat, 8) + " rolled on "@ + hex_fixed(value as nat, 4)
}

/// How a character's rolls name it: "#", its slot, a space and its name.
pub open spec fn character_label(index: u8, name: Seq<char>) -> Seq<char> {
    "#"@ + decimal(index as nat) + " "@ + name
}

/// The name of the character in slot `index`, when the slot exists and holds a character.
pub open spec fn slot_name(names: Seq<Option<Seq<char>>>, index: u8) -> Option<Seq<char>> {
    if index < names.len() {
        match names[index as int] {
            Some(n) => Some(character_label(index, n)),
            None => None,
        }
    } else {
        None
    }
}

/// A roll as values: its description, category, kind and (15-bit) seed.
pub open spec fn roll_entry(c: GameField, names: Seq<Option<Seq<char>>>) -> Option<(Seq<char>, RollCategory, Option<RollType>, u16)> {
    match c {
        GameField::RngRoll(address, value) => Some((unknown_roll_text(address, value), RollCategory::Unknown, None, value & 0x7fff)),
        GameField::KnownRng { roll_type, start_value } => Some((
            describe_spec(roll_description_spec(roll_type), start_value, None),
            RollCategory::NonCharacter,
            Some(roll_type),
            start_value & 0x7fff,
        )),
        GameField::CharacterRng { char_index, roll_type, start_value } => Some((
            describe_spec(roll_description_spec(roll_type), start_value, slot_name(names, char_index)),
            RollCategory::Character(char_index),
            Some(roll_type),
            start_value & 0x7fff,
        )),
        _ => None,
    }
}

/// The rolls among a frame's first `n` changes, in order.
pub open spec fn frame_rolls(changes: Seq<GameField>, names: Seq<Option<Seq<char>>>, n: nat) -> Seq<(Seq<char>, RollCategory, Option<RollType>, u16)>
    decreases n,
{
    if n == 0 {
        seq![]
    } else {
        let prev = frame_rolls(changes, names, (n - 1) as nat);
        match roll_entry(changes[n - 1], names) {
            Some(e) => prev.push(e),
            None => prev,
        }
    }
}

pub open spec fn descriptions_view(d: Seq<RngDescription>) -> Seq<(Seq<char>, RollCategory, Option<RollType>, u16)> {
    d.map_values(|r: RngDescription| (r.description@, r.category, r.roll_type, r.start_value))
}

pub open spec fn names_view(names: Seq<Option<String>>) -> Seq<Option<Seq<char>>> {
    names.map_values(|n: Option<String>| match n {
        Some(s) => Some(s@),
        None => None,
    })
}

fn character_subject(names: &Vec<Option<String>>, index: u8) -> (r: Option<String>)
    ensures
        match r {
            Some(s) => slot_name(names_view(names@), index) == Some(s@),
            None => slot_name(names_view(names@), index) is None,
        },
{
    if (index as usize) < names.len() {
        match &names[index as usize] {
            Some(name) => {
                let mut s = String::new();
                s.append("#");
                push_decimal(&mut s, index as u64);
                s.append(" ");
                s.append(name.as_str());
                proof {
                    reveal_strlit("#");
                    reveal_strlit(" ");
                    assert(s@ =~= character_label(index, name@));
                }
                Some(s)
            },
            None => None,
        }
    } else {
        None
    }
}

/// The RNG rolls of one frame, described: a roll of unknown purpose by its address and seed, a
/// known roll by its description and outcome, and a character's roll also naming the character
/// (`character_names` holds the name of each character slot that is filled on that frame).
pub fn describe_frame_rolls(frame_index: usize, timestamp: String, changes: &Vec<GameField>, character_names: &Vec<Option<String>>) -> (r: FrameRng)
    ensures
        r.frame_index == frame_index,
        r.timestamp@ == timestamp@,
        descriptions_view(r.rng_descriptions@) == frame_rolls(changes@, names_view(character_names@), changes@.len()),
{
    let mut frame_rng = FrameRng::new(frame_index, timestamp);
    let ghost names = names_view(character_names@);
    let mut i: usize = 0;
    while i < changes.len()
        invariant
            i <= changes@.len(),
            frame_rng.frame_index == frame_index,
            frame_rng.timestamp@ == timestamp@,
            names == names_view(character_names@),
            descriptions_view(frame_rng.rng_descriptions@) == frame_rolls(changes@, names, i as nat),
        decreases changes@.len() - i,
    {
        let ghost before = frame_rng.rng_descriptions@;
        match changes[i] {
            GameField::RngRoll(address, value) => {
                let mut text = String::new();
                push_hex(&mut text, address, 8);
                text.append(" rolled on ");
                push_hex(&mut text, value as u32, 4);
                proof {
                    reveal_strlit(" rolled on ");
                    assert(text@ =~= unknown_roll_text(address, value));
                }
                frame_rng.rng_descriptions.push(RngDescription::unknown(text, value));
            },
            GameField::KnownRng { roll_type, start_value } => {
                let description = roll_description(roll_type).describe(start_value, None);
                frame_rng.rng_descriptions.push(RngDescription::non_character(description, roll_type, start_value));
            },
            GameField::CharacterRng { char_index, roll_type, start_value } => {
                let subject = character_subject(character_names, char_index);
                let description = match &subject {
                    Some(s) => roll_description(roll_type).describe(start_value, Some(s.as_str())),
                    None => roll_description(roll_type).describe(start_value, None),
                };
                frame_rng.rng_descriptions.push(RngDescription::character(description, char_index, roll_type, start_value));
            },
            _ => {},
        }
        i = i + 1;
        proof {
            assert(descriptions_view(frame_rng.rng_descriptions@) =~= frame_rolls(changes@, names, i as nat));
        }
    }
    frame_rng
}

// ---------------------------------------------------------------------------------------------
// Distribution of outcomes

/// How many times `t` occurs in `texts`.
pub open spec fn occurrences(texts: Seq<Seq<char>>, t: Seq<char>) -> nat
    decreases texts.len(),
{
    if texts.len() == 0 {
        0
    } else {
        occurrences(texts.drop_last(), t) + if texts.last() == t { 1nat } else { 0nat }
    }
}

/// The order of a distribution's entries: more occurrences first, and among as many, texts in
/// reverse order.
pub open spec fn entry_before(a: (Seq<char>, usize), b: (Seq<char>, usize)) -> bool {
    a.1 > b.1 || (a.1 == b.1 && text_lt(b.0, a.0))
}

/// Some entry of `d` has the text `t`.
pub open spec fn has_text(d: Seq<(Seq<char>, usize)>, t: Seq<char>) -> bool {
    exists|i: int| 0 <= i < d.len() && d[i].0 == t
}

/// `d` lists every text of `texts` once, with how often it occurs, in the order of
/// `entry_before`.
pub open spec fn is_distribution(d: Seq<(Seq<char>, usize)>, texts: Seq<Seq<char>>) -> bool {
    &&& forall|i: int, j: int| 0 <= i < j < d.len() ==> entry_before(#[trigger] d[i], #[trigger] d[j])
    &&& forall|i: int| 0 <= i < d.len() ==> #[trigger] d[i].1 == occurrences(texts, d[i].0) && texts.contains(d[i].0)
    &&& forall|k: int| 0 <= k < texts.len() ==> has_text(d, #[trigger] texts[k])
}

pub open spec fn dist_view(d: Seq<(String, usize)>) -> Seq<(Seq<char>, usize)> {
    d.map_values(|p: (String, usize)| (p.0@, p.1))
}

pub open spec fn texts_of(pairs: Seq<(usize, Seq<char>)>) -> Seq<Seq<char>> {
    pairs.map_values(|p: (usize, Seq<char>)| p.1)
}

/// The order of entries with different texts is a strict total order.
proof fn lemma_entry_order(a: (Seq<char>, usize), b: (Seq<char>, usize), c: (Seq<char>, usize))
    ensures
        !entry_before(a, a),
        a.0 != b.0 ==> entry_before(a, b) || entry_before(b, a),
        entry_before(a, b) && entry_before(b, c) ==> entry_before(a, c),
{
    lemma_text_order(a.0, a.0, a.0);
    lemma_text_order(b.0, a.0, a.0);
    lemma_text_order(c.0, b.0, a.0);
}

proof fn lemma_occurrences_push(texts: Seq<Seq<char>>, t: Seq<char>, x: Seq<char>)
    ensures
        occurrences(texts.push(t), x) == occurrences(texts, x) + if t == x { 1nat } else { 0nat },
{
    assert(texts.push(t).drop_last() =~= texts);
}

proof fn lemma_occurrences_contains(texts: Seq<Seq<char>>, x: Seq<char>)
    ensures
        occurrences(texts, x) > 0 <==> texts.contains(x),
    decreases texts.len(),
{
    if texts.len() > 0 {
        lemma_occurrences_contains(texts.drop_last(), x);
        assert(texts =~= texts.drop_last().push(texts.last()));
        if texts.drop_last().contains(x) {
            let j = choose|j: int| 0 <= j < texts.drop_last().len() && texts.drop_last()[j] == x;
            assert(texts[j] == x);
        }
        if texts.contains(x) && texts.last() != x {
            let j = choose|j: int| 0 <= j < texts.len() && texts[j] == x;
            assert(texts.drop_last()[j] == x);
        }
    }
}

/// The position of `text` in `names`, if it is there.
fn find_text(names: &Vec<String>, text: &String) -> (r: Option<usize>)
    ensures
        match r {
            Some(k) => k < names@.len() && names@[k as int]@ == text@,
            None => forall|m: int| 0 <= m < names@.len() ==> names@[m]@ != text@,
        },
{
    let mut k: usize = 0;
    while k < names.len()
        invariant
            k <= names@.len(),
            forall|m: int| 0 <= m < k ==> names@[m]@ != text@,
        decreases names@.len() - k,
    {
        if names[k] == *text {
            return Some(k);
        }
        k = k + 1;
    }
    None
}

/// Where an entry goes among entries in the order of `entry_before`: after every entry that it
/// does not come before.
fn insert_position(sorted: &Vec<(String, usize)>, name: &String, count: usize) -> (p: usize)
    ensures
        p <= sorted@.len(),
        forall|q: int| 0 <= q < p ==> !entry_before((name@, count), #[trigger] dist_view(sorted@)[q]),
        p < sorted@.len() ==> entry_before((name@, count), dist_view(sorted@)[p as int]),
{
    let mut p: usize = 0;
    while p < sorted.len()
        invariant
            p <= sorted@.len(),
            forall|q: int| 0 <= q < p ==> !entry_before((name@, count), #[trigger] dist_view(sorted@)[q]),
        decreases sorted@.len() - p,
    {
        let before = count > sorted[p].1 || (count == sorted[p].1 && text_less(sorted[p].0.as_str(), name.as_str()));
        assert(dist_view(sorted@)[p as int] == (sorted@[p as int].0@, sorted@[p as int].1));
        if before {
            return p;
        }
        p = p + 1;
    }
    p
}

/// The entries `(text, count)` of parallel lists of texts and counts.
pub open spec fn entries_of(names: Seq<String>, counts: Seq<usize>) -> Seq<(Seq<char>, usize)> {
    Seq::new(names.len(), |k: int| (names[k]@, counts[k]))
}

/// The entries are in the order of `entry_before`.
pub open spec fn entries_sorted(d: Seq<(Seq<char>, usize)>) -> bool {
    forall|i: int, j: int| 0 <= i < j < d.len() ==> entry_before(#[trigger] d[i], #[trigger] d[j])
}

/// No two entries have the same text.
pub open spec fn texts_distinct(d: Seq<(Seq<char>, usize)>) -> bool {
    forall|i: int, j: int| 0 <= i < j < d.len() ==> (#[trigger] d[i]).0 != (#[trigger] d[j]).0
}

/// The distinct texts of `values` with their numbers of occurrences.
fn count_outcomes(values: &Vec<(usize, String)>) -> (r: (Vec<String>, Vec<usize>))
    ensures
        r.0@.len() == r.1@.len(),
        texts_distinct(entries_of(r.0@, r.1@)),
        forall|k: int| 0 <= k < r.0@.len() ==> (#[trigger] entries_of(r.0@, r.1@)[k]).1 == occurrences(
            texts_of(outcome_pairs_view(values@)),
            entries_of(r.0@, r.1@)[k].0,
        ) && texts_of(outcome_pairs_view(values@)).contains(entries_of(r.0@, r.1@)[k].0),
        forall|j: int| 0 <= j < values@.len() ==> has_text(entries_of(r.0@, r.1@), #[trigger] texts_of(outcome_pairs_view(values@))[j]),
{
    let ghost texts = texts_of(outcome_pairs_view(values@));
    let mut names: Vec<String> = Vec::new();
    let mut counts: Vec<usize> = Vec::new();
    let mut i: usize = 0;
    while i < values.len()
        invariant
            i <= values@.len(),
            texts == texts_of(outcome_pairs_view(values@)),
            texts.len() == values@.len(),
            names@.len() == counts@.len(),
            forall|a: int, b: int| 0 <= a < b < names@.len() ==> (#[trigger] names@[a])@ != (#[trigger] names@[b])@,
            forall|k: int| 0 <= k < names@.len() ==> #[trigger] counts@[k] == occurrences(texts.take(i as int), names@[k]@),
            forall|k: int| 0 <= k < names@.len() ==> texts.take(i as int).contains((#[trigger] names@[k])@),
            forall|j: int| 0 <= j < i ==> exists|k: int| 0 <= k < names@.len() && (#[trigger] names@[k])@ == #[trigger] texts[j],
            forall|k: int| 0 <= k < counts@.len() ==> #[trigger] counts@[k] <= i,
        decreases values@.len() - i,
    {
        let text = &values[i].1;
        let ghost x = text@;
        let ghost prefix = texts.take(i as int);
        let ghost old_names = names@;
        let ghost old_counts = counts@;
        assert(x == texts[i as int]);
        assert(texts.take(i + 1) =~= prefix.push(x));
        let found = find_text(&names, text);
        proof {
            if found is None {
                // the text has not occurred before
                if prefix.contains(x) {
                    let j = choose|j: int| 0 <= j < prefix.len() && prefix[j] == x;
                    assert(texts[j] == x);
                }
                lemma_occurrences_contains(prefix, x);
            }
        }
        match found {
            Some(m) => {
                let c = counts[m] + 1;
                counts.set(m, c);
            },
            None => {
                names.push(text.clone());
                counts.push(1);
            },
        }
        i = i + 1;
        proof {
            assert forall|k: int| 0 <= k < names@.len() implies #[trigger] counts@[k] == occurrences(texts.take(i as int), names@[k]@)
                && texts.take(i as int).contains(names@[k]@) by {
                lemma_occurrences_push(prefix, x, names@[k]@);
                if k < old_names.len() {
                    let j = choose|j: int| 0 <= j < prefix.len() && prefix[j] == old_names[k]@;
                    assert(texts.take(i as int)[j] == prefix[j]);
                } else {
                    assert(texts.take(i as int)[i - 1] == x);
                }
            }
            assert forall|k: int| 0 <= k < names@.len() implies texts.take(i as int).contains((#[trigger] names@[k])@) by {
                assert(counts@[k] == occurrences(texts.take(i as int), names@[k]@));
            }
            assert forall|j: int| 0 <= j < i implies exists|k: int| 0 <= k < names@.len() && (#[trigger] names@[k])@ == #[trigger] texts[j] by {
                if j == i - 1 {
                    match found {
                        Some(m) => assert(names@[m as int]@ == texts[j]),
                        None => assert(names@[old_names.len() as int]@ == texts[j]),
                    }
                } else {
                    let k = choose|k: int| 0 <= k < old_names.len() && (#[trigger] old_names[k])@ == texts[j];
                    assert(names@[k]@ == texts[j]);
                }
            }
        }
    }
    proof {
        assert(texts.take(i as int) =~= texts);
        let e = entries_of(names@, counts@);
        assert forall|j: int| 0 <= j < values@.len() implies has_text(e, #[trigger] texts_of(outcome_pairs_view(values@))[j]) by {
            let k = choose|k: int| 0 <= k < names@.len() && (#[trigger] names@[k])@ == texts[j];
            assert(e[k].0 == texts[j]);
        }
        assert forall|a: int, b: int| 0 <= a < b < e.len() implies (#[trigger] e[a]).0 != (#[trigger] e[b]).0 by {
            assert(e[a].0 == names@[a]@ && e[b].0 == names@[b]@);
        }
    }
    (names, counts)
}

/// Orders entries with distinct texts by `entry_before`.
fn sort_entries(names: Vec<String>, counts: Vec<usize>) -> (r: Vec<(String, usize)>)
    requires
        names@.len() == counts@.len(),
        texts_distinct(entries_of(names@, counts@)),
    ensures
        entries_sorted(dist_view(r@)),
        forall|i: int| 0 <= i < r@.len() ==> entries_of(names@, counts@).contains(#[trigger] dist_view(r@)[i]),
        forall|k: int| 0 <= k < names@.len() ==> dist_view(r@).contains(#[trigger] entries_of(names@, counts@)[k]),
{
    let ghost src = entries_of(names@, counts@);
    let mut sorted: Vec<(String, usize)> = Vec::new();
    let mut t: usize = 0;
    while t < names.len()
        invariant
            t <= names@.len(),
            names@.len() == counts@.len(),
            src == entries_of(names@, counts@),
            texts_distinct(src),
            entries_sorted(dist_view(sorted@)),
            forall|i: int| 0 <= i < sorted@.len() ==> src.take(t as int).contains(#[trigger] dist_view(sorted@)[i]),
            forall|k: int| 0 <= k < t ==> dist_view(sorted@).contains(#[trigger] src[k]),
        decreases names@.len() - t,
    {
        let ghost e = src[t as int];
        let ghost d = dist_view(sorted@);
        let p = insert_position(&sorted, &names[t], counts[t]);
        assert(e == (names@[t as int]@, counts@[t as int]));
        proof {
            // every entry so far has another text than the new one
            assert forall|q: int| 0 <= q < d.len() implies (#[trigger] d[q]).0 != e.0 by {
                let k = choose|k: int| 0 <= k < t && src.take(t as int)[k] == d[q];
                assert(src[k] == d[q]);
            }
        }
        sorted.insert(p, (names[t].clone(), counts[t]));
        proof {
            let d2 = dist_view(sorted@);
            assert(d2 =~= d.insert(p as int, e));
            lemma_insert_sorted(d, e, p as int);
            assert forall|i: int| 0 <= i < d2.len() implies src.take(t + 1).contains(#[trigger] d2[i]) by {
                if i < p {
                    assert(d2[i] == d[i]);
                    let k = choose|k: int| 0 <= k < t && src.take(t as int)[k] == d[i];
                    assert(src.take(t + 1)[k] == d2[i]);
                } else if i > p {
                    assert(d2[i] == d[i - 1]);
                    let k = choose|k: int| 0 <= k < t && src.take(t as int)[k] == d[i - 1];
                    assert(src.take(t + 1)[k] == d2[i]);
                } else {
                    assert(src.take(t + 1)[t as int] == d2[i]);
                }
            }
            assert forall|k: int| 0 <= k < t + 1 implies d2.contains(#[trigger] src[k]) by {
                if k == t {
                    assert(d2[p as int] == src[k]);
                } else {
                    let i = choose|i: int| 0 <= i < d.len() && d[i] == src[k];
                    if i < p {
                        assert(d2[i] == d[i]);
                    } else {
                        assert(d2[i + 1] == d[i]);
                    }
                }
            }
        }
        t = t + 1;
    }
    proof {
        assert(src.take(t as int) =~= src);
    }
    sorted
}

/// Inserting an entry at the position `insert_position` finds keeps the entries in order.
proof fn lemma_insert_sorted(d: Seq<(Seq<char>, usize)>, e: (Seq<char>, usize), p: int)
    requires
        0 <= p <= d.len(),
        entries_sorted(d),
        forall|q: int| 0 <= q < d.len() ==> (#[trigger] d[q]).0 != e.0,
        forall|q: int| 0 <= q < p ==> !entry_before(e, #[trigger] d[q]),
        p < d.len() ==> entry_before(e, d[p]),
    ensures
        entries_sorted(d.insert(p, e)),
{
    let d2 = d.insert(p, e);
    assert forall|i: int, j: int| 0 <= i < j < d2.len() implies entry_before(#[trigger] d2[i], #[trigger] d2[j]) by {
        if j == p {
            assert(d2[i] == d[i] && d2[j] == e);
            lemma_entry_order(d[i], e, e);
        } else if i == p {
            assert(d2[i] == e && d2[j] == d[j - 1]);
            if j - 1 > p {
                assert(entry_before(d[p], d[j - 1]));
            }
            lemma_entry_order(e, d[p], d[j - 1]);
        } else if i < p && j > p {
            assert(d2[i] == d[i] && d2[j] == d[j - 1]);
            lemma_entry_order(d[i], e, d[j - 1]);
            if j - 1 > p {
                assert(entry_before(d[p], d[j - 1]));
            }
            lemma_entry_order(e, d[p], d[j - 1]);
        } else if j < p {
            assert(d2[i] == d[i] && d2[j] == d[j]);
        } else {
            assert(d2[i] == d[i - 1] && d2[j] == d[j - 1]);
        }
    }
}

/// Sorted entries that are exactly the counted texts form the distribution of the texts.
proof fn lemma_sorted_counts_distribution(d: Seq<(Seq<char>, usize)>, e: Seq<(Seq<char>, usize)>, texts: Seq<Seq<char>>)
    requires
        entries_sorted(d),
        forall|i: int| 0 <= i < d.len() ==> e.contains(#[trigger] d[i]),
        forall|k: int| 0 <= k < e.len() ==> d.contains(#[trigger] e[k]),
        forall|k: int| 0 <= k < e.len() ==> (#[trigger] e[k]).1 == occurrences(texts, e[k].0) && texts.contains(e[k].0),
        forall|j: int| 0 <= j < texts.len() ==> has_text(e, #[trigger] texts[j]),
    ensures
        is_distribution(d, texts),
{
    assert forall|i: int| 0 <= i < d.len() implies #[trigger] d[i].1 == occurrences(texts, d[i].0) && texts.contains(d[i].0) by {
        let k = choose|k: int| 0 <= k < e.len() && e[k] == d[i];
    }
    assert forall|j: int| 0 <= j < texts.len() implies has_text(d, #[trigger] texts[j]) by {
        let k = choose|k: int| 0 <= k < e.len() && e[k].0 == texts[j];
        assert(d.contains(e[k]));
        let i = choose|i: int| 0 <= i < d.len() && d[i] == e[k];
        assert(d[i].0 == texts[j]);
    }
    assert(forall|i: int, j: int| 0 <= i < j < d.len() ==> entry_before(#[trigger] d[i], #[trigger] d[j]));
}

/// Two sequences of entries in the order of `entry_before` with the same entries are equal.
proof fn lemma_sorted_entries_equal(a: Seq<(Seq<char>, usize)>, b: Seq<(Seq<char>, usize)>)
    requires
        entries_sorted(a),
        entries_sorted(b),
        forall|i: int| 0 <= i < a.len() ==> b.contains(#[trigger] a[i]),
        forall|i: int| 0 <= i < b.len() ==> a.contains(#[trigger] b[i]),
    ensures
        a == b,
    decreases a.len(),
{
    if a.len() == 0 {
        if b.len() > 0 {
            assert(a.contains(b[0]));
        }
        assert(a =~= b);
    } else {
        assert(b.contains(a[0]));
        let j = choose|j: int| 0 <= j < b.len() && b[j] == a[0];
        if j > 0 {
            assert(a.contains(b[0]));
            let i = choose|i: int| 0 <= i < a.len() && a[i] == b[0];
            lemma_entry_order(b[0], b[j], b[0]);
            if i > 0 {
                assert(entry_before(a[0], a[i]));
                lemma_entry_order(b[j], b[0], b[j]);
            }
        }
        let a2 = a.drop_first();
        let b2 = b.drop_first();
        assert forall|i: int| 0 <= i < a2.len() implies b2.contains(#[trigger] a2[i]) by {
            assert(a2[i] == a[i + 1]);
            assert(b.contains(a[i + 1]));
            let k = choose|k: int| 0 <= k < b.len() && b[k] == a[i + 1];
            assert(entry_before(a[0], a[i + 1]));
            lemma_entry_order(a[0], a[0], a[0]);
            assert(k != 0);
            assert(b2[k - 1] == a2[i]);
        }
        assert forall|i: int| 0 <= i < b2.len() implies a2.contains(#[trigger] b2[i]) by {
            assert(b2[i] == b[i + 1]);
            assert(a.contains(b[i + 1]));
            let k = choose|k: int| 0 <= k < a.len() && a[k] == b[i + 1];
            assert(entry_before(b[0], b[i + 1]));
            lemma_entry_order(b[0], b[0], b[0]);
            assert(k != 0);
            assert(a2[k - 1] == b2[i]);
        }
        lemma_sorted_entries_equal(a2, b2);
        assert(a =~= seq![a[0]] + a2);
        assert(b =~= seq![b[0]] + b2);
    }
}

/// An entry of one distribution of `texts` is an entry of any other.
proof fn lemma_same_entry(d1: Seq<(Seq<char>, usize)>, d2: Seq<(Seq<char>, usize)>, texts: Seq<Seq<char>>, i: int)
    requires
        is_distribution(d1, texts),
        is_distribution(d2, texts),
        0 <= i < d1.len(),
    ensures
        d2.contains(d1[i]),
{
    let x = d1[i];
    assert(d1[i].1 == occurrences(texts, d1[i].0) && texts.contains(d1[i].0));
    let k = choose|k: int| 0 <= k < texts.len() && texts[k] == x.0;
    assert(has_text(d2, texts[k]));
    let j = choose|j: int| 0 <= j < d2.len() && d2[j].0 == texts[k];
    assert(d2[j].1 == occurrences(texts, d2[j].0));
    assert(d2[j] == x);
}

/// A distribution of outcomes is determined by the outcomes: there is only one.
pub proof fn lemma_distribution_unique(d1: Seq<(Seq<char>, usize)>, d2: Seq<(Seq<char>, usize)>, texts: Seq<Seq<char>>)
    requires
        is_distribution(d1, texts),
        is_distribution(d2, texts),
    ensures
        d1 == d2,
{
    assert forall|i: int| 0 <= i < d1.len() implies d2.contains(#[trigger] d1[i]) by {
        lemma_same_entry(d1, d2, texts, i);
    }
    assert forall|i: int| 0 <= i < d2.len() implies d1.contains(#[trigger] d2[i]) by {
        lemma_same_entry(d2, d1, texts, i);
    }
    lemma_sorted_entries_equal(d1, d2);
}

impl RngDescription {
    /// How often each outcome of this roll's kind occurs at the positions from `range_min` to
    /// `range_max` steps around its seed in the RNG cycle (see `range_positions`), most
    /// frequent first; none for a roll of unknown purpose.
    #[verifier::rlimit(40)]
    pub fn distribution(&self, seq: &RngSequence, range_min: isize, range_max: isize) -> (r: Vec<(String, usize)>)
        requires
            self.category != RollCategory::Unknown ==> {
                &&& self.roll_type is Some
                &&& seq@.contains(self.start_value)
                &&& range_fits(seq@.len() as int, position_of(seq@, self.start_value), range_min as int, range_max as int)
                &&& roll_description_spec(self.roll_type.unwrap()).result_formatter is None
                    ==> range_positions(seq@.len() as int, position_of(seq@, self.start_value), range_min as int, range_max as int).len() == 0
            },
        ensures
            self.category == RollCategory::Unknown ==> r@.len() == 0,
            self.category != RollCategory::Unknown ==> match roll_description_spec(self.roll_type.unwrap()).result_formatter {
                Some(kind) => is_distribution(dist_view(r@), texts_of(outcomes_at(seq@, kind,
                    range_positions(seq@.len() as int, position_of(seq@, self.start_value), range_min as int, range_max as int)))),
                None => r@.len() == 0,
            },
    {
        if self.category == RollCategory::Unknown {
            return Vec::new();
        }
        let roll_type = self.roll_type.unwrap();
        let kind = match roll_description(roll_type).result_formatter {
            Some(k) => k,
            None => return Vec::new(),
        };
        let i = self.rng_index(seq);
        let values = values_around(seq, kind, i, range_min, range_max);
        let (names, counts) = count_outcomes(&values);
        let r = sort_entries(names, counts);
        proof {
            lemma_sorted_counts_distribution(
                dist_view(r@),
                entries_of(names@, counts@),
                texts_of(outcome_pairs_view(values@)),
            );
        }
        r
    }
}

/// Whether the roll browser shows a roll of `category`: a character's roll when character
/// rolls are shown and that character's settings (where there are any) show its rolls; a
/// known roll of no character, or an unknown roll, when that kind is shown.
pub open spec fn roll_shown_spec(
    category: RollCategory,
    show_character_rng: bool,
    show_known_non_character_rng: bool,
    show_unknown_rng: bool,
    character_settings: Seq<Option<CharacterSettings>>,
) -> bool {
    match category {
        RollCategory::Character(i) => show_character_rng && match (if (i as int) < character_settings.len() { character_settings[i as int] } else { None }) {
            Some(st) => st.show_rng_rolls,
            None => true,
        },
        RollCategory::NonCharacter => show_known_non_character_rng,
        RollCategory::Unknown => show_unknown_rng,
    }
}

pub fn is_roll_shown(
    category: RollCategory,
    show_character_rng: bool,
    show_known_non_character_rng: bool,
    show_unknown_rng: bool,
    character_settings: &Vec<Option<CharacterSettings>>,
) -> (r: bool)
    ensures
        r == roll_shown_spec(category, show_character_rng, show_known_non_character_rng, show_unknown_rng, character_settings@),
{
    match category {
        RollCategory::Character(i) => {
            show_character_rng && if (i as usize) < character_settings.len() {
                match character_settings[i as usize] {
                    Some(st) => st.show_rng_rolls(),
                    None => true,
                }
            } else {
                true
            }
        },
        RollCategory::NonCharacter => show_known_non_character_rng,
        RollCategory::Unknown => show_unknown_rng,
    }
}

} // verus!
