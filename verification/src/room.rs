//! Room identifiers and their four-character names (stage, room number in hex, player).

use vstd::prelude::*;
use crate::text::{decimal, push_decimal};
use vstd::string::StringSliceAdditionalSpecFns;

verus! {

/// A room: its stage (0 to 15), room number, and player (0 for Leon, 1 for Claire).
#[derive(Debug, PartialEq, Eq, Hash, Clone, Copy, PartialOrd, Ord, Structural)]
pub struct RoomId {
    pub stage: u8,
    pub room: u8,
    pub player: u8,
}

/// Why a room name could not be read.
#[derive(Debug, Clone, Copy, PartialEq, Eq, Structural)]
pub enum RoomIdError {
    /// The name is not four bytes long.
    InvalidLength,
    /// The first character is not a stage character.
    InvalidStage,
    /// The second and third characters are not a hexadecimal byte.
    InvalidRoom,
    /// The fourth character is not a decimal digit.
    InvalidPlayer,
}

/// The stage characters "123456789ABCDEFG": stage `i` is written as the `i`-th of them.
pub open spec fn stage_char(i: nat) -> char {
    if i < 9 { (('1' as nat) + i) as char } else { (('A' as nat) + (i - 9)) as char }
}

/// An uppercase hexadecimal digit.
pub open spec fn hex_char(d: nat) -> char {
    if d < 10 { (('0' as nat) + d) as char } else { (('A' as nat) + (d - 10)) as char }
}

/// The name of a room: stage character, room number as two uppercase hex digits, player.
pub open spec fn room_name(id: RoomId) -> Seq<char> {
    seq![stage_char(id.stage as nat), hex_char((id.room / 16) as nat), hex_char((id.room % 16) as nat)]
        + decimal(id.player as nat)
}

/// The value of a hexadecimal digit byte (either case).
pub open spec fn hex_value(b: u8) -> Option<u8> {
    if 0x30 <= b <= 0x39 {
        Some((b - 0x30) as u8)
    } else if 0x41 <= b <= 0x46 {
        Some((b - 0x41 + 10) as u8)
    } else if 0x61 <= b <= 0x66 {
        Some((b - 0x61 + 10) as u8)
    } else {
        None
    }
}

/// A two-byte hexadecimal number as Rust reads it: a leading '+' is allowed before a single
/// digit.
pub open spec fn hex_byte_value(b1: u8, b2: u8) -> Option<u8> {
    if b1 == 0x2B {
        hex_value(b2)
    } else {
        match (hex_value(b1), hex_value(b2)) {
            (Some(h), Some(l)) => Some((h * 16 + l) as u8),
            _ => None,
        }
    }
}

/// The stage index of a name's first byte (lowercase letters are accepted).
pub open spec fn stage_value(b: u8) -> Option<u8> {
    if 0x31 <= b <= 0x39 {
        Some((b - 0x31) as u8)
    } else if 0x41 <= b <= 0x47 {
        Some((b - 0x41 + 9) as u8)
    } else if 0x61 <= b <= 0x67 {
        Some((b - 0x61 + 9) as u8)
    } else {
        None
    }
}

/// Reading a room name from its bytes.
pub open spec fn parse_room_id(b: Seq<u8>) -> Result<RoomId, RoomIdError> {
    if b.len() != 4 {
        Err(RoomIdError::InvalidLength)
    } else {
        match stage_value(b[0]) {
            None => Err(RoomIdError::InvalidStage),
            Some(stage) => match hex_byte_value(b[1], b[2]) {
                None => Err(RoomIdError::InvalidRoom),
                Some(room) => if 0x30 <= b[3] <= 0x39 {
                    Ok(RoomId { stage, room, player: (b[3] - 0x30) as u8 })
                } else {
                    Err(RoomIdError::InvalidPlayer)
                },
            },
        }
    }
}

fn stage_str(i: u8) -> (s: &'static str)
    requires
        i < 16,
    ensures
        s@ == seq![stage_char(i as nat)],
{
    proof {
        reveal_strlit("1"); reveal_strlit("2"); reveal_strlit("3"); reveal_strlit("4");
        reveal_strlit("5"); reveal_strlit("6"); reveal_strlit("7"); reveal_strlit("8");
        reveal_strlit("9"); reveal_strlit("A"); reveal_strlit("B"); reveal_strlit("C");
        reveal_strlit("D"); reveal_strlit("E"); reveal_strlit("F"); reveal_strlit("G");
    }
    match i {
        0 => "1", 1 => "2", 2 => "3", 3 => "4", 4 => "5", 5 => "6", 6 => "7", 7 => "8",
        8 => "9", 9 => "A", 10 => "B", 11 => "C", 12 => "D", 13 => "E", 14 => "F", _ => "G",
    }
}

pub(crate) fn hex_str(d: u8) -> (s: &'static str)
    requires
        d < 16,
    ensures
        s@ == seq![hex_char(d as nat)],
{
    proof {
        reveal_strlit("0"); reveal_strlit("1"); reveal_strlit("2"); reveal_strlit("3");
        reveal_strlit("4"); reveal_strlit("5"); reveal_strlit("6"); reveal_strlit("7");
        reveal_strlit("8"); reveal_strlit("9"); reveal_strlit("A"); reveal_strlit("B");
        reveal_strlit("C"); reveal_strlit("D"); reveal_strlit("E"); reveal_strlit("F");
    }
    match d {
        0 => "0", 1 => "1", 2 => "2", 3 => "3", 4 => "4", 5 => "5", 6 => "6", 7 => "7",
        8 => "8", 9 => "9", 10 => "A", 11 => "B", 12 => "C", 13 => "D", 14 => "E", _ => "F",
    }
}

/// `n` as exactly `width` uppercase hexadecimal digits (the lowest ones, padded with zeros).
pub open spec fn hex_fixed(n: nat, width: nat) -> Seq<char>
    decreases width,
{
    if width == 0 {
        seq![]
    } else {
        hex_fixed(n / 16, (width - 1) as nat).push(hex_char(n % 16))
    }
}

/// Appends `n` as exactly `width` uppercase hexadecimal digits.
pub fn push_hex(s: &mut String, n: u32, width: usize)
    ensures
        final(s)@ == old(s)@ + hex_fixed(n as nat, width as nat),
    decreases width,
{
    if width > 0 {
        push_hex(s, n / 16, width - 1);
        s.append(hex_str((n % 16) as u8));
        proof {
            assert(s@ =~= old(s)@ + hex_fixed(n as nat, width as nat));
        }
    } else {
        proof {
            assert(s@ =~= old(s)@ + hex_fixed(n as nat, width as nat));
        }
    }
}

fn hex_digit(b: u8) -> (r: Option<u8>)
    ensures
        r == hex_value(b),
{
    if 0x30 <= b && b <= 0x39 {
        Some(b - 0x30)
    } else if 0x41 <= b && b <= 0x46 {
        Some(b - 0x41 + 10)
    } else if 0x61 <= b && b <= 0x66 {
        Some(b - 0x61 + 10)
    } else {
        None
    }
}

impl RoomId {
    pub fn new(stage: u8, room: u8, player: u8) -> (r: Self)
        ensures
            r == (RoomId { stage, room, player }),
    {
        Self { stage, room, player }
    }

    pub fn zero() -> (r: Self)
        ensures
            r == (RoomId { stage: 0, room: 0, player: 0 }),
    {
        Self { stage: 0, room: 0, player: 0 }
    }

    /// The room's four-character name, such as "10A1" for stage 0, room 0x0A, Claire. The
    /// name is ASCII: its bytes are its characters, and each byte starts a character.
    pub fn to_text(&self) -> (s: String)
        requires
            self.stage < 16,
        ensures
            s@ == room_name(*self),
            vstd::utf8::encode_utf8(s@) == ascii_bytes(s@),
            forall|i: int| 0 <= i < s@.len() ==> #[trigger] vstd::utf8::is_char_boundary(vstd::utf8::encode_utf8(s@), i),
    {
        let mut s = String::new();
        s.append(stage_str(self.stage));
        s.append(hex_str(self.room / 16));
        s.append(hex_str(self.room % 16));
        push_decimal(&mut s, self.player as u64);
        proof {
            assert(s@ =~= room_name(*self));
            lemma_room_name_ascii(*self);
            vstd::utf8::is_ascii_chars_encode_utf8(s@);
            vstd::utf8::encode_utf8_valid_utf8(s@);
            assert(vstd::utf8::encode_utf8(s@) =~= ascii_bytes(s@));
            assert forall|i: int| 0 <= i < s@.len() implies #[trigger] vstd::utf8::is_char_boundary(vstd::utf8::encode_utf8(s@), i) by {
                vstd::utf8::is_char_boundary_iff_not_is_continuation_byte(vstd::utf8::encode_utf8(s@), i);
            }
        }
        s
    }

    /// Reads a room name. A name must be four bytes: a stage character (either case), two
    /// hexadecimal digits for the room, and a decimal digit for the player.
    pub fn from_str(s: &str) -> (r: Result<Self, RoomIdError>)
        requires
            s.spec_bytes().len() == 4 ==> vstd::utf8::is_char_boundary(s.spec_bytes(), 1)
                && vstd::utf8::is_char_boundary(s.spec_bytes(), 3),
        ensures
            r == parse_room_id(s.spec_bytes()),
    {
        let b = s.as_bytes();
        if b.len() != 4 {
            return Err(RoomIdError::InvalidLength);
        }
        let c0 = b[0];
        let stage = if 0x31 <= c0 && c0 <= 0x39 {
            c0 - 0x31
        } else if 0x41 <= c0 && c0 <= 0x47 {
            c0 - 0x41 + 9
        } else if 0x61 <= c0 && c0 <= 0x67 {
            c0 - 0x61 + 9
        } else {
            return Err(RoomIdError::InvalidStage);
        };
        let room = if b[1] == 0x2B {
            match hex_digit(b[2]) {
                Some(d) => d,
                None => return Err(RoomIdError::InvalidRoom),
            }
        } else {
            match (hex_digit(b[1]), hex_digit(b[2])) {
                (Some(h), Some(l)) => h * 16 + l,
                _ => return Err(RoomIdError::InvalidRoom),
            }
        };
        let c3 = b[3];
        if 0x30 <= c3 && c3 <= 0x39 {
            Ok(RoomId { stage, room, player: c3 - 0x30 })
        } else {
            Err(RoomIdError::InvalidPlayer)
        }
    }
}

/// Every character of a decimal number is a digit.
proof fn lemma_decimal_digits(n: nat)
    ensures
        forall|i: int| 0 <= i < decimal(n).len() ==> '0' <= #[trigger] decimal(n)[i] <= '9',
    decreases n,
{
    assert(forall|d: nat| '0' <= #[trigger] crate::text::digit_char(d) <= '9');
    if n >= 10 {
        lemma_decimal_digits(n / 10);
        let d = decimal(n);
        assert(d == decimal(n / 10).push(crate::text::digit_char(n % 10)));
        assert forall|i: int| 0 <= i < d.len() implies '0' <= #[trigger] d[i] <= '9' by {
            if i < d.len() - 1 {
                assert(d[i] == decimal(n / 10)[i]);
            }
        }
    }
}

/// A room's name is ASCII.
proof fn lemma_room_name_ascii(id: RoomId)
    requires
        id.stage < 16,
    ensures
        vstd::utf8::is_ascii_chars(room_name(id)),
{
    lemma_decimal_digits(id.player as nat);
    let name = room_name(id);
    assert forall|i: int| 0 <= i < name.len() implies '\0' <= #[trigger] name[i] <= '\u{7f}' by {
        if i >= 3 {
            assert(name[i] == decimal(id.player as nat)[i - 3]);
        }
    }
}

/// The bytes of an ASCII text.
pub open spec fn ascii_bytes(s: Seq<char>) -> Seq<u8> {
    Seq::new(s.len(), |i: int| s[i] as u8)
}

/// Reading a room's name gives the room back, for every stage and single-digit player: the
/// bytes of `to_text`'s name are what `from_str` reads.
pub proof fn lemma_room_name_roundtrip(id: RoomId)
    requires
        id.stage < 16,
        id.player < 10,
    ensures
        parse_room_id(ascii_bytes(room_name(id))) == Ok::<RoomId, RoomIdError>(id),
        parse_room_id(vstd::utf8::encode_utf8(room_name(id))) == Ok::<RoomId, RoomIdError>(id),
{
    lemma_room_name_ascii(id);
    vstd::utf8::is_ascii_chars_encode_utf8(room_name(id));
    assert(vstd::utf8::encode_utf8(room_name(id)) =~= ascii_bytes(room_name(id)));
    let name = room_name(id);
    assert(decimal(id.player as nat) == seq![crate::text::digit_char(id.player as nat)]);
    let b = ascii_bytes(name);
    assert(b.len() == 4);
    let h = (id.room / 16) as nat;
    let l = (id.room % 16) as nat;
    assert(stage_value(b[0]) == Some(id.stage));
    assert(hex_value(b[1]) == Some(h as u8));
    assert(hex_value(b[2]) == Some(l as u8));
    assert(b[1] != 0x2B);
    assert(hex_byte_value(b[1], b[2]) == Some(id.room));
    assert(0x30 <= b[3] <= 0x39 && b[3] - 0x30 == id.player);
}

} // verus!
