//! The recording file format: a header ("RE2R" and the format version) followed by the
//! frame records, every value little-endian, every list preceded by its length in one byte.
//! Writers append the bytes of a value; readers take the bytes back apart and say exactly
//! when they fail.

use vstd::prelude::*;
use crate::game::{MATRIX, SVECTOR, VECTOR};
use crate::record::{CharacterDiff, CharacterDiffView, CharacterField, FrameRecord, FrameRecordV1, FrameRecordView, GameField, RecordHeader, RECORD_VERSION, diffs_view};
use crate::roll_type::{RollType, roll_type_from_code, roll_type_from_code_spec, lemma_roll_type_code_roundtrip, lemma_roll_type_code_decodes};

verus! {

// ---------------------------------------------------------------------------------------
// Byte sequences

/// Whether `p` occurs in `b` at `pos`.
pub open spec fn prefix_at(b: Seq<u8>, pos: int, p: Seq<u8>) -> bool {
    0 <= pos && pos + p.len() <= b.len() && b.subrange(pos, pos + p.len()) == p
}

/// The two bytes of a 16-bit value, low byte first.
pub open spec fn le16(v: u16) -> Seq<u8> {
    seq![(v & 0xff) as u8, (v >> 8) as u8]
}

/// The four bytes of a 32-bit value, low byte first.
pub open spec fn le32(v: u32) -> Seq<u8> {
    seq![(v & 0xff) as u8, ((v >> 8) & 0xff) as u8, ((v >> 16) & 0xff) as u8, (v >> 24) as u8]
}

/// A signed 16-bit value in two's complement.
pub open spec fn lei16(v: i16) -> Seq<u8> {
    le16(v as u16)
}

/// A signed 32-bit value in two's complement.
pub open spec fn lei32(v: i32) -> Seq<u8> {
    le32(v as u32)
}

proof fn lemma_bytes16(b0: u8, b1: u8, v: u16)
    requires
        v == b1 * 256 + b0,
    ensures
        (v & 0xff) as u8 == b0,
        (v >> 8) as u8 == b1,
{
    assert((v & 0xff) as u8 == b0 && (v >> 8) as u8 == b1) by (bit_vector)
        requires v == b1 * 256 + b0;
}

proof fn lemma_bytes32(b0: u8, b1: u8, b2: u8, b3: u8, v: u32)
    requires
        v == b3 * 0x1000000 + b2 * 0x10000 + b1 * 0x100 + b0,
    ensures
        (v & 0xff) as u8 == b0,
        ((v >> 8) & 0xff) as u8 == b1,
        ((v >> 16) & 0xff) as u8 == b2,
        (v >> 24) as u8 == b3,
{
    assert((v & 0xff) as u8 == b0 && ((v >> 8) & 0xff) as u8 == b1 && ((v >> 16) & 0xff) as u8 == b2
        && (v >> 24) as u8 == b3) by (bit_vector)
        requires v == b3 * 0x1000000 + b2 * 0x10000 + b1 * 0x100 + b0;
}

/// Two 16-bit values with the same bytes are equal.
pub proof fn lemma_le16_injective(x: u16, y: u16)
    requires
        le16(x) == le16(y),
    ensures
        x == y,
{
    assert(le16(x)[0] == le16(y)[0] && le16(x)[1] == le16(y)[1]);
    assert(((x & 0xff) as u8 == (y & 0xff) as u8 && (x >> 8) as u8 == (y >> 8) as u8) ==> x == y) by (bit_vector);
}

/// Two 32-bit values with the same bytes are equal.
pub proof fn lemma_le32_injective(x: u32, y: u32)
    requires
        le32(x) == le32(y),
    ensures
        x == y,
{
    assert(le32(x)[0] == le32(y)[0] && le32(x)[1] == le32(y)[1] && le32(x)[2] == le32(y)[2] && le32(x)[3] == le32(y)[3]);
    assert(((x & 0xff) as u8 == (y & 0xff) as u8 && ((x >> 8) & 0xff) as u8 == ((y >> 8) & 0xff) as u8
        && ((x >> 16) & 0xff) as u8 == ((y >> 16) & 0xff) as u8 && (x >> 24) as u8 == (y >> 24) as u8) ==> x == y) by (bit_vector);
}

proof fn lemma_lei16_injective(x: i16, y: i16)
    requires
        lei16(x) == lei16(y),
    ensures
        x == y,
{
    lemma_le16_injective(x as u16, y as u16);
    assert((x as u16 == y as u16) ==> x == y) by (bit_vector);
}

proof fn lemma_lei32_injective(x: i32, y: i32)
    requires
        lei32(x) == lei32(y),
    ensures
        x == y,
{
    lemma_le32_injective(x as u32, y as u32);
    assert((x as u32 == y as u32) ==> x == y) by (bit_vector);
}

/// Reads a 16-bit value.
fn get_u16(b: &[u8], pos: usize) -> (r: u16)
    requires
        pos + 2 <= b.len(),
    ensures
        le16(r) == b@.subrange(pos as int, pos + 2),
{
    let b0: u8 = b[pos];
    let b1: u8 = b[pos + 1];
    assert(b1 as u16 * 256 + b0 as u16 <= 0xffff) by (nonlinear_arith)
        requires b0 < 256, b1 < 256;
    let r = (b1 as u16) * 256 + (b0 as u16);
    proof {
        lemma_bytes16(b@[pos as int], b@[pos + 1], r);
        assert(le16(r) =~= b@.subrange(pos as int, pos + 2));
    }
    r
}

/// Reads a signed 16-bit value.
fn get_i16(b: &[u8], pos: usize) -> (r: i16)
    requires
        pos + 2 <= b.len(),
    ensures
        lei16(r) == b@.subrange(pos as int, pos + 2),
{
    let u = get_u16(b, pos);
    let r = u as i16;
    assert(r as u16 == u) by (bit_vector)
        requires r == u as i16;
    r
}

/// Reads a 32-bit value.
fn get_u32(b: &[u8], pos: usize) -> (r: u32)
    requires
        pos + 4 <= b.len(),
    ensures
        le32(r) == b@.subrange(pos as int, pos + 4),
{
    let b0: u8 = b[pos];
    let b1: u8 = b[pos + 1];
    let b2: u8 = b[pos + 2];
    let b3: u8 = b[pos + 3];
    assert(b3 as u32 * 0x1000000 + b2 as u32 * 0x10000 + b1 as u32 * 0x100 + b0 as u32 <= 0xffff_ffff) by (nonlinear_arith)
        requires b0 < 256, b1 < 256, b2 < 256, b3 < 256;
    let r = (b3 as u32) * 0x1000000 + (b2 as u32) * 0x10000 + (b1 as u32) * 0x100 + (b0 as u32);
    proof {
        lemma_bytes32(b@[pos as int], b@[pos + 1], b@[pos + 2], b@[pos + 3], r);
        assert(le32(r) =~= b@.subrange(pos as int, pos + 4));
    }
    r
}

/// Reads a signed 32-bit value.
fn get_i32(b: &[u8], pos: usize) -> (r: i32)
    requires
        pos + 4 <= b.len(),
    ensures
        lei32(r) == b@.subrange(pos as int, pos + 4),
{
    let u = get_u32(b, pos);
    let r = u as i32;
    assert(r as u32 == u) by (bit_vector)
        requires r == u as i32;
    r
}

/// Appends a 16-bit value.
fn put_u16(out: &mut Vec<u8>, v: u16)
    ensures
        final(out)@ == old(out)@ + le16(v),
{
    out.push((v & 0xff) as u8);
    out.push((v >> 8) as u8);
    assert(out@ =~= old(out)@ + le16(v));
}

/// Appends a 32-bit value.
fn put_u32(out: &mut Vec<u8>, v: u32)
    ensures
        final(out)@ == old(out)@ + le32(v),
{
    out.push((v & 0xff) as u8);
    out.push(((v >> 8) & 0xff) as u8);
    out.push(((v >> 16) & 0xff) as u8);
    out.push((v >> 24) as u8);
    assert(out@ =~= old(out)@ + le32(v));
}

// ---------------------------------------------------------------------------------------
// Lists

/// The values of a list written one after another.
pub open spec fn ser_list<T>(s: Seq<T>, f: spec_fn(T) -> Seq<u8>) -> Seq<u8>
    decreases s.len(),
{
    if s.len() == 0 {
        Seq::empty()
    } else {
        ser_list(s.drop_last(), f) + f(s.last())
    }
}

/// Every value of a list satisfies `wf`.
pub open spec fn all_wf<T>(s: Seq<T>, wf: spec_fn(T) -> bool) -> bool {
    forall|i: int| 0 <= i < s.len() ==> #[trigger] wf(s[i])
}

/// No two different well-formed values can both be read at the same place: a reader knows
/// from the bytes alone which value it has.
pub open spec fn unique_prefixes<T>(f: spec_fn(T) -> Seq<u8>, wf: spec_fn(T) -> bool) -> bool {
    forall|x: T, y: T, b: Seq<u8>, pos: int|
        #![trigger prefix_at(b, pos, f(x)), prefix_at(b, pos, f(y))]
        wf(x) && wf(y) && prefix_at(b, pos, f(x)) && prefix_at(b, pos, f(y)) ==> x == y
}

proof fn lemma_prefix_at_concat(b: Seq<u8>, pos: int, p: Seq<u8>, q: Seq<u8>)
    ensures
        prefix_at(b, pos, p + q) <==> (prefix_at(b, pos, p) && prefix_at(b, pos + p.len(), q)),
{
    if prefix_at(b, pos, p + q) {
        assert(b.subrange(pos, pos + p.len()) =~= p) by {
            assert forall|k: int| 0 <= k < p.len() implies #[trigger] b.subrange(pos, pos + p.len())[k] == p[k] by {
                assert(b.subrange(pos, pos + (p + q).len())[k] == (p + q)[k]);
            }
        }
        assert(b.subrange(pos + p.len(), pos + p.len() + q.len()) =~= q) by {
            assert forall|k: int| 0 <= k < q.len() implies #[trigger] b.subrange(pos + p.len(), pos + p.len() + q.len())[k] == q[k] by {
                assert(b.subrange(pos, pos + (p + q).len())[k + p.len()] == (p + q)[k + p.len()]);
            }
        }
    }
    if prefix_at(b, pos, p) && prefix_at(b, pos + p.len(), q) {
        assert(b.subrange(pos, pos + (p + q).len()) =~= p + q) by {
            assert forall|k: int| 0 <= k < (p + q).len() implies #[trigger] b.subrange(pos, pos + (p + q).len())[k] == (p + q)[k] by {
                if k < p.len() {
                    assert(b.subrange(pos, pos + p.len())[k] == p[k]);
                } else {
                    assert(b.subrange(pos + p.len(), pos + p.len() + q.len())[k - p.len()] == q[k - p.len()]);
                }
            }
        }
    }
}

proof fn lemma_prefix_at_shorter(b: Seq<u8>, pos: int, p: Seq<u8>, q: Seq<u8>)
    requires
        prefix_at(b, pos, p),
        q.len() <= p.len(),
        p.subrange(0, q.len() as int) == q,
    ensures
        prefix_at(b, pos, q),
{
    assert(b.subrange(pos, pos + q.len()) =~= b.subrange(pos, pos + p.len()).subrange(0, q.len() as int));
}

proof fn lemma_ser_list_take<T>(s: Seq<T>, f: spec_fn(T) -> Seq<u8>, i: int)
    requires
        0 <= i < s.len(),
    ensures
        ser_list(s.take(i + 1), f) == ser_list(s.take(i), f) + f(s[i]),
{
    assert(s.take(i + 1).drop_last() =~= s.take(i));
}

proof fn lemma_ser_list_prefix<T>(s: Seq<T>, f: spec_fn(T) -> Seq<u8>, i: int)
    requires
        0 <= i <= s.len(),
    ensures
        ser_list(s.take(i), f).len() <= ser_list(s, f).len(),
        ser_list(s, f).subrange(0, ser_list(s.take(i), f).len() as int) == ser_list(s.take(i), f),
    decreases s.len(),
{
    if i == s.len() {
        assert(s.take(i) =~= s);
        assert(ser_list(s, f).subrange(0, ser_list(s, f).len() as int) =~= ser_list(s, f));
    } else {
        let d = s.drop_last();
        lemma_ser_list_prefix(d, f, i);
        assert(d.take(i) =~= s.take(i));
        assert(ser_list(s, f) == ser_list(d, f) + f(s.last()));
        assert(ser_list(s, f).subrange(0, ser_list(s.take(i), f).len() as int)
            =~= ser_list(d, f).subrange(0, ser_list(s.take(i), f).len() as int));
    }
}

/// A list of values that each take at least `n` bytes takes at least `n` bytes per value.
pub proof fn lemma_ser_list_min_len<T>(s: Seq<T>, f: spec_fn(T) -> Seq<u8>, n: nat)
    requires
        forall|x: T| #[trigger] f(x).len() >= n,
    ensures
        ser_list(s, f).len() >= n * s.len(),
    decreases s.len(),
{
    if s.len() > 0 {
        lemma_ser_list_min_len(s.drop_last(), f, n);
        assert(f(s.last()).len() >= n);
        assert(n * s.len() == n * s.drop_last().len() + n) by (nonlinear_arith)
            requires s.drop_last().len() + 1 == s.len();
    }
}

/// Two lists of well-formed values of the same length that can both be read at the same
/// place are equal.
proof fn lemma_list_unique<T>(f: spec_fn(T) -> Seq<u8>, wf: spec_fn(T) -> bool, b: Seq<u8>, pos: int, xs: Seq<T>, ys: Seq<T>)
    requires
        unique_prefixes(f, wf),
        all_wf(xs, wf),
        all_wf(ys, wf),
        xs.len() == ys.len(),
        prefix_at(b, pos, ser_list(xs, f)),
        prefix_at(b, pos, ser_list(ys, f)),
    ensures
        xs == ys,
    decreases xs.len(),
{
    if xs.len() > 0 {
        let dx = xs.drop_last();
        let dy = ys.drop_last();
        lemma_prefix_at_concat(b, pos, ser_list(dx, f), f(xs.last()));
        lemma_prefix_at_concat(b, pos, ser_list(dy, f), f(ys.last()));
        assert(all_wf(dx, wf)) by {
            assert forall|i: int| 0 <= i < dx.len() implies #[trigger] wf(dx[i]) by {
                assert(wf(xs[i]));
            }
        }
        assert(all_wf(dy, wf)) by {
            assert forall|i: int| 0 <= i < dy.len() implies #[trigger] wf(dy[i]) by {
                assert(wf(ys[i]));
            }
        }
        lemma_list_unique(f, wf, b, pos, dx, dy);
        assert(wf(xs[xs.len() - 1]) && wf(ys[ys.len() - 1]));
        let p = pos + ser_list(dx, f).len();
        assert(prefix_at(b, p, f(xs.last())) && prefix_at(b, p, f(ys.last())));
        assert(xs.last() == ys.last());
        assert(xs =~= ys) by {
            assert forall|i: int| 0 <= i < xs.len() implies xs[i] == ys[i] by {
                if i < xs.len() - 1 {
                    assert(dx[i] == dy[i]);
                }
            }
        }
    }
}

/// If a list of `i` values has been read at `pos` and a longer list of well-formed values can
/// be read there, its next value can be read right after the `i` values.
proof fn lemma_list_step<T>(f: spec_fn(T) -> Seq<u8>, wf: spec_fn(T) -> bool, b: Seq<u8>, pos: int, v: Seq<T>, ys: Seq<T>)
    requires
        unique_prefixes(f, wf),
        all_wf(v, wf),
        all_wf(ys, wf),
        v.len() < ys.len(),
        prefix_at(b, pos, ser_list(v, f)),
        prefix_at(b, pos, ser_list(ys, f)),
    ensures
        ys.take(v.len() as int) == v,
        prefix_at(b, pos + ser_list(v, f).len(), f(ys[v.len() as int])),
{
    let i = v.len() as int;
    lemma_ser_list_prefix(ys, f, i + 1);
    lemma_prefix_at_shorter(b, pos, ser_list(ys, f), ser_list(ys.take(i + 1), f));
    lemma_ser_list_take(ys, f, i);
    lemma_prefix_at_concat(b, pos, ser_list(ys.take(i), f), f(ys[i]));
    assert(all_wf(ys.take(i), wf)) by {
        assert forall|k: int| 0 <= k < ys.take(i).len() implies #[trigger] wf(ys.take(i)[k]) by {
            assert(wf(ys[k]));
        }
    }
    lemma_list_unique(f, wf, b, pos, v, ys.take(i));
}

// ---------------------------------------------------------------------------------------
// Vectors and matrices

/// A signed 16-bit value, as a list element.
pub open spec fn i16_ser() -> spec_fn(i16) -> Seq<u8> {
    |x: i16| lei16(x)
}

/// Any value of a type without a further condition.
pub open spec fn any_i16() -> spec_fn(i16) -> bool {
    |x: i16| true
}

pub open spec fn ser_vector(v: VECTOR) -> Seq<u8> {
    lei32(v.x) + lei32(v.y) + lei32(v.z)
}

pub open spec fn ser_svector(v: SVECTOR) -> Seq<u8> {
    lei16(v.vx) + lei16(v.vy) + lei16(v.vz) + lei16(v.pad)
}

/// The nine entries, the padding, then the translation.
pub open spec fn ser_matrix(m: MATRIX) -> Seq<u8> {
    ser_list(m.m@, i16_ser()) + le16(m.pad) + ser_vector(m.t)
}

proof fn lemma_i16s_unique()
    ensures
        unique_prefixes(i16_ser(), any_i16()),
{
    assert forall|x: i16, y: i16, b: Seq<u8>, pos: int|
        #![trigger prefix_at(b, pos, i16_ser()(x)), prefix_at(b, pos, i16_ser()(y))]
        any_i16()(x) && any_i16()(y) && prefix_at(b, pos, i16_ser()(x)) && prefix_at(b, pos, i16_ser()(y)) implies x == y by {
        lemma_lei16_injective(x, y);
    }
}

proof fn lemma_i16s_len(s: Seq<i16>)
    ensures
        ser_list(s, i16_ser()).len() == 2 * s.len(),
    decreases s.len(),
{
    if s.len() > 0 {
        lemma_i16s_len(s.drop_last());
    }
}

proof fn lemma_i16s_read(s: Seq<i16>, b: Seq<u8>, pos: int)
    requires
        0 <= pos,
        pos + 2 * s.len() <= b.len(),
        forall|j: int| 0 <= j < s.len() ==> #[trigger] lei16(s[j]) == b.subrange(pos + 2 * j, pos + 2 * j + 2),
    ensures
        ser_list(s, i16_ser()) == b.subrange(pos, pos + 2 * s.len()),
    decreases s.len(),
{
    if s.len() > 0 {
        let d = s.drop_last();
        assert forall|j: int| 0 <= j < d.len() implies #[trigger] lei16(d[j]) == b.subrange(pos + 2 * j, pos + 2 * j + 2) by {
            assert(lei16(s[j]) == b.subrange(pos + 2 * j, pos + 2 * j + 2));
        }
        lemma_i16s_read(d, b, pos);
        let n = s.len() - 1;
        assert(lei16(s[n]) == b.subrange(pos + 2 * n, pos + 2 * n + 2));
        assert(b.subrange(pos, pos + 2 * s.len()) =~= b.subrange(pos, pos + 2 * n) + b.subrange(pos + 2 * n, pos + 2 * n + 2));
    }
}

proof fn lemma_vector_injective(a: VECTOR, b: VECTOR)
    requires
        ser_vector(a) == ser_vector(b),
    ensures
        a == b,
{
    assert(lei32(a.x) =~= ser_vector(a).subrange(0, 4));
    assert(lei32(b.x) =~= ser_vector(b).subrange(0, 4));
    assert(lei32(a.y) =~= ser_vector(a).subrange(4, 8));
    assert(lei32(b.y) =~= ser_vector(b).subrange(4, 8));
    assert(lei32(a.z) =~= ser_vector(a).subrange(8, 12));
    assert(lei32(b.z) =~= ser_vector(b).subrange(8, 12));
    lemma_lei32_injective(a.x, b.x);
    lemma_lei32_injective(a.y, b.y);
    lemma_lei32_injective(a.z, b.z);
}

proof fn lemma_svector_injective(a: SVECTOR, b: SVECTOR)
    requires
        ser_svector(a) == ser_svector(b),
    ensures
        a == b,
{
    assert(lei16(a.vx) =~= ser_svector(a).subrange(0, 2));
    assert(lei16(b.vx) =~= ser_svector(b).subrange(0, 2));
    assert(lei16(a.vy) =~= ser_svector(a).subrange(2, 4));
    assert(lei16(b.vy) =~= ser_svector(b).subrange(2, 4));
    assert(lei16(a.vz) =~= ser_svector(a).subrange(4, 6));
    assert(lei16(b.vz) =~= ser_svector(b).subrange(4, 6));
    assert(lei16(a.pad) =~= ser_svector(a).subrange(6, 8));
    assert(lei16(b.pad) =~= ser_svector(b).subrange(6, 8));
    lemma_lei16_injective(a.vx, b.vx);
    lemma_lei16_injective(a.vy, b.vy);
    lemma_lei16_injective(a.vz, b.vz);
    lemma_lei16_injective(a.pad, b.pad);
}

proof fn lemma_matrix_len(m: MATRIX)
    ensures
        ser_matrix(m).len() == 32,
{
    lemma_i16s_len(m.m@);
}

proof fn lemma_matrix_injective(a: MATRIX, b: MATRIX)
    requires
        ser_matrix(a) == ser_matrix(b),
    ensures
        a == b,
{
    lemma_i16s_len(a.m@);
    lemma_i16s_len(b.m@);
    let sa = ser_matrix(a);
    assert(ser_list(a.m@, i16_ser()) =~= sa.subrange(0, 18));
    assert(ser_list(b.m@, i16_ser()) =~= sa.subrange(0, 18));
    assert(prefix_at(sa, 0, ser_list(a.m@, i16_ser())));
    assert(prefix_at(sa, 0, ser_list(b.m@, i16_ser())));
    lemma_i16s_unique();
    assert(all_wf(a.m@, any_i16()));
    assert(all_wf(b.m@, any_i16()));
    lemma_list_unique(i16_ser(), any_i16(), sa, 0, a.m@, b.m@);
    assert(a.m =~= b.m);
    assert(le16(a.pad) =~= sa.subrange(18, 20));
    assert(le16(b.pad) =~= sa.subrange(18, 20));
    lemma_le16_injective(a.pad, b.pad);
    assert(ser_vector(a.t) =~= sa.subrange(20, 32));
    assert(ser_vector(b.t) =~= sa.subrange(20, 32));
    lemma_vector_injective(a.t, b.t);
}

fn get_vector(b: &[u8], pos: usize) -> (r: VECTOR)
    requires
        pos + 12 <= b.len(),
    ensures
        ser_vector(r) == b@.subrange(pos as int, pos + 12),
{
    let x = get_i32(b, pos);
    let y = get_i32(b, pos + 4);
    let z = get_i32(b, pos + 8);
    let r = VECTOR { x, y, z };
    assert(ser_vector(r) =~= b@.subrange(pos as int, pos + 12));
    r
}

fn get_svector(b: &[u8], pos: usize) -> (r: SVECTOR)
    requires
        pos + 8 <= b.len(),
    ensures
        ser_svector(r) == b@.subrange(pos as int, pos + 8),
{
    let vx = get_i16(b, pos);
    let vy = get_i16(b, pos + 2);
    let vz = get_i16(b, pos + 4);
    let pad = get_i16(b, pos + 6);
    let r = SVECTOR { vx, vy, vz, pad };
    assert(ser_svector(r) =~= b@.subrange(pos as int, pos + 8));
    r
}

fn get_matrix(b: &[u8], pos: usize) -> (r: MATRIX)
    requires
        pos + 32 <= b.len(),
    ensures
        ser_matrix(r) == b@.subrange(pos as int, pos + 32),
{
    let mut m: [i16; 9] = [0i16; 9];
    let mut j: usize = 0;
    while j < 9
        invariant
            j <= 9,
            pos + 32 <= b.len(),
            forall|k: int| 0 <= k < j ==> #[trigger] lei16(m@[k]) == b@.subrange(pos + 2 * k, pos + 2 * k + 2),
        decreases 9 - j,
    {
        let v = get_i16(b, pos + 2 * j);
        m[j] = v;
        j += 1;
    }
    let pad = get_u16(b, pos + 18);
    let t = get_vector(b, pos + 20);
    let r = MATRIX { m, pad, t };
    proof {
        lemma_i16s_read(m@, b@, pos as int);
        assert(ser_matrix(r) =~= b@.subrange(pos as int, pos + 32));
    }
    r
}

fn put_vector(out: &mut Vec<u8>, v: &VECTOR)
    ensures
        final(out)@ == old(out)@ + ser_vector(*v),
{
    put_u32(out, v.x as u32);
    put_u32(out, v.y as u32);
    put_u32(out, v.z as u32);
    assert(out@ =~= old(out)@ + ser_vector(*v));
}

fn put_svector(out: &mut Vec<u8>, v: &SVECTOR)
    ensures
        final(out)@ == old(out)@ + ser_svector(*v),
{
    put_u16(out, v.vx as u16);
    put_u16(out, v.vy as u16);
    put_u16(out, v.vz as u16);
    put_u16(out, v.pad as u16);
    assert(out@ =~= old(out)@ + ser_svector(*v));
}

fn put_matrix(out: &mut Vec<u8>, m: &MATRIX)
    ensures
        final(out)@ == old(out)@ + ser_matrix(*m),
{
    let ghost o = out@;
    let mut j: usize = 0;
    while j < 9
        invariant
            j <= 9,
            out@ == o + ser_list(m.m@.take(j as int), i16_ser()),
        decreases 9 - j,
    {
        proof { lemma_ser_list_take(m.m@, i16_ser(), j as int); }
        put_u16(out, m.m[j] as u16);
        j += 1;
        assert(out@ =~= o + ser_list(m.m@.take(j as int), i16_ser()));
    }
    assert(m.m@.take(9) =~= m.m@);
    put_u16(out, m.pad);
    put_vector(out, &m.t);
    assert(out@ =~= o + ser_matrix(*m));
}

// ---------------------------------------------------------------------------------------
// Character fields

/// A character field: its tag, then its values.
pub open spec fn ser_char_field(f: CharacterField) -> Seq<u8> {
    match f {
        CharacterField::State(st) => seq![0u8] + st@,
        CharacterField::Id(x) => seq![1u8, x],
        CharacterField::Transform(m) => seq![2u8] + ser_matrix(m),
        CharacterField::MotionAngle(a) => seq![3u8] + lei16(a),
        CharacterField::Motion(x) => seq![4u8] + lei16(x),
        CharacterField::Size(w, h) => seq![5u8] + le16(w) + le16(h),
        CharacterField::Floor(x) => seq![6u8, x],
        CharacterField::Velocity(v) => seq![7u8] + ser_svector(v),
        CharacterField::Health(h) => seq![8u8] + lei16(h),
        CharacterField::Removed => seq![9u8],
        CharacterField::Type(t) => seq![10u8, t],
        CharacterField::Flags(x) => seq![11u8] + le32(x),
        CharacterField::PartTranslation(i, v) => seq![12u8, i] + ser_vector(v),
        CharacterField::ModelPartTransform(i, m) => seq![13u8, i] + ser_matrix(m),
    }
}

/// The number of bytes of a character field with the given tag.
pub open spec fn char_field_len(tag: u8) -> nat {
    if tag == 0 { 5 }
    else if tag == 1 { 2 }
    else if tag == 2 { 33 }
    else if tag == 3 { 3 }
    else if tag == 4 { 3 }
    else if tag == 5 { 5 }
    else if tag == 6 { 2 }
    else if tag == 7 { 9 }
    else if tag == 8 { 3 }
    else if tag == 9 { 1 }
    else if tag == 10 { 2 }
    else if tag == 11 { 5 }
    else if tag == 12 { 14 }
    else { 34 }
}

/// A character field, as a list element.
pub open spec fn char_field_ser() -> spec_fn(CharacterField) -> Seq<u8> {
    |f: CharacterField| ser_char_field(f)
}

/// Any character field.
pub open spec fn any_char_field() -> spec_fn(CharacterField) -> bool {
    |f: CharacterField| true
}

proof fn lemma_char_field_shape(f: CharacterField)
    ensures
        ser_char_field(f).len() > 0,
        ser_char_field(f)[0] <= 13,
        ser_char_field(f).len() == char_field_len(ser_char_field(f)[0]),
{
    match f {
        CharacterField::Transform(m) => lemma_matrix_len(m),
        CharacterField::ModelPartTransform(_, m) => lemma_matrix_len(m),
        _ => {},
    }
}

#[verifier::spinoff_prover]
#[verifier::rlimit(40)]
proof fn lemma_char_field_injective(x: CharacterField, y: CharacterField)
    requires
        ser_char_field(x) == ser_char_field(y),
    ensures
        x == y,
{
    let s = ser_char_field(x);
    match (x, y) {
        (CharacterField::State(a), CharacterField::State(c)) => {
            assert(a@ =~= s.subrange(1, 5));
            assert(c@ =~= s.subrange(1, 5));
            assert(a =~= c);
        },
        (CharacterField::Transform(a), CharacterField::Transform(c)) => {
            lemma_matrix_len(a);
            lemma_matrix_len(c);
            assert(ser_matrix(a) =~= s.subrange(1, 33));
            assert(ser_matrix(c) =~= s.subrange(1, 33));
            lemma_matrix_injective(a, c);
        },
        (CharacterField::MotionAngle(a), CharacterField::MotionAngle(c)) => {
            assert(lei16(a) =~= s.subrange(1, 3));
            assert(lei16(c) =~= s.subrange(1, 3));
            lemma_lei16_injective(a, c);
        },
        (CharacterField::Motion(a), CharacterField::Motion(c)) => {
            assert(lei16(a) =~= s.subrange(1, 3));
            assert(lei16(c) =~= s.subrange(1, 3));
            lemma_lei16_injective(a, c);
        },
        (CharacterField::Size(a, a2), CharacterField::Size(c, c2)) => {
            assert(le16(a) =~= s.subrange(1, 3));
            assert(le16(c) =~= s.subrange(1, 3));
            assert(le16(a2) =~= s.subrange(3, 5));
            assert(le16(c2) =~= s.subrange(3, 5));
            lemma_le16_injective(a, c);
            lemma_le16_injective(a2, c2);
        },
        (CharacterField::Velocity(a), CharacterField::Velocity(c)) => {
            assert(ser_svector(a) =~= s.subrange(1, 9));
            assert(ser_svector(c) =~= s.subrange(1, 9));
            lemma_svector_injective(a, c);
        },
        (CharacterField::Health(a), CharacterField::Health(c)) => {
            assert(lei16(a) =~= s.subrange(1, 3));
            assert(lei16(c) =~= s.subrange(1, 3));
            lemma_lei16_injective(a, c);
        },
        (CharacterField::Flags(a), CharacterField::Flags(c)) => {
            assert(le32(a) =~= s.subrange(1, 5));
            assert(le32(c) =~= s.subrange(1, 5));
            lemma_le32_injective(a, c);
        },
        (CharacterField::PartTranslation(i, a), CharacterField::PartTranslation(k, c)) => {
            assert(s[1] == ser_char_field(y)[1]);
            assert(ser_vector(a) =~= s.subrange(2, 14));
            assert(ser_vector(c) =~= s.subrange(2, 14));
            lemma_vector_injective(a, c);
        },
        (CharacterField::ModelPartTransform(i, a), CharacterField::ModelPartTransform(k, c)) => {
            assert(s[1] == ser_char_field(y)[1]);
            lemma_matrix_len(a);
            lemma_matrix_len(c);
            assert(ser_matrix(a) =~= s.subrange(2, 34));
            assert(ser_matrix(c) =~= s.subrange(2, 34));
            lemma_matrix_injective(a, c);
        },
        _ => {
            lemma_char_field_shape(x);
            lemma_char_field_shape(y);
            assert(s[0] == ser_char_field(y)[0]);
            if s.len() > 1 {
                assert(s[1] == ser_char_field(y)[1]);
            }
        },
    }
}

/// No two character fields can be read at the same place.
pub proof fn lemma_char_fields_unique()
    ensures
        unique_prefixes(char_field_ser(), any_char_field()),
{
    assert forall|x: CharacterField, y: CharacterField, b: Seq<u8>, pos: int|
        #![trigger prefix_at(b, pos, char_field_ser()(x)), prefix_at(b, pos, char_field_ser()(y))]
        any_char_field()(x) && any_char_field()(y) && prefix_at(b, pos, char_field_ser()(x))
            && prefix_at(b, pos, char_field_ser()(y)) implies x == y by {
        lemma_char_field_shape(x);
        lemma_char_field_shape(y);
        assert(ser_char_field(x)[0] == b[pos]);
        assert(ser_char_field(y)[0] == b[pos]);
        lemma_char_field_injective(x, y);
    }
}

fn char_field_size(tag: u8) -> (r: usize)
    requires
        tag <= 13,
    ensures
        r == char_field_len(tag),
{
    match tag {
        0 => 5,
        1 => 2,
        2 => 33,
        3 => 3,
        4 => 3,
        5 => 5,
        6 => 2,
        7 => 9,
        8 => 3,
        9 => 1,
        10 => 2,
        11 => 5,
        12 => 14,
        _ => 34,
    }
}

/// Reads the character field at `pos`: the field and the position after it, or `None` when
/// no field can be read there.
pub fn parse_char_field(b: &[u8], pos: usize) -> (r: Option<(CharacterField, usize)>)
    requires
        pos <= b.len(),
    ensures
        match r {
            Some((f, end)) => end == pos + ser_char_field(f).len() && prefix_at(b@, pos as int, ser_char_field(f)),
            None => forall|f: CharacterField| !prefix_at(b@, pos as int, #[trigger] ser_char_field(f)),
        },
{
    if pos >= b.len() || b[pos] > 13 || b.len() - pos < char_field_size(b[pos]) {
        proof {
            assert forall|f: CharacterField| !prefix_at(b@, pos as int, #[trigger] ser_char_field(f)) by {
                lemma_char_field_shape(f);
                if prefix_at(b@, pos as int, ser_char_field(f)) {
                    assert(b@.subrange(pos as int, pos + ser_char_field(f).len())[0] == ser_char_field(f)[0]);
                }
            }
        }
        return None;
    }
    let tag = b[pos];
    let n = char_field_size(tag);
    let p = pos + 1;
    let f = match tag {
        0 => CharacterField::State([b[p], b[p + 1], b[p + 2], b[p + 3]]),
        1 => CharacterField::Id(b[p]),
        2 => CharacterField::Transform(get_matrix(b, p)),
        3 => CharacterField::MotionAngle(get_i16(b, p)),
        4 => CharacterField::Motion(get_i16(b, p)),
        5 => CharacterField::Size(get_u16(b, p), get_u16(b, p + 2)),
        6 => CharacterField::Floor(b[p]),
        7 => CharacterField::Velocity(get_svector(b, p)),
        8 => CharacterField::Health(get_i16(b, p)),
        9 => CharacterField::Removed,
        10 => CharacterField::Type(b[p]),
        11 => CharacterField::Flags(get_u32(b, p)),
        12 => CharacterField::PartTranslation(b[p], get_vector(b, p + 1)),
        _ => CharacterField::ModelPartTransform(b[p], get_matrix(b, p + 1)),
    };
    proof {
        lemma_char_field_shape(f);
        assert(ser_char_field(f) =~= b@.subrange(pos as int, pos + n));
    }
    Some((f, pos + n))
}

/// Appends a character field.
pub fn write_char_field(out: &mut Vec<u8>, f: &CharacterField)
    ensures
        final(out)@ == old(out)@ + ser_char_field(*f),
{
    match f {
        CharacterField::State(st) => {
            out.push(0u8);
            out.push(st[0]);
            out.push(st[1]);
            out.push(st[2]);
            out.push(st[3]);
        },
        CharacterField::Id(x) => {
            out.push(1u8);
            out.push(*x);
        },
        CharacterField::Transform(m) => {
            out.push(2u8);
            put_matrix(out, m);
        },
        CharacterField::MotionAngle(a) => {
            out.push(3u8);
            put_u16(out, *a as u16);
        },
        CharacterField::Motion(x) => {
            out.push(4u8);
            put_u16(out, *x as u16);
        },
        CharacterField::Size(w, h) => {
            out.push(5u8);
            put_u16(out, *w);
            put_u16(out, *h);
        },
        CharacterField::Floor(x) => {
            out.push(6u8);
            out.push(*x);
        },
        CharacterField::Velocity(v) => {
            out.push(7u8);
            put_svector(out, v);
        },
        CharacterField::Health(h) => {
            out.push(8u8);
            put_u16(out, *h as u16);
        },
        CharacterField::Removed => {
            out.push(9u8);
        },
        CharacterField::Type(t) => {
            out.push(10u8);
            out.push(*t);
        },
        CharacterField::Flags(x) => {
            out.push(11u8);
            put_u32(out, *x);
        },
        CharacterField::PartTranslation(i, v) => {
            out.push(12u8);
            out.push(*i);
            put_vector(out, v);
        },
        CharacterField::ModelPartTransform(i, m) => {
            out.push(13u8);
            out.push(*i);
            put_matrix(out, m);
        },
    }
    assert(out@ =~= old(out)@ + ser_char_field(*f));
}

// ---------------------------------------------------------------------------------------
// Game fields

/// A game field: its tag, then its values; a roll's kind is written as its code.
pub open spec fn ser_game_field(f: GameField) -> Seq<u8> {
    match f {
        GameField::KeysDown(x) => seq![0u8] + le32(x),
        GameField::KeysDownThisFrame(x) => seq![1u8] + le32(x),
        GameField::StageIndex(x) => seq![2u8, x],
        GameField::RoomIndex(x) => seq![3u8, x],
        GameField::Rng(x) => seq![4u8] + le16(x),
        GameField::StageOffset(x) => seq![5u8, x],
        GameField::Scenario(x) => seq![6u8, x],
        GameField::CharacterRng { char_index, roll_type, start_value } =>
            seq![7u8, char_index] + le16(roll_type.code_spec()) + le16(start_value),
        GameField::KnownRng { roll_type, start_value } => seq![8u8] + le16(roll_type.code_spec()) + le16(start_value),
        GameField::ScriptRng(x) => seq![9u8] + le16(x),
        GameField::RngRoll(a, v) => seq![10u8] + le32(a) + le16(v),
        GameField::SoundFlags(x) => seq![11u8, x],
        GameField::NewGame => seq![12u8],
    }
}

/// The number of bytes of a game field with the given tag.
pub open spec fn game_field_len(tag: u8) -> nat {
    if tag == 0 || tag == 1 { 5 }
    else if tag == 4 || tag == 9 { 3 }
    else if tag == 7 { 6 }
    else if tag == 8 { 5 }
    else if tag == 10 { 7 }
    else if tag == 12 { 1 }
    else { 2 }
}

/// A game field, as a list element.
pub open spec fn game_field_ser() -> spec_fn(GameField) -> Seq<u8> {
    |f: GameField| ser_game_field(f)
}

/// Any game field.
pub open spec fn any_game_field() -> spec_fn(GameField) -> bool {
    |f: GameField| true
}

proof fn lemma_game_field_shape(f: GameField)
    ensures
        ser_game_field(f).len() > 0,
        ser_game_field(f)[0] <= 12,
        ser_game_field(f).len() == game_field_len(ser_game_field(f)[0]),
{
}

proof fn lemma_roll_code_injective(a: RollType, c: RollType)
    requires
        le16(a.code_spec()) == le16(c.code_spec()),
    ensures
        a == c,
{
    lemma_le16_injective(a.code_spec(), c.code_spec());
    lemma_roll_type_code_roundtrip(a);
    lemma_roll_type_code_roundtrip(c);
}

#[verifier::spinoff_prover]
#[verifier::rlimit(40)]
proof fn lemma_game_field_injective(x: GameField, y: GameField)
    requires
        ser_game_field(x) == ser_game_field(y),
    ensures
        x == y,
{
    let s = ser_game_field(x);
    lemma_game_field_shape(x);
    lemma_game_field_shape(y);
    assert(s[0] == ser_game_field(y)[0]);
    match (x, y) {
        (GameField::KeysDown(a), GameField::KeysDown(c)) => {
            assert(le32(a) =~= s.subrange(1, 5));
            assert(le32(c) =~= s.subrange(1, 5));
            lemma_le32_injective(a, c);
        },
        (GameField::KeysDownThisFrame(a), GameField::KeysDownThisFrame(c)) => {
            assert(le32(a) =~= s.subrange(1, 5));
            assert(le32(c) =~= s.subrange(1, 5));
            lemma_le32_injective(a, c);
        },
        (GameField::Rng(a), GameField::Rng(c)) => {
            assert(le16(a) =~= s.subrange(1, 3));
            assert(le16(c) =~= s.subrange(1, 3));
            lemma_le16_injective(a, c);
        },
        (GameField::ScriptRng(a), GameField::ScriptRng(c)) => {
            assert(le16(a) =~= s.subrange(1, 3));
            assert(le16(c) =~= s.subrange(1, 3));
            lemma_le16_injective(a, c);
        },
        (GameField::CharacterRng { char_index: i1, roll_type: r1, start_value: v1 },
         GameField::CharacterRng { char_index: i2, roll_type: r2, start_value: v2 }) => {
            assert(s[1] == ser_game_field(y)[1]);
            assert(le16(r1.code_spec()) =~= s.subrange(2, 4));
            assert(le16(r2.code_spec()) =~= s.subrange(2, 4));
            assert(le16(v1) =~= s.subrange(4, 6));
            assert(le16(v2) =~= s.subrange(4, 6));
            lemma_roll_code_injective(r1, r2);
            lemma_le16_injective(v1, v2);
        },
        (GameField::KnownRng { roll_type: r1, start_value: v1 }, GameField::KnownRng { roll_type: r2, start_value: v2 }) => {
            assert(le16(r1.code_spec()) =~= s.subrange(1, 3));
            assert(le16(r2.code_spec()) =~= s.subrange(1, 3));
            assert(le16(v1) =~= s.subrange(3, 5));
            assert(le16(v2) =~= s.subrange(3, 5));
            lemma_roll_code_injective(r1, r2);
            lemma_le16_injective(v1, v2);
        },
        (GameField::RngRoll(a, v), GameField::RngRoll(c, w)) => {
            assert(le32(a) =~= s.subrange(1, 5));
            assert(le32(c) =~= s.subrange(1, 5));
            assert(le16(v) =~= s.subrange(5, 7));
            assert(le16(w) =~= s.subrange(5, 7));
            lemma_le32_injective(a, c);
            lemma_le16_injective(v, w);
        },
        _ => {
            if s.len() > 1 {
                assert(s[1] == ser_game_field(y)[1]);
            }
        },
    }
}

/// No two game fields can be read at the same place.
pub proof fn lemma_game_fields_unique()
    ensures
        unique_prefixes(game_field_ser(), any_game_field()),
{
    assert forall|x: GameField, y: GameField, b: Seq<u8>, pos: int|
        #![trigger prefix_at(b, pos, game_field_ser()(x)), prefix_at(b, pos, game_field_ser()(y))]
        any_game_field()(x) && any_game_field()(y) && prefix_at(b, pos, game_field_ser()(x))
            && prefix_at(b, pos, game_field_ser()(y)) implies x == y by {
        lemma_game_field_shape(x);
        lemma_game_field_shape(y);
        assert(ser_game_field(x)[0] == b[pos]);
        assert(ser_game_field(y)[0] == b[pos]);
        lemma_game_field_injective(x, y);
    }
}

fn game_field_size(tag: u8) -> (r: usize)
    requires
        tag <= 12,
    ensures
        r == game_field_len(tag),
{
    if tag == 0 || tag == 1 {
        5
    } else if tag == 4 || tag == 9 {
        3
    } else if tag == 7 {
        6
    } else if tag == 8 {
        5
    } else if tag == 10 {
        7
    } else if tag == 12 {
        1
    } else {
        2
    }
}

/// Reads a roll of a known kind (tag 7 or 8), whose kind code must be known.
fn parse_roll_field(b: &[u8], pos: usize) -> (r: Option<(GameField, usize)>)
    requires
        pos < b.len(),
        b@[pos as int] == 7 || b@[pos as int] == 8,
        pos + game_field_len(b@[pos as int]) <= b.len(),
    ensures
        match r {
            Some((f, end)) => end == pos + ser_game_field(f).len() && prefix_at(b@, pos as int, ser_game_field(f)),
            None => forall|f: GameField| !prefix_at(b@, pos as int, #[trigger] ser_game_field(f)),
        },
{
    let tag = b[pos];
    let n = game_field_size(tag);
    let p = pos + 1;
    let q = if tag == 7 { p + 1 } else { p };
    let code = get_u16(b, q);
    let start_value = get_u16(b, q + 2);
    match roll_type_from_code(code) {
        None => {
            proof {
                assert forall|f: GameField| !prefix_at(b@, pos as int, #[trigger] ser_game_field(f)) by {
                    lemma_game_field_shape(f);
                    if prefix_at(b@, pos as int, ser_game_field(f)) {
                        let s = ser_game_field(f);
                        assert(b@.subrange(pos as int, pos + s.len())[0] == s[0]);
                        match f {
                            GameField::CharacterRng { char_index, roll_type, start_value } => {
                                assert(tag == 7);
                                assert(s.subrange(2, 4) =~= le16(roll_type.code_spec()));
                                assert(b@.subrange(q as int, q + 2) =~= b@.subrange(pos as int, pos + s.len()).subrange(2, 4));
                                lemma_le16_injective(roll_type.code_spec(), code);
                                lemma_roll_type_code_roundtrip(roll_type);
                            },
                            GameField::KnownRng { roll_type, start_value } => {
                                assert(tag == 8);
                                assert(s.subrange(1, 3) =~= le16(roll_type.code_spec()));
                                assert(b@.subrange(q as int, q + 2) =~= b@.subrange(pos as int, pos + s.len()).subrange(1, 3));
                                lemma_le16_injective(roll_type.code_spec(), code);
                                lemma_roll_type_code_roundtrip(roll_type);
                            },
                            _ => {},
                        }
                    }
                }
            }
            return None;
        },
        Some(roll_type) => {
            proof { lemma_roll_type_code_decodes(code); }
            let f = if tag == 7 {
                GameField::CharacterRng { char_index: b[p], roll_type, start_value }
            } else {
                GameField::KnownRng { roll_type, start_value }
            };
            proof {
                assert(ser_game_field(f) =~= b@.subrange(pos as int, pos + n));
            }
            return Some((f, pos + n));
        },
    }
}

/// The recorder's tags for the game fields, each followed by its value: keys down 0, keys down
/// this frame 1, stage index 2, room index 3, generator value 4, stage offset 5, scenario 6,
/// script roll 9, roll 10 (its address, then its value), sound flags 11; and 12 alone for a new
/// game.
pub proof fn lemma_game_field_tags(x: u8, w: u32, h: u16)
    ensures
        ser_game_field(GameField::KeysDown(w)) == seq![0u8] + le32(w),
        ser_game_field(GameField::KeysDownThisFrame(w)) == seq![1u8] + le32(w),
        ser_game_field(GameField::Rng(h)) == seq![4u8] + le16(h),
        ser_game_field(GameField::ScriptRng(h)) == seq![9u8] + le16(h),
        ser_game_field(GameField::RngRoll(w, h)) == seq![10u8] + le32(w) + le16(h),
        ser_game_field(GameField::StageIndex(x)) == seq![2u8, x],
        ser_game_field(GameField::RoomIndex(x)) == seq![3u8, x],
        ser_game_field(GameField::StageOffset(x)) == seq![5u8, x],
        ser_game_field(GameField::Scenario(x)) == seq![6u8, x],
        ser_game_field(GameField::SoundFlags(x)) == seq![11u8, x],
        ser_game_field(GameField::NewGame) == seq![12u8],
{
}

/// Reading goes by the same tags: a game field found at `pos` whose tag is 2, 3, 5, 6 or 11 is
/// the stage index, room index, stage offset, scenario or sound flags holding the next byte.
pub proof fn lemma_game_field_read_tags(b: Seq<u8>, pos: int, f: GameField)
    requires
        prefix_at(b, pos, ser_game_field(f)),
    ensures
        b[pos] == 2 ==> f == GameField::StageIndex(b[pos + 1]),
        b[pos] == 3 ==> f == GameField::RoomIndex(b[pos + 1]),
        b[pos] == 5 ==> f == GameField::StageOffset(b[pos + 1]),
        b[pos] == 6 ==> f == GameField::Scenario(b[pos + 1]),
        b[pos] == 11 ==> f == GameField::SoundFlags(b[pos + 1]),
{
    let s = ser_game_field(f);
    lemma_game_field_shape(f);
    assert(b.subrange(pos, pos + s.len())[0] == s[0]);
    let t = b[pos];
    if t == 2 || t == 3 || t == 5 || t == 6 || t == 11 {
        assert(s.len() == 2);
        assert(b.subrange(pos, pos + 2)[1] == s[1]);
        let g = if t == 2 {
            GameField::StageIndex(b[pos + 1])
        } else if t == 3 {
            GameField::RoomIndex(b[pos + 1])
        } else if t == 5 {
            GameField::StageOffset(b[pos + 1])
        } else if t == 6 {
            GameField::Scenario(b[pos + 1])
        } else {
            GameField::SoundFlags(b[pos + 1])
        };
        assert(ser_game_field(g) =~= s);
        lemma_game_field_injective(f, g);
    }
}

/// Reads the game field at `pos`: the field and the position after it, or `None` when no
/// field can be read there (among other reasons, an unknown roll kind).
pub fn parse_game_field(b: &[u8], pos: usize) -> (r: Option<(GameField, usize)>)
    requires
        pos <= b.len(),
    ensures
        match r {
            Some((f, end)) => end == pos + ser_game_field(f).len() && prefix_at(b@, pos as int, ser_game_field(f)),
            None => forall|f: GameField| !prefix_at(b@, pos as int, #[trigger] ser_game_field(f)),
        },
{
    if pos >= b.len() || b[pos] > 12 || b.len() - pos < game_field_size(b[pos]) {
        proof {
            assert forall|f: GameField| !prefix_at(b@, pos as int, #[trigger] ser_game_field(f)) by {
                lemma_game_field_shape(f);
                if prefix_at(b@, pos as int, ser_game_field(f)) {
                    assert(b@.subrange(pos as int, pos + ser_game_field(f).len())[0] == ser_game_field(f)[0]);
                }
            }
        }
        return None;
    }
    let tag = b[pos];
    let n = game_field_size(tag);
    let p = pos + 1;
    if tag == 7 || tag == 8 {
        return parse_roll_field(b, pos);
    }
    let f = match tag {
        0 => GameField::KeysDown(get_u32(b, p)),
        1 => GameField::KeysDownThisFrame(get_u32(b, p)),
        2 => GameField::StageIndex(b[p]),
        3 => GameField::RoomIndex(b[p]),
        4 => GameField::Rng(get_u16(b, p)),
        5 => GameField::StageOffset(b[p]),
        6 => GameField::Scenario(b[p]),
        9 => GameField::ScriptRng(get_u16(b, p)),
        10 => GameField::RngRoll(get_u32(b, p), get_u16(b, p + 4)),
        11 => GameField::SoundFlags(b[p]),
        _ => GameField::NewGame,
    };
    proof {
        assert(ser_game_field(f) =~= b@.subrange(pos as int, pos + n));
    }
    Some((f, pos + n))
}

/// Appends a game field.
pub fn write_game_field(out: &mut Vec<u8>, f: &GameField)
    ensures
        final(out)@ == old(out)@ + ser_game_field(*f),
{
    match f {
        GameField::KeysDown(x) => {
            out.push(0u8);
            put_u32(out, *x);
        },
        GameField::KeysDownThisFrame(x) => {
            out.push(1u8);
            put_u32(out, *x);
        },
        GameField::StageIndex(x) => {
            out.push(2u8);
            out.push(*x);
        },
        GameField::RoomIndex(x) => {
            out.push(3u8);
            out.push(*x);
        },
        GameField::Rng(x) => {
            out.push(4u8);
            put_u16(out, *x);
        },
        GameField::StageOffset(x) => {
            out.push(5u8);
            out.push(*x);
        },
        GameField::Scenario(x) => {
            out.push(6u8);
            out.push(*x);
        },
        GameField::CharacterRng { char_index, roll_type, start_value } => {
            out.push(7u8);
            out.push(*char_index);
            put_u16(out, roll_type.code());
            put_u16(out, *start_value);
        },
        GameField::KnownRng { roll_type, start_value } => {
            out.push(8u8);
            put_u16(out, roll_type.code());
            put_u16(out, *start_value);
        },
        GameField::ScriptRng(x) => {
            out.push(9u8);
            put_u16(out, *x);
        },
        GameField::RngRoll(a, v) => {
            out.push(10u8);
            put_u32(out, *a);
            put_u16(out, *v);
        },
        GameField::SoundFlags(x) => {
            out.push(11u8);
            out.push(*x);
        },
        GameField::NewGame => {
            out.push(12u8);
        },
    }
    assert(out@ =~= old(out)@ + ser_game_field(*f));
}

// ---------------------------------------------------------------------------------------
// Character diffs

/// A diff: the slot, the number of changes (one byte, as the count is written), then the
/// changes.
pub open spec fn ser_diff(d: CharacterDiffView) -> Seq<u8> {
    seq![d.index, d.changes.len() as u8] + ser_list(d.changes, char_field_ser())
}

/// A diff whose number of changes fits in its count byte.
pub open spec fn diff_wf(d: CharacterDiffView) -> bool {
    d.changes.len() < 256
}

/// A diff, as a list element.
pub open spec fn diff_ser() -> spec_fn(CharacterDiffView) -> Seq<u8> {
    |d: CharacterDiffView| ser_diff(d)
}

/// The diffs that can be read back.
pub open spec fn wf_diff() -> spec_fn(CharacterDiffView) -> bool {
    |d: CharacterDiffView| diff_wf(d)
}

/// No two readable diffs can be read at the same place.
pub proof fn lemma_diffs_unique()
    ensures
        unique_prefixes(diff_ser(), wf_diff()),
{
    assert forall|x: CharacterDiffView, y: CharacterDiffView, b: Seq<u8>, pos: int|
        #![trigger prefix_at(b, pos, diff_ser()(x)), prefix_at(b, pos, diff_ser()(y))]
        wf_diff()(x) && wf_diff()(y) && prefix_at(b, pos, diff_ser()(x))
            && prefix_at(b, pos, diff_ser()(y)) implies x == y by {
        let hx = seq![x.index, x.changes.len() as u8];
        let hy = seq![y.index, y.changes.len() as u8];
        lemma_prefix_at_concat(b, pos, hx, ser_list(x.changes, char_field_ser()));
        lemma_prefix_at_concat(b, pos, hy, ser_list(y.changes, char_field_ser()));
        assert(b.subrange(pos, pos + 2)[0] == hx[0] && b.subrange(pos, pos + 2)[0] == hy[0]);
        assert(b.subrange(pos, pos + 2)[1] == hx[1] && b.subrange(pos, pos + 2)[1] == hy[1]);
        assert(x.changes.len() == y.changes.len());
        lemma_char_fields_unique();
        assert(all_wf(x.changes, any_char_field()));
        assert(all_wf(y.changes, any_char_field()));
        lemma_list_unique(char_field_ser(), any_char_field(), b, pos + 2, x.changes, y.changes);
    }
}

/// Reads `count` character fields at `pos`.
fn parse_char_fields(b: &[u8], pos: usize, count: usize) -> (r: Option<(Vec<CharacterField>, usize)>)
    requires
        pos <= b.len(),
    ensures
        match r {
            Some((v, end)) => v@.len() == count && end == pos + ser_list(v@, char_field_ser()).len()
                && prefix_at(b@, pos as int, ser_list(v@, char_field_ser())),
            None => forall|ys: Seq<CharacterField>| ys.len() == count
                ==> !prefix_at(b@, pos as int, #[trigger] ser_list(ys, char_field_ser())),
        },
{
    let mut v: Vec<CharacterField> = Vec::new();
    let mut cur = pos;
    let mut i: usize = 0;
    proof {
        assert(b@.subrange(pos as int, pos as int) =~= Seq::<u8>::empty());
    }
    while i < count
        invariant
            pos <= cur <= b.len(),
            v@.len() == i,
            i <= count,
            cur == pos + ser_list(v@, char_field_ser()).len(),
            prefix_at(b@, pos as int, ser_list(v@, char_field_ser())),
        decreases count - i,
    {
        match parse_char_field(b, cur) {
            None => {
                proof {
                    assert forall|ys: Seq<CharacterField>| ys.len() == count
                        implies !prefix_at(b@, pos as int, #[trigger] ser_list(ys, char_field_ser())) by {
                        if prefix_at(b@, pos as int, ser_list(ys, char_field_ser())) {
                            lemma_char_fields_unique();
                            assert(all_wf(v@, any_char_field()));
                            assert(all_wf(ys, any_char_field()));
                            lemma_list_step(char_field_ser(), any_char_field(), b@, pos as int, v@, ys);
                            assert(!prefix_at(b@, cur as int, ser_char_field(ys[i as int])));
                        }
                    }
                }
                return None;
            },
            Some((f, next)) => {
                let ghost before = v@;
                v.push(f);
                proof {
                    assert(v@.drop_last() =~= before);
                    lemma_prefix_at_concat(b@, pos as int, ser_list(before, char_field_ser()), ser_char_field(f));
                }
                cur = next;
                i += 1;
            },
        }
    }
    Some((v, cur))
}

/// Reads the character diff at `pos`: the diff and the position after it, or `None` when no
/// diff can be read there.
pub fn parse_diff(b: &[u8], pos: usize) -> (r: Option<(CharacterDiff, usize)>)
    requires
        pos <= b.len(),
    ensures
        match r {
            Some((d, end)) => diff_wf(d@) && end == pos + ser_diff(d@).len() && prefix_at(b@, pos as int, ser_diff(d@)),
            None => forall|d: CharacterDiffView| diff_wf(d) ==> !prefix_at(b@, pos as int, #[trigger] ser_diff(d)),
        },
{
    if b.len() - pos < 2 {
        proof {
            assert forall|d: CharacterDiffView| diff_wf(d) implies !prefix_at(b@, pos as int, #[trigger] ser_diff(d)) by {}
        }
        return None;
    }
    let index = b[pos];
    let count = b[pos + 1];
    match parse_char_fields(b, pos + 2, count as usize) {
        None => {
            proof {
                assert forall|d: CharacterDiffView| diff_wf(d) implies !prefix_at(b@, pos as int, #[trigger] ser_diff(d)) by {
                    let h = seq![d.index, d.changes.len() as u8];
                    lemma_prefix_at_concat(b@, pos as int, h, ser_list(d.changes, char_field_ser()));
                    if prefix_at(b@, pos as int, ser_diff(d)) {
                        assert(b@.subrange(pos as int, pos + 2)[1] == h[1]);
                        assert(d.changes.len() == count);
                    }
                }
            }
            None
        },
        Some((changes, end)) => {
            let d = CharacterDiff { index, changes };
            proof {
                let h = seq![index, count];
                assert(b@.subrange(pos as int, pos + 2) =~= h);
                lemma_prefix_at_concat(b@, pos as int, h, ser_list(d.changes@, char_field_ser()));
            }
            Some((d, end))
        },
    }
}

/// Appends a character diff; its count byte holds the number of changes modulo 256.
pub fn write_diff(out: &mut Vec<u8>, d: &CharacterDiff)
    ensures
        final(out)@ == old(out)@ + ser_diff(d@),
{
    let ghost o = out@;
    out.push(d.index);
    out.push(d.changes.len() as u8);
    let mut i: usize = 0;
    while i < d.changes.len()
        invariant
            i <= d.changes@.len(),
            out@ == o + seq![d.index, d.changes@.len() as u8] + ser_list(d.changes@.take(i as int), char_field_ser()),
        decreases d.changes@.len() - i,
    {
        proof { lemma_ser_list_take(d.changes@, char_field_ser(), i as int); }
        write_char_field(out, &d.changes[i]);
        i += 1;
        assert(out@ =~= o + seq![d.index, d.changes@.len() as u8] + ser_list(d.changes@.take(i as int), char_field_ser()));
    }
    assert(d.changes@.take(i as int) =~= d.changes@);
    assert(out@ =~= o + ser_diff(d@));
}

/// Reads `count` character diffs at `pos`.
fn parse_diffs(b: &[u8], pos: usize, count: usize) -> (r: Option<(Vec<CharacterDiff>, usize)>)
    requires
        pos <= b.len(),
    ensures
        match r {
            Some((v, end)) => v@.len() == count && all_wf(diffs_view(v@), wf_diff())
                && end == pos + ser_list(diffs_view(v@), diff_ser()).len()
                && prefix_at(b@, pos as int, ser_list(diffs_view(v@), diff_ser())),
            None => forall|ys: Seq<CharacterDiffView>| ys.len() == count && all_wf(ys, wf_diff())
                ==> !prefix_at(b@, pos as int, #[trigger] ser_list(ys, diff_ser())),
        },
{
    let mut v: Vec<CharacterDiff> = Vec::new();
    let mut cur = pos;
    let mut i: usize = 0;
    proof {
        assert(b@.subrange(pos as int, pos as int) =~= Seq::<u8>::empty());
        assert(diffs_view(v@) =~= Seq::<CharacterDiffView>::empty());
    }
    while i < count
        invariant
            pos <= cur <= b.len(),
            v@.len() == i,
            i <= count,
            all_wf(diffs_view(v@), wf_diff()),
            cur == pos + ser_list(diffs_view(v@), diff_ser()).len(),
            prefix_at(b@, pos as int, ser_list(diffs_view(v@), diff_ser())),
        decreases count - i,
    {
        match parse_diff(b, cur) {
            None => {
                proof {
                    assert forall|ys: Seq<CharacterDiffView>| ys.len() == count && all_wf(ys, wf_diff())
                        implies !prefix_at(b@, pos as int, #[trigger] ser_list(ys, diff_ser())) by {
                        if prefix_at(b@, pos as int, ser_list(ys, diff_ser())) {
                            lemma_diffs_unique();
                            lemma_list_step(diff_ser(), wf_diff(), b@, pos as int, diffs_view(v@), ys);
                            assert(wf_diff()(ys[i as int]));
                            assert(!prefix_at(b@, cur as int, ser_diff(ys[i as int])));
                        }
                    }
                }
                return None;
            },
            Some((d, next)) => {
                let ghost before = diffs_view(v@);
                v.push(d);
                proof {
                    assert(diffs_view(v@) =~= before.push(d@));
                    assert(diffs_view(v@).drop_last() =~= before);
                    lemma_prefix_at_concat(b@, pos as int, ser_list(before, diff_ser()), ser_diff(d@));
                    assert(all_wf(diffs_view(v@), wf_diff())) by {
                        assert forall|k: int| 0 <= k < diffs_view(v@).len() implies #[trigger] wf_diff()(diffs_view(v@)[k]) by {
                            if k < before.len() {
                                assert(wf_diff()(before[k]));
                            }
                        }
                    }
                }
                cur = next;
                i += 1;
            },
        }
    }
    Some((v, cur))
}

fn write_diffs(out: &mut Vec<u8>, v: &Vec<CharacterDiff>)
    ensures
        final(out)@ == old(out)@ + ser_list(diffs_view(v@), diff_ser()),
{
    let ghost o = out@;
    let mut i: usize = 0;
    while i < v.len()
        invariant
            i <= v@.len(),
            out@ == o + ser_list(diffs_view(v@).take(i as int), diff_ser()),
        decreases v@.len() - i,
    {
        proof {
            lemma_ser_list_take(diffs_view(v@), diff_ser(), i as int);
            assert(diffs_view(v@).take(0) =~= Seq::<CharacterDiffView>::empty());
        }
        write_diff(out, &v[i]);
        i += 1;
        assert(out@ =~= o + ser_list(diffs_view(v@).take(i as int), diff_ser()));
    }
    assert(diffs_view(v@).take(i as int) =~= diffs_view(v@));
}

// ---------------------------------------------------------------------------------------
// Sections: a count byte, then that many values

/// The game changes of a frame, after their count.
pub open spec fn ser_game_section(s: Seq<GameField>) -> Seq<u8> {
    seq![s.len() as u8] + ser_list(s, game_field_ser())
}

/// A list of diffs of a frame, after their count.
pub open spec fn ser_diff_section(s: Seq<CharacterDiffView>) -> Seq<u8> {
    seq![s.len() as u8] + ser_list(s, diff_ser())
}

/// A list of diffs that can be read back: it fits its count byte and every diff fits its own.
pub open spec fn diff_section_wf(s: Seq<CharacterDiffView>) -> bool {
    s.len() < 256 && all_wf(s, wf_diff())
}

proof fn lemma_game_section_unique(b: Seq<u8>, pos: int, x: Seq<GameField>, y: Seq<GameField>)
    requires
        x.len() < 256,
        y.len() < 256,
        prefix_at(b, pos, ser_game_section(x)),
        prefix_at(b, pos, ser_game_section(y)),
    ensures
        x == y,
{
    lemma_prefix_at_concat(b, pos, seq![x.len() as u8], ser_list(x, game_field_ser()));
    lemma_prefix_at_concat(b, pos, seq![y.len() as u8], ser_list(y, game_field_ser()));
    assert(b.subrange(pos, pos + 1)[0] == (x.len() as u8) && b.subrange(pos, pos + 1)[0] == (y.len() as u8));
    lemma_game_fields_unique();
    assert(all_wf(x, any_game_field()));
    assert(all_wf(y, any_game_field()));
    lemma_list_unique(game_field_ser(), any_game_field(), b, pos + 1, x, y);
}

proof fn lemma_diff_section_unique(b: Seq<u8>, pos: int, x: Seq<CharacterDiffView>, y: Seq<CharacterDiffView>)
    requires
        diff_section_wf(x),
        diff_section_wf(y),
        prefix_at(b, pos, ser_diff_section(x)),
        prefix_at(b, pos, ser_diff_section(y)),
    ensures
        x == y,
{
    lemma_prefix_at_concat(b, pos, seq![x.len() as u8], ser_list(x, diff_ser()));
    lemma_prefix_at_concat(b, pos, seq![y.len() as u8], ser_list(y, diff_ser()));
    assert(b.subrange(pos, pos + 1)[0] == (x.len() as u8) && b.subrange(pos, pos + 1)[0] == (y.len() as u8));
    lemma_diffs_unique();
    lemma_list_unique(diff_ser(), wf_diff(), b, pos + 1, x, y);
}

/// Reads `count` game fields at `pos`.
fn parse_game_fields(b: &[u8], pos: usize, count: usize) -> (r: Option<(Vec<GameField>, usize)>)
    requires
        pos <= b.len(),
    ensures
        match r {
            Some((v, end)) => v@.len() == count && end == pos + ser_list(v@, game_field_ser()).len()
                && prefix_at(b@, pos as int, ser_list(v@, game_field_ser())),
            None => forall|ys: Seq<GameField>| ys.len() == count
                ==> !prefix_at(b@, pos as int, #[trigger] ser_list(ys, game_field_ser())),
        },
{
    let mut v: Vec<GameField> = Vec::new();
    let mut cur = pos;
    let mut i: usize = 0;
    proof {
        assert(b@.subrange(pos as int, pos as int) =~= Seq::<u8>::empty());
    }
    while i < count
        invariant
            pos <= cur <= b.len(),
            v@.len() == i,
            i <= count,
            cur == pos + ser_list(v@, game_field_ser()).len(),
            prefix_at(b@, pos as int, ser_list(v@, game_field_ser())),
        decreases count - i,
    {
        match parse_game_field(b, cur) {
            None => {
                proof {
                    assert forall|ys: Seq<GameField>| ys.len() == count
                        implies !prefix_at(b@, pos as int, #[trigger] ser_list(ys, game_field_ser())) by {
                        if prefix_at(b@, pos as int, ser_list(ys, game_field_ser())) {
                            lemma_game_fields_unique();
                            assert(all_wf(v@, any_game_field()));
                            assert(all_wf(ys, any_game_field()));
                            lemma_list_step(game_field_ser(), any_game_field(), b@, pos as int, v@, ys);
                            assert(!prefix_at(b@, cur as int, ser_game_field(ys[i as int])));
                        }
                    }
                }
                return None;
            },
            Some((f, next)) => {
                let ghost before = v@;
                v.push(f);
                proof {
                    assert(v@.drop_last() =~= before);
                    lemma_prefix_at_concat(b@, pos as int, ser_list(before, game_field_ser()), ser_game_field(f));
                }
                cur = next;
                i += 1;
            },
        }
    }
    Some((v, cur))
}

/// Reads a count byte and that many game fields.
fn parse_game_section(b: &[u8], pos: usize) -> (r: Option<(Vec<GameField>, usize)>)
    requires
        pos <= b.len(),
    ensures
        match r {
            Some((v, end)) => v@.len() < 256 && end == pos + ser_game_section(v@).len()
                && prefix_at(b@, pos as int, ser_game_section(v@)),
            None => forall|ys: Seq<GameField>| ys.len() < 256
                ==> !prefix_at(b@, pos as int, #[trigger] ser_game_section(ys)),
        },
{
    if pos >= b.len() {
        return None;
    }
    let count = b[pos];
    match parse_game_fields(b, pos + 1, count as usize) {
        None => {
            proof {
                assert forall|ys: Seq<GameField>| ys.len() < 256
                    implies !prefix_at(b@, pos as int, #[trigger] ser_game_section(ys)) by {
                    lemma_prefix_at_concat(b@, pos as int, seq![ys.len() as u8], ser_list(ys, game_field_ser()));
                    if prefix_at(b@, pos as int, ser_game_section(ys)) {
                        assert(b@.subrange(pos as int, pos + 1)[0] == (ys.len() as u8));
                    }
                }
            }
            None
        },
        Some((v, end)) => {
            proof {
                assert(b@.subrange(pos as int, pos + 1) =~= seq![v@.len() as u8]);
                lemma_prefix_at_concat(b@, pos as int, seq![v@.len() as u8], ser_list(v@, game_field_ser()));
            }
            Some((v, end))
        },
    }
}

/// Reads a count byte and that many character diffs.
fn parse_diff_section(b: &[u8], pos: usize) -> (r: Option<(Vec<CharacterDiff>, usize)>)
    requires
        pos <= b.len(),
    ensures
        match r {
            Some((v, end)) => diff_section_wf(diffs_view(v@)) && end == pos + ser_diff_section(diffs_view(v@)).len()
                && prefix_at(b@, pos as int, ser_diff_section(diffs_view(v@))),
            None => forall|ys: Seq<CharacterDiffView>| diff_section_wf(ys)
                ==> !prefix_at(b@, pos as int, #[trigger] ser_diff_section(ys)),
        },
{
    if pos >= b.len() {
        return None;
    }
    let count = b[pos];
    match parse_diffs(b, pos + 1, count as usize) {
        None => {
            proof {
                assert forall|ys: Seq<CharacterDiffView>| diff_section_wf(ys)
                    implies !prefix_at(b@, pos as int, #[trigger] ser_diff_section(ys)) by {
                    lemma_prefix_at_concat(b@, pos as int, seq![ys.len() as u8], ser_list(ys, diff_ser()));
                    if prefix_at(b@, pos as int, ser_diff_section(ys)) {
                        assert(b@.subrange(pos as int, pos + 1)[0] == (ys.len() as u8));
                    }
                }
            }
            None
        },
        Some((v, end)) => {
            proof {
                assert(b@.subrange(pos as int, pos + 1) =~= seq![diffs_view(v@).len() as u8]);
                lemma_prefix_at_concat(b@, pos as int, seq![diffs_view(v@).len() as u8], ser_list(diffs_view(v@), diff_ser()));
            }
            Some((v, end))
        },
    }
}

fn write_game_section(out: &mut Vec<u8>, v: &Vec<GameField>)
    ensures
        final(out)@ == old(out)@ + ser_game_section(v@),
{
    let ghost o = out@;
    out.push(v.len() as u8);
    let mut i: usize = 0;
    while i < v.len()
        invariant
            i <= v@.len(),
            out@ == o + seq![v@.len() as u8] + ser_list(v@.take(i as int), game_field_ser()),
        decreases v@.len() - i,
    {
        proof { lemma_ser_list_take(v@, game_field_ser(), i as int); }
        write_game_field(out, &v[i]);
        i += 1;
        assert(out@ =~= o + seq![v@.len() as u8] + ser_list(v@.take(i as int), game_field_ser()));
    }
    assert(v@.take(i as int) =~= v@);
    assert(out@ =~= o + ser_game_section(v@));
}

fn write_diff_section(out: &mut Vec<u8>, v: &Vec<CharacterDiff>)
    ensures
        final(out)@ == old(out)@ + ser_diff_section(diffs_view(v@)),
{
    let ghost o = out@;
    out.push(v.len() as u8);
    write_diffs(out, v);
    assert(out@ =~= o + ser_diff_section(diffs_view(v@)));
}

// ---------------------------------------------------------------------------------------
// Frame records

/// The time and RNG roll count that start a frame record.
pub open spec fn frame_head(r: FrameRecordView) -> Seq<u8> {
    le32(r.igt_seconds) + seq![r.igt_frames] + le16(r.num_rng_rolls)
}

/// A frame record as written in a recording of the given format version: version 1 has no
/// object diffs.
pub open spec fn ser_frame(version: u16, r: FrameRecordView) -> Seq<u8> {
    if version == 1 {
        frame_head(r) + ser_game_section(r.game_changes) + ser_diff_section(r.character_diffs)
    } else {
        frame_head(r) + ser_game_section(r.game_changes) + ser_diff_section(r.character_diffs)
            + ser_diff_section(r.object_diffs)
    }
}

/// A frame record that can be read back from a recording of the given version: its lists fit
/// their count bytes, and a version 1 record has no object diffs.
pub open spec fn frame_wf(version: u16, r: FrameRecordView) -> bool {
    &&& r.game_changes.len() < 256
    &&& diff_section_wf(r.character_diffs)
    &&& diff_section_wf(r.object_diffs)
    &&& (version == 1 ==> r.object_diffs.len() == 0)
}

/// A frame record, as a list element.
pub open spec fn frame_ser(version: u16) -> spec_fn(FrameRecordView) -> Seq<u8> {
    |r: FrameRecordView| ser_frame(version, r)
}

/// The frame records that can be read back.
pub open spec fn wf_frame(version: u16) -> spec_fn(FrameRecordView) -> bool {
    |r: FrameRecordView| frame_wf(version, r)
}

proof fn lemma_frame_head_unique(b: Seq<u8>, pos: int, x: FrameRecordView, y: FrameRecordView)
    requires
        prefix_at(b, pos, frame_head(x)),
        prefix_at(b, pos, frame_head(y)),
    ensures
        x.igt_seconds == y.igt_seconds,
        x.igt_frames == y.igt_frames,
        x.num_rng_rolls == y.num_rng_rolls,
{
    let hx = frame_head(x);
    let hy = frame_head(y);
    assert(hx =~= hy);
    assert(le32(x.igt_seconds) =~= hx.subrange(0, 4));
    assert(le32(y.igt_seconds) =~= hy.subrange(0, 4));
    assert(le16(x.num_rng_rolls) =~= hx.subrange(5, 7));
    assert(le16(y.num_rng_rolls) =~= hy.subrange(5, 7));
    assert(hx[4] == hy[4]);
    lemma_le32_injective(x.igt_seconds, y.igt_seconds);
    lemma_le16_injective(x.num_rng_rolls, y.num_rng_rolls);
}

/// No two readable frame records can be read at the same place.
pub proof fn lemma_frames_unique(version: u16)
    ensures
        unique_prefixes(frame_ser(version), wf_frame(version)),
{
    assert forall|x: FrameRecordView, y: FrameRecordView, b: Seq<u8>, pos: int|
        #![trigger prefix_at(b, pos, frame_ser(version)(x)), prefix_at(b, pos, frame_ser(version)(y))]
        wf_frame(version)(x) && wf_frame(version)(y) && prefix_at(b, pos, frame_ser(version)(x))
            && prefix_at(b, pos, frame_ser(version)(y)) implies x == y by {
        let hx = frame_head(x);
        let hy = frame_head(y);
        let gx = ser_game_section(x.game_changes);
        let gy = ser_game_section(y.game_changes);
        let cx = ser_diff_section(x.character_diffs);
        let cy = ser_diff_section(y.character_diffs);
        if version == 1 {
            lemma_prefix_at_concat(b, pos, hx + gx, cx);
            lemma_prefix_at_concat(b, pos, hy + gy, cy);
        } else {
            lemma_prefix_at_concat(b, pos, hx + gx + cx, ser_diff_section(x.object_diffs));
            lemma_prefix_at_concat(b, pos, hy + gy + cy, ser_diff_section(y.object_diffs));
            lemma_prefix_at_concat(b, pos, hx + gx, cx);
            lemma_prefix_at_concat(b, pos, hy + gy, cy);
        }
        lemma_prefix_at_concat(b, pos, hx, gx);
        lemma_prefix_at_concat(b, pos, hy, gy);
        lemma_frame_head_unique(b, pos, x, y);
        assert(hx.len() == 7 && hy.len() == 7);
        lemma_game_section_unique(b, pos + 7, x.game_changes, y.game_changes);
        lemma_diff_section_unique(b, pos + 7 + gx.len(), x.character_diffs, y.character_diffs);
        if version != 1 {
            lemma_diff_section_unique(b, pos + 7 + gx.len() + cx.len(), x.object_diffs, y.object_diffs);
        } else {
            assert(x.object_diffs =~= y.object_diffs);
        }
    }
}

/// A frame record can be read at `pos` exactly when its head, its game changes, its
/// character diffs and (from version 2 on) its object diffs can be read one after another.
proof fn lemma_frame_parts(b: Seq<u8>, pos: int, version: u16, f: FrameRecordView)
    ensures
        prefix_at(b, pos, ser_frame(version, f)) <==> {
            let g = ser_game_section(f.game_changes);
            let c = ser_diff_section(f.character_diffs);
            &&& prefix_at(b, pos, frame_head(f))
            &&& prefix_at(b, pos + 7, g)
            &&& prefix_at(b, pos + 7 + g.len(), c)
            &&& (version != 1 ==> prefix_at(b, pos + 7 + g.len() + c.len(), ser_diff_section(f.object_diffs)))
        },
        ser_frame(version, f).len() == 7 + ser_game_section(f.game_changes).len() + ser_diff_section(f.character_diffs).len()
            + if version == 1 { 0 } else { ser_diff_section(f.object_diffs).len() },
{
    let h = frame_head(f);
    let g = ser_game_section(f.game_changes);
    let c = ser_diff_section(f.character_diffs);
    if version != 1 {
        lemma_prefix_at_concat(b, pos, h + g + c, ser_diff_section(f.object_diffs));
    }
    lemma_prefix_at_concat(b, pos, h + g, c);
    lemma_prefix_at_concat(b, pos, h, g);
}

/// Reads the frame record at `pos` in a recording of the given version: the record and the
/// position after it, or `None` when no record can be read there.
pub fn parse_frame(b: &[u8], pos: usize, version: u16) -> (r: Option<(FrameRecord, usize)>)
    requires
        pos <= b.len(),
        version == 1 || version == 2,
    ensures
        match r {
            Some((f, end)) => frame_wf(version, f@) && end == pos + ser_frame(version, f@).len()
                && prefix_at(b@, pos as int, ser_frame(version, f@)),
            None => forall|f: FrameRecordView| frame_wf(version, f) ==> !prefix_at(b@, pos as int, #[trigger] ser_frame(version, f)),
        },
{
    if b.len() - pos < 7 {
        proof {
            assert forall|f: FrameRecordView| frame_wf(version, f) implies !prefix_at(b@, pos as int, #[trigger] ser_frame(version, f)) by {
                lemma_frame_parts(b@, pos as int, version, f);
            }
        }
        return None;
    }
    let igt_seconds = get_u32(b, pos);
    let igt_frames = b[pos + 4];
    let num_rng_rolls = get_u16(b, pos + 5);
    let ghost head = le32(igt_seconds) + seq![igt_frames] + le16(num_rng_rolls);
    proof {
        assert(b@.subrange(pos as int, pos + 7) =~= head);
    }
    let (game_changes, p1) = match parse_game_section(b, pos + 7) {
        None => {
            proof {
                assert forall|f: FrameRecordView| frame_wf(version, f) implies !prefix_at(b@, pos as int, #[trigger] ser_frame(version, f)) by {
                    lemma_frame_parts(b@, pos as int, version, f);
                }
            }
            return None;
        },
        Some(x) => x,
    };
    let (character_diffs, p2) = match parse_diff_section(b, p1) {
        None => {
            proof {
                assert forall|f: FrameRecordView| frame_wf(version, f) implies !prefix_at(b@, pos as int, #[trigger] ser_frame(version, f)) by {
                    lemma_frame_parts(b@, pos as int, version, f);
                    if prefix_at(b@, pos as int, ser_frame(version, f)) {
                        lemma_game_section_unique(b@, pos + 7, f.game_changes, game_changes@);
                    }
                }
            }
            return None;
        },
        Some(x) => x,
    };
    if version == 1 {
        let r = FrameRecord::from_v1(FrameRecordV1 { igt_seconds, igt_frames, num_rng_rolls, game_changes, character_diffs });
        proof {
            assert(diffs_view(r.object_diffs@) =~= Seq::<CharacterDiffView>::empty());
            assert(frame_head(r@) =~= head);
            lemma_frame_parts(b@, pos as int, version, r@);
        }
        return Some((r, p2));
    }
    let (object_diffs, p3) = match parse_diff_section(b, p2) {
        None => {
            proof {
                assert forall|f: FrameRecordView| frame_wf(version, f) implies !prefix_at(b@, pos as int, #[trigger] ser_frame(version, f)) by {
                    lemma_frame_parts(b@, pos as int, version, f);
                    if prefix_at(b@, pos as int, ser_frame(version, f)) {
                        lemma_game_section_unique(b@, pos + 7, f.game_changes, game_changes@);
                        lemma_diff_section_unique(b@, p1 as int, f.character_diffs, diffs_view(character_diffs@));
                    }
                }
            }
            return None;
        },
        Some(x) => x,
    };
    let r = FrameRecord { igt_seconds, igt_frames, num_rng_rolls, game_changes, character_diffs, object_diffs };
    proof {
        assert(frame_head(r@) =~= head);
        lemma_frame_parts(b@, pos as int, version, r@);
    }
    Some((r, p3))
}

/// Appends a frame record in the current format; each count byte holds its list's length
/// modulo 256.
pub fn write_frame(out: &mut Vec<u8>, r: &FrameRecord)
    ensures
        final(out)@ == old(out)@ + ser_frame(RECORD_VERSION, r@),
{
    let ghost o = out@;
    put_u32(out, r.igt_seconds);
    out.push(r.igt_frames);
    put_u16(out, r.num_rng_rolls);
    write_game_section(out, &r.game_changes);
    write_diff_section(out, &r.character_diffs);
    write_diff_section(out, &r.object_diffs);
    assert(out@ =~= o + ser_frame(RECORD_VERSION, r@));
}

// ---------------------------------------------------------------------------------------
// Recordings

/// "RE2R", the bytes that open a recording.
pub open spec fn record_magic() -> Seq<u8> {
    seq![0x52u8, 0x45u8, 0x32u8, 0x52u8]
}

/// The header of a recording of the given format version.
pub open spec fn ser_header(version: u16) -> Seq<u8> {
    record_magic() + le16(version)
}

/// A whole recording: the header, then every frame record in the version's format.
pub open spec fn recording_bytes(version: u16, frames: Seq<FrameRecordView>) -> Seq<u8> {
    ser_header(version) + ser_list(frames, frame_ser(version))
}

/// The frame records of a list as values.
pub open spec fn frames_view(frames: Seq<FrameRecord>) -> Seq<FrameRecordView> {
    frames.map_values(|f: FrameRecord| f@)
}

/// Why a recording could not be read.
#[derive(Debug, Clone, Copy, PartialEq, Eq, Structural)]
pub enum RecordError {
    /// The file is too short for a header or does not start with "RE2R".
    BadHeader,
    /// The header names a format version this reader does not know.
    UnsupportedVersion(u16),
    /// The bytes after the header are not a sequence of frame records.
    BadFrame,
}

/// The version number in a header whose magic is in place.
pub open spec fn header_version(b: Seq<u8>) -> u16 {
    (b[5] as u16 * 256 + b[4] as u16) as u16
}

/// The frame records that a recording's bytes after the header spell out, if there are any.
pub open spec fn frames_spelled(version: u16, rest: Seq<u8>) -> bool {
    exists|fs: Seq<FrameRecordView>| all_wf(fs, wf_frame(version)) && #[trigger] ser_list(fs, frame_ser(version)) == rest
}

/// What reading a recording gives: the header's checks first, then the frame records that
/// the remaining bytes spell out.
pub open spec fn read_recording_spec(b: Seq<u8>) -> Result<(u16, Seq<FrameRecordView>), RecordError> {
    if b.len() < 6 || b.subrange(0, 4) != record_magic() {
        Err(RecordError::BadHeader)
    } else if header_version(b) == 0 || header_version(b) > RECORD_VERSION {
        Err(RecordError::UnsupportedVersion(header_version(b)))
    } else if frames_spelled(header_version(b), b.skip(6)) {
        Ok((header_version(b), choose|fs: Seq<FrameRecordView>| all_wf(fs, wf_frame(header_version(b)))
            && #[trigger] ser_list(fs, frame_ser(header_version(b))) == b.skip(6)))
    } else {
        Err(RecordError::BadFrame)
    }
}

pub proof fn lemma_frames_nonempty(version: u16, f: FrameRecordView)
    ensures
        ser_frame(version, f).len() >= 7,
{
    lemma_frame_parts(Seq::empty(), 0, version, f);
}

/// Two lists that both fill the bytes from `pos` to the end are equal, when every value takes
/// at least one byte.
proof fn lemma_list_unique_to_end<T>(f: spec_fn(T) -> Seq<u8>, wf: spec_fn(T) -> bool, b: Seq<u8>, pos: int, xs: Seq<T>, ys: Seq<T>)
    requires
        unique_prefixes(f, wf),
        forall|x: T| wf(x) ==> #[trigger] f(x).len() > 0,
        all_wf(xs, wf),
        all_wf(ys, wf),
        prefix_at(b, pos, ser_list(xs, f)),
        prefix_at(b, pos, ser_list(ys, f)),
        pos + ser_list(xs, f).len() == b.len(),
        pos + ser_list(ys, f).len() == b.len(),
    ensures
        xs == ys,
{
    if xs.len() < ys.len() {
        lemma_list_cannot_end(f, wf, b, pos, xs, ys);
    } else if ys.len() < xs.len() {
        lemma_list_cannot_end(f, wf, b, pos, ys, xs);
    } else {
        lemma_list_unique(f, wf, b, pos, xs, ys);
    }
}

/// If a list read at `pos` ends before the end of the bytes, a list that fills the bytes to the
/// end is longer, and its next value is at the end of the first.
proof fn lemma_list_cannot_end<T>(f: spec_fn(T) -> Seq<u8>, wf: spec_fn(T) -> bool, b: Seq<u8>, pos: int, v: Seq<T>, ys: Seq<T>)
    requires
        unique_prefixes(f, wf),
        forall|x: T| wf(x) ==> #[trigger] f(x).len() > 0,
        all_wf(v, wf),
        all_wf(ys, wf),
        prefix_at(b, pos, ser_list(v, f)),
        prefix_at(b, pos, ser_list(ys, f)),
        pos + ser_list(ys, f).len() == b.len(),
        v.len() < ys.len() || pos + ser_list(v, f).len() < b.len(),
    ensures
        v.len() < ys.len(),
        pos + ser_list(v, f).len() < b.len(),
        prefix_at(b, pos + ser_list(v, f).len(), f(ys[v.len() as int])),
{
    if v.len() >= ys.len() {
        let k = ys.len() as int;
        lemma_ser_list_prefix(v, f, k);
        lemma_prefix_at_shorter(b, pos, ser_list(v, f), ser_list(v.take(k), f));
        assert(all_wf(v.take(k), wf)) by {
            assert forall|j: int| 0 <= j < v.take(k).len() implies #[trigger] wf(v.take(k)[j]) by {
                assert(wf(v[j]));
            }
        }
        lemma_list_unique(f, wf, b, pos, v.take(k), ys);
        assert(false);
    }
    lemma_list_step(f, wf, b, pos, v, ys);
    let i = v.len() as int;
    assert(wf(ys[i]));
    lemma_ser_list_prefix(ys, f, i + 1);
    lemma_ser_list_take(ys, f, i);
    assert(ys.take(i) == v);
}

/// Reads a recording: its header, then frame records up to the end of the bytes.
pub fn read_recording(b: &[u8]) -> (r: Result<(RecordHeader, Vec<FrameRecord>), RecordError>)
    ensures
        match r {
            Ok((h, frames)) => read_recording_spec(b@) == Ok::<(u16, Seq<FrameRecordView>), RecordError>((h.version, frames_view(frames@))),
            Err(e) => read_recording_spec(b@) == Err::<(u16, Seq<FrameRecordView>), RecordError>(e),
        },
{
    if b.len() < 6 || b[0] != 0x52u8 || b[1] != 0x45u8 || b[2] != 0x32u8 || b[3] != 0x52u8 {
        proof {
            if b@.len() >= 6 {
                assert(b@.subrange(0, 4) != record_magic()) by {
                    if b@.subrange(0, 4) == record_magic() {
                        assert(b@.subrange(0, 4)[0] == b@[0]);
                        assert(b@.subrange(0, 4)[1] == b@[1]);
                        assert(b@.subrange(0, 4)[2] == b@[2]);
                        assert(b@.subrange(0, 4)[3] == b@[3]);
                    }
                }
            }
        }
        return Err(RecordError::BadHeader);
    }
    proof {
        assert(b@.subrange(0, 4) =~= record_magic());
    }
    let version = get_u16(b, 4);
    proof {
        lemma_bytes16(b@[4], b@[5], header_version(b@));
        lemma_le16_injective(version, header_version(b@));
        assert(le16(header_version(b@)) =~= b@.subrange(4, 6));
    }
    if version == 0 || version > RECORD_VERSION {
        return Err(RecordError::UnsupportedVersion(version));
    }
    let ghost rest = b@.skip(6);
    let mut frames: Vec<FrameRecord> = Vec::new();
    let mut pos: usize = 6;
    proof {
        lemma_frames_unique(version);
        assert forall|x: FrameRecordView| wf_frame(version)(x) implies #[trigger] frame_ser(version)(x).len() > 0 by {
            lemma_frames_nonempty(version, x);
        }
        assert(b@.subrange(6, 6) =~= Seq::<u8>::empty());
        assert(frames_view(frames@) =~= Seq::<FrameRecordView>::empty());
    }
    while pos < b.len()
        invariant
            6 <= pos <= b.len(),
            version == 1 || version == 2,
            rest == b@.skip(6),
            b@.subrange(0, 4) == record_magic(),
            header_version(b@) == version,
            unique_prefixes(frame_ser(version), wf_frame(version)),
            forall|x: FrameRecordView| wf_frame(version)(x) ==> #[trigger] frame_ser(version)(x).len() > 0,
            all_wf(frames_view(frames@), wf_frame(version)),
            pos == 6 + ser_list(frames_view(frames@), frame_ser(version)).len(),
            prefix_at(b@, 6, ser_list(frames_view(frames@), frame_ser(version))),
        decreases b.len() - pos,
    {
        match parse_frame(b, pos, version) {
            None => {
                proof {
                    assert(!frames_spelled(version, rest)) by {
                        if frames_spelled(version, rest) {
                            let fs = choose|fs: Seq<FrameRecordView>| all_wf(fs, wf_frame(version))
                                && #[trigger] ser_list(fs, frame_ser(version)) == rest;
                            assert(b@.subrange(6, 6 + ser_list(fs, frame_ser(version)).len() as int) =~= rest);
                            lemma_list_cannot_end(frame_ser(version), wf_frame(version), b@, 6, frames_view(frames@), fs);
                            let i = frames_view(frames@).len() as int;
                            assert(wf_frame(version)(fs[i]));
                            assert(!prefix_at(b@, pos as int, ser_frame(version, fs[i])));
                        }
                    }
                }
                return Err(RecordError::BadFrame);
            },
            Some((f, next)) => {
                let ghost before = frames_view(frames@);
                frames.push(f);
                proof {
                    assert(frames_view(frames@) =~= before.push(f@));
                    assert(frames_view(frames@).drop_last() =~= before);
                    lemma_prefix_at_concat(b@, 6, ser_list(before, frame_ser(version)), ser_frame(version, f@));
                    assert(all_wf(frames_view(frames@), wf_frame(version))) by {
                        assert forall|k: int| 0 <= k < frames_view(frames@).len() implies #[trigger] wf_frame(version)(frames_view(frames@)[k]) by {
                            if k < before.len() {
                                assert(wf_frame(version)(before[k]));
                            }
                        }
                    }
                }
                pos = next;
            },
        }
    }
    proof {
        let mine = frames_view(frames@);
        assert(ser_list(mine, frame_ser(version)) =~= rest);
        assert(frames_spelled(version, rest));
        let fs = choose|fs: Seq<FrameRecordView>| all_wf(fs, wf_frame(version))
            && #[trigger] ser_list(fs, frame_ser(version)) == rest;
        assert(b@.subrange(6, 6 + ser_list(fs, frame_ser(version)).len() as int) =~= rest);
        lemma_list_unique_to_end(frame_ser(version), wf_frame(version), b@, 6, fs, mine);
    }
    Ok((RecordHeader { version }, frames))
}

/// A recording in the current format holding the given frame records.
pub fn write_recording(frames: &Vec<FrameRecord>) -> (r: Vec<u8>)
    ensures
        r@ == recording_bytes(RECORD_VERSION, frames_view(frames@)),
{
    let mut out: Vec<u8> = Vec::new();
    out.push(0x52u8);
    out.push(0x45u8);
    out.push(0x32u8);
    out.push(0x52u8);
    put_u16(&mut out, RECORD_VERSION);
    let ghost o = out@;
    let mut i: usize = 0;
    while i < frames.len()
        invariant
            i <= frames@.len(),
            out@ == o + ser_list(frames_view(frames@).take(i as int), frame_ser(RECORD_VERSION)),
        decreases frames@.len() - i,
    {
        proof {
            lemma_ser_list_take(frames_view(frames@), frame_ser(RECORD_VERSION), i as int);
            assert(frames_view(frames@).take(0) =~= Seq::<FrameRecordView>::empty());
        }
        write_frame(&mut out, &frames[i]);
        i += 1;
        assert(out@ =~= o + ser_list(frames_view(frames@).take(i as int), frame_ser(RECORD_VERSION)));
    }
    assert(frames_view(frames@).take(i as int) =~= frames_view(frames@));
    assert(out@ =~= recording_bytes(RECORD_VERSION, frames_view(frames@)));
    out
}

/// Reading back a recording gives the frame records that were written, when every list in
/// them fits its count byte (and a version 1 recording has no object diffs).
pub proof fn lemma_recording_roundtrip(version: u16, frames: Seq<FrameRecordView>)
    requires
        version == 1 || version == RECORD_VERSION,
        all_wf(frames, wf_frame(version)),
    ensures
        read_recording_spec(recording_bytes(version, frames)) == Ok::<(u16, Seq<FrameRecordView>), RecordError>((version, frames)),
{
    let b = recording_bytes(version, frames);
    let rest = ser_list(frames, frame_ser(version));
    assert(b.subrange(0, 4) =~= record_magic());
    assert(b.skip(6) =~= rest);
    lemma_bytes16_of(version);
    assert(header_version(b) == version);
    assert(frames_spelled(version, rest));
    let fs = choose|fs: Seq<FrameRecordView>| all_wf(fs, wf_frame(version))
        && #[trigger] ser_list(fs, frame_ser(version)) == rest;
    lemma_frames_unique(version);
    assert forall|x: FrameRecordView| wf_frame(version)(x) implies #[trigger] frame_ser(version)(x).len() > 0 by {
        lemma_frames_nonempty(version, x);
    }
    assert(rest.subrange(0, rest.len() as int) =~= rest);
    lemma_list_unique_to_end(frame_ser(version), wf_frame(version), rest, 0, fs, frames);
}

proof fn lemma_bytes16_of(v: u16)
    ensures
        ((v >> 8) as u8 as u16 * 256 + (v & 0xff) as u8 as u16) as u16 == v,
{
    assert(((v >> 8) as u8 as u16 * 256 + (v & 0xff) as u8 as u16) as u16 == v) by (bit_vector);
}

} // verus!
