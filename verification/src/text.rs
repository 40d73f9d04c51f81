//! Building display strings: decimal and hexadecimal renderings of integers.

use vstd::prelude::*;
use vstd::string::StrSliceExecFns;

verus! {

/// The character of a decimal digit.
pub open spec fn digit_char(d: nat) -> char {
    if d == 0 { '0' }
    else if d == 1 { '1' }
    else if d == 2 { '2' }
    else if d == 3 { '3' }
    else if d == 4 { '4' }
    else if d == 5 { '5' }
    else if d == 6 { '6' }
    else if d == 7 { '7' }
    else if d == 8 { '8' }
    else { '9' }
}

/// The decimal rendering of a natural number, without leading zeros.
pub open spec fn decimal(n: nat) -> Seq<char>
    decreases n,
{
    if n < 10 {
        seq![digit_char(n)]
    } else {
        decimal(n / 10).push(digit_char(n % 10))
    }
}

/// The decimal rendering of an integer, with a leading minus sign when negative.
pub open spec fn signed_decimal(n: int) -> Seq<char> {
    if n < 0 {
        seq!['-'] + decimal((-n) as nat)
    } else {
        decimal(n as nat)
    }
}

/// A decimal rendering has at least one digit.
pub proof fn lemma_decimal_nonempty(n: nat)
    ensures
        decimal(n).len() > 0,
{
}

fn digit_str(d: u64) -> (s: &'static str)
    requires
        d < 10,
    ensures
        s@ == seq![digit_char(d as nat)],
{
    proof {
        reveal_strlit("0");
        reveal_strlit("1");
        reveal_strlit("2");
        reveal_strlit("3");
        reveal_strlit("4");
        reveal_strlit("5");
        reveal_strlit("6");
        reveal_strlit("7");
        reveal_strlit("8");
        reveal_strlit("9");
    }
    if d == 0 { "0" }
    else if d == 1 { "1" }
    else if d == 2 { "2" }
    else if d == 3 { "3" }
    else if d == 4 { "4" }
    else if d == 5 { "5" }
    else if d == 6 { "6" }
    else if d == 7 { "7" }
    else if d == 8 { "8" }
    else { "9" }
}

/// Appends the decimal rendering of `n` to `s`.
pub fn push_decimal(s: &mut String, n: u64)
    ensures
        final(s)@ == old(s)@ + decimal(n as nat),
    decreases n,
{
    if n >= 10 {
        push_decimal(s, n / 10);
    }
    let d = digit_str(n % 10);
    s.append(d);
    proof {
        assert(decimal(n as nat) =~= if n < 10 { seq![digit_char(n as nat)] } else {
            decimal((n / 10) as nat).push(digit_char((n % 10) as nat))
        });
    }
}

/// Appends the decimal rendering of a signed value to `s`.
pub fn push_signed_decimal(s: &mut String, n: i32)
    ensures
        final(s)@ == old(s)@ + signed_decimal(n as int),
{
    if n < 0 {
        s.append("-");
        proof { reveal_strlit("-"); }
        let m: u64 = (-(n as i64)) as u64;
        push_decimal(s, m);
        proof {
            assert(s@ =~= old(s)@ + signed_decimal(n as int));
        }
    } else {
        push_decimal(s, n as u64);
    }
}

/// The decimal rendering of `n`.
pub fn decimal_string(n: u64) -> (s: String)
    ensures
        s@ == decimal(n as nat),
{
    let mut s = String::new();
    push_decimal(&mut s, n);
    proof {
        assert(s@ =~= decimal(n as nat));
    }
    s
}

/// The first position at or after `i` where `a` and `b` differ or one of them ends.
pub open spec fn first_difference(a: Seq<char>, b: Seq<char>, i: nat) -> nat
    decreases a.len() - i,
{
    if i >= a.len() || i >= b.len() || a[i as int] != b[i as int] {
        i
    } else {
        first_difference(a, b, i + 1)
    }
}

/// The order of texts that Rust's `<` on strings gives: at the first position where they differ
/// the smaller character comes first, and a text comes before every longer text it begins.
pub open spec fn text_lt(a: Seq<char>, b: Seq<char>) -> bool {
    let k = first_difference(a, b, 0) as int;
    if k < a.len() && k < b.len() {
        (a[k] as int) < (b[k] as int)
    } else {
        a.len() < b.len()
    }
}

/// What the first difference from `i` is: the texts agree from `i` up to it, and there one of
/// them ends or they differ.
pub proof fn lemma_first_difference(a: Seq<char>, b: Seq<char>, i: nat)
    requires
        i <= a.len(),
        i <= b.len(),
    ensures
        i <= first_difference(a, b, i) <= a.len(),
        first_difference(a, b, i) <= b.len(),
        forall|j: int| i <= j < first_difference(a, b, i) ==> a[j] == b[j],
        first_difference(a, b, i) < a.len() && first_difference(a, b, i) < b.len() ==> a[first_difference(a, b, i) as int]
            != b[first_difference(a, b, i) as int],
    decreases a.len() - i,
{
    if !(i >= a.len() || i >= b.len() || a[i as int] != b[i as int]) {
        lemma_first_difference(a, b, i + 1);
    }
}

/// A position where the texts agree before, and where one ends or they differ, is the first
/// difference.
pub proof fn lemma_first_difference_at(a: Seq<char>, b: Seq<char>, i: nat, k: nat)
    requires
        i <= k <= a.len(),
        k <= b.len(),
        forall|j: int| i <= j < k ==> a[j] == b[j],
        k == a.len() || k == b.len() || a[k as int] != b[k as int],
    ensures
        first_difference(a, b, i) == k,
    decreases k - i,
{
    if i < k {
        lemma_first_difference_at(a, b, i + 1, k);
    }
}

/// The order of texts is a strict total order: no text comes before itself, of two different
/// texts exactly one comes first, and it is transitive.
pub proof fn lemma_text_order(a: Seq<char>, b: Seq<char>, c: Seq<char>)
    ensures
        !text_lt(a, a),
        a != b ==> (text_lt(a, b) || text_lt(b, a)),
        !(text_lt(a, b) && text_lt(b, a)),
        text_lt(a, b) && text_lt(b, c) ==> text_lt(a, c),
{
    lemma_first_difference(a, a, 0);
    lemma_first_difference(a, b, 0);
    lemma_first_difference(b, a, 0);
    lemma_first_difference(b, c, 0);
    lemma_first_difference(a, c, 0);
    let kab = first_difference(a, b, 0);
    let kbc = first_difference(b, c, 0);
    // the first difference does not depend on the order of the texts
    lemma_first_difference_at(b, a, 0, kab);
    if a != b && kab == a.len() && kab == b.len() {
        assert(a =~= b);
    }

    if text_lt(a, b) && text_lt(b, c) {
        if kab < kbc {
            lemma_first_difference_at(a, c, 0, kab);
        } else if kbc < kab {
            lemma_first_difference_at(a, c, 0, kbc);
        } else {
            lemma_first_difference_at(a, c, 0, kab);
        }
    }
}

/// Whether `a` comes before `b` in the order of texts.
pub fn text_less(a: &str, b: &str) -> (r: bool)
    ensures
        r == text_lt(a@, b@),
{
    let la = a.unicode_len();
    let lb = b.unicode_len();
    let mut i: usize = 0;
    while i < la && i < lb
        invariant
            la == a@.len(),
            lb == b@.len(),
            i <= la,
            i <= lb,
            forall|j: int| 0 <= j < i ==> a@[j] == b@[j],
        decreases la - i,
    {
        let ca = a.get_char(i);
        let cb = b.get_char(i);
        if ca != cb {
            proof {
                lemma_first_difference_at(a@, b@, 0, i as nat);
            }
            return (ca as u32) < (cb as u32);
        }
        i = i + 1;
    }
    proof {
        lemma_first_difference_at(a@, b@, 0, i as nat);
    }
    la < lb
}

} // verus!
