//! Byte-level text primitives for the name grammar.
//!
//! Type names are matched as byte strings. A token is either a literal byte
//! sequence or a run of ASCII decimal digits; a digit run's value is read
//! left to right, and a run whose value does not fit a `u32` is reported as
//! unparseable, which makes the enclosing rule reject the name.

use vstd::prelude::*;

verus! {

/// An ASCII decimal digit.
pub open spec fn is_digit(b: u8) -> bool {
    48 <= b <= 57
}

/// The end of the digit run starting at `i`: the first position at or after
/// `i` that is past the end or holds a non-digit.
pub open spec fn spec_digits_end(s: Seq<u8>, i: int) -> int
    decreases s.len() - i,
{
    if i < 0 || i >= s.len() || !is_digit(s[i]) {
        i
    } else {
        spec_digits_end(s, i + 1)
    }
}

pub proof fn lemma_digits_end_bounds(s: Seq<u8>, i: int)
    requires
        0 <= i <= s.len(),
    ensures
        i <= spec_digits_end(s, i) <= s.len(),
        forall|k: int| i <= k < spec_digits_end(s, i) ==> is_digit(s[k]),
        spec_digits_end(s, i) < s.len() ==> !is_digit(s[spec_digits_end(s, i)]),
    decreases s.len() - i,
{
    if i < s.len() && is_digit(s[i]) {
        lemma_digits_end_bounds(s, i + 1);
    }
}

/// The end of the digit run starting at `i`.
pub fn digits_end(s: &Vec<u8>, i: usize) -> (j: usize)
    requires
        i <= s@.len(),
    ensures
        j == spec_digits_end(s@, i as int),
        i <= j <= s@.len(),
{
    let mut j = i;
    while j < s.len() && 48 <= s[j] && s[j] <= 57
        invariant
            i <= j <= s@.len(),
            spec_digits_end(s@, i as int) == spec_digits_end(s@, j as int),
            forall|k: int| i <= k < j ==> is_digit(s@[k]),
        decreases s@.len() - j,
    {
        j = j + 1;
    }
    j
}

/// The value of the digit run `s[i..j)`, read left to right.
pub open spec fn spec_digits_val(s: Seq<u8>, i: int, j: int) -> int
    decreases j - i,
{
    if j <= i {
        0
    } else {
        spec_digits_val(s, i, j - 1) * 10 + (s[j - 1] as int - 48)
    }
}

pub proof fn lemma_digits_val_nonneg(s: Seq<u8>, i: int, j: int)
    requires
        0 <= i,
        j <= s.len(),
        forall|k: int| i <= k < j ==> is_digit(#[trigger] s[k]),
    ensures
        spec_digits_val(s, i, j) >= 0,
    decreases j - i,
{
    if j > i {
        assert(is_digit(s[j - 1]));
        lemma_digits_val_nonneg(s, i, j - 1);
    }
}

/// Lengthening a digit run never shrinks its value.
pub proof fn lemma_digits_val_mono(s: Seq<u8>, i: int, k: int, j: int)
    requires
        0 <= i,
        k <= j,
        j <= s.len(),
        forall|m: int| i <= m < j ==> is_digit(#[trigger] s[m]),
    ensures
        spec_digits_val(s, i, j) >= spec_digits_val(s, i, k),
    decreases j - k,
{
    if j > k {
        assert(i <= j - 1 < j ==> is_digit(s[j - 1]));
        lemma_digits_val_mono(s, i, k, j - 1);
        lemma_digits_val_nonneg(s, i, j - 1);
    }
}

/// Read the value of the digit run `s[i..j)` as a `u32`; a run whose value
/// exceeds `u32::MAX` yields `None`.
pub fn parse_u32(s: &Vec<u8>, i: usize, j: usize) -> (r: Option<u32>)
    requires
        i <= j <= s@.len(),
        forall|k: int| i <= k < j ==> is_digit(#[trigger] s@[k]),
    ensures
        spec_digits_val(s@, i as int, j as int) >= 0,
        r == (if spec_digits_val(s@, i as int, j as int) <= u32::MAX {
            Some(spec_digits_val(s@, i as int, j as int) as u32)
        } else {
            None::<u32>
        }),
{
    proof {
        lemma_digits_val_nonneg(s@, i as int, j as int);
    }
    let mut acc: u32 = 0;
    let mut k = i;
    while k < j
        invariant
            i <= k <= j <= s@.len(),
            forall|m: int| i <= m < j ==> is_digit(#[trigger] s@[m]),
            acc == spec_digits_val(s@, i as int, k as int),
        decreases j - k,
    {
        let d: u32 = (s[k] - 48) as u32;
        let shifted = match acc.checked_mul(10) {
            Some(v) => v,
            None => {
                proof {
                    assert(spec_digits_val(s@, i as int, k as int + 1) > u32::MAX);
                    lemma_digits_val_mono(s@, i as int, k as int + 1, j as int);
                }
                return None;
            },
        };
        let next = match shifted.checked_add(d) {
            Some(v) => v,
            None => {
                proof {
                    assert(spec_digits_val(s@, i as int, k as int + 1) > u32::MAX);
                    lemma_digits_val_mono(s@, i as int, k as int + 1, j as int);
                }
                return None;
            },
        };
        acc = next;
        k = k + 1;
    }
    Some(acc)
}

/// Whether the literal `lit` occurs in `s` starting at position `i`.
pub open spec fn spec_match_at(s: Seq<u8>, i: int, lit: Seq<u8>) -> bool {
    0 <= i && i + lit.len() <= s.len() && s.subrange(i, i + lit.len()) == lit
}

/// Test whether `lit` occurs in `s` at position `i`.
pub fn match_at<const N: usize>(s: &Vec<u8>, i: usize, lit: &[u8; N]) -> (b: bool)
    ensures
        b == spec_match_at(s@, i as int, lit@),
{
    if s.len() < N || i > s.len() - N {
        return false;
    }
    let mut k: usize = 0;
    while k < N
        invariant
            0 <= k <= lit@.len(),
            i + lit@.len() <= s@.len() <= usize::MAX,
            forall|m: int| 0 <= m < k ==> s@[i + m] == lit@[m],
        decreases lit@.len() - k,
    {
        if s[i + k] != lit[k] {
            proof {
                assert(s@.subrange(i as int, i + lit@.len())[k as int] != lit@[k as int]);
            }
            return false;
        }
        k = k + 1;
    }
    proof {
        assert(s@.subrange(i as int, i + lit@.len()) =~= lit@);
    }
    true
}

/// Compare two byte vectors for exact equality.
pub fn bytes_eq(a: &Vec<u8>, b: &Vec<u8>) -> (r: bool)
    ensures
        r == (a@ == b@),
{
    let r = a == b;
    proof {
        if r {
            assert(a@ =~= b@);
        }
    }
    r
}

/// Copy a byte vector.
pub fn clone_bytes(a: &Vec<u8>) -> (r: Vec<u8>)
    ensures
        r@ == a@,
{
    let mut r: Vec<u8> = Vec::new();
    let mut i: usize = 0;
    while i < a.len()
        invariant
            0 <= i <= a@.len(),
            r@ =~= a@.take(i as int),
        decreases a@.len() - i,
    {
        r.push(a[i]);
        i = i + 1;
    }
    proof {
        assert(r@ =~= a@);
    }
    r
}

/// Copy a fixed byte array into a vector.
pub fn bytes_of<const N: usize>(a: &[u8; N]) -> (v: Vec<u8>)
    ensures
        v@ == a@,
{
    let mut v: Vec<u8> = Vec::new();
    for i in 0..N
        invariant
            v@ =~= a@.take(i as int),
    {
        v.push(a[i]);
    }
    proof {
        assert(v@ =~= a@);
    }
    v
}

/// Compare a vector against a fixed byte array for exact equality.
pub fn bytes_is<const N: usize>(s: &Vec<u8>, lit: &[u8; N]) -> (b: bool)
    ensures
        b == (s@ == lit@),
{
    let r = s.len() == N && match_at(s, 0, lit);
    proof {
        if r {
            assert(s@.subrange(0, lit@.len() as int) =~= s@);
        } else {
            if s@ == lit@ {
                assert(s@.subrange(0, lit@.len() as int) =~= lit@);
            }
        }
    }
    r
}

} // verus!
