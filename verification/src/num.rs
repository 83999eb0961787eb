//! Decimal text for unsigned integers.
//!
//! JSON numbers live in the tree as text. Token counts in usage records are
//! read back with [`parse_u64`] and written with [`dec_u64`]; both directions
//! are pinned to the same spec-level digit functions.

use vstd::prelude::*;

verus! {

/// Whether `c` is a decimal digit.
pub open spec fn spec_is_digit(c: char) -> bool {
    48 <= c as int <= 57
}

/// The value of the digit `c`.
pub open spec fn spec_digit_val(c: char) -> int {
    c as int - 48
}

/// The digit character for `d`, which must be below ten.
pub open spec fn spec_digit_char(d: int) -> char {
    if d == 0 {
        '0'
    } else if d == 1 {
        '1'
    } else if d == 2 {
        '2'
    } else if d == 3 {
        '3'
    } else if d == 4 {
        '4'
    } else if d == 5 {
        '5'
    } else if d == 6 {
        '6'
    } else if d == 7 {
        '7'
    } else if d == 8 {
        '8'
    } else {
        '9'
    }
}

/// The decimal digits of `n`, most significant first.
pub open spec fn spec_u64_digits(n: int) -> Seq<char>
    decreases n,
{
    if n < 10 {
        seq![spec_digit_char(n)]
    } else {
        spec_u64_digits(n / 10).push(spec_digit_char(n % 10))
    }
}

/// The value of a digit string, most significant first.
pub open spec fn spec_digits_val(s: Seq<char>) -> int
    decreases s.len(),
{
    if s.len() == 0 {
        0
    } else {
        spec_digits_val(s.drop_last()) * 10 + spec_digit_val(s.last())
    }
}

/// The unsigned integer a piece of number text denotes: defined exactly when
/// the text is one or more decimal digits whose value fits in a `u64`.
pub open spec fn spec_parse_u64(s: Seq<char>) -> Option<u64> {
    if s.len() > 0 && (forall|i: int| 0 <= i < s.len() ==> spec_is_digit(s[i]))
        && spec_digits_val(s) <= u64::MAX {
        Some(spec_digits_val(s) as u64)
    } else {
        None
    }
}

/// A longer digit prefix never denotes a smaller value.
proof fn lemma_digits_val_prefix_le(s: Seq<char>, i: int, j: int)
    requires
        0 <= i <= j <= s.len(),
        forall|k: int| 0 <= k < s.len() ==> spec_is_digit(s[k]),
    ensures
        spec_digits_val(s.take(i)) <= spec_digits_val(s.take(j)),
    decreases j - i,
{
    if i < j {
        lemma_digits_val_prefix_le(s, i, j - 1);
        assert(s.take(j).drop_last() =~= s.take(j - 1));
        lemma_digits_val_nonneg(s.take(j - 1));
        assert(spec_digits_val(s.take(j)) == spec_digits_val(s.take(j - 1)) * 10
            + spec_digit_val(s.take(j).last()));
        assert(spec_digit_val(s.take(j).last()) >= 0);
        assert(spec_digits_val(s.take(j - 1)) * 10 >= spec_digits_val(s.take(j - 1)));
    }
}

/// The value of an all-digit string is never negative.
proof fn lemma_digits_val_nonneg(s: Seq<char>)
    requires
        forall|k: int| 0 <= k < s.len() ==> spec_is_digit(s[k]),
    ensures
        spec_digits_val(s) >= 0,
    decreases s.len(),
{
    if s.len() > 0 {
        lemma_digits_val_nonneg(s.drop_last());
        assert(spec_digit_val(s.last()) >= 0);
    }
}

/// Reads a `u64` from decimal text.
pub fn parse_u64(t: &str) -> (r: Option<u64>)
    ensures
        r == spec_parse_u64(t@),
{
    let n = t.unicode_len();
    if n == 0 {
        return None;
    }
    let mut acc: u64 = 0;
    for i in 0..n
        invariant
            n == t@.len(),
            n > 0,
            forall|k: int| 0 <= k < i ==> spec_is_digit(t@[k]),
            acc == spec_digits_val(t@.take(i as int)),
    {
        let c = t.get_char(i);
        let cu = c as u32;
        if cu < 48 || cu > 57 {
            assert(!spec_is_digit(t@[i as int]));
            return None;
        }
        let d = (cu - 48) as u64;
        if acc > (u64::MAX - d) / 10 {
            proof {
                assert(t@.take(i + 1).drop_last() =~= t@.take(i as int));
                assert(spec_digits_val(t@.take(i + 1)) == acc * 10 + d);
                assert(acc * 10 + d > u64::MAX) by {
                    assert(acc >= (u64::MAX - d) / 10 + 1);
                    assert(((u64::MAX - d) / 10 + 1) * 10 == ((u64::MAX - d) / 10) * 10 + 10);
                    assert(((u64::MAX - d) / 10) * 10 + 10 > u64::MAX - d) by (nonlinear_arith)
                        requires d <= 9;
                    assert(acc * 10 >= ((u64::MAX - d) / 10 + 1) * 10) by (nonlinear_arith)
                        requires acc >= (u64::MAX - d) / 10 + 1;
                };
                if spec_digits_val(t@) <= u64::MAX
                    && (forall|k: int| 0 <= k < t@.len() ==> spec_is_digit(t@[k])) {
                    lemma_digits_val_prefix_le(t@, i + 1, t@.len() as int);
                    assert(t@.take(t@.len() as int) =~= t@);
                }
            }
            return None;
        }
        proof {
            assert(acc * 10 + d <= u64::MAX) by {
                assert(acc <= (u64::MAX - d) / 10);
                assert(acc * 10 <= ((u64::MAX - d) / 10) * 10) by (nonlinear_arith)
                    requires acc <= (u64::MAX - d) / 10;
                assert(((u64::MAX - d) / 10) * 10 <= u64::MAX - d);
            };
            assert(t@.take(i + 1).drop_last() =~= t@.take(i as int));
        }
        acc = acc * 10 + d;
    }
    proof {
        assert(t@.take(n as int) =~= t@);
    }
    Some(acc)
}

/// The digit character for `d` as a one-character string.
fn digit_str(d: u64) -> (r: &'static str)
    requires
        d < 10,
    ensures
        r@ =~= seq![spec_digit_char(d as int)],
{
    proof {
        reveal_strlit("0");
        reveal_strlit("1");
        reveal_strlit("2");
        reveal_strlit("3");
        reveal_strlit("4");
        reveal_strlit("5");
        reveal_strlit("6");
        reveal_strlit("7");
        reveal_strlit("8");
        reveal_strlit("9");
    }
    if d == 0 {
        "0"
    } else if d == 1 {
        "1"
    } else if d == 2 {
        "2"
    } else if d == 3 {
        "3"
    } else if d == 4 {
        "4"
    } else if d == 5 {
        "5"
    } else if d == 6 {
        "6"
    } else if d == 7 {
        "7"
    } else if d == 8 {
        "8"
    } else {
        "9"
    }
}

/// Writes `n` in decimal.
pub fn dec_u64(n: u64) -> (s: String)
    ensures
        s@ == spec_u64_digits(n as int),
    decreases n,
{
    if n < 10 {
        let s = digit_str(n).to_owned();
        proof {
            assert(s@ =~= spec_u64_digits(n as int));
        }
        s
    } else {
        let mut s = dec_u64(n / 10);
        s.append(digit_str(n % 10));
        proof {
            assert(s@ =~= spec_u64_digits(n as int));
        }
        s
    }
}

/// Writes `n` in decimal.
pub fn dec_u128(n: u128) -> (s: String)
    ensures
        s@ == spec_u64_digits(n as int),
    decreases n,
{
    if n < 10 {
        let s = digit_str(n as u64).to_owned();
        proof {
            assert(s@ =~= spec_u64_digits(n as int));
        }
        s
    } else {
        let mut s = dec_u128(n / 10);
        s.append(digit_str((n % 10) as u64));
        proof {
            assert(s@ =~= spec_u64_digits(n as int));
        }
        s
    }
}

/// Printing then reading a `u64` gives it back.
pub proof fn lemma_u64_digits_roundtrip(n: u64)
    ensures
        spec_parse_u64(spec_u64_digits(n as int)) == Some(n),
    decreases n,
{
    lemma_u64_digits_all_digits(n as int);
    lemma_u64_digits_val(n as int);
}

/// Every character that `spec_u64_digits` writes is a digit.
proof fn lemma_u64_digits_all_digits(n: int)
    requires
        n >= 0,
    ensures
        spec_u64_digits(n).len() > 0,
        forall|i: int| 0 <= i < spec_u64_digits(n).len() ==> spec_is_digit(spec_u64_digits(n)[i]),
    decreases n,
{
    if n >= 10 {
        lemma_u64_digits_all_digits(n / 10);
    }
}

/// The value of the digits of `n` is `n`.
proof fn lemma_u64_digits_val(n: int)
    requires
        n >= 0,
    ensures
        spec_digits_val(spec_u64_digits(n)) == n,
    decreases n,
{
    lemma_digit_char_val(n % 10);
    if n < 10 {
        lemma_digit_char_val(n);
        assert(spec_u64_digits(n).drop_last() =~= Seq::<char>::empty());
        assert(spec_u64_digits(n).last() == spec_digit_char(n));
        assert(spec_digits_val(Seq::<char>::empty()) == 0);
        assert(spec_digits_val(spec_u64_digits(n)) == spec_digits_val(
            spec_u64_digits(n).drop_last(),
        ) * 10 + spec_digit_val(spec_u64_digits(n).last()));
        assert(spec_digits_val(spec_u64_digits(n)) == n);
    } else {
        lemma_u64_digits_val(n / 10);
        assert(spec_u64_digits(n).drop_last() =~= spec_u64_digits(n / 10));
        assert(spec_u64_digits(n).last() == spec_digit_char(n % 10));
        assert(spec_digits_val(spec_u64_digits(n)) == (n / 10) * 10 + n % 10);
    }
}

/// Reading a digit character back gives the digit.
proof fn lemma_digit_char_val(d: int)
    requires
        0 <= d <= 9,
    ensures
        spec_digit_val(spec_digit_char(d)) == d,
{
    assert('0' as int == 48);
    assert('1' as int == 49);
    assert('2' as int == 50);
    assert('3' as int == 51);
    assert('4' as int == 52);
    assert('5' as int == 53);
    assert('6' as int == 54);
    assert('7' as int == 55);
    assert('8' as int == 56);
    assert('9' as int == 57);
}

} // verus!
