//! Decimal rendering and parsing of record identifiers.
//!
//! Identifiers are 128-bit integers.  A token carries its subject as the
//! decimal digit string of the identifier, so the two directions here and
//! their round trip are what ties a verified token back to a user id.

use vstd::prelude::*;

verus! {

/// The decimal digit string of `n`, most significant digit first.
pub open spec fn spec_digits(n: nat) -> Seq<u8>
    decreases n,
{
    if n < 10 {
        seq![(48 + n) as u8]
    } else {
        spec_digits(n / 10).push((48 + n % 10) as u8)
    }
}

/// Every byte of `s` is an ASCII decimal digit.
pub open spec fn is_digits(s: Seq<u8>) -> bool {
    forall|i: int| 0 <= i < s.len() ==> 48 <= #[trigger] s[i] <= 57
}

/// The numeric value of a digit string, most significant digit first.
pub open spec fn digits_value(s: Seq<u8>) -> int
    decreases s.len(),
{
    if s.len() == 0 {
        0
    } else {
        digits_value(s.drop_last()) * 10 + (s.last() - 48)
    }
}

/// What a subject string denotes: an identifier, when the string is a
/// nonempty run of decimal digits whose value fits in 128 bits.
pub open spec fn spec_parse_id(s: Seq<u8>) -> Option<u128> {
    if s.len() > 0 && is_digits(s) && digits_value(s) <= u128::MAX {
        Some(digits_value(s) as u128)
    } else {
        None
    }
}

pub proof fn lemma_digits_are_digits(n: nat)
    ensures
        is_digits(spec_digits(n)),
        spec_digits(n).len() >= 1,
    decreases n,
{
    if n < 10 {
    } else {
        lemma_digits_are_digits(n / 10);
    }
}

pub proof fn lemma_digits_value(n: nat)
    ensures
        digits_value(spec_digits(n)) == n,
    decreases n,
{
    if n < 10 {
        assert(spec_digits(n) =~= seq![(48 + n) as u8]);
        assert(spec_digits(n).drop_last() =~= Seq::<u8>::empty());
        assert(spec_digits(n).last() == (48 + n) as u8);
        assert((48 + n) as u8 == 48 + n);
        assert(digits_value(Seq::<u8>::empty()) == 0);
        assert(digits_value(spec_digits(n)) == 0 * 10 + (48 + n - 48));
    } else {
        lemma_digits_value(n / 10);
        assert(spec_digits(n) == spec_digits(n / 10).push((48 + n % 10) as u8));
        assert(spec_digits(n).drop_last() =~= spec_digits(n / 10));
        assert(spec_digits(n).last() == (48 + n % 10) as u8);
        assert((48 + n % 10) as u8 == 48 + n % 10);
        assert(digits_value(spec_digits(n)) == (n / 10) * 10 + (n % 10));
        vstd::arithmetic::div_mod::lemma_fundamental_div_mod(n as int, 10);
        assert(n == 10 * (n as int / 10) + n as int % 10);
    }
}

/// A digit string denotes a nonnegative value.
pub proof fn lemma_digits_value_nonneg(s: Seq<u8>)
    requires
        is_digits(s),
    ensures
        digits_value(s) >= 0,
    decreases s.len(),
{
    if s.len() > 0 {
        assert(is_digits(s.drop_last()));
        lemma_digits_value_nonneg(s.drop_last());
    }
}

/// Appending digits never shrinks the value: the value of a prefix bounds
/// the value of the whole string from below.
pub proof fn lemma_digits_value_prefix_le(s: Seq<u8>, k: int)
    requires
        is_digits(s),
        0 <= k <= s.len(),
    ensures
        digits_value(s.take(k)) <= digits_value(s),
    decreases s.len() - k,
{
    if k < s.len() {
        assert(s.take(k + 1).drop_last() =~= s.take(k));
        assert(is_digits(s.take(k)));
        lemma_digits_value_nonneg(s.take(k));
        assert(digits_value(s.take(k + 1))
            == digits_value(s.take(k)) * 10 + (s.take(k + 1).last() - 48));
        lemma_digits_value_prefix_le(s, k + 1);
    } else {
        assert(s.take(k) =~= s);
    }
}

/// Parsing the rendered digits of an identifier gives the identifier back.
pub proof fn lemma_parse_digits_round_trip(n: u128)
    ensures
        spec_parse_id(spec_digits(n as nat)) == Some(n),
{
    lemma_digits_are_digits(n as nat);
    lemma_digits_value(n as nat);
}

/// Renders `n` in decimal, most significant digit first.
pub fn format_id(n: u128) -> (r: Vec<u8>)
    ensures
        r@ == spec_digits(n as nat),
    decreases n,
{
    if n < 10 {
        let mut v: Vec<u8> = Vec::new();
        v.push(48 + n as u8);
        proof {
            assert(v@ =~= spec_digits(n as nat));
        }
        v
    } else {
        let mut v: Vec<u8> = format_id(n / 10);
        v.push(48 + (n % 10) as u8);
        proof {
            assert(v@ =~= spec_digits(n as nat));
        }
        v
    }
}

/// Parses a decimal digit string back into an identifier.  Returns `None`
/// on an empty string, a non-digit byte, or a value over 128 bits.
pub fn parse_id(s: &[u8]) -> (r: Option<u128>)
    ensures
        r == spec_parse_id(s@),
{
    if s.len() == 0 {
        return None;
    }
    let mut acc: u128 = 0;
    let mut i: usize = 0;
    while i < s.len()
        invariant
            0 < s@.len(),
            0 <= i <= s@.len(),
            is_digits(s@.take(i as int)),
            acc == digits_value(s@.take(i as int)),
        decreases s@.len() - i,
    {
        let b = s[i];
        if b < 48 || 57 < b {
            proof {
                assert(!(48 <= s@[i as int] <= 57));
            }
            return None;
        }
        let d: u128 = (b - 48) as u128;
        proof {
            assert(s@.take(i as int + 1).drop_last() =~= s@.take(i as int));
            assert(s@.take(i as int + 1).last() == s@[i as int]);
            assert(is_digits(s@.take(i as int + 1)));
        }
        if acc > (u128::MAX - d) / 10 {
            proof {
                lemma_digits_value_nonneg(s@.take(i as int));
                assert(acc * 10 + d > u128::MAX) by {
                    assert(acc >= (u128::MAX - d) / 10 + 1);
                    assert(acc * 10 >= ((u128::MAX - d) / 10 + 1) * 10) by (nonlinear_arith)
                        requires acc >= (u128::MAX - d) / 10 + 1;
                    vstd::arithmetic::div_mod::lemma_fundamental_div_mod(u128::MAX - d, 10);
                };
                if is_digits(s@) {
                    lemma_digits_value_prefix_le(s@, i as int + 1);
                }
            }
            return None;
        }
        proof {
            assert(acc * 10 + d <= u128::MAX) by {
                assert(acc <= (u128::MAX - d) / 10);
                assert(acc * 10 <= ((u128::MAX - d) / 10) * 10) by (nonlinear_arith)
                    requires acc <= (u128::MAX - d) / 10;
                vstd::arithmetic::div_mod::lemma_fundamental_div_mod(u128::MAX - d, 10);
            };
        }
        acc = acc * 10 + d;
        i = i + 1;
    }
    proof {
        assert(s@.take(i as int) =~= s@);
    }
    Some(acc)
}

} // verus!
