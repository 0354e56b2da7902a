//! Decimal numerals for trigger values.
//!
//! A trigger value is the decimal numeral, in ASCII bytes, of a 64-bit hash.
//! The encoding is injective, so two trigger values are equal exactly when
//! the hashes they encode are equal: comparing the environment variable's
//! text is the same as comparing the hashes themselves.

use vstd::prelude::*;

verus! {

/// The ASCII byte of the decimal digit `d`.
pub open spec fn digit_byte(d: nat) -> u8
    recommends
        d < 10,
{
    (48 + (d % 10)) as u8
}

/// The decimal numeral of `n`, as ASCII bytes, most significant digit first,
/// with no leading zeros (`0` itself is the single byte `48`).
pub open spec fn decimal(n: nat) -> Seq<u8>
    decreases n,
{
    if n < 10 {
        seq![digit_byte(n)]
    } else {
        decimal(n / 10).push(digit_byte(n % 10))
    }
}

/// Renders `n` as its decimal numeral.
pub fn decimal_of(n: u64) -> (v: Vec<u8>)
    ensures
        v@ == decimal(n as nat),
    decreases n,
{
    if n < 10 {
        let mut v: Vec<u8> = Vec::new();
        v.push(48 + (n as u8));
        proof {
            assert(v@ =~= decimal(n as nat));
        }
        v
    } else {
        let mut v = decimal_of(n / 10);
        v.push(48 + ((n % 10) as u8));
        proof {
            assert(v@ =~= decimal(n as nat));
        }
        v
    }
}

/// A numeral is never empty.
pub proof fn lemma_decimal_nonempty(n: nat)
    ensures
        decimal(n).len() >= 1,
    decreases n,
{
    if n >= 10 {
        lemma_decimal_nonempty(n / 10);
    }
}

/// Every byte of a numeral is an ASCII digit, so a numeral is valid ASCII
/// (and valid UTF-8) text.
pub proof fn lemma_decimal_ascii(n: nat)
    ensures
        forall|i: int| 0 <= i < decimal(n).len() ==> 48 <= #[trigger] decimal(n)[i] <= 57,
    decreases n,
{
    if n < 10 {
        assert(decimal(n)[0] == digit_byte(n));
    } else {
        lemma_decimal_ascii(n / 10);
        assert forall|i: int| 0 <= i < decimal(n).len() implies 48 <= #[trigger] decimal(n)[i]
            <= 57 by {
            if i < decimal(n).len() - 1 {
                assert(decimal(n)[i] == decimal(n / 10)[i]);
            } else {
                assert(decimal(n)[i] == digit_byte(n % 10));
            }
        }
    }
}

/// The last byte of a numeral is the digit of `n % 10`.
proof fn lemma_decimal_last(n: nat)
    ensures
        decimal(n).len() >= 1,
        decimal(n).last() == digit_byte(n % 10),
{
    lemma_decimal_nonempty(n);
    if n < 10 {
        assert(n % 10 == n);
    }
}

/// The decimal encoding is injective: distinct numbers have distinct
/// numerals.
pub proof fn lemma_decimal_injective(a: nat, b: nat)
    requires
        a != b,
    ensures
        decimal(a) != decimal(b),
    decreases a + b,
{
    lemma_decimal_last(a);
    lemma_decimal_last(b);
    if a % 10 != b % 10 {
        assert(digit_byte(a % 10) != digit_byte(b % 10));
    } else {
        // Same last digit, so the quotients must differ.
        assert(a / 10 != b / 10) by {
            assert(a == 10 * (a / 10) + a % 10);
            assert(b == 10 * (b / 10) + b % 10);
        };
        if a < 10 && b < 10 {
            assert(false);
        } else if a < 10 {
            lemma_decimal_nonempty(b / 10);
            assert(decimal(b).len() >= 2);
        } else if b < 10 {
            lemma_decimal_nonempty(a / 10);
            assert(decimal(a).len() >= 2);
        } else {
            lemma_decimal_injective(a / 10, b / 10);
            if decimal(a) == decimal(b) {
                assert(decimal(a).drop_last() == decimal(b).drop_last());
                assert(decimal(a).drop_last() =~= decimal(a / 10));
                assert(decimal(b).drop_last() =~= decimal(b / 10));
            }
        }
    }
}

} // verus!
