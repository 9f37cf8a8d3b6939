//! Single-precision values carried by their bit pattern.

use vstd::prelude::*;
use vstd::arithmetic::div_mod::{lemma_fundamental_div_mod, lemma_mod_bound};
use vstd::arithmetic::power2::{
    lemma2_to64, lemma_pow2_adds, lemma_pow2_pos, lemma_pow2_strictly_increases,
    lemma_pow2_unfold, pow2,
};
use crate::text::{dec_digits, decimal_string, digit_char, digit_str};

verus! {

/// An IEEE-754 binary32 value, held as its 32 bits: one sign bit, eight
/// exponent bits, twenty-three fraction bits.
#[derive(Clone, Copy, Debug, PartialEq, Eq, Structural)]
pub struct Real32 {
    pub bits: u32,
}

/// Bit pattern of one.
pub const ONE_BITS: u32 = 0x3F80_0000;

/// Bit pattern of one and a half.
pub const ONE_AND_HALF_BITS: u32 = 0x3FC0_0000;

/// Bit pattern of three quarters.
pub const THREE_QUARTERS_BITS: u32 = 0x3F40_0000;

/// Weight of the lowest exponent bit.
pub const FRACTION_SPAN: u32 = 0x80_0000;

/// Weight of the sign bit.
pub const SIGN_BIT: u32 = 0x8000_0000;

/// Whether the sign bit is set.
pub open spec fn sign_negative(bits: u32) -> bool {
    bits >= 0x8000_0000
}

/// The eight exponent bits as a number.
pub open spec fn exponent_field(bits: u32) -> nat {
    ((bits as nat) / 0x80_0000) % 256
}

/// The twenty-three fraction bits as a number.
pub open spec fn fraction_field(bits: u32) -> nat {
    (bits as nat) % 0x80_0000
}

/// Neither an infinity nor a NaN.
pub open spec fn is_finite(bits: u32) -> bool {
    exponent_field(bits) != 255
}

/// The integer `m` of a finite value `m * 2^e`.
pub open spec fn significand(bits: u32) -> nat {
    if exponent_field(bits) == 0 {
        fraction_field(bits)
    } else {
        fraction_field(bits) + 0x80_0000
    }
}

/// The exponent `e` of a finite value `m * 2^e`.
pub open spec fn binary_exponent(bits: u32) -> int {
    if exponent_field(bits) == 0 {
        -149
    } else {
        exponent_field(bits) - 150
    }
}

/// `n / d` rounded to the nearest integer, a tie going to the even one.
pub open spec fn round_half_even(n: nat, d: nat) -> nat {
    let q = n / d;
    let r = n % d;
    if 2 * r > d || (2 * r == d && q % 2 == 1) {
        q + 1
    } else {
        q
    }
}

/// The magnitude of a finite value in hundredths, rounded to the nearest
/// hundredth, a tie going to the even one.
pub open spec fn hundredths(bits: u32) -> nat {
    let m = significand(bits);
    let e = binary_exponent(bits);
    if e >= 0 {
        m * pow2(e as nat) * 100
    } else {
        round_half_even(m * 100, pow2((-e) as nat))
    }
}

/// The sign as it is written: a minus where the sign bit is set.
pub open spec fn sign_text(bits: u32) -> Seq<char> {
    if sign_negative(bits) {
        seq!['-']
    } else {
        Seq::<char>::empty()
    }
}

/// A value written with exactly two decimal digits. A NaN is written `NaN`,
/// an infinity `inf` behind its sign.
pub open spec fn two_decimals(bits: u32) -> Seq<char> {
    if is_finite(bits) {
        let h = hundredths(bits);
        let c = h % 100;
        sign_text(bits) + dec_digits(h / 100) + seq!['.', digit_char(c / 10), digit_char(c % 10)]
    } else if fraction_field(bits) != 0 {
        seq!['N', 'a', 'N']
    } else {
        sign_text(bits) + seq!['i', 'n', 'f']
    }
}

/// Powers of two up to the largest that scales a significand.
proof fn lemma_pow2_up_to_103(i: nat)
    requires
        i <= 103,
    ensures
        pow2(i) <= 0x80_0000_0000_0000_0000_0000_0000,
{
    lemma2_to64();
    lemma_pow2_adds(32, 7);
    lemma_pow2_adds(64, 39);
    if i < 103 {
        lemma_pow2_strictly_increases(i, 103);
    }
}

/// `m * 2^e` for a significand and an exponent that is not negative.
fn scale_up(m: u32, e: u32) -> (w: u128)
    requires
        m < 0x100_0000,
        e <= 104,
    ensures
        w == m * pow2(e as nat),
{
    let mut w: u128 = m as u128;
    let mut i: u32 = 0;
    proof {
        lemma2_to64();
    }
    while i < e
        invariant
            i <= e <= 104,
            m < 0x100_0000,
            w == m * pow2(i as nat),
        decreases e - i,
    {
        proof {
            lemma_pow2_unfold((i + 1) as nat);
            lemma_pow2_up_to_103(i as nat);
            assert(m * pow2(i as nat) <= 0xFF_FFFF * 0x80_0000_0000_0000_0000_0000_0000)
                by (nonlinear_arith)
                requires
                    m <= 0xFF_FFFF,
                    pow2(i as nat) <= 0x80_0000_0000_0000_0000_0000_0000,
            ;
            assert(m * (2 * pow2(i as nat)) == 2 * (m * pow2(i as nat))) by (nonlinear_arith);
        }
        w = w * 2;
        i = i + 1;
    }
    w
}

/// `2^k` for a small exponent.
fn small_pow2(k: u32) -> (p: u64)
    requires
        k <= 32,
    ensures
        p == pow2(k as nat),
        1 <= p <= 0x1_0000_0000,
{
    let mut p: u64 = 1;
    let mut i: u32 = 0;
    proof {
        lemma2_to64();
    }
    while i < k
        invariant
            i <= k <= 32,
            p == pow2(i as nat),
            1 <= p,
        decreases k - i,
    {
        proof {
            lemma2_to64();
            lemma_pow2_unfold((i + 1) as nat);
            if i < 31 {
                lemma_pow2_strictly_increases(i as nat, 31);
            }
        }
        p = p * 2;
        i = i + 1;
    }
    proof {
        lemma2_to64();
        if k < 32 {
            lemma_pow2_strictly_increases(k as nat, 32);
        }
    }
    p
}

/// The hundredths of a finite value, as whole units and what is left of one.
fn split_hundredths(bits: u32) -> (r: (u128, u8))
    requires
        is_finite(bits),
    ensures
        r.0 == hundredths(bits) / 100,
        r.1 == hundredths(bits) % 100,
{
    let exp: u32 = (bits / FRACTION_SPAN) % 256;
    let frac: u32 = bits % FRACTION_SPAN;
    let m: u32 = if exp == 0 {
        frac
    } else {
        frac + FRACTION_SPAN
    };
    if exp >= 150 {
        let e: u32 = exp - 150;
        let w = scale_up(m, e);
        assert((w * 100) / 100 == w && (w * 100) % 100 == 0) by (nonlinear_arith);
        (w, 0)
    } else {
        let k: u32 = if exp == 0 {
            149
        } else {
            150 - exp
        };
        let n: u64 = (m as u64) * 100;
        if k > 32 {
            proof {
                lemma2_to64();
                lemma_pow2_strictly_increases(32, k as nat);
                let d = pow2(k as nat);
                assert((n as nat) / d == 0 && (n as nat) % d == n) by (nonlinear_arith)
                    requires
                        n < d,
                ;
            }
            (0, 0)
        } else {
            let d = small_pow2(k);
            let q: u64 = n / d;
            let r: u64 = n % d;
            let h: u64 = if 2 * r > d || (2 * r == d && q % 2 == 1) {
                q + 1
            } else {
                q
            };
            ((h / 100) as u128, (h % 100) as u8)
        }
    }
}

/// The hundredths of a finite value lie within half a hundredth of the
/// value. A value without a fraction is met exactly. Else the value is
/// `n / d` hundredths, with `d` a power of two, and `d` times the hundredths
/// is no further than `d / 2` from `n`.
pub proof fn hundredths_is_nearest(bits: u32)
    requires
        is_finite(bits),
    ensures
        binary_exponent(bits) >= 0 ==> hundredths(bits) == significand(bits) * pow2(
            binary_exponent(bits) as nat,
        ) * 100,
        binary_exponent(bits) < 0 ==> ({
            let d = pow2((-binary_exponent(bits)) as nat) as int;
            let n = significand(bits) * 100;
            -d <= 2 * (hundredths(bits) * d - n) <= d
        }),
{
    if binary_exponent(bits) < 0 {
        let k = (-binary_exponent(bits)) as nat;
        lemma_pow2_pos(k);
        let d = pow2(k) as int;
        let n = (significand(bits) * 100) as int;
        lemma_fundamental_div_mod(n, d);
        let q = n / d;
        let r = n % d;
        assert(0 <= r < d) by {
            lemma_mod_bound(n, d);
        }
        assert((q + 1) * d == q * d + d) by (nonlinear_arith);
        assert(d * q == q * d) by (nonlinear_arith);
    }
}

impl Real32 {
    /// The value with the given bits.
    pub fn from_bits(bits: u32) -> (r: Real32)
        ensures
            r.bits == bits,
    {
        Real32 { bits }
    }

    /// The bits of the value.
    pub fn to_bits(&self) -> (bits: u32)
        ensures
            bits == self.bits,
    {
        self.bits
    }

    /// The value written with exactly two decimal digits, rounded to the
    /// nearest hundredth, a tie going to the even one.
    pub fn two_decimal_text(&self) -> (s: String)
        ensures
            s@ == two_decimals(self.bits),
    {
        let bits = self.bits;
        let exp: u32 = (bits / FRACTION_SPAN) % 256;
        let frac: u32 = bits % FRACTION_SPAN;
        let mut s = String::new();
        if bits >= SIGN_BIT && (exp != 255 || frac == 0) {
            proof {
                reveal_strlit("-");
                assert("-"@ =~= seq!['-']);
            }
            s.append("-");
        }
        if exp == 255 {
            proof {
                reveal_strlit("NaN");
                reveal_strlit("inf");
                assert("NaN"@ =~= seq!['N', 'a', 'N']);
                assert("inf"@ =~= seq!['i', 'n', 'f']);
            }
            if frac != 0 {
                s.append("NaN");
            } else {
                s.append("inf");
            }
            assert(s@ =~= two_decimals(bits));
            s
        } else {
            let (whole, cents) = split_hundredths(bits);
            let w = decimal_string(whole);
            proof {
                reveal_strlit(".");
                assert("."@ =~= seq!['.']);
            }
            s.append(w.as_str());
            s.append(".");
            s.append(digit_str(cents / 10));
            s.append(digit_str(cents % 10));
            assert(s@ =~= two_decimals(bits));
            s
        }
    }

    /// One.
    pub fn one() -> (r: Real32)
        ensures
            r.bits == ONE_BITS,
    {
        Real32 { bits: ONE_BITS }
    }

    /// One and a half.
    pub fn one_and_half() -> (r: Real32)
        ensures
            r.bits == ONE_AND_HALF_BITS,
    {
        Real32 { bits: ONE_AND_HALF_BITS }
    }

    /// Three quarters.
    pub fn three_quarters() -> (r: Real32)
        ensures
            r.bits == THREE_QUARTERS_BITS,
    {
        Real32 { bits: THREE_QUARTERS_BITS }
    }
}

} // verus!
