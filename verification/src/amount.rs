//! Exact decimal amounts.
//!
//! A movement's amount is an exact decimal: a 96-bit magnitude scaled by a
//! power of ten, with an explicit sign (negative = debit). The matcher only
//! ever asks three things of an amount: whether it is strictly negative,
//! whether two amounts sum to exactly zero, and what its absolute value is.
//! Keeping every stored amount in a normal form (no trailing zero digits
//! while the scale allows stripping one, and a unique zero) makes the
//! zero-sum test a plain field comparison.

use vstd::prelude::*;

verus! {

use vstd::arithmetic::div_mod::{lemma_fundamental_div_mod, lemma_mod_multiples_basic};
use vstd::arithmetic::mul::lemma_mul_equality_converse;

/// Upper bound (exclusive) on a decimal mantissa: `2^96`.
pub const MANTISSA_LIMIT: u128 = 79228162514264337593543950336;

/// Largest admissible scale: the mantissa is divided by `10^scale`.
pub const MAX_SCALE: u32 = 28;

/// `10^e`.
pub open spec fn pow10(e: nat) -> nat
    decreases e,
{
    if e == 0 {
        1
    } else {
        10 * pow10((e - 1) as nat)
    }
}

pub broadcast proof fn lemma_pow10_pos(e: nat)
    ensures
        #[trigger] pow10(e) >= 1,
    decreases e,
{
    if e > 0 {
        lemma_pow10_pos((e - 1) as nat);
    }
}

pub proof fn lemma_pow10_add(a: nat, b: nat)
    ensures
        pow10(a + b) == pow10(a) * pow10(b),
    decreases a,
{
    if a == 0 {
        assert(pow10(0 + b) == 1 * pow10(b));
    } else {
        lemma_pow10_add((a - 1) as nat, b);
        assert(pow10(a + b) == 10 * pow10((a + b - 1) as nat));
        assert(10 * ((pow10((a - 1) as nat)) * pow10(b)) == (10 * pow10((a - 1) as nat)) * pow10(
            b,
        )) by (nonlinear_arith);
    }
}

/// An exact, signed decimal amount: `(-1)^negative * mantissa / 10^scale`.
///
/// Stored amounts are kept in the normal form described by [`Amount::wf`];
/// [`Amount::new`] establishes it from any admissible triple.
#[derive(Debug, Clone, Copy, PartialEq, Eq, Structural)]
pub struct Amount {
    pub negative: bool,
    pub mantissa: u128,
    pub scale: u32,
}

impl Amount {
    /// The amount's value scaled to an integer: its value times `10^MAX_SCALE`.
    pub open spec fn units(self) -> int {
        let magnitude = (self.mantissa as nat) * pow10((MAX_SCALE - self.scale) as nat);
        if self.negative {
            -(magnitude as int)
        } else {
            magnitude as int
        }
    }

    /// Normal form: bounded mantissa and scale, a unique representation of
    /// zero, and no trailing zero digit while the scale allows stripping one.
    pub open spec fn wf(self) -> bool {
        &&& self.scale <= MAX_SCALE
        &&& self.mantissa < MANTISSA_LIMIT
        &&& (self.mantissa == 0 ==> !self.negative && self.scale == 0)
        &&& (self.mantissa != 0 && self.scale > 0 ==> self.mantissa % 10 != 0)
    }

    /// Builds the normal form of `(-1)^negative * mantissa / 10^scale`.
    pub fn new(negative: bool, mantissa: u128, scale: u32) -> (r: Amount)
        requires
            scale <= MAX_SCALE,
            mantissa < MANTISSA_LIMIT,
        ensures
            r.wf(),
            r.units() == (Amount { negative, mantissa, scale }).units(),
    {
        if mantissa == 0 {
            return Amount { negative: false, mantissa: 0, scale: 0 };
        }
        let mut m = mantissa;
        let mut s = scale;
        while s > 0 && m % 10 == 0
            invariant
                s <= MAX_SCALE,
                0 < m < MANTISSA_LIMIT,
                (Amount { negative, mantissa: m, scale: s }).units() == (Amount {
                    negative,
                    mantissa,
                    scale,
                }).units(),
            decreases s,
        {
            proof {
                lemma_fundamental_div_mod(m as int, 10);
                assert((MAX_SCALE - (s - 1)) as nat == ((MAX_SCALE - s) as nat + 1) as nat);
                assert(pow10(((MAX_SCALE - s) as nat + 1) as nat) == 10 * pow10(
                    (MAX_SCALE - s) as nat,
                ));
                assert(((m / 10) as nat) * (10 * pow10((MAX_SCALE - s) as nat)) == (((m / 10)
                    * 10) as nat) * pow10((MAX_SCALE - s) as nat)) by (nonlinear_arith);
            }
            m = m / 10;
            s = s - 1;
        }
        Amount { negative, mantissa: m, scale: s }
    }

    /// Whether the amount is strictly below zero (a debit).
    pub fn is_negative(&self) -> (r: bool)
        requires
            self.wf(),
        ensures
            r <==> self.units() < 0,
    {
        proof {
            broadcast use lemma_pow10_pos;

            if self.mantissa != 0 {
                assert((self.mantissa as nat) * pow10((MAX_SCALE - self.scale) as nat) >= 1)
                    by (nonlinear_arith)
                    requires
                        self.mantissa >= 1,
                        pow10((MAX_SCALE - self.scale) as nat) >= 1,
                ;
            }
        }
        self.negative
    }

    /// The absolute value.
    pub fn abs(&self) -> (r: Amount)
        requires
            self.wf(),
        ensures
            r == (Amount { negative: false, mantissa: self.mantissa, scale: self.scale }),
            r.wf(),
            r.units() == vstd::math::abs(self.units()),
    {
        Amount { negative: false, mantissa: self.mantissa, scale: self.scale }
    }
}

/// Whether `a + b == 0` exactly. In normal form this is a field comparison:
/// equal mantissa, equal scale, and (for a non-zero pair) opposite signs.
pub fn sums_to_zero(a: &Amount, b: &Amount) -> (r: bool)
    requires
        a.wf(),
        b.wf(),
    ensures
        r <==> a.units() + b.units() == 0,
{
    proof {
        if a.units() + b.units() == 0 {
            lemma_zero_sum_structure(*a, *b);
        }
        if a.mantissa == 0 {
            lemma_zero_mantissa_zero_units(*a);
        }
        if b.mantissa == 0 {
            lemma_zero_mantissa_zero_units(*b);
        }
    }
    a.mantissa == b.mantissa && a.scale == b.scale && (a.mantissa == 0 || a.negative != b.negative)
}

/// A zero mantissa makes the amount zero, whatever the sign and scale say.
proof fn lemma_zero_mantissa_zero_units(a: Amount)
    requires
        a.mantissa == 0,
    ensures
        a.units() == 0,
{
    assert((a.mantissa as nat) * pow10((MAX_SCALE - a.scale) as nat) == 0) by (nonlinear_arith)
        requires
            a.mantissa == 0,
    ;
}

/// In normal form, the only way two amounts sum to zero is field-wise:
/// equal mantissa and scale, and opposite signs unless both are zero.
proof fn lemma_zero_sum_structure(a: Amount, b: Amount)
    requires
        a.wf(),
        b.wf(),
        a.units() + b.units() == 0,
    ensures
        a.mantissa == b.mantissa,
        a.scale == b.scale,
        a.mantissa == 0 || a.negative != b.negative,
{
    broadcast use lemma_pow10_pos;

    let ea = (MAX_SCALE - a.scale) as nat;
    let eb = (MAX_SCALE - b.scale) as nat;
    let ma = a.mantissa as nat;
    let mb = b.mantissa as nat;
    if ma == 0 {
        lemma_zero_mantissa_zero_units(a);
        assert(mb * pow10(eb) == 0);
        assert(mb == 0) by (nonlinear_arith)
            requires
                mb * pow10(eb) == 0,
                pow10(eb) >= 1,
        ;
    } else if mb == 0 {
        lemma_zero_mantissa_zero_units(b);
        assert(ma * pow10(ea) == 0);
        assert(ma == 0) by (nonlinear_arith)
            requires
                ma * pow10(ea) == 0,
                pow10(ea) >= 1,
        ;
    } else {
        assert(ma * pow10(ea) >= 1) by (nonlinear_arith)
            requires
                ma >= 1,
                pow10(ea) >= 1,
        ;
        assert(mb * pow10(eb) >= 1) by (nonlinear_arith)
            requires
                mb >= 1,
                pow10(eb) >= 1,
        ;
        // Opposite signs, else the sum cannot vanish.
        assert(a.negative != b.negative);
        // Equal magnitudes.
        assert(ma * pow10(ea) == mb * pow10(eb));
        lemma_equal_magnitude_same_form(a, b);
    }
}

/// Two non-zero normal-form magnitudes that are equal as integers have the
/// same mantissa and scale.
proof fn lemma_equal_magnitude_same_form(a: Amount, b: Amount)
    requires
        a.wf(),
        b.wf(),
        a.mantissa != 0,
        b.mantissa != 0,
        (a.mantissa as nat) * pow10((MAX_SCALE - a.scale) as nat) == (b.mantissa as nat) * pow10(
            (MAX_SCALE - b.scale) as nat,
        ),
    ensures
        a.mantissa == b.mantissa,
        a.scale == b.scale,
{
    broadcast use lemma_pow10_pos;

    if a.scale == b.scale {
        assert((pow10((MAX_SCALE - a.scale) as nat) as int) * (a.mantissa as int) == (a.mantissa
            as nat) * pow10((MAX_SCALE - a.scale) as nat)) by (nonlinear_arith);
        assert((pow10((MAX_SCALE - b.scale) as nat) as int) * (b.mantissa as int) == (b.mantissa
            as nat) * pow10((MAX_SCALE - b.scale) as nat)) by (nonlinear_arith);
        lemma_mul_equality_converse(
            pow10((MAX_SCALE - a.scale) as nat) as int,
            a.mantissa as int,
            b.mantissa as int,
        );
    } else if a.scale < b.scale {
        lemma_scale_gap_divisible(a, b);
        // b's mantissa would carry a factor of ten under a positive scale,
        // which its normal form rules out.
        assert(false);
    } else {
        lemma_scale_gap_divisible(b, a);
        assert(false);
    }
}

/// If the lower-scale side `lo` matches the magnitude of the higher-scale
/// side `hi`, then `hi`'s mantissa carries a factor of ten.
proof fn lemma_scale_gap_divisible(lo: Amount, hi: Amount)
    requires
        lo.scale < hi.scale,
        hi.scale <= MAX_SCALE,
        (lo.mantissa as nat) * pow10((MAX_SCALE - lo.scale) as nat) == (hi.mantissa as nat) * pow10(
            (MAX_SCALE - hi.scale) as nat,
        ),
    ensures
        hi.mantissa % 10 == 0,
{
    broadcast use lemma_pow10_pos;

    let gap = (hi.scale - lo.scale) as nat;
    let ehi = (MAX_SCALE - hi.scale) as nat;
    let mlo = lo.mantissa as nat;
    let mhi = hi.mantissa as nat;
    lemma_pow10_add(gap, ehi);
    assert((MAX_SCALE - lo.scale) as nat == gap + ehi);
    assert(mlo * (pow10(gap) * pow10(ehi)) == (mlo * pow10(gap)) * pow10(ehi))
        by (nonlinear_arith);
    assert((pow10(ehi) as int) * ((mlo * pow10(gap)) as int) == (mlo * pow10(gap)) * pow10(ehi))
        by (nonlinear_arith);
    assert((pow10(ehi) as int) * (mhi as int) == mhi * pow10(ehi)) by (nonlinear_arith);
    lemma_mul_equality_converse(
        pow10(ehi) as int,
        (mlo * pow10(gap)) as int,
        mhi as int,
    );
    // So mhi == mlo * 10^gap with gap >= 1: mhi is a multiple of ten.
    assert(mhi == mlo * pow10(gap));
    assert(pow10(gap) == 10 * pow10((gap - 1) as nat));
    assert(mlo * (10 * pow10((gap - 1) as nat)) == (mlo * pow10((gap - 1) as nat)) * 10)
        by (nonlinear_arith);
    lemma_mod_multiples_basic((mlo * pow10((gap - 1) as nat)) as int, 10);
    assert(mhi % 10 == 0);
}

} // verus!
