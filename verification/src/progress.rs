//! Exact fractions between zero and one.
//!
//! Every visibility and progress value of the animation is a ratio of two
//! frame counts. They are kept as that ratio, so that comparisons and
//! scalings are exact and callers decide how to round.

use vstd::prelude::*;

verus! {

/// A fraction `num / den`. It is well formed when `0 < den` and `num <= den`,
/// that is when it denotes a value from zero to one.
#[derive(Clone, Copy, Debug, PartialEq, Eq, Structural)]
pub struct Progress {
    pub num: u64,
    pub den: u64,
}

impl Progress {
    pub open spec fn wf(self) -> bool {
        0 < self.den && self.num <= self.den
    }

    pub open spec fn zero_spec() -> Progress {
        Progress { num: 0, den: 1 }
    }

    pub open spec fn one_spec() -> Progress {
        Progress { num: 1, den: 1 }
    }

    /// The fraction denotes zero.
    pub open spec fn is_zero_spec(&self) -> bool {
        self.num == 0
    }

    /// The fraction denotes one.
    pub open spec fn is_one_spec(&self) -> bool {
        self.num == self.den
    }

    /// `self <= other` as fractions.
    pub open spec fn le(self, other: Progress) -> bool {
        self.num * other.den <= other.num * self.den
    }

    /// `self > num / den` as fractions.
    pub open spec fn exceeds_spec(&self, num: u64, den: u64) -> bool {
        self.num * den > num * self.den
    }

    /// `span` scaled by the fraction, rounded down.
    pub open spec fn scale_spec(self, span: u16) -> int {
        (span * self.num) / (self.den as int)
    }

    pub fn zero() -> (r: Progress)
        ensures
            r == Progress::zero_spec(),
    {
        Progress { num: 0, den: 1 }
    }

    pub fn one() -> (r: Progress)
        ensures
            r == Progress::one_spec(),
    {
        Progress { num: 1, den: 1 }
    }

    #[verifier::when_used_as_spec(is_zero_spec)]
    pub fn is_zero(&self) -> (r: bool)
        ensures
            r == self.is_zero_spec(),
    {
        self.num == 0
    }

    #[verifier::when_used_as_spec(is_one_spec)]
    pub fn is_one(&self) -> (r: bool)
        ensures
            r == self.is_one_spec(),
    {
        self.num == self.den
    }

    /// Compares two fractions by cross-multiplication.
    pub fn at_most(&self, other: &Progress) -> (r: bool)
        ensures
            r == self.le(*other),
    {
        let lhs: u128 = wide_product(self.num, other.den);
        let rhs: u128 = wide_product(other.num, self.den);
        lhs <= rhs
    }

    /// Whether the fraction is strictly greater than `num / den`.
    #[verifier::when_used_as_spec(exceeds_spec)]
    pub fn exceeds(&self, num: u64, den: u64) -> (r: bool)
        ensures
            r == self.exceeds_spec(num, den),
    {
        let lhs: u128 = wide_product(self.num, den);
        let rhs: u128 = wide_product(num, self.den);
        lhs > rhs
    }

    /// Scales `span` by the fraction and rounds down: the number of cells,
    /// rows or characters out of `span` that the fraction has reached.
    pub fn scale(&self, span: u16) -> (r: u16)
        requires
            self.wf(),
        ensures
            r == self.scale_spec(span),
            r <= span,
            self.is_zero() ==> r == 0,
            self.is_one() ==> r == span,
    {
        let product: u128 = wide_product(span as u64, self.num);
        let den: u128 = self.den as u128;
        let q: u128 = product / den;
        proof {
            lemma_scaled_bounds(span as int, self.num as int, self.den as int);
        }
        q as u16
    }
}

/// The product of two 64-bit numbers, which always fits in 128 bits.
fn wide_product(a: u64, b: u64) -> (r: u128)
    ensures
        r == a * b,
{
    assert(a * b <= u128::MAX) by (nonlinear_arith)
        requires
            a <= u64::MAX,
            b <= u64::MAX,
    ;
    (a as u128) * (b as u128)
}

/// Scaling by a fraction of at most one never leaves the span, and the two
/// ends of the range are hit exactly.
pub proof fn lemma_scaled_bounds(span: int, num: int, den: int)
    requires
        0 <= span,
        0 <= num <= den,
        0 < den,
    ensures
        0 <= (span * num) / den <= span,
        num == 0 ==> (span * num) / den == 0,
        num == den ==> (span * num) / den == span,
{
    assert(0 <= span * num <= span * den) by (nonlinear_arith)
        requires
            0 <= span,
            0 <= num <= den,
    ;
    assert(0 <= (span * num) / den <= span) by (nonlinear_arith)
        requires
            0 <= span * num <= span * den,
            0 < den,
    ;
    if num == 0 {
        assert(span * num == 0) by (nonlinear_arith)
            requires
                num == 0,
        ;
    }
    if num == den {
        assert((span * den) / den == span) by (nonlinear_arith)
            requires
                0 < den,
        ;
    }
}

/// The order of fractions is transitive.
pub proof fn lemma_le_transitive(a: Progress, b: Progress, c: Progress)
    requires
        a.wf(),
        b.wf(),
        c.wf(),
        a.le(b),
        b.le(c),
    ensures
        a.le(c),
{
    let an: int = a.num as int;
    let ad: int = a.den as int;
    let bn: int = b.num as int;
    let bd: int = b.den as int;
    let cn: int = c.num as int;
    let cd: int = c.den as int;
    assert(an * cd <= cn * ad) by (nonlinear_arith)
        requires
            an * bd <= bn * ad,
            bn * cd <= cn * bd,
            0 < ad,
            0 < bd,
            0 < cd,
            0 <= an,
            0 <= bn,
            0 <= cn,
    ;
}

/// The ordering of fractions is monotone under scaling.
pub proof fn lemma_scale_monotone(a: Progress, b: Progress, span: u16)
    requires
        a.wf(),
        b.wf(),
        a.le(b),
    ensures
        a.scale_spec(span) <= b.scale_spec(span),
{
    let s: int = span as int;
    let an: int = a.num as int;
    let ad: int = a.den as int;
    let bn: int = b.num as int;
    let bd: int = b.den as int;
    let qa: int = (s * an) / ad;
    let qb: int = (s * bn) / bd;
    // qa * ad <= s * an, and s * bn < (qb + 1) * bd.
    assert(qa * ad <= s * an) by (nonlinear_arith)
        requires
            qa == (s * an) / ad,
            0 < ad,
            0 <= s * an,
    ;
    assert(0 <= s * an && 0 <= s * bn) by (nonlinear_arith)
        requires
            0 <= s,
            0 <= an,
            0 <= bn,
    ;
    assert(s * bn < (qb + 1) * bd) by (nonlinear_arith)
        requires
            qb == (s * bn) / bd,
            0 < bd,
            0 <= s * bn,
    ;
    // Cross-multiplying: qa * ad * bd <= s * an * bd <= s * bn * ad < (qb + 1) * bd * ad.
    assert(qa < qb + 1) by (nonlinear_arith)
        requires
            qa * ad <= s * an,
            s * bn < (qb + 1) * bd,
            an * bd <= bn * ad,
            0 < ad,
            0 < bd,
            0 <= s,
    ;
}

} // verus!
