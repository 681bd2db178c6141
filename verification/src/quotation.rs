//! Fixed-point decimal quotation type: integer units plus a nano part,
//! representing `units + nano / 1e9` exactly.
//!
//! All arithmetic goes through a wide (128-bit) intermediate scaled by 1e9 and
//! is renormalized back into the units/nano form; division truncates toward
//! zero, as machine division does.
use vstd::prelude::*;
use vstd::arithmetic::div_mod::lemma_fundamental_div_mod;
use vstd::arithmetic::div_mod::lemma_fundamental_div_mod_converse;

verus! {

/// Scale factor between the units part and the nano part.
pub const DIVIDER: i128 = 1_000_000_000;

/// A price or quantity with nine fractional decimal digits of precision.
///
/// Invariant (see [`Quotation::wf`]): the nano part has magnitude below one
/// billion, and when the units part is nonzero the nano part is zero or has
/// the same sign.
#[derive(Clone, Copy, Debug, PartialEq, Eq, Structural)]
pub struct Quotation {
    pub units: i64,
    pub nano: i32,
}

/// Quotient of `a / b` truncated toward zero, the semantics of machine
/// integer division (Verus's own `/` on `int` is Euclidean).
pub open spec fn trunc_div(a: int, b: int) -> int {
    if a == 0 {
        0
    } else if a > 0 && b > 0 {
        a / b
    } else if a < 0 && b < 0 {
        (a * -1) / (b * -1)
    } else if a < 0 {
        ((a * -1) / b) * -1
    } else {
        (a / (b * -1)) * -1
    }
}

/// Remainder of `a / b` under truncation toward zero: it has the sign of `a`
/// (or is zero), matching machine `%`.
pub open spec fn trunc_rem(a: int, b: int) -> int {
    if a == 0 {
        0
    } else if a > 0 && b > 0 {
        a % b
    } else if a < 0 && b < 0 {
        ((a * -1) % (b * -1)) * -1
    } else if a < 0 {
        ((a * -1) % b) * -1
    } else {
        a % (b * -1)
    }
}

/// The defining properties of truncating division: the div/mod identity, the
/// remainder bound, and the sign and magnitude of quotient and remainder.
pub proof fn lemma_trunc_div_rem(a: int, b: int)
    requires
        b != 0,
    ensures
        a == b * trunc_div(a, b) + trunc_rem(a, b),
        -b < trunc_rem(a, b) < b || b < trunc_rem(a, b) < -b,
        a >= 0 ==> trunc_rem(a, b) >= 0,
        a <= 0 ==> trunc_rem(a, b) <= 0,
        a >= 0 ==> 0 <= b * trunc_div(a, b) <= a,
        a <= 0 ==> a <= b * trunc_div(a, b) <= 0,
{
    if a == 0 {
    } else if a > 0 && b > 0 {
        lemma_fundamental_div_mod(a, b);
        lemma_div_mul_bounds(a, b);
    } else if a < 0 && b < 0 {
        lemma_fundamental_div_mod(-a, -b);
        lemma_div_mul_bounds(-a, -b);
        assert((-b) * ((-a) / (-b)) == -(b * ((-a) / (-b)))) by (nonlinear_arith);
    } else if a < 0 {
        lemma_fundamental_div_mod(-a, b);
        lemma_div_mul_bounds(-a, b);
        assert(b * (((-a) / b) * -1) == -(b * ((-a) / b))) by (nonlinear_arith);
    } else {
        lemma_fundamental_div_mod(a, -b);
        lemma_div_mul_bounds(a, -b);
        assert(b * ((a / (-b)) * -1) == (-b) * (a / (-b))) by (nonlinear_arith);
    }
}

/// For nonnegative `a` and positive `b`, the Euclidean quotient times the
/// divisor stays within `[0, a]`.
proof fn lemma_div_mul_bounds(a: int, b: int)
    requires
        a >= 0,
        b > 0,
    ensures
        0 <= b * (a / b) <= a,
        a / b >= 0,
{
    lemma_fundamental_div_mod(a, b);
    if a / b < 0 {
        assert(b * (a / b) <= -b) by (nonlinear_arith)
            requires b > 0 && a / b <= -1;
    }
}

/// Truncating division is monotone in the dividend, for a positive divisor.
pub proof fn lemma_trunc_div_mono(a: int, c: int, b: int)
    requires
        b > 0,
        a <= c,
    ensures
        trunc_div(a, b) <= trunc_div(c, b),
{
    lemma_trunc_div_rem(a, b);
    lemma_trunc_div_rem(c, b);
    let qa = trunc_div(a, b);
    let qc = trunc_div(c, b);
    if qa > qc {
        assert(b * qa >= b * (qc + 1) == b * qc + b) by (nonlinear_arith)
            requires b > 0 && qa >= qc + 1;
    }
}

/// A quotient with a divisor of magnitude at least one is no larger in
/// magnitude than the dividend.
pub proof fn lemma_trunc_div_in_range(a: int, b: int)
    requires
        b != 0,
    ensures
        -a <= trunc_div(a, b) <= a || a <= trunc_div(a, b) <= -a,
{
    lemma_trunc_div_rem(a, b);
    let q = trunc_div(a, b);
    assert(-a <= q <= a || a <= q <= -a) by (nonlinear_arith)
        requires
            (b >= 1 || b <= -1) && a == b * q + trunc_rem(a, b)
            && (a >= 0 ==> trunc_rem(a, b) >= 0) && (a <= 0 ==> trunc_rem(a, b) <= 0)
            && (a >= 0 ==> 0 <= b * q <= a) && (a <= 0 ==> a <= b * q <= 0);
}

/// Dividing an exact multiple gives back the factor.
pub proof fn lemma_trunc_div_exact(k: int, b: int)
    requires
        b > 0,
    ensures
        trunc_div(k * b, b) == k,
        trunc_rem(k * b, b) == 0,
{
    if k == 0 {
        assert(k * b == 0) by (nonlinear_arith) requires k == 0;
    } else if k > 0 {
        assert(k * b > 0) by (nonlinear_arith) requires k > 0 && b > 0;
        lemma_fundamental_div_mod_converse(k * b, b, k, 0);
    } else {
        assert(k * b < 0) by (nonlinear_arith) requires k < 0 && b > 0;
        assert((k * b) * -1 == (k * -1) * b) by (nonlinear_arith);
        lemma_fundamental_div_mod_converse((k * -1) * b, b, k * -1, 0);
    }
}

impl Quotation {
    /// The exact value of this quotation, as an integer count of nanos.
    pub open spec fn to_scaled(self) -> int {
        self.units * 1_000_000_000 + self.nano
    }

    /// Well-formedness: normalized units/nano representation.
    pub open spec fn wf(self) -> bool {
        -1_000_000_000 < self.nano < 1_000_000_000
        && (self.units > 0 ==> self.nano >= 0)
        && (self.units < 0 ==> self.nano <= 0)
    }
}

/// The scaled value of the smallest well-formed quotation.
pub open spec fn min_scaled() -> int {
    i64::MIN * 1_000_000_000 - 999_999_999
}

/// The scaled value of the largest well-formed quotation.
pub open spec fn max_scaled() -> int {
    i64::MAX * 1_000_000_000 + 999_999_999
}

/// Widen a quotation to its exact scaled integer value.
pub fn from_quotation(q: Quotation) -> (n: i128)
    ensures
        n == q.to_scaled(),
{
    q.units as i128 * DIVIDER + q.nano as i128
}

/// Renormalize a scaled integer back into the units/nano form, truncating
/// the split toward zero so both parts carry the sign of the value.
pub fn to_quotation(n: i128) -> (q: Quotation)
    requires
        min_scaled() <= n <= max_scaled(),
    ensures
        q.wf(),
        q.to_scaled() == n,
        q.units == trunc_div(n as int, 1_000_000_000),
        q.nano == trunc_rem(n as int, 1_000_000_000),
{
    proof {
        lemma_trunc_div_rem(n as int, 1_000_000_000);
        lemma_trunc_div_mono(n as int, max_scaled(), 1_000_000_000);
        lemma_trunc_div_mono(min_scaled(), n as int, 1_000_000_000);
        lemma_fundamental_div_mod_converse(max_scaled(), 1_000_000_000, i64::MAX as int, 999_999_999);
        lemma_fundamental_div_mod_converse(
            max_scaled() * -1, 1_000_000_000, i64::MAX as int * -1 - 1, 1);
    }
    let units = n.checked_div(DIVIDER).unwrap();
    let nano = n.checked_rem(DIVIDER).unwrap();
    Quotation { units: units as i64, nano: nano as i32 }
}

impl Quotation {
    /// Exact sum of two quotations.
    pub fn add(self, rhs: Quotation) -> (r: Quotation)
        requires
            self.wf(),
            rhs.wf(),
            min_scaled() <= self.to_scaled() + rhs.to_scaled() <= max_scaled(),
        ensures
            r.wf(),
            r.to_scaled() == self.to_scaled() + rhs.to_scaled(),
    {
        let a = from_quotation(self);
        let b = from_quotation(rhs);
        to_quotation(a + b)
    }

    /// Exact difference of two quotations.
    pub fn sub(self, rhs: Quotation) -> (r: Quotation)
        requires
            self.wf(),
            rhs.wf(),
            min_scaled() <= self.to_scaled() - rhs.to_scaled() <= max_scaled(),
        ensures
            r.wf(),
            r.to_scaled() == self.to_scaled() - rhs.to_scaled(),
    {
        let a = from_quotation(self);
        let b = from_quotation(rhs);
        to_quotation(a - b)
    }

    /// Exact product with an integer scalar.
    pub fn mul_int(self, rhs: i128) -> (r: Quotation)
        requires
            self.wf(),
            min_scaled() <= self.to_scaled() * rhs <= max_scaled(),
        ensures
            r.wf(),
            r.to_scaled() == self.to_scaled() * rhs,
    {
        let a = from_quotation(self);
        to_quotation(a * rhs)
    }

    /// Product with another quotation: the wide product of the two scaled
    /// values, scaled back down by 1e9 with truncation toward zero.
    pub fn mul(self, rhs: Quotation) -> (r: Quotation)
        requires
            self.wf(),
            rhs.wf(),
            i128::MIN <= self.to_scaled() * rhs.to_scaled() <= i128::MAX,
            min_scaled() <= trunc_div(self.to_scaled() * rhs.to_scaled(), 1_000_000_000)
                <= max_scaled(),
        ensures
            r.wf(),
            r.to_scaled() == trunc_div(self.to_scaled() * rhs.to_scaled(), 1_000_000_000),
    {
        let a = from_quotation(self);
        let b = from_quotation(rhs);
        let wide = a * b;
        let scaled = wide.checked_div(DIVIDER).unwrap();
        to_quotation(scaled)
    }

    /// Quotient by an integer scalar, truncating toward zero.
    /// A zero scalar is an error, not a panic.
    pub fn div_int(self, rhs: i128) -> (r: Option<Quotation>)
        requires
            self.wf(),
            rhs != 0 ==> min_scaled() <= trunc_div(self.to_scaled(), rhs as int) <= max_scaled(),
        ensures
            rhs == 0 <==> r is None,
            rhs != 0 ==> {
                let q = r.unwrap();
                q.wf() && q.to_scaled() == trunc_div(self.to_scaled(), rhs as int)
            },
    {
        if rhs == 0 {
            return None;
        }
        let a = from_quotation(self);
        proof {
            lemma_trunc_div_in_range(a as int, rhs as int);
        }
        let scaled = a.checked_div(rhs).unwrap();
        Some(to_quotation(scaled))
    }

    /// Quotient by another quotation: both operands are scaled fixed-point
    /// numbers, so the wide dividend is rescaled by 1e9 before the division,
    /// which truncates toward zero. A zero divisor is an error, not a panic.
    pub fn div(self, rhs: Quotation) -> (r: Option<Quotation>)
        requires
            self.wf(),
            rhs.wf(),
            rhs.to_scaled() != 0 ==> min_scaled()
                <= trunc_div(self.to_scaled() * 1_000_000_000, rhs.to_scaled())
                <= max_scaled(),
        ensures
            rhs.to_scaled() == 0 <==> r is None,
            rhs.to_scaled() != 0 ==> {
                let q = r.unwrap();
                q.wf() && q.to_scaled()
                    == trunc_div(self.to_scaled() * 1_000_000_000, rhs.to_scaled())
            },
    {
        let a = from_quotation(self);
        let b = from_quotation(rhs);
        if b == 0 {
            return None;
        }
        let wide = a * DIVIDER;
        let scaled = wide.checked_div(b).unwrap();
        Some(to_quotation(scaled))
    }
}

/// A well-formed quotation is exactly the truncated split of its scaled
/// value: units and nano are recovered by dividing by 1e9 toward zero.
///
/// This is the round-trip law for the wide representation: widening a
/// well-formed quotation and renormalizing reproduces it unchanged.
pub proof fn lemma_wide_round_trip(q: Quotation)
    requires
        q.wf(),
    ensures
        trunc_div(q.to_scaled(), 1_000_000_000) == q.units,
        trunc_rem(q.to_scaled(), 1_000_000_000) == q.nano,
{
    let n = q.to_scaled();
    if n >= 0 {
        lemma_fundamental_div_mod_converse(n, 1_000_000_000, q.units as int, q.nano as int);
    } else {
        lemma_fundamental_div_mod_converse(
            n * -1, 1_000_000_000, q.units as int * -1, q.nano as int * -1);
    }
}

/// Scaled value of `s` quantized down to a whole multiple of `inc`: the
/// number of whole increments in `s`, counted toward zero, times the
/// increment.
pub open spec fn floor_scaled(s: int, inc: int) -> int {
    trunc_div(s, inc) * inc
}

/// Scaled value of `s` rounded to a multiple of `inc`: the quantized-down
/// value, plus one more increment when the discarded part is at least half
/// an increment (round-half-up on multiples of `inc`).
pub open spec fn round_scaled(s: int, inc: int) -> int {
    let f = floor_scaled(s, inc);
    if (s - f) * 2 >= inc {
        f + inc
    } else {
        f
    }
}

impl Quotation {
    /// Quantize down to the nearest multiple of `increment`: integer-divide
    /// by the increment, truncating any fractional increment, and multiply
    /// back.
    pub fn floor(&self, increment: Quotation) -> (r: Quotation)
        requires
            self.wf(),
            increment.wf(),
            increment.to_scaled() != 0,
        ensures
            r.wf(),
            r.to_scaled() == floor_scaled(self.to_scaled(), increment.to_scaled()),
    {
        let s = from_quotation(*self);
        let i = from_quotation(increment);
        proof {
            lemma_trunc_div_rem(s as int, i as int);
            lemma_trunc_div_in_range(s as int, i as int);
            assert(trunc_div(s as int, i as int) * (i as int)
                == (i as int) * trunc_div(s as int, i as int)) by (nonlinear_arith);
        }
        let whole = s.checked_div(i).unwrap();
        to_quotation(whole * i)
    }

    /// Round to the nearest multiple of `increment`, half upward: the
    /// quantized-down value, plus one more increment when the discarded
    /// part is at least half an increment.
    pub fn round(&self, increment: Quotation) -> (r: Quotation)
        requires
            self.wf(),
            increment.wf(),
            increment.to_scaled() != 0,
            min_scaled() <= round_scaled(self.to_scaled(), increment.to_scaled())
                <= max_scaled(),
        ensures
            r.wf(),
            r.to_scaled() == round_scaled(self.to_scaled(), increment.to_scaled()),
    {
        let f = self.floor(increment);
        let s = from_quotation(*self);
        let fs = from_quotation(f);
        let i = from_quotation(increment);
        if (s - fs) * 2 >= i {
            to_quotation(fs + i)
        } else {
            f
        }
    }
}

/// For a positive increment, the quantized value is the greatest multiple
/// of the increment not exceeding a nonnegative value — and, mirrored, the
/// least multiple not below a nonpositive one.
pub proof fn lemma_floor_bounds(s: int, inc: int)
    requires
        inc > 0,
    ensures
        s >= 0 ==> floor_scaled(s, inc) <= s < floor_scaled(s, inc) + inc,
        s <= 0 ==> floor_scaled(s, inc) - inc < s <= floor_scaled(s, inc),
{
    lemma_trunc_div_rem(s, inc);
    assert(trunc_div(s, inc) * inc == inc * trunc_div(s, inc)) by (nonlinear_arith);
}

/// A value that is an exact multiple of a positive increment is a fixed
/// point of quantization: both `floor` and `round` leave it unchanged.
pub proof fn lemma_quantize_multiple(k: int, inc: int)
    requires
        inc > 0,
    ensures
        floor_scaled(k * inc, inc) == k * inc,
        round_scaled(k * inc, inc) == k * inc,
{
    lemma_trunc_div_exact(k, inc);
}

impl Quotation {
    /// In-place sum; see [`Quotation::add`].
    pub fn add_assign(&mut self, rhs: Quotation)
        requires
            old(self).wf(),
            rhs.wf(),
            min_scaled() <= old(self).to_scaled() + rhs.to_scaled() <= max_scaled(),
        ensures
            final(self).wf(),
            final(self).to_scaled() == old(self).to_scaled() + rhs.to_scaled(),
    {
        *self = self.add(rhs);
    }

    /// In-place difference; see [`Quotation::sub`].
    pub fn sub_assign(&mut self, rhs: Quotation)
        requires
            old(self).wf(),
            rhs.wf(),
            min_scaled() <= old(self).to_scaled() - rhs.to_scaled() <= max_scaled(),
        ensures
            final(self).wf(),
            final(self).to_scaled() == old(self).to_scaled() - rhs.to_scaled(),
    {
        *self = self.sub(rhs);
    }

    /// In-place scalar product; see [`Quotation::mul_int`].
    pub fn mul_assign(&mut self, rhs: i128)
        requires
            old(self).wf(),
            min_scaled() <= old(self).to_scaled() * rhs <= max_scaled(),
        ensures
            final(self).wf(),
            final(self).to_scaled() == old(self).to_scaled() * rhs,
    {
        *self = self.mul_int(rhs);
    }

    /// In-place scalar quotient; see [`Quotation::div_int`]. A zero scalar
    /// leaves the value unchanged and reports the error.
    pub fn div_assign(&mut self, rhs: i128) -> (ok: bool)
        requires
            old(self).wf(),
            rhs != 0 ==> min_scaled() <= trunc_div(old(self).to_scaled(), rhs as int)
                <= max_scaled(),
        ensures
            final(self).wf(),
            ok <==> rhs != 0,
            rhs != 0 ==> final(self).to_scaled() == trunc_div(old(self).to_scaled(), rhs as int),
            rhs == 0 ==> *final(self) == *old(self),
    {
        match self.div_int(rhs) {
            Some(q) => {
                *self = q;
                true
            },
            None => false,
        }
    }
}

/// Exact sum of a sequence of scaled quotation values.
pub open spec fn sum_scaled(s: Seq<Quotation>) -> int
    decreases s.len(),
{
    if s.len() == 0 {
        0
    } else {
        sum_scaled(s.drop_last()) + s.last().to_scaled()
    }
}

impl Quotation {
    /// Exact sum of a list of quotations, through the wide intermediate.
    pub fn sum(items: &Vec<Quotation>) -> (r: Quotation)
        requires
            forall|i: int| 0 <= i < items@.len() ==> (#[trigger] items@[i]).wf(),
            items@.len() <= 1_000_000_000,
            min_scaled() <= sum_scaled(items@) <= max_scaled(),
        ensures
            r.wf(),
            r.to_scaled() == sum_scaled(items@),
    {
        let mut acc: i128 = 0;
        let mut k: usize = 0;
        while k < items.len()
            invariant
                0 <= k <= items@.len(),
                items@.len() <= 1_000_000_000,
                forall|i: int| 0 <= i < items@.len() ==> (#[trigger] items@[i]).wf(),
                acc == sum_scaled(items@.subrange(0, k as int)),
                -(k as int) * 10_000_000_000_000_000_000_000_000_000 <= acc
                    <= (k as int) * 10_000_000_000_000_000_000_000_000_000,
            decreases items@.len() - k,
        {
            let x = from_quotation(items[k]);
            proof {
                assert(items@.subrange(0, k as int + 1).drop_last() =~= items@.subrange(
                    0, k as int));
            }
            acc = acc + x;
            k = k + 1;
        }
        proof {
            assert(items@.subrange(0, items@.len() as int) =~= items@);
        }
        to_quotation(acc)
    }
}

/// Powers of ten, for decimal exponents.
pub open spec fn pow10(e: nat) -> int
    decreases e,
{
    if e == 0 {
        1
    } else {
        10 * pow10((e - 1) as nat)
    }
}

/// Powers of ten are positive.
proof fn lemma_pow10_pos(e: nat)
    ensures
        pow10(e) > 0,
    decreases e,
{
    if e > 0 {
        lemma_pow10_pos((e - 1) as nat);
    }
}

/// Powers of ten grow monotonically.
proof fn lemma_pow10_le(a: nat, b: nat)
    requires
        a <= b,
    ensures
        0 < pow10(a) <= pow10(b),
    decreases b,
{
    lemma_pow10_pos(a);
    if a < b {
        lemma_pow10_le(a, (b - 1) as nat);
    }
}

/// A quotation from a decimal mantissa and exponent: `m * 10^(-e)`.
pub fn q(m: i128, e: u32) -> (r: Quotation)
    requires
        e <= 38,
        i128::MIN <= m * 1_000_000_000 <= i128::MAX,
        min_scaled() <= trunc_div(m * 1_000_000_000, pow10(e as nat)) <= max_scaled(),
    ensures
        r.wf(),
        r.to_scaled() == trunc_div(m * 1_000_000_000, pow10(e as nat)),
{
    let mut p: i128 = 1;
    let mut k: u32 = 0;
    while k < e
        invariant
            0 <= k <= e <= 38,
            p == pow10(k as nat),
            1 <= p,
        decreases e - k,
    {
        proof {
            lemma_pow10_le(k as nat, 37);
            assert(pow10(37) == 10_000_000_000_000_000_000_000_000_000_000_000_000) by {
                reveal_with_fuel(pow10, 40);
            }
        }
        p = p * 10;
        k = k + 1;
    }
    let wide = m * DIVIDER;
    let scaled = wide.checked_div(p).unwrap();
    to_quotation(scaled)
}

/// Collapse a price to integer hundredths: the units in cents plus the
/// whole cents contained in the nano part.
pub fn convert_price(q: Quotation) -> (r: i64)
    requires
        i64::MIN <= q.units * 100 <= i64::MAX,
        i64::MIN <= q.units * 100 + trunc_div(q.nano as int, 10_000_000) <= i64::MAX,
    ensures
        r == q.units * 100 + trunc_div(q.nano as int, 10_000_000),
{
    proof { lemma_trunc_div_in_range(q.nano as int, 10_000_000); }
    let cents = q.nano.checked_div(10_000_000).unwrap();
    q.units * 100 + cents as i64
}

/// An amount of money: a quotation-shaped value tagged with a currency code.
#[derive(Clone, Debug)]
pub struct MoneyValue {
    pub units: i64,
    pub nano: i32,
    pub currency: String,
}

impl From<MoneyValue> for Quotation {
    fn from(value: MoneyValue) -> (r: Quotation) {
        Quotation { units: value.units, nano: value.nano }
    }
}

impl vstd::std_specs::convert::FromSpecImpl<MoneyValue> for Quotation {
    open spec fn obeys_from_spec() -> bool {
        true
    }

    open spec fn from_spec(m: MoneyValue) -> Quotation {
        Quotation { units: m.units, nano: m.nano }
    }
}

/// Quantization interface for price-like values.
pub trait QuotationExt: Sized {
    /// Quantize down to a multiple of `increment`; on inputs outside the
    /// quantizable range, the value is returned unchanged.
    fn floor(&self, increment: Quotation) -> Self;

    /// Round to a multiple of `increment`, half upward; on inputs outside
    /// the quantizable range, the value is returned unchanged.
    fn round(&self, increment: Quotation) -> Self;
}

impl QuotationExt for Quotation {
    fn floor(&self, increment: Quotation) -> (r: Quotation)
        ensures
            increment.to_scaled() != 0 && min_scaled() <= floor_scaled(
                self.to_scaled(), increment.to_scaled()) <= max_scaled()
                ==> r.to_scaled() == floor_scaled(self.to_scaled(), increment.to_scaled()),
    {
        let s = from_quotation(*self);
        let i = from_quotation(increment);
        if i == 0 {
            return *self;
        }
        proof {
            lemma_trunc_div_rem(s as int, i as int);
            lemma_trunc_div_in_range(s as int, i as int);
            assert(trunc_div(s as int, i as int) * (i as int)
                == (i as int) * trunc_div(s as int, i as int)) by (nonlinear_arith);
        }
        let whole = s.checked_div(i).unwrap();
        let x = whole * i;
        if i64::MIN as i128 * DIVIDER - 999_999_999 <= x
            && x <= i64::MAX as i128 * DIVIDER + 999_999_999 {
            to_quotation(x)
        } else {
            *self
        }
    }

    fn round(&self, increment: Quotation) -> (r: Quotation)
        ensures
            increment.to_scaled() != 0 && min_scaled() <= floor_scaled(
                self.to_scaled(), increment.to_scaled()) <= max_scaled()
                && min_scaled() <= round_scaled(self.to_scaled(), increment.to_scaled())
                <= max_scaled()
                ==> r.to_scaled() == round_scaled(self.to_scaled(), increment.to_scaled()),
    {
        let f = QuotationExt::floor(self, increment);
        let s = from_quotation(*self);
        let fs = from_quotation(f);
        let i = from_quotation(increment);
        if i != 0 && (s - fs) * 2 >= i {
            let x = fs + i;
            if i64::MIN as i128 * DIVIDER - 999_999_999 <= x
                && x <= i64::MAX as i128 * DIVIDER + 999_999_999 {
                to_quotation(x)
            } else {
                f
            }
        } else {
            f
        }
    }
}

} // verus!

