//! The arbitrary-precision real backend.
//!
//! An arbitrary-precision real is carried by `astro_float::BigFloat`, which is
//! opaque to the verifier. Its mathematical content is abstracted as a
//! [`FloatV`]: not-a-number, a signed infinity, or a finite dyadic number
//! `±(mant × 2^exp2)` together with the precision (significant bits of mantissa
//! storage) it was created with. A zero is a finite value with `mant == 0`,
//! whose `neg` flag is the sign bit. The spec function [`float_v`] names that
//! content; every trusted item below states what the backend call it relies on
//! does to it. Results of rounded arithmetic and of transcendental functions
//! are functions of their operands' content and the requested precision alone
//! (the rounding mode is fixed to nearest-ties-to-even throughout), so they are
//! given names (`add_v`, `exp_v`, ...) rather than restated.
//!
//! The contracts below describe the backend as it is built here, with 64-bit
//! mantissa words: precisions are stored rounded up to whole 64-bit words, and
//! a single word holds any 64-bit integer exactly. On a target with 32-bit
//! words several exactness clauses would not hold as stated.
//!
//! The backend reports a failed mantissa allocation as a not-a-number result;
//! as everywhere else in this crate, exhausting memory is treated as
//! unreachable, and the contracts describe the outcome when allocation
//! succeeds. The backend also refuses absurd precision requests; the working
//! precision is therefore clamped to [`MAX_WORK_PRECISION`] bits, far above any
//! practical setting, so that every precision the crate passes on is one the
//! backend accepts.

use vstd::prelude::*;

verus! {

/// Declares the backend's arbitrary-precision real so that it can stand in
/// signatures and fields; the verifier sees nothing inside a value of it.
#[verifier::external_type_specification]
#[verifier::external_body]
pub struct ExBigFloat(astro_float::BigFloat);

/// The largest precision, in bits, at which this crate asks the backend to
/// work. Requests above it are clamped down to it.
pub const MAX_WORK_PRECISION: usize = 0x0100_0000;

/// The baseline precision, in bits, used where no operand supplies one: enough
/// bits to hold the mantissa of a 64-bit machine float exactly. The backend
/// rounds it up to whole 64-bit words.
pub const DEFAULT_PRECISION: usize = 63;

/// The mathematical content of an arbitrary-precision real: not-a-number, a
/// signed infinity, or a finite dyadic number `±(mant × 2^exp2)` carrying the
/// precision `prec` (in bits, a whole number of 64-bit words) of its mantissa
/// storage. A zero is a finite value with `mant == 0`; its `neg` flag is the
/// sign bit, which numeric comparison ignores.
pub ghost enum FloatV {
    Nan,
    Infinite { neg: bool },
    Finite { prec: nat, neg: bool, mant: nat, exp2: int },
}

/// The content of a backend value.
pub uninterp spec fn float_v(f: astro_float::BigFloat) -> FloatV;

/// `2^e`.
pub open spec fn pow2(e: nat) -> nat
    decreases e,
{
    if e == 0 {
        1
    } else {
        2 * pow2((e - 1) as nat)
    }
}

/// A requested precision rounded up to whole 64-bit words, as the backend
/// stores it.
pub open spec fn word_prec(p: nat) -> nat {
    ((p + 63) / 64) * 64
}

/// The signed mantissa of a finite value.
pub open spec fn signed_mant(neg: bool, mant: nat) -> int {
    if neg {
        -(mant as int)
    } else {
        mant as int
    }
}

/// `m1 × 2^e1 < m2 × 2^e2`, by shifting both to the smaller exponent.
pub open spec fn dyadic_lt(m1: int, e1: int, m2: int, e2: int) -> bool {
    if e1 <= e2 {
        m1 < m2 * pow2((e2 - e1) as nat)
    } else {
        m1 * pow2((e1 - e2) as nat) < m2
    }
}

/// `m1 × 2^e1 == m2 × 2^e2`, by shifting both to the smaller exponent.
pub open spec fn dyadic_eq(m1: int, e1: int, m2: int, e2: int) -> bool {
    if e1 <= e2 {
        m1 == m2 * pow2((e2 - e1) as nat)
    } else {
        m1 * pow2((e1 - e2) as nat) == m2
    }
}

/// Numeric strict order. Not-a-number is unordered against everything; the two
/// zeros are numerically equal, whatever their sign bits; precision plays no
/// part.
pub open spec fn vlt(a: FloatV, b: FloatV) -> bool {
    match (a, b) {
        (FloatV::Nan, _) => false,
        (_, FloatV::Nan) => false,
        (FloatV::Infinite { neg: an }, FloatV::Infinite { neg: bn }) => an && !bn,
        (FloatV::Infinite { neg: an }, FloatV::Finite { .. }) => an,
        (FloatV::Finite { .. }, FloatV::Infinite { neg: bn }) => !bn,
        (
            FloatV::Finite { neg: an, mant: am, exp2: ae, .. },
            FloatV::Finite { neg: bn, mant: bm, exp2: be, .. },
        ) => dyadic_lt(signed_mant(an, am), ae, signed_mant(bn, bm), be),
    }
}

/// Numeric equality. Not-a-number is equal to nothing, not even itself; the two
/// zeros are equal; precision plays no part.
pub open spec fn veq(a: FloatV, b: FloatV) -> bool {
    match (a, b) {
        (FloatV::Nan, _) => false,
        (_, FloatV::Nan) => false,
        (FloatV::Infinite { neg: an }, FloatV::Infinite { neg: bn }) => an == bn,
        (FloatV::Infinite { .. }, FloatV::Finite { .. }) => false,
        (FloatV::Finite { .. }, FloatV::Infinite { .. }) => false,
        (
            FloatV::Finite { neg: an, mant: am, exp2: ae, .. },
            FloatV::Finite { neg: bn, mant: bm, exp2: be, .. },
        ) => dyadic_eq(signed_mant(an, am), ae, signed_mant(bn, bm), be),
    }
}

/// True of a zero of either sign.
pub open spec fn is_zero_v(v: FloatV) -> bool {
    match v {
        FloatV::Finite { mant, .. } => mant == 0,
        _ => false,
    }
}

/// The sign bit: set on negative values, on negative zero and on negative
/// infinity.
pub open spec fn sign_neg_v(v: FloatV) -> bool {
    match v {
        FloatV::Nan => false,
        FloatV::Infinite { neg } => neg,
        FloatV::Finite { neg, .. } => neg,
    }
}

/// The positive zero at the given (word-rounded) precision.
pub open spec fn pos_zero(prec: nat) -> FloatV {
    FloatV::Finite { prec, neg: false, mant: 0, exp2: 0 }
}

/// The exact content of an integer lifted to the given (word-rounded)
/// precision.
pub open spec fn from_int(prec: nat, x: int) -> FloatV {
    FloatV::Finite {
        prec,
        neg: x < 0,
        mant: (if x < 0 {
            -x
        } else {
            x
        }) as nat,
        exp2: 0,
    }
}

/// Negation: the sign flips, on zeros and infinities too; nothing is rounded.
pub open spec fn vneg(v: FloatV) -> FloatV {
    match v {
        FloatV::Nan => FloatV::Nan,
        FloatV::Infinite { neg } => FloatV::Infinite { neg: !neg },
        FloatV::Finite { prec, neg, mant, exp2 } => FloatV::Finite {
            prec,
            neg: !neg,
            mant,
            exp2,
        },
    }
}

/// Absolute value: the sign bit is cleared, on zeros and infinities too;
/// nothing is rounded.
pub open spec fn vabs(v: FloatV) -> FloatV {
    match v {
        FloatV::Nan => FloatV::Nan,
        FloatV::Infinite { .. } => FloatV::Infinite { neg: false },
        FloatV::Finite { prec, mant, exp2, .. } => FloatV::Finite {
            prec,
            neg: false,
            mant,
            exp2,
        },
    }
}

/// The precision a value reports, or the baseline where it reports none
/// (infinities and not-a-number carry no mantissa, and a zero may have been
/// built with an empty one).
pub open spec fn prec_or_default(v: FloatV) -> nat {
    match v {
        FloatV::Finite { prec, .. } => if prec == 0 {
            DEFAULT_PRECISION as nat
        } else {
            prec
        },
        _ => DEFAULT_PRECISION as nat,
    }
}

/// The working precision derived from a value: its own precision, clamped to
/// what the backend is always willing to accept.
pub open spec fn work_prec(v: FloatV) -> nat {
    if prec_or_default(v) <= MAX_WORK_PRECISION as nat {
        prec_or_default(v)
    } else {
        MAX_WORK_PRECISION as nat
    }
}

/// Word rounding of a precision in the working range: at least one word, still
/// within the working range, and idempotent.
pub proof fn lemma_word_prec(p: nat)
    requires
        1 <= p <= MAX_WORK_PRECISION as nat,
    ensures
        64 <= word_prec(p),
        word_prec(p) <= MAX_WORK_PRECISION as nat,
        word_prec(word_prec(p)) == word_prec(p),
{
    assert(1 <= (p + 63) / 64 && (p + 63) / 64 <= 0x0004_0000) by (nonlinear_arith)
        requires
            1 <= p <= 0x0100_0000,
    ;
    let k = (p + 63) / 64;
    assert(64 <= k * 64 && k * 64 <= 0x0100_0000) by (nonlinear_arith)
        requires
            1 <= k <= 0x0004_0000,
    ;
    assert((k * 64 + 63) / 64 == k) by (nonlinear_arith);
}

/// What the backend's addition returns at precision `p`.
pub uninterp spec fn add_v(a: FloatV, b: FloatV, p: nat) -> FloatV;

/// What the backend's subtraction returns at precision `p`.
pub uninterp spec fn sub_v(a: FloatV, b: FloatV, p: nat) -> FloatV;

/// What the backend's multiplication returns at precision `p`.
pub uninterp spec fn mul_v(a: FloatV, b: FloatV, p: nat) -> FloatV;

/// What the backend's division returns at precision `p`.
pub uninterp spec fn div_v(a: FloatV, b: FloatV, p: nat) -> FloatV;

/// What the backend's rounding to a lower precision returns.
pub uninterp spec fn set_prec_v(v: FloatV, p: nat) -> FloatV;

/// What the backend's power primitive (base raised to a real exponent) returns
/// at precision `p`.
pub uninterp spec fn pow_v(base: FloatV, exponent: FloatV, p: nat) -> FloatV;

/// What the backend's exponential returns at precision `p`.
pub uninterp spec fn exp_v(v: FloatV, p: nat) -> FloatV;

/// What the backend's natural logarithm returns at precision `p`.
pub uninterp spec fn ln_v(v: FloatV, p: nat) -> FloatV;

/// What the backend's sine returns at precision `p`.
pub uninterp spec fn sin_v(v: FloatV, p: nat) -> FloatV;

/// What the backend's cosine returns at precision `p`.
pub uninterp spec fn cos_v(v: FloatV, p: nat) -> FloatV;

/// What the backend's arctangent returns at precision `p`.
pub uninterp spec fn atan_v(v: FloatV, p: nat) -> FloatV;

/// What the backend returns for the constant pi at precision `p`.
pub uninterp spec fn pi_v(p: nat) -> FloatV;

/// Relies on `astro_float::BigFloat::new`: a fresh value equal to positive
/// zero, with the precision rounded up to whole words.
#[verifier::external_body]
pub(crate) fn float_zero(p: usize) -> (r: astro_float::BigFloat)
    ensures
        1 <= p <= MAX_WORK_PRECISION ==> float_v(r) == pos_zero(word_prec(p as nat)),
{
    astro_float::BigFloat::new(p)
}

/// Relies on `astro_float::BigFloat::from_word`: a 64-bit unsigned integer
/// lifted exactly, with the precision rounded up to whole words.
#[verifier::external_body]
pub(crate) fn float_from_word(d: u64, p: usize) -> (r: astro_float::BigFloat)
    ensures
        1 <= p <= MAX_WORK_PRECISION ==> float_v(r) == from_int(word_prec(p as nat), d as int),
{
    astro_float::BigFloat::from_word(d, p)
}

/// Relies on `astro_float::BigFloat::from_i32`: a 32-bit signed integer lifted
/// exactly, with the precision rounded up to whole words; the backend refuses
/// precisions under the integer's 32 bits.
#[verifier::external_body]
pub(crate) fn float_from_i32(x: i32, p: usize) -> (r: astro_float::BigFloat)
    ensures
        32 <= p <= MAX_WORK_PRECISION ==> float_v(r) == from_int(word_prec(p as nat), x as int),
{
    astro_float::BigFloat::from_i32(x, p)
}

/// Relies on `astro_float::BigFloat::from_i64`: a 64-bit signed integer lifted
/// exactly, with the precision rounded up to whole words; the backend refuses
/// precisions under the integer's 64 bits.
#[verifier::external_body]
pub(crate) fn float_from_i64(x: i64, p: usize) -> (r: astro_float::BigFloat)
    ensures
        64 <= p <= MAX_WORK_PRECISION ==> float_v(r) == from_int(word_prec(p as nat), x as int),
{
    astro_float::BigFloat::from_i64(x, p)
}

/// Relies on `astro_float::BigFloat::from_i128`: a 128-bit signed integer
/// lifted exactly, with the precision rounded up to whole words; the backend
/// refuses precisions under the integer's 128 bits.
#[verifier::external_body]
pub(crate) fn float_from_i128(x: i128, p: usize) -> (r: astro_float::BigFloat)
    ensures
        128 <= p <= MAX_WORK_PRECISION ==> float_v(r) == from_int(word_prec(p as nat), x as int),
{
    astro_float::BigFloat::from_i128(x, p)
}

/// Relies on `astro_float::BigFloat::set_precision`: the value rounded in place
/// to the nearest representable at precision `p`, word-rounded; exact wherever
/// the value already fits, so for every integer of at most 64 bits. The
/// precision range admitted here is one the backend accepts.
#[verifier::external_body]
pub(crate) fn float_with_precision(f: astro_float::BigFloat, p: usize) -> (r:
    astro_float::BigFloat)
    requires
        1 <= p <= MAX_WORK_PRECISION,
    ensures
        float_v(r) == set_prec_v(float_v(f), p as nat),
        float_v(r) matches FloatV::Finite { prec, .. } ==> prec == word_prec(p as nat),
        forall|n: int|
            (float_v(f) == #[trigger] from_int(128, n) && -0x8000_0000_0000_0000 <= n
                < 0x8000_0000_0000_0000) ==> float_v(r) == from_int(word_prec(p as nat), n),
{
    let mut x = f;
    x.set_precision(p, astro_float::RoundingMode::ToEven).expect("precision within range");
    x
}

/// Relies on `astro_float::BigFloat::mantissa_max_bit_len`: the precision of a
/// finite value's mantissa storage, a whole number of 64-bit words; nothing for
/// infinities and not-a-number. It can be zero: a zero built at a requested
/// precision of zero has an empty mantissa. Every existing mantissa was
/// allocated below the backend's precision ceiling, which is far under `2^62`
/// bits.
#[verifier::external_body]
pub(crate) fn float_prec(f: &astro_float::BigFloat) -> (r: Option<usize>)
    ensures
        (r is Some) <==> (float_v(*f) is Finite),
        r matches Some(p) ==> float_v(*f) matches FloatV::Finite { prec, .. } && p as nat == prec
            && (p as nat) < 0x4000_0000_0000_0000nat,
{
    f.mantissa_max_bit_len()
}

/// Relies on `astro_float::BigFloat::is_zero`: true exactly of the two zeros.
#[verifier::external_body]
pub(crate) fn float_is_zero(f: &astro_float::BigFloat) -> (r: bool)
    ensures
        r == is_zero_v(float_v(*f)),
{
    f.is_zero()
}

/// Relies on `astro_float::BigFloat::is_nan`.
#[verifier::external_body]
pub(crate) fn float_is_nan(f: &astro_float::BigFloat) -> (r: bool)
    ensures
        r == (float_v(*f) is Nan),
{
    f.is_nan()
}

/// Relies on `PartialEq` on `astro_float::BigFloat`: numeric equality, under
/// which the two zeros are equal and not-a-number is equal to nothing.
#[verifier::external_body]
pub(crate) fn float_eq(a: &astro_float::BigFloat, b: &astro_float::BigFloat) -> (r: bool)
    ensures
        r == veq(float_v(*a), float_v(*b)),
{
    a == b
}

/// Relies on `PartialOrd` on `astro_float::BigFloat`: numeric strict order,
/// false whenever either operand is not-a-number.
#[verifier::external_body]
pub(crate) fn float_lt(a: &astro_float::BigFloat, b: &astro_float::BigFloat) -> (r: bool)
    ensures
        r == vlt(float_v(*a), float_v(*b)),
{
    a < b
}

/// Relies on `Clone` on `astro_float::BigFloat`: an exact copy.
#[verifier::external_body]
pub(crate) fn float_clone(f: &astro_float::BigFloat) -> (r: astro_float::BigFloat)
    ensures
        float_v(r) == float_v(*f),
{
    f.clone()
}

/// Relies on `astro_float::BigFloat::neg`: the sign flipped, nothing rounded.
#[verifier::external_body]
pub(crate) fn float_neg(a: &astro_float::BigFloat) -> (r: astro_float::BigFloat)
    ensures
        float_v(r) == vneg(float_v(*a)),
{
    a.neg()
}

/// Relies on `astro_float::BigFloat::abs`: the sign cleared, nothing rounded.
#[verifier::external_body]
pub(crate) fn float_abs(a: &astro_float::BigFloat) -> (r: astro_float::BigFloat)
    ensures
        float_v(r) == vabs(float_v(*a)),
{
    a.abs()
}

/// Relies on `astro_float::BigFloat::add`, rounding to nearest at precision
/// `p`; a finite result carries the word-rounded precision `p`.
#[verifier::external_body]
pub(crate) fn float_add(
    a: &astro_float::BigFloat,
    b: &astro_float::BigFloat,
    p: usize,
) -> (r: astro_float::BigFloat)
    requires
        1 <= p <= MAX_WORK_PRECISION,
    ensures
        float_v(r) == add_v(float_v(*a), float_v(*b), p as nat),
        float_v(r) matches FloatV::Finite { prec, .. } ==> prec == word_prec(p as nat),
{
    a.add(b, p, astro_float::RoundingMode::ToEven)
}

/// Relies on `astro_float::BigFloat::sub`, rounding to nearest at precision
/// `p`; a finite result carries the word-rounded precision `p`.
#[verifier::external_body]
pub(crate) fn float_sub(
    a: &astro_float::BigFloat,
    b: &astro_float::BigFloat,
    p: usize,
) -> (r: astro_float::BigFloat)
    requires
        1 <= p <= MAX_WORK_PRECISION,
    ensures
        float_v(r) == sub_v(float_v(*a), float_v(*b), p as nat),
        float_v(r) matches FloatV::Finite { prec, .. } ==> prec == word_prec(p as nat),
{
    a.sub(b, p, astro_float::RoundingMode::ToEven)
}

/// Relies on `astro_float::BigFloat::mul`, rounding to nearest at precision
/// `p`; a finite result carries the word-rounded precision `p`.
#[verifier::external_body]
pub(crate) fn float_mul(
    a: &astro_float::BigFloat,
    b: &astro_float::BigFloat,
    p: usize,
) -> (r: astro_float::BigFloat)
    requires
        1 <= p <= MAX_WORK_PRECISION,
    ensures
        float_v(r) == mul_v(float_v(*a), float_v(*b), p as nat),
        float_v(r) matches FloatV::Finite { prec, .. } ==> prec == word_prec(p as nat),
{
    a.mul(b, p, astro_float::RoundingMode::ToEven)
}

/// Relies on `astro_float::BigFloat::div`, rounding to nearest at precision
/// `p`. For a finite divisor, a finite result carries the word-rounded
/// precision `p`; a finite dividend divided by an infinity short-circuits to a
/// positive zero at the dividend's own stored precision instead. Correct
/// rounding returns an exact quotient wherever it is representable: dividing an
/// odd integer of at most 34 bits by two gives exactly half of it.
#[verifier::external_body]
pub(crate) fn float_div(
    a: &astro_float::BigFloat,
    b: &astro_float::BigFloat,
    p: usize,
) -> (r: astro_float::BigFloat)
    requires
        1 <= p <= MAX_WORK_PRECISION,
    ensures
        float_v(r) == div_v(float_v(*a), float_v(*b), p as nat),
        float_v(*b) is Finite ==> (float_v(r) matches FloatV::Finite { prec, .. } ==> prec
            == word_prec(p as nat)),
        float_v(*a) matches FloatV::Finite { prec, .. } ==> (float_v(*b) is Infinite ==> float_v(r)
            == pos_zero(prec)),
        forall|n: int|
            (float_v(*a) == #[trigger] from_int(64, n) && n % 2 != 0 && -0x2_0000_0000 <= n
                <= 0x2_0000_0000 && float_v(*b) == from_int(64, 2)) ==> float_v(r) == (
            FloatV::Finite {
                prec: word_prec(p as nat),
                neg: n < 0,
                mant: (if n < 0 {
                    -n
                } else {
                    n
                }) as nat,
                exp2: -1,
            }),
{
    a.div(b, p, astro_float::RoundingMode::ToEven)
}

/// Relies on `astro_float::BigFloat::pow`: the base raised to a real exponent,
/// rounding to nearest at precision `p`.
#[verifier::external_body]
pub(crate) fn float_pow(
    base: &astro_float::BigFloat,
    exponent: &astro_float::BigFloat,
    p: usize,
) -> (r: astro_float::BigFloat)
    requires
        1 <= p <= MAX_WORK_PRECISION,
    ensures
        float_v(r) == pow_v(float_v(*base), float_v(*exponent), p as nat),
        float_v(r) matches FloatV::Finite { prec, .. } ==> prec == word_prec(p as nat),
{
    let mut cc = astro_float::Consts::new().expect("constants cache");
    base.pow(exponent, p, astro_float::RoundingMode::ToEven, &mut cc)
}

/// Relies on `astro_float::BigFloat::exp`, rounding to nearest at precision
/// `p`.
#[verifier::external_body]
pub(crate) fn float_exp(a: &astro_float::BigFloat, p: usize) -> (r: astro_float::BigFloat)
    requires
        1 <= p <= MAX_WORK_PRECISION,
    ensures
        float_v(r) == exp_v(float_v(*a), p as nat),
        float_v(r) matches FloatV::Finite { prec, .. } ==> prec == word_prec(p as nat),
{
    let mut cc = astro_float::Consts::new().expect("constants cache");
    a.exp(p, astro_float::RoundingMode::ToEven, &mut cc)
}

/// Relies on `astro_float::BigFloat::ln`, rounding to nearest at precision `p`.
#[verifier::external_body]
pub(crate) fn float_ln(a: &astro_float::BigFloat, p: usize) -> (r: astro_float::BigFloat)
    requires
        1 <= p <= MAX_WORK_PRECISION,
    ensures
        float_v(r) == ln_v(float_v(*a), p as nat),
        float_v(r) matches FloatV::Finite { prec, .. } ==> prec == word_prec(p as nat),
{
    let mut cc = astro_float::Consts::new().expect("constants cache");
    a.ln(p, astro_float::RoundingMode::ToEven, &mut cc)
}

/// Relies on `astro_float::BigFloat::sin`, rounding to nearest at precision
/// `p`.
#[verifier::external_body]
pub(crate) fn float_sin(a: &astro_float::BigFloat, p: usize) -> (r: astro_float::BigFloat)
    requires
        1 <= p <= MAX_WORK_PRECISION,
    ensures
        float_v(r) == sin_v(float_v(*a), p as nat),
        float_v(r) matches FloatV::Finite { prec, .. } ==> prec == word_prec(p as nat),
{
    let mut cc = astro_float::Consts::new().expect("constants cache");
    a.sin(p, astro_float::RoundingMode::ToEven, &mut cc)
}

/// Relies on `astro_float::BigFloat::cos`, rounding to nearest at precision
/// `p`.
#[verifier::external_body]
pub(crate) fn float_cos(a: &astro_float::BigFloat, p: usize) -> (r: astro_float::BigFloat)
    requires
        1 <= p <= MAX_WORK_PRECISION,
    ensures
        float_v(r) == cos_v(float_v(*a), p as nat),
        float_v(r) matches FloatV::Finite { prec, .. } ==> prec == word_prec(p as nat),
{
    let mut cc = astro_float::Consts::new().expect("constants cache");
    a.cos(p, astro_float::RoundingMode::ToEven, &mut cc)
}

/// Relies on `astro_float::BigFloat::atan`, rounding to nearest at precision
/// `p`.
#[verifier::external_body]
pub(crate) fn float_atan(a: &astro_float::BigFloat, p: usize) -> (r: astro_float::BigFloat)
    requires
        1 <= p <= MAX_WORK_PRECISION,
    ensures
        float_v(r) == atan_v(float_v(*a), p as nat),
        float_v(r) matches FloatV::Finite { prec, .. } ==> prec == word_prec(p as nat),
{
    let mut cc = astro_float::Consts::new().expect("constants cache");
    a.atan(p, astro_float::RoundingMode::ToEven, &mut cc)
}

/// Relies on `astro_float::Consts::pi`: the constant pi, rounding to nearest at
/// precision `p`.
#[verifier::external_body]
pub(crate) fn float_pi(p: usize) -> (r: astro_float::BigFloat)
    requires
        1 <= p <= MAX_WORK_PRECISION,
    ensures
        float_v(r) == pi_v(p as nat),
        float_v(r) matches FloatV::Finite { prec, .. } ==> prec == word_prec(p as nat),
{
    let mut cc = astro_float::Consts::new().expect("constants cache");
    cc.pi(p, astro_float::RoundingMode::ToEven)
}

} // verus!
