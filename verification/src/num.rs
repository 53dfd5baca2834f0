//! The tagged numeric value and its generalized power operator.
//!
//! A [`KalkNum`] carries an arbitrary-precision real component, an imaginary
//! component, a unit tag (an empty string means unitless) and an optional
//! boolean flag; when the flag is set the value stands for a logical result and
//! the numeric components carry no meaning. Values are immutable once built:
//! every operation returns a new value.
//!
//! The power operator chooses between a real path, which delegates to the
//! backend's power primitive, and a complex path, which converts the base to
//! polar form and applies the complex generalization of de Moivre's formula.
//! All intermediate work happens at the precision carried by the base's real
//! component.

use vstd::prelude::*;

use crate::bigfloat::{
    add_v, atan_v, cos_v, div_v, exp_v, float_abs, float_add, float_atan, float_clone, float_cos,
    float_div, float_eq, float_exp, float_from_i128, float_from_i32, float_from_i64,
    float_from_word,
    float_is_nan, float_is_zero, float_lt, float_ln, float_mul, float_neg, float_pi, float_pow, float_prec,
    float_sin, float_sub, float_v, float_with_precision, float_zero, from_int, is_zero_v,
    lemma_word_prec, ln_v, mul_v, pi_v, pos_zero, pow_v, set_prec_v, sign_neg_v, sin_v, sub_v,
    vabs, veq, vlt, vneg, word_prec, work_prec, FloatV, DEFAULT_PRECISION, MAX_WORK_PRECISION,
};

verus! {

/// The mathematical content of a tagged numeric value: the contents of its real
/// and imaginary components, its unit as a character sequence, and its boolean
/// flag.
pub ghost struct KalkNumV {
    pub re: FloatV,
    pub im: FloatV,
    pub unit: Seq<char>,
    pub boolean: Option<bool>,
}

/// A tagged numeric value: an arbitrary-precision real component, an imaginary
/// component at the same precision, a unit tag, and an optional boolean flag.
#[derive(Debug)]
pub struct KalkNum {
    pub(crate) value: astro_float::BigFloat,
    pub(crate) unit: String,
    pub(crate) imaginary_value: astro_float::BigFloat,
    pub(crate) boolean_value: Option<bool>,
}

impl View for KalkNum {
    type V = KalkNumV;

    closed spec fn view(&self) -> KalkNumV {
        KalkNumV {
            re: float_v(self.value),
            im: float_v(self.imaginary_value),
            unit: self.unit@,
            boolean: self.boolean_value,
        }
    }
}

/// The content of a purely real value: the imaginary component is a fresh
/// positive zero at the real component's working precision.
pub open spec fn new_v(value: FloatV, unit: Seq<char>) -> KalkNumV {
    KalkNumV {
        re: value,
        im: pos_zero(word_prec(work_prec(value))),
        unit,
        boolean: None,
    }
}

/// A caller-supplied imaginary component that is a zero of either sign is
/// stored as the positive zero; anything else is stored unchanged.
pub open spec fn normalize_imaginary(im: FloatV) -> FloatV {
    if is_zero_v(im) {
        vabs(im)
    } else {
        im
    }
}

/// The content of a complex value built from caller-supplied components.
pub open spec fn new_with_imaginary_v(value: FloatV, unit: Seq<char>, im: FloatV) -> KalkNumV {
    KalkNumV { re: value, im: normalize_imaginary(im), unit, boolean: None }
}

/// The content of a purely imaginary value: the real component is a fresh
/// positive zero at the imaginary component's working precision, the imaginary
/// component is the given value with a negative zero normalized to the positive
/// one, and the unit is empty.
pub open spec fn from_imaginary_v(value: FloatV) -> KalkNumV {
    KalkNumV {
        re: pos_zero(word_prec(work_prec(value))),
        im: normalize_imaginary(value),
        unit: Seq::empty(),
        boolean: None,
    }
}

/// The content of a logical value: both numeric components are positive zeros
/// at the baseline precision and carry no meaning.
pub open spec fn from_bool_v(value: bool) -> KalkNumV {
    KalkNumV {
        re: pos_zero(word_prec(DEFAULT_PRECISION as nat)),
        im: pos_zero(word_prec(DEFAULT_PRECISION as nat)),
        unit: Seq::empty(),
        boolean: Some(value),
    }
}

/// The midpoint between the integers `f` and `f + 1`: the dyadic `(2f+1)/2`.
pub open spec fn midpoint_v(f: int) -> FloatV {
    FloatV::Finite {
        prec: 64,
        neg: 2 * f + 1 < 0,
        mant: (if 2 * f + 1 < 0 {
            -(2 * f + 1)
        } else {
            2 * f + 1
        }) as nat,
        exp2: -1,
    }
}

/// Rounding to the nearest integer, given the floor `f` of a value: the side of
/// the midpoint between `f` and `f + 1` decides, and a value on the midpoint
/// goes to the even neighbour.
pub open spec fn round_half_even(v: FloatV, f: int) -> int {
    if vlt(midpoint_v(f), v) {
        f + 1
    } else if vlt(v, midpoint_v(f)) {
        f
    } else if f % 2 == 0 {
        f
    } else {
        f + 1
    }
}

/// Saturation of an integer into the 32-bit signed range.
pub open spec fn clamp_i32(n: int) -> int {
    if n > i32::MAX as int {
        i32::MAX as int
    } else if n < i32::MIN as int {
        i32::MIN as int
    } else {
        n
    }
}

/// Structural equality of contents: numerically equal components (so the two
/// zeros agree and not-a-number never compares equal), the same unit, and the
/// same boolean flag.
pub open spec fn kalk_eq_v(a: KalkNumV, b: KalkNumV) -> bool {
    veq(a.re, b.re) && veq(a.im, b.im) && a.unit == b.unit && a.boolean == b.boolean
}

/// The principal argument (phase angle) of the point `(a, b)`, computed at
/// precision `p` with arctangent semantics: `atan(b/a)`, shifted by pi when the
/// real part is negative, and a quarter turn of the right sign when the real
/// part is zero.
pub open spec fn arg_v(a: FloatV, b: FloatV, p: nat) -> FloatV {
    if is_zero_v(a) {
        if is_zero_v(b) {
            pos_zero(word_prec(p))
        } else {
            let half_pi = div_v(pi_v(p), from_int(64, 2), p);
            if vlt(b, pos_zero(64)) {
                vneg(half_pi)
            } else {
                half_pi
            }
        }
    } else {
        let quot = atan_v(div_v(b, a, p), p);
        if vlt(a, pos_zero(64)) {
            if vlt(b, pos_zero(64)) {
                sub_v(quot, pi_v(p), p)
            } else {
                add_v(quot, pi_v(p), p)
            }
        } else {
            quot
        }
    }
}

/// The power operator takes the complex path when the base or the exponent has
/// a non-zero imaginary component, or when the base's real part is negative and
/// the exponent's real part is below one (where real exponentiation is
/// undefined or would pick the wrong branch).
pub open spec fn complex_path_v(base: KalkNumV, exponent: KalkNumV) -> bool {
    !is_zero_v(base.im) || !is_zero_v(exponent.im) || (vlt(base.re, pos_zero(64)) && vlt(
        exponent.re,
        from_int(64, 1),
    ))
}

/// The complex generalization of de Moivre's formula for `(a + bi)^(c + di)`,
/// at the working precision `p` of the base's real component: with `arg` the
/// base's principal argument and `r2 = a² + b²` its squared magnitude, the
/// result's magnitude is `r2^(c/2) · exp(-d·arg)`, its phase is
/// `c·arg + (d/2)·ln(r2)`, and the unit is the exponent's.
pub open spec fn pow_complex_v(base: KalkNumV, exponent: KalkNumV) -> KalkNumV {
    let p = work_prec(base.re);
    let a = base.re;
    let b = base.im;
    let c = exponent.re;
    let d = exponent.im;
    let arg = arg_v(a, b, p);
    let raised = add_v(mul_v(a, a, p), mul_v(b, b, p), p);
    let two = from_int(64, 2);
    let magnitude = mul_v(
        pow_v(raised, div_v(c, two, p), p),
        exp_v(mul_v(vneg(d), arg, p), p),
        p,
    );
    let polar = add_v(mul_v(c, arg, p), mul_v(div_v(d, two, p), ln_v(raised, p), p), p);
    new_with_imaginary_v(
        mul_v(cos_v(polar, p), magnitude, p),
        exponent.unit,
        mul_v(sin_v(polar, p), magnitude, p),
    )
}

/// The full power operator: the complex path where [`complex_path_v`] demands
/// it, otherwise the backend's real power primitive at the base's working
/// precision; either way the result carries the exponent's unit.
pub open spec fn pow_without_unit_v(base: KalkNumV, exponent: KalkNumV) -> KalkNumV {
    if complex_path_v(base, exponent) {
        pow_complex_v(base, exponent)
    } else {
        new_v(pow_v(base.re, exponent.re, work_prec(base.re)), exponent.unit)
    }
}

/// The working precision derived from a backend value: its own precision where
/// it has one, the baseline otherwise, clamped to what the backend always
/// accepts.
fn work_precision_of(f: &astro_float::BigFloat) -> (p: usize)
    ensures
        p as nat == work_prec(float_v(*f)),
        1 <= p <= MAX_WORK_PRECISION,
{
    let q = match float_prec(f) {
        Some(q) => if q == 0 {
            DEFAULT_PRECISION
        } else {
            q
        },
        None => DEFAULT_PRECISION,
    };
    if q > MAX_WORK_PRECISION {
        MAX_WORK_PRECISION
    } else {
        q
    }
}

/// The principal argument of the point `(a, b)` at precision `p`; the phase
/// collaborator consumed by the complex power path.
fn arg_angle(a: &astro_float::BigFloat, b: &astro_float::BigFloat, p: usize) -> (r:
    astro_float::BigFloat)
    requires
        1 <= p <= MAX_WORK_PRECISION,
    ensures
        float_v(r) == arg_v(float_v(*a), float_v(*b), p as nat),
{
    let zero = float_zero(1);
    if float_is_zero(a) {
        if float_is_zero(b) {
            float_zero(p)
        } else {
            let two = float_from_word(2, 1);
            let half_pi = float_div(&float_pi(p), &two, p);
            if float_lt(b, &zero) {
                float_neg(&half_pi)
            } else {
                half_pi
            }
        }
    } else {
        let quot = float_atan(&float_div(b, a, p), p);
        if float_lt(a, &zero) {
            if float_lt(b, &zero) {
                float_sub(&quot, &float_pi(p), p)
            } else {
                float_add(&quot, &float_pi(p), p)
            }
        } else {
            quot
        }
    }
}

impl KalkNum {
    /// Builds a purely real value: the imaginary component is a fresh positive
    /// zero at the same precision as `value`.
    pub fn new(value: astro_float::BigFloat, unit: &str) -> (r: KalkNum)
        ensures
            r@ == new_v(float_v(value), unit@),
    {
        let p = work_precision_of(&value);
        let imaginary_value = float_zero(p);
        KalkNum { value, unit: unit.to_string(), imaginary_value, boolean_value: None }
    }

    /// Builds a complex value from caller-supplied components; an imaginary
    /// component equal to a zero of either sign is stored as the positive
    /// zero, so a negative zero never leaks into comparison or display.
    pub fn new_with_imaginary(
        value: astro_float::BigFloat,
        unit: &str,
        imaginary_value: astro_float::BigFloat,
    ) -> (r: KalkNum)
        ensures
            r@ == new_with_imaginary_v(float_v(value), unit@, float_v(imaginary_value)),
            is_zero_v(float_v(imaginary_value)) ==> !sign_neg_v(r@.im),
    {
        let im = if float_is_zero(&imaginary_value) {
            float_abs(&imaginary_value)
        } else {
            imaginary_value
        };
        KalkNum { value, unit: unit.to_string(), imaginary_value: im, boolean_value: None }
    }

    /// Builds a purely imaginary value: the real component is a fresh positive
    /// zero at the same precision as `value`, the unit is empty, and an
    /// imaginary component equal to a zero of either sign is stored as the
    /// positive zero, as at every construction site that accepts one.
    pub fn from_imaginary(value: astro_float::BigFloat) -> (r: KalkNum)
        ensures
            r@ == from_imaginary_v(float_v(value)),
            is_zero_v(float_v(value)) ==> !sign_neg_v(r@.im),
    {
        let p = work_precision_of(&value);
        let im = if float_is_zero(&value) {
            float_abs(&value)
        } else {
            value
        };
        KalkNum {
            value: float_zero(p),
            unit: String::new(),
            imaginary_value: im,
            boolean_value: None,
        }
    }

    /// Builds a logical value at the baseline precision; the numeric components
    /// are zeros and carry no meaning.
    pub fn from_bool(value: bool) -> (r: KalkNum)
        ensures
            r@ == from_bool_v(value),
    {
        KalkNum {
            value: float_zero(DEFAULT_PRECISION),
            unit: String::new(),
            imaginary_value: float_zero(DEFAULT_PRECISION),
            boolean_value: Some(value),
        }
    }

    /// The unit tag; an empty string means unitless.
    pub fn get_unit(&self) -> (r: &str)
        ensures
            r@ == self@.unit,
    {
        self.unit.as_str()
    }

    /// True exactly when the imaginary component is non-zero (so for a
    /// not-a-number imaginary component too).
    pub fn has_imaginary(&self) -> (r: bool)
        ensures
            r == !is_zero_v(self@.im),
    {
        !float_is_zero(&self.imaginary_value)
    }

    /// The real component.
    pub fn value_ref(&self) -> (r: &astro_float::BigFloat)
        ensures
            float_v(*r) == self@.re,
    {
        &self.value
    }

    /// The imaginary component.
    pub fn imaginary_ref(&self) -> (r: &astro_float::BigFloat)
        ensures
            float_v(*r) == self@.im,
    {
        &self.imaginary_value
    }

    /// The boolean flag; when it is set, the value stands for a logical result.
    pub fn boolean(&self) -> (r: Option<bool>)
        ensures
            r == self@.boolean,
    {
        self.boolean_value
    }

    /// Raises `self` to `rhs` along the complex path: base and exponent are
    /// read as `a + bi` and `c + di`, and the result follows the complex
    /// generalization of de Moivre's formula at the precision of `self`'s real
    /// component, carrying the exponent's unit.
    pub fn pow_complex(self, rhs: KalkNum) -> (r: KalkNum)
        ensures
            r@ == pow_complex_v(self@, rhs@),
            r@.re matches FloatV::Finite { prec, .. } ==> prec == word_prec(work_prec(self@.re)),
            r@.im matches FloatV::Finite { prec, .. } ==> prec == word_prec(work_prec(self@.re)),
    {
        let p = work_precision_of(&self.value);
        let a = &self.value;
        let b = &self.imaginary_value;
        let c = &rhs.value;
        let d = &rhs.imaginary_value;
        let arg = arg_angle(a, b, p);
        let raised = float_add(&float_mul(a, a, p), &float_mul(b, b, p), p);
        let two = float_from_word(2, 1);
        let magnitude = float_mul(
            &float_pow(&raised, &float_div(c, &two, p), p),
            &float_exp(&float_mul(&float_neg(d), &arg, p), p),
            p,
        );
        let polar = float_add(
            &float_mul(c, &arg, p),
            &float_mul(&float_div(d, &two, p), &float_ln(&raised, p), p),
            p,
        );
        let re = float_mul(&float_cos(&polar, p), &magnitude, p);
        let im = float_mul(&float_sin(&polar, p), &magnitude, p);
        KalkNum::new_with_imaginary(re, rhs.unit.as_str(), im)
    }

    /// Raises `self` to `rhs`, choosing the complex path when either operand
    /// has a non-zero imaginary component or when the base is negative with an
    /// exponent below one, and the backend's real power primitive otherwise;
    /// the result carries the exponent's unit.
    pub fn pow_without_unit(self, rhs: KalkNum) -> (r: KalkNum)
        ensures
            r@ == pow_without_unit_v(self@, rhs@),
            r@.re matches FloatV::Finite { prec, .. } ==> prec == word_prec(work_prec(self@.re)),
            complex_path_v(self@, rhs@) ==> (r@.im matches FloatV::Finite { prec, .. } ==> prec
                == word_prec(work_prec(self@.re))),
            !complex_path_v(self@, rhs@) && r@.re is Finite ==> r@.im == pos_zero(
                word_prec(work_prec(self@.re)),
            ),
    {
        let zero = float_zero(1);
        let one = float_from_word(1, 1);
        if self.has_imaginary() || rhs.has_imaginary() || (float_lt(&self.value, &zero)
            && float_lt(&rhs.value, &one)) {
            self.pow_complex(rhs)
        } else {
            let p = work_precision_of(&self.value);
            let powered = float_pow(&self.value, &rhs.value, p);
            proof {
                lemma_word_prec(p as nat);
            }
            KalkNum::new(powered, rhs.unit.as_str())
        }
    }

    /// The unit-aware power: `resolved` is the answer of the external
    /// unit-resolution collaborator for `(self, rhs)`; where it resolved
    /// nothing, the exponent is used unchanged, so the result keeps the
    /// exponent's own unit.
    pub fn pow(self, resolved: Option<KalkNum>, rhs: KalkNum) -> (r: KalkNum)
        ensures
            r@ == pow_without_unit_v(
                self@,
                match resolved {
                    Some(v) => v@,
                    None => rhs@,
                },
            ),
    {
        let right = match resolved {
            Some(v) => v,
            None => rhs,
        };
        self.pow_without_unit(right)
    }

    /// Converts the real component to the nearest 32-bit signed integer, a
    /// value halfway between two integers going to the even one; the floor is
    /// found by binary search over exact comparisons and the midpoint decides.
    /// Values off either end of the range clamp to that end, and a
    /// not-a-number real component gives zero.
    pub fn to_i32(&self) -> (r: i32)
        ensures
            self@.re is Nan ==> r == 0,
            !(self@.re is Nan) && !vlt(self@.re, from_int(64, 0x8000_0000)) ==> r == i32::MAX,
            vlt(self@.re, from_int(64, -0x8000_0000)) ==> r == i32::MIN,
            !(self@.re is Nan) && vlt(self@.re, from_int(64, 0x8000_0000)) && !vlt(
                self@.re,
                from_int(64, -0x8000_0000),
            ) ==> exists|f: int|
                -0x8000_0000 <= f < 0x8000_0000 && !vlt(self@.re, #[trigger] from_int(64, f))
                    && vlt(self@.re, from_int(64, f + 1)) && r as int == clamp_i32(
                    round_half_even(self@.re, f),
                ),
    {
        if float_is_nan(&self.value) {
            return 0;
        }
        let upper = float_from_i64(0x8000_0000i64, 64);
        if !float_lt(&self.value, &upper) {
            return i32::MAX;
        }
        let lower = float_from_i64(-0x8000_0000i64, 64);
        if float_lt(&self.value, &lower) {
            return i32::MIN;
        }
        let mut lo: i64 = -0x8000_0000;
        let mut hi: i64 = 0x8000_0000;
        while lo + 1 < hi
            invariant
                -0x8000_0000 <= lo < hi <= 0x8000_0000,
                !vlt(self@.re, from_int(64, lo as int)),
                vlt(self@.re, from_int(64, hi as int)),
            decreases hi - lo,
        {
            let mid: i64 = lo + (hi - lo) / 2;
            if float_lt(&self.value, &float_from_i64(mid, 64)) {
                hi = mid;
            } else {
                lo = mid;
            }
        }
        let numerator = float_from_i64(2 * lo + 1, 64);
        let two = float_from_word(2, 1);
        let half = float_div(&numerator, &two, 64);
        proof {
            assert(float_v(half) == midpoint_v(lo as int));
        }
        let rounded: i64 = if float_lt(&half, &self.value) {
            lo + 1
        } else if float_lt(&self.value, &half) {
            lo
        } else if lo % 2 == 0 {
            lo
        } else {
            lo + 1
        };
        proof {
            assert(rounded as int == round_half_even(self@.re, lo as int));
        }
        if rounded > 0x7FFF_FFFF {
            i32::MAX
        } else {
            rounded as i32
        }
    }

    /// Lifts a 32-bit signed integer exactly, at the baseline precision,
    /// unitless.
    pub fn from_i32(x: i32) -> (r: KalkNum)
        ensures
            r@ == new_v(from_int(64, x as int), Seq::empty()),
    {
        proof {
            reveal_strlit("");
            assert(""@ =~= Seq::<char>::empty());
        }
        KalkNum::new(float_from_i32(x, DEFAULT_PRECISION), "")
    }

    /// Lifts a 64-bit signed integer exactly, at the baseline precision
    /// widened to the integer's 64 bits, unitless.
    pub fn from_i64(x: i64) -> (r: KalkNum)
        ensures
            r@ == new_v(from_int(64, x as int), Seq::empty()),
    {
        proof {
            reveal_strlit("");
            assert(""@ =~= Seq::<char>::empty());
        }
        KalkNum::new(float_from_i64(x, 64), "")
    }

    /// Lifts a 128-bit signed integer and rounds it to the baseline precision,
    /// as every native-literal conversion does, unitless; an integer that fits
    /// a 64-bit signed value survives exactly.
    pub fn from_i128(x: i128) -> (r: KalkNum)
        ensures
            r@ == new_v(
                set_prec_v(from_int(128, x as int), DEFAULT_PRECISION as nat),
                Seq::empty(),
            ),
            -0x8000_0000_0000_0000 <= x < 0x8000_0000_0000_0000 ==> r@ == new_v(
                from_int(64, x as int),
                Seq::empty(),
            ),
    {
        proof {
            reveal_strlit("");
            assert(""@ =~= Seq::<char>::empty());
        }
        let wide = float_from_i128(x, 128);
        let value = float_with_precision(wide, DEFAULT_PRECISION);
        KalkNum::new(value, "")
    }
}

impl Default for KalkNum {
    /// The unitless real zero at the baseline precision, a safe placeholder
    /// before a real value is known.
    fn default() -> (r: Self)
        ensures
            r@ == new_v(pos_zero(64), Seq::empty()),
    {
        proof {
            reveal_strlit("");
            assert(""@ =~= Seq::<char>::empty());
        }
        KalkNum::new(float_zero(DEFAULT_PRECISION), "")
    }
}

impl Clone for KalkNum {
    /// An exact copy of every component.
    fn clone(&self) -> (r: Self)
        ensures
            r@ == self@,
    {
        KalkNum {
            value: float_clone(&self.value),
            unit: self.unit.clone(),
            imaginary_value: float_clone(&self.imaginary_value),
            boolean_value: self.boolean_value,
        }
    }
}

impl PartialEq for KalkNum {
    /// Structural equality: numerically equal components (so the two zeros
    /// agree and not-a-number never compares equal), the same unit, and the
    /// same boolean flag.
    fn eq(&self, other: &KalkNum) -> (r: bool) {
        let floats_eq = float_eq(&self.value, &other.value) && float_eq(
            &self.imaginary_value,
            &other.imaginary_value,
        );
        let bools_eq = match (self.boolean_value, other.boolean_value) {
            (None, None) => true,
            (Some(x), Some(y)) => x == y,
            _ => false,
        };
        floats_eq && self.unit == other.unit && bools_eq
    }
}

impl vstd::std_specs::cmp::PartialEqSpecImpl for KalkNum {
    open spec fn obeys_eq_spec() -> bool {
        true
    }

    open spec fn eq_spec(&self, other: &KalkNum) -> bool {
        kalk_eq_v(self@, other@)
    }
}

/// A purely real base that is not negative, raised to a purely real exponent,
/// takes the real path: the result's real part is exactly the backend's power
/// primitive applied to base and exponent at the base's working precision, its
/// imaginary part is an exact positive zero, and it carries the exponent's
/// unit.
pub proof fn lemma_real_power(
    base: FloatV,
    exponent: FloatV,
    base_unit: Seq<char>,
    exp_unit: Seq<char>,
)
    requires
        !vlt(base, pos_zero(64)),
    ensures
        pow_without_unit_v(new_v(base, base_unit), new_v(exponent, exp_unit)) == new_v(
            pow_v(base, exponent, work_prec(base)),
            exp_unit,
        ),
        is_zero_v(pow_without_unit_v(new_v(base, base_unit), new_v(exponent, exp_unit)).im),
        !sign_neg_v(pow_without_unit_v(new_v(base, base_unit), new_v(exponent, exp_unit)).im),
{
}

/// A purely real negative base raised to a purely real exponent below one
/// takes the complex path, where the principal branch is selected; real-only
/// exponentiation is never consulted for such operands.
pub proof fn lemma_negative_base_fractional_exponent_is_complex(
    base: FloatV,
    exponent: FloatV,
    base_unit: Seq<char>,
    exp_unit: Seq<char>,
)
    requires
        vlt(base, pos_zero(64)),
        vlt(exponent, from_int(64, 1)),
    ensures
        pow_without_unit_v(new_v(base, base_unit), new_v(exponent, exp_unit)) == pow_complex_v(
            new_v(base, base_unit),
            new_v(exponent, exp_unit),
        ),
{
}

/// Whatever path is taken, the result of the unitless power carries the
/// exponent's unit: in particular, when the unit-resolution collaborator
/// resolves nothing, the result's unit is the exponent's own.
pub proof fn lemma_unit_propagation(base: KalkNumV, exponent: KalkNumV)
    ensures
        pow_without_unit_v(base, exponent).unit == exponent.unit,
{
}

/// At every construction site that accepts a caller-supplied imaginary
/// component, a component that is a zero of either sign is stored as the
/// positive zero: it compares equal to positive zero and its sign bit is clear.
pub proof fn lemma_negative_zero_normalized(value: FloatV, unit: Seq<char>, im: FloatV)
    requires
        is_zero_v(im),
    ensures
        is_zero_v(new_with_imaginary_v(value, unit, im).im),
        !sign_neg_v(new_with_imaginary_v(value, unit, im).im),
        veq(new_with_imaginary_v(value, unit, im).im, pos_zero(64)),
        is_zero_v(from_imaginary_v(im).im),
        !sign_neg_v(from_imaginary_v(im).im),
{
}

/// Default construction equals the purely real unitless zero under structural
/// equality, whichever zero stands for that real component.
pub proof fn lemma_default_is_real_zero(z: FloatV)
    requires
        is_zero_v(z),
    ensures
        kalk_eq_v(new_v(pos_zero(64), Seq::empty()), new_v(z, Seq::empty())),
{
}

} // verus!


