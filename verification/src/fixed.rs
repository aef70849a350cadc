//! Fixed-point scalar used throughout the renderer model.
//!
//! The renderer's numeric state (luminance, UI coordinates, matrices) is
//! held as a signed 48.16 fixed-point number. All operations saturate at
//! the `i64` range instead of overflowing, and their results are pinned
//! exactly by spec functions, so callers can reason about every value.

use vstd::prelude::*;

verus! {

/// Raw representation of 1.0.
pub const FX_ONE: i64 = 65536;

/// A fixed-point scalar with 16 fractional bits, stored as a raw `i64`.
#[derive(Clone, Copy, Debug, PartialEq, Eq, Structural)]
pub struct Fx {
    pub raw: i64,
}

/// Saturates a mathematical integer into the `i64` range.
pub open spec fn fx_sat(x: int) -> int {
    if x > i64::MAX {
        i64::MAX as int
    } else if x < i64::MIN {
        i64::MIN as int
    } else {
        x
    }
}

/// Division by the fixed-point unit, truncating toward zero as the
/// executable code does.
pub open spec fn fx_shift_down(x: int) -> int {
    if x >= 0 {
        x / (FX_ONE as int)
    } else {
        -((-x) / (FX_ONE as int))
    }
}

/// What multiplying two raw values yields: the wide product scaled back
/// down, saturated into range.
pub open spec fn fx_mul_raw(a: int, b: int) -> int {
    fx_sat(fx_shift_down(a * b))
}

/// What dividing raw `a` by raw `b` yields; division by zero is defined
/// as zero so the operation is total.
pub open spec fn fx_div_raw(a: int, b: int) -> int {
    if b == 0 {
        0
    } else {
        fx_sat(fx_quot(a * (FX_ONE as int), b))
    }
}

/// Truncating (toward zero) integer quotient.
pub open spec fn fx_quot(a: int, b: int) -> int {
    if (a >= 0) == (b >= 0) {
        abs_int(a) / abs_int(b)
    } else {
        -(abs_int(a) / abs_int(b))
    }
}

pub open spec fn abs_int(x: int) -> int {
    if x >= 0 {
        x
    } else {
        -x
    }
}

impl Fx {
    /// The zero scalar.
    pub fn zero() -> (r: Fx)
        ensures
            r.raw == 0,
    {
        Fx { raw: 0 }
    }

    /// The scalar 1.0.
    pub fn one() -> (r: Fx)
        ensures
            r.raw == FX_ONE,
    {
        Fx { raw: FX_ONE }
    }

    /// Builds a scalar from a raw 16-bit-fraction representation.
    pub fn from_raw(raw: i64) -> (r: Fx)
        ensures
            r.raw == raw,
    {
        Fx { raw }
    }

    /// Converts a whole number, saturating at the representable range.
    pub fn from_int(v: i64) -> (r: Fx)
        ensures
            r.raw == fx_sat(v * (FX_ONE as int)),
    {
        proof {
            lemma_i64_prod_in_i128(v as int, FX_ONE as int);
        }
        let wide: i128 = (v as i128) * (FX_ONE as i128);
        Fx { raw: sat_i64(wide) }
    }

    /// The ratio `num / den` as a fixed-point value (zero when `den` is 0).
    pub fn from_ratio(num: i64, den: i64) -> (r: Fx)
        ensures
            r.raw == fx_div_raw(num as int, den as int),
    {
        Fx { raw: num }.div(Fx { raw: den })
    }

    /// Saturating addition.
    pub fn add(self, other: Fx) -> (r: Fx)
        ensures
            r.raw == fx_sat(self.raw + other.raw),
    {
        let wide: i128 = (self.raw as i128) + (other.raw as i128);
        Fx { raw: sat_i64(wide) }
    }

    /// Saturating subtraction.
    pub fn sub(self, other: Fx) -> (r: Fx)
        ensures
            r.raw == fx_sat(self.raw - other.raw),
    {
        let wide: i128 = (self.raw as i128) - (other.raw as i128);
        Fx { raw: sat_i64(wide) }
    }

    /// Saturating negation.
    pub fn neg(self) -> (r: Fx)
        ensures
            r.raw == fx_sat(-self.raw),
    {
        let wide: i128 = -(self.raw as i128);
        Fx { raw: sat_i64(wide) }
    }

    /// Saturating fixed-point multiplication, truncating toward zero.
    pub fn mul(self, other: Fx) -> (r: Fx)
        ensures
            r.raw == fx_mul_raw(self.raw as int, other.raw as int),
    {
        proof {
            lemma_i64_prod_in_i128(self.raw as int, other.raw as int);
        }
        let wide: i128 = (self.raw as i128) * (other.raw as i128);
        let scaled: i128 = trunc_div_unit(wide);
        assert(scaled == fx_shift_down(self.raw * other.raw));
        Fx { raw: sat_i64(scaled) }
    }

    /// Saturating fixed-point division; zero when the divisor is zero.
    pub fn div(self, other: Fx) -> (r: Fx)
        ensures
            r.raw == fx_div_raw(self.raw as int, other.raw as int),
    {
        if other.raw == 0 {
            Fx { raw: 0 }
        } else {
            proof {
                lemma_i64_prod_in_i128(self.raw as int, FX_ONE as int);
            }
            let wide: i128 = (self.raw as i128) * (FX_ONE as i128);
            let quot: i128 = trunc_quot(wide, other.raw as i128);
            Fx { raw: sat_i64(quot) }
        }
    }

    /// Largest whole number at or below this value, as an `i32`
    /// (saturating at the `i32` range).
    pub fn floor_i32(self) -> (r: i32)
        ensures
            r as int == sat_i32(floor_unit(self.raw as int)),
    {
        let w: i128 = self.raw as i128;
        let f: i128 = if w >= 0 {
            w / (FX_ONE as i128)
        } else {
            let m: i128 = -w;
            -((m + (FX_ONE as i128) - 1) / (FX_ONE as i128))
        };
        assert(f == floor_unit(self.raw as int)) by {
            if self.raw < 0 {
                lemma_neg_div(self.raw as int);
            }
        };
        sat_cast_i32(f)
    }

    /// Smallest whole number at or above this value, as an `i32`
    /// (saturating at the `i32` range).
    pub fn ceil_i32(self) -> (r: i32)
        ensures
            r as int == sat_i32(ceil_unit(self.raw as int)),
    {
        let w: i128 = self.raw as i128;
        let c: i128 = if w >= 0 {
            (w + (FX_ONE as i128) - 1) / (FX_ONE as i128)
        } else {
            let m: i128 = -w;
            -(m / (FX_ONE as i128))
        };
        assert(c == ceil_unit(self.raw as int)) by {
            if self.raw >= 0 {
                lemma_pos_ceil(self.raw as int);
            }
        };
        sat_cast_i32(c)
    }
}

/// Floor of `x / FX_ONE` as mathematical (flooring) division.
pub open spec fn floor_unit(x: int) -> int {
    x / (FX_ONE as int)
}

/// Ceiling of `x / FX_ONE`.
pub open spec fn ceil_unit(x: int) -> int {
    -((-x) / (FX_ONE as int))
}

pub open spec fn sat_i32(x: int) -> int {
    if x > i32::MAX {
        i32::MAX as int
    } else if x < i32::MIN {
        i32::MIN as int
    } else {
        x
    }
}

/// Saturates a wide intermediate into `i64`.
fn sat_i64(x: i128) -> (r: i64)
    ensures
        r as int == fx_sat(x as int),
{
    if x > i64::MAX as i128 {
        i64::MAX
    } else if x < i64::MIN as i128 {
        i64::MIN
    } else {
        x as i64
    }
}

fn sat_cast_i32(x: i128) -> (r: i32)
    ensures
        r as int == sat_i32(x as int),
{
    if x > i32::MAX as i128 {
        i32::MAX
    } else if x < i32::MIN as i128 {
        i32::MIN
    } else {
        x as i32
    }
}

/// Divides a wide value by the fixed-point unit, truncating toward zero.
fn trunc_div_unit(x: i128) -> (r: i128)
    requires
        x > i128::MIN,
    ensures
        r as int == fx_shift_down(x as int),
{
    if x >= 0 {
        x / (FX_ONE as i128)
    } else {
        -((-x) / (FX_ONE as i128))
    }
}

/// Truncating quotient of two wide values, `d != 0`.
fn trunc_quot(n: i128, d: i128) -> (r: i128)
    requires
        d != 0,
        (i64::MIN as i128) * (FX_ONE as i128) <= n <= (i64::MAX as i128) * (FX_ONE as i128),
        i64::MIN as i128 <= d <= i64::MAX as i128,
    ensures
        r as int == fx_quot(n as int, d as int),
{
    let nn: i128 = if n >= 0 {
        n
    } else {
        -n
    };
    let dd: i128 = if d >= 0 {
        d
    } else {
        -d
    };
    let q: i128 = nn / dd;
    if (n >= 0) == (d >= 0) {
        q
    } else {
        -q
    }
}

proof fn lemma_i64_prod_in_i128(a: int, b: int)
    requires
        i64::MIN <= a <= i64::MAX,
        i64::MIN <= b <= i64::MAX,
    ensures
        i128::MIN < a * b <= i128::MAX,
{
    assert(i128::MIN < a * b <= i128::MAX) by (nonlinear_arith)
        requires
            -0x8000_0000_0000_0000 <= a <= 0x7fff_ffff_ffff_ffff,
            -0x8000_0000_0000_0000 <= b <= 0x7fff_ffff_ffff_ffff,
    ;
}

proof fn lemma_neg_div(x: int)
    requires
        x < 0,
    ensures
        -(((-x) + (FX_ONE as int) - 1) / (FX_ONE as int)) == x / (FX_ONE as int),
{
    let u = FX_ONE as int;
    let m = -x;
    assert(((m + u - 1) / u) * u + (m + u - 1) % u == m + u - 1) by {
        vstd::arithmetic::div_mod::lemma_fundamental_div_mod(m + u - 1, u);
    };
    assert((x / u) * u + x % u == x) by {
        vstd::arithmetic::div_mod::lemma_fundamental_div_mod(x, u);
    };
    assert((m + u - 1) / u == -(x / u)) by (nonlinear_arith)
        requires
            u == 65536,
            m == -x,
            x < 0,
            ((m + u - 1) / u) * u + (m + u - 1) % u == m + u - 1,
            (x / u) * u + x % u == x,
            0 <= (m + u - 1) % u < u,
            0 <= x % u < u,
    ;
}

proof fn lemma_pos_ceil(x: int)
    requires
        x >= 0,
    ensures
        (x + (FX_ONE as int) - 1) / (FX_ONE as int) == -((-x) / (FX_ONE as int)),
{
    let u = FX_ONE as int;
    assert(((x + u - 1) / u) * u + (x + u - 1) % u == x + u - 1) by {
        vstd::arithmetic::div_mod::lemma_fundamental_div_mod(x + u - 1, u);
    };
    assert(((-x) / u) * u + (-x) % u == -x) by {
        vstd::arithmetic::div_mod::lemma_fundamental_div_mod(-x, u);
    };
    assert((x + u - 1) / u == -((-x) / u)) by (nonlinear_arith)
        requires
            u == 65536,
            x >= 0,
            ((x + u - 1) / u) * u + (x + u - 1) % u == x + u - 1,
            ((-x) / u) * u + (-x) % u == -x,
            0 <= (x + u - 1) % u < u,
            0 <= (-x) % u < u,
    ;
}

} // verus!
