use vstd::arithmetic::div_mod::{
    lemma_fundamental_div_mod, lemma_fundamental_div_mod_converse, lemma_mod_self_0,
    lemma_small_mod,
};
use vstd::prelude::*;

verus! {

/// An exact numeric value: a rational number held in lowest terms with a
/// positive denominator, or the marker `NonFinite` that a division by zero
/// or an out-of-range result leaves behind. `NonFinite` plays the role of
/// an IEEE infinity or NaN: every further operation propagates it, none
/// reports it as an error.
#[derive(Clone, Copy, Debug, PartialEq, Eq, Structural)]
pub enum Num {
    Finite { num: i64, den: i64 },
    NonFinite,
}

/// The absolute value of a mathematical integer.
pub open spec fn spec_abs(x: int) -> int {
    if x < 0 {
        -x
    } else {
        x
    }
}

/// The greatest common divisor, by Euclid's recursion; `spec_gcd(a, 0) == a`.
pub open spec fn spec_gcd(a: nat, b: nat) -> nat
    decreases b,
{
    if b == 0 {
        a
    } else {
        spec_gcd(b, a % b)
    }
}

/// The canonical `Num` for the fraction `n / d`: lowest terms and a positive
/// denominator. `NonFinite` when `d` is zero, or when the reduced numerator
/// or denominator does not fit in `i64`.
pub open spec fn spec_norm(n: int, d: int) -> Num {
    if d == 0 {
        Num::NonFinite
    } else {
        let na = spec_abs(n) as nat;
        let da = spec_abs(d) as nat;
        let g = spec_gcd(na, da);
        let rn_mag = na / g;
        let rd = da / g;
        let rn: int = if (n < 0) != (d < 0) {
            -(rn_mag as int)
        } else {
            rn_mag as int
        };
        if i64::MIN <= rn <= i64::MAX && rd <= i64::MAX {
            Num::Finite { num: rn as i64, den: rd as i64 }
        } else {
            Num::NonFinite
        }
    }
}

/// The sum of two values: `NonFinite` absorbs, finite values add as fractions.
pub open spec fn spec_add(a: Num, b: Num) -> Num {
    match (a, b) {
        (Num::Finite { num: an, den: ad }, Num::Finite { num: bn, den: bd }) => spec_norm(
            an * bd + bn * ad,
            ad * bd,
        ),
        _ => Num::NonFinite,
    }
}

/// The difference of two values.
pub open spec fn spec_sub(a: Num, b: Num) -> Num {
    match (a, b) {
        (Num::Finite { num: an, den: ad }, Num::Finite { num: bn, den: bd }) => spec_norm(
            an * bd - bn * ad,
            ad * bd,
        ),
        _ => Num::NonFinite,
    }
}

/// The quotient of two values. Division by zero shows up as a zero
/// denominator product, so it yields `NonFinite`, as the IEEE operation
/// would yield an infinity or NaN.
pub open spec fn spec_div(a: Num, b: Num) -> Num {
    match (a, b) {
        (Num::Finite { num: an, den: ad }, Num::Finite { num: bn, den: bd }) => spec_norm(
            an * bd,
            ad * bn,
        ),
        _ => Num::NonFinite,
    }
}

/// Well-formedness of an optional value: present values are well-formed.
pub open spec fn opt_wf(o: Option<Num>) -> bool {
    o matches Some(v) ==> v.wf()
}

impl Num {
    /// Well-formedness: a finite value keeps a positive denominator, so the
    /// fraction it denotes is unambiguous and arithmetic on it cannot
    /// overflow the wide intermediate type.
    pub open spec fn wf(self) -> bool {
        match self {
            Num::Finite { num, den } => den > 0,
            Num::NonFinite => true,
        }
    }

    /// The whole number `i`, as the canonical fraction `i / 1`.
    pub fn from_int(i: i64) -> (r: Num)
        ensures
            r == (Num::Finite { num: i, den: 1i64 }),
            r.wf(),
    {
        Num::Finite { num: i, den: 1 }
    }

    /// The canonical value of the fraction `num / den`.
    pub fn new(num: i64, den: i64) -> (r: Num)
        ensures
            r == spec_norm(num as int, den as int),
            r.wf(),
    {
        let r = norm(num as i128, den as i128);
        proof {
            lemma_norm_wf(num as int, den as int);
        }
        r
    }

    /// The sum of `self` and `other`.
    pub fn add(self, other: Num) -> (r: Num)
        requires
            self.wf(),
            other.wf(),
        ensures
            r == spec_add(self, other),
            r.wf(),
    {
        match (self, other) {
            (Num::Finite { num: an, den: ad }, Num::Finite { num: bn, den: bd }) => {
                proof {
                    lemma_mul_i64_by_pos_bound(an as int, bd as int);
                    lemma_mul_i64_by_pos_bound(bn as int, ad as int);
                    lemma_mul_i64_by_pos_bound(ad as int, bd as int);
                    lemma_norm_wf(an * bd + bn * ad, ad * bd);
                }
                let n: i128 = (an as i128) * (bd as i128) + (bn as i128) * (ad as i128);
                let d: i128 = (ad as i128) * (bd as i128);
                norm(n, d)
            },
            _ => Num::NonFinite,
        }
    }

    /// The difference `self - other`.
    pub fn sub(self, other: Num) -> (r: Num)
        requires
            self.wf(),
            other.wf(),
        ensures
            r == spec_sub(self, other),
            r.wf(),
    {
        match (self, other) {
            (Num::Finite { num: an, den: ad }, Num::Finite { num: bn, den: bd }) => {
                proof {
                    lemma_mul_i64_by_pos_bound(an as int, bd as int);
                    lemma_mul_i64_by_pos_bound(bn as int, ad as int);
                    lemma_mul_i64_by_pos_bound(ad as int, bd as int);
                    lemma_norm_wf(an * bd - bn * ad, ad * bd);
                }
                let n: i128 = (an as i128) * (bd as i128) - (bn as i128) * (ad as i128);
                let d: i128 = (ad as i128) * (bd as i128);
                norm(n, d)
            },
            _ => Num::NonFinite,
        }
    }

    /// The quotient `self / other`. A zero `other` yields `NonFinite`.
    pub fn div(self, other: Num) -> (r: Num)
        requires
            self.wf(),
            other.wf(),
        ensures
            r == spec_div(self, other),
            r.wf(),
    {
        match (self, other) {
            (Num::Finite { num: an, den: ad }, Num::Finite { num: bn, den: bd }) => {
                proof {
                    lemma_mul_i64_by_pos_bound(an as int, bd as int);
                    lemma_mul_i64_by_pos_bound(bn as int, ad as int);
                    lemma_norm_wf(an * bd, ad * bn);
                }
                let n: i128 = (an as i128) * (bd as i128);
                let d: i128 = (ad as i128) * (bn as i128);
                norm(n, d)
            },
            _ => Num::NonFinite,
        }
    }
}

/// A product of an `i64`-range factor with a positive `i64` denominator
/// stays strictly inside `i128`, leaving room for one addition.
proof fn lemma_mul_i64_by_pos_bound(x: int, y: int)
    by (nonlinear_arith)
    requires
        -0x8000_0000_0000_0000 <= x <= 0x7fff_ffff_ffff_ffff,
        1 <= y <= 0x7fff_ffff_ffff_ffff,
    ensures
        -0x3fff_ffff_ffff_ffff_8000_0000_0000_0000 <= x * y
            <= 0x3fff_ffff_ffff_ffff_8000_0000_0000_0000,
        x >= 0 ==> x * y >= 0,
        x < 0 ==> x * y < 0,
{
}

/// Euclid's gcd of two nonnegative numbers, matching `spec_gcd`.
fn gcd_u128(a: u128, b: u128) -> (g: u128)
    ensures
        g == spec_gcd(a as nat, b as nat),
    decreases b,
{
    if b == 0 {
        a
    } else {
        gcd_u128(b, a % b)
    }
}

/// The gcd of two numbers, one of them positive, is positive.
proof fn lemma_gcd_pos(a: nat, b: nat)
    requires
        a > 0 || b > 0,
    ensures
        spec_gcd(a, b) > 0,
    decreases b,
{
    if b > 0 {
        lemma_gcd_pos(b, a % b);
    }
}

/// The gcd is no greater than its positive second argument.
proof fn lemma_gcd_le(a: nat, b: nat)
    requires
        b > 0,
    ensures
        spec_gcd(a, b) <= b,
    decreases b,
{
    if a % b > 0 {
        lemma_gcd_le(b, a % b);
    } else {
        assert(spec_gcd(a, b) == spec_gcd(b, 0));
        assert(spec_gcd(b, 0) == b);
    }
}

/// The gcd divides both of its arguments.
proof fn lemma_gcd_divides(a: nat, b: nat)
    requires
        a > 0 || b > 0,
    ensures
        spec_gcd(a, b) > 0,
        a % spec_gcd(a, b) == 0,
        b % spec_gcd(a, b) == 0,
    decreases b,
{
    lemma_gcd_pos(a, b);
    let g = spec_gcd(a, b);
    if b == 0 {
        lemma_mod_self_0(a as int);
        lemma_small_mod(0, a);
    } else {
        lemma_gcd_divides(b, a % b);
        lemma_fundamental_div_mod(a as int, b as int);
        lemma_fundamental_div_mod(b as int, g as int);
        lemma_fundamental_div_mod((a % b) as int, g as int);
        let q = a as int / b as int;
        let kb = b as int / g as int;
        let kr = (a % b) as int / g as int;
        assert(a == (q * kb + kr) * g) by (nonlinear_arith)
            requires
                a == q * (b as int) + (a % b),
                b == g * kb,
                (a % b) as int == g * kr,
        ;
        assert(q * kb + kr >= 0) by (nonlinear_arith)
            requires
                a == (q * kb + kr) * g,
                a >= 0,
                g > 0,
        ;
        lemma_fundamental_div_mod_converse(a as int, g as int, q * kb + kr, 0);
    }
}

/// A common divisor of both arguments divides their gcd.
proof fn lemma_gcd_greatest(a: nat, b: nat, e: nat)
    requires
        e > 0,
        a % e == 0,
        b % e == 0,
        a > 0 || b > 0,
    ensures
        spec_gcd(a, b) % e == 0,
    decreases b,
{
    if b > 0 {
        lemma_fundamental_div_mod(a as int, b as int);
        lemma_fundamental_div_mod(a as int, e as int);
        lemma_fundamental_div_mod(b as int, e as int);
        let q = a as int / b as int;
        let ka = a as int / e as int;
        let kb = b as int / e as int;
        assert((a % b) as int == (ka - q * kb) * e) by (nonlinear_arith)
            requires
                a == q * (b as int) + (a % b),
                a as int == e as int * ka,
                b as int == e as int * kb,
        ;
        assert(ka - q * kb >= 0) by (nonlinear_arith)
            requires
                (a % b) as int == (ka - q * kb) * e,
                a % b >= 0,
                e > 0,
        ;
        lemma_fundamental_div_mod_converse((a % b) as int, e as int, ka - q * kb, 0);
        lemma_gcd_greatest(b, a % b, e);
    }
}

/// After dividing both arguments by their gcd, the quotients are coprime.
proof fn lemma_reduced_coprime(a: nat, b: nat)
    requires
        b > 0,
    ensures
        spec_gcd(a / spec_gcd(a, b), b / spec_gcd(a, b)) == 1,
{
    let g = spec_gcd(a, b);
    lemma_gcd_divides(a, b);
    lemma_gcd_le(a, b);
    lemma_fundamental_div_mod(a as int, g as int);
    lemma_fundamental_div_mod(b as int, g as int);
    let x = a / g;
    let y = b / g;
    assert(y > 0) by (nonlinear_arith)
        requires
            b as int == g as int * y as int,
            b > 0,
            g > 0,
    ;
    let h = spec_gcd(x, y);
    lemma_gcd_pos(x, y);
    lemma_gcd_divides(x, y);
    lemma_fundamental_div_mod(x as int, h as int);
    lemma_fundamental_div_mod(y as int, h as int);
    let xh = x / h;
    let yh = y / h;
    assert(a as int == xh as int * (g as int * h as int)) by (nonlinear_arith)
        requires
            a as int == g as int * x as int,
            x as int == h as int * xh as int,
    ;
    assert(b as int == yh as int * (g as int * h as int)) by (nonlinear_arith)
        requires
            b as int == g as int * y as int,
            y as int == h as int * yh as int,
    ;
    assert(g as int * h as int > 0) by (nonlinear_arith)
        requires
            g > 0,
            h > 0,
    ;
    lemma_fundamental_div_mod_converse(a as int, g as int * h as int, xh as int, 0);
    lemma_fundamental_div_mod_converse(b as int, g as int * h as int, yh as int, 0);
    lemma_gcd_greatest(a, b, (g * h) as nat);
    lemma_fundamental_div_mod(g as int, g as int * h as int);
    let m = g as int / (g as int * h as int);
    assert(h == 1) by (nonlinear_arith)
        requires
            g as int == (g as int * h as int) * m + 0,
            g > 0,
            h >= 1,
    ;
}

/// `spec_norm` keeps the denominator positive.
proof fn lemma_norm_wf(n: int, d: int)
    ensures
        spec_norm(n, d).wf(),
{
    if d != 0 {
        let na = spec_abs(n) as nat;
        let da = spec_abs(d) as nat;
        let g = spec_gcd(na, da);
        lemma_gcd_pos(na, da);
        lemma_gcd_le(na, da);
        assert(da / g >= 1) by (nonlinear_arith)
            requires
                0 < g <= da,
        ;
    }
}

/// The reduced, sign-carrying numerator denotes the same fraction: from
/// `x * da == na * y` and the magnitude equations, cross-multiplication
/// carries over to the signed values.
proof fn lemma_signed_cross(x: int, y: int, na: int, da: int, n: int, d: int, sn: int)
    by (nonlinear_arith)
    requires
        x * da == na * y,
        na == spec_abs(n),
        da == spec_abs(d),
        d != 0,
        sn == if (n < 0) != (d < 0) {
            -x
        } else {
            x
        },
    ensures
        sn * d == n * y,
{
}

/// What a finite `spec_norm(n, d)` means: it denotes exactly the fraction
/// `n / d`, by cross-multiplication, with a positive denominator.
pub proof fn lemma_norm_value(n: int, d: int)
    ensures
        spec_norm(n, d) matches Num::Finite { num, den } ==> num * d == n * den && den > 0,
{
    if d != 0 && spec_norm(n, d) is Finite {
        let na = spec_abs(n) as nat;
        let da = spec_abs(d) as nat;
        lemma_gcd_divides(na, da);
        let g = spec_gcd(na, da);
        let x = na / g;
        let y = da / g;
        lemma_fundamental_div_mod(na as int, g as int);
        lemma_fundamental_div_mod(da as int, g as int);
        assert(na as int == g as int * x as int);
        assert(da as int == g as int * y as int);
        assert(x as int * da as int == na as int * y as int) by (nonlinear_arith)
            requires
                na as int == g as int * x as int,
                da as int == g as int * y as int,
        ;
        let sn: int = if (n < 0) != (d < 0) {
            -(x as int)
        } else {
            x as int
        };
        lemma_signed_cross(x as int, y as int, na as int, da as int, n, d, sn);
        lemma_norm_wf(n, d);
    }
}

/// A finite `spec_norm(n, d)` really is in lowest terms: the magnitude of
/// its numerator and its denominator are coprime.
pub proof fn lemma_norm_lowest_terms(n: int, d: int)
    ensures
        spec_norm(n, d) matches Num::Finite { num, den } ==> spec_gcd(
            spec_abs(num as int) as nat,
            den as nat,
        ) == 1,
{
    if d != 0 && spec_norm(n, d) is Finite {
        let na = spec_abs(n) as nat;
        let da = spec_abs(d) as nat;
        let g = spec_gcd(na, da);
        lemma_gcd_pos(na, da);
        lemma_reduced_coprime(na, da);
        let rn_mag = na / g;
        let rd = da / g;
        let rn: int = if (n < 0) != (d < 0) {
            -(rn_mag as int)
        } else {
            rn_mag as int
        };
        assert(i64::MIN <= rn <= i64::MAX && rd <= i64::MAX);
        assert(spec_norm(n, d) == (Num::Finite { num: rn as i64, den: rd as i64 }));
        assert(spec_norm(n, d)->num as int == rn);
        assert(spec_norm(n, d)->den as int == rd as int);
        assert(spec_abs(rn) == rn_mag as int);
    }
}

/// Every arithmetic result is well-formed, whatever its operands: it is
/// either `NonFinite` or a canonical fraction.
pub proof fn lemma_ops_wf(a: Num, b: Num)
    ensures
        spec_add(a, b).wf(),
        spec_sub(a, b).wf(),
        spec_div(a, b).wf(),
{
    if a is Finite && b is Finite {
        lemma_norm_wf(a->num * b->den + b->num * a->den, a->den * b->den);
        lemma_norm_wf(a->num * b->den - b->num * a->den, a->den * b->den);
        lemma_norm_wf(a->num * b->den, a->den * b->num);
    }
}

/// A finite sum `spec_add(a, b)` of two well-formed finite values denotes
/// exactly the textbook fraction sum, by cross-multiplication.
pub proof fn lemma_add_value(a: Num, b: Num)
    requires
        a.wf(),
        b.wf(),
    ensures
        (a is Finite && b is Finite && spec_add(a, b) is Finite) ==> (spec_add(a, b)->den > 0
            && spec_add(a, b)->num * (a->den * b->den) == (a->num * b->den + b->num * a->den)
            * spec_add(a, b)->den),
{
    if a is Finite && b is Finite {
        assert(a->den * b->den != 0) by (nonlinear_arith)
            requires
                a->den > 0,
                b->den > 0,
        ;
        lemma_norm_value(a->num * b->den + b->num * a->den, a->den * b->den);
    }
}

/// A finite difference `spec_sub(a, b)` of two well-formed finite values
/// denotes exactly the textbook fraction difference.
pub proof fn lemma_sub_value(a: Num, b: Num)
    requires
        a.wf(),
        b.wf(),
    ensures
        (a is Finite && b is Finite && spec_sub(a, b) is Finite) ==> (spec_sub(a, b)->den > 0
            && spec_sub(a, b)->num * (a->den * b->den) == (a->num * b->den - b->num * a->den)
            * spec_sub(a, b)->den),
{
    if a is Finite && b is Finite {
        assert(a->den * b->den != 0) by (nonlinear_arith)
            requires
                a->den > 0,
                b->den > 0,
        ;
        lemma_norm_value(a->num * b->den - b->num * a->den, a->den * b->den);
    }
}

/// A finite quotient `spec_div(a, b)` of two well-formed finite values,
/// with `b` not zero, denotes exactly the true ratio `a / b`.
pub proof fn lemma_div_value(a: Num, b: Num)
    requires
        a.wf(),
        b.wf(),
    ensures
        (a is Finite && b is Finite && b->num != 0 && spec_div(a, b) is Finite) ==> (spec_div(
            a,
            b,
        )->den > 0 && spec_div(a, b)->num * (a->den * b->num) == (a->num * b->den) * spec_div(
            a,
            b,
        )->den),
{
    if a is Finite && b is Finite && b->num != 0 {
        assert(a->den * b->num != 0) by (nonlinear_arith)
            requires
                a->den > 0,
                b->num != 0,
        ;
        lemma_norm_value(a->num * b->den, a->den * b->num);
    }
}

/// The canonical `Num` for the fraction `n / d`, built in executable code:
/// reduce by the gcd of the magnitudes, carry the sign on the numerator.
fn norm(n: i128, d: i128) -> (r: Num)
    requires
        n > i128::MIN,
        d > i128::MIN,
    ensures
        r == spec_norm(n as int, d as int),
{
    if d == 0 {
        return Num::NonFinite;
    }
    let neg: bool = (n < 0) != (d < 0);
    let na: u128 = if n < 0 {
        (-n) as u128
    } else {
        n as u128
    };
    let da: u128 = if d < 0 {
        (-d) as u128
    } else {
        d as u128
    };
    proof {
        lemma_gcd_pos(na as nat, da as nat);
    }
    let g: u128 = gcd_u128(na, da);
    let rn_mag: u128 = na / g;
    let rd: u128 = da / g;
    proof {
        assert(rn_mag <= na) by (nonlinear_arith)
            requires
                g >= 1,
                na >= 0,
                rn_mag == na as int / g as int,
        ;
        assert(rd <= da) by (nonlinear_arith)
            requires
                g >= 1,
                da >= 0,
                rd == da as int / g as int,
        ;
    }
    if rd > 0x7fff_ffff_ffff_ffffu128 {
        return Num::NonFinite;
    }
    if neg {
        if rn_mag > 0x8000_0000_0000_0000u128 {
            return Num::NonFinite;
        }
        let num: i64 = if rn_mag == 0x8000_0000_0000_0000u128 {
            i64::MIN
        } else {
            -(rn_mag as i64)
        };
        Num::Finite { num, den: rd as i64 }
    } else {
        if rn_mag > 0x7fff_ffff_ffff_ffffu128 {
            return Num::NonFinite;
        }
        Num::Finite { num: rn_mag as i64, den: rd as i64 }
    }
}

} // verus!
