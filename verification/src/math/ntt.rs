//! Modular exponentiation and a radix-2 number theoretic transform.
//!
//! All remainders round toward zero, so a negative value has a negative
//! remainder. Intermediate products are formed in 64 bits and never overflow.

use vstd::arithmetic::div_mod::{
    lemma_fundamental_div_mod,
    lemma_mod_multiples_vanish,
    lemma_small_mod,
};
use vstd::arithmetic::power::{
    lemma0_pow,
    lemma_pow0,
    lemma_pow1,
    lemma_pow_adds,
    lemma_pow_multiplies,
    lemma_pow_positive,
    lemma_square_is_pow2,
    pow,
};
use vstd::prelude::*;

verus! {

/// Remainder of `a` by a positive `m`, rounded toward zero: it carries the
/// sign of `a`.
pub open spec fn rem(a: int, m: int) -> int {
    if a >= 0 {
        a % m
    } else {
        -((-a) % m)
    }
}

/// Values that differ by a multiple of `m` and do not lie on opposite sides
/// of zero have the same remainder.
proof fn lemma_rem_congruent(z1: int, z2: int, q: int, m: int)
    requires
        m > 0,
        z2 == z1 + q * m,
        !(z1 > 0 && z2 < 0),
        !(z1 < 0 && z2 > 0),
    ensures
        rem(z1, m) == rem(z2, m),
{
    assert(m * q + z1 == z2) by (nonlinear_arith)
        requires
            z2 == z1 + q * m,
    ;
    assert(m * (-q) + (-z1) == -z2) by (nonlinear_arith)
        requires
            z2 == z1 + q * m,
    ;
    lemma_mod_multiples_vanish(q, z1, m);
    lemma_mod_multiples_vanish(-q, -z1, m);
    lemma_small_mod(0, m as nat);
}

/// A value differs from its remainder by a multiple of `m`, the remainder is
/// smaller than `m` in size, and it is zero or has the sign of the value.
proof fn lemma_rem_properties(x: int, m: int) -> (k: int)
    requires
        m > 0,
    ensures
        x == rem(x, m) + k * m,
        -m < rem(x, m) < m,
        x >= 0 ==> rem(x, m) >= 0,
        x <= 0 ==> rem(x, m) <= 0,
{
    if x >= 0 {
        lemma_fundamental_div_mod(x, m);
        let k = x / m;
        assert(m * k == k * m) by (nonlinear_arith);
        k
    } else {
        lemma_fundamental_div_mod(-x, m);
        let k = -((-x) / m);
        assert(m * ((-x) / m) == -(k * m)) by (nonlinear_arith)
            requires
                k == -((-x) / m),
        ;
        k
    }
}

/// Reducing one factor of a product does not change the product's remainder.
pub proof fn lemma_rem_mul_left(x: int, y: int, m: int)
    requires
        m > 0,
    ensures
        rem(rem(x, m) * y, m) == rem(x * y, m),
{
    let r = rem(x, m);
    let k = lemma_rem_properties(x, m);
    assert(x * y == r * y + (k * y) * m) by (nonlinear_arith)
        requires
            x == r + k * m,
    ;
    assert(!(r * y > 0 && x * y < 0) && !(r * y < 0 && x * y > 0)) by (nonlinear_arith)
        requires
            x >= 0 ==> r >= 0,
            x <= 0 ==> r <= 0,
    ;
    lemma_rem_congruent(r * y, x * y, k * y, m);
}

/// Reducing the base of a power does not change the remainder of a product
/// with that power.
pub proof fn lemma_rem_pow_base(x: int, c: int, q: nat, m: int)
    requires
        m > 0,
    ensures
        rem(x * pow(rem(c, m), q), m) == rem(x * pow(c, q), m),
    decreases q,
{
    let r = rem(c, m);
    if q == 0 {
        lemma_pow0(r);
        lemma_pow0(c);
    } else {
        let q1 = (q - 1) as nat;
        lemma_pow1(r);
        lemma_pow1(c);
        lemma_pow_adds(r, 1, q1);
        lemma_pow_adds(c, 1, q1);
        let pr = pow(r, q1);
        let pc = pow(c, q1);
        assert(x * (r * pr) == (x * r) * pr) by (nonlinear_arith);
        lemma_rem_pow_base(x * r, c, q1, m);
        assert((x * r) * pc == r * (x * pc)) by (nonlinear_arith);
        lemma_rem_mul_left(c, x * pc, m);
        assert(c * (x * pc) == x * (c * pc)) by (nonlinear_arith);
    }
}

/// A value smaller than `m` in size is its own remainder.
pub proof fn lemma_rem_small(x: int, m: int)
    requires
        m > 0,
        -m < x < m,
    ensures
        rem(x, m) == x,
{
    if x >= 0 {
        lemma_small_mod(x as nat, m as nat);
    } else {
        lemma_small_mod((-x) as nat, m as nat);
    }
}

/// Remainder toward zero of a 64-bit value by a positive 32-bit modulus.
pub fn rem_i64(a: i64, m: i32) -> (r: i32)
    requires
        m > 0,
    ensures
        r == rem(a as int, m as int),
        -(m as int) < r < m,
{
    (a % (m as i64)) as i32
}

/// Remainder toward zero of the product of two 32-bit values.
pub fn mul_rem(a: i32, b: i32, m: i32) -> (r: i32)
    requires
        m > 0,
    ensures
        r == rem(a as int * b as int, m as int),
        -(m as int) < r < m,
{
    assert(-0x4000_0000_0000_0000 <= (a as int) * (b as int) <= 0x4000_0000_0000_0000)
        by (nonlinear_arith)
        requires
            -0x8000_0000 <= a as int <= 0x7fff_ffff,
            -0x8000_0000 <= b as int <= 0x7fff_ffff,
    ;
    rem_i64((a as i64) * (b as i64), m)
}

/// Computes `base` to the power `exp`, reduced by `modulus`, by repeated
/// squaring. The result is the remainder, rounded toward zero, of the exact
/// power; for a base that is not negative that is the power modulo
/// `modulus`.
pub fn modpow(base: i32, exp: u32, modulus: i32) -> (result: i32)
    requires
        modulus > 1,
    ensures
        result == rem(pow(base as int, exp as nat), modulus as int),
        -(modulus as int) < result < modulus,
        base >= 0 ==> result == pow(base as int, exp as nat) % (modulus as int),
{
    let ghost m = modulus as int;
    proof {
        if base > 0 {
            lemma_pow_positive(base as int, exp as nat);
        } else if base == 0 {
            if exp == 0 {
                lemma_pow0(0);
            } else {
                lemma0_pow(exp as nat);
            }
        }
    }
    let mut result: i32 = 1;
    let mut b: i32 = rem_i64(base as i64, modulus);
    let mut e: u32 = exp;
    proof {
        lemma_rem_pow_base(1, base as int, exp as nat, m);
        assert(1 * pow(b as int, e as nat) == pow(b as int, e as nat));
        assert(1 * pow(base as int, exp as nat) == pow(base as int, exp as nat));
    }
    while e > 0
        invariant
            modulus > 1,
            m == modulus as int,
            -m < result < m,
            -m < b < m,
            rem(result as int * pow(b as int, e as nat), m) == rem(
                pow(base as int, exp as nat),
                m,
            ),
        decreases e,
    {
        let ghost q = (e / 2) as nat;
        let ghost old_result = result as int;
        let ghost old_b = b as int;
        let ghost b2 = old_b * old_b;
        let odd = e % 2 == 1;
        if odd {
            result = mul_rem(result, b, modulus);
        }
        e = e / 2;
        b = mul_rem(b, b, modulus);
        proof {
            let pq = pow(b2, q);
            // pow(old_b, 2q) == pow(b2, q)
            lemma_square_is_pow2(old_b);
            lemma_pow_multiplies(old_b, 2, q);
            assert(pow(old_b, 2 * q) == pq);
            lemma_rem_pow_base(result as int, b2, q, m);
            if odd {
                lemma_pow1(old_b);
                lemma_pow_adds(old_b, 1, 2 * q);
                assert(pow(old_b, 1 + 2 * q) == old_b * pq);
                lemma_rem_mul_left(old_result * old_b, pq, m);
                assert((old_result * old_b) * pq == old_result * (old_b * pq))
                    by (nonlinear_arith);
            }
        }
    }
    proof {
        lemma_pow0(b as int);
        lemma_rem_small(result as int, m);
    }
    result
}

/// Whether `n` is a power of two.
pub open spec fn is_power_of_two(n: nat) -> bool
    decreases n,
{
    n == 1 || (n > 1 && n % 2 == 0 && is_power_of_two(n / 2))
}

/// The coefficients as mathematical integers.
pub open spec fn ints(poly: Seq<i32>) -> Seq<int> {
    poly.map_values(|x: i32| x as int)
}

/// The coefficients at even positions.
pub open spec fn evens(poly: Seq<int>) -> Seq<int> {
    Seq::new(poly.len() / 2, |i: int| poly[2 * i])
}

/// The coefficients at odd positions.
pub open spec fn odds(poly: Seq<int>) -> Seq<int> {
    Seq::new(poly.len() / 2, |i: int| poly[2 * i + 1])
}

/// The `i`-th power of `root`, reduced after every multiplication.
pub open spec fn twiddle(root: int, i: nat, m: int) -> int
    decreases i,
{
    if i == 0 {
        1
    } else {
        rem(twiddle(root, (i - 1) as nat, m) * root, m)
    }
}

/// One butterfly output: position `i` of the transform of a polynomial whose
/// halves transform to `even` and `odd`.
pub open spec fn butterfly(even: Seq<int>, odd: Seq<int>, root: int, m: int, i: int) -> int {
    let half = even.len() as int;
    if i < half {
        rem(even[i] + rem(twiddle(root, i as nat, m) * odd[i], m), m)
    } else {
        rem(
            even[i - half] - rem(twiddle(root, (i - half) as nat, m) * odd[i - half], m) + m,
            m,
        )
    }
}

/// The transform of `poly` for `root` and modulus `m`: a polynomial of one
/// coefficient is its own transform; a longer one is split into its even and
/// odd coefficients, each half is transformed for the square of `root`, and
/// the halves are recombined by butterflies with the powers of `root`.
pub open spec fn transformed(poly: Seq<int>, root: int, m: int) -> Seq<int>
    decreases poly.len(),
{
    if poly.len() <= 1 {
        poly
    } else {
        let sq = rem(pow(root, 2), m);
        let even = transformed(evens(poly), sq, m);
        let odd = transformed(odds(poly), sq, m);
        Seq::new(poly.len(), |i: int| butterfly(even, odd, root, m, i))
    }
}

/// Transforms `poly` in place.
///
/// The length must be a power of two and the modulus above one. `root` is
/// meant to be a principal root of unity of that order modulo `modulus`, but
/// the result is defined for any `root`.
pub fn ntt(poly: &mut [i32], root: i32, modulus: i32)
    requires
        is_power_of_two(old(poly)@.len()),
        modulus > 1,
    ensures
        final(poly)@.len() == old(poly)@.len(),
        ints(final(poly)@) == transformed(ints(old(poly)@), root as int, modulus as int),
    decreases old(poly)@.len(),
{
    let n = poly.len();
    if n <= 1 {
        return ;
    }
    let ghost m = modulus as int;
    let ghost input = ints(poly@);
    let half = n / 2;
    let mut even: Vec<i32> = Vec::new();
    let mut odd: Vec<i32> = Vec::new();
    let mut i: usize = 0;
    while i < half
        invariant
            poly@.len() == n,
            half == n / 2,
            n % 2 == 0,
            i <= half,
            even@.len() == i,
            odd@.len() == i,
            forall|j: int| 0 <= j < i ==> even@[j] == poly@[2 * j],
            forall|j: int| 0 <= j < i ==> odd@[j] == poly@[2 * j + 1],
        decreases half - i,
    {
        even.push(poly[2 * i]);
        odd.push(poly[2 * i + 1]);
        i += 1;
    }
    assert(ints(even@) =~= evens(input));
    assert(ints(odd@) =~= odds(input));
    let root_sq = modpow(root, 2, modulus);
    ntt(even.as_mut_slice(), root_sq, modulus);
    ntt(odd.as_mut_slice(), root_sq, modulus);
    let ghost even_t = transformed(evens(input), root_sq as int, m);
    let ghost odd_t = transformed(odds(input), root_sq as int, m);
    let mut w: i32 = 1;
    let mut i: usize = 0;
    while i < half
        invariant
            poly@.len() == n,
            half == n / 2,
            n % 2 == 0,
            i <= half,
            modulus > 1,
            m == modulus as int,
            even@.len() == half,
            odd@.len() == half,
            ints(even@) == even_t,
            ints(odd@) == odd_t,
            -m < w < m,
            w == twiddle(root as int, i as nat, m),
            forall|j: int| 0 <= j < i ==> poly@[j] == butterfly(even_t, odd_t, root as int, m, j),
            forall|j: int|
                half <= j < half + i ==> poly@[j] == butterfly(even_t, odd_t, root as int, m, j),
        decreases half - i,
    {
        let t = mul_rem(w, odd[i], modulus);
        let e = even[i];
        assert(ints(even@)[i as int] == e);
        assert(ints(odd@)[i as int] == odd@[i as int]);
        let lo = rem_i64(e as i64 + t as i64, modulus);
        let hi = rem_i64(e as i64 - t as i64 + modulus as i64, modulus);
        poly[i] = lo;
        poly[i + half] = hi;
        w = mul_rem(w, root, modulus);
        i += 1;
    }
    assert(ints(poly@) =~= transformed(input, root as int, m));
}

} // verus!
