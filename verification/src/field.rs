//! Arithmetic in the prime field of the consistency argument.
//!
//! The field is the integers modulo the Mersenne prime `2^61 - 1`; trace
//! columns are mapped into it and combined at a transcript-derived challenge
//! point.

use vstd::prelude::*;
use vstd::arithmetic::div_mod::lemma_fundamental_div_mod;
use vstd::arithmetic::div_mod::lemma_fundamental_div_mod_converse;

verus! {

/// The field modulus, the Mersenne prime `2^61 - 1`.
pub const FIELD_MODULUS: u64 = 0x1FFFFFFFFFFFFFFF;

/// The sum of two field elements.
pub open spec fn spec_add_mod(a: u64, b: u64) -> u64 {
    (((a + b) as int) % (FIELD_MODULUS as int)) as u64
}

/// The product of two field elements.
pub open spec fn spec_mul_mod(a: u64, b: u64) -> u64 {
    (((a * b) as int) % (FIELD_MODULUS as int)) as u64
}

/// The field element that a signed trace value stands for.
pub open spec fn spec_to_field(x: i64) -> u64 {
    ((x as int) % (FIELD_MODULUS as int)) as u64
}

/// Adds two field elements.
pub fn add_mod(a: u64, b: u64) -> (r: u64)
    requires
        a < FIELD_MODULUS,
        b < FIELD_MODULUS,
    ensures
        r == spec_add_mod(a, b),
        r < FIELD_MODULUS,
{
    let s = a + b;
    if s >= FIELD_MODULUS {
        proof {
            lemma_fundamental_div_mod_converse(
                s as int,
                FIELD_MODULUS as int,
                1,
                s - FIELD_MODULUS,
            );
        }
        s - FIELD_MODULUS
    } else {
        proof {
            lemma_fundamental_div_mod_converse(s as int, FIELD_MODULUS as int, 0, s as int);
        }
        s
    }
}

/// Multiplies two field elements.
pub fn mul_mod(a: u64, b: u64) -> (r: u64)
    requires
        a < FIELD_MODULUS,
        b < FIELD_MODULUS,
    ensures
        r == spec_mul_mod(a, b),
        r < FIELD_MODULUS,
{
    proof {
        assert((a as int) * (b as int) <= 0xFFFFFFFFFFFFFFFF * 0xFFFFFFFFFFFFFFFF)
            by (nonlinear_arith)
            requires
                a <= 0xFFFFFFFFFFFFFFFFu64,
                b <= 0xFFFFFFFFFFFFFFFFu64,
        ;
    }
    let p = (a as u128) * (b as u128);
    (p % (FIELD_MODULUS as u128)) as u64
}

/// Reduces a signed 64-bit value into the field.
pub fn to_field(x: i64) -> (r: u64)
    ensures
        r == spec_to_field(x),
        r < FIELD_MODULUS,
{
    if x >= 0 {
        (x as u64) % FIELD_MODULUS
    } else {
        let mag: u64 = ((-(x + 1)) as u64) + 1;
        let m = mag % FIELD_MODULUS;
        proof {
            let p = FIELD_MODULUS as int;
            let q = mag as int / p;
            lemma_fundamental_div_mod(mag as int, p);
            if m == 0 {
                lemma_fundamental_div_mod_converse(x as int, p, -q, 0);
            } else {
                lemma_fundamental_div_mod_converse(x as int, p, -q - 1, p - m);
            }
        }
        if m == 0 {
            0
        } else {
            FIELD_MODULUS - m
        }
    }
}

/// The combination of a coefficient column at the challenge point `c`:
/// `coeffs[0] + c * (coeffs[1] + c * (...))`, all in the field.
pub open spec fn spec_poly_eval(coeffs: Seq<u64>, c: u64) -> u64
    decreases coeffs.len(),
{
    if coeffs.len() == 0 {
        0u64
    } else {
        spec_add_mod(
            (coeffs[0] % FIELD_MODULUS) as u64,
            spec_mul_mod(c, spec_poly_eval(coeffs.subrange(1, coeffs.len() as int), c)),
        )
    }
}

/// The combination always lands in the field.
pub proof fn lemma_poly_eval_bound(coeffs: Seq<u64>, c: u64)
    ensures
        spec_poly_eval(coeffs, c) < FIELD_MODULUS,
    decreases coeffs.len(),
{
    if coeffs.len() == 0 {
    } else {
        lemma_poly_eval_bound(coeffs.subrange(1, coeffs.len() as int), c);
    }
}

/// Evaluates the combination of `coeffs` at the challenge point `c`.
pub fn poly_eval(coeffs: &Vec<u64>, c: u64) -> (r: u64)
    requires
        c < FIELD_MODULUS,
    ensures
        r == spec_poly_eval(coeffs@, c),
        r < FIELD_MODULUS,
{
    let n = coeffs.len();
    let mut e: u64 = 0;
    let mut i: usize = n;
    while i > 0
        invariant
            i <= n,
            n == coeffs@.len(),
            c < FIELD_MODULUS,
            e == spec_poly_eval(coeffs@.subrange(i as int, n as int), c),
            e < FIELD_MODULUS,
        decreases i,
    {
        i = i - 1;
        let ci = coeffs[i] % FIELD_MODULUS;
        e = add_mod(ci, mul_mod(c, e));
        proof {
            let tail = coeffs@.subrange(i as int, n as int);
            assert(tail.subrange(1, tail.len() as int) =~= coeffs@.subrange(i + 1, n as int));
        }
    }
    proof {
        assert(coeffs@.subrange(0, n as int) =~= coeffs@);
    }
    e
}

} // verus!
