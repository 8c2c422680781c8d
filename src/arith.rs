//! Modular arithmetic facts used by the proof engine.
use vstd::arithmetic::div_mod::{
    lemma_fundamental_div_mod, lemma_mul_mod_noop_left, lemma_mul_mod_noop_right, lemma_small_mod,
};
use vstd::arithmetic::power::{
    lemma0_pow, lemma1_pow, lemma_pow_adds, lemma_pow_mod_noop, lemma_pow_multiplies, lemma_pow1, lemma_square_is_pow2,
    pow,
};
use vstd::prelude::*;

verus! {

/// `base` raised to `exponent`, reduced modulo `modulus`.
pub open spec fn pow_mod(base: int, exponent: nat, modulus: int) -> int {
    pow(base, exponent) % modulus
}

/// The product of two 64-bit values fits in 128 bits.
pub proof fn lemma_product_fits(a: u64, b: u64)
    ensures
        (a as int) * (b as int) <= (u64::MAX as int) * (u64::MAX as int),
        (a as int) * (b as int) <= u128::MAX,
{
    assert((a as int) * (b as int) <= (u64::MAX as int) * (u64::MAX as int)) by (nonlinear_arith)
        requires
            a <= u64::MAX,
            b <= u64::MAX,
    ;
}

/// Multiplying both sides of a congruence by the same factor keeps it.
pub proof fn lemma_mul_congruent(a: int, x: int, y: int, m: int)
    requires
        m > 0,
        x % m == y % m,
    ensures
        (a * x) % m == (a * y) % m,
{
    lemma_mul_mod_noop_right(a, x, m);
    lemma_mul_mod_noop_right(a, y, m);
}

/// Squaring the base modulo `m` and halving the exponent keeps the power.
pub proof fn lemma_square_halves(base: int, k: nat, m: int)
    requires
        m > 0,
    ensures
        pow((base * base) % m, k) % m == pow(base, 2 * k) % m,
{
    lemma_square_is_pow2(base);
    lemma_pow_multiplies(base, 2, k);
    lemma_pow_mod_noop(base * base, k, m);
}

/// One round of square-and-multiply keeps `acc * base^exp (mod m)`.
pub proof fn lemma_square_multiply_step(acc: int, base: int, exp: nat, m: int)
    requires
        m > 0,
    ensures
        exp % 2 == 1 ==> ((acc * base) % m) * pow((base * base) % m, exp / 2) % m
            == acc * pow(base, exp) % m,
        exp % 2 == 0 ==> acc * pow((base * base) % m, exp / 2) % m == acc * pow(base, exp) % m,
{
    let k: nat = exp / 2;
    lemma_square_halves(base, k, m);
    lemma_mul_congruent(acc, pow((base * base) % m, k), pow(base, 2 * k), m);
    if exp % 2 == 1 {
        let q = pow((base * base) % m, k);
        lemma_mul_mod_noop_left(acc * base, q, m);
        lemma_mul_congruent(acc * base, q, pow(base, 2 * k), m);
        lemma_pow_adds(base, 1, 2 * k);
        lemma_pow1(base);
        assert(exp == 1 + 2 * k);
        assert((acc * base) * pow(base, 2 * k) == acc * (base * pow(base, 2 * k))) by (nonlinear_arith);
    } else {
        assert(exp == 2 * k);
    }
}

/// When `g^n == 1 (mod p)`, every power `g^(n*q)` is `1 (mod p)`.
pub proof fn lemma_power_of_unit(p: int, g: int, n: nat, q: nat)
    requires
        p >= 2,
        pow(g, n) % p == 1,
    ensures
        pow(g, n * q) % p == 1,
{
    lemma_pow_multiplies(g, n, q);
    lemma_pow_mod_noop(pow(g, n), q, p);
    lemma1_pow(q);
    lemma_small_mod(1, p as nat);
}

/// When `g^n == 1 (mod p)` with `n >= 1`, exponents of `g` may be reduced modulo `n`.
pub proof fn lemma_reduce_exponent(p: int, g: int, n: nat, e: nat)
    requires
        p >= 2,
        n >= 1,
        pow(g, n) % p == 1,
    ensures
        pow(g, e % n) % p == pow(g, e) % p,
{
    let q: nat = e / n;
    let s: nat = e % n;
    lemma_fundamental_div_mod(e as int, n as int);
    assert(e == n * q + s);
    lemma_pow_adds(g, n * q, s);
    lemma_power_of_unit(p, g, n, q);
    lemma_mul_mod_noop_left(pow(g, n * q), pow(g, s), p);
}

/// `(g^a mod p)^c * g^r == g^(r + c*a)` modulo `p`.
pub proof fn lemma_combine_powers(p: int, g: int, a: nat, r: nat, c: nat)
    requires
        p >= 1,
    ensures
        ((pow(g, r) % p) * pow(pow(g, a) % p, c)) % p == pow(g, r + c * a) % p,
{
    let hc = pow(pow(g, a) % p, c);
    lemma_pow_mod_noop(pow(g, a), c, p);
    lemma_pow_multiplies(g, a, c);
    assert(a * c == c * a) by (nonlinear_arith);
    lemma_mul_mod_noop_left(pow(g, r), hc, p);
    lemma_mul_congruent(pow(g, r), hc, pow(g, c * a), p);
    lemma_pow_adds(g, r, c * a);
}

/// When `g^n == 1 (mod p)` with `n >= 1`, no power of `g` is `0 (mod p)`.
pub proof fn lemma_power_nonzero(p: int, g: int, n: nat, k: nat)
    requires
        p >= 2,
        n >= 1,
        pow(g, n) % p == 1,
    ensures
        pow(g, k) % p != 0,
{
    if pow(g, k) % p == 0 {
        lemma_pow_mod_noop(pow(g, k), n, p);
        lemma0_pow(n);
        assert(pow(pow(g, k) % p, n) == 0);
        assert(0int % p == 0);
        assert(pow(pow(g, k), n) % p == 0);
        lemma_pow_multiplies(g, k, n);
        assert(k * n == n * k) by (nonlinear_arith);
        lemma_power_of_unit(p, g, n, k);
        assert(pow(g, k * n) % p == 0);
    }
}

/// When `g^n == 1 (mod p)` with `n >= 1`, multiplying a power of `g` by `a`
/// leaves it unchanged modulo `p` only if `a == 1 (mod p)`.
pub proof fn lemma_cancel_power(p: int, g: int, n: nat, k: nat, a: int)
    requires
        p >= 2,
        n >= 1,
        pow(g, n) % p == 1,
        (pow(g, k) * a) % p == pow(g, k) % p,
    ensures
        a % p == 1,
{
    let l = pow(g, k);
    let inv = pow(g, k * ((n - 1) as nat));
    lemma_pow_adds(g, k, k * ((n - 1) as nat));
    assert(k + k * ((n - 1) as nat) == n * k) by (nonlinear_arith)
        requires
            n >= 1,
    ;
    lemma_power_of_unit(p, g, n, k);
    // (l * a) * inv is both a and 1 modulo p.
    lemma_mul_mod_noop_left(l * a, inv, p);
    lemma_mul_mod_noop_left(l, inv, p);
    assert((l * a) * inv == (l * inv) * a) by (nonlinear_arith);
    lemma_mul_mod_noop_left(l * inv, a, p);
    lemma_small_mod(1, p as nat);
}

} // verus!
