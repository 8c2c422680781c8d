//! Laws of the proof engine, stated over the relation a verifier checks.
use crate::arith::{
    lemma_cancel_power, lemma_combine_powers, lemma_power_nonzero,
    lemma_reduce_exponent, pow_mod,
};
use crate::schnorr::{exponents_wrap, response, verifies};
use vstd::arithmetic::div_mod::{lemma_mul_mod_noop_left, lemma_small_mod, lemma_sub_mod_noop};
use vstd::arithmetic::power::{
    lemma_pow0, lemma_pow1, lemma_pow_adds, lemma_pow_mod_noop, lemma_pow_multiplies, lemma_square_is_pow2,
    pow,
};
use vstd::prelude::*;

verus! {

/// Completeness: with `h = g^x mod p`, every honest proof
/// `(g^r mod p, c, (r + c*x) mod (p-1))` is accepted, for every nonce `r`
/// and challenge `c`, whenever `g^(p-1) == 1 (mod p)` (as for a prime `p`).
pub proof fn lemma_completeness(p: int, g: int, x: nat, r: nat, c: nat)
    requires
        p >= 3,
        1 <= g < p,
        exponents_wrap(p, g),
    ensures
        verifies(p, g, pow_mod(g, x, p), pow_mod(g, r, p), c, response(p, r as int, c as int, x as int) as nat),
{
    lemma_reduce_exponent(p, g, (p - 1) as nat, r + c * x);
    lemma_combine_powers(p, g, x, r, c);
}

/// Rejection of tampering: take an accepted proof `(t, c, s)` for
/// `h = g^x mod p`, with `g^(p-1) == 1 (mod p)`. Then
/// - `t + 1` (or `(t + 1) mod p`) in place of `t` is always rejected;
/// - `c + 1` in place of `c` is rejected unless `h == 1`;
/// - `s + 1` (or `(s + 1) mod (p-1)`) in place of `s` is rejected unless `g == 1`.
/// The two exceptions are the only collisions: there the tampered proof is accepted.
pub proof fn lemma_tampering_rejected(p: int, g: int, x: nat, t: int, c: nat, s: nat)
    requires
        p >= 3,
        1 <= g < p,
        exponents_wrap(p, g),
        verifies(p, g, pow_mod(g, x, p), t, c, s),
    ensures
        !verifies(p, g, pow_mod(g, x, p), t + 1, c, s),
        !verifies(p, g, pow_mod(g, x, p), (t + 1) % p, c, s),
        pow_mod(g, x, p) != 1 <==> !verifies(p, g, pow_mod(g, x, p), t, c + 1, s),
        g != 1 <==> !verifies(p, g, pow_mod(g, x, p), t, c, s + 1),
        g != 1 <==> !verifies(p, g, pow_mod(g, x, p), t, c, ((s + 1) as int % (p - 1)) as nat),
{
    let n: nat = (p - 1) as nat;
    let h = pow_mod(g, x, p);
    let hc = pow(h, c);
    let gs = pow(g, s);
    // A changed commitment shifts the right side by h^c, which is never 0 (mod p).
    lemma_pow_mod_noop(pow(g, x), c, p);
    lemma_pow_multiplies(g, x, c);
    lemma_power_nonzero(p, g, n, x * c);
    assert((t + 1) * hc - t * hc == hc) by (nonlinear_arith);
    lemma_sub_mod_noop((t + 1) * hc, t * hc, p);
    lemma_small_mod(0, p as nat);
    lemma_mul_mod_noop_left(t + 1, hc, p);
    // A changed challenge multiplies the right side by h.
    lemma_pow_adds(h, c, 1);
    lemma_pow1(h);
    assert(t * (hc * h) == (t * hc) * h) by (nonlinear_arith);
    lemma_mul_mod_noop_left(t * hc, h, p);
    lemma_mul_mod_noop_left(gs, h, p);
    if verifies(p, g, h, t, c + 1, s) {
        lemma_cancel_power(p, g, n, s, h);
    }
    lemma_small_mod(h as nat, p as nat);
    lemma_small_mod(1, p as nat);
    // A changed response multiplies the left side by g.
    lemma_pow_adds(g, s, 1);
    lemma_pow1(g);
    if verifies(p, g, h, t, c, s + 1) {
        lemma_cancel_power(p, g, n, s, g);
    }
    lemma_small_mod(g as nat, p as nat);
    lemma_reduce_exponent(p, g, n, s + 1);
}

/// The toy group `p = 23`, `g = 5` lets exponents wrap modulo 22.
pub proof fn lemma_toy_group_wraps()
    ensures
        exponents_wrap(23, 5),
{
    lemma_pow_multiplies(5, 2, 11);
    lemma_square_is_pow2(5);
    lemma_pow_mod_noop(25, 11, 23);
    reveal_with_fuel(pow, 12);
    assert(pow(2, 11) == 2048);
}

/// Edge cases of modular exponentiation: a zero exponent gives `1 mod m`,
/// and the modulus 1 gives 0 for every base and exponent.
pub proof fn lemma_pow_mod_edges(a: int, b: nat, m: int)
    requires
        m >= 1,
    ensures
        pow_mod(a, 0, m) == 1int % m,
        pow_mod(a, b, 1) == 0,
{
    lemma_pow0(a);
}

} // verus!
