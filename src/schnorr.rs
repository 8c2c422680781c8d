//! The Schnorr proof engine: key setup, proof generation and verification.
use crate::laws::{lemma_completeness, lemma_toy_group_wraps};
use crate::arith::{lemma_product_fits, lemma_square_multiply_step, pow_mod};
use vstd::arithmetic::div_mod::{lemma_mul_mod_noop_left, lemma_mul_mod_noop_right, lemma_small_mod};
use vstd::arithmetic::power::{lemma_pow0, lemma_pow_mod_noop, pow};
use vstd::prelude::*;

verus! {

/// Why an operation of the engine was refused.
#[derive(Debug, Clone, Copy, PartialEq, Eq, Structural)]
pub enum ZkError {
    /// The secret lies outside `[0, p-2]`.
    InvalidSecret,
    /// A proof was asked for before any secret was set up.
    NotConfigured,
    /// The modulus is at most 2, or the generator lies outside `[1, p-1]`.
    DegenerateParameters,
}

/// The relation a verifier checks: `g^s == t * h^c (mod p)`.
pub open spec fn verifies(p: int, g: int, h: int, t: int, c: nat, s: nat) -> bool {
    pow_mod(g, s, p) == (t * pow(h, c)) % p
}

/// `g^(p-1) == 1 (mod p)`: exponents of `g` may be reduced modulo `p-1`.
/// Fermat's little theorem gives this for a prime `p` and `g` in `[1, p-1]`.
pub open spec fn exponents_wrap(p: int, g: int) -> bool {
    pow_mod(g, (p - 1) as nat, p) == 1
}

/// The response to challenge `c` for nonce `r` and secret `x`.
pub open spec fn response(p: int, r: int, c: int, x: int) -> int {
    (r + c * x) % (p - 1)
}

/// The engine: group parameters, the prover's secret and its public value.
pub struct SimpleZKProof {
    p: u64,
    g: u64,
    secret_x: u64,
    h: u64,
    configured: bool,
}

impl SimpleZKProof {
    /// The prime modulus `p`.
    pub closed spec fn modulus_spec(&self) -> int {
        self.p as int
    }

    /// The generator `g`.
    pub closed spec fn generator_spec(&self) -> int {
        self.g as int
    }

    /// The prover's secret `x`, meaningful once configured.
    pub closed spec fn secret_spec(&self) -> int {
        self.secret_x as int
    }

    /// The public value `h`, meaningful once configured.
    pub closed spec fn public_value_spec(&self) -> int {
        self.h as int
    }

    /// Whether a secret has been set up.
    pub closed spec fn configured_spec(&self) -> bool {
        self.configured
    }

    /// Parameters are in range and, once configured, `h == g^x mod p` with `x <= p-2`.
    pub closed spec fn wf(&self) -> bool {
        &&& self.p >= 3
        &&& 1 <= self.g < self.p
        &&& self.configured ==> {
            &&& self.secret_x <= self.p - 2
            &&& self.h == pow_mod(self.g as int, self.secret_x as nat, self.p as int)
        }
    }

    /// An engine over the toy group `p = 23`, `g = 5`, with no secret yet.
    pub fn new() -> (r: Self)
        ensures
            r.wf(),
            r.modulus_spec() == 23,
            r.generator_spec() == 5,
            exponents_wrap(r.modulus_spec(), r.generator_spec()),
            !r.configured_spec(),
    {
        proof {
            lemma_toy_group_wraps();
        }
        SimpleZKProof { p: 23, g: 5, secret_x: 0, h: 0, configured: false }
    }

    /// An engine over the group given by `modulus` and `generator`, with no secret yet.
    pub fn with_parameters(modulus: u64, generator: u64) -> (r: Result<Self, ZkError>)
        ensures
            (modulus <= 2 || generator == 0 || generator >= modulus) <==> r is Err,
            r is Err ==> r == Err::<Self, ZkError>(ZkError::DegenerateParameters),
            r matches Ok(e) ==> {
                &&& e.wf()
                &&& e.modulus_spec() == modulus
                &&& e.generator_spec() == generator
                &&& !e.configured_spec()
            },
    {
        if modulus <= 2 || generator == 0 || generator >= modulus {
            Err(ZkError::DegenerateParameters)
        } else {
            Ok(SimpleZKProof { p: modulus, g: generator, secret_x: 0, h: 0, configured: false })
        }
    }

    /// Binds the engine to `secret_x` and returns the public value `g^x mod p`.
    /// Calling it again rebinds the engine to the new secret.
    pub fn setup(&mut self, secret_x: u64) -> (r: Result<u64, ZkError>)
        requires
            old(self).wf(),
        ensures
            final(self).wf(),
            final(self).modulus_spec() == old(self).modulus_spec(),
            final(self).generator_spec() == old(self).generator_spec(),
            secret_x <= old(self).modulus_spec() - 2 <==> r is Ok,
            r matches Ok(h) ==> {
                &&& h == pow_mod(old(self).generator_spec(), secret_x as nat, old(self).modulus_spec())
                &&& final(self).configured_spec()
                &&& final(self).secret_spec() == secret_x
                &&& final(self).public_value_spec() == h
            },
            r is Err ==> r == Err::<u64, ZkError>(ZkError::InvalidSecret) && *final(self) == *old(self),
    {
        if secret_x > self.p - 2 {
            return Err(ZkError::InvalidSecret);
        }
        self.secret_x = secret_x;
        self.h = Self::mod_pow(self.g, secret_x, self.p);
        self.configured = true;
        Ok(self.h)
    }

    /// The proof `(t, c, s)` for nonce `nonce` and challenge `challenge`:
    /// `t = g^nonce mod p` and `s = (nonce + challenge * x) mod (p-1)`.
    pub fn prove_with(&self, nonce: u64, challenge: u64) -> (res: Result<(u64, u64, u64), ZkError>)
        requires
            self.wf(),
        ensures
            self.configured_spec() <==> res is Ok,
            res is Err ==> res == Err::<(u64, u64, u64), ZkError>(ZkError::NotConfigured),
            res matches Ok((t, c, s)) ==> {
                &&& t == pow_mod(self.generator_spec(), nonce as nat, self.modulus_spec())
                &&& c == challenge
                &&& s == response(self.modulus_spec(), nonce as int, challenge as int, self.secret_spec())
            },
            res matches Ok((t, c, s)) ==> (exponents_wrap(self.modulus_spec(), self.generator_spec())
                ==> verifies(
                self.modulus_spec(),
                self.generator_spec(),
                self.public_value_spec(),
                t as int,
                c as nat,
                s as nat,
            )),
    {
        if !self.configured {
            return Err(ZkError::NotConfigured);
        }
        let t = Self::mod_pow(self.g, nonce, self.p);
        proof {
            lemma_product_fits(challenge, self.secret_x);
        }
        let cx: u128 = (challenge as u128) * (self.secret_x as u128);
        assert(cx + nonce <= u128::MAX) by (nonlinear_arith)
            requires
                cx <= (u64::MAX as int) * (u64::MAX as int),
                nonce <= u64::MAX,
        ;
        let s = ((nonce as u128 + cx) % ((self.p - 1) as u128)) as u64;
        proof {
            if exponents_wrap(self.p as int, self.g as int) {
                lemma_completeness(self.p as int, self.g as int, self.secret_x as nat, nonce as nat, challenge as nat);
            }
        }
        Ok((t, challenge, s))
    }

    /// A proof with a fresh nonce and challenge, each drawn from `[1, p-2]`.
    pub fn prove(&self) -> (res: Result<(u64, u64, u64), ZkError>)
        requires
            self.wf(),
        ensures
            self.configured_spec() <==> res is Ok,
            res is Err ==> res == Err::<(u64, u64, u64), ZkError>(ZkError::NotConfigured),
            res matches Ok((t, c, s)) ==> {
                &&& 1 <= c <= self.modulus_spec() - 2
                &&& exists|nonce: nat|
                    1 <= nonce <= self.modulus_spec() - 2
                    && t == #[trigger] pow_mod(self.generator_spec(), nonce, self.modulus_spec())
                    && s == response(self.modulus_spec(), nonce as int, c as int, self.secret_spec())
            },
            res matches Ok((t, c, s)) ==> (exponents_wrap(self.modulus_spec(), self.generator_spec())
                ==> verifies(
                self.modulus_spec(),
                self.generator_spec(),
                self.public_value_spec(),
                t as int,
                c as nat,
                s as nat,
            )),
    {
        if !self.configured {
            return Err(ZkError::NotConfigured);
        }
        let nonce = random_in(1, self.p - 1);
        let challenge = random_in(1, self.p - 1);
        let res = self.prove_with(nonce, challenge);
        proof {
            if let Ok((t, _, _)) = res {
                assert(t == pow_mod(self.g as int, nonce as nat, self.p as int));
            }
        }
        res
    }

    /// Checks a proof `(t, c, s)` against the public value `h`: `g^s == t * h^c (mod p)`.
    pub fn verify(&self, h: u64, t: u64, c: u64, s: u64) -> (r: bool)
        requires
            self.wf(),
        ensures
            r == verifies(self.modulus_spec(), self.generator_spec(), h as int, t as int, c as nat, s as nat),
    {
        let left = Self::mod_pow(self.g, s, self.p);
        let hc = Self::mod_pow(h, c, self.p);
        proof {
            lemma_product_fits(t, hc);
            lemma_mul_mod_noop_right(t as int, pow(h as int, c as nat), self.p as int);
        }
        let right = (((t as u128) * (hc as u128)) % (self.p as u128)) as u64;
        left == right
    }

    /// Computes `base^exp mod modulus` by square-and-multiply.
    pub fn mod_pow(base: u64, exp: u64, modulus: u64) -> (r: u64)
        requires
            modulus >= 1,
        ensures
            r == pow_mod(base as int, exp as nat, modulus as int),
            r < modulus,
    {
        let ghost b0 = base as int;
        let ghost e0 = exp as nat;
        let m: u128 = modulus as u128;
        let mut result: u64 = 1u64 % modulus;
        let mut base: u64 = base % modulus;
        let mut exp: u64 = exp;
        proof {
            lemma_pow_mod_noop(b0, e0, modulus as int);
            lemma_mul_mod_noop_left(1, pow(base as int, e0), modulus as int);
        }
        while exp > 0
            invariant
                m == modulus as u128,
                modulus >= 1,
                result < modulus,
                base < modulus,
                (result * pow(base as int, exp as nat)) % (modulus as int)
                    == pow_mod(b0, e0, modulus as int),
            decreases exp,
        {
            proof {
                lemma_square_multiply_step(result as int, base as int, exp as nat, modulus as int);
            }
            proof {
                lemma_product_fits(result, base);
                lemma_product_fits(base, base);
            }
            if exp % 2 == 1 {
                result = (((result as u128) * (base as u128)) % m) as u64;
            }
            exp = exp / 2;
            base = (((base as u128) * (base as u128)) % m) as u64;
        }
        proof {
            lemma_pow0(base as int);
            lemma_small_mod(result as nat, modulus as nat);
        }
        result
    }
}

/// Relies on rand::thread_rng and Rng::gen_range: a value of the half-open
/// range `lo..hi`, drawn by the system-seeded cryptographic generator.
/// gen_range panics on an empty range, which `lo < hi` rules out.
#[verifier::external_body]
fn random_in(lo: u64, hi: u64) -> (r: u64)
    requires
        lo < hi,
    ensures
        lo <= r < hi,
{
    rand::Rng::gen_range(&mut rand::thread_rng(), lo..hi)
}

} // verus!
