use simple_zk::schnorr::{SimpleZKProof, ZkError};

const LARGE_PRIME: u64 = 18446744073709551557;

fn toy_engine(secret: u64) -> (SimpleZKProof, u64) {
    let mut zk = SimpleZKProof::new();
    let h = zk.setup(secret).unwrap();
    (zk, h)
}

#[test]
fn toy_scenario_pins_arithmetic() {
    let (zk, h) = toy_engine(7);
    assert_eq!(h, 17);
    assert_eq!(SimpleZKProof::mod_pow(5, 6, 23), 8);
    assert_eq!(SimpleZKProof::mod_pow(5, 5, 23), 20);
    assert_eq!(SimpleZKProof::mod_pow(17, 3, 23), 14);
    assert_eq!(zk.prove_with(6, 3), Ok((8, 3, 5)));
    assert!(zk.verify(h, 8, 3, 5));
}

#[test]
fn honest_proofs_verify_for_every_secret() {
    for x in 0..=21u64 {
        let (zk, h) = toy_engine(x);
        for _ in 0..50 {
            let (t, c, s) = zk.prove().unwrap();
            assert!(zk.verify(h, t, c, s));
        }
        for r in 0..30u64 {
            for c in 0..30u64 {
                let (t, c2, s) = zk.prove_with(r, c).unwrap();
                assert!(zk.verify(h, t, c2, s));
            }
        }
    }
}

#[test]
fn honest_proofs_verify_over_a_large_prime() {
    let mut zk = SimpleZKProof::with_parameters(LARGE_PRIME, 2).unwrap();
    let h = zk.setup(LARGE_PRIME - 2).unwrap();
    for _ in 0..20 {
        let (t, c, s) = zk.prove().unwrap();
        assert!(t < LARGE_PRIME);
        assert!(s < LARGE_PRIME - 1);
        assert!(zk.verify(h, t, c, s));
    }
    let (t, c, s) = zk.prove_with(u64::MAX, u64::MAX).unwrap();
    assert!(zk.verify(h, t, c, s));
}

#[test]
fn fermat_holds_for_large_prime() {
    assert_eq!(SimpleZKProof::mod_pow(2, LARGE_PRIME - 1, LARGE_PRIME), 1);
    assert_eq!(SimpleZKProof::mod_pow(u64::MAX, LARGE_PRIME - 1, LARGE_PRIME), 1);
}

#[test]
fn tampered_commitment_is_rejected() {
    for x in 0..=21u64 {
        let (zk, h) = toy_engine(x);
        for r in 1..=21u64 {
            for c in 1..=21u64 {
                let (t, c, s) = zk.prove_with(r, c).unwrap();
                assert!(!zk.verify(h, t + 1, c, s));
                assert!(!zk.verify(h, (t + 1) % 23, c, s));
            }
        }
    }
}

#[test]
fn tampered_challenge_is_rejected_unless_public_value_is_one() {
    for x in 0..=21u64 {
        let (zk, h) = toy_engine(x);
        let (t, c, s) = zk.prove_with(4, 9).unwrap();
        assert_eq!(zk.verify(h, t, c + 1, s), h == 1);
    }
    // x = 0 gives h = 1: the tampered challenge collides and is accepted.
    let (zk, h) = toy_engine(0);
    assert_eq!(h, 1);
    let (t, c, s) = zk.prove_with(4, 9).unwrap();
    assert!(zk.verify(h, t, c + 1, s));
}

#[test]
fn tampered_response_is_rejected() {
    let (zk, h) = toy_engine(7);
    for r in 1..=21u64 {
        for c in 1..=21u64 {
            let (t, c, s) = zk.prove_with(r, c).unwrap();
            assert!(!zk.verify(h, t, c, s + 1));
            assert!(!zk.verify(h, t, c, (s + 1) % 22));
        }
    }
}

#[test]
fn tampered_response_collides_for_generator_one() {
    let mut zk = SimpleZKProof::with_parameters(23, 1).unwrap();
    let h = zk.setup(7).unwrap();
    assert_eq!(h, 1);
    let (t, c, s) = zk.prove_with(6, 3).unwrap();
    assert!(zk.verify(h, t, c, s + 1));
}

#[test]
fn forged_responses_hit_at_the_challenge_space_rate() {
    let (zk, h) = toy_engine(7);
    let t = 8u64;
    let mut hits = 0u64;
    for c in 0..22u64 {
        for s in 0..22u64 {
            if zk.verify(h, t, c, s) {
                hits += 1;
            }
        }
    }
    // One response in 22 is accepted for each challenge.
    assert_eq!(hits, 22);
}

#[test]
fn mod_pow_edge_cases() {
    for a in [0u64, 1, 2, 5, 22, 23, u64::MAX] {
        assert_eq!(SimpleZKProof::mod_pow(a, 0, 23), 1);
        assert_eq!(SimpleZKProof::mod_pow(a, 0, 1), 0);
        for b in [0u64, 1, 7, u64::MAX] {
            assert_eq!(SimpleZKProof::mod_pow(a, b, 1), 0);
        }
    }
    assert_eq!(SimpleZKProof::mod_pow(0, 5, 23), 0);
    assert_eq!(SimpleZKProof::mod_pow(2, 10, 1000), 24);
    assert_eq!(SimpleZKProof::mod_pow(3, 200, 1_000_000_007), 136_318_165);
}

#[test]
fn mod_pow_is_deterministic() {
    let first = SimpleZKProof::mod_pow(123_456_789, 987_654_321, LARGE_PRIME);
    for _ in 0..10 {
        assert_eq!(SimpleZKProof::mod_pow(123_456_789, 987_654_321, LARGE_PRIME), first);
    }
}

#[test]
fn setup_rejects_secret_out_of_range() {
    let mut zk = SimpleZKProof::new();
    assert_eq!(zk.setup(22), Err(ZkError::InvalidSecret));
    assert_eq!(zk.setup(u64::MAX), Err(ZkError::InvalidSecret));
    assert_eq!(zk.prove(), Err(ZkError::NotConfigured));
    assert_eq!(zk.setup(21), Ok(SimpleZKProof::mod_pow(5, 21, 23)));
}

#[test]
fn setup_rebinds_to_new_secret() {
    let mut zk = SimpleZKProof::new();
    assert_eq!(zk.setup(7), Ok(17));
    assert_eq!(zk.setup(3), Ok(10));
    assert_eq!(zk.prove_with(6, 3), Ok((8, 3, 15)));
    // A failed setup keeps the earlier binding.
    assert_eq!(zk.setup(30), Err(ZkError::InvalidSecret));
    assert_eq!(zk.prove_with(6, 3), Ok((8, 3, 15)));
}

#[test]
fn prove_before_setup_fails() {
    let zk = SimpleZKProof::new();
    assert_eq!(zk.prove(), Err(ZkError::NotConfigured));
    assert_eq!(zk.prove_with(6, 3), Err(ZkError::NotConfigured));
}

#[test]
fn degenerate_parameters_are_refused() {
    assert!(matches!(SimpleZKProof::with_parameters(0, 1), Err(ZkError::DegenerateParameters)));
    assert!(matches!(SimpleZKProof::with_parameters(2, 1), Err(ZkError::DegenerateParameters)));
    assert!(matches!(SimpleZKProof::with_parameters(23, 0), Err(ZkError::DegenerateParameters)));
    assert!(matches!(SimpleZKProof::with_parameters(23, 23), Err(ZkError::DegenerateParameters)));
    assert!(SimpleZKProof::with_parameters(3, 2).is_ok());
    assert!(SimpleZKProof::with_parameters(23, 22).is_ok());
}

#[test]
fn proof_carries_neither_secret_nor_nonce() {
    let (zk, _) = toy_engine(7);
    let (t, c, s) = zk.prove_with(6, 3).unwrap();
    for v in [t, c, s] {
        assert_ne!(v, 7);
        assert_ne!(v, 6);
    }
}

#[test]
fn prove_draws_nonce_and_challenge_in_range() {
    let (zk, h) = toy_engine(7);
    let mut challenges = Vec::new();
    for _ in 0..200 {
        let (t, c, s) = zk.prove().unwrap();
        assert!((1..=21).contains(&c));
        assert!(t < 23);
        assert!(s < 22);
        assert!(zk.verify(h, t, c, s));
        challenges.push(c);
    }
    assert!(challenges.iter().any(|&c| c != 1));
    assert!(challenges.iter().any(|&c| c != challenges[0]));
}
