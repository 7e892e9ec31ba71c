//! Interactive runs of the atomic protocols and their combinators.

use curve25519_dalek::constants::RISTRETTO_BASEPOINT_POINT;
use curve25519_dalek::ristretto::RistrettoPoint;
use curve25519_dalek::scalar::Scalar;

use amf::and_proof::{AndProver, AndVerifier};
use amf::chaum_pedersen::{
    ChaumPedersenProver, ChaumPedersenVerifier, ChaumPedersenWitnessStatement,
};
use amf::linear_sigma::{SigmaProver, SigmaVerifier};
use amf::or_proof::{OrProver, OrVerifier, OrWitness};
use amf::schnorr::{SchnorrProver, SchnorrVerifier};
use amf::{GroupPoint, GroupScalar};

fn scalar(s: &Scalar) -> GroupScalar {
    GroupScalar { bytes: s.to_bytes() }
}

fn point(p: &RistrettoPoint) -> GroupPoint {
    GroupPoint {
        bytes: p.compress().to_bytes(),
    }
}

#[test]
fn test_schnorr() {
    let mut rng = rand::thread_rng();
    let g = RISTRETTO_BASEPOINT_POINT;

    // 0. Fix a witness, and define the statement to prove
    let witness = Scalar::random(&mut rng);
    let witness_statement = point(&(witness * g));

    // 1. Initialize a Schnorr prover and verifier with the statement to prove
    let mut prover = SchnorrProver::new(witness_statement);
    let mut verifier = SchnorrVerifier::new(witness_statement);

    // 2. Run the interactive protocol, honestly and simulated
    let prover_commitment = prover.generate_commitment(scalar(&witness));
    let random_challenge = verifier.generate_random_challenge();
    let prover_response = prover.generate_response_to_challenge(random_challenge);
    assert!(verifier.verify_response_to_challenge(
        prover_commitment,
        random_challenge,
        prover_response
    ));

    let random_challenge = verifier.generate_random_challenge();
    let (prover_commitment, prover_response) =
        verifier.simulate_prover_responses(random_challenge);
    assert!(verifier.verify_response_to_challenge(
        prover_commitment,
        random_challenge,
        prover_response
    ));
}

#[test]
fn test_chaum_pedersen() {
    let mut rng = rand::thread_rng();
    let g = RISTRETTO_BASEPOINT_POINT;

    // 0. Fix a witness and a statement to prove
    let witness = Scalar::random(&mut rng);
    let v = witness * g;
    let u = RistrettoPoint::random(&mut rng);
    let w = witness * u;
    let witness_statement = ChaumPedersenWitnessStatement {
        u: point(&u),
        v: point(&v),
        w: point(&w),
    };

    // 1. Initialize a Chaum-Pedersen prover and verifier
    let mut prover = ChaumPedersenProver::new(witness_statement);
    let mut verifier = ChaumPedersenVerifier::new(witness_statement);

    // 2. Run the interactive protocol, honestly and simulated
    let prover_commitment = prover.generate_commitment(scalar(&witness));
    let random_challenge = verifier.generate_random_challenge();
    let prover_response = prover.generate_response_to_challenge(random_challenge);
    assert!(verifier.verify_response_to_challenge(
        prover_commitment,
        random_challenge,
        prover_response
    ));

    let random_challenge = verifier.generate_random_challenge();
    let (prover_commitment, prover_response) =
        verifier.simulate_prover_responses(random_challenge);
    assert!(verifier.verify_response_to_challenge(
        prover_commitment,
        random_challenge,
        prover_response
    ));
}

#[test]
fn and_proof_test_schnorr_and_schnorr() {
    let mut rng = rand::thread_rng();
    let g = RISTRETTO_BASEPOINT_POINT;

    let witness0 = Scalar::random(&mut rng);
    let witness0_statement = point(&(witness0 * g));
    let witness1 = Scalar::random(&mut rng);
    let witness1_statement = point(&(witness1 * g));

    let s0_prover = SchnorrProver::new(witness0_statement);
    let s1_prover = SchnorrProver::new(witness1_statement);
    let s0_verifier = SchnorrVerifier::new(witness0_statement);
    let s1_verifier = SchnorrVerifier::new(witness1_statement);

    let mut and_prover = AndProver {
        s0_prover,
        s1_prover,
    };
    let mut and_verifier = AndVerifier {
        s0_verifier,
        s1_verifier,
    };

    let prover_commitment = and_prover.generate_commitment((scalar(&witness0), scalar(&witness1)));
    let random_challenge = and_verifier.generate_random_challenge();
    let prover_response = and_prover.generate_response_to_challenge(random_challenge);
    assert!(and_verifier.verify_response_to_challenge(
        prover_commitment,
        random_challenge,
        prover_response
    ));

    let random_challenge = and_verifier.generate_random_challenge();
    let (prover_commitment, prover_response) =
        and_verifier.simulate_prover_responses(random_challenge);
    assert!(and_verifier.verify_response_to_challenge(
        prover_commitment,
        random_challenge,
        prover_response
    ));
}

fn run_or_schnorr_schnorr(b: bool) {
    let mut rng = rand::thread_rng();
    let g = RISTRETTO_BASEPOINT_POINT;

    let witness0 = Scalar::random(&mut rng);
    let witness0_statement = point(&(witness0 * g));
    let witness1 = Scalar::random(&mut rng);
    let witness1_statement = point(&(witness1 * g));

    let mut or_prover = OrProver {
        s0_prover: SchnorrProver::new(witness0_statement),
        s0_verifier: SchnorrVerifier::new(witness0_statement),
        s1_prover: SchnorrProver::new(witness1_statement),
        s1_verifier: SchnorrVerifier::new(witness1_statement),
        witness: None,
        per_verifier_secret: None,
    };
    let mut or_verifier = OrVerifier {
        s0_verifier: SchnorrVerifier::new(witness0_statement),
        s1_verifier: SchnorrVerifier::new(witness1_statement),
    };

    let witness = if !b {
        OrWitness {
            b: false,
            s0_witness: Some(scalar(&witness0)),
            s1_witness: None,
        }
    } else {
        OrWitness {
            b: true,
            s0_witness: None,
            s1_witness: Some(scalar(&witness1)),
        }
    };

    let prover_commitment = or_prover.generate_commitment(witness);
    let random_challenge = or_verifier.generate_random_challenge();
    let prover_response = or_prover.generate_response_to_challenge(random_challenge);
    assert!(or_verifier.verify_response_to_challenge(
        prover_commitment,
        random_challenge,
        prover_response
    ));

    let random_challenge = or_verifier.generate_random_challenge();
    let (prover_commitment, prover_response) =
        or_verifier.simulate_prover_responses(random_challenge);
    assert!(or_verifier.verify_response_to_challenge(
        prover_commitment,
        random_challenge,
        prover_response
    ));
}

#[test]
fn or_proof_test_schnorr_and_schnorr() {
    run_or_schnorr_schnorr(false);
    run_or_schnorr_schnorr(true);
}

fn run_or_schnorr_chaum_pedersen(b: bool) {
    let mut rng = rand::thread_rng();
    let g = RISTRETTO_BASEPOINT_POINT;

    let witness0 = Scalar::random(&mut rng);
    let witness0_statement = point(&(witness0 * g));
    let witness1 = Scalar::random(&mut rng);
    let v = witness1 * g;
    let u = RistrettoPoint::random(&mut rng);
    let w = witness1 * u;
    let witness1_statement = ChaumPedersenWitnessStatement {
        u: point(&u),
        v: point(&v),
        w: point(&w),
    };

    let mut or_prover = OrProver {
        s0_prover: SchnorrProver::new(witness0_statement),
        s0_verifier: SchnorrVerifier::new(witness0_statement),
        s1_prover: ChaumPedersenProver::new(witness1_statement),
        s1_verifier: ChaumPedersenVerifier::new(witness1_statement),
        witness: None,
        per_verifier_secret: None,
    };
    let mut or_verifier = OrVerifier {
        s0_verifier: SchnorrVerifier::new(witness0_statement),
        s1_verifier: ChaumPedersenVerifier::new(witness1_statement),
    };

    let witness = if !b {
        OrWitness {
            b: false,
            s0_witness: Some(scalar(&witness0)),
            s1_witness: None,
        }
    } else {
        OrWitness {
            b: true,
            s0_witness: None,
            s1_witness: Some(scalar(&witness1)),
        }
    };

    let prover_commitment = or_prover.generate_commitment(witness);
    let random_challenge = or_verifier.generate_random_challenge();
    let prover_response = or_prover.generate_response_to_challenge(random_challenge);
    assert!(or_verifier.verify_response_to_challenge(
        prover_commitment,
        random_challenge,
        prover_response
    ));

    let random_challenge = or_verifier.generate_random_challenge();
    let (prover_commitment, prover_response) =
        or_verifier.simulate_prover_responses(random_challenge);
    assert!(or_verifier.verify_response_to_challenge(
        prover_commitment,
        random_challenge,
        prover_response
    ));
}

#[test]
fn test_schnorr_and_chaum_pedersen() {
    run_or_schnorr_chaum_pedersen(false);
    run_or_schnorr_chaum_pedersen(true);
}

#[test]
fn schnorr_interactive_transcript() {
    // u = 5 * g, commitment with witness 5, and the response is exactly
    // alpha_t + 5 * c.
    let g = RISTRETTO_BASEPOINT_POINT;
    let five = Scalar::from(5u64);
    let u = point(&(five * g));

    let mut prover = SchnorrProver::new(u);
    let mut verifier = SchnorrVerifier::new(u);

    let t = prover.generate_commitment(scalar(&five));
    let c = verifier.generate_random_challenge();
    let z = prover.generate_response_to_challenge(c);

    // z * g == t + c * u
    assert!(verifier.verify_response_to_challenge(t, c, z));

    // z == alpha_t + 5 * c, computed independently from the session secret
    let alpha_t = Scalar::from_canonical_bytes(prover.per_verifier_secret.unwrap().bytes).unwrap();
    let c_scalar = Scalar::from_canonical_bytes(c.bytes).unwrap();
    let expected = alpha_t + five * c_scalar;
    assert_eq!(z.bytes, expected.to_bytes());
}

#[test]
fn or_simulator_statistical() {
    // Every sampled challenge yields an accepting simulated transcript.
    let mut rng = rand::thread_rng();
    let g = RISTRETTO_BASEPOINT_POINT;

    let witness0_statement = point(&(Scalar::random(&mut rng) * g));
    let witness1_statement = point(&(Scalar::random(&mut rng) * g));
    let mut or_verifier = OrVerifier {
        s0_verifier: SchnorrVerifier::new(witness0_statement),
        s1_verifier: SchnorrVerifier::new(witness1_statement),
    };

    for _ in 0..128 {
        let c = or_verifier.generate_random_challenge();
        let (t, z) = or_verifier.simulate_prover_responses(c);
        assert!(or_verifier.verify_response_to_challenge(t, c, z));
    }
}
