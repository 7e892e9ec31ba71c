//! The Fiat-Shamir transform over a Schnorr protocol.

use curve25519_dalek::constants::RISTRETTO_BASEPOINT_POINT;
use curve25519_dalek::scalar::Scalar;
use rand::RngCore;

use amf::fiat_shamir::{FiatShamir, FiatShamirSecretKey, SignatureScheme};
use amf::schnorr::{SchnorrProver, SchnorrVerifier};
use amf::{GroupPoint, GroupScalar};

#[test]
fn test_fiat_shamir_schnorr() {
    let mut rng = rand::thread_rng();
    let g = RISTRETTO_BASEPOINT_POINT;

    // 0. Fix a witness, and define the statement to prove
    let witness = Scalar::random(&mut rng);
    let witness_statement = GroupPoint {
        bytes: (witness * g).compress().to_bytes(),
    };

    // 1. Initialize a Schnorr prover and verifier with the statement to prove
    let prover = SchnorrProver::new(witness_statement);
    let verifier = SchnorrVerifier::new(witness_statement);

    // 2. Create a Fiat-Shamir signature scheme
    let mut schnorr_fiat_shamir = FiatShamir { prover, verifier };

    // 3. Sign a random message and verify the signature
    let mut message = [0u8; 128];
    rng.fill_bytes(&mut message);

    let signature = schnorr_fiat_shamir.sign(
        FiatShamirSecretKey {
            witness: GroupScalar {
                bytes: witness.to_bytes(),
            },
        },
        &message,
    );
    assert!(schnorr_fiat_shamir.verify(&message, signature));
}

#[test]
fn fiat_shamir_rejects_other_message() {
    let mut rng = rand::thread_rng();
    let g = RISTRETTO_BASEPOINT_POINT;

    let witness = Scalar::random(&mut rng);
    let witness_statement = GroupPoint {
        bytes: (witness * g).compress().to_bytes(),
    };
    let mut schnorr_fiat_shamir = FiatShamir {
        prover: SchnorrProver::new(witness_statement),
        verifier: SchnorrVerifier::new(witness_statement),
    };

    let signature = schnorr_fiat_shamir.sign(
        FiatShamirSecretKey {
            witness: GroupScalar {
                bytes: witness.to_bytes(),
            },
        },
        b"a message",
    );
    assert!(schnorr_fiat_shamir.verify(b"a message", signature));
    assert!(!schnorr_fiat_shamir.verify(b"b message", signature));
}
