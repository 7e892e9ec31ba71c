//! End-to-end franking: sign, verify, judge, and the ways they fail.

use curve25519_dalek::constants::RISTRETTO_BASEPOINT_POINT;
use curve25519_dalek::scalar::Scalar;

use amf::franking::{frank, judge, keygen, verify, AMFRole};

#[test]
fn test_franking() {
    // 0. Initialize a Sender
    let (sender_public_key, sender_secret_key) = keygen(AMFRole::Sender);
    // 1. Initialize a Recipient
    let (recipient_public_key, recipient_secret_key) = keygen(AMFRole::Recipient);
    // 2. Initialize a Judge
    let (judge_public_key, judge_secret_key) = keygen(AMFRole::Judge);

    // 3. Initialize a message
    let message = b"hello world!";

    // 4. Frank the message
    let amf_signature = frank(
        sender_secret_key,
        sender_public_key,
        recipient_public_key,
        judge_public_key,
        message,
    );

    // 5. Verify the message
    let verification_result = verify(
        recipient_secret_key,
        sender_public_key,
        recipient_public_key,
        judge_public_key,
        message,
        amf_signature,
    );
    assert!(verification_result);

    // 6. Judge the message
    let judging_result = judge(
        judge_secret_key,
        sender_public_key,
        recipient_public_key,
        judge_public_key,
        message,
        amf_signature,
    );
    assert!(judging_result);
}

#[test]
fn franking_rejects_changed_message() {
    let (sender_public_key, sender_secret_key) = keygen(AMFRole::Sender);
    let (recipient_public_key, recipient_secret_key) = keygen(AMFRole::Recipient);
    let (judge_public_key, _judge_secret_key) = keygen(AMFRole::Judge);

    let amf_signature = frank(
        sender_secret_key,
        sender_public_key,
        recipient_public_key,
        judge_public_key,
        b"hello world!",
    );

    assert!(!verify(
        recipient_secret_key,
        sender_public_key,
        recipient_public_key,
        judge_public_key,
        b"hello world?",
        amf_signature,
    ));
}

#[test]
fn franking_rejects_swapped_public_keys() {
    let (sender_public_key, sender_secret_key) = keygen(AMFRole::Sender);
    let (recipient_public_key, recipient_secret_key) = keygen(AMFRole::Recipient);
    let (judge_public_key, _judge_secret_key) = keygen(AMFRole::Judge);

    let amf_signature = frank(
        sender_secret_key,
        sender_public_key,
        recipient_public_key,
        judge_public_key,
        b"hello world!",
    );

    // The recipient and judge keys exchanged: verification fails.
    assert!(!verify(
        recipient_secret_key,
        sender_public_key,
        judge_public_key,
        recipient_public_key,
        b"hello world!",
        amf_signature,
    ));
}

#[test]
fn franking_rejects_wrong_secret_keys() {
    let (sender_public_key, sender_secret_key) = keygen(AMFRole::Sender);
    let (recipient_public_key, _recipient_secret_key) = keygen(AMFRole::Recipient);
    let (judge_public_key, _judge_secret_key) = keygen(AMFRole::Judge);
    let (_other_recipient_public, other_recipient_secret) = keygen(AMFRole::Recipient);
    let (_other_judge_public, other_judge_secret) = keygen(AMFRole::Judge);

    let amf_signature = frank(
        sender_secret_key,
        sender_public_key,
        recipient_public_key,
        judge_public_key,
        b"hello world!",
    );

    // A different recipient secret cannot verify.
    assert!(!verify(
        other_recipient_secret,
        sender_public_key,
        recipient_public_key,
        judge_public_key,
        b"hello world!",
        amf_signature,
    ));

    // A different judge secret cannot adjudicate.
    assert!(!judge(
        other_judge_secret,
        sender_public_key,
        recipient_public_key,
        judge_public_key,
        b"hello world!",
        amf_signature,
    ));
}

#[test]
fn franking_rejects_other_public_keys() {
    let (sender_public_key, sender_secret_key) = keygen(AMFRole::Sender);
    let (recipient_public_key, recipient_secret_key) = keygen(AMFRole::Recipient);
    let (judge_public_key, _judge_secret_key) = keygen(AMFRole::Judge);
    let (other_judge_public, _) = keygen(AMFRole::Judge);
    let (other_recipient_public, other_recipient_secret) = keygen(AMFRole::Recipient);

    let amf_signature = frank(
        sender_secret_key,
        sender_public_key,
        recipient_public_key,
        judge_public_key,
        b"hello world!",
    );

    // The signature is bound to its judge key.
    assert!(!verify(
        recipient_secret_key,
        sender_public_key,
        recipient_public_key,
        other_judge_public,
        b"hello world!",
        amf_signature,
    ));

    // And to its recipient, who holds the matching secret key.
    assert!(!verify(
        other_recipient_secret,
        sender_public_key,
        other_recipient_public,
        judge_public_key,
        b"hello world!",
        amf_signature,
    ));
}

#[test]
fn keygen_matches_scalar_multiplication() {
    // The public point is the secret scalar times the Ristretto basepoint.
    let (public_key, secret_key) = keygen(AMFRole::Sender);
    let sk = Scalar::from_canonical_bytes(secret_key.secret_key.bytes).unwrap();
    let expected = (sk * RISTRETTO_BASEPOINT_POINT).compress().to_bytes();
    assert_eq!(public_key.public_key.bytes, expected);
}
