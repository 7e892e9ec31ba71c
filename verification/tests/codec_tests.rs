//! The byte codec: round trips, fixed sizes, and rejection of malformed
//! or tampered bytes.

use amf::codec::{
    decode_public_key, decode_secret_key, decode_signature, encode_public_key, encode_secret_key,
    encode_signature,
};
use amf::franking::{frank, judge, keygen, verify, AMFRole};

#[test]
fn test_public_key_codec() {
    let (public_key, _secret_key) = keygen(AMFRole::Sender);

    let encoded_public_key = encode_public_key(&public_key);
    let decoded_public_key = decode_public_key(&encoded_public_key[..]).unwrap();
    assert_eq!(public_key, decoded_public_key);

    println!(
        "encoded amf public key length: {:?} bytes",
        encoded_public_key.len()
    );
    assert_eq!(encoded_public_key.len(), 33);
}

#[test]
fn test_secret_key_codec() {
    let (_public_key, secret_key) = keygen(AMFRole::Sender);

    let encoded_secret_key = encode_secret_key(&secret_key);
    let decoded_secret_key = decode_secret_key(&encoded_secret_key[..]).unwrap();
    assert_eq!(secret_key, decoded_secret_key);

    println!(
        "encoded amf secret key length: {:?} bytes",
        encoded_secret_key.len()
    );
    assert_eq!(encoded_secret_key.len(), 33);
}

#[test]
fn test_signature_codec() {
    // 0. Initialize a Sender
    let (sender_public_key, sender_secret_key) = keygen(AMFRole::Sender);
    // 1. Initialize a Recipient
    let (recipient_public_key, _recipient_secret_key) = keygen(AMFRole::Recipient);
    // 2. Initialize a Judge
    let (judge_public_key, _judge_secret_key) = keygen(AMFRole::Judge);

    // 3. Initialize a message
    let message = b"hello world!";

    // 4. Frank the message
    let amf_signature = frank(
        sender_secret_key,
        sender_public_key,
        recipient_public_key,
        judge_public_key,
        message,
    );

    // 5. Test serializing the amf_signature
    let encoded_amf_signature = encode_signature(&amf_signature);
    let decoded_amf_signature = decode_signature(&encoded_amf_signature[..]).unwrap();
    assert_eq!(amf_signature, decoded_amf_signature);

    println!(
        "encoded amf signature length: {:?} bytes",
        encoded_amf_signature.len()
    );
    assert_eq!(encoded_amf_signature.len(), 480);
}

#[test]
fn signature_round_trip_verifies() {
    let (sender_public_key, sender_secret_key) = keygen(AMFRole::Sender);
    let (recipient_public_key, recipient_secret_key) = keygen(AMFRole::Recipient);
    let (judge_public_key, judge_secret_key) = keygen(AMFRole::Judge);
    let message = b"hello world!";

    let amf_signature = frank(
        sender_secret_key,
        sender_public_key,
        recipient_public_key,
        judge_public_key,
        message,
    );

    let encoded = encode_signature(&amf_signature);
    assert_eq!(encoded.len(), 480);
    let decoded = decode_signature(&encoded[..]).unwrap();

    assert!(verify(
        recipient_secret_key,
        sender_public_key,
        recipient_public_key,
        judge_public_key,
        message,
        decoded,
    ));
    assert!(judge(
        judge_secret_key,
        sender_public_key,
        recipient_public_key,
        judge_public_key,
        message,
        decoded,
    ));
}

#[test]
fn decode_rejects_bad_length() {
    assert!(decode_public_key(&[0u8; 32]).is_err());
    assert!(decode_secret_key(&[0u8; 34]).is_err());
    assert!(decode_signature(&[0u8; 479]).is_err());
}

#[test]
fn decode_rejects_bad_role() {
    let (public_key, _) = keygen(AMFRole::Sender);
    let mut encoded = encode_public_key(&public_key);
    encoded[0] = 3;
    assert!(decode_public_key(&encoded[..]).is_err());

    let (_, secret_key) = keygen(AMFRole::Judge);
    let mut encoded = encode_secret_key(&secret_key);
    encoded[0] = 255;
    assert!(decode_secret_key(&encoded[..]).is_err());
}

#[test]
fn decode_rejects_bad_point() {
    // 32 bytes of 0xff are not a canonical Ristretto encoding.
    let mut bytes = [0xffu8; 33];
    bytes[0] = 0;
    assert!(decode_public_key(&bytes[..]).is_err());
}

#[test]
fn decode_rejects_bad_scalar() {
    // 32 bytes of 0xff spell a value far above the group order.
    let mut bytes = [0xffu8; 33];
    bytes[0] = 0;
    assert!(decode_secret_key(&bytes[..]).is_err());
}

#[test]
fn signature_tamper_fails() {
    // Flipping any byte of a valid encoded signature makes it either
    // undecodable or rejected by both verify and judge.
    let (sender_public_key, sender_secret_key) = keygen(AMFRole::Sender);
    let (recipient_public_key, recipient_secret_key) = keygen(AMFRole::Recipient);
    let (judge_public_key, judge_secret_key) = keygen(AMFRole::Judge);
    let message = b"hello world!";

    let amf_signature = frank(
        sender_secret_key,
        sender_public_key,
        recipient_public_key,
        judge_public_key,
        message,
    );
    let encoded = encode_signature(&amf_signature);

    // One byte inside each of the fifteen fields: the five proof
    // commitments, the six response scalars, and the four marks.
    for field in 0..15 {
        let i = field * 32 + 7;
        let mut tampered = encoded.clone();
        tampered[i] ^= 0x40;
        match decode_signature(&tampered[..]) {
            Err(_) => {}
            Ok(s) => {
                assert!(!verify(
                    recipient_secret_key,
                    sender_public_key,
                    recipient_public_key,
                    judge_public_key,
                    message,
                    s,
                ));
                // The judge's check never reads E_R (the last field), so a
                // change there cannot reach it; every other field fails it.
                if field != 14 {
                    assert!(!judge(
                        judge_secret_key,
                        sender_public_key,
                        recipient_public_key,
                        judge_public_key,
                        message,
                        s,
                    ));
                }
            }
        }
    }
}
