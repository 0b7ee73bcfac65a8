use kukuri::crypto::KukuriKeys;
use kukuri::ids::Pubkey;
use kukuri::envelope::{
    canonical_envelope_payload, sign_envelope, sign_envelope_at, unix_seconds_stamp, EnvelopeError,
    KukuriEnvelope,
};

const SECRET_THREE: &str = "0000000000000000000000000000000000000000000000000000000000000003";
const PUBKEY_THREE: &str = "f9308a019258c31049344f85f89d5229b531c845836f99b08601f113bce036f9";

fn keys() -> KukuriKeys {
    KukuriKeys::from_secret_hex(SECRET_THREE).expect("valid secret")
}

fn tags() -> Vec<Vec<String>> {
    vec![vec!["t".to_string(), "kukuri:topic:demo".to_string()]]
}

fn signed() -> KukuriEnvelope {
    sign_envelope_at(&keys(), "post".to_string(), tags(), "hello".to_string(), 1_700_000_000)
        .expect("sign")
}

#[test]
fn public_key_of_secret_three_is_the_generator_x() {
    assert_eq!(keys().public_key_hex(), PUBKEY_THREE);
    assert_eq!(keys().export_secret_hex(), SECRET_THREE);
}

#[test]
fn invalid_secrets_are_refused() {
    assert!(KukuriKeys::from_secret_hex("zz").is_none());
    assert!(KukuriKeys::from_secret_hex(
        "0000000000000000000000000000000000000000000000000000000000000000"
    )
    .is_none());
}

#[test]
fn bip340_vector_zero_signature() {
    let sig = keys().sign_schnorr(&[0u8; 32]);
    assert_eq!(
        sig,
        "e907831f80848d1069a5371b402410364bdf1c5f8307b0084c55f1ce2dca821525f66a4a85ea8b71e482a74f382d2ce5ebeee8fdb2172f477df4900d310536c0"
    );
}

#[test]
fn canonical_payload_is_the_compact_json_array() {
    let payload =
        canonical_envelope_payload(PUBKEY_THREE, 1_700_000_000, "post", &tags(), "hello")
            .expect("encode");
    assert_eq!(
        payload,
        "[0,\"f9308a019258c31049344f85f89d5229b531c845836f99b08601f113bce036f9\",1700000000,\"post\",[[\"t\",\"kukuri:topic:demo\"]],\"hello\"]"
    );
    let escaped = canonical_envelope_payload("pk", -1, "k", &[], "a\"b\n").expect("encode");
    assert_eq!(escaped, "[0,\"pk\",-1,\"k\",[],\"a\\\"b\\n\"]");
}

#[test]
fn canonical_payload_escapes_control_characters() {
    let tags = vec![vec!["a\\b".to_string(), "\u{1}".to_string()], Vec::new()];
    let payload = canonical_envelope_payload("p", 0, "\t\r", &tags, "\u{8}\u{c}\u{1f}é\u{7f}")
        .expect("encode");
    assert_eq!(
        payload,
        "[0,\"p\",0,\"\\t\\r\",[[\"a\\\\b\",\"\\u0001\"],[]],\"\\b\\f\\u001fé\u{7f}\"]"
    );
    let extreme = canonical_envelope_payload("", i64::MIN, "", &[], "").expect("encode");
    assert_eq!(extreme, "[0,\"\",-9223372036854775808,\"\",[],\"\"]");
}

#[test]
fn signed_envelope_has_digest_id_and_verifies() {
    let envelope = signed();
    assert_eq!(
        envelope.id.as_str(),
        "f082f8ff1a44089673d37fa07b3b604e115e958f02fb7c9c453288470b90ec93"
    );
    assert_eq!(envelope.pubkey.as_str(), PUBKEY_THREE);
    assert_eq!(envelope.created_at, 1_700_000_000);
    assert_eq!(envelope.kind, "post");
    assert_eq!(envelope.tags, tags());
    assert_eq!(envelope.content, "hello");
    assert_eq!(envelope.sig.len(), 128);
    assert_eq!(envelope.verify(), Ok(()));
}

#[test]
fn tampered_content_is_an_id_mismatch() {
    let mut envelope = signed();
    envelope.content = "hello!".to_string();
    assert_eq!(envelope.verify(), Err(EnvelopeError::IdMismatch));
    assert_eq!(EnvelopeError::IdMismatch.message(), "envelope id mismatch");
}

#[test]
fn any_altered_signed_field_is_an_id_mismatch() {
    let mut pubkey = signed();
    pubkey.pubkey = Pubkey::new("02".repeat(32));
    let mut time = signed();
    time.created_at += 1;
    let mut kind = signed();
    kind.kind = "comment".to_string();
    let mut tags = signed();
    tags.tags.push(vec!["e".to_string()]);
    let mut nested = signed();
    nested.tags[0][1].push('x');
    for envelope in [pubkey, time, kind, tags, nested] {
        assert_eq!(envelope.verify(), Err(EnvelopeError::IdMismatch));
    }
    assert_eq!(signed().verify(), Ok(()));
}

#[test]
fn malformed_signature_is_refused() {
    let mut envelope = signed();
    envelope.sig = "not-hex".to_string();
    assert_eq!(envelope.verify(), Err(EnvelopeError::InvalidSignature));
}

#[test]
fn malformed_pubkey_is_refused() {
    let mut envelope = signed();
    envelope.pubkey = kukuri::ids::Pubkey::new("abcd".to_string());
    // SHA-256 of `[0,"abcd",1700000000,"post",[["t","kukuri:topic:demo"]],"hello"]`.
    envelope.id = kukuri::ids::EnvelopeId::new(
        "aad74f320059e1939eac86427c5abebd88084f3eae5183230e71ae976d284991".to_string(),
    );
    assert_eq!(envelope.verify(), Err(EnvelopeError::InvalidPubkey));
}

#[test]
fn signature_of_another_key_fails_verification() {
    let other = KukuriKeys::from_secret_hex(
        "0000000000000000000000000000000000000000000000000000000000000004",
    )
    .expect("valid secret");
    let mut envelope = signed();
    let digest = hex::decode(envelope.id.as_str()).expect("hex id");
    envelope.sig = other.sign_schnorr(&digest);
    assert_eq!(envelope.verify(), Err(EnvelopeError::SignatureVerification));
}

#[test]
fn sign_envelope_uses_the_clock_and_verifies() {
    let envelope = sign_envelope(&keys(), "post".to_string(), tags(), "now".to_string())
        .expect("sign");
    assert!(envelope.created_at > 1_700_000_000);
    assert_eq!(envelope.verify(), Ok(()));
}

#[test]
fn stamps_are_the_seconds_as_i64() {
    assert_eq!(unix_seconds_stamp(1_700_000_000), 1_700_000_000);
    assert_eq!(unix_seconds_stamp(u64::MAX), -1);
    assert_eq!(
        EnvelopeError::ClockBeforeUnixEpoch.message(),
        "system clock is before unix epoch"
    );
}
