//! Signed envelopes and the gossip hints that peers exchange.
use vstd::prelude::*;
use vstd::utf8::encode_utf8;

use crate::crypto::{
    hex_encode, hex_lower, is_hex_text, lemma_hex_lower_injective, is_lower_hex_text, schnorr_sign,
    schnorr_signature_hex_is_valid, schnorr_verifies, schnorr_verify_hex, sha256, sha256_digest,
    x_only_public_key_hex_is_valid, x_only_public_key_of, x_only_public_key_valid, KukuriKeys,
};
use crate::ids::{BlobHash, EnvelopeId, Pubkey, TopicId};
use crate::json::{
    comma_joined, json_array, json_integer, json_string, json_string_array, lemma_integer_prefix,
    lemma_string_arrays_prefix, lemma_string_prefix,
};

verus! {

/// A reference to an object named in a `TopicObjectsChanged` hint.
#[derive(Clone, Debug, PartialEq, Eq)]
pub struct HintObjectRef {
    pub object_id: String,
    pub object_kind: String,
}

/// The acknowledgement of a direct message, carried as the JSON text of its
/// document; nothing in this library reads inside it.
#[derive(Clone, Debug, PartialEq, Eq)]
pub struct DirectMessageAckV1 {
    pub document_json: String,
}

/// A lightweight gossip hint that tells subscribers what changed.
#[allow(inconsistent_fields)]
#[derive(Clone, Debug, PartialEq, Eq)]
pub enum GossipHint {
    TopicObjectsChanged { topic_id: TopicId, objects: Vec<HintObjectRef> },
    ThreadUpdated { root_id: EnvelopeId, object_ids: Vec<EnvelopeId> },
    ProfileUpdated { author: Pubkey },
    Presence { topic_id: TopicId, author: Pubkey, ttl_ms: u32 },
    Typing { topic_id: TopicId, root_id: Option<EnvelopeId>, author: Pubkey, ttl_ms: u32 },
    SessionChanged { topic_id: TopicId, session_id: String, object_kind: String },
    LivePresence { topic_id: TopicId, session_id: String, author: Pubkey, ttl_ms: u32 },
    DirectMessageFrame { topic_id: TopicId, dm_id: String, message_id: String, frame_hash: BlobHash },
    DirectMessageAck { topic_id: TopicId, ack: DirectMessageAckV1 },
    BlobAvailable { topic_id: TopicId, hash: BlobHash, mime: String, bytes: u64 },
}

/// Content of an authentication envelope.
#[derive(Clone, Debug, PartialEq, Eq)]
pub struct KukuriAuthEnvelopeContentV1 {
    pub scope: String,
}

/// A signed envelope: its id is the hex SHA-256 of the canonical payload and
/// `sig` a Schnorr signature of that digest by `pubkey`.
#[derive(Clone, Debug, PartialEq, Eq)]
pub struct KukuriEnvelope {
    pub id: EnvelopeId,
    pub pubkey: Pubkey,
    pub created_at: i64,
    pub kind: String,
    pub tags: Vec<Vec<String>>,
    pub content: String,
    pub sig: String,
}

/// The fields of an envelope as mathematical values.
pub struct EnvelopeView {
    pub id: Seq<char>,
    pub pubkey: Seq<char>,
    pub created_at: i64,
    pub kind: Seq<char>,
    pub tags: Seq<Seq<Seq<char>>>,
    pub content: Seq<char>,
    pub sig: Seq<char>,
}

impl View for KukuriEnvelope {
    type V = EnvelopeView;

    open spec fn view(&self) -> EnvelopeView {
        EnvelopeView {
            id: self.id@,
            pubkey: self.pubkey@,
            created_at: self.created_at,
            kind: self.kind@,
            tags: self.tags.deep_view(),
            content: self.content@,
            sig: self.sig@,
        }
    }
}

/// Why an envelope could not be built or was refused.
#[derive(Clone, Copy, Debug, PartialEq, Eq, Structural)]
pub enum EnvelopeError {
    IdMismatch,
    InvalidSignature,
    InvalidPubkey,
    SignatureVerification,
    ClockBeforeUnixEpoch,
}

/// The message that describes an envelope error.
pub open spec fn envelope_error_message(error: EnvelopeError) -> Seq<char> {
    match error {
        EnvelopeError::IdMismatch => "envelope id mismatch"@,
        EnvelopeError::InvalidSignature => "invalid envelope sig"@,
        EnvelopeError::InvalidPubkey => "invalid envelope pubkey"@,
        EnvelopeError::SignatureVerification => "envelope signature verification failed"@,
        EnvelopeError::ClockBeforeUnixEpoch => "system clock is before unix epoch"@,
    }
}

impl EnvelopeError {
    /// The message that describes the error.
    pub fn message(&self) -> (res: &'static str)
        ensures
            res@ == envelope_error_message(*self),
    {
        match self {
            EnvelopeError::IdMismatch => "envelope id mismatch",
            EnvelopeError::InvalidSignature => "invalid envelope sig",
            EnvelopeError::InvalidPubkey => "invalid envelope pubkey",
            EnvelopeError::SignatureVerification => "envelope signature verification failed",
            EnvelopeError::ClockBeforeUnixEpoch => "system clock is before unix epoch",
        }
    }
}

/// The version number in the first slot of the canonical payload.
pub const CANONICAL_PAYLOAD_VERSION: u64 = 0;

/// The canonical payload: the compact JSON array
/// `[version, pubkey, created_at, kind, tags, content]`, with the tags an
/// array of arrays of strings.
pub open spec fn canonical_envelope_json(
    version: u64,
    pubkey: Seq<char>,
    created_at: i64,
    kind: Seq<char>,
    tags: Seq<Seq<Seq<char>>>,
    content: Seq<char>,
) -> Seq<char> {
    json_array(
        seq![
            json_integer(version as int),
            json_string(pubkey),
            json_integer(created_at as int),
            json_string(kind),
            json_array(tags.map_values(|tag: Seq<Seq<char>>| json_string_array(tag))),
            json_string(content),
        ],
    )
}

/// `serde_json::to_string` on the tuple of its arguments.  Believed: serde
/// writes a tuple as a JSON array in argument order, a slice and a `Vec` as
/// arrays, a string with the escapes of `json_escaped_char` and an integer
/// in decimal, with the compact formatter's empty separators, which is the
/// text `canonical_envelope_json` spells out.  It cannot fail: serde_json
/// fails only for a failing `Serialize` impl or a map with non-string keys,
/// and these are integers, strings and lists of lists of strings.
#[verifier::external_body]
fn serialize_canonical_payload(
    version: u64,
    pubkey: &str,
    created_at: i64,
    kind: &str,
    tags: &[Vec<String>],
    content: &str,
) -> (res: String)
    ensures
        res@ == canonical_envelope_json(version, pubkey@, created_at, kind@, tags.deep_view(), content@),
{
    serde_json::to_string(&(version, pubkey, created_at, kind, tags, content)).unwrap_or_default()
}

/// The canonical payload of an envelope's fields under this library's version.
pub open spec fn canonical_payload(
    pubkey: Seq<char>,
    created_at: i64,
    kind: Seq<char>,
    tags: Seq<Seq<Seq<char>>>,
    content: Seq<char>,
) -> Seq<char> {
    canonical_envelope_json(CANONICAL_PAYLOAD_VERSION, pubkey, created_at, kind, tags, content)
}

/// The digest that an envelope's id and signature are about: SHA-256 of the
/// UTF-8 bytes of the canonical payload.
pub open spec fn payload_digest(canonical: Seq<char>) -> Seq<u8> {
    sha256(encode_utf8(canonical))
}

/// What `KukuriEnvelope::verify` decides for an envelope.
pub open spec fn envelope_verification(e: EnvelopeView) -> Result<(), EnvelopeError> {
    let canonical = canonical_payload(e.pubkey, e.created_at, e.kind, e.tags, e.content);
    if hex_lower(payload_digest(canonical)) != e.id {
        Err(EnvelopeError::IdMismatch)
    } else if !is_hex_text(e.sig, 128) {
        Err(EnvelopeError::InvalidSignature)
    } else if !x_only_public_key_valid(e.pubkey) {
        Err(EnvelopeError::InvalidPubkey)
    } else if !schnorr_verifies(e.sig, payload_digest(canonical), e.pubkey) {
        Err(EnvelopeError::SignatureVerification)
    } else {
        Ok(())
    }
}

/// The fields that an envelope's id and signature cover: public key, time,
/// kind, tags and content.
pub open spec fn signed_fields(e: EnvelopeView) -> (
    Seq<char>,
    i64,
    Seq<char>,
    Seq<Seq<Seq<char>>>,
    Seq<char>,
) {
    (e.pubkey, e.created_at, e.kind, e.tags, e.content)
}

/// The canonical payload of an envelope's signed fields.
pub open spec fn envelope_payload(e: EnvelopeView) -> Seq<char> {
    canonical_payload(e.pubkey, e.created_at, e.kind, e.tags, e.content)
}

proof fn lemma_comma_joined_six(
    x0: Seq<char>,
    x1: Seq<char>,
    x2: Seq<char>,
    x3: Seq<char>,
    x4: Seq<char>,
    x5: Seq<char>,
)
    ensures
        comma_joined(seq![x0, x1, x2, x3, x4, x5]) == x0 + (seq![','] + (x1 + (seq![','] + (x2
            + (seq![','] + (x3 + (seq![','] + (x4 + (seq![','] + x5))))))))),
{
    let s6 = seq![x0, x1, x2, x3, x4, x5];
    let s5 = seq![x1, x2, x3, x4, x5];
    let s4 = seq![x2, x3, x4, x5];
    let s3 = seq![x3, x4, x5];
    let s2 = seq![x4, x5];
    let s1 = seq![x5];
    assert(s6.drop_first() =~= s5);
    assert(s5.drop_first() =~= s4);
    assert(s4.drop_first() =~= s3);
    assert(s3.drop_first() =~= s2);
    assert(s2.drop_first() =~= s1);
    assert(comma_joined(s1) == x5);
    assert(comma_joined(s2) == x4 + seq![','] + x5);
    assert(comma_joined(s3) == x3 + seq![','] + comma_joined(s2));
    assert(comma_joined(s4) == x2 + seq![','] + comma_joined(s3));
    assert(comma_joined(s5) == x1 + seq![','] + comma_joined(s4));
    assert(comma_joined(s6) == x0 + seq![','] + comma_joined(s5));
    assert(comma_joined(s6) =~= x0 + (seq![','] + (x1 + (seq![','] + (x2 + (seq![','] + (x3
        + (seq![','] + (x4 + (seq![','] + x5))))))))));
}

/// The canonical payload written out piece by piece, each piece followed by
/// the rest.
spec fn payload_pieces(e: EnvelopeView) -> Seq<char> {
    let comma = seq![','];
    let tags = json_array(e.tags.map_values(|x: Seq<Seq<char>>| json_string_array(x)));
    seq!['['] + (json_integer(CANONICAL_PAYLOAD_VERSION as int) + (comma + (json_string(e.pubkey)
        + (comma + (json_integer(e.created_at as int) + (comma + (json_string(e.kind) + (comma + (
    tags + (comma + (json_string(e.content) + seq![']'])))))))))))
}

proof fn lemma_payload_pieces(e: EnvelopeView)
    ensures
        envelope_payload(e) == payload_pieces(e),
{
    let tags = json_array(e.tags.map_values(|x: Seq<Seq<char>>| json_string_array(x)));
    assert(e.tags.map_values(|tag: Seq<Seq<char>>| json_string_array(tag)) =~= e.tags.map_values(
        |x: Seq<Seq<char>>| json_string_array(x),
    ));
    lemma_comma_joined_six(
        json_integer(CANONICAL_PAYLOAD_VERSION as int),
        json_string(e.pubkey),
        json_integer(e.created_at as int),
        json_string(e.kind),
        tags,
        json_string(e.content),
    );
    assert(envelope_payload(e) =~= payload_pieces(e));
}

proof fn lemma_comma_rest(x: Seq<char>, y: Seq<char>)
    requires
        seq![','] + x == seq![','] + y,
    ensures
        x == y,
{
    assert(x =~= (seq![','] + x).drop_first());
    assert(y =~= (seq![','] + y).drop_first());
}

/// Different signed fields give different canonical payloads.
pub proof fn lemma_envelope_payload_injective(a: EnvelopeView, b: EnvelopeView)
    requires
        envelope_payload(a) == envelope_payload(b),
    ensures
        signed_fields(a) == signed_fields(b),
{
    lemma_payload_pieces(a);
    lemma_payload_pieces(b);
    let comma = seq![','];
    let close = seq![']'];
    let fa = |x: Seq<Seq<char>>| json_string_array(x);
    let a6 = json_string(a.content) + close;
    let b6 = json_string(b.content) + close;
    let a5 = json_array(a.tags.map_values(fa)) + (comma + a6);
    let b5 = json_array(b.tags.map_values(fa)) + (comma + b6);
    let a4 = json_string(a.kind) + (comma + a5);
    let b4 = json_string(b.kind) + (comma + b5);
    let a3 = json_integer(a.created_at as int) + (comma + a4);
    let b3 = json_integer(b.created_at as int) + (comma + b4);
    let a2 = json_string(a.pubkey) + (comma + a3);
    let b2 = json_string(b.pubkey) + (comma + b3);
    let version = json_integer(CANONICAL_PAYLOAD_VERSION as int);
    assert(payload_pieces(a) == seq!['['] + (version + (comma + a2)));
    assert(payload_pieces(b) == seq!['['] + (version + (comma + b2)));
    assert(version + (comma + a2) =~= payload_pieces(a).drop_first());
    assert(version + (comma + b2) =~= payload_pieces(b).drop_first());
    lemma_integer_prefix(CANONICAL_PAYLOAD_VERSION as int, CANONICAL_PAYLOAD_VERSION as int, a2, b2);
    lemma_string_prefix(a.pubkey, b.pubkey, comma + a3, comma + b3);
    lemma_comma_rest(a3, b3);
    lemma_integer_prefix(a.created_at as int, b.created_at as int, a4, b4);
    lemma_string_prefix(a.kind, b.kind, comma + a5, comma + b5);
    lemma_comma_rest(a5, b5);
    lemma_string_arrays_prefix(a.tags, b.tags, comma + a6, comma + b6);
    lemma_comma_rest(a6, b6);
    lemma_string_prefix(a.content, b.content, close, close);
}

/// An envelope that verifies, with any of its signed fields changed and its
/// id kept, fails verification with `IdMismatch`, unless SHA-256 gives the
/// two canonical payloads the same digest.
pub proof fn altered_envelope_is_refused(original: EnvelopeView, altered: EnvelopeView)
    requires
        envelope_verification(original) == Ok::<(), EnvelopeError>(()),
        altered.id == original.id,
        signed_fields(altered) != signed_fields(original),
        envelope_payload(altered) != envelope_payload(original) ==> payload_digest(
            envelope_payload(altered),
        ) != payload_digest(envelope_payload(original)),
    ensures
        envelope_verification(altered) == Err::<(), EnvelopeError>(EnvelopeError::IdMismatch),
{
    if envelope_payload(altered) == envelope_payload(original) {
        lemma_envelope_payload_injective(altered, original);
    }
    if hex_lower(payload_digest(envelope_payload(altered))) == altered.id {
        lemma_hex_lower_injective(
            payload_digest(envelope_payload(altered)),
            payload_digest(envelope_payload(original)),
        );
    }
}

/// The envelope that `sign_envelope_at` builds for a secret key.
pub open spec fn signed_envelope(
    secret: Seq<char>,
    kind: Seq<char>,
    tags: Seq<Seq<Seq<char>>>,
    content: Seq<char>,
    created_at: i64,
) -> EnvelopeView {
    let pubkey = x_only_public_key_of(secret);
    let canonical = canonical_payload(pubkey, created_at, kind, tags, content);
    EnvelopeView {
        id: hex_lower(payload_digest(canonical)),
        pubkey,
        created_at,
        kind,
        tags,
        content,
        sig: schnorr_sign(secret, payload_digest(canonical)),
    }
}

proof fn lemma_lower_hex_is_hex(s: Seq<char>, n: nat)
    requires
        is_lower_hex_text(s, n),
    ensures
        is_hex_text(s, n),
{
    assert forall|i: int| 0 <= i < s.len() implies crate::crypto::is_hex_char(#[trigger] s[i]) by {}
}

/// The canonical payload of an envelope's fields, as JSON text.
pub fn canonical_envelope_payload(
    pubkey: &str,
    created_at: i64,
    kind: &str,
    tags: &[Vec<String>],
    content: &str,
) -> (res: Result<String, EnvelopeError>)
    ensures
        res matches Ok(text) && text@ == canonical_payload(
            pubkey@,
            created_at,
            kind@,
            tags.deep_view(),
            content@,
        ),
{
    Ok(serialize_canonical_payload(CANONICAL_PAYLOAD_VERSION, pubkey, created_at, kind, tags, content))
}

impl KukuriEnvelope {
    /// Checks that the id is the digest of the canonical payload and that the
    /// signature is valid for that digest under the envelope's public key.
    pub fn verify(&self) -> (res: Result<(), EnvelopeError>)
        ensures
            res == envelope_verification(self@),
    {
        let canonical = match canonical_envelope_payload(
            self.pubkey.as_str(),
            self.created_at,
            self.kind.as_str(),
            self.tags.as_slice(),
            self.content.as_str(),
        ) {
            Ok(text) => text,
            Err(error) => return Err(error),
        };
        let digest = sha256_digest(canonical.as_str().as_bytes());
        let computed_id = hex_encode(digest.as_slice());
        if !(computed_id == self.id.0) {
            return Err(EnvelopeError::IdMismatch);
        }
        if !schnorr_signature_hex_is_valid(self.sig.as_str()) {
            return Err(EnvelopeError::InvalidSignature);
        }
        if !x_only_public_key_hex_is_valid(self.pubkey.as_str()) {
            return Err(EnvelopeError::InvalidPubkey);
        }
        if !schnorr_verify_hex(self.sig.as_str(), digest.as_slice(), self.pubkey.as_str()) {
            return Err(EnvelopeError::SignatureVerification);
        }
        Ok(())
    }
}

/// Builds and signs an envelope stamped with `created_at`.  Every envelope it
/// returns passes `KukuriEnvelope::verify`.
pub fn sign_envelope_at(
    keys: &KukuriKeys,
    kind: String,
    tags: Vec<Vec<String>>,
    content: String,
    created_at: i64,
) -> (res: Result<KukuriEnvelope, EnvelopeError>)
    ensures
        res matches Ok(e) && e@ == signed_envelope(
            keys.secret(),
            kind@,
            tags.deep_view(),
            content@,
            created_at,
        ),
        res matches Ok(e) ==> envelope_verification(e@) == Ok::<(), EnvelopeError>(()),
{
    let pubkey = keys.public_key_hex();
    let canonical = match canonical_envelope_payload(
        pubkey.as_str(),
        created_at,
        kind.as_str(),
        tags.as_slice(),
        content.as_str(),
    ) {
        Ok(text) => text,
        Err(error) => return Err(error),
    };
    let digest = sha256_digest(canonical.as_str().as_bytes());
    let id = hex_encode(digest.as_slice());
    let sig = keys.sign_schnorr(digest.as_slice());
    proof {
        lemma_lower_hex_is_hex(sig@, 128);
    }
    let envelope = KukuriEnvelope {
        id: EnvelopeId(id),
        pubkey: Pubkey(pubkey),
        created_at,
        kind,
        tags,
        content,
        sig,
    };
    Ok(envelope)
}

/// std's `SystemTime`, carried through opaque.
#[verifier::external_type_specification]
#[verifier::external_body]
pub struct ExSystemTime(std::time::SystemTime);

/// `SystemTime::now` of std.  Nothing is stated: it reads the machine's clock.
#[verifier::external_body]
fn system_time_now() -> (res: std::time::SystemTime) {
    std::time::SystemTime::now()
}

/// `SystemTime::duration_since(UNIX_EPOCH)` of std, or `None` where the time
/// is before the epoch.  Nothing is stated of the value: the argument is a
/// reading of the clock, opaque here.
#[verifier::external_body]
fn duration_since_unix_epoch(time: std::time::SystemTime) -> (res: Option<std::time::Duration>) {
    time.duration_since(std::time::UNIX_EPOCH).ok()
}

/// `Duration::as_secs` of std: the whole seconds of a duration.  Nothing is
/// stated: the duration is opaque here.
#[verifier::external_body]
fn whole_seconds(duration: std::time::Duration) -> (res: u64) {
    duration.as_secs()
}

/// The stamp for a time given in whole seconds since the epoch: the seconds
/// as an `i64`, wrapping as `as` does.
pub fn unix_seconds_stamp(secs: u64) -> (res: i64)
    ensures
        res == secs as i64,
{
    secs as i64
}

/// Builds and signs an envelope stamped with the current time in seconds.
/// Whatever the clock reads, a returned envelope is the one that
/// `sign_envelope_at` builds for its own `created_at`, and it verifies; the
/// only failure is a clock that reads before the Unix epoch.
pub fn sign_envelope(
    keys: &KukuriKeys,
    kind: String,
    tags: Vec<Vec<String>>,
    content: String,
) -> (res: Result<KukuriEnvelope, EnvelopeError>)
    ensures
        res matches Ok(e) ==> e@ == signed_envelope(
            keys.secret(),
            kind@,
            tags.deep_view(),
            content@,
            e.created_at,
        ),
        res matches Ok(e) ==> envelope_verification(e@) == Ok::<(), EnvelopeError>(()),
        res matches Err(error) ==> error == EnvelopeError::ClockBeforeUnixEpoch,
{
    let elapsed = match duration_since_unix_epoch(system_time_now()) {
        Some(elapsed) => elapsed,
        None => return Err(EnvelopeError::ClockBeforeUnixEpoch),
    };
    let created_at = unix_seconds_stamp(whole_seconds(elapsed));
    sign_envelope_at(keys, kind, tags, content, created_at)
}

} // verus!
