//! Hashing, hex encoding and BIP-340 Schnorr signatures, as the envelope
//! logic uses them.  The arithmetic itself is done by the `secp256k1`
//! crate (and the `bitcoin_hashes` crate it re-exports); the items below
//! state what the library relies on.
use vstd::prelude::*;

verus! {

/// The lowercase hex digit for a value below 16.
pub open spec fn hex_digit(n: int) -> char {
    if n < 10 {
        (48 + n) as char
    } else {
        (87 + n) as char
    }
}

/// Lowercase hex encoding, two digits per byte, most significant nibble first.
pub open spec fn hex_lower(bytes: Seq<u8>) -> Seq<char>
    decreases bytes.len(),
{
    if bytes.len() == 0 {
        Seq::empty()
    } else {
        seq![hex_digit(bytes[0] as int / 16), hex_digit(bytes[0] as int % 16)] + hex_lower(bytes.drop_first())
    }
}

proof fn lemma_hex_lower_len(bytes: Seq<u8>)
    ensures
        hex_lower(bytes).len() == 2 * bytes.len(),
    decreases bytes.len(),
{
    if bytes.len() > 0 {
        lemma_hex_lower_len(bytes.drop_first());
    }
}

/// Different byte strings have different hex encodings.
pub proof fn lemma_hex_lower_injective(a: Seq<u8>, b: Seq<u8>)
    requires
        hex_lower(a) == hex_lower(b),
    ensures
        a == b,
    decreases a.len(),
{
    lemma_hex_lower_len(a);
    lemma_hex_lower_len(b);
    if a.len() > 0 && b.len() > 0 {
        let h = hex_lower(a);
        assert(h[0] == hex_digit(a[0] as int / 16) && h[1] == hex_digit(a[0] as int % 16));
        assert(h[0] == hex_digit(b[0] as int / 16) && h[1] == hex_digit(b[0] as int % 16));
        assert(a[0] == b[0]);
        assert(hex_lower(a.drop_first()) =~= h.subrange(2, h.len() as int));
        assert(hex_lower(b.drop_first()) =~= hex_lower(b).subrange(2, h.len() as int));
        lemma_hex_lower_injective(a.drop_first(), b.drop_first());
        assert(a =~= seq![a[0]] + a.drop_first());
        assert(b =~= seq![b[0]] + b.drop_first());
    } else {
        assert(a =~= b);
    }
}

/// A character accepted as a hex digit, in either case.
pub open spec fn is_hex_char(c: char) -> bool {
    ('0' <= c && c <= '9') || ('a' <= c && c <= 'f') || ('A' <= c && c <= 'F')
}

/// A text of exactly `n` hex digits.
pub open spec fn is_hex_text(s: Seq<char>, n: nat) -> bool {
    &&& s.len() == n
    &&& forall|i: int| 0 <= i < s.len() ==> is_hex_char(#[trigger] s[i])
}

/// A text of exactly `n` lowercase hex digits.
pub open spec fn is_lower_hex_text(s: Seq<char>, n: nat) -> bool {
    &&& s.len() == n
    &&& forall|i: int|
        0 <= i < s.len() ==> ('0' <= #[trigger] s[i] && s[i] <= '9') || ('a' <= s[i] && s[i]
            <= 'f')
}

/// The SHA-256 digest of a byte string.
pub uninterp spec fn sha256(data: Seq<u8>) -> Seq<u8>;

/// Whether a hex text is a secp256k1 secret key (64 hex digits naming a
/// scalar in range).
pub uninterp spec fn secret_key_valid(secret_hex: Seq<char>) -> bool;

/// The lowercase hex x-only public key that belongs to a secret key.
pub uninterp spec fn x_only_public_key_of(secret_hex: Seq<char>) -> Seq<char>;

/// Whether a hex text names a point usable as an x-only public key.
pub uninterp spec fn x_only_public_key_valid(pubkey_hex: Seq<char>) -> bool;

/// The BIP-340 signature, without auxiliary randomness, of `msg` under a secret key,
/// as lowercase hex.
pub uninterp spec fn schnorr_sign(secret_hex: Seq<char>, msg: Seq<u8>) -> Seq<char>;

/// Whether `sig_hex` is a valid BIP-340 signature of `msg` under `pubkey_hex`.
pub uninterp spec fn schnorr_verifies(sig_hex: Seq<char>, msg: Seq<u8>, pubkey_hex: Seq<char>) -> bool;

/// `sha256::Hash::hash` of `bitcoin_hashes` (re-exported by `secp256k1`):
/// believed to return the 32-byte SHA-256 digest of its input.
#[verifier::external_body]
pub(crate) fn sha256_digest(data: &[u8]) -> (res: Vec<u8>)
    ensures
        res@ == sha256(data@),
        res@.len() == 32,
{
    secp256k1::hashes::Hash::to_byte_array(
        <secp256k1::hashes::sha256::Hash as secp256k1::hashes::Hash>::hash(data),
    ).to_vec()
}

/// `hex::encode`: believed to return the lowercase hex encoding of its input.
#[verifier::external_body]
pub(crate) fn hex_encode(data: &[u8]) -> (res: String)
    ensures
        res@ == hex_lower(data@),
{
    hex::encode(data)
}

/// `Keypair::from_seckey_str_global` of `secp256k1`, asked only whether it
/// accepts the text.  Believed: an accepted text is 64 hex digits.
#[verifier::external_body]
pub(crate) fn secret_key_hex_is_valid(secret_hex: &str) -> (res: bool)
    ensures
        res == secret_key_valid(secret_hex@),
        res ==> is_hex_text(secret_hex@, 64),
{
    secp256k1::Keypair::from_seckey_str_global(secret_hex).is_ok()
}

/// `Keypair::x_only_public_key` of `secp256k1`, shown with its `Display`
/// (lowercase hex).  Believed: the text is 64 lowercase hex digits and is
/// accepted again by `XOnlyPublicKey::from_str`.
#[verifier::external_body]
pub(crate) fn x_only_public_key_hex(secret_hex: &str) -> (res: String)
    requires
        secret_key_valid(secret_hex@),
    ensures
        res@ == x_only_public_key_of(secret_hex@),
        is_lower_hex_text(res@, 64),
        x_only_public_key_valid(res@),
{
    secp256k1::Keypair::from_seckey_str_global(secret_hex)
        .map(|keypair| keypair.x_only_public_key().0.to_string())
        .unwrap_or_default()
}

/// `XOnlyPublicKey::from_str` of `secp256k1`, asked only whether it accepts
/// the text.  Believed: an accepted text is 64 hex digits.
#[verifier::external_body]
pub(crate) fn x_only_public_key_hex_is_valid(pubkey_hex: &str) -> (res: bool)
    ensures
        res == x_only_public_key_valid(pubkey_hex@),
        res ==> is_hex_text(pubkey_hex@, 64),
{
    pubkey_hex.parse::<secp256k1::XOnlyPublicKey>().is_ok()
}

/// `schnorr::Signature::from_str` of `secp256k1`, asked only whether it
/// accepts the text.  Its source accepts exactly the texts of 128 hex digits.
#[verifier::external_body]
pub(crate) fn schnorr_signature_hex_is_valid(sig_hex: &str) -> (res: bool)
    ensures
        res == is_hex_text(sig_hex@, 128),
{
    sig_hex.parse::<secp256k1::schnorr::Signature>().is_ok()
}

/// `Secp256k1::sign_schnorr_no_aux_rand` with the global context, the
/// signature shown by its `Display`.  Believed: the text is 128 lowercase
/// hex digits, and `verify_schnorr` accepts it for the same message under
/// the key's public key (the crate's own sign-then-verify tests).
#[verifier::external_body]
pub(crate) fn schnorr_sign_hex(secret_hex: &str, msg: &[u8]) -> (res: String)
    requires
        secret_key_valid(secret_hex@),
    ensures
        res@ == schnorr_sign(secret_hex@, msg@),
        is_lower_hex_text(res@, 128),
        schnorr_verifies(res@, msg@, x_only_public_key_of(secret_hex@)),
{
    secp256k1::Keypair::from_seckey_str_global(secret_hex)
        .map(|keypair| secp256k1::SECP256K1.sign_schnorr_no_aux_rand(msg, &keypair).to_string())
        .unwrap_or_default()
}

/// `Secp256k1::verify_schnorr` with the global context, its two key
/// arguments given as the hex texts that `from_str` turns into them.
/// Believed: it answers whether the signature is valid.
#[verifier::external_body]
pub(crate) fn schnorr_verify_hex(sig_hex: &str, msg: &[u8], pubkey_hex: &str) -> (res: bool)
    requires
        is_hex_text(sig_hex@, 128),
        x_only_public_key_valid(pubkey_hex@),
    ensures
        res == schnorr_verifies(sig_hex@, msg@, pubkey_hex@),
{
    match (sig_hex.parse::<secp256k1::schnorr::Signature>(), pubkey_hex.parse::<secp256k1::XOnlyPublicKey>()) {
        (Ok(sig), Ok(pubkey)) => secp256k1::SECP256K1.verify_schnorr(&sig, msg, &pubkey).is_ok(),
        _ => false,
    }
}

/// An author's signing key, held as the hex text of its secret.
pub struct KukuriKeys {
    secret_hex: String,
}

impl KukuriKeys {
    #[verifier::type_invariant]
    spec fn secret_is_valid(&self) -> bool {
        secret_key_valid(self.secret_hex@)
    }

    /// The hex text of the secret key.
    pub closed spec fn secret(&self) -> Seq<char> {
        self.secret_hex@
    }

    /// The x-only public key of these keys, as lowercase hex.
    pub open spec fn public_key(&self) -> Seq<char> {
        x_only_public_key_of(self.secret())
    }

    /// The keys of a secret given as 64 hex digits; `None` when the text is
    /// not a secp256k1 secret key.
    pub fn from_secret_hex(secret_hex: &str) -> (res: Option<KukuriKeys>)
        ensures
            res is Some <==> secret_key_valid(secret_hex@),
            res matches Some(keys) ==> keys.secret() == secret_hex@,
    {
        if secret_key_hex_is_valid(secret_hex) {
            Some(KukuriKeys { secret_hex: secret_hex.to_string() })
        } else {
            None
        }
    }

    /// The secret key as hex text.
    pub fn export_secret_hex(&self) -> (res: String)
        ensures
            res@ == self.secret(),
            secret_key_valid(res@),
    {
        proof { use_type_invariant(self); }
        self.secret_hex.clone()
    }

    /// The x-only public key as 64 lowercase hex digits.
    pub fn public_key_hex(&self) -> (res: String)
        ensures
            res@ == self.public_key(),
            is_lower_hex_text(res@, 64),
            x_only_public_key_valid(res@),
    {
        proof { use_type_invariant(self); }
        x_only_public_key_hex(self.secret_hex.as_str())
    }

    /// A BIP-340 signature of `msg`, as 128 lowercase hex digits.
    pub fn sign_schnorr(&self, msg: &[u8]) -> (res: String)
        ensures
            res@ == schnorr_sign(self.secret(), msg@),
            is_lower_hex_text(res@, 128),
            schnorr_verifies(res@, msg@, self.public_key()),
    {
        proof { use_type_invariant(self); }
        schnorr_sign_hex(self.secret_hex.as_str(), msg)
    }
}

} // verus!
