//! Signature engine: detached signatures over byte payloads.
//!
//! The scheme is fixed: payloads are hashed with SHA-256, the digest is
//! signed with the identity's Ed25519 secret key, and the signature travels
//! as base64 text bytes.  Signing failures (an unsupported key algorithm)
//! degrade into the empty signature, which never verifies; verification
//! failure is an ordinary `false`, never an error.
use vstd::prelude::*;
use base64::Engine;
use pgp::types::SigningKey;

verus! {

#[verifier::external_type_specification]
#[verifier::external_body]
pub struct ExSignedSecretKey(pgp::composed::SignedSecretKey);

/// The SHA-256 digest of a byte sequence.
pub uninterp spec fn sha256_of(m: Seq<u8>) -> Seq<u8>;

/// The base64 (standard alphabet, padded) encoding of a byte sequence.
pub uninterp spec fn b64_enc_of(b: Seq<u8>) -> Seq<u8>;

/// The base64 decoding of a byte sequence; empty where the input is not
/// well-formed base64.
pub uninterp spec fn b64_dec_of(s: Seq<u8>) -> Seq<u8>;

/// Whether `sig` is a valid raw signature over `digest` under the public
/// key whose OpenPGP packet-body serialization is `pk`.
pub uninterp spec fn pgp_verifies(pk: Seq<u8>, digest: Seq<u8>, sig: Seq<u8>) -> bool;

/// Whether `sig` (base64 text bytes) is a valid detached signature over the
/// payload `m` under the public key serialized as `pk`.
pub open spec fn sig_valid(pk: Seq<u8>, m: Seq<u8>, sig: Seq<u8>) -> bool {
    pgp_verifies(pk, sha256_of(m), b64_dec_of(sig))
}

/// Relies on sha2::Sha256: the digest is a pure function of the input and
/// is 32 bytes long.
#[verifier::external_body]
fn sha256(m: &[u8]) -> (r: Vec<u8>)
    ensures
        r@ == sha256_of(m@),
        r@.len() == 32,
{
    <sha2::Sha256 as sha2::Digest>::digest(m).to_vec()
}

/// Relies on base64's STANDARD engine: encoding is a pure function of the
/// input, decoding an encoding returns the encoded bytes unchanged, and a
/// non-empty input has a non-empty encoding (four digits per three bytes).
#[verifier::external_body]
fn b64_encode(b: &[u8]) -> (r: Vec<u8>)
    ensures
        r@ == b64_enc_of(b@),
        b64_dec_of(r@) == b@,
        b@.len() > 0 ==> r@.len() > 0,
{
    base64::engine::general_purpose::STANDARD.encode(b).into_bytes()
}

/// Relies on base64's STANDARD engine: decoding is a pure function of the
/// input; a malformed input decodes to the empty sentinel, and the empty
/// input to nothing.
#[verifier::external_body]
fn b64_decode(s: &[u8]) -> (r: Vec<u8>)
    ensures
        r@ == b64_dec_of(s@),
        s@.len() == 0 ==> r@.len() == 0,
{
    base64::engine::general_purpose::STANDARD.decode(s).unwrap_or_default()
}

/// Relies on pgp: parsing a public-key packet body and checking a native
/// (Ed25519) signature over a digest is deterministic; a malformed key or
/// signature makes the check fail, it never panics, and an empty signature
/// is rejected by every key algorithm.
#[verifier::external_body]
fn pgp_verify(pk: &[u8], digest: &[u8], sig: &[u8]) -> (r: bool)
    ensures
        r == pgp_verifies(pk@, digest@, sig@),
        sig@.len() == 0 ==> !r,
{
    let header = pgp::packet::PacketHeader::new_fixed(pgp::types::Tag::PublicKey, pk.len() as u32);
    match pgp::packet::PublicKey::try_from_reader(header, &mut &pk[..]) {
        Ok(key) => pgp::types::VerifyingKey::verify(
            &key,
            pgp::crypto::hash::HashAlgorithm::Sha256,
            digest,
            &pgp::types::SignatureBytes::Native(sig.to_vec().into()),
        )
        .is_ok(),
        Err(_) => false,
    }
}

/// An asymmetric identity: the secret key that signs, paired with the
/// serialized public half that recipients verify against, and whether the
/// key can produce signatures under this engine's fixed scheme.  Only
/// [`Identity::from_key`] constructs one, so the public bytes always belong
/// to the held secret key.
pub struct Identity {
    key: pgp::composed::SignedSecretKey,
    pub_key: Vec<u8>,
    can_sign: bool,
}

impl View for Identity {
    type V = Seq<u8>;

    closed spec fn view(&self) -> Seq<u8> {
        self.pub_key@
    }
}

impl Identity {
    /// Whether the held key produces signatures under the fixed scheme: an
    /// unencrypted key of a native signing algorithm.
    pub closed spec fn signing_capable(&self) -> bool {
        self.can_sign
    }

    /// Relies on pgp: the primary key's public half serializes to packet-body
    /// bytes that parse back to the same key (pgp's own round-trip property),
    /// and signing is deterministic per key, so one probe signature settles
    /// whether the key signs.
    #[verifier::external_body]
    pub fn from_key(key: pgp::composed::SignedSecretKey) -> (r: Identity)
    {
        let pub_key = pgp::ser::Serialize::to_bytes(key.primary_key.public_key())
            .unwrap_or_default();
        let hash = pgp::crypto::hash::HashAlgorithm::Sha256;
        let probe = key.primary_key.sign(&pgp::types::Password::empty(), hash, &[0u8; 32]);
        let can_sign = matches!(probe, Ok(pgp::types::SignatureBytes::Native(_)));
        Identity { key, pub_key, can_sign }
    }

    /// Whether [`sign`] will yield a usable signature rather than the empty
    /// sentinel.
    pub fn is_signing_capable(&self) -> (r: bool)
        ensures
            r == self.signing_capable(),
    {
        self.can_sign
    }

    /// The serialized public half, as embedded in outgoing messages.
    pub fn public_key(&self) -> (r: &Vec<u8>)
        ensures
            r@ == self@,
    {
        &self.pub_key
    }

    /// Relies on pgp: an Ed25519 signature produced by the secret key over a
    /// digest verifies under the key's public half and is 64 bytes; signing
    /// with such a key is total over 32-byte digests, so a key that signed
    /// the construction-time probe signs every digest; any other key
    /// algorithm, or a signing error, yields `None` rather than a panic.
    #[verifier::external_body]
    fn sign_digest(&self, digest: &[u8]) -> (r: Option<Vec<u8>>)
        ensures
            r matches Some(b) ==> pgp_verifies(self@, digest@, b@) && b@.len() == 64,
            self.signing_capable() && digest@.len() == 32 ==> r is Some,
    {
        let hash = pgp::crypto::hash::HashAlgorithm::Sha256;
        match self.key.primary_key.sign(&pgp::types::Password::empty(), hash, digest) {
            Ok(pgp::types::SignatureBytes::Native(b)) => Some(b.to_vec()),
            _ => None,
        }
    }
}

/// Signs `message` with the identity's secret key: the result is either a
/// base64 signature that verifies under the identity's public key, or the
/// empty sentinel where the key cannot produce one.  A signing-capable
/// identity always yields a usable signature.
pub fn sign(identity_key: &Identity, message: &[u8]) -> (r: Vec<u8>)
    ensures
        r@.len() == 0 || sig_valid(identity_key@, message@, r@),
        identity_key.signing_capable() ==> r@.len() > 0 && sig_valid(
            identity_key@,
            message@,
            r@,
        ),
{
    let digest = sha256(message);
    match identity_key.sign_digest(&digest) {
        Some(raw) => b64_encode(&raw),
        None => Vec::new(),
    }
}

/// Returns true iff `message_sig` is a valid detached signature over
/// `message` under the public key serialized as `pkey`.  The empty sentinel
/// signature never verifies.
pub fn check_sig(pkey: &[u8], message: &[u8], message_sig: &[u8]) -> (r: bool)
    ensures
        r == sig_valid(pkey@, message@, message_sig@),
        message_sig@.len() == 0 ==> !r,
{
    let digest = sha256(message);
    let raw = b64_decode(message_sig);
    pgp_verify(pkey, &digest, &raw)
}

} // verus!
