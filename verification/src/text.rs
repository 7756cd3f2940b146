//! Signing and verifying content under a keyed hash or a public-key
//! signature scheme, and generating the keys for either.

use crate::error::CliError;
use crate::primitives::blake3_keyed_hash;
use crate::primitives::ed25519_public;
use crate::primitives::ed25519_public_key;
use crate::primitives::ed25519_sign;
use crate::primitives::ed25519_signature;
use crate::primitives::ed25519_verdict;
use crate::primitives::ed25519_verify;
use crate::primitives::keyed_hash;
use crate::primitives::os_random_seed;
use crate::utils::constant_time_eq;
use crate::utils::str_eq;
use crate::utils::to_array;
use vstd::prelude::*;
use vstd::slice::slice_to_vec;

verus! {

/// The signing schemes a message can be authenticated with.
#[derive(Debug, Clone, Copy, PartialEq, Eq, Structural)]
pub enum TextSignFormat {
    /// Keyed BLAKE3 hash: one shared 32-byte key, 32-byte signature.
    Black3,
    /// Ed25519: 32-byte private seed, 32-byte public key, 64-byte signature.
    Ed25519,
}

/// The scheme that `text` names, if it names one.
pub open spec fn named_format(text: Seq<char>) -> Option<TextSignFormat> {
    if text == "blake3"@ {
        Some(TextSignFormat::Black3)
    } else if text == "ed25519"@ {
        Some(TextSignFormat::Ed25519)
    } else {
        None
    }
}

impl TextSignFormat {
    /// The length in bytes of every key of the scheme: the shared key, the
    /// private seed and the public key alike.
    pub open spec fn spec_key_len(self) -> usize {
        32
    }

    /// The length in bytes of every signature of the scheme.
    pub open spec fn spec_signature_len(self) -> usize {
        match self {
            TextSignFormat::Black3 => 32,
            TextSignFormat::Ed25519 => 64,
        }
    }

    /// The length in bytes of every key of the scheme.
    #[verifier::when_used_as_spec(spec_key_len)]
    pub fn key_len(self) -> (n: usize)
        ensures
            n == self.spec_key_len(),
    {
        32
    }

    /// The length in bytes of every signature of the scheme.
    #[verifier::when_used_as_spec(spec_signature_len)]
    pub fn signature_len(self) -> (n: usize)
        ensures
            n == self.spec_signature_len(),
    {
        match self {
            TextSignFormat::Black3 => 32,
            TextSignFormat::Ed25519 => 64,
        }
    }

    /// Reads a scheme's name: `blake3` or `ed25519`, in exactly these
    /// letters. Any other text is refused as `UnknownScheme`.
    pub fn from_str(s: &str) -> (r: Result<TextSignFormat, CliError>)
        ensures
            match named_format(s@) {
                Some(format) => r == Ok::<TextSignFormat, CliError>(format),
                None => r == Err::<TextSignFormat, CliError>(CliError::UnknownScheme),
            },
    {
        if str_eq(s, "blake3") {
            Ok(TextSignFormat::Black3)
        } else if str_eq(s, "ed25519") {
            Ok(TextSignFormat::Ed25519)
        } else {
            Err(CliError::UnknownScheme)
        }
    }
}

impl From<TextSignFormat> for &'static str {
    /// The scheme's name, as `TextSignFormat::from_str` reads it.
    fn from(value: TextSignFormat) -> (name: Self) {
        match value {
            TextSignFormat::Black3 => "blake3",
            TextSignFormat::Ed25519 => "ed25519",
        }
    }
}

impl vstd::std_specs::convert::FromSpecImpl<TextSignFormat> for &'static str {
    open spec fn obeys_from_spec() -> bool {
        true
    }

    open spec fn from_spec(value: TextSignFormat) -> Self {
        match value {
            TextSignFormat::Black3 => "blake3",
            TextSignFormat::Ed25519 => "ed25519",
        }
    }
}

/// What reading a content source from start to end gave: all of its bytes,
/// or the source's report of why it could not be read.
///
/// The caller reads the source, once and in order, and hands the content
/// over whole; the library holds no part of it after a call returns.
#[derive(Debug, Clone, PartialEq, Eq)]
pub enum ContentStream {
    /// The whole content, in order.
    Bytes(Vec<u8>),
    /// The source failed; the value is its report.
    Failed(String),
}

/// Freshly generated key bytes, tagged with their scheme.
#[derive(Debug, Clone, PartialEq, Eq)]
pub enum KeyMaterial {
    /// The one key of the keyed hash, which signs and verifies.
    SymmetricMac { key: [u8; 32] },
    /// The private seed, which signs, and the public key derived from it,
    /// which verifies.
    AsymmetricSignature { private: [u8; 32], public: [u8; 32] },
}

/// The signature that the scheme assigns to `content` under `key`.
pub open spec fn signature_of(format: TextSignFormat, key: Seq<u8>, content: Seq<u8>) -> Seq<u8> {
    match format {
        TextSignFormat::Black3 => blake3_keyed_hash(key, content)@,
        TextSignFormat::Ed25519 => ed25519_signature(key, content)@,
    }
}

/// The key that verifies what `signing_key` signs: the key itself for the
/// keyed hash, the derived public key for Ed25519.
pub open spec fn verifying_key_of(format: TextSignFormat, signing_key: Seq<u8>) -> Seq<u8> {
    match format {
        TextSignFormat::Black3 => signing_key,
        TextSignFormat::Ed25519 => ed25519_public_key(signing_key)@,
    }
}

/// Whether the scheme accepts `signature` for `content` under the verifying
/// key `key`. The keyed hash accepts exactly the hash it computes itself.
/// Ed25519 accepts what its own check accepts; a signature that is not 64
/// bytes long, or a key that is no point of the curve, is never accepted.
pub open spec fn signature_accepted(
    format: TextSignFormat,
    key: Seq<u8>,
    content: Seq<u8>,
    signature: Seq<u8>,
) -> bool {
    match format {
        TextSignFormat::Black3 => signature == blake3_keyed_hash(key, content)@,
        TextSignFormat::Ed25519 => signature.len() == 64 && ed25519_verdict(key, content, signature)
            == Some(true),
    }
}

/// Whether `signature` is what signing `content` gives under some signing
/// key of the scheme's length whose verifying key is `key`.
pub open spec fn signed_by(
    format: TextSignFormat,
    key: Seq<u8>,
    content: Seq<u8>,
    signature: Seq<u8>,
) -> bool {
    exists|signing_key: Seq<u8>|
        signing_key.len() == format.spec_key_len() && key == #[trigger] verifying_key_of(
            format,
            signing_key,
        ) && signature == signature_of(format, signing_key, content)
}

/// What signing gives. A key of the wrong length is refused before the
/// content is looked at; a content source that failed is reported in its own
/// words; otherwise the result is the scheme's signature.
pub open spec fn sign_outcome(format: TextSignFormat, key: Seq<u8>, content: ContentStream) -> Result<
    Seq<u8>,
    CliError,
> {
    if key.len() != format.spec_key_len() {
        Err(CliError::InvalidKeyLength)
    } else {
        match content {
            ContentStream::Failed(report) => Err(CliError::ContentReadError(report)),
            ContentStream::Bytes(bytes) => Ok(signature_of(format, key, bytes@)),
        }
    }
}

/// What verifying gives. Errors arise as in `sign_outcome`; otherwise the
/// result says whether the scheme accepts the signature. A signature of the
/// wrong length, or a wrong signature, is `Ok(false)`, never an error.
pub open spec fn verify_outcome(
    format: TextSignFormat,
    key: Seq<u8>,
    content: ContentStream,
    signature: Seq<u8>,
) -> Result<bool, CliError> {
    if key.len() != format.spec_key_len() {
        Err(CliError::InvalidKeyLength)
    } else {
        match content {
            ContentStream::Failed(report) => Err(CliError::ContentReadError(report)),
            ContentStream::Bytes(bytes) => Ok(signature_accepted(format, key, bytes@, signature)),
        }
    }
}

/// A result that holds bytes, with the bytes as a sequence.
pub open spec fn bytes_outcome(r: Result<Vec<u8>, CliError>) -> Result<Seq<u8>, CliError> {
    match r {
        Ok(bytes) => Ok(bytes@),
        Err(e) => Err(e),
    }
}

impl KeyMaterial {
    /// The scheme that the keys are for.
    pub open spec fn spec_format(&self) -> TextSignFormat {
        match self {
            KeyMaterial::SymmetricMac { .. } => TextSignFormat::Black3,
            KeyMaterial::AsymmetricSignature { .. } => TextSignFormat::Ed25519,
        }
    }

    /// The bytes of the key that signs.
    pub open spec fn spec_signing_key(&self) -> Seq<u8> {
        match self {
            KeyMaterial::SymmetricMac { key } => key@,
            KeyMaterial::AsymmetricSignature { private, .. } => private@,
        }
    }

    /// The bytes of the key that verifies.
    pub open spec fn spec_verifying_key(&self) -> Seq<u8> {
        match self {
            KeyMaterial::SymmetricMac { key } => key@,
            KeyMaterial::AsymmetricSignature { public, .. } => public@,
        }
    }

    /// The keys belong together: the verifying key is the one that the
    /// scheme derives from the signing key.
    pub open spec fn wf(&self) -> bool {
        self.spec_verifying_key() == verifying_key_of(self.spec_format(), self.spec_signing_key())
    }

    /// The key material that the scheme derives from 32 given bytes: the
    /// bytes themselves as the shared key, or the bytes as private seed
    /// together with their public key.
    pub fn from_seed(format: TextSignFormat, seed: [u8; 32]) -> (material: KeyMaterial)
        ensures
            material.wf(),
            material.spec_format() == format,
            material.spec_signing_key() == seed@,
    {
        match format {
            TextSignFormat::Black3 => KeyMaterial::SymmetricMac { key: seed },
            TextSignFormat::Ed25519 => {
                let public = ed25519_public(&seed);
                KeyMaterial::AsymmetricSignature { private: seed, public }
            },
        }
    }

    /// The scheme that the keys are for.
    #[verifier::when_used_as_spec(spec_format)]
    pub fn format(&self) -> (format: TextSignFormat)
        ensures
            format == self.spec_format(),
    {
        match self {
            KeyMaterial::SymmetricMac { .. } => TextSignFormat::Black3,
            KeyMaterial::AsymmetricSignature { .. } => TextSignFormat::Ed25519,
        }
    }

    /// The bytes of the key that signs: the shared key, or the private seed.
    pub fn signing_key(&self) -> (key: Vec<u8>)
        ensures
            key@ == self.spec_signing_key(),
    {
        match self {
            KeyMaterial::SymmetricMac { key } => slice_to_vec(key.as_slice()),
            KeyMaterial::AsymmetricSignature { private, .. } => slice_to_vec(private.as_slice()),
        }
    }

    /// The bytes of the key that verifies: the shared key, or the public key.
    pub fn verifying_key(&self) -> (key: Vec<u8>)
        ensures
            key@ == self.spec_verifying_key(),
    {
        match self {
            KeyMaterial::SymmetricMac { key } => slice_to_vec(key.as_slice()),
            KeyMaterial::AsymmetricSignature { public, .. } => slice_to_vec(public.as_slice()),
        }
    }

    /// The key bytes in the order in which they are to be stored: private
    /// material first, public material second. The keyed hash has one blob,
    /// Ed25519 two.
    pub fn blobs(&self) -> (blobs: Vec<Vec<u8>>)
        ensures
            match self {
                KeyMaterial::SymmetricMac { key } => blobs@.len() == 1 && blobs@[0]@ == key@,
                KeyMaterial::AsymmetricSignature { private, public } => blobs@.len() == 2
                    && blobs@[0]@ == private@ && blobs@[1]@ == public@,
            },
    {
        let mut blobs: Vec<Vec<u8>> = Vec::new();
        blobs.push(self.signing_key());
        match self {
            KeyMaterial::SymmetricMac { .. } => {},
            KeyMaterial::AsymmetricSignature { .. } => {
                blobs.push(self.verifying_key());
            },
        }
        blobs
    }
}

/// The keys that come of what the random source gave: the key material of
/// the 32 bytes drawn, or `RandomSourceUnavailable` if the source gave none.
pub fn key_material_of_draw(format: TextSignFormat, drawn: Option<[u8; 32]>) -> (r: Result<
    KeyMaterial,
    CliError,
>)
    ensures
        drawn matches Some(seed) ==> r matches Ok(material) && material.wf()
            && material.spec_format() == format && material.spec_signing_key() == seed@,
        drawn is None ==> r == Err::<KeyMaterial, CliError>(CliError::RandomSourceUnavailable),
{
    match drawn {
        Some(seed) => Ok(KeyMaterial::from_seed(format, seed)),
        None => Err(CliError::RandomSourceUnavailable),
    }
}

/// Generates fresh keys for the scheme from 32 bytes of the operating
/// system's random source. The only failure is that of the source.
pub fn process_text_key_generate(format: TextSignFormat) -> (r: Result<KeyMaterial, CliError>)
    ensures
        r matches Ok(material) ==> material.wf() && material.spec_format() == format,
        r matches Err(e) ==> e == CliError::RandomSourceUnavailable,
{
    let drawn = match os_random_seed() {
        Ok(seed) => Some(seed),
        Err(_) => None,
    };
    key_material_of_draw(format, drawn)
}

/// Signs the content that was read, under `key`: the shared key of the keyed
/// hash, or the private seed of Ed25519.
pub fn process_text_sign(reader: &ContentStream, key: &[u8], format: TextSignFormat) -> (r: Result<
    Vec<u8>,
    CliError,
>)
    ensures
        bytes_outcome(r) == sign_outcome(format, key@, *reader),
        r matches Ok(signature) ==> signature@.len() == format.spec_signature_len(),
{
    if key.len() != format.key_len() {
        return Err(CliError::InvalidKeyLength);
    }
    match reader {
        ContentStream::Failed(report) => Err(CliError::ContentReadError(report.clone())),
        ContentStream::Bytes(content) => {
            let key: [u8; 32] = to_array(key);
            match format {
                TextSignFormat::Black3 => {
                    let mac = keyed_hash(&key, content.as_slice());
                    Ok(slice_to_vec(mac.as_slice()))
                },
                TextSignFormat::Ed25519 => {
                    let signature = ed25519_sign(&key, content.as_slice());
                    Ok(slice_to_vec(signature.as_slice()))
                },
            }
        },
    }
}

/// Checks `sig` against the content that was read, under `key`: the shared
/// key of the keyed hash, or the public key of Ed25519.
///
/// A signature that `process_text_sign` made over the same content, under a
/// signing key to which `key` belongs, is always accepted.
pub fn process_text_verify(
    reader: &ContentStream,
    key: &[u8],
    sig: &[u8],
    format: TextSignFormat,
) -> (r: Result<bool, CliError>)
    ensures
        r == verify_outcome(format, key@, *reader, sig@),
        reader matches ContentStream::Bytes(content) && signed_by(format, key@, content@, sig@)
            ==> r == Ok::<bool, CliError>(true),
{
    if key.len() != format.key_len() {
        return Err(CliError::InvalidKeyLength);
    }
    match reader {
        ContentStream::Failed(report) => Err(CliError::ContentReadError(report.clone())),
        ContentStream::Bytes(content) => {
            let key: [u8; 32] = to_array(key);
            match format {
                TextSignFormat::Black3 => {
                    let mac = keyed_hash(&key, content.as_slice());
                    Ok(constant_time_eq(mac.as_slice(), sig))
                },
                TextSignFormat::Ed25519 => {
                    if sig.len() != format.signature_len() {
                        return Ok(false);
                    }
                    let signature: [u8; 64] = to_array(sig);
                    match ed25519_verify(&key, content.as_slice(), &signature) {
                        Ok(accepted) => Ok(accepted),
                        Err(_) => Ok(false),
                    }
                },
            }
        },
    }
}

/// Every signature of a scheme has the scheme's signature length.
pub proof fn lemma_signature_len(format: TextSignFormat, key: Seq<u8>, content: Seq<u8>)
    ensures
        signature_of(format, key, content).len() == format.spec_signature_len(),
{
}

/// Determinism: signing depends on nothing but the scheme, the key bytes and
/// what the content source gave. Two signings that agree in these agree in
/// their outcome, byte for byte.
pub proof fn lemma_sign_deterministic(
    format: TextSignFormat,
    key1: Seq<u8>,
    content1: ContentStream,
    key2: Seq<u8>,
    content2: ContentStream,
)
    requires
        key1 == key2,
        content1 == content2,
    ensures
        sign_outcome(format, key1, content1) == sign_outcome(format, key2, content2),
{
}

/// Length guard: with a key that does not have the scheme's key length,
/// signing and verifying both fail with `InvalidKeyLength`, whatever the
/// content and the signature are.
pub proof fn lemma_wrong_key_length_refused(
    format: TextSignFormat,
    key: Seq<u8>,
    content: ContentStream,
    signature: Seq<u8>,
)
    requires
        key.len() != format.spec_key_len(),
    ensures
        sign_outcome(format, key, content) == Err::<Seq<u8>, CliError>(CliError::InvalidKeyLength),
        verify_outcome(format, key, content, signature) == Err::<bool, CliError>(
            CliError::InvalidKeyLength,
        ),
{
}

/// With a key of the scheme's length, signing and verifying fail only where
/// the content source failed, and then in the words of the source.
pub proof fn lemma_content_failure_reported(
    format: TextSignFormat,
    key: Seq<u8>,
    report: String,
    signature: Seq<u8>,
)
    requires
        key.len() == format.spec_key_len(),
    ensures
        sign_outcome(format, key, ContentStream::Failed(report)) == Err::<Seq<u8>, CliError>(
            CliError::ContentReadError(report),
        ),
        verify_outcome(format, key, ContentStream::Failed(report), signature) == Err::<
            bool,
            CliError,
        >(CliError::ContentReadError(report)),
{
}

/// What signing gives under a signing key of the scheme's length is
/// `signed_by` the verifying key that belongs to it. `process_text_verify`
/// accepts every such signature, so that signing and then verifying, with
/// the matching key and the same content, gives `true` under both schemes.
pub proof fn lemma_signature_is_signed_by(
    format: TextSignFormat,
    signing_key: Seq<u8>,
    content: Seq<u8>,
)
    requires
        signing_key.len() == format.spec_key_len(),
    ensures
        signed_by(
            format,
            verifying_key_of(format, signing_key),
            content,
            signature_of(format, signing_key, content),
        ),
{
}

/// Round trip under the keyed hash: what signing gives for a key and a
/// content is accepted when the same key verifies the same content.
pub proof fn lemma_keyed_hash_round_trip(key: Seq<u8>, content: Vec<u8>)
    requires
        key.len() == TextSignFormat::Black3.spec_key_len(),
    ensures
        sign_outcome(TextSignFormat::Black3, key, ContentStream::Bytes(content)) matches Ok(
            signature,
        ) && verify_outcome(
            TextSignFormat::Black3,
            verifying_key_of(TextSignFormat::Black3, key),
            ContentStream::Bytes(content),
            signature,
        ) == Ok::<bool, CliError>(true),
{
}

/// Under the keyed hash exactly one signature is accepted for a key and a
/// content: the one that signing gives. Any other byte string, of whatever
/// length, is rejected.
pub proof fn lemma_keyed_hash_accepts_one(key: Seq<u8>, content: Seq<u8>, signature: Seq<u8>)
    ensures
        signature_accepted(TextSignFormat::Black3, key, content, signature) <==> signature
            == signature_of(TextSignFormat::Black3, key, content),
{
}

/// Tampering with a keyed-hash signature: an accepted signature in which
/// one bit of one byte is flipped is rejected.
pub proof fn lemma_keyed_hash_bit_flip_rejected(
    key: Seq<u8>,
    content: Seq<u8>,
    signature: Seq<u8>,
    index: int,
    bit: u8,
)
    requires
        signature_accepted(TextSignFormat::Black3, key, content, signature),
        0 <= index < signature.len(),
        bit < 8,
    ensures
        !signature_accepted(
            TextSignFormat::Black3,
            key,
            content,
            signature.update(index, signature[index] ^ (1u8 << bit)),
        ),
{
    let byte = signature[index];
    assert(byte ^ (1u8 << bit) != byte) by (bit_vector)
        requires
            bit < 8,
    ;
    let flipped = signature.update(index, byte ^ (1u8 << bit));
    assert(flipped[index] != signature[index]);
}

/// A signature whose length is not the scheme's signature length is never
/// accepted.
pub proof fn lemma_wrong_signature_length_rejected(
    format: TextSignFormat,
    key: Seq<u8>,
    content: Seq<u8>,
    signature: Seq<u8>,
)
    requires
        signature.len() != format.spec_signature_len(),
    ensures
        !signature_accepted(format, key, content, signature),
{
}

} // verus!
