//! The RSA key pair a server signs its requests with: generating it, writing
//! it as PEM, and reading keys back from PEM. The cryptography is the `rsa`
//! crate's; the items marked trusted below are the calls into it.

use vstd::prelude::*;
use rsa::pkcs8::DecodePrivateKey;
use rsa::pkcs8::DecodePublicKey;
use rsa::pkcs8::EncodePrivateKey;
use rsa::pkcs8::EncodePublicKey;
use crate::own_server::OwnServer;
use crate::sign::SignError;

verus! {

/// The size, in bits, of every generated key.
pub const RSA_KEY_BITS: usize = 2048;

/// An RSA private key of the `rsa` crate.
#[verifier::external_type_specification]
#[verifier::external_body]
pub struct ExRsaPrivateKey(rsa::RsaPrivateKey);

/// An RSA public key of the `rsa` crate.
#[verifier::external_type_specification]
#[verifier::external_body]
pub struct ExRsaPublicKey(rsa::RsaPublicKey);

/// The error of RSA key generation.
#[verifier::external_type_specification]
#[verifier::external_body]
pub struct ExRsaError(rsa::Error);

/// The error of reading or writing a PKCS#8 private key.
#[verifier::external_type_specification]
#[verifier::external_body]
pub struct ExPkcs8Error(rsa::pkcs8::Error);

/// The error of reading a PKCS#1 public key.
#[verifier::external_type_specification]
#[verifier::external_body]
pub struct ExPkcs1Error(rsa::pkcs1::Error);

/// The error of writing a public key as SubjectPublicKeyInfo.
#[verifier::external_type_specification]
#[verifier::external_body]
pub struct ExSpkiError(rsa::pkcs8::spki::Error);

/// Whether a text is a PEM-encoded PKCS#8 private key that
/// `RsaPrivateKey::from_pkcs8_pem` accepts.
pub uninterp spec fn pkcs8_private_key_pem_accepted(pem: Seq<char>) -> bool;

/// The private key `RsaPrivateKey::from_pkcs8_pem` reads from a text, where
/// it accepts the text.
pub uninterp spec fn pkcs8_pem_private_key(pem: Seq<char>) -> rsa::RsaPrivateKey;

/// Whether a text is a PEM-encoded SubjectPublicKeyInfo RSA public key that
/// `RsaPublicKey::from_public_key_pem` accepts.
pub uninterp spec fn spki_public_key_pem_accepted(pem: Seq<char>) -> bool;

/// The public key `RsaPublicKey::from_public_key_pem` reads from a text,
/// where it accepts the text.
pub uninterp spec fn spki_pem_public_key(pem: Seq<char>) -> rsa::RsaPublicKey;

/// Whether `EncodePrivateKey::to_pkcs8_pem` succeeds on a private key.
pub uninterp spec fn pkcs8_encodable(key: rsa::RsaPrivateKey) -> bool;

/// Whether `EncodePublicKey::to_public_key_pem` succeeds on a public key.
pub uninterp spec fn spki_encodable(key: rsa::RsaPublicKey) -> bool;

/// Whether `text` is PEM with the type label `label` and LF line endings, as
/// `pem-rfc7468` writes it: `-----BEGIN {label}-----`, a line ending, the
/// Base64 body, a line ending, `-----END {label}-----` and a line ending.
pub open spec fn spec_pem_framed(text: Seq<char>, label: Seq<char>) -> bool {
    let head = "-----BEGIN "@ + label + "-----\n"@;
    let tail = "\n-----END "@ + label + "-----\n"@;
    &&& text.len() >= head.len() + tail.len()
    &&& text.take(head.len() as int) == head
    &&& text.skip(text.len() - tail.len()) == tail
}

/// The PEM label of a PKCS#8 private key.
pub open spec fn spec_pkcs8_label() -> Seq<char> {
    "PRIVATE KEY"@
}

/// The PEM label of a SubjectPublicKeyInfo public key.
pub open spec fn spec_spki_label() -> Seq<char> {
    "PUBLIC KEY"@
}

/// The PEM text `EncodePrivateKey::to_pkcs8_pem` writes for a private key
/// (with LF line endings), where it succeeds.
pub uninterp spec fn private_key_pkcs8_pem(key: rsa::RsaPrivateKey) -> Seq<char>;

/// The PEM text `EncodePublicKey::to_public_key_pem` writes for a public key
/// (with LF line endings), where it succeeds.
pub uninterp spec fn public_key_spki_pem(key: rsa::RsaPublicKey) -> Seq<char>;

/// The public key `RsaPrivateKey::to_public_key` gives for a private key:
/// its modulus and public exponent.
pub uninterp spec fn public_part_of(key: rsa::RsaPrivateKey) -> rsa::RsaPublicKey;

/// What holds of every key `RsaPrivateKey::new` generates at
/// [`RSA_KEY_BITS`] bits: it and its public part can be written as PEM, the
/// private key PEM reads back to a key with the same public part, and the
/// public key PEM reads back to the public part itself.
pub open spec fn spec_generated_key_round_trips(key: rsa::RsaPrivateKey) -> bool {
    &&& pkcs8_encodable(key)
    &&& spki_encodable(public_part_of(key))
    &&& pkcs8_private_key_pem_accepted(private_key_pkcs8_pem(key))
    &&& public_part_of(pkcs8_pem_private_key(private_key_pkcs8_pem(key))) == public_part_of(key)
    &&& spki_public_key_pem_accepted(public_key_spki_pem(public_part_of(key)))
    &&& spki_pem_public_key(public_key_spki_pem(public_part_of(key))) == public_part_of(key)
}

/// Calls `RsaPrivateKey::new` with the thread-local random generator of
/// `rand`, always for keys of [`RSA_KEY_BITS`] bits. The key is random. The
/// generation succeeds: with two primes and at least 64 bits,
/// `generate_multi_prime_key_with_exp` loops until it has distinct primes
/// whose product has the asked bits and an invertible exponent, and
/// `from_components` validates exactly those components. Of a generated key
/// the source shows that it round-trips through PEM
/// ([`spec_generated_key_round_trips`]): it has two distinct primes and has
/// passed `validate` (so `to_pkcs8_der` finds two primes and a CRT
/// coefficient, and `from_pkcs8_pem` rebuilds it from the same components and
/// validates it again), and its modulus has exactly the asked bits, within
/// the 4096-bit limit `RsaPublicKey::new` checks when the public key is read
/// back from its modulus and exponent.
#[verifier::external_body]
fn rsa_generate_private_key(bit_size: usize) -> (r: Result<rsa::RsaPrivateKey, rsa::Error>)
    requires
        bit_size == RSA_KEY_BITS,
    ensures
        r is Ok,
        r matches Ok(key) ==> spec_generated_key_round_trips(key),
{
    let mut rng = rand::thread_rng();
    rsa::RsaPrivateKey::new(&mut rng, bit_size)
}

/// Calls `RsaPrivateKey::to_public_key`, which clones the key's modulus and
/// public exponent: the result is [`public_part_of`] the key.
#[verifier::external_body]
fn rsa_public_part(private_key: &rsa::RsaPrivateKey) -> (r: rsa::RsaPublicKey)
    ensures
        r == public_part_of(*private_key),
{
    private_key.to_public_key()
}

/// Calls `EncodePrivateKey::to_pkcs8_pem` with LF line endings, and copies
/// the text out of its `Zeroizing` wrapper. The text, named
/// [`private_key_pkcs8_pem`], is the PEM encoding, under the label
/// `PRIVATE KEY`, of the key's DER form.
#[verifier::external_body]
pub(crate) fn rsa_private_key_to_pkcs8_pem(private_key: &rsa::RsaPrivateKey) -> (r: Result<String, rsa::pkcs8::Error>)
    ensures
        r is Ok <==> pkcs8_encodable(*private_key),
        r matches Ok(pem) ==> pem@ == private_key_pkcs8_pem(*private_key)
            && spec_pem_framed(pem@, spec_pkcs8_label()),
{
    match private_key.to_pkcs8_pem(rsa::pkcs8::LineEnding::LF) {
        Ok(pem) => Ok(String::from(pem.as_str())),
        Err(e) => Err(e),
    }
}

/// Calls `EncodePublicKey::to_public_key_pem` with LF line endings. The text,
/// named [`public_key_spki_pem`], is the PEM encoding, under the label
/// `PUBLIC KEY` (SubjectPublicKeyInfo), of the key's DER form.
#[verifier::external_body]
fn rsa_public_key_to_spki_pem(public_key: &rsa::RsaPublicKey) -> (r: Result<String, rsa::pkcs8::spki::Error>)
    ensures
        r is Ok <==> spki_encodable(*public_key),
        r matches Ok(pem) ==> pem@ == public_key_spki_pem(*public_key)
            && spec_pem_framed(pem@, spec_spki_label()),
{
    public_key.to_public_key_pem(rsa::pkcs8::LineEnding::LF)
}

/// Calls `DecodePrivateKey::from_pkcs8_pem`. Whether it succeeds, and the
/// key it reads, depend on the text alone, and are named
/// [`pkcs8_private_key_pem_accepted`] and [`pkcs8_pem_private_key`].
#[verifier::external_body]
fn rsa_private_key_from_pkcs8_pem(pem: &str) -> (r: Result<rsa::RsaPrivateKey, rsa::pkcs8::Error>)
    ensures
        r is Ok <==> pkcs8_private_key_pem_accepted(pem@),
        r matches Ok(key) ==> key == pkcs8_pem_private_key(pem@),
{
    rsa::RsaPrivateKey::from_pkcs8_pem(pem)
}

/// Calls `DecodePublicKey::from_public_key_pem` (SubjectPublicKeyInfo,
/// "BEGIN PUBLIC KEY"). Whether it succeeds, and the key it reads, depend on
/// the text alone, and are named [`spki_public_key_pem_accepted`] and
/// [`spki_pem_public_key`].
#[verifier::external_body]
fn rsa_public_key_from_spki_pem(pem: &str) -> (r: Result<rsa::RsaPublicKey, rsa::pkcs8::spki::Error>)
    ensures
        r is Ok <==> spki_public_key_pem_accepted(pem@),
        r matches Ok(key) ==> key == spki_pem_public_key(pem@),
{
    rsa::RsaPublicKey::from_public_key_pem(pem)
}

/// The private key a server signs with.
pub struct UbiquitimesPrivateKey {
    pub private_key: rsa::RsaPrivateKey,
}

impl UbiquitimesPrivateKey {
    pub fn new(private_key: rsa::RsaPrivateKey) -> (r: Self)
        ensures
            r.private_key == private_key,
    {
        Self { private_key }
    }

    /// Reads a PEM-encoded PKCS#8 private key: the key the text holds; fails
    /// exactly when the text is not one.
    pub fn from_pem(pem: &str) -> (r: Result<Self, SignError>)
        ensures
            r is Ok <==> pkcs8_private_key_pem_accepted(pem@),
            r matches Ok(k) ==> k.private_key == pkcs8_pem_private_key(pem@),
            r matches Err(e) ==> e is RsaError,
    {
        match rsa_private_key_from_pkcs8_pem(pem) {
            Ok(private_key) => Ok(Self { private_key }),
            Err(e) => Err(SignError::RsaError(e)),
        }
    }
}

/// The public key that checks a server's requests.
pub struct UbiquitimesPublicKey {
    pub public_key: rsa::RsaPublicKey,
}

impl UbiquitimesPublicKey {
    pub fn new(public_key: rsa::RsaPublicKey) -> (r: Self)
        ensures
            r.public_key == public_key,
    {
        Self { public_key }
    }

    /// Reads a PEM-encoded public key, as SubjectPublicKeyInfo
    /// (`PUBLIC KEY`), the form [`keypair_to_pem`] publishes: the key the
    /// text holds; fails exactly when the text is not one.
    pub fn from_pem(pem: &str) -> (r: Result<Self, SignError>)
        ensures
            r is Ok <==> spki_public_key_pem_accepted(pem@),
            r matches Ok(k) ==> k.public_key == spki_pem_public_key(pem@),
            r matches Err(e) ==> e is PublicKeyPemError,
    {
        match rsa_public_key_from_spki_pem(pem) {
            Ok(public_key) => Ok(Self { public_key }),
            Err(e) => Err(SignError::PublicKeyPemError(e)),
        }
    }
}

/// A key pair written as PEM: the private key as PKCS#8, the public key as
/// SubjectPublicKeyInfo.
pub struct KeyPairPem {
    pub private_key_pem: String,
    pub public_key_pem: String,
}

/// A freshly generated key pair.
pub struct UbiquitimesKeys {
    pub private_key: UbiquitimesPrivateKey,
    pub public_key: UbiquitimesPublicKey,
}

/// Generates an RSA key pair of [`RSA_KEY_BITS`] bits: the private key and
/// its public part.
pub fn generate_keypair() -> (r: Result<(rsa::RsaPrivateKey, rsa::RsaPublicKey), SignError>)
    ensures
        r is Ok,
        r matches Ok(p) ==> p.1 == public_part_of(p.0) && spec_generated_key_round_trips(p.0),
{
    match rsa_generate_private_key(RSA_KEY_BITS) {
        Ok(private_key) => {
            let public_key = rsa_public_part(&private_key);
            Ok((private_key, public_key))
        },
        Err(e) => Err(SignError::KeyGenerationError(e)),
    }
}

/// Writes a key pair as PEM: the private key as PKCS#8 (`PRIVATE KEY`), the
/// public key as SubjectPublicKeyInfo (`PUBLIC KEY`).
pub fn keypair_to_pem(private_key: &rsa::RsaPrivateKey, public_key: &rsa::RsaPublicKey) -> (r: Result<KeyPairPem, SignError>)
    ensures
        r is Ok <==> pkcs8_encodable(*private_key) && spki_encodable(*public_key),
        r matches Ok(p) ==> p.private_key_pem@ == private_key_pkcs8_pem(*private_key)
            && p.public_key_pem@ == public_key_spki_pem(*public_key)
            && spec_pem_framed(p.private_key_pem@, spec_pkcs8_label())
            && spec_pem_framed(p.public_key_pem@, spec_spki_label()),
        r matches Err(e) ==> (e is RsaError || e is PublicKeyPemError),
{
    let private_key_pem = match rsa_private_key_to_pkcs8_pem(private_key) {
        Ok(p) => p,
        Err(e) => return Err(SignError::RsaError(e)),
    };
    let public_key_pem = match rsa_public_key_to_spki_pem(public_key) {
        Ok(p) => p,
        Err(e) => return Err(SignError::PublicKeyPemError(e)),
    };
    Ok(KeyPairPem { private_key_pem, public_key_pem })
}

impl UbiquitimesKeys {
    /// Generates a key pair of [`RSA_KEY_BITS`] bits.
    pub fn generate_keys() -> (r: Result<UbiquitimesKeys, SignError>)
        ensures
            r matches Ok(k) ==> k.public_key.public_key == public_part_of(k.private_key.private_key)
                && spec_generated_key_round_trips(k.private_key.private_key),
            r is Ok,
    {
        let (private_key, public_key) = generate_keypair()?;
        Ok(UbiquitimesKeys {
            private_key: UbiquitimesPrivateKey { private_key },
            public_key: UbiquitimesPublicKey { public_key },
        })
    }

    /// Writes the key pair as PEM: the private key as PKCS#8
    /// (`PRIVATE KEY`), the public key as SubjectPublicKeyInfo (`PUBLIC KEY`).
    pub fn to_pem(&self) -> (r: Result<KeyPairPem, SignError>)
        ensures
            r is Ok <==> pkcs8_encodable(self.private_key.private_key) && spki_encodable(self.public_key.public_key),
            r matches Ok(p) ==> p.private_key_pem@ == private_key_pkcs8_pem(self.private_key.private_key)
                && p.public_key_pem@ == public_key_spki_pem(self.public_key.public_key)
                && spec_pem_framed(p.private_key_pem@, spec_pkcs8_label())
                && spec_pem_framed(p.public_key_pem@, spec_spki_label()),
            r matches Err(e) ==> (e is RsaError || e is PublicKeyPemError),
    {
        keypair_to_pem(&self.private_key.private_key, &self.public_key.public_key)
    }
}

/// What a server generates its key pairs with.
#[derive(Clone, Copy, Debug)]
pub struct RsaKeyGenerator;

impl RsaKeyGenerator {
    pub fn new() -> (r: Self) {
        Self
    }

    /// Generates a key pair of [`RSA_KEY_BITS`] bits.
    pub fn generate_keys(&self) -> (r: Result<UbiquitimesKeys, SignError>)
        ensures
            r matches Ok(k) ==> k.public_key.public_key == public_part_of(k.private_key.private_key)
                && spec_generated_key_round_trips(k.private_key.private_key),
            r is Ok,
    {
        UbiquitimesKeys::generate_keys()
    }
}

/// Whether `p` is the PEM of the private key `key` and of its public part.
pub open spec fn spec_is_pem_of_key(p: KeyPairPem, key: rsa::RsaPrivateKey) -> bool {
    &&& p.private_key_pem@ == private_key_pkcs8_pem(key)
    &&& p.public_key_pem@ == public_key_spki_pem(public_part_of(key))
}

/// Whether `p` is the PEM of a generated private key and of its public part,
/// as PKCS#8 (`PRIVATE KEY`) and SubjectPublicKeyInfo (`PUBLIC KEY`).
pub open spec fn spec_is_pem_of_new_pair(p: KeyPairPem) -> bool {
    &&& exists|key: rsa::RsaPrivateKey| #[trigger] spec_is_pem_of_key(p, key) && spec_generated_key_round_trips(key)
    &&& spec_pem_framed(p.private_key_pem@, spec_pkcs8_label())
    &&& spec_pem_framed(p.public_key_pem@, spec_spki_label())
}

/// A new key pair round-trips: the public key read back from its published
/// PEM is the public part of the private key read back from its stored PEM,
/// so what the stored key signs, the published key checks.
pub proof fn law_published_key_matches_stored_key(p: KeyPairPem)
    requires
        spec_is_pem_of_new_pair(p),
    ensures
        pkcs8_private_key_pem_accepted(p.private_key_pem@),
        spki_public_key_pem_accepted(p.public_key_pem@),
        spki_pem_public_key(p.public_key_pem@) == public_part_of(pkcs8_pem_private_key(p.private_key_pem@)),
{
    let key = choose|key: rsa::RsaPrivateKey| #[trigger] spec_is_pem_of_key(p, key) && spec_generated_key_round_trips(key);
}

/// Why no key pair could be had for setting the server up.
#[derive(Debug)]
pub enum KeysPemError {
    /// Generating or writing a new key pair failed.
    Sign(SignError),
    /// Reusing the stored key pair was asked for, but no server record is stored.
    NotStored,
}

/// The key pair a server is set up with: a newly generated one when
/// `is_new_key`, otherwise the one stored in the server's record.
pub fn get_keys_pem(is_new_key: bool, stored: Option<&OwnServer>) -> (r: Result<KeyPairPem, KeysPemError>)
    ensures
        is_new_key ==> r is Ok,
        is_new_key ==> (r matches Ok(p) ==> spec_is_pem_of_new_pair(p)),
        !is_new_key ==> match stored {
            None => r matches Err(e) && e is NotStored,
            Some(s) => r matches Ok(p) && p.private_key_pem == s.private_key_pem && p.public_key_pem == s.public_key_pem,
        },
{
    if is_new_key {
        match generate_keypair() {
            Err(e) => Err(KeysPemError::Sign(e)),
            Ok((private_key, public_key)) => match keypair_to_pem(&private_key, &public_key) {
                Ok(p) => {
                    assert(spec_is_pem_of_key(p, private_key) && spec_generated_key_round_trips(private_key));
                    Ok(p)
                },
                Err(e) => {
                    // A generated pair always encodes.
                    assert(false);
                    Err(KeysPemError::Sign(e))
                },
            },
        }
    } else {
        match stored {
            None => Err(KeysPemError::NotStored),
            Some(s) => Ok(KeyPairPem {
                private_key_pem: s.private_key_pem.clone(),
                public_key_pem: s.public_key_pem.clone(),
            }),
        }
    }
}

} // verus!
