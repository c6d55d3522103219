//! Requests travel as JSON web tokens signed with RS256. The cryptography
//! and the Base64 encoding are the `jsonwebtoken` and `base64` crates'; the
//! items marked trusted below are the calls into them. What is verified here
//! is how a token is put together and taken apart: `header.payload.signature`,
//! where the signature covers `header.payload`.

use vstd::prelude::*;
use base64::Engine;
use rsa::traits::PublicKeyParts;
use vstd::utf8::encode_utf8;
use crate::keys::{
    private_key_pkcs8_pem, pkcs8_encodable, rsa_private_key_to_pkcs8_pem, UbiquitimesPrivateKey,
    UbiquitimesPublicKey,
};
use crate::sign::SignError;

verus! {

/// The error of the `jsonwebtoken` crate.
#[verifier::external_type_specification]
#[verifier::external_body]
pub struct ExJwtError(jsonwebtoken::errors::Error);

/// The URL-safe Base64 text, without padding, that
/// `base64::engine::general_purpose::URL_SAFE_NO_PAD.encode` gives for bytes.
pub uninterp spec fn base64url(bytes: Seq<u8>) -> Seq<char>;

/// The RS256 signature (URL-safe Base64) that `jsonwebtoken::crypto::sign`
/// computes of a message with the RSA private key given as PEM, where it
/// succeeds.
pub uninterp spec fn rs256_signature(message: Seq<char>, private_key_pem: Seq<char>) -> Seq<char>;

/// Whether `jsonwebtoken::crypto::verify` finds `signature` to be a valid
/// RS256 signature of `message` under the public key.
pub uninterp spec fn rs256_signature_valid(signature: Seq<char>, message: Seq<char>, key: rsa::RsaPublicKey) -> bool;

/// Whether `jsonwebtoken::decode_header` reads a header that names RS256 from
/// a token.
pub uninterp spec fn jwt_header_says_rs256(token: Seq<char>) -> bool;

/// The header of every token this library signs, as `jsonwebtoken` writes
/// `Header::new(Algorithm::RS256)` in JSON.
pub const JWT_RS256_HEADER_JSON: &'static str = "{\"typ\":\"JWT\",\"alg\":\"RS256\"}";

/// Calls `URL_SAFE_NO_PAD.encode` of the `base64` crate, the encoding
/// `jsonwebtoken` uses for every part of a token. Its alphabet is `A`-`Z`,
/// `a`-`z`, `0`-`9`, `-` and `_`, so the text holds no `.`.
#[verifier::external_body]
fn base64url_encode(bytes: &[u8]) -> (r: String)
    ensures
        r@ == base64url(bytes@),
        !r@.contains('.'),
{
    base64::engine::general_purpose::URL_SAFE_NO_PAD.encode(bytes)
}

/// Calls `jsonwebtoken::crypto::sign` with RS256, the key read by
/// `EncodingKey::from_rsa_pem`. An RSASSA-PKCS1-v1_5 signature depends on
/// the message and the key alone (the random generator `ring` is handed only
/// blinds the computation); it is named [`rs256_signature`], and is written
/// in URL-safe Base64, so it holds no `.`. Whether the call succeeds is not
/// claimed: it also fails when the system's random source does.
#[verifier::external_body]
fn jwt_rs256_sign(message: &str, private_key_pem: &str) -> (r: Result<String, jsonwebtoken::errors::Error>)
    ensures
        r matches Ok(signature) ==> signature@ == rs256_signature(message@, private_key_pem@)
            && !signature@.contains('.'),
{
    let key = jsonwebtoken::EncodingKey::from_rsa_pem(private_key_pem.as_bytes())?;
    jsonwebtoken::crypto::sign(message.as_bytes(), &key, jsonwebtoken::Algorithm::RS256)
}

/// Calls `jsonwebtoken::crypto::verify` with RS256 and the key's modulus and
/// exponent (`DecodingKey::from_rsa_raw_components`). A signature that is not
/// Base64 is an error there, and no valid signature here.
#[verifier::external_body]
fn jwt_rs256_verify(signature: &str, message: &str, key: &rsa::RsaPublicKey) -> (r: bool)
    ensures
        r == rs256_signature_valid(signature@, message@, *key),
{
    let n = key.n().to_bytes_be();
    let e = key.e().to_bytes_be();
    let decoding_key = jsonwebtoken::DecodingKey::from_rsa_raw_components(&n, &e);
    match jsonwebtoken::crypto::verify(signature, message.as_bytes(), &decoding_key, jsonwebtoken::Algorithm::RS256) {
        Ok(valid) => valid,
        Err(_) => false,
    }
}

/// Calls `jsonwebtoken::decode_header` and tells whether the header it reads
/// names RS256; a header that cannot be read names nothing.
#[verifier::external_body]
fn jwt_header_is_rs256(token: &str) -> (r: bool)
    ensures
        r == jwt_header_says_rs256(token@),
{
    match jsonwebtoken::decode_header(token) {
        Ok(header) => header.alg == jsonwebtoken::Algorithm::RS256,
        Err(_) => false,
    }
}

/// The position of the last `.` in a text, or -1 when it has none.
pub open spec fn spec_last_dot(s: Seq<char>) -> int
    decreases s.len(),
{
    if s.len() == 0 {
        -1
    } else if s.last() == '.' {
        s.len() - 1
    } else {
        spec_last_dot(s.drop_last())
    }
}

/// A text split at its last `.`: what comes before and what comes after.
pub open spec fn spec_split_last_dot(s: Seq<char>) -> Option<(Seq<char>, Seq<char>)> {
    let i = spec_last_dot(s);
    if i < 0 {
        None
    } else {
        Some((s.take(i), s.skip(i + 1)))
    }
}

/// A text splits at its last `.` exactly when it holds a `.`; then it is
/// what comes before, the `.`, and what comes after, which holds no `.`.
pub proof fn law_split_last_dot(s: Seq<char>)
    ensures
        -1 <= spec_last_dot(s) < s.len(),
        spec_split_last_dot(s) is None <==> !s.contains('.'),
        spec_split_last_dot(s) matches Some((before, after)) ==> s == before + seq!['.'] + after
            && !after.contains('.'),
    decreases s.len(),
{
    if s.len() > 0 {
        law_split_last_dot(s.drop_last());
        let i = spec_last_dot(s);
        if s.last() == '.' {
            assert(s =~= s.take(i) + seq!['.'] + s.skip(i + 1));
            assert(s.contains('.')) by {
                assert(s[s.len() - 1] == '.');
            }
        } else {
            if s.drop_last().contains('.') {
                let j = spec_last_dot(s.drop_last());
                let before = s.drop_last().take(j);
                let after = s.drop_last().skip(j + 1);
                assert(s.take(j) =~= before);
                assert(s.skip(j + 1) =~= after.push(s.last()));
                assert(s =~= s.drop_last().push(s.last()));
                assert(s.drop_last() == before + seq!['.'] + after);
                assert((before + seq!['.'] + after).push(s.last()) =~= before + seq!['.'] + after.push(s.last()));
                assert(!after.push(s.last()).contains('.')) by {
                    if after.push(s.last()).contains('.') {
                        let k = choose|k: int| 0 <= k < after.push(s.last()).len() && after.push(s.last())[k] == '.';
                        if k < after.len() {
                            assert(after.contains(after[k]));
                        }
                    }
                }
            } else {
                assert(!s.contains('.')) by {
                    if s.contains('.') {
                        let k = choose|k: int| 0 <= k < s.len() && s[k] == '.';
                        assert(s.drop_last()[k] == '.');
                    }
                }
            }
        }
    }
}

/// Splits a text at its last `.`.
pub fn split_last_dot(s: &str) -> (r: Option<(String, String)>)
    ensures
        match spec_split_last_dot(s@) {
            None => r is None,
            Some((before, after)) => r matches Some((b, a)) && b@ == before && a@ == after,
        },
{
    let n = s.unicode_len();
    let mut i: usize = n;
    assert(s@.take(n as int) =~= s@);
    while i > 0
        invariant
            i <= n,
            n == s@.len(),
            spec_last_dot(s@.take(i as int)) == spec_last_dot(s@),
        decreases i,
    {
        assert(s@.take(i as int).last() == s@[i - 1]);
        assert(s@.take(i as int).drop_last() =~= s@.take(i - 1));
        if s.get_char(i - 1) == '.' {
            let before = s.substring_char(0, i - 1).to_owned();
            let after = s.substring_char(i, n).to_owned();
            assert(before@ =~= s@.take(i - 1));
            assert(after@ =~= s@.skip(i as int));
            return Some((before, after));
        }
        i = i - 1;
    }
    None
}

/// A token's parts, as `jsonwebtoken` takes them apart: the signature after
/// the last `.`, and before it the signed message, whose payload follows its
/// own last `.`. The answer is the message, the payload and the signature.
pub open spec fn spec_token_parts(token: Seq<char>) -> Option<(Seq<char>, Seq<char>, Seq<char>)> {
    match spec_split_last_dot(token) {
        None => None,
        Some((message, signature)) => match spec_split_last_dot(message) {
            None => None,
            Some((_header, payload)) => Some((message, payload, signature)),
        },
    }
}

/// Why a token is refused.
#[derive(Debug, Clone, PartialEq, Eq)]
pub enum VerifyError {
    /// The token is not made of a header, a payload and a signature.
    InvalidToken,
    /// Its header cannot be read, or does not name RS256.
    InvalidAlgorithm,
    /// Its signature does not check under the key.
    InvalidSignature,
}

/// What checking a token against a public key answers: its payload, or why
/// it is refused.
pub open spec fn spec_verify_token(token: Seq<char>, key: rsa::RsaPublicKey) -> Result<Seq<char>, VerifyError> {
    match spec_token_parts(token) {
        None => Err(VerifyError::InvalidToken),
        Some((message, payload, signature)) => if !jwt_header_says_rs256(token) {
            Err(VerifyError::InvalidAlgorithm)
        } else if !rs256_signature_valid(signature, message, key) {
            Err(VerifyError::InvalidSignature)
        } else {
            Ok(payload)
        },
    }
}

/// The message a token signs for claims given as JSON: the Base64 of the
/// RS256 header and the Base64 of the claims, joined by `.`.
pub open spec fn spec_jwt_message(claims_json: Seq<char>) -> Seq<char> {
    base64url(encode_utf8(JWT_RS256_HEADER_JSON@)) + seq!['.'] + base64url(encode_utf8(claims_json))
}

/// The token a private key signs for claims given as JSON: the message, a
/// `.`, and the RS256 signature of the message with the key's PKCS#8 PEM.
pub open spec fn spec_signed_token(key: rsa::RsaPrivateKey, claims_json: Seq<char>) -> Seq<char> {
    spec_jwt_message(claims_json) + seq!['.'] + rs256_signature(spec_jwt_message(claims_json), private_key_pkcs8_pem(key))
}

/// The last `.` of `a`, a `.` and a text `b` with no `.` is the one between.
proof fn lemma_last_dot_of_join(a: Seq<char>, b: Seq<char>)
    requires
        !b.contains('.'),
    ensures
        spec_last_dot(a + seq!['.'] + b) == a.len(),
    decreases b.len(),
{
    let s = a + seq!['.'] + b;
    if b.len() == 0 {
        assert(s.last() == '.');
    } else {
        assert(s.last() == b.last());
        assert(b.last() != '.') by {
            if b.last() == '.' {
                assert(b.contains(b[b.len() - 1]));
            }
        }
        assert(!b.drop_last().contains('.')) by {
            if b.drop_last().contains('.') {
                let j = choose|j: int| 0 <= j < b.drop_last().len() && b.drop_last()[j] == '.';
                assert(b[j] == '.');
            }
        }
        assert(s.drop_last() =~= a + seq!['.'] + b.drop_last());
        lemma_last_dot_of_join(a, b.drop_last());
    }
}

/// A token signed by this library is taken apart into exactly what was
/// signed: the message `header.payload`, the payload (the claims in Base64),
/// and the signature. So a checker answers the signed claims whenever the
/// header names RS256 and the signature checks.
pub proof fn law_signed_token_parts(key: rsa::RsaPrivateKey, claims_json: Seq<char>)
    requires
        !base64url(encode_utf8(JWT_RS256_HEADER_JSON@)).contains('.'),
        !base64url(encode_utf8(claims_json)).contains('.'),
        !rs256_signature(spec_jwt_message(claims_json), private_key_pkcs8_pem(key)).contains('.'),
    ensures
        spec_token_parts(spec_signed_token(key, claims_json)) == Some((
            spec_jwt_message(claims_json),
            base64url(encode_utf8(claims_json)),
            rs256_signature(spec_jwt_message(claims_json), private_key_pkcs8_pem(key)),
        )),
{
    let message = spec_jwt_message(claims_json);
    let header = base64url(encode_utf8(JWT_RS256_HEADER_JSON@));
    let payload = base64url(encode_utf8(claims_json));
    let signature = rs256_signature(message, private_key_pkcs8_pem(key));
    lemma_last_dot_of_join(message, signature);
    assert((message + seq!['.'] + signature).take(message.len() as int) =~= message);
    assert((message + seq!['.'] + signature).skip(message.len() as int + 1) =~= signature);
    lemma_last_dot_of_join(header, payload);
    assert((header + seq!['.'] + payload).take(header.len() as int) =~= header);
    assert((header + seq!['.'] + payload).skip(header.len() as int + 1) =~= payload);
}

impl UbiquitimesPublicKey {
    /// Checks a token signed with RS256 against this key: answers its payload
    /// (the claims in Base64) when the token has three parts, its header
    /// names RS256 and its signature of `header.payload` checks; otherwise
    /// why it is refused.
    pub fn verify_token(&self, token: &str) -> (r: Result<String, VerifyError>)
        ensures
            match spec_verify_token(token@, self.public_key) {
                Ok(payload) => r matches Ok(p) && p@ == payload,
                Err(e) => r == Err::<String, VerifyError>(e),
            },
    {
        let (message, signature) = match split_last_dot(token) {
            None => return Err(VerifyError::InvalidToken),
            Some(parts) => parts,
        };
        let (_header, payload) = match split_last_dot(message.as_str()) {
            None => return Err(VerifyError::InvalidToken),
            Some(parts) => parts,
        };
        if !jwt_header_is_rs256(token) {
            return Err(VerifyError::InvalidAlgorithm);
        }
        if !jwt_rs256_verify(signature.as_str(), message.as_str(), &self.public_key) {
            return Err(VerifyError::InvalidSignature);
        }
        Ok(payload)
    }
}

impl UbiquitimesPrivateKey {
    /// Signs claims given as JSON into a token, as `jsonwebtoken::encode`
    /// writes one with an RS256 header: `header.payload.signature`.
    pub fn sign_claims(&self, claims_json: &str) -> (r: Result<String, SignError>)
        ensures
            r matches Ok(token) ==> token@ == spec_signed_token(self.private_key, claims_json@)
                && spec_token_parts(token@) == Some((
                    spec_jwt_message(claims_json@),
                    base64url(encode_utf8(claims_json@)),
                    rs256_signature(spec_jwt_message(claims_json@), private_key_pkcs8_pem(self.private_key)),
                )),
            !pkcs8_encodable(self.private_key) ==> (r matches Err(e) && e is RsaError),
            r matches Err(e) ==> (e is RsaError || e is JsonWebTokenError),
    {
        let pem = match rsa_private_key_to_pkcs8_pem(&self.private_key) {
            Ok(p) => p,
            Err(e) => return Err(SignError::RsaError(e)),
        };
        let header = base64url_encode(JWT_RS256_HEADER_JSON.as_bytes());
        let mut message = header.clone();
        message.append(".");
        let payload = base64url_encode(claims_json.as_bytes());
        message.append(payload.as_str());
        proof {
            reveal_strlit(".");
            assert(message@ =~= spec_jwt_message(claims_json@));
        }
        let signature = match jwt_rs256_sign(message.as_str(), pem.as_str()) {
            Ok(s) => s,
            Err(e) => return Err(SignError::JsonWebTokenError(e)),
        };
        let mut token = message;
        token.append(".");
        token.append(signature.as_str());
        proof {
            assert(token@ =~= spec_signed_token(self.private_key, claims_json@));
            law_signed_token_parts(self.private_key, claims_json@);
        }
        Ok(token)
    }
}

} // verus!
