use ubiquitimes::jwt::{split_last_dot, VerifyError};
use ubiquitimes::keys::RsaKeyGenerator;

#[test]
fn split_at_last_dot() {
    assert_eq!(split_last_dot("a.b.c"), Some(("a.b".to_string(), "c".to_string())));
    assert_eq!(split_last_dot(".x"), Some(("".to_string(), "x".to_string())));
    assert_eq!(split_last_dot("nodot"), None);
}

#[test]
fn signed_token_checks_under_matching_key() {
    let keys = RsaKeyGenerator::new().generate_keys().unwrap();
    let claims = "{\"iss\":\"alpha\",\"sub\":1}";
    let token = keys.private_key.sign_claims(claims).unwrap();
    let parts: Vec<&str> = token.split('.').collect();
    assert_eq!(parts.len(), 3);
    assert_eq!(parts[0], "eyJ0eXAiOiJKV1QiLCJhbGciOiJSUzI1NiJ9");
    assert_eq!(parts[1], "eyJpc3MiOiJhbHBoYSIsInN1YiI6MX0");
    assert_eq!(keys.public_key.verify_token(&token), Ok(parts[1].to_string()));

    let tampered = format!("{}.{}.{}", parts[0], "eyJpc3MiOiJiZXRhIiwic3ViIjoxfQ", parts[2]);
    assert_eq!(keys.public_key.verify_token(&tampered), Err(VerifyError::InvalidSignature));
    assert_eq!(keys.public_key.verify_token("abc"), Err(VerifyError::InvalidToken));
    assert_eq!(keys.public_key.verify_token("a.b"), Err(VerifyError::InvalidToken));
    let hs256 = format!("{}.{}.{}", "eyJ0eXAiOiJKV1QiLCJhbGciOiJIUzI1NiJ9", parts[1], parts[2]);
    assert_eq!(keys.public_key.verify_token(&hs256), Err(VerifyError::InvalidAlgorithm));

    // The token is one that jsonwebtoken itself accepts.
    let pem = keys.to_pem().unwrap();
    let key = jsonwebtoken::DecodingKey::from_rsa_pem(pem.public_key_pem.as_bytes()).unwrap();
    let mut validation = jsonwebtoken::Validation::new(jsonwebtoken::Algorithm::RS256);
    validation.required_spec_claims.clear();
    validation.validate_exp = false;
    let decoded = jsonwebtoken::decode::<serde_json::Value>(&token, &key, &validation).unwrap();
    assert_eq!(decoded.claims["iss"], "alpha");
}
