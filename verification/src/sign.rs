//! The claims a server signs when it sends a request to another server.

use vstd::prelude::*;
use crate::bot_message::TimesSettingRequest;
use crate::other_server::OtherServer;
use crate::own_server::OwnServer;

verus! {

/// What signing, key handling and key generation refuse.
#[derive(Debug)]
pub enum SignError {
    /// A PKCS#8 private key could not be read or written.
    RsaError(rsa::pkcs8::Error),
    /// A PKCS#1 public key could not be read.
    RsaPkcs1Error(rsa::pkcs1::Error),
    /// A public key could not be written or read as PEM.
    PublicKeyPemError(rsa::pkcs8::spki::Error),
    /// A key pair could not be generated.
    KeyGenerationError(rsa::Error),
    /// A JSON web token could not be signed.
    JsonWebTokenError(jsonwebtoken::errors::Error),
}

/// The expiry written into every request's claims.
pub const CLAIMS_EXP: u64 = 10000000000;

/// The signed part of a request: who sends it (`iss`, the sending server's
/// name; `sub`, its guild id), who it is for (`aud`, the receiving server's
/// name), when it expires, and the request itself.
#[derive(Debug, Clone, PartialEq, Eq)]
pub struct Claims {
    pub iss: String,
    pub sub: u64,
    pub aud: String,
    pub exp: u64,
    pub times_setting_req: TimesSettingRequest,
}

impl Claims {
    pub fn new(iss: &str, sub: u64, aud: &str, times_setting_req: TimesSettingRequest) -> (r: Claims)
        ensures
            r.iss@ == iss@,
            r.sub == sub,
            r.aud@ == aud@,
            r.exp == CLAIMS_EXP,
            r.times_setting_req == times_setting_req,
    {
        Self { iss: iss.to_owned(), sub, aud: aud.to_owned(), exp: CLAIMS_EXP, times_setting_req }
    }

    /// The claims for a request from `own_server` to `other_server`.
    pub fn from_servers_for_req(
        own_server: &OwnServer,
        other_server: &OtherServer,
        times_setting_req: TimesSettingRequest,
    ) -> (r: Self)
        ensures
            r.iss == own_server.server_name,
            r.sub == own_server.guild_id,
            r.aud == other_server.server_name,
            r.exp == CLAIMS_EXP,
            r.times_setting_req == times_setting_req,
    {
        Self {
            iss: own_server.server_name.clone(),
            sub: own_server.guild_id,
            aud: other_server.server_name.clone(),
            exp: CLAIMS_EXP,
            times_setting_req,
        }
    }
}

} // verus!
