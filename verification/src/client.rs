//! The verifier: configuration, then parse, claims validation, key
//! resolution and signature check, as one orchestration.

use vstd::prelude::*;

verus! {

use crate::error::Error;
use crate::error::InvalidError;
use crate::jwk::JsonWebKeyView;
use crate::jwk::spec_key_accepts;
use crate::key_provider::KeyProvider;
use crate::token::IdPayload;
use crate::token::JsonPayload;
use crate::token::Token;
use crate::unverified_token::UnverifiedToken;
use crate::unverified_token::aud_ok;
use crate::unverified_token::claims_present;
use crate::unverified_token::dot1;
use crate::unverified_token::dot2;
use crate::unverified_token::header_decodes;
use crate::unverified_token::header_ok;
use crate::unverified_token::iss_ok;
use crate::unverified_token::payload_bytes;
use crate::unverified_token::payload_decodes;
use crate::unverified_token::segments_ok;
use crate::unverified_token::signature_decodes;
use crate::unverified_token::signed_content;
use crate::unverified_token::spec_audience;
use crate::unverified_token::spec_expires_at;
use crate::unverified_token::spec_issued_at;
use crate::unverified_token::spec_issuer;
use crate::unverified_token::spec_signature;
use crate::unverified_token::spec_subject;
use vstd::string::StringSliceAdditionalSpecFns;

/// What one client verification promises of its result, whatever the
/// clock read and whatever the key provider answered: every structural
/// and claims rejection is the stated error, and a returned token
/// carries exactly the claims and payload of the input bytes, with some
/// key having accepted the signature over the exact transmitted content.
pub open spec fn client_verify_post<P: JsonPayload>(
    t: Seq<u8>,
    client_id: Seq<char>,
    check_expiration: bool,
    r: Result<Token<P>, Error>,
) -> bool {
    &&& (dot1(t) is None ==> (r matches Err(Error::InvalidToken(InvalidError::TokenFormat(s)))
        && s@ == "payload"@))
    &&& (dot1(t) is Some && dot2(t) is None ==> (r matches Err(
        Error::InvalidToken(InvalidError::TokenFormat(s)),
    ) && s@ == "signature"@))
    &&& (segments_ok(t) && !header_decodes(t) ==> r matches Err(
        Error::InvalidToken(InvalidError::Base64(_)),
    ))
    &&& (header_decodes(t) && !header_ok(t) ==> r matches Err(
        Error::InvalidToken(InvalidError::Json(_)),
    ))
    &&& (header_ok(t) && !signature_decodes(t) ==> r matches Err(
        Error::InvalidToken(InvalidError::Base64(_)),
    ))
    &&& (signature_decodes(t) && !payload_decodes(t) ==> r matches Err(
        Error::InvalidToken(InvalidError::Base64(_)),
    ))
    &&& (payload_decodes(t) && !claims_present(t) ==> r matches Err(
        Error::InvalidToken(InvalidError::Json(_)),
    ))
    &&& (claims_present(t) && !aud_ok(t, client_id) ==> (r matches Err(
        Error::InvalidToken(InvalidError::InvalidClaims(s)),
    ) && s@ == "aud"@))
    &&& (aud_ok(t, client_id) && !iss_ok(t, client_id) ==> (r matches Err(
        Error::InvalidToken(InvalidError::InvalidClaims(s)),
    ) && s@ == "iss"@))
    &&& (iss_ok(t, client_id) && !check_expiration && spec_issued_at(t) > spec_expires_at(t) ==> (
    r matches Err(Error::InvalidToken(InvalidError::InvalidClaims(s))) && s@ == "iat > exp"@))
    &&& (r matches Err(Error::Expired) ==> check_expiration && iss_ok(t, client_id))
    &&& (r matches Ok(tok) ==> {
        &&& iss_ok(t, client_id)
        &&& spec_issued_at(t) <= spec_expires_at(t)
        &&& tok.claims.issuer@ == spec_issuer(t)
        &&& tok.claims.subject@ == spec_subject(t)
        &&& tok.claims.audience@ == spec_audience(t)
        &&& tok.claims.expires_at == spec_expires_at(t)
        &&& tok.claims.issued_at == spec_issued_at(t)
        &&& P::spec_parsed(payload_bytes(t), &tok.payload)
        &&& (exists|k: JsonWebKeyView|
            #[trigger] spec_key_accepts(k, signed_content(t), spec_signature(t)))
    })
}

/// Assembles a client: the expected audience, the key provider, and
/// whether expiry is enforced (it is, unless explicitly disabled).
pub struct GenericClientBuilder<KP> {
    pub client_id: String,
    pub key_provider: KP,
    pub check_expiration: bool,
}

impl<KP> GenericClientBuilder<KP> {
    pub fn new(client_id: &str, key_provider: KP) -> (r: Self)
        ensures
            r.client_id@ == client_id@,
            r.key_provider == key_provider,
            r.check_expiration == true,
    {
        GenericClientBuilder { client_id: client_id.to_owned(), key_provider, check_expiration: true }
    }

    /// Substitute another key provider, keeping the rest of the
    /// configuration.
    pub fn custom_key_provider<T>(self, provider: T) -> (r: GenericClientBuilder<T>)
        ensures
            r.client_id == self.client_id,
            r.key_provider == provider,
            r.check_expiration == self.check_expiration,
    {
        GenericClientBuilder {
            client_id: self.client_id,
            key_provider: provider,
            check_expiration: self.check_expiration,
        }
    }

    /// Disable expiration enforcement. Expired tokens then pass the
    /// claims checks; hence the name.
    pub fn unsafe_ignore_expiration(self) -> (r: Self)
        ensures
            r.client_id == self.client_id,
            r.key_provider == self.key_provider,
            r.check_expiration == false,
    {
        GenericClientBuilder {
            client_id: self.client_id,
            key_provider: self.key_provider,
            check_expiration: false,
        }
    }

    pub fn build(self) -> (r: GenericClient<KP>)
        ensures
            r.client_id == self.client_id,
            r.key_provider == self.key_provider,
            r.check_expiration == self.check_expiration,
    {
        GenericClient {
            client_id: self.client_id,
            key_provider: self.key_provider,
            check_expiration: self.check_expiration,
        }
    }
}

/// The configured verifier.
pub struct GenericClient<KP> {
    pub client_id: String,
    pub key_provider: KP,
    pub check_expiration: bool,
}

impl<KP> GenericClient<KP> {
    pub fn builder(client_id: &str, key_provider: KP) -> (r: GenericClientBuilder<KP>)
        ensures
            r.client_id@ == client_id@,
            r.key_provider == key_provider,
            r.check_expiration == true,
    {
        GenericClientBuilder::new(client_id, key_provider)
    }

    pub fn new(client_id: &str, key_provider: KP) -> (r: Self)
        ensures
            r.client_id@ == client_id@,
            r.key_provider == key_provider,
            r.check_expiration == true,
    {
        Self::builder(client_id, key_provider).build()
    }
}

impl<KP: KeyProvider> GenericClient<KP> {
    /// Verify one token end to end, deserializing the caller's payload
    /// shape from the claims bytes.
    pub fn verify_token_with_payload<P: JsonPayload>(&mut self, token_string: &str) -> (r: Result<
        Token<P>,
        Error,
    >)
        ensures
            final(self).client_id == old(self).client_id,
            final(self).check_expiration == old(self).check_expiration,
            client_verify_post::<P>(
                token_string.spec_bytes(),
                old(self).client_id@,
                old(self).check_expiration,
                r,
            ),
    {
        let unverified_token = match UnverifiedToken::<P>::validate(
            token_string,
            self.check_expiration,
            self.client_id.as_str(),
        ) {
            Ok(u) => u,
            Err(e) => {
                return Err(e);
            },
        };
        unverified_token.verify(&mut self.key_provider)
    }

    /// Verify one token, keeping the registered claims only.
    pub fn verify_token(&mut self, token_string: &str) -> (r: Result<Token<()>, Error>)
        ensures
            final(self).client_id == old(self).client_id,
            final(self).check_expiration == old(self).check_expiration,
            client_verify_post::<()>(
                token_string.spec_bytes(),
                old(self).client_id@,
                old(self).check_expiration,
                r,
            ),
    {
        self.verify_token_with_payload::<()>(token_string)
    }

    /// Verify one identity token, with the provider's common payload
    /// fields.
    pub fn verify_id_token(&mut self, token_string: &str) -> (r: Result<Token<IdPayload>, Error>)
        ensures
            final(self).client_id == old(self).client_id,
            final(self).check_expiration == old(self).check_expiration,
            client_verify_post::<IdPayload>(
                token_string.spec_bytes(),
                old(self).client_id@,
                old(self).check_expiration,
                r,
            ),
    {
        self.verify_token_with_payload::<IdPayload>(token_string)
    }
}

} // verus!
