//! Parsing and structural/temporal validation of the compact token
//! serialization, prior to cryptographic verification.
//!
//! The central invariant: the content that is later signature-checked is
//! the exact transmitted byte prefix `header-segment . payload-segment`,
//! never a re-encoding.

use vstd::prelude::*;

verus! {

use crate::encoding::b64url_decoded;
use crate::encoding::base64_decode_bytes;
use crate::error::Error;
use crate::error::InvalidError;
use crate::header::Header;
use crate::header::header_fields_present;
use crate::jsondoc::json_str_field;
use crate::jsondoc::json_u64_field;
use crate::jwk::JsonWebKey;
use crate::jwk::JsonWebKeyView;
use crate::jwk::spec_key_accepts;
use crate::key_provider::KeyProvider;
use crate::text::str_eq;
use crate::token::JsonPayload;
use crate::token::RequiredClaims;
use crate::token::Token;
use vstd::slice::slice_subrange;
use vstd::slice::slice_to_vec;
use vstd::string::StringSliceAdditionalSpecFns;

/// The first position at or after `from` holding the byte `b`.
pub open spec fn spec_find_byte(t: Seq<u8>, from: int, b: u8) -> Option<int>
    decreases t.len() - from,
{
    if from < 0 || from >= t.len() {
        None
    } else if t[from] == b {
        Some(from)
    } else {
        spec_find_byte(t, from + 1, b)
    }
}

fn find_byte(s: &[u8], from: usize, b: u8) -> (r: Option<usize>)
    requires
        from <= s@.len(),
    ensures
        match r {
            Some(i) => spec_find_byte(s@, from as int, b) == Some(i as int) && from <= i && i
                < s@.len() && s@[i as int] == b,
            None => spec_find_byte(s@, from as int, b) is None,
        },
{
    let n = s.len();
    let mut i = from;
    while i < n
        invariant
            from <= i <= n,
            n == s@.len(),
            spec_find_byte(s@, from as int, b) == spec_find_byte(s@, i as int, b),
        decreases n - i,
    {
        if s[i] == b {
            return Some(i);
        }
        i = i + 1;
    }
    None
}

/// Position of the dot ending the header segment.
pub open spec fn dot1(t: Seq<u8>) -> Option<int> {
    spec_find_byte(t, 0, 46u8)
}

/// Position of the dot ending the payload segment.
pub open spec fn dot2(t: Seq<u8>) -> Option<int> {
    match dot1(t) {
        Some(i) => spec_find_byte(t, i + 1, 46u8),
        None => None,
    }
}

/// Position of the dot ending the signature segment, if any; everything
/// past it is ignored.
pub open spec fn dot3(t: Seq<u8>) -> Option<int> {
    match dot2(t) {
        Some(j) => spec_find_byte(t, j + 1, 46u8),
        None => None,
    }
}

/// All three dot-separated segments are present.
pub open spec fn segments_ok(t: Seq<u8>) -> bool {
    dot2(t) is Some
}

pub open spec fn header_seg(t: Seq<u8>) -> Seq<u8> {
    t.subrange(0, dot1(t).unwrap())
}

pub open spec fn payload_seg(t: Seq<u8>) -> Seq<u8> {
    t.subrange(dot1(t).unwrap() + 1, dot2(t).unwrap())
}

pub open spec fn signature_seg(t: Seq<u8>) -> Seq<u8> {
    match dot3(t) {
        Some(k) => t.subrange(dot2(t).unwrap() + 1, k),
        None => t.subrange(dot2(t).unwrap() + 1, t.len() as int),
    }
}

/// The exact transmitted bytes the signature was computed over: the
/// undecoded header and payload segments joined by the dot, that is, the
/// token's prefix up to the second dot.
pub open spec fn signed_content(t: Seq<u8>) -> Seq<u8> {
    t.subrange(0, dot2(t).unwrap())
}

pub open spec fn header_decodes(t: Seq<u8>) -> bool {
    segments_ok(t) && b64url_decoded(header_seg(t)) is Some
}

pub open spec fn header_bytes(t: Seq<u8>) -> Seq<u8> {
    b64url_decoded(header_seg(t)).unwrap()
}

pub open spec fn header_ok(t: Seq<u8>) -> bool {
    header_decodes(t) && header_fields_present(header_bytes(t))
}

pub open spec fn spec_key_id(t: Seq<u8>) -> Seq<char> {
    json_str_field(header_bytes(t), "kid"@).unwrap()
}

pub open spec fn spec_algorithm(t: Seq<u8>) -> Seq<char> {
    json_str_field(header_bytes(t), "alg"@).unwrap()
}

pub open spec fn signature_decodes(t: Seq<u8>) -> bool {
    header_ok(t) && b64url_decoded(signature_seg(t)) is Some
}

pub open spec fn spec_signature(t: Seq<u8>) -> Seq<u8> {
    b64url_decoded(signature_seg(t)).unwrap()
}

pub open spec fn payload_decodes(t: Seq<u8>) -> bool {
    signature_decodes(t) && b64url_decoded(payload_seg(t)) is Some
}

pub open spec fn payload_bytes(t: Seq<u8>) -> Seq<u8> {
    b64url_decoded(payload_seg(t)).unwrap()
}

/// All five registered claims are present in the decoded payload.
pub open spec fn claims_present(t: Seq<u8>) -> bool {
    &&& payload_decodes(t)
    &&& json_str_field(payload_bytes(t), "iss"@) is Some
    &&& json_str_field(payload_bytes(t), "sub"@) is Some
    &&& json_str_field(payload_bytes(t), "aud"@) is Some
    &&& json_u64_field(payload_bytes(t), "exp"@) is Some
    &&& json_u64_field(payload_bytes(t), "iat"@) is Some
}

pub open spec fn spec_issuer(t: Seq<u8>) -> Seq<char> {
    json_str_field(payload_bytes(t), "iss"@).unwrap()
}

pub open spec fn spec_subject(t: Seq<u8>) -> Seq<char> {
    json_str_field(payload_bytes(t), "sub"@).unwrap()
}

pub open spec fn spec_audience(t: Seq<u8>) -> Seq<char> {
    json_str_field(payload_bytes(t), "aud"@).unwrap()
}

pub open spec fn spec_expires_at(t: Seq<u8>) -> u64 {
    json_u64_field(payload_bytes(t), "exp"@).unwrap()
}

pub open spec fn spec_issued_at(t: Seq<u8>) -> u64 {
    json_u64_field(payload_bytes(t), "iat"@).unwrap()
}

/// The audience claim equals the configured client identifier exactly.
pub open spec fn aud_ok(t: Seq<u8>, client_id: Seq<char>) -> bool {
    claims_present(t) && spec_audience(t) == client_id
}

/// The issuer is one of the provider's two accepted issuer strings.
pub open spec fn iss_ok(t: Seq<u8>, client_id: Seq<char>) -> bool {
    aud_ok(t, client_id) && (spec_issuer(t) == "https://accounts.google.com"@ || spec_issuer(t)
        == "accounts.google.com"@)
}

/// Under enforcement the token has not expired at the given instant; no
/// leeway window is tolerated.
pub open spec fn time_ok(t: Seq<u8>, client_id: Seq<char>, check_expiration: bool, now: u64) -> bool {
    iss_ok(t, client_id) && (check_expiration ==> spec_expires_at(t) >= now)
}

/// Every structural and claims check passes.
pub open spec fn claims_accept(
    t: Seq<u8>,
    client_id: Seq<char>,
    check_expiration: bool,
    now: u64,
) -> bool {
    time_ok(t, client_id, check_expiration, now) && spec_issued_at(t) <= spec_expires_at(t)
}

/// A found position really holds the wanted byte and none before it
/// (from the searched start) does.
proof fn lemma_find_byte_hit(t: Seq<u8>, from: int, b: u8)
    requires
        spec_find_byte(t, from, b) is Some,
    ensures
        ({
            let i = spec_find_byte(t, from, b).unwrap();
            from <= i < t.len() && t[i] == b && (forall|j: int| from <= j < i ==> t[j] != b)
        }),
    decreases t.len() - from,
{
    if from < 0 || from >= t.len() {
    } else if t[from] == b {
    } else {
        lemma_find_byte_hit(t, from + 1, b);
    }
}

/// The content that is signature-checked is exactly the transmitted
/// header segment, the dot separator, and the transmitted payload
/// segment — never a re-encoding.
pub proof fn lemma_signed_content_shape(t: Seq<u8>)
    requires
        segments_ok(t),
    ensures
        signed_content(t) == header_seg(t) + seq![46u8] + payload_seg(t),
{
    let d1 = dot1(t).unwrap();
    lemma_find_byte_hit(t, 0, 46u8);
    lemma_find_byte_hit(t, d1 + 1, 46u8);
    assert(signed_content(t) =~= header_seg(t) + seq![46u8] + payload_seg(t));
}

/// Every token falls under exactly one of the ordered validation
/// verdicts: one of the rejection conditions of `validate_at`'s
/// contract, or acceptance. The conditions are exclusive by
/// construction, each presupposing that all earlier checks passed.
pub proof fn lemma_validate_verdicts(t: Seq<u8>, cid: Seq<char>, check: bool, now: u64)
    ensures
        claims_accept(t, cid, check, now) || (dot1(t) is None) || (dot1(t) is Some && dot2(
            t,
        ) is None) || (segments_ok(t) && !header_decodes(t)) || (header_decodes(t) && !header_ok(t))
            || (header_ok(t) && !signature_decodes(t)) || (signature_decodes(t) && !payload_decodes(
            t,
        )) || (payload_decodes(t) && !claims_present(t)) || (claims_present(t) && !aud_ok(t, cid))
            || (aud_ok(t, cid) && !iss_ok(t, cid)) || (iss_ok(t, cid) && !time_ok(
            t,
            cid,
            check,
            now,
        )) || (time_ok(t, cid, check, now) && !claims_accept(t, cid, check, now)),
{
}

/// A parsed token, structurally and temporally validated, prior to
/// cryptographic verification. Constructed by `validate`, consumed
/// exactly once by `verify`.
#[derive(Debug)]
pub struct UnverifiedToken<P> {
    pub header: Header,
    /// The exact transmitted bytes the signature covers.
    pub signed_body: Vec<u8>,
    /// The decoded signature bytes.
    pub signature: Vec<u8>,
    pub claims: RequiredClaims,
    pub json_payload: P,
}

/// The parsed value carries exactly what the token bytes say.
pub open spec fn matches_token<P: JsonPayload>(u: UnverifiedToken<P>, t: Seq<u8>) -> bool {
    &&& u.header.key_id@ == spec_key_id(t)
    &&& u.header.algorithm@ == spec_algorithm(t)
    &&& u.signed_body@ == signed_content(t)
    &&& u.signature@ == spec_signature(t)
    &&& u.claims.issuer@ == spec_issuer(t)
    &&& u.claims.subject@ == spec_subject(t)
    &&& u.claims.audience@ == spec_audience(t)
    &&& u.claims.expires_at == spec_expires_at(t)
    &&& u.claims.issued_at == spec_issued_at(t)
    &&& P::spec_parsed(payload_bytes(t), &u.json_payload)
}

impl<P: JsonPayload> UnverifiedToken<P> {
    /// Parse and validate a raw token against the expected audience at
    /// the given instant, short-circuiting on the first failure in the
    /// fixed order: segments, header, signature and payload decoding,
    /// claims presence, audience, issuer, expiry, issue-before-expiry,
    /// payload shape.
    pub fn validate_at(
        token_string: &str,
        check_expiration: bool,
        client_id: &str,
        now: u64,
    ) -> (r: Result<Self, Error>)
        ensures
            ({
                let t = token_string.spec_bytes();
                let cid = client_id@;
                &&& (dot1(t) is None ==> (r matches Err(
                    Error::InvalidToken(InvalidError::TokenFormat(s)),
                ) && s@ == "payload"@))
                &&& (dot1(t) is Some && dot2(t) is None ==> (r matches Err(
                    Error::InvalidToken(InvalidError::TokenFormat(s)),
                ) && s@ == "signature"@))
                &&& (segments_ok(t) && !header_decodes(t) ==> r matches Err(
                    Error::InvalidToken(InvalidError::Base64(_)),
                ))
                &&& (header_decodes(t) && !header_ok(t) ==> r matches Err(
                    Error::InvalidToken(InvalidError::Json(_)),
                ))
                &&& (header_ok(t) && !signature_decodes(t) ==> r matches Err(
                    Error::InvalidToken(InvalidError::Base64(_)),
                ))
                &&& (signature_decodes(t) && !payload_decodes(t) ==> r matches Err(
                    Error::InvalidToken(InvalidError::Base64(_)),
                ))
                &&& (payload_decodes(t) && !claims_present(t) ==> r matches Err(
                    Error::InvalidToken(InvalidError::Json(_)),
                ))
                &&& (claims_present(t) && !aud_ok(t, cid) ==> (r matches Err(
                    Error::InvalidToken(InvalidError::InvalidClaims(s)),
                ) && s@ == "aud"@))
                &&& (aud_ok(t, cid) && !iss_ok(t, cid) ==> (r matches Err(
                    Error::InvalidToken(InvalidError::InvalidClaims(s)),
                ) && s@ == "iss"@))
                &&& (iss_ok(t, cid) && !time_ok(t, cid, check_expiration, now) ==> r matches Err(
                    Error::Expired,
                ))
                &&& (time_ok(t, cid, check_expiration, now) && !claims_accept(
                    t,
                    cid,
                    check_expiration,
                    now,
                ) ==> (r matches Err(Error::InvalidToken(InvalidError::InvalidClaims(s))) && s@
                    == "iat > exp"@))
                &&& (claims_accept(t, cid, check_expiration, now) ==> {
                    &&& (P::spec_parse_ok(payload_bytes(t)) <==> r is Ok)
                    &&& (r matches Ok(u) ==> matches_token(u, t))
                    &&& (r matches Err(e) ==> e matches Error::InvalidToken(InvalidError::Json(_)))
                })
                &&& (r matches Err(Error::Expired) ==> check_expiration && iss_ok(t, cid)
                    && spec_expires_at(t) < now)
            }),
    {
        let bytes = token_string.as_bytes();
        let n = bytes.len();
        let d1 = match find_byte(bytes, 0, 46) {
            Some(i) => i,
            None => {
                return Err(Error::InvalidToken(InvalidError::TokenFormat("payload".to_owned())));
            },
        };
        proof {
            assert(d1 < n);
        }
        let d2 = match find_byte(bytes, d1 + 1, 46) {
            Some(i) => i,
            None => {
                return Err(Error::InvalidToken(InvalidError::TokenFormat("signature".to_owned())));
            },
        };
        proof {
            assert(d2 < n);
        }
        let d3 = find_byte(bytes, d2 + 1, 46);

        let header_segment = slice_subrange(bytes, 0, d1);
        let header_data = match base64_decode_bytes(header_segment) {
            Ok(v) => v,
            Err(m) => {
                return Err(Error::InvalidToken(InvalidError::Base64(m)));
            },
        };
        let header = match Header::parse(header_data.as_slice()) {
            Ok(h) => h,
            Err(e) => {
                return Err(e);
            },
        };

        let signed_body = slice_to_vec(slice_subrange(bytes, 0, d2));

        let signature_segment = match d3 {
            Some(k) => slice_subrange(bytes, d2 + 1, k),
            None => slice_subrange(bytes, d2 + 1, bytes.len()),
        };
        let signature = match base64_decode_bytes(signature_segment) {
            Ok(v) => v,
            Err(m) => {
                return Err(Error::InvalidToken(InvalidError::Base64(m)));
            },
        };

        let payload_segment = slice_subrange(bytes, d1 + 1, d2);
        let payload = match base64_decode_bytes(payload_segment) {
            Ok(v) => v,
            Err(m) => {
                return Err(Error::InvalidToken(InvalidError::Base64(m)));
            },
        };

        let issuer = match crate::jsondoc::json_get_str(payload.as_slice(), "iss") {
            Some(s) => s,
            None => {
                return Err(Error::InvalidToken(InvalidError::Json("iss".to_owned())));
            },
        };
        let subject = match crate::jsondoc::json_get_str(payload.as_slice(), "sub") {
            Some(s) => s,
            None => {
                return Err(Error::InvalidToken(InvalidError::Json("sub".to_owned())));
            },
        };
        let audience = match crate::jsondoc::json_get_str(payload.as_slice(), "aud") {
            Some(s) => s,
            None => {
                return Err(Error::InvalidToken(InvalidError::Json("aud".to_owned())));
            },
        };
        let expires_at = match crate::jsondoc::json_get_u64(payload.as_slice(), "exp") {
            Some(v) => v,
            None => {
                return Err(Error::InvalidToken(InvalidError::Json("exp".to_owned())));
            },
        };
        let issued_at = match crate::jsondoc::json_get_u64(payload.as_slice(), "iat") {
            Some(v) => v,
            None => {
                return Err(Error::InvalidToken(InvalidError::Json("iat".to_owned())));
            },
        };

        if !str_eq(audience.as_str(), client_id) {
            return Err(Error::InvalidToken(InvalidError::InvalidClaims("aud".to_owned())));
        }
        if !(str_eq(issuer.as_str(), "https://accounts.google.com") || str_eq(
            issuer.as_str(),
            "accounts.google.com",
        )) {
            return Err(Error::InvalidToken(InvalidError::InvalidClaims("iss".to_owned())));
        }
        if check_expiration && expires_at < now {
            return Err(Error::Expired);
        }
        if issued_at > expires_at {
            return Err(Error::InvalidToken(InvalidError::InvalidClaims("iat > exp".to_owned())));
        }

        let json_payload = match P::from_json_bytes(payload.as_slice()) {
            Ok(p) => p,
            Err(m) => {
                return Err(Error::InvalidToken(InvalidError::Json(m)));
            },
        };

        Ok(
            UnverifiedToken {
                header,
                signed_body,
                signature,
                claims: RequiredClaims { issuer, subject, audience, expires_at, issued_at },
                json_payload,
            },
        )
    }

    /// Parse and validate a raw token at the clock's present reading.
    /// Every clause below is independent of the reading; `validate_at`
    /// states the expiry check exactly.
    pub fn validate(token_string: &str, check_expiration: bool, client_id: &str) -> (r: Result<
        Self,
        Error,
    >)
        ensures
            ({
                let t = token_string.spec_bytes();
                let cid = client_id@;
                &&& (dot1(t) is None ==> (r matches Err(
                    Error::InvalidToken(InvalidError::TokenFormat(s)),
                ) && s@ == "payload"@))
                &&& (dot1(t) is Some && dot2(t) is None ==> (r matches Err(
                    Error::InvalidToken(InvalidError::TokenFormat(s)),
                ) && s@ == "signature"@))
                &&& (segments_ok(t) && !header_decodes(t) ==> r matches Err(
                    Error::InvalidToken(InvalidError::Base64(_)),
                ))
                &&& (header_decodes(t) && !header_ok(t) ==> r matches Err(
                    Error::InvalidToken(InvalidError::Json(_)),
                ))
                &&& (header_ok(t) && !signature_decodes(t) ==> r matches Err(
                    Error::InvalidToken(InvalidError::Base64(_)),
                ))
                &&& (signature_decodes(t) && !payload_decodes(t) ==> r matches Err(
                    Error::InvalidToken(InvalidError::Base64(_)),
                ))
                &&& (payload_decodes(t) && !claims_present(t) ==> r matches Err(
                    Error::InvalidToken(InvalidError::Json(_)),
                ))
                &&& (claims_present(t) && !aud_ok(t, cid) ==> (r matches Err(
                    Error::InvalidToken(InvalidError::InvalidClaims(s)),
                ) && s@ == "aud"@))
                &&& (aud_ok(t, cid) && !iss_ok(t, cid) ==> (r matches Err(
                    Error::InvalidToken(InvalidError::InvalidClaims(s)),
                ) && s@ == "iss"@))
                &&& (iss_ok(t, cid) && !check_expiration && spec_issued_at(t) > spec_expires_at(t)
                    ==> (r matches Err(Error::InvalidToken(InvalidError::InvalidClaims(s))) && s@
                    == "iat > exp"@))
                &&& (iss_ok(t, cid) && !check_expiration && spec_issued_at(t) <= spec_expires_at(t)
                    ==> {
                    &&& (P::spec_parse_ok(payload_bytes(t)) <==> r is Ok)
                    &&& (r matches Err(e) ==> e matches Error::InvalidToken(InvalidError::Json(_)))
                })
                &&& (r matches Ok(u) ==> iss_ok(t, cid) && spec_issued_at(t) <= spec_expires_at(t)
                    && matches_token(u, t))
                &&& (r matches Err(Error::Expired) ==> check_expiration && iss_ok(t, cid))
            }),
    {
        let now = crate::clock::now_unix_seconds();
        Self::validate_at(token_string, check_expiration, client_id, now)
    }
}

impl<P> UnverifiedToken<P> {
    /// Resolve the header's key identifier through the provider and
    /// verify the signature with whatever came back.
    pub fn verify<KP: KeyProvider>(self, key_provider: &mut KP) -> (r: Result<Token<P>, Error>)
        ensures
            r matches Ok(tok) ==> self.header.algorithm@ == "RS256"@ && tok.claims == self.claims
                && tok.payload == self.json_payload && (exists|k: JsonWebKeyView|
                #[trigger] spec_key_accepts(k, self.signed_body@, self.signature@)),
            r matches Err(e) ==> {
                ||| e matches Error::RetrieveKeyFailure
                ||| e matches Error::InvalidToken(InvalidError::InvalidKeyId)
                ||| (e matches Error::UnsupportedAlgorithm(a) && a@ == self.header.algorithm@
                    && self.header.algorithm@ != "RS256"@)
                ||| e matches Error::InvalidToken(InvalidError::Crypto)
            },
    {
        let key = key_provider.get_key(self.header.key_id.as_str());
        self.verify_with_key(key)
    }

    /// Decide the final result from what the key lookup answered: no
    /// key material retrievable, unknown identifier, unsupported
    /// algorithm, rejected signature, or the verified token. Success
    /// pairs the validated claims with the payload, untouched.
    pub fn verify_with_key(self, key: Result<Option<JsonWebKey>, ()>) -> (r: Result<
        Token<P>,
        Error,
    >)
        ensures
            key is Err ==> r matches Err(Error::RetrieveKeyFailure),
            key matches Ok(None) ==> r matches Err(
                Error::InvalidToken(InvalidError::InvalidKeyId),
            ),
            key matches Ok(Some(k)) ==> ({
                if self.header.algorithm@ != "RS256"@ {
                    r matches Err(Error::UnsupportedAlgorithm(a)) && a@ == self.header.algorithm@
                } else if spec_key_accepts(k@, self.signed_body@, self.signature@) {
                    r matches Ok(tok) && tok.claims == self.claims && tok.payload
                        == self.json_payload
                } else {
                    r matches Err(Error::InvalidToken(InvalidError::Crypto))
                }
            }),
    {
        let k = match key {
            Ok(Some(k)) => k,
            Ok(None) => {
                return Err(Error::InvalidToken(InvalidError::InvalidKeyId));
            },
            Err(()) => {
                return Err(Error::RetrieveKeyFailure);
            },
        };
        if !str_eq(self.header.algorithm.as_str(), "RS256") {
            return Err(Error::UnsupportedAlgorithm(self.header.algorithm));
        }
        match k.verify(self.signed_body.as_slice(), self.signature.as_slice()) {
            Ok(()) => Ok(Token { claims: self.claims, payload: self.json_payload }),
            Err(e) => Err(e),
        }
    }
}

} // verus!
