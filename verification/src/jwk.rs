//! The key material store: public keys indexed by identifier, and RSA
//! signature verification at the interface of `ring`.

use vstd::prelude::*;

verus! {

use crate::encoding::b64url_decoded;
use crate::encoding::base64_decode_bytes;
use crate::error::Error;
use crate::error::InvalidError;
use crate::jsondoc::jwks_count;
use crate::jsondoc::jwks_entry_count;
use crate::jsondoc::jwks_entry_str;
use crate::jsondoc::jwks_entry_str_field;
use crate::text::str_bytes;

/// One public key entry of the provider's key-set document. The modulus
/// and exponent are kept as the document carries them: base64url text.
#[derive(Debug, PartialEq)]
pub struct JsonWebKey {
    pub key_id: String,
    /// The RSA public modulus, base64url, big-endian, `n` on the wire.
    pub modulus: String,
    /// The RSA public exponent, base64url, big-endian, `e` on the wire.
    pub exponent: String,
}

/// The mathematical content of one key entry.
pub struct JsonWebKeyView {
    pub key_id: Seq<char>,
    pub modulus: Seq<char>,
    pub exponent: Seq<char>,
}

impl View for JsonWebKey {
    type V = JsonWebKeyView;

    open spec fn view(&self) -> JsonWebKeyView {
        JsonWebKeyView {
            key_id: self.key_id@,
            modulus: self.modulus@,
            exponent: self.exponent@,
        }
    }
}

impl Clone for JsonWebKey {
    fn clone(&self) -> (r: Self)
        ensures
            r == *self,
    {
        JsonWebKey {
            key_id: self.key_id.clone(),
            modulus: self.modulus.clone(),
            exponent: self.exponent.clone(),
        }
    }
}

/// Whether RSA PKCS#1 v1.5 verification with SHA-256 accepts the
/// signature over the message, under the public key given by its
/// big-endian modulus and exponent bytes. The verdict is a function of
/// its four arguments alone.
pub uninterp spec fn rsa_pkcs1_sha256_valid(
    n: Seq<u8>,
    e: Seq<u8>,
    message: Seq<u8>,
    signature: Seq<u8>,
) -> bool;

/// Relies on `ring::signature::RsaPublicKeyComponents::verify` with
/// `RSA_PKCS1_2048_8192_SHA256`: a pure verdict on key components,
/// message and signature; malformed components are rejected.
#[verifier::external_body]
fn rsa_verify(n: &[u8], e: &[u8], message: &[u8], signature: &[u8]) -> (r: bool)
    ensures
        r == rsa_pkcs1_sha256_valid(n@, e@, message@, signature@),
{
    let components = ring::signature::RsaPublicKeyComponents { n, e };
    components.verify(&ring::signature::RSA_PKCS1_2048_8192_SHA256, message, signature).is_ok()
}

/// The key accepts the signature over the message: both components decode
/// from their base64url carrier and the RSA primitive accepts.
pub open spec fn spec_key_accepts(k: JsonWebKeyView, message: Seq<u8>, signature: Seq<u8>) -> bool {
    &&& b64url_decoded(str_bytes(k.modulus)) is Some
    &&& b64url_decoded(str_bytes(k.exponent)) is Some
    &&& rsa_pkcs1_sha256_valid(
        b64url_decoded(str_bytes(k.modulus)).unwrap(),
        b64url_decoded(str_bytes(k.exponent)).unwrap(),
        message,
        signature,
    )
}

impl JsonWebKey {
    /// Verify a signature over a message. Succeeds exactly when the key
    /// accepts; every failure is the one opaque cryptographic error, so
    /// a malformed key is indistinguishable from a bad signature.
    pub fn verify(&self, message: &[u8], signature: &[u8]) -> (r: Result<(), Error>)
        ensures
            r is Ok <==> spec_key_accepts(self@, message@, signature@),
            r matches Err(e) ==> e matches Error::InvalidToken(InvalidError::Crypto),
    {
        let n = match base64_decode_bytes(self.modulus.as_str().as_bytes()) {
            Ok(v) => v,
            Err(_) => {
                return Err(Error::InvalidToken(InvalidError::Crypto));
            },
        };
        let e = match base64_decode_bytes(self.exponent.as_str().as_bytes()) {
            Ok(v) => v,
            Err(_) => {
                return Err(Error::InvalidToken(InvalidError::Crypto));
            },
        };
        if rsa_verify(n.as_slice(), e.as_slice(), message, signature) {
            Ok(())
        } else {
            Err(Error::InvalidToken(InvalidError::Crypto))
        }
    }
}

/// Entry `index` of the key-set document carries the three members a key
/// needs.
pub open spec fn jwks_entry_wf(doc: Seq<u8>, index: usize) -> bool {
    &&& jwks_entry_str_field(doc, index, "kid"@) is Some
    &&& jwks_entry_str_field(doc, index, "n"@) is Some
    &&& jwks_entry_str_field(doc, index, "e"@) is Some
}

/// The key list the key-set document describes, entry by entry; `None`
/// where the document has no `keys` array or some entry is incomplete.
pub open spec fn spec_jwks_parse(doc: Seq<u8>) -> Option<Seq<JsonWebKeyView>> {
    match jwks_entry_count(doc) {
        None => None,
        Some(n) => if forall|i: usize| i < n ==> #[trigger] jwks_entry_wf(doc, i) {
            Some(
                Seq::new(
                    n as nat,
                    |i: int| JsonWebKeyView {
                        key_id: jwks_entry_str_field(doc, i as usize, "kid"@).unwrap(),
                        modulus: jwks_entry_str_field(doc, i as usize, "n"@).unwrap(),
                        exponent: jwks_entry_str_field(doc, i as usize, "e"@).unwrap(),
                    },
                ),
            )
        } else {
            None
        },
    }
}

/// An in-memory key set, replaced wholesale on refresh, never patched.
#[derive(Debug, PartialEq)]
pub struct JsonWebKeySet {
    pub keys: Vec<JsonWebKey>,
}

impl View for JsonWebKeySet {
    type V = Seq<JsonWebKeyView>;

    open spec fn view(&self) -> Seq<JsonWebKeyView> {
        Seq::new(self.keys@.len(), |i: int| self.keys@[i]@)
    }
}

impl Clone for JsonWebKeySet {
    fn clone(&self) -> (r: Self)
        ensures
            r@ == self@,
    {
        let n = self.keys.len();
        let mut keys: Vec<JsonWebKey> = Vec::new();
        let mut i: usize = 0;
        while i < n
            invariant
                n == self.keys@.len(),
                i <= n,
                keys@.len() == i,
                forall|j: int| 0 <= j < i ==> keys@[j] == self.keys@[j],
            decreases n - i,
        {
            keys.push(self.keys[i].clone());
            i = i + 1;
        }
        let r = JsonWebKeySet { keys };
        proof {
            assert(r@ =~= self@);
        }
        r
    }
}

/// The first key of the list carrying the wanted identifier, if any.
/// Identifiers are expected unique within one document; under duplicates
/// the first match is taken.
pub open spec fn spec_get_key(keys: Seq<JsonWebKeyView>, id: Seq<char>) -> Option<JsonWebKeyView>
    decreases keys.len(),
{
    if keys.len() == 0 {
        None
    } else if keys[0].key_id == id {
        Some(keys[0])
    } else {
        spec_get_key(keys.drop_first(), id)
    }
}

/// A first-match search is unaffected by entries already ruled out.
proof fn lemma_get_key_skip(keys: Seq<JsonWebKeyView>, id: Seq<char>, i: int)
    requires
        0 <= i <= keys.len(),
        forall|j: int| 0 <= j < i ==> keys[j].key_id != id,
    ensures
        spec_get_key(keys, id) == spec_get_key(keys.skip(i), id),
    decreases i,
{
    if i > 0 {
        assert(keys.skip(i - 1).drop_first() =~= keys.skip(i));
        lemma_get_key_skip(keys, id, i - 1);
        if i - 1 < keys.len() {
            assert(keys.skip(i - 1)[0] == keys[i - 1]);
        }
    } else {
        assert(keys.skip(0) =~= keys);
    }
}

impl JsonWebKeySet {
    /// Parse the provider's key-set document. All-or-nothing: one
    /// incomplete entry rejects the whole document.
    pub fn from_json(doc: &[u8]) -> (r: Result<JsonWebKeySet, ()>)
        ensures
            r matches Ok(s) ==> spec_jwks_parse(doc@) == Some(s@),
            r is Err ==> spec_jwks_parse(doc@) is None,
    {
        let n = match jwks_count(doc) {
            Some(n) => n,
            None => {
                return Err(());
            },
        };
        let mut keys: Vec<JsonWebKey> = Vec::new();
        let mut i: usize = 0;
        while i < n
            invariant
                jwks_entry_count(doc@) == Some(n),
                i <= n,
                keys@.len() == i,
                forall|j: usize| j < i ==> #[trigger] jwks_entry_wf(doc@, j),
                forall|j: int|
                    0 <= j < i ==> keys@[j]@ == (JsonWebKeyView {
                        key_id: jwks_entry_str_field(doc@, j as usize, "kid"@).unwrap(),
                        modulus: jwks_entry_str_field(doc@, j as usize, "n"@).unwrap(),
                        exponent: jwks_entry_str_field(doc@, j as usize, "e"@).unwrap(),
                    }),
            decreases n - i,
        {
            let key_id = match jwks_entry_str(doc, i, "kid") {
                Some(s) => s,
                None => {
                    proof {
                        assert(!jwks_entry_wf(doc@, i));
                    }
                    return Err(());
                },
            };
            let modulus = match jwks_entry_str(doc, i, "n") {
                Some(s) => s,
                None => {
                    proof {
                        assert(!jwks_entry_wf(doc@, i));
                    }
                    return Err(());
                },
            };
            let exponent = match jwks_entry_str(doc, i, "e") {
                Some(s) => s,
                None => {
                    proof {
                        assert(!jwks_entry_wf(doc@, i));
                    }
                    return Err(());
                },
            };
            keys.push(JsonWebKey { key_id, modulus, exponent });
            i = i + 1;
        }
        let r = JsonWebKeySet { keys };
        proof {
            assert(r@ =~= spec_jwks_parse(doc@).unwrap());
        }
        Ok(r)
    }

    /// Look an identifier up; the first match is returned.
    pub fn get_key(&self, key_id: &str) -> (r: Option<JsonWebKey>)
        ensures
            match r {
                Some(k) => spec_get_key(self@, key_id@) == Some(k@),
                None => spec_get_key(self@, key_id@) is None,
            },
    {
        let n = self.keys.len();
        let mut i: usize = 0;
        while i < n
            invariant
                n == self.keys@.len(),
                i <= n,
                forall|j: int| 0 <= j < i ==> self@[j].key_id != key_id@,
            decreases n - i,
        {
            if crate::text::str_eq(self.keys[i].key_id.as_str(), key_id) {
                proof {
                    lemma_get_key_skip(self@, key_id@, i as int);
                    assert(self@.skip(i as int)[0] == self@[i as int]);
                }
                return Some(self.keys[i].clone());
            }
            i = i + 1;
        }
        proof {
            lemma_get_key_skip(self@, key_id@, n as int);
            assert(self@.skip(n as int).len() == 0);
        }
        None
    }
}

} // verus!
