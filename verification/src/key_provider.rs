//! Signing-key resolution with a time-bounded cache of the provider's
//! key-set document. The transport that fetches the document is a
//! collaborator behind the `Transport` trait; every decision taken on a
//! fetched document is verified here.

use vstd::prelude::*;

verus! {

use crate::clock::now_unix_seconds;
use crate::jwk::JsonWebKey;
use crate::jwk::JsonWebKeySet;
use crate::jwk::JsonWebKeyView;
use crate::jwk::spec_get_key;
use crate::jwk::spec_jwks_parse;
use crate::text::str_bytes;

/// The max-age directive of a Cache-Control header value, in whole
/// seconds; `None` where the value carries no usable directive. The
/// result is a function of the header value alone.
pub uninterp spec fn max_age_of(value: Seq<char>) -> Option<u64>;

/// Relies on `cache_control::CacheControl::from_value`: parsing a header
/// value is deterministic, and `max_age` is its max-age directive.
#[verifier::external_body]
pub(crate) fn parse_max_age(value: &str) -> (r: Option<u64>)
    ensures
        r == max_age_of(value@),
{
    cache_control::CacheControl::from_value(value).and_then(|c| c.max_age).map(|d| d.as_secs())
}

/// One fetched HTTP document, reduced to the three things the provider
/// inspects: the status code, the Cache-Control header value, the body.
#[derive(Debug)]
pub struct HttpDocument {
    pub status: u16,
    pub cache_control: Option<String>,
    pub body: String,
}

impl HttpDocument {
    /// The status code is in the success range.
    pub open spec fn spec_is_success(&self) -> bool {
        200 <= self.status < 300
    }

    pub fn is_success(&self) -> (r: bool)
        ensures
            r == self.spec_is_success(),
    {
        200 <= self.status && self.status < 300
    }

    /// The max-age directive the document was served under, if any.
    pub open spec fn spec_max_age(&self) -> Option<u64> {
        match self.cache_control {
            Some(value) => max_age_of(value@),
            None => None,
        }
    }

    /// The body as the bytes the key-set parser reads.
    pub open spec fn body_bytes(&self) -> Seq<u8> {
        str_bytes(self.body@)
    }
}

/// The raw network transport: given a URL, a status code, header and
/// body, or an I/O failure. Nothing is promised of it; every caller
/// states what holds of each possible answer.
pub trait Transport {
    fn fetch(&mut self, url: &str) -> Result<HttpDocument, ()>;
}

/// Resolves a key identifier to key material. Implemented here by
/// `GoogleKeyProvider`; callers may substitute their own resolution.
pub trait KeyProvider {
    fn get_key(&mut self, key_id: &str) -> Result<Option<JsonWebKey>, ()>;
}

/// The provider's key material, behind a TTL cache. The cached set and
/// its expiration instant are only ever replaced together.
pub struct GoogleKeyProvider<T> {
    pub transport: T,
    pub cached: Option<JsonWebKeySet>,
    pub expiration_time: u64,
}

/// How one answer document changes the cache: under a max-age directive
/// the set is cached wholesale with its computed expiry; without one the
/// cache is left exactly as it was.
pub open spec fn spec_cache_update(
    old_keys: Option<Seq<JsonWebKeyView>>,
    old_exp: u64,
    new_keys: Option<Seq<JsonWebKeyView>>,
    new_exp: u64,
    set: Seq<JsonWebKeyView>,
    max_age: Option<u64>,
    now: u64,
) -> bool {
    match max_age {
        Some(m) => new_keys == Some(set) && new_exp == now.saturating_add(m),
        None => new_keys == old_keys && new_exp == old_exp,
    }
}

/// The key list of an `Option` of one looked-up key.
pub open spec fn opt_key_view(k: Option<JsonWebKey>) -> Option<JsonWebKeyView> {
    match k {
        Some(key) => Some(key@),
        None => None,
    }
}

impl<T> GoogleKeyProvider<T> {
    /// The views of the cached keys, if a set is cached.
    pub open spec fn cached_keys(&self) -> Option<Seq<JsonWebKeyView>> {
        match self.cached {
            Some(set) => Some(set@),
            None => None,
        }
    }

    /// A set is cached and its expiration instant is strictly in the
    /// future: a request now is answered without any fetch.
    pub open spec fn cache_fresh(&self, now: u64) -> bool {
        self.cached is Some && self.expiration_time > now
    }

    /// A provider with a cold cache.
    pub fn new(transport: T) -> (r: Self)
        ensures
            r.transport == transport,
            r.cached is None,
            r.expiration_time == 0,
    {
        GoogleKeyProvider { transport, cached: None, expiration_time: 0 }
    }

    /// The provider's published key-set endpoint.
    pub fn cert_url() -> (r: &'static str)
        ensures
            r@ == "https://www.googleapis.com/oauth2/v3/certs"@,
    {
        "https://www.googleapis.com/oauth2/v3/certs"
    }

    /// Digest one successfully fetched document: parse the body as a key
    /// set, and cache it exactly when a max-age directive is present.
    /// The freshly parsed set answers the current lookup either way.
    pub fn process_response(&mut self, doc: &HttpDocument, now: u64) -> (r: Result<
        JsonWebKeySet,
        (),
    >)
        ensures
            final(self).transport == old(self).transport,
            r is Err ==> final(self).cached_keys() == old(self).cached_keys()
                && final(self).expiration_time == old(self).expiration_time
                && spec_jwks_parse(doc.body_bytes()) is None,
            r matches Ok(set) ==> spec_jwks_parse(doc.body_bytes()) == Some(set@)
                && spec_cache_update(
                old(self).cached_keys(),
                old(self).expiration_time,
                final(self).cached_keys(),
                final(self).expiration_time,
                set@,
                doc.spec_max_age(),
                now,
            ),
    {
        let set = match JsonWebKeySet::from_json(doc.body.as_str().as_bytes()) {
            Ok(s) => s,
            Err(()) => {
                return Err(());
            },
        };
        let max_age = match &doc.cache_control {
            Some(value) => parse_max_age(value.as_str()),
            None => None,
        };
        if let Some(m) = max_age {
            self.cached = Some(set.clone());
            self.expiration_time = now.saturating_add(m);
        }
        Ok(set)
    }
}

impl<T: Transport> GoogleKeyProvider<T> {
    /// Fetch the current key-set document and digest it, with the cache
    /// effect taken at the given instant. The cache is never touched on
    /// any failure.
    pub fn download_keys_at(&mut self, now: u64) -> (r: Result<JsonWebKeySet, ()>)
        ensures
            r is Err ==> final(self).cached_keys() == old(self).cached_keys()
                && final(self).expiration_time == old(self).expiration_time,
            r matches Ok(set) ==> exists|ma: Option<u64>|
                #[trigger] spec_cache_update(
                    old(self).cached_keys(),
                    old(self).expiration_time,
                    final(self).cached_keys(),
                    final(self).expiration_time,
                    set@,
                    ma,
                    now,
                ),
    {
        let url = Self::cert_url();
        let doc = match self.transport.fetch(url) {
            Ok(d) => d,
            Err(()) => {
                return Err(());
            },
        };
        if !doc.is_success() {
            return Err(());
        }
        match self.process_response(&doc, now) {
            Ok(set) => {
                proof {
                    assert(spec_cache_update(
                        old(self).cached_keys(),
                        old(self).expiration_time,
                        final(self).cached_keys(),
                        final(self).expiration_time,
                        set@,
                        doc.spec_max_age(),
                        now,
                    ));
                }
                Ok(set)
            },
            Err(()) => Err(()),
        }
    }

    /// Fetch and digest the current key-set document, at the clock's
    /// present reading.
    pub fn download_keys(&mut self) -> (r: Result<JsonWebKeySet, ()>)
        ensures
            r is Err ==> final(self).cached_keys() == old(self).cached_keys()
                && final(self).expiration_time == old(self).expiration_time,
            r matches Ok(set) ==> exists|ma: Option<u64>, now: u64|
                #[trigger] spec_cache_update(
                    old(self).cached_keys(),
                    old(self).expiration_time,
                    final(self).cached_keys(),
                    final(self).expiration_time,
                    set@,
                    ma,
                    now,
                ),
    {
        let now = now_unix_seconds();
        self.download_keys_at(now)
    }

    /// Resolve a key identifier at the given instant. A fresh cache
    /// answers immediately and leaves the provider untouched — in
    /// particular the transport sees nothing. Otherwise the document is
    /// fetched once; the same freshly parsed set both answers the lookup
    /// and (under a max-age directive) replaces the cache.
    pub fn get_key_at(&mut self, key_id: &str, now: u64) -> (r: Result<Option<JsonWebKey>, ()>)
        ensures
            old(self).cache_fresh(now) ==> *final(self) == *old(self) && (r matches Ok(k)
                && opt_key_view(k) == spec_get_key(old(self).cached_keys().unwrap(), key_id@)),
            !old(self).cache_fresh(now) ==> {
                &&& r is Err ==> final(self).cached_keys() == old(self).cached_keys()
                    && final(self).expiration_time == old(self).expiration_time
                &&& r matches Ok(k) ==> exists|set: Seq<JsonWebKeyView>, ma: Option<u64>|
                    opt_key_view(k) == spec_get_key(set, key_id@) && #[trigger] spec_cache_update(
                        old(self).cached_keys(),
                        old(self).expiration_time,
                        final(self).cached_keys(),
                        final(self).expiration_time,
                        set,
                        ma,
                        now,
                    )
            },
    {
        if self.expiration_time > now {
            match &self.cached {
                Some(set) => {
                    return Ok(set.get_key(key_id));
                },
                None => {},
            }
        }
        let set = match self.download_keys_at(now) {
            Ok(s) => s,
            Err(()) => {
                return Err(());
            },
        };
        let result = set.get_key(key_id);
        proof {
            let ma = choose|ma: Option<u64>|
                spec_cache_update(
                    old(self).cached_keys(),
                    old(self).expiration_time,
                    final(self).cached_keys(),
                    final(self).expiration_time,
                    set@,
                    ma,
                    now,
                );
            assert(opt_key_view(result) == spec_get_key(set@, key_id@) && spec_cache_update(
                old(self).cached_keys(),
                old(self).expiration_time,
                final(self).cached_keys(),
                final(self).expiration_time,
                set@,
                ma,
                now,
            ));
        }
        Ok(result)
    }
}

impl<T: Transport> KeyProvider for GoogleKeyProvider<T> {
    /// Resolve a key identifier at the clock's present reading. Whatever
    /// the clock and the transport answered: a failure leaves the cache
    /// untouched, and a successful answer is the lookup in one key set
    /// that also updated the cache per `spec_cache_update` at some
    /// instant — never a value from nowhere.
    fn get_key(&mut self, key_id: &str) -> (r: Result<Option<JsonWebKey>, ()>)
        ensures
            r is Err ==> final(self).cached_keys() == old(self).cached_keys()
                && final(self).expiration_time == old(self).expiration_time,
            r matches Ok(k) ==> exists|set: Seq<JsonWebKeyView>, ma: Option<u64>, now: u64|
                opt_key_view(k) == spec_get_key(set, key_id@) && #[trigger] spec_cache_update(
                    old(self).cached_keys(),
                    old(self).expiration_time,
                    final(self).cached_keys(),
                    final(self).expiration_time,
                    set,
                    ma,
                    now,
                ),
    {
        let now = now_unix_seconds();
        let r = self.get_key_at(key_id, now);
        proof {
            if old(self).cache_fresh(now) {
                let set = old(self).cached_keys().unwrap();
                assert(opt_key_view(r->Ok_0) == spec_get_key(set, key_id@) && spec_cache_update(
                    old(self).cached_keys(),
                    old(self).expiration_time,
                    final(self).cached_keys(),
                    final(self).expiration_time,
                    set,
                    None,
                    now,
                ));
            } else if r is Ok {
                let (set, ma) = choose|set: Seq<JsonWebKeyView>, ma: Option<u64>|
                    opt_key_view(r->Ok_0) == spec_get_key(set, key_id@) && #[trigger] spec_cache_update(
                        old(self).cached_keys(),
                        old(self).expiration_time,
                        final(self).cached_keys(),
                        final(self).expiration_time,
                        set,
                        ma,
                        now,
                    );
                assert(opt_key_view(r->Ok_0) == spec_get_key(set, key_id@) && spec_cache_update(
                    old(self).cached_keys(),
                    old(self).expiration_time,
                    final(self).cached_keys(),
                    final(self).expiration_time,
                    set,
                    ma,
                    now,
                ));
            }
        }
        r
    }
}

/// A refresh that cached a set under a max-age directive keeps the cache
/// fresh, holding exactly that set, for every instant strictly before
/// the computed expiry; a request in that window is answered from the
/// cache with no fetch.
pub proof fn lemma_refresh_gives_fresh_window<T>(
    before: GoogleKeyProvider<T>,
    after: GoogleKeyProvider<T>,
    set: Seq<JsonWebKeyView>,
    m: u64,
    now: u64,
    later: u64,
)
    requires
        spec_cache_update(
            before.cached_keys(),
            before.expiration_time,
            after.cached_keys(),
            after.expiration_time,
            set,
            Some(m),
            now,
        ),
        later < now.saturating_add(m),
    ensures
        after.cache_fresh(later),
        after.cached_keys() == Some(set),
{
}

} // verus!
