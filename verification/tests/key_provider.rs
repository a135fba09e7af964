use jwt_verify::GoogleKeyProvider;
use jwt_verify::HttpDocument;
use jwt_verify::KeyProvider;
use jwt_verify::Transport;

const N_B64: &str = "kpphirAMRGjGGon6ajnPQbHYJA62hDF91iDHidDevtnpzk0mcR85_9SEmtO4iZbOT5nKTzXc9KND_lJxlsXXKISfvixyrBIQrsAoTa0ZG6qHrIz4w39tbf8XDNUkwjq9HQpc6nV2FLsQNeorWXIAszhIxajqnRzsWlUWSktelKlWIB70JrRzotWNfEeZJP97PMOJEtPakuPbStsoWdEsczRWJQhmQk3y3-SBwHyTslcAHQEJZqVhso-oax3qDLkDUWPrPbqojhgusyvyxsnz7IcehNYGsk4U5-pXawW4loFYPRpSdASZGqb4EqVjfQbt5b4JcUXzOwjbTE-KA1ByQQ";

fn jwks_body() -> String {
    format!(
        "{{\"keys\":[{{\"kty\":\"RSA\",\"use\":\"sig\",\"alg\":\"RS256\",\
         \"kid\":\"testkey1\",\"n\":\"{}\",\"e\":\"AQAB\"}}]}}",
        N_B64
    )
}

struct ServeKeys {
    calls: usize,
    status: u16,
    cache_control: Option<String>,
    body: String,
}

impl ServeKeys {
    fn with_max_age() -> Self {
        ServeKeys {
            calls: 0,
            status: 200,
            cache_control: Some("public, max-age=3600".to_string()),
            body: jwks_body(),
        }
    }
}

impl Transport for ServeKeys {
    fn fetch(&mut self, _url: &str) -> Result<HttpDocument, ()> {
        self.calls += 1;
        Ok(HttpDocument {
            status: self.status,
            cache_control: self.cache_control.clone(),
            body: self.body.clone(),
        })
    }
}

struct FailingTransport;

impl Transport for FailingTransport {
    fn fetch(&mut self, _url: &str) -> Result<HttpDocument, ()> {
        Err(())
    }
}

#[test]
fn test_google_provider() {
    let mut provider = GoogleKeyProvider::new(ServeKeys::with_max_age());
    assert!(provider.get_key("test").is_ok());
    assert!(provider.get_key("test").is_ok());
}

#[test]
fn known_key_is_found_and_unknown_is_not() {
    let mut provider = GoogleKeyProvider::new(ServeKeys::with_max_age());
    let found = provider.get_key_at("testkey1", 1000).unwrap();
    assert_eq!(found.unwrap().key_id, "testkey1");
    let missing = provider.get_key_at("missing", 1001).unwrap();
    assert!(missing.is_none());
}

#[test]
fn second_call_within_max_age_issues_no_fetch() {
    let mut provider = GoogleKeyProvider::new(ServeKeys::with_max_age());
    assert!(provider.get_key_at("testkey1", 1000).is_ok());
    assert_eq!(provider.transport.calls, 1);
    assert!(provider.get_key_at("testkey1", 1000 + 3599).is_ok());
    assert_eq!(provider.transport.calls, 1);
}

#[test]
fn call_after_the_window_fetches_once_more() {
    let mut provider = GoogleKeyProvider::new(ServeKeys::with_max_age());
    assert!(provider.get_key_at("testkey1", 1000).is_ok());
    assert!(provider.get_key_at("testkey1", 1000 + 3600).is_ok());
    assert_eq!(provider.transport.calls, 2);
}

#[test]
fn response_without_max_age_answers_but_is_not_cached() {
    let mut provider = GoogleKeyProvider::new(ServeKeys {
        calls: 0,
        status: 200,
        cache_control: None,
        body: jwks_body(),
    });
    let first = provider.get_key_at("testkey1", 1000).unwrap();
    assert!(first.is_some());
    let second = provider.get_key_at("testkey1", 1001).unwrap();
    assert!(second.is_some());
    assert_eq!(provider.transport.calls, 2);
}

#[test]
fn fetch_failure_with_cold_cache_propagates() {
    let mut provider = GoogleKeyProvider::new(FailingTransport);
    assert!(provider.get_key_at("testkey1", 1000).is_err());
}

#[test]
fn non_success_status_is_a_retrieval_failure() {
    let mut provider = GoogleKeyProvider::new(ServeKeys {
        calls: 0,
        status: 500,
        cache_control: Some("public, max-age=3600".to_string()),
        body: jwks_body(),
    });
    assert!(provider.get_key_at("testkey1", 1000).is_err());
}

#[test]
fn unparseable_key_document_is_a_retrieval_failure() {
    let mut provider = GoogleKeyProvider::new(ServeKeys {
        calls: 0,
        status: 200,
        cache_control: Some("public, max-age=3600".to_string()),
        body: "not a key set".to_string(),
    });
    assert!(provider.get_key_at("testkey1", 1000).is_err());
}

#[test]
fn incomplete_key_entry_rejects_the_whole_document() {
    let mut provider = GoogleKeyProvider::new(ServeKeys {
        calls: 0,
        status: 200,
        cache_control: Some("public, max-age=3600".to_string()),
        body: "{\"keys\":[{\"kid\":\"testkey1\",\"n\":\"abc\"}]}".to_string(),
    });
    assert!(provider.get_key_at("testkey1", 1000).is_err());
}

#[test]
fn download_keys_returns_the_parsed_set() {
    let mut provider = GoogleKeyProvider::new(ServeKeys::with_max_age());
    let set = provider.download_keys().unwrap();
    assert_eq!(set.keys.len(), 1);
    assert_eq!(set.keys[0].key_id, "testkey1");
    assert_eq!(set.keys[0].exponent, "AQAB");
}

#[test]
fn duplicate_identifiers_resolve_to_the_first_match() {
    let body = format!(
        "{{\"keys\":[{{\"kid\":\"dup\",\"n\":\"{}\",\"e\":\"AQAB\"}},\
         {{\"kid\":\"dup\",\"n\":\"other\",\"e\":\"AQAB\"}}]}}",
        N_B64
    );
    let mut provider = GoogleKeyProvider::new(ServeKeys {
        calls: 0,
        status: 200,
        cache_control: Some("max-age=60".to_string()),
        body,
    });
    let key = provider.get_key_at("dup", 1000).unwrap().unwrap();
    assert_eq!(key.modulus, N_B64);
}
