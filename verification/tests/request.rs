use coinbase_rs::request::{
    Builder, Error, ErrorKind, Method, Parts, Version, CONTENT_TYPE, USER_AGENT,
};
use coinbase_rs::signer::SignError;
use coinbase_rs::uri::Uri;
use jwt_simple::algorithms::{ECDSAP256PublicKeyLike, ES256KeyPair};

type Custom = serde_json::Map<String, serde_json::Value>;

fn fresh_key() -> (String, ES256KeyPair) {
    let pair = ES256KeyPair::generate();
    let secret = p256::SecretKey::from_slice(&pair.to_bytes()).unwrap();
    let pem = secret.to_sec1_pem(Default::default()).unwrap().to_string();
    (pem, pair)
}

#[test]
fn a_new_builder_asks_for_the_root() {
    let request = Builder::new().build().unwrap();
    assert_eq!(request.method(), Method::Get);
    assert_eq!(request.uri().as_str(), "/");
    assert_eq!(request.version(), Version::Http11);
    assert_eq!(request.headers().len(), 0);
    assert!(request.body().is_empty());
}

#[test]
fn the_default_builder_is_a_new_builder() {
    let request = Builder::default().build().unwrap();
    assert_eq!(request.method(), Method::Get);
    assert_eq!(request.uri().as_str(), "/");
    assert_eq!(request.headers().len(), 0);
    let parts = Parts::default();
    assert_eq!(parts.method, Method::Get);
    assert_eq!(parts.uri.as_str(), "/");
    assert_eq!(parts.version, Version::Http11);
    assert_eq!(parts.headers.len(), 0);
}

#[test]
fn setters_change_one_part_each() {
    let uri = Uri::parse("https://api.coinbase.com/v2/user").unwrap();
    let request = Builder::new()
        .method(Method::Post)
        .uri(uri)
        .version(Version::Http2)
        .header("Accept", "application/json")
        .body(b"{}")
        .build()
        .unwrap();
    assert_eq!(request.method(), Method::Post);
    assert_eq!(request.uri().as_str(), "https://api.coinbase.com/v2/user");
    assert_eq!(request.uri().host(), Some("api.coinbase.com"));
    assert_eq!(request.version(), Version::Http2);
    assert_eq!(request.headers().len(), 1);
    assert_eq!(request.headers().get("Accept"), Some("application/json"));
    assert_eq!(request.body(), b"{}");
}

#[test]
fn a_later_setter_wins() {
    let request = Builder::new()
        .method(Method::Post)
        .method(Method::Put)
        .header("Accept", "a")
        .header("Accept", "b")
        .body(b"one")
        .body(b"two")
        .build()
        .unwrap();
    assert_eq!(request.method(), Method::Put);
    assert_eq!(request.headers().len(), 1);
    assert_eq!(request.headers().get("Accept"), Some("b"));
    assert_eq!(request.body(), b"two");
}

#[test]
fn an_unsigned_request_has_none_of_the_signing_headers() {
    let uri = Uri::parse("https://api.coinbase.com/v2/time").unwrap();
    let request = Builder::new().uri(uri).header("Accept", "x").build().unwrap();
    assert_eq!(request.headers().get("Authorization"), None);
    assert_eq!(request.headers().get("User-Agent"), None);
    assert_eq!(request.headers().get("Content-Type"), None);
    assert_eq!(request.headers().len(), 1);
}

#[test]
fn an_unsigned_request_keeps_signing_headers_that_the_caller_set() {
    let request = Builder::new()
        .header("User-Agent", "mine/1.0")
        .header("Content-Type", "application/json")
        .build()
        .unwrap();
    assert_eq!(request.headers().get("User-Agent"), Some("mine/1.0"));
    assert_eq!(request.headers().get("Content-Type"), Some("application/json"));
    assert_eq!(request.headers().get("Authorization"), None);
}

#[test]
fn a_signed_request_has_the_three_signing_headers() {
    let (pem, pair) = fresh_key();
    let uri = Uri::parse("https://api.coinbase.com/v2/accounts?limit=5").unwrap();
    let request = Builder::new_with_auth("key-name", &pem)
        .method(Method::Post)
        .uri(uri)
        .header("X-Trace", "7")
        .body(b"body")
        .build()
        .unwrap();
    assert_eq!(request.headers().len(), 4);
    assert_eq!(request.headers().get("X-Trace"), Some("7"));
    assert_eq!(request.headers().get("User-Agent"), Some("coinbase-rs/0.3.0"));
    assert_eq!(request.headers().get("User-Agent"), Some(USER_AGENT));
    assert_eq!(request.headers().get("Content-Type"), Some("text/plain; charset=utf-8"));
    assert_eq!(request.headers().get("Content-Type"), Some(CONTENT_TYPE));
    let bearer = request.headers().get("Authorization").unwrap();
    let token = bearer.strip_prefix("Bearer ").unwrap();
    let claims = pair.public_key().verify_token::<Custom>(token, None).unwrap();
    assert_eq!(
        claims.custom.get("uri").and_then(|v| v.as_str()),
        Some("POST api.coinbase.com/v2/accounts?limit=5")
    );
    assert_eq!(claims.subject.as_deref(), Some("key-name"));
    assert_eq!(request.method(), Method::Post);
    assert_eq!(request.uri().as_str(), "https://api.coinbase.com/v2/accounts?limit=5");
    assert_eq!(request.body(), b"body");
}

#[test]
fn signing_needs_a_host() {
    let (pem, _) = fresh_key();
    let error = Builder::new_with_auth("k", &pem).build().unwrap_err();
    assert_eq!(error.kind, ErrorKind::MissingAuthority);
    assert!(error.cause.is_none());
    let uri = Uri::parse("/v2/accounts").unwrap();
    let error = Builder::new_with_auth("k", &pem).uri(uri).build().unwrap_err();
    assert_eq!(error.kind, ErrorKind::MissingAuthority);
}

#[test]
fn signing_needs_a_key_that_loads() {
    let uri = Uri::parse("https://api.coinbase.com/v2/accounts").unwrap();
    let error = Builder::new_with_auth("k", "no key").uri(uri).build().unwrap_err();
    assert_eq!(error.kind, ErrorKind::KeyLoad);
    assert!(error.cause.is_none());
}

#[test]
fn with_token_sets_the_three_signing_headers() {
    let request = Builder::new()
        .header("User-Agent", "mine/1.0")
        .header("X-Trace", "7")
        .with_token("a.b.c")
        .finish();
    assert_eq!(request.headers().len(), 4);
    assert_eq!(request.headers().get("Authorization"), Some("Bearer a.b.c"));
    assert_eq!(request.headers().get("User-Agent"), Some("coinbase-rs/0.3.0"));
    assert_eq!(request.headers().get("Content-Type"), Some("text/plain; charset=utf-8"));
    assert_eq!(request.headers().get("X-Trace"), Some("7"));
}

#[test]
fn signed_gives_the_request_or_the_failure() {
    let request = Builder::new().signed(Ok("t".to_string())).unwrap();
    assert_eq!(request.headers().get("Authorization"), Some("Bearer t"));
    let error = Builder::new().signed(Err(SignError::KeyLoad)).unwrap_err();
    assert_eq!(error.kind, ErrorKind::KeyLoad);
    assert_eq!(error.cause, None);
    let error =
        Builder::new().signed(Err(SignError::SigningFailed("why".to_string()))).unwrap_err();
    assert_eq!(error.kind, ErrorKind::SigningFailed);
    assert_eq!(error.cause, Some("why".to_string()));
}

#[test]
fn a_failure_to_sign_becomes_a_failure_to_build() {
    let error = Error::from_sign(SignError::KeyLoad);
    assert_eq!(error.kind, ErrorKind::KeyLoad);
    let error = Error::from_sign(SignError::SigningFailed("x".to_string()));
    assert_eq!(error.kind, ErrorKind::SigningFailed);
    assert_eq!(error.cause.as_deref(), Some("x"));
}

#[test]
fn a_clone_builds_the_same_request() {
    let builder = Builder::new().method(Method::Delete).header("a", "b").body(b"x");
    let first = builder.clone().build().unwrap();
    let second = builder.build().unwrap();
    assert_eq!(first.method(), second.method());
    assert_eq!(first.uri().as_str(), second.uri().as_str());
    assert_eq!(first.headers().get("a"), second.headers().get("a"));
    assert_eq!(first.body(), second.body());
}

#[test]
fn methods_are_named_in_capitals() {
    assert_eq!(Method::Get.as_str(), "GET");
    assert_eq!(Method::Post.as_str(), "POST");
    assert_eq!(Method::Put.as_str(), "PUT");
    assert_eq!(Method::Delete.as_str(), "DELETE");
    assert_eq!(Method::Head.as_str(), "HEAD");
    assert_eq!(Method::Options.as_str(), "OPTIONS");
    assert_eq!(Method::Connect.as_str(), "CONNECT");
    assert_eq!(Method::Patch.as_str(), "PATCH");
    assert_eq!(Method::Trace.as_str(), "TRACE");
    assert_eq!(Method::default(), Method::Get);
    assert_eq!(Version::default(), Version::Http11);
}
