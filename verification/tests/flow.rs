use arcgis::error::ArcError;
use arcgis::oauth2::{csrf_matches, AuthReq};
use base64::Engine;
use sha2::{Digest, Sha256};

fn config() -> arcgis::oauth2::AuthReq {
    AuthReq::new()
        .client_id("cid")
        .client_secret("sec")
        .auth_url("https://x/authorize")
        .token_url("https://x/token")
        .redirect_url("https://cb")
        .build()
        .expect("config is complete")
}

#[test]
fn pkce_challenge_is_sha256_of_verifier() {
    let cfg = config();
    for _ in 0..100 {
        let pending = cfg.begin().expect("endpoints are well-formed URLs");
        let digest = Sha256::digest(pending.verifier.as_bytes());
        let expected = base64::engine::general_purpose::URL_SAFE_NO_PAD.encode(digest);
        assert_eq!(pending.challenge, expected);
        assert!(pending.verifier.len() >= 43);
    }
}

#[test]
fn pkce_and_csrf_values_are_fresh_each_flow() {
    let cfg = config();
    let mut previous = cfg.begin().expect("endpoints are well-formed URLs");
    for _ in 0..1000 {
        let next = cfg.begin().expect("endpoints are well-formed URLs");
        assert_ne!(previous.verifier, next.verifier);
        assert_ne!(previous.csrf, next.csrf);
        previous = next;
    }
}

#[test]
fn authorization_url_holds_each_parameter_once() {
    let cfg = config();
    let pending = cfg.begin().expect("endpoints are well-formed URLs");
    let url = pending.auth_url.as_str();
    assert!(url.starts_with("https://x/authorize?"));
    assert_eq!(url.matches("client_id=cid").count(), 1);
    assert_eq!(url.matches("redirect_uri=https://cb").count(), 1);
    assert_eq!(url.matches("code_challenge=").count(), 1);
    assert_eq!(url.matches("state=").count(), 1);
    assert_eq!(url.matches("scope=").count(), 1);
    assert_eq!(url.matches("response_type=code").count(), 1);
    assert_eq!(url.matches("code_challenge_method=S256").count(), 1);
    assert!(url.contains(&format!("code_challenge={}", pending.challenge)));
    assert!(url.contains(&format!("state={}", pending.csrf)));
    assert!(url.contains("scope=read+write"));
}

#[test]
fn authorize_url_with_is_exact() {
    let cfg = config();
    let url = cfg.authorize_url_with("CH", "ST");
    assert_eq!(
        url,
        "https://x/authorize?response_type=code&client_id=cid&redirect_uri=https://cb\
         &scope=read+write&code_challenge_method=S256&code_challenge=CH&state=ST"
    );
}

#[test]
fn begin_rejects_malformed_endpoint() {
    let cfg = AuthReq::new()
        .client_id("cid")
        .client_secret("sec")
        .auth_url("not a url")
        .token_url("https://x/token")
        .redirect_url("https://cb")
        .build()
        .expect("config is complete");
    match cfg.begin() {
        Ok(_) => panic!("the authorization endpoint is malformed"),
        Err(e) => assert!(matches!(e, ArcError::ParseError)),
    }
}

#[test]
fn token_request_body_without_secret() {
    let cfg = config();
    assert_eq!(
        cfg.token_request_body("CODE", "VERIFIER", false),
        "client_id=cid&grant_type=authorization_code&redirect_uri=https://cb\
         &code=CODE&code_verifier=VERIFIER"
    );
}

#[test]
fn token_request_body_with_secret() {
    let cfg = config();
    assert_eq!(
        cfg.token_request_body("CODE", "VERIFIER", true),
        "client_id=cid&client_secret=sec&grant_type=authorization_code\
         &redirect_uri=https://cb&code=CODE&code_verifier=VERIFIER"
    );
}

#[test]
fn csrf_comparison_guards_the_callback() {
    assert!(csrf_matches("abc123", "abc123"));
    assert!(!csrf_matches("abc123", "abc124"));
    assert!(!csrf_matches("abc123", ""));
}
