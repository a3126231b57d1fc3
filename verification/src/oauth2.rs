use crate::error::ArcError;
use crate::text::str_eq;
use vstd::prelude::*;
use vstd::string::StringExecFns;

verus! {

/// Immutable OAuth2 client configuration for the interactive
/// Authorization-Code + PKCE flow. All five fields are required; values are
/// validated for completeness by the builder, and the endpoint strings are
/// checked as URLs when a flow begins.
#[derive(Debug)]
pub struct AuthReq {
    pub client_id: String,
    pub client_secret: String,
    pub auth_url: String,
    pub token_url: String,
    pub redirect_url: String,
}

/// Accumulates the five configuration fields, each optional until `build`.
#[derive(Debug)]
pub struct AuthReqBuilder {
    pub client_id: Option<String>,
    pub client_secret: Option<String>,
    pub auth_url: Option<String>,
    pub token_url: Option<String>,
    pub redirect_url: Option<String>,
}

/// The names of the required fields that are still unset, in declaration
/// order. `build` fails with exactly this list when it is non-empty.
pub open spec fn missing_fields(b: AuthReqBuilder) -> Seq<Seq<char>> {
    (if b.client_id is Some {
        Seq::<Seq<char>>::empty()
    } else {
        seq!["client_id"@]
    }) + (if b.client_secret is Some {
        Seq::<Seq<char>>::empty()
    } else {
        seq!["client_secret"@]
    }) + (if b.auth_url is Some {
        Seq::<Seq<char>>::empty()
    } else {
        seq!["auth_url"@]
    }) + (if b.token_url is Some {
        Seq::<Seq<char>>::empty()
    } else {
        seq!["token_url"@]
    }) + (if b.redirect_url is Some {
        Seq::<Seq<char>>::empty()
    } else {
        seq!["redirect_url"@]
    })
}

impl AuthReqBuilder {
    /// A builder with every field unset.
    pub fn new() -> (r: Self)
        ensures
            r.client_id is None,
            r.client_secret is None,
            r.auth_url is None,
            r.token_url is None,
            r.redirect_url is None,
    {
        AuthReqBuilder {
            client_id: None,
            client_secret: None,
            auth_url: None,
            token_url: None,
            redirect_url: None,
        }
    }

    /// Provide the client identifier; the other fields are untouched.
    pub fn client_id(self, value: &str) -> (r: Self)
        ensures
            r.client_id is Some && r.client_id->0@ == value@,
            r.client_secret == self.client_secret,
            r.auth_url == self.auth_url,
            r.token_url == self.token_url,
            r.redirect_url == self.redirect_url,
    {
        AuthReqBuilder {
            client_id: Some(value.to_owned()),
            client_secret: self.client_secret,
            auth_url: self.auth_url,
            token_url: self.token_url,
            redirect_url: self.redirect_url,
        }
    }

    /// Provide the client secret; the other fields are untouched.
    pub fn client_secret(self, value: &str) -> (r: Self)
        ensures
            r.client_secret is Some && r.client_secret->0@ == value@,
            r.client_id == self.client_id,
            r.auth_url == self.auth_url,
            r.token_url == self.token_url,
            r.redirect_url == self.redirect_url,
    {
        AuthReqBuilder {
            client_id: self.client_id,
            client_secret: Some(value.to_owned()),
            auth_url: self.auth_url,
            token_url: self.token_url,
            redirect_url: self.redirect_url,
        }
    }

    /// Provide the authorization endpoint; the other fields are untouched.
    pub fn auth_url(self, value: &str) -> (r: Self)
        ensures
            r.auth_url is Some && r.auth_url->0@ == value@,
            r.client_id == self.client_id,
            r.client_secret == self.client_secret,
            r.token_url == self.token_url,
            r.redirect_url == self.redirect_url,
    {
        AuthReqBuilder {
            client_id: self.client_id,
            client_secret: self.client_secret,
            auth_url: Some(value.to_owned()),
            token_url: self.token_url,
            redirect_url: self.redirect_url,
        }
    }

    /// Provide the token endpoint; the other fields are untouched.
    pub fn token_url(self, value: &str) -> (r: Self)
        ensures
            r.token_url is Some && r.token_url->0@ == value@,
            r.client_id == self.client_id,
            r.client_secret == self.client_secret,
            r.auth_url == self.auth_url,
            r.redirect_url == self.redirect_url,
    {
        AuthReqBuilder {
            client_id: self.client_id,
            client_secret: self.client_secret,
            auth_url: self.auth_url,
            token_url: Some(value.to_owned()),
            redirect_url: self.redirect_url,
        }
    }

    /// Provide the redirect URL; the other fields are untouched.
    pub fn redirect_url(self, value: &str) -> (r: Self)
        ensures
            r.redirect_url is Some && r.redirect_url->0@ == value@,
            r.client_id == self.client_id,
            r.client_secret == self.client_secret,
            r.auth_url == self.auth_url,
            r.token_url == self.token_url,
    {
        AuthReqBuilder {
            client_id: self.client_id,
            client_secret: self.client_secret,
            auth_url: self.auth_url,
            token_url: self.token_url,
            redirect_url: Some(value.to_owned()),
        }
    }

    /// Validate completeness. Succeeds exactly when all five fields were
    /// provided, and otherwise fails with the names of every missing field
    /// and no others, in declaration order.
    pub fn build(self) -> (r: Result<AuthReq, ArcError>)
        ensures
            r is Ok <==> (self.client_id is Some && self.client_secret is Some
                && self.auth_url is Some && self.token_url is Some && self.redirect_url is Some),
            r is Ok ==> (r->Ok_0.client_id@ == self.client_id->0@ && r->Ok_0.client_secret@
                == self.client_secret->0@ && r->Ok_0.auth_url@ == self.auth_url->0@
                && r->Ok_0.token_url@ == self.token_url->0@ && r->Ok_0.redirect_url@
                == self.redirect_url->0@),
            r is Err ==> (r->Err_0 matches ArcError::UserBuildError { value } && value.deep_view()
                == missing_fields(self)),
    {
        let ghost m1: Seq<Seq<char>> = if self.client_id is Some {
            Seq::<Seq<char>>::empty()
        } else {
            seq!["client_id"@]
        };
        let ghost m2: Seq<Seq<char>> = if self.client_secret is Some {
            Seq::<Seq<char>>::empty()
        } else {
            seq!["client_secret"@]
        };
        let ghost m3: Seq<Seq<char>> = if self.auth_url is Some {
            Seq::<Seq<char>>::empty()
        } else {
            seq!["auth_url"@]
        };
        let ghost m4: Seq<Seq<char>> = if self.token_url is Some {
            Seq::<Seq<char>>::empty()
        } else {
            seq!["token_url"@]
        };
        let ghost m5: Seq<Seq<char>> = if self.redirect_url is Some {
            Seq::<Seq<char>>::empty()
        } else {
            seq!["redirect_url"@]
        };
        let mut errors: Vec<String> = Vec::new();
        if self.client_id.is_none() {
            errors.push("client_id".to_owned());
        }
        proof {
            assert(errors.deep_view() =~= m1);
        }
        if self.client_secret.is_none() {
            errors.push("client_secret".to_owned());
        }
        proof {
            assert(errors.deep_view() =~= m1 + m2);
        }
        if self.auth_url.is_none() {
            errors.push("auth_url".to_owned());
        }
        proof {
            assert(errors.deep_view() =~= m1 + m2 + m3);
        }
        if self.token_url.is_none() {
            errors.push("token_url".to_owned());
        }
        proof {
            assert(errors.deep_view() =~= m1 + m2 + m3 + m4);
        }
        if self.redirect_url.is_none() {
            errors.push("redirect_url".to_owned());
        }
        proof {
            assert(errors.deep_view() =~= missing_fields(self));
        }
        if errors.len() == 0 {
            proof {
                assert(missing_fields(self).len() == 0);
            }
            Ok(AuthReq {
                client_id: self.client_id.unwrap(),
                client_secret: self.client_secret.unwrap(),
                auth_url: self.auth_url.unwrap(),
                token_url: self.token_url.unwrap(),
                redirect_url: self.redirect_url.unwrap(),
            })
        } else {
            Err(ArcError::UserBuildError { value: errors })
        }
    }
}

/// What an issued authorization URL looks like: the authorization endpoint
/// followed by the query parameters of the Authorization-Code + PKCE flow.
/// Parameter values are interpolated raw — the library consistently performs
/// no escaping — with the scopes `read` and `write` joined by `+`.
pub open spec fn spec_authorize_url(
    base: Seq<char>,
    client_id: Seq<char>,
    redirect: Seq<char>,
    challenge: Seq<char>,
    state: Seq<char>,
) -> Seq<char> {
    base + "?response_type=code&client_id="@ + client_id + "&redirect_uri="@ + redirect
        + "&scope=read+write&code_challenge_method=S256&code_challenge="@ + challenge + "&state="@
        + state
}

/// The `application/x-www-form-urlencoded` body of the final token
/// exchange: `client_id`, the client secret only when the caller's policy
/// includes it, `grant_type=authorization_code`, `redirect_uri`, the
/// authorization `code`, and the PKCE `code_verifier` (never the challenge).
pub open spec fn spec_token_request_body(
    client_id: Seq<char>,
    client_secret: Seq<char>,
    redirect: Seq<char>,
    code: Seq<char>,
    verifier: Seq<char>,
    include_secret: bool,
) -> Seq<char> {
    "client_id="@ + client_id + (if include_secret {
        "&client_secret="@ + client_secret
    } else {
        Seq::<char>::empty()
    }) + "&grant_type=authorization_code&redirect_uri="@ + redirect + "&code="@ + code
        + "&code_verifier="@ + verifier
}

/// One flow's fresh material: the authorization URL for the operator to
/// visit, the PKCE verifier to present at the token exchange, the challenge
/// derived from it, and the CSRF token embedded as `state`. Never reused
/// across flows.
#[derive(Debug)]
pub struct PendingAuthorization {
    pub auth_url: String,
    pub verifier: String,
    pub challenge: String,
    pub csrf: String,
}

/// The base64url text of the SHA-256 digest of a PKCE code verifier.
pub uninterp spec fn pkce_challenge_of(verifier: Seq<char>) -> Seq<char>;

/// Whether a string parses as a well-formed absolute URL.
pub uninterp spec fn url_parses(s: Seq<char>) -> bool;

/// Relies on `oauth2::PkceCodeChallenge::new_random_sha256`: the verifier is
/// 32 bytes from a cryptographically secure source, base64url-encoded without
/// padding (hence 43 characters), and the challenge is the base64url text of
/// the SHA-256 digest of the verifier — a function of the verifier alone,
/// named `pkce_challenge_of`. Returns `(verifier, challenge)`.
#[verifier::external_body]
fn generate_pkce() -> (r: (String, String))
    ensures
        r.0@.len() == 43,
        r.1@ == pkce_challenge_of(r.0@),
{
    let (challenge, verifier) = oauth2::PkceCodeChallenge::new_random_sha256();
    (verifier.secret().clone(), challenge.as_str().to_owned())
}

/// Relies on `oauth2::CsrfToken::new_random`: 16 bytes from a
/// cryptographically secure source, base64url-encoded without padding, hence
/// 22 characters; nothing more is promised of the value.
#[verifier::external_body]
fn generate_csrf() -> (r: String)
    ensures
        r@.len() == 22,
{
    oauth2::CsrfToken::new_random().secret().clone()
}

/// Relies on `url::Url::parse`: whether a string parses as an absolute URL
/// is a function of the string alone, named `url_parses`.
#[verifier::external_body]
fn url_is_valid(s: &str) -> (r: bool)
    ensures
        r == url_parses(s@),
{
    url::Url::parse(s).is_ok()
}

impl AuthReq {
    /// A builder with every field unset.
    pub fn new() -> (r: AuthReqBuilder)
        ensures
            r.client_id is None,
            r.client_secret is None,
            r.auth_url is None,
            r.token_url is None,
            r.redirect_url is None,
    {
        AuthReqBuilder::new()
    }

    /// Begin one interactive flow: validate the three endpoint strings as
    /// URLs, generate fresh PKCE material and a fresh CSRF token, and issue
    /// the authorization URL. Fails with `ParseError` exactly when one of
    /// the endpoint strings is not a well-formed URL.
    pub fn begin(&self) -> (r: Result<PendingAuthorization, ArcError>)
        ensures
            r is Ok <==> (url_parses(self.auth_url@) && url_parses(self.token_url@) && url_parses(
                self.redirect_url@,
            )),
            r is Err ==> r->Err_0 is ParseError,
            r is Ok ==> (r->Ok_0.verifier@.len() == 43 && r->Ok_0.csrf@.len() == 22
                && r->Ok_0.challenge@ == pkce_challenge_of(r->Ok_0.verifier@)
                && r->Ok_0.auth_url@ == spec_authorize_url(
                self.auth_url@,
                self.client_id@,
                self.redirect_url@,
                pkce_challenge_of(r->Ok_0.verifier@),
                r->Ok_0.csrf@,
            )),
    {
        if !url_is_valid(self.auth_url.as_str()) {
            return Err(ArcError::ParseError);
        }
        if !url_is_valid(self.token_url.as_str()) {
            return Err(ArcError::ParseError);
        }
        if !url_is_valid(self.redirect_url.as_str()) {
            return Err(ArcError::ParseError);
        }
        let pkce = generate_pkce();
        let verifier = pkce.0;
        let challenge = pkce.1;
        let csrf = generate_csrf();
        let auth_url = self.authorize_url_with(challenge.as_str(), csrf.as_str());
        Ok(PendingAuthorization { auth_url, verifier, challenge, csrf })
    }

    /// The authorization URL for a given challenge and state, exactly as
    /// `spec_authorize_url` describes it.
    pub fn authorize_url_with(&self, challenge: &str, state: &str) -> (res: String)
        ensures
            res@ == spec_authorize_url(
                self.auth_url@,
                self.client_id@,
                self.redirect_url@,
                challenge@,
                state@,
            ),
    {
        let mut res = String::from_str(self.auth_url.as_str());
        res.append("?response_type=code&client_id=");
        res.append(self.client_id.as_str());
        res.append("&redirect_uri=");
        res.append(self.redirect_url.as_str());
        res.append("&scope=read+write&code_challenge_method=S256&code_challenge=");
        res.append(challenge);
        res.append("&state=");
        res.append(state);
        proof {
            assert(res@ =~= spec_authorize_url(
                self.auth_url@,
                self.client_id@,
                self.redirect_url@,
                challenge@,
                state@,
            ));
        }
        res
    }

    /// The body of the final token exchange for a returned authorization
    /// code, exactly as `spec_token_request_body` describes it. Whether the
    /// client secret is included is the caller's policy (confidential vs.
    /// public client).
    pub fn token_request_body(&self, code: &str, verifier: &str, include_secret: bool) -> (res:
        String)
        ensures
            res@ == spec_token_request_body(
                self.client_id@,
                self.client_secret@,
                self.redirect_url@,
                code@,
                verifier@,
                include_secret,
            ),
    {
        let mut res = String::from_str("client_id=");
        res.append(self.client_id.as_str());
        if include_secret {
            res.append("&client_secret=");
            res.append(self.client_secret.as_str());
        }
        res.append("&grant_type=authorization_code&redirect_uri=");
        res.append(self.redirect_url.as_str());
        res.append("&code=");
        res.append(code);
        res.append("&code_verifier=");
        res.append(verifier);
        proof {
            assert(res@ =~= spec_token_request_body(
                self.client_id@,
                self.client_secret@,
                self.redirect_url@,
                code@,
                verifier@,
                include_secret,
            ));
        }
        res
    }
}

/// Whether the `state` value returned on the callback equals the CSRF token
/// that was issued. The flow must not proceed to the token exchange when
/// this is false.
pub fn csrf_matches(expected: &str, returned: &str) -> (r: bool)
    ensures
        r == (expected@ == returned@),
{
    str_eq(expected, returned)
}

} // verus!
