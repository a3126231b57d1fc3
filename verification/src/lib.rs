//! Credential acquisition for a protected resource server, by either of two
//! flows: a direct username/password exchange against a legacy token
//! endpoint, or an interactive OAuth2 Authorization-Code flow with PKCE.
//! The request encodings, the configuration validation, the PKCE/CSRF
//! handling and the response interpretation carry proved contracts; the
//! network and console edges stay with the caller.

pub mod authorize;
pub mod error;
pub mod oauth2;
pub mod response;
pub mod text;
