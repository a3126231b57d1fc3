use crate::text::{dec_int, i32_dec};
use vstd::prelude::*;
use vstd::string::StringExecFns;

verus! {

/// How the requesting client identifies itself to the token endpoint:
/// by a referring site, by an explicit IP address, or by the sentinel
/// asking the endpoint to infer the requester's IP.
#[derive(Debug)]
pub enum ClientType {
    Referer(String),
    Ip(String),
    RequestIp,
}

/// Mathematical mirror of `ClientType`, used in contracts.
pub enum ClientTypeV {
    Referer(Seq<char>),
    Ip(Seq<char>),
    RequestIp,
}

impl View for ClientType {
    type V = ClientTypeV;

    open spec fn view(&self) -> ClientTypeV {
        match self {
            ClientType::Referer(v) => ClientTypeV::Referer(v@),
            ClientType::Ip(v) => ClientTypeV::Ip(v@),
            ClientType::RequestIp => ClientTypeV::RequestIp,
        }
    }
}

impl Clone for ClientType {
    fn clone(&self) -> (r: Self)
        ensures
            r@ == self@,
    {
        match self {
            ClientType::Referer(v) => ClientType::Referer(String::from_str(v.as_str())),
            ClientType::Ip(v) => ClientType::Ip(String::from_str(v.as_str())),
            ClientType::RequestIp => ClientType::RequestIp,
        }
    }
}

/// The response format requested from the token endpoint.
#[derive(Debug, Clone, Copy)]
pub enum FormatOptions {
    Html,
    Json,
    Pjson,
}

/// The identifier string a client variant contributes to the encoded body.
pub open spec fn client_str(c: ClientTypeV) -> Seq<char> {
    match c {
        ClientTypeV::Referer(v) => v,
        ClientTypeV::Ip(v) => v,
        ClientTypeV::RequestIp => "requestip"@,
    }
}

/// The format string a format option contributes to the encoded body.
pub open spec fn format_str(f: FormatOptions) -> Seq<char> {
    match f {
        FormatOptions::Html => "html"@,
        FormatOptions::Json => "json"@,
        FormatOptions::Pjson => "pjson"@,
    }
}

/// A direct username/password exchange against the legacy token endpoint.
///
/// Required fields are set at construction; the optional fields contribute
/// to the encoded body only when present.
#[derive(Debug)]
pub struct AuthRequest {
    pub username: String,
    pub password: String,
    pub client: ClientType,
    pub referer: Option<String>,
    pub ip: Option<String>,
    pub expiration: Option<i32>,
    pub f: FormatOptions,
    pub host: String,
}

/// Mathematical view of an `AuthRequest`.
pub struct AuthRequestV {
    pub username: Seq<char>,
    pub password: Seq<char>,
    pub client: ClientTypeV,
    pub referer: Option<Seq<char>>,
    pub ip: Option<Seq<char>>,
    pub expiration: Option<int>,
    pub f: FormatOptions,
    pub host: Seq<char>,
}

impl View for AuthRequest {
    type V = AuthRequestV;

    open spec fn view(&self) -> AuthRequestV {
        AuthRequestV {
            username: self.username@,
            password: self.password@,
            client: self.client@,
            referer: match self.referer {
                Some(v) => Some(v@),
                None => None,
            },
            ip: match self.ip {
                Some(v) => Some(v@),
                None => None,
            },
            expiration: match self.expiration {
                Some(n) => Some(n as int),
                None => None,
            },
            f: self.f,
            host: self.host@,
        }
    }
}

/// The exact `application/x-www-form-urlencoded` payload for a request:
/// `key=value` pairs joined with `&`, values interpolated raw (the library
/// consistently performs no escaping), in the fixed wire order
/// `username@host`, `password`, `client`, then the optional `referer`,
/// `ip` and `expiration` (absent fields contribute nothing), then `f`.
pub open spec fn spec_body(r: AuthRequestV) -> Seq<char> {
    "username="@ + r.username + "@"@ + r.host + "&password="@ + r.password + "&client="@
        + client_str(r.client) + (match r.referer {
        Some(v) => "&referer="@ + v,
        None => Seq::<char>::empty(),
    }) + (match r.ip {
        Some(v) => "&ip="@ + v,
        None => Seq::<char>::empty(),
    }) + (match r.expiration {
        Some(n) => "&expiration="@ + dec_int(n),
        None => Seq::<char>::empty(),
    }) + "&f="@ + format_str(r.f)
}

impl AuthRequest {
    /// A fresh request with the required fields; client defaults to the
    /// request-IP sentinel, format to HTML, optional fields to absent.
    pub fn new(username: &str, password: &str, host: &str) -> (r: Self)
        ensures
            r@ == (AuthRequestV {
                username: username@,
                password: password@,
                client: ClientTypeV::RequestIp,
                referer: None,
                ip: None,
                expiration: None,
                f: FormatOptions::Html,
                host: host@,
            }),
    {
        AuthRequest {
            username: username.to_owned(),
            password: password.to_owned(),
            client: ClientType::RequestIp,
            referer: None,
            ip: None,
            expiration: None,
            f: FormatOptions::Html,
            host: host.to_owned(),
        }
    }

    /// Replace the client identifier; every other field is untouched.
    pub fn set_client(&mut self, value: &ClientType)
        ensures
            final(self)@ == (AuthRequestV { client: value@, ..old(self)@ }),
    {
        self.client = value.clone();
    }

    /// The identifier string the current client variant stands for.
    pub fn get_client(self) -> (r: String)
        ensures
            r@ == client_str(self@.client),
    {
        match self.client {
            ClientType::Ip(value) => value,
            ClientType::Referer(value) => value,
            ClientType::RequestIp => String::from_str("requestip"),
        }
    }

    /// Set the optional referer; every other field is untouched.
    pub fn referer(&mut self, value: &str)
        ensures
            final(self)@ == (AuthRequestV { referer: Some(value@), ..old(self)@ }),
    {
        self.referer = Some(value.to_owned());
    }

    /// Set the optional explicit IP; every other field is untouched.
    pub fn ip(&mut self, value: &str)
        ensures
            final(self)@ == (AuthRequestV { ip: Some(value@), ..old(self)@ }),
    {
        self.ip = Some(value.to_owned());
    }

    /// Set the optional expiration; every other field is untouched.
    pub fn expiration(&mut self, value: i32)
        ensures
            final(self)@ == (AuthRequestV { expiration: Some(value as int), ..old(self)@ }),
    {
        self.expiration = Some(value);
    }

    /// Replace the response format; every other field is untouched.
    pub fn set_f(&mut self, value: &FormatOptions)
        ensures
            final(self)@ == (AuthRequestV { f: *value, ..old(self)@ }),
    {
        self.f = *value;
    }

    /// The format string the current format option stands for.
    pub fn get_f(self) -> (r: String)
        ensures
            r@ == format_str(self@.f),
    {
        match self.f {
            FormatOptions::Html => String::from_str("html"),
            FormatOptions::Json => String::from_str("json"),
            FormatOptions::Pjson => String::from_str("pjson"),
        }
    }

    /// Encode the request as the wire body described by `spec_body`.
    #[verifier::rlimit(50)]
    pub fn body(&self) -> (res: String)
        ensures
            res@ == spec_body(self@),
    {
        let mut res = String::from_str("username=");
        res.append(self.username.as_str());
        res.append("@");
        res.append(self.host.as_str());
        res.append("&password=");
        res.append(self.password.as_str());
        res.append("&client=");
        match &self.client {
            ClientType::Ip(value) => res.append(value.as_str()),
            ClientType::Referer(value) => res.append(value.as_str()),
            ClientType::RequestIp => res.append("requestip"),
        }
        proof {
            assert(res@ =~= "username="@ + self@.username + "@"@ + self@.host + "&password="@
                + self@.password + "&client="@ + client_str(self@.client));
        }
        if let Some(value) = &self.referer {
            res.append("&referer=");
            res.append(value.as_str());
        }
        if let Some(value) = &self.ip {
            res.append("&ip=");
            res.append(value.as_str());
        }
        if let Some(value) = &self.expiration {
            res.append("&expiration=");
            let rendered = i32_dec(*value);
            res.append(rendered.as_str());
        }
        res.append("&f=");
        match self.f {
            FormatOptions::Html => res.append("html"),
            FormatOptions::Json => res.append("json"),
            FormatOptions::Pjson => res.append("pjson"),
        }
        proof {
            assert(res@ =~= spec_body(self@));
        }
        res
    }
}

/// Law: request-body encoding is order-stable. The encoded body is a
/// function of the request value alone, so two encodings of one request
/// are byte-identical.
pub proof fn lemma_body_order_stable(r: AuthRequestV, b1: Seq<char>, b2: Seq<char>)
    requires
        b1 == spec_body(r),
        b2 == spec_body(r),
    ensures
        b1 == b2,
{
}

/// The credential parsed from a successful token-endpoint response.
#[derive(Debug)]
pub struct AuthResponse {
    pub token: String,
    pub expires: String,
}

/// Liveness marker for the module; reporting is the caller's concern.
pub fn health_check() {
}

} // verus!
