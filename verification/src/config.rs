//! Settings read from the environment, with the defaults the server uses when
//! a variable is not set.

use vstd::prelude::*;
use vstd::string::*;

use crate::cors::{allowed_origins, allowed_origins_of, texts};

verus! {

/// The text of a setting, or `default` when it is not set.
pub open spec fn setting_or(setting: Option<&str>, default: Seq<char>) -> Seq<char> {
    match setting {
        Some(s) => s@,
        None => default,
    }
}

/// The address the server listens on: `HOST:PORT`, with host `0.0.0.0` and
/// port `8080` when they are not set.
pub fn listen_address(host: Option<&str>, port: Option<&str>) -> (r: String)
    ensures
        r@ == setting_or(host, "0.0.0.0"@) + ":"@ + setting_or(port, "8080"@),
{
    let mut address = match host {
        Some(h) => String::from_str(h),
        None => String::from_str("0.0.0.0"),
    };
    address.append(":");
    match port {
        Some(p) => address.append(p),
        None => address.append("8080"),
    }
    address
}

/// The origins allowed by the `CORS_ORIGINS` setting, `http://localhost:1420`
/// when it is not set.
pub fn cors_origins(setting: Option<&str>) -> (r: Vec<String>)
    ensures
        texts(r@) == allowed_origins_of(setting_or(setting, "http://localhost:1420"@)),
{
    match setting {
        Some(list) => allowed_origins(list),
        None => allowed_origins("http://localhost:1420"),
    }
}

/// The HTTP methods a browser may use across origins.
#[derive(Debug, Clone, Copy, PartialEq, Eq)]
pub enum CorsMethod {
    Get,
    Post,
    Patch,
    Delete,
    Options,
}

/// The cross-origin policy of the API.
#[derive(Debug, Clone, PartialEq, Eq)]
pub struct CorsPolicy {
    /// The origins allowed to call the API.
    pub origins: Vec<String>,
    /// The methods they may use.
    pub methods: Vec<CorsMethod>,
    /// The request headers they may send.
    pub headers: Vec<String>,
    /// Whether credentials may be sent.
    pub allow_credentials: bool,
}

/// The cross-origin policy: the origins of the `CORS_ORIGINS` setting, the
/// methods GET, POST, PATCH, DELETE and OPTIONS, the headers `authorization`
/// and `content-type`, and credentials allowed.
pub fn cors_policy(setting: Option<&str>) -> (r: CorsPolicy)
    ensures
        texts(r.origins@) == allowed_origins_of(setting_or(setting, "http://localhost:1420"@)),
        r.methods@ == seq![
            CorsMethod::Get,
            CorsMethod::Post,
            CorsMethod::Patch,
            CorsMethod::Delete,
            CorsMethod::Options,
        ],
        texts(r.headers@) == seq!["authorization"@, "content-type"@],
        r.allow_credentials,
{
    let origins = cors_origins(setting);
    let methods = vec![
        CorsMethod::Get,
        CorsMethod::Post,
        CorsMethod::Patch,
        CorsMethod::Delete,
        CorsMethod::Options,
    ];
    let mut headers: Vec<String> = Vec::new();
    headers.push(String::from_str("authorization"));
    headers.push(String::from_str("content-type"));
    assert(texts(headers@) =~= seq!["authorization"@, "content-type"@]);
    CorsPolicy { origins, methods, headers, allow_credentials: true }
}

} // verus!
