use vstd::prelude::*;

pub mod cookie;
pub mod crypto;
pub mod headers;
pub mod laws;
pub mod music_api;

pub mod request;
pub mod rsa;
pub mod text;
pub mod user_agent;

verus! {

/// A request ready for the transport: where it goes, how, with which headers and body.
#[derive(Debug)]
pub struct FormatParams {
    pub url: String,
    pub headers: Vec<(String, String)>,
    pub body: String,
    pub method: String,
}

/// What a caller hands an endpoint: the HTTP method hint, its own URL, the query
/// parameters and the session cookie.
#[derive(Debug)]
pub struct Options<'a> {
    pub method: &'a str,
    pub url: &'a str,
    pub params: Vec<(&'a str, &'a str)>,
    pub cookie: &'a str,
}

} // verus!
