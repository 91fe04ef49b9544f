use vstd::prelude::*;

use crate::text::dec_rep;
use crate::text::render_dec;

verus! {

/// The Balance endpoint's protocol versions.
#[derive(Debug, Clone, Copy, PartialEq, Eq, Structural)]
pub enum BalanceApiVersion {
    V1,
}

impl BalanceApiVersion {
    /// The URL path segment naming the version.
    pub open spec fn spec_segment(self) -> Seq<char> {
        match self {
            BalanceApiVersion::V1 => "v1"@,
        }
    }

    /// The URL path segment naming the version.
    pub fn segment(&self) -> (r: &'static str)
        ensures
            r@ == self.spec_segment(),
    {
        match self {
            BalanceApiVersion::V1 => "v1",
        }
    }

    /// The newest version.
    pub fn latest() -> (r: Self)
        ensures
            r == BalanceApiVersion::V1,
    {
        BalanceApiVersion::V1
    }
}

impl Default for BalanceApiVersion {
    /// The default is the newest version.
    fn default() -> (r: Self)
        ensures
            r == BalanceApiVersion::V1,
    {
        BalanceApiVersion::V1
    }
}

/// The Balance request: a registration code and a year, carried on the wire
/// as the query parameters `cui` and `an`.
#[derive(Debug, Clone, Copy, PartialEq, Eq, Structural)]
pub struct BalanceRequest {
    pub registration_code: usize,
    pub year: usize,
}

impl BalanceRequest {
    /// Builds a Balance request.
    pub fn new(registration_code: usize, year: usize) -> (r: Self)
        ensures
            r.registration_code == registration_code,
            r.year == year,
    {
        Self { registration_code, year }
    }
}

/// The query string a Balance request carries, appended to the endpoint URL.
pub open spec fn spec_balance_query(code: nat, year: nat) -> Seq<char> {
    "?cui="@ + dec_rep(code) + "&an="@ + dec_rep(year)
}

/// The Balance endpoint driver: the resolved URL and version. The request
/// travels as an idempotent HTTP GET whose URL `request_url` composes;
/// statuses are dispatched by the shared protocol functions, and a 200 body
/// is assembled into the typed response by the Balance assembler.
#[derive(Debug)]
pub struct BalanceApi {
    pub api_url: String,
    pub version: BalanceApiVersion,
}

impl BalanceApi {
    /// Builds the driver against a resolved endpoint URL.
    pub fn new(version: BalanceApiVersion, api_url: &str) -> (r: Self)
        ensures
            r.version == version,
            r.api_url@ == api_url@,
    {
        BalanceApi { version, api_url: api_url.to_owned() }
    }

    /// The full GET URL for a request: the endpoint URL followed by
    /// `?cui=<code>&an=<year>`.
    pub fn request_url(&self, request: &BalanceRequest) -> (r: String)
        ensures
            r@ == self.api_url@ + spec_balance_query(
                request.registration_code as nat,
                request.year as nat,
            ),
    {
        let mut r = self.api_url.clone();
        r.append("?cui=");
        let code = render_dec(request.registration_code);
        r.append(code.as_str());
        r.append("&an=");
        let year = render_dec(request.year);
        r.append(year.as_str());
        proof {
            assert(r@ =~= self.api_url@ + spec_balance_query(
                request.registration_code as nat,
                request.year as nat,
            ));
        }
        r
    }
}

} // verus!
