use vstd::prelude::*;

verus! {

/// The Cult (religious-organization registry) endpoint's protocol versions.
#[derive(Debug, Clone, Copy, PartialEq, Eq, Structural)]
pub enum CultApiVersion {
    V2,
}

impl CultApiVersion {
    /// The URL path segment naming the version.
    pub open spec fn spec_segment(self) -> Seq<char> {
        match self {
            CultApiVersion::V2 => "v2"@,
        }
    }

    /// The URL path segment naming the version.
    pub fn segment(&self) -> (r: &'static str)
        ensures
            r@ == self.spec_segment(),
    {
        match self {
            CultApiVersion::V2 => "v2",
        }
    }
}

impl Default for CultApiVersion {
    /// The default is the newest version.
    fn default() -> (r: Self)
        ensures
            r == CultApiVersion::V2,
    {
        CultApiVersion::V2
    }
}

/// The Cult endpoint's response: a plain list of found entries.
pub type CultResponse = Vec<CultResponseItem>;

/// One found Cult registry entry, with the registry's own interval aliases
/// (`dataInceputRegCult`, `dataAnulareRegCult`, `statusRegCult`).
#[derive(Debug)]
pub struct CultResponseItem {
    pub unique_registration_code: usize,
    pub when: String,
    pub name: String,
    pub address: String,
    pub commerce_registry_number: String,
    pub phone: String,
    pub fax: String,
    pub postal_code: String,
    pub act: String,
    pub registration_status: String,
    pub cult_since: String,
    pub cult_until: Option<String>,
    pub is_active: bool,
}

/// The Cult endpoint driver: the resolved URL and version. Requests are
/// validated and statuses dispatched by the shared protocol functions; the
/// caller's transport performs the HTTP POST.
#[derive(Debug)]
pub struct CultApi {
    pub api_url: String,
    pub version: CultApiVersion,
}

impl CultApi {
    /// Builds the driver against a resolved endpoint URL.
    pub fn new(version: CultApiVersion, api_url: &str) -> (r: Self)
        ensures
            r.version == version,
            r.api_url@ == api_url@,
    {
        CultApi { version, api_url: api_url.to_owned() }
    }
}

} // verus!
