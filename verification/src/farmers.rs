use vstd::prelude::*;

verus! {

/// The Farmer (agricultural registry) endpoint's protocol versions.
#[derive(Debug, Clone, Copy, PartialEq, Eq, Structural)]
pub enum FarmerApiVersion {
    V2,
}

impl FarmerApiVersion {
    /// The URL path segment naming the version.
    pub open spec fn spec_segment(self) -> Seq<char> {
        match self {
            FarmerApiVersion::V2 => "v2"@,
        }
    }

    /// The URL path segment naming the version.
    pub fn segment(&self) -> (r: &'static str)
        ensures
            r@ == self.spec_segment(),
    {
        match self {
            FarmerApiVersion::V2 => "v2",
        }
    }
}

impl Default for FarmerApiVersion {
    /// The default is the newest version.
    fn default() -> (r: Self)
        ensures
            r == FarmerApiVersion::V2,
    {
        FarmerApiVersion::V2
    }
}

/// The Farmer endpoint's response: a plain list of found entries.
pub type FarmerResponse = Vec<FarmerResponseItem>;

/// One found Farmer registry entry, with the registry's own interval aliases
/// (`dataInceputRegAgric`, `dataAnulareRegAgric`, `statusRegAgric`).
#[derive(Debug)]
pub struct FarmerResponseItem {
    pub unique_registration_code: usize,
    pub when: String,
    pub name: String,
    pub address: String,
    pub commerce_registry_number: String,
    pub phone: String,
    pub fax: String,
    pub postal_code: String,
    pub act: String,
    pub registration_status: String,
    pub farmer_since: String,
    pub farmer_until: Option<String>,
    pub is_active: bool,
}

/// The Farmer endpoint driver: the resolved URL and version. Requests are
/// validated and statuses dispatched by the shared protocol functions; the
/// caller's transport performs the HTTP POST.
#[derive(Debug)]
pub struct FarmerApi {
    pub api_url: String,
    pub version: FarmerApiVersion,
}

impl FarmerApi {
    /// Builds the driver against a resolved endpoint URL.
    pub fn new(version: FarmerApiVersion, api_url: &str) -> (r: Self)
        ensures
            r.version == version,
            r.api_url@ == api_url@,
    {
        FarmerApi { version, api_url: api_url.to_owned() }
    }
}

} // verus!
