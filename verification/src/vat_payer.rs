use vstd::prelude::*;

use crate::response::ApiResponse;
use crate::response::AsyncApiResponse;

verus! {

/// The VAT-payer endpoint's protocol versions.
#[derive(Debug, Clone, Copy, PartialEq, Eq, Structural)]
pub enum VatPayerApiVersion {
    V8,
    V7,
}

impl VatPayerApiVersion {
    /// The URL path segment naming the version.
    pub open spec fn spec_segment(self) -> Seq<char> {
        match self {
            VatPayerApiVersion::V8 => "v8"@,
            VatPayerApiVersion::V7 => "v7"@,
        }
    }

    /// The URL path segment naming the version.
    pub fn segment(&self) -> (r: &'static str)
        ensures
            r@ == self.spec_segment(),
    {
        match self {
            VatPayerApiVersion::V8 => "v8",
            VatPayerApiVersion::V7 => "v7",
        }
    }

    /// The newest version.
    pub fn latest() -> (r: Self)
        ensures
            r == VatPayerApiVersion::V8,
    {
        VatPayerApiVersion::V8
    }
}

impl Default for VatPayerApiVersion {
    /// The default is the newest version.
    fn default() -> (r: Self)
        ensures
            r == VatPayerApiVersion::V8,
    {
        VatPayerApiVersion::V8
    }
}

/// The synchronous VAT-payer response envelope.
pub type VatPayerResponse = ApiResponse<VatPayerResponseItem>;

/// The asynchronous submit's response envelope.
pub type VatPayerAsyncResponse = AsyncApiResponse<VatPayerAsyncToken>;

/// The correlation token an asynchronous submit returns (`correlationId`),
/// used to poll for the eventual result.
#[derive(Debug)]
pub struct VatPayerAsyncToken {
    pub id: String,
}

/// One found VAT-payer entry: general data and the registration's VAT
/// facets (wire aliases `date_generale`, `inregistrare_scop_Tva`,
/// `inregistrare_RTVAI`, `stare_inactiv`, `inregistrare_SplitTVA`,
/// `adresa_sediu_social`, `adresa_domiciliu_fiscal`).
#[derive(Debug)]
pub struct VatPayerResponseItem {
    pub company_info: CompanyInfo,
    pub vat_scope: VatScope,
    pub vat_payer_income: VatPayerIncome,
    pub inactive: InactiveStatus,
    pub vat_split: VatSplit,
    pub hq_address: Address,
    pub fiscal_address: Address,
}

/// The entry's general data (`date_generale`); the optional fields were
/// added in v8.
#[derive(Debug)]
pub struct CompanyInfo {
    pub unique_registration_code: usize,
    pub when: String,
    pub name: String,
    pub address: String,
    pub commerce_registry_number: String,
    pub phone: String,
    pub fax: String,
    pub postal_code: String,
    pub act: String,
    pub registration_status: String,
    pub registration_date: String,
    pub activity_code: String,
    pub iban: String,
    pub has_ro_einvoice: bool,
    pub trusted_fiscal_activity: Option<String>,
    pub property_form: Option<String>,
    pub organization_form: Option<String>,
    pub juridic_form: Option<String>,
}

/// VAT registration scope (`inregistrare_scop_Tva`).
#[derive(Debug)]
pub struct VatScope {
    pub is_payer: bool,
    pub payer_interval: VatPayerInterval,
}

/// The VAT registration interval (`perioade_TVA`).
#[derive(Debug)]
pub struct VatPayerInterval {
    pub from: Option<String>,
    pub to: Option<String>,
    pub cancelled_at: Option<String>,
    pub cancelled_reason: Option<String>,
}

/// VAT-on-collection registration (`inregistrare_RTVAI`).
#[derive(Debug)]
pub struct VatPayerIncome {
    pub from: String,
    pub to: Option<String>,
    pub updated_at: Option<String>,
    pub published_at: Option<String>,
    pub update_type: String,
    pub status: bool,
}

/// Inactivity state (`stare_inactiv`).
#[derive(Debug)]
pub struct InactiveStatus {
    pub deactivated_at: String,
    pub reactivated_at: String,
    pub published_at: String,
    pub erased_at: String,
    pub status: bool,
}

/// Split-VAT registration (`inregistrare_SplitTVA`).
#[derive(Debug)]
pub struct VatSplit {
    pub started_at: String,
    pub cancelled_at: String,
    pub status: bool,
}

/// A postal address; the same English fields accept both the `s…` (head
/// office) and `d…` (fiscal domicile) wire prefixes.
#[derive(Debug)]
pub struct Address {
    pub street: String,
    pub number: String,
    pub town: String,
    pub town_code: String,
    pub county: String,
    pub county_code: String,
    pub county_code_auto: String,
    pub country: String,
    pub details: String,
    pub postal_code: String,
}

/// The synchronous VAT-payer endpoint driver: the resolved URL and version.
/// Requests are validated and statuses dispatched by the shared protocol
/// functions; the caller's transport performs the HTTP POST.
#[derive(Debug)]
pub struct VatPayerApi {
    pub api_url: String,
    pub version: VatPayerApiVersion,
}

impl VatPayerApi {
    /// Builds the driver against a resolved endpoint URL.
    pub fn new(version: VatPayerApiVersion, api_url: &str) -> (r: Self)
        ensures
            r.version == version,
            r.api_url@ == api_url@,
    {
        VatPayerApi { version, api_url: api_url.to_owned() }
    }
}

/// The asynchronous VAT-payer endpoint driver: submit returns a correlation
/// token; `fetch_url` gives the polling URL for a token.
#[derive(Debug)]
pub struct VatPayerAsyncApi {
    pub api_url: String,
    pub version: VatPayerApiVersion,
}

impl VatPayerAsyncApi {
    /// Builds the driver against a resolved endpoint URL.
    pub fn new(version: VatPayerApiVersion, api_url: &str) -> (r: Self)
        ensures
            r.version == version,
            r.api_url@ == api_url@,
    {
        VatPayerAsyncApi { version, api_url: api_url.to_owned() }
    }

    /// The polling URL for a correlation token: the submit URL with the
    /// query string `?id=<token>`.
    pub fn fetch_url(&self, token: &VatPayerAsyncToken) -> (r: String)
        ensures
            r@ == self.api_url@ + "?id="@ + token.id@,
    {
        let mut r = self.api_url.clone();
        r.append("?id=");
        r.append(token.id.as_str());
        proof {
            assert(r@ =~= self.api_url@ + "?id="@ + token.id@);
        }
        r
    }
}

} // verus!
