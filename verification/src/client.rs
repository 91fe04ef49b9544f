use vstd::prelude::*;

use crate::balance_api::BalanceApi;
use crate::balance_api::BalanceApiVersion;
use crate::cults::CultApi;
use crate::cults::CultApiVersion;
use crate::farmers::FarmerApi;
use crate::farmers::FarmerApiVersion;
use crate::vat_payer::VatPayerApi;
use crate::vat_payer::VatPayerApiVersion;
use crate::vat_payer::VatPayerAsyncApi;

verus! {

/// The service's public base URL.
pub open spec fn spec_default_base_url() -> Seq<char> {
    "https://webservicesp.anaf.ro"@
}

/// The synchronous VAT-payer endpoint URL under a base URL.
pub open spec fn spec_vat_payer_url(base: Seq<char>, version: VatPayerApiVersion) -> Seq<char> {
    base + "/PlatitorTvaRest/api/"@ + version.spec_segment() + "/ws/tva"@
}

/// The asynchronous VAT-payer endpoint URL under a base URL.
pub open spec fn spec_async_vat_payer_url(base: Seq<char>, version: VatPayerApiVersion) -> Seq<
    char,
> {
    base + "/AsynchWebService/api/"@ + version.spec_segment() + "/ws/tva"@
}

/// The Cult endpoint URL under a base URL.
pub open spec fn spec_cult_url(base: Seq<char>, version: CultApiVersion) -> Seq<char> {
    base + "/RegCult/api/"@ + version.spec_segment() + "/ws/cult"@
}

/// The Farmer endpoint URL under a base URL.
pub open spec fn spec_farmer_url(base: Seq<char>, version: FarmerApiVersion) -> Seq<char> {
    base + "/RegAgric/api/"@ + version.spec_segment() + "/ws/agric"@
}

/// The Balance endpoint URL under a base URL; the version selects no path
/// segment here, the request's query string carries the parameters.
pub open spec fn spec_balance_url(base: Seq<char>) -> Seq<char> {
    base + "/bilant"@
}

/// The client facade: holds the base URL and resolves each endpoint driver's
/// URL from it. Each factory consumes the facade, as a driver is built once
/// per interaction; the HTTP transport lives with the caller.
#[derive(Debug)]
pub struct AnafClient {
    pub base_url: String,
}

impl Default for AnafClient {
    /// A client against the service's public base URL.
    fn default() -> (r: Self)
        ensures
            r.base_url@ == spec_default_base_url(),
    {
        AnafClient { base_url: String::from_str("https://webservicesp.anaf.ro") }
    }
}

impl AnafClient {
    /// A client against the service's public base URL.
    pub fn new() -> (r: Self)
        ensures
            r.base_url@ == spec_default_base_url(),
    {
        Self::default()
    }

    /// Initiates the synchronous VAT-payer endpoint driver.
    pub fn vat_payer(self, version: VatPayerApiVersion) -> (r: VatPayerApi)
        ensures
            r.version == version,
            r.api_url@ == spec_vat_payer_url(self.base_url@, version),
    {
        let mut url = self.base_url;
        url.append("/PlatitorTvaRest/api/");
        url.append(version.segment());
        url.append("/ws/tva");
        proof {
            assert(url@ =~= spec_vat_payer_url(self.base_url@, version));
        }
        VatPayerApi { version, api_url: url }
    }

    /// Initiates the asynchronous VAT-payer endpoint driver.
    pub fn async_vat_payer(self, version: VatPayerApiVersion) -> (r: VatPayerAsyncApi)
        ensures
            r.version == version,
            r.api_url@ == spec_async_vat_payer_url(self.base_url@, version),
    {
        let mut url = self.base_url;
        url.append("/AsynchWebService/api/");
        url.append(version.segment());
        url.append("/ws/tva");
        proof {
            assert(url@ =~= spec_async_vat_payer_url(self.base_url@, version));
        }
        VatPayerAsyncApi { version, api_url: url }
    }

    /// Initiates the Cult endpoint driver.
    pub fn cult(self, version: CultApiVersion) -> (r: CultApi)
        ensures
            r.version == version,
            r.api_url@ == spec_cult_url(self.base_url@, version),
    {
        let mut url = self.base_url;
        url.append("/RegCult/api/");
        url.append(version.segment());
        url.append("/ws/cult");
        proof {
            assert(url@ =~= spec_cult_url(self.base_url@, version));
        }
        CultApi { version, api_url: url }
    }

    /// Initiates the Farmer endpoint driver.
    pub fn farmer(self, version: FarmerApiVersion) -> (r: FarmerApi)
        ensures
            r.version == version,
            r.api_url@ == spec_farmer_url(self.base_url@, version),
    {
        let mut url = self.base_url;
        url.append("/RegAgric/api/");
        url.append(version.segment());
        url.append("/ws/agric");
        proof {
            assert(url@ =~= spec_farmer_url(self.base_url@, version));
        }
        FarmerApi { version, api_url: url }
    }

    /// Initiates the Balance endpoint driver.
    pub fn balance(self, version: BalanceApiVersion) -> (r: BalanceApi)
        ensures
            r.version == version,
            r.api_url@ == spec_balance_url(self.base_url@),
    {
        let mut url = self.base_url;
        url.append("/bilant");
        proof {
            assert(url@ =~= spec_balance_url(self.base_url@));
        }
        BalanceApi { version, api_url: url }
    }
}

} // verus!
