use anaf::AnafClient;
use anaf::BalanceApiVersion;
use anaf::BalanceRequest;
use anaf::CultApiVersion;
use anaf::FarmerApiVersion;
use anaf::VatPayerApiVersion;
use anaf::VatPayerAsyncToken;

fn client() -> AnafClient {
    AnafClient::new()
}

#[test]
fn default_base_url() {
    assert_eq!(client().base_url, "https://webservicesp.anaf.ro");
}

#[test]
fn vat_payer_urls() {
    let api = client().vat_payer(VatPayerApiVersion::V8);
    assert_eq!(api.api_url, "https://webservicesp.anaf.ro/PlatitorTvaRest/api/v8/ws/tva");
    let api = client().vat_payer(VatPayerApiVersion::V7);
    assert_eq!(api.api_url, "https://webservicesp.anaf.ro/PlatitorTvaRest/api/v7/ws/tva");
}

#[test]
fn async_vat_payer_url_and_polling() {
    let api = client().async_vat_payer(VatPayerApiVersion::V8);
    assert_eq!(api.api_url, "https://webservicesp.anaf.ro/AsynchWebService/api/v8/ws/tva");
    let token = VatPayerAsyncToken { id: "abc123".to_owned() };
    assert_eq!(
        api.fetch_url(&token),
        "https://webservicesp.anaf.ro/AsynchWebService/api/v8/ws/tva?id=abc123"
    );
}

#[test]
fn cult_url() {
    let api = client().cult(CultApiVersion::V2);
    assert_eq!(api.api_url, "https://webservicesp.anaf.ro/RegCult/api/v2/ws/cult");
}

#[test]
fn farmer_url() {
    let api = client().farmer(FarmerApiVersion::V2);
    assert_eq!(api.api_url, "https://webservicesp.anaf.ro/RegAgric/api/v2/ws/agric");
}

#[test]
fn balance_url_carries_the_query() {
    let api = client().balance(BalanceApiVersion::V1);
    assert_eq!(api.api_url, "https://webservicesp.anaf.ro/bilant");
    let request = BalanceRequest::new(40914732, 2022);
    assert_eq!(
        api.request_url(&request),
        "https://webservicesp.anaf.ro/bilant?cui=40914732&an=2022"
    );
}

#[test]
fn latest_versions() {
    assert_eq!(VatPayerApiVersion::latest(), VatPayerApiVersion::V8);
    assert_eq!(VatPayerApiVersion::default(), VatPayerApiVersion::V8);
    assert_eq!(BalanceApiVersion::latest(), BalanceApiVersion::V1);
    assert_eq!(CultApiVersion::default().segment(), "v2");
    assert_eq!(FarmerApiVersion::default().segment(), "v2");
}

#[test]
fn decimal_rendering() {
    assert_eq!(anaf::render_dec(0), "0");
    assert_eq!(anaf::render_dec(7), "7");
    assert_eq!(anaf::render_dec(46), "46");
    assert_eq!(anaf::render_dec(40914732), "40914732");
    assert_eq!(anaf::render_dec(usize::MAX), usize::MAX.to_string());
}
