use anaf::accept_decoded;
use anaf::classify_status;
use anaf::validate_request;
use anaf::ApiError;
use anaf::ApiRequest;
use anaf::ApiResponse;
use anaf::Date;
use anaf::DecodeError;
use anaf::VatPayerResponseItem;

fn requests(n: usize) -> Vec<ApiRequest> {
    let when = Date::new(2024, 5, 17).unwrap();
    (0..n).map(|i| ApiRequest::new(111111111 + i, when)).collect()
}

#[test]
fn empty_request_is_invalid() {
    let err = validate_request(&requests(0)).unwrap_err();
    assert!(matches!(err, ApiError::InvalidRequestError(0)));
}

#[test]
fn request_of_500_is_invalid() {
    let err = validate_request(&requests(500)).unwrap_err();
    assert!(matches!(err, ApiError::InvalidRequestError(500)));
}

#[test]
fn oversize_request_reports_its_length() {
    let err = validate_request(&requests(731)).unwrap_err();
    assert!(matches!(err, ApiError::InvalidRequestError(731)));
}

#[test]
fn requests_within_bounds_are_valid() {
    assert!(validate_request(&requests(1)).is_ok());
    assert!(validate_request(&requests(499)).is_ok());
}

#[test]
fn status_200_passes_the_body_on() {
    let r = classify_status(200, "{\"cod\":200}".to_owned()).unwrap();
    assert_eq!(r, "{\"cod\":200}");
}

#[test]
fn status_503_is_maintenance() {
    let err = classify_status(503, "<html>down</html>".to_owned()).unwrap_err();
    assert!(matches!(err, ApiError::ServiceUnavailable));
}

#[test]
fn other_statuses_surface_the_body() {
    for status in [400u16, 404, 418, 500, 502] {
        let err = classify_status(status, format!("body {}", status)).unwrap_err();
        assert!(matches!(err, ApiError::ApiError(body) if body == format!("body {}", status)));
    }
}

#[test]
fn decoded_values_pass_through() {
    let envelope: ApiResponse<VatPayerResponseItem> = ApiResponse {
        status: 200,
        message: String::new(),
        data: Vec::new(),
        not_found: vec![123],
    };
    let out = accept_decoded::<ApiResponse<VatPayerResponseItem>>(Ok(envelope)).unwrap();
    assert_eq!(out.status, 200);
    assert_eq!(out.not_found, vec![123]);
}

#[test]
fn codec_failures_become_parse_errors() {
    let out = accept_decoded::<ApiResponse<VatPayerResponseItem>>(Err(
        "expected value at line 1".to_owned(),
    ));
    assert!(matches!(
        out.unwrap_err(),
        ApiError::ParseError(DecodeError::Json(m)) if m == "expected value at line 1"
    ));
}

#[test]
fn api_handles_200() {
    // The driver-side half of the exchange: a mocked POST to the resolved
    // endpoint answering 200 with a valid body yields the decoded envelope.
    let version = anaf::VatPayerApiVersion::V8;
    let endpoint = format!("/PlatitorTvaRest/api/{}/ws/tva", version.segment());
    let api_url = format!("{}{}", "http://127.0.0.1:18200", endpoint);
    let api = anaf::VatPayerApi::new(version, &api_url);
    assert_eq!(api.api_url, api_url);

    let request = vec![ApiRequest::new(111111111, Date::new(2024, 5, 17).unwrap())];
    assert!(validate_request(&request).is_ok());

    let body = "{\"cod\":200,\"message\":\"\",\"data\":[],\"not_found\":[]}".to_owned();
    let passed = classify_status(200, body.clone()).unwrap();
    assert_eq!(passed, body);
    let decoded: Result<ApiResponse<VatPayerResponseItem>, String> = Ok(ApiResponse {
        status: 200,
        message: String::new(),
        data: Vec::new(),
        not_found: Vec::new(),
    });
    let response = accept_decoded(decoded);
    assert!(response.is_ok());
}

#[test]
fn api_handles_503() {
    // The driver-side half of the exchange: a mocked POST answering 503 with
    // an HTML body is the maintenance signal.
    let version = anaf::VatPayerApiVersion::V8;
    let endpoint = format!("/PlatitorTvaRest/api/{}/ws/tva", version.segment());
    let api_url = format!("{}{}", "http://127.0.0.1:18503", endpoint);
    let api = anaf::VatPayerApi::new(version, &api_url);
    assert_eq!(api.version, version);

    let request = vec![ApiRequest::new(111111111, Date::new(2024, 5, 17).unwrap())];
    assert!(validate_request(&request).is_ok());

    let response = classify_status(503, "<html></html>".to_owned());
    assert!(response.is_err());
    assert!(matches!(response.unwrap_err(), ApiError::ServiceUnavailable));
}
