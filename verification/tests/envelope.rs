use anaf::ApiResponse;
use anaf::Date;
use anaf::VatPayerResponseItem;

// The JSON codec is an external collaborator: the conversion below mirrors
// what the I/O layer does with a decoded body before handing plain values to
// the library.
fn parse_envelope(body: &str) -> Result<ApiResponse<VatPayerResponseItem>, String> {
    let value: serde_json::Value = serde_json::from_str(body).map_err(|e| e.to_string())?;
    let status = value
        .get("cod")
        .and_then(|v| v.as_u64())
        .ok_or_else(|| "missing cod".to_owned())? as usize;
    let message = value
        .get("message")
        .and_then(|v| v.as_str())
        .ok_or_else(|| "missing message".to_owned())?
        .to_owned();
    let found = value
        .get("found")
        .and_then(|v| v.as_array())
        .ok_or_else(|| "missing found".to_owned())?;
    if !found.is_empty() {
        return Err("non-empty found list not modeled here".to_owned());
    }
    let not_found = value
        .get("notFound")
        .and_then(|v| v.as_array())
        .ok_or_else(|| "missing notFound".to_owned())?
        .iter()
        .map(|v| v.as_u64().map(|n| n as usize).ok_or_else(|| "bad notFound".to_owned()))
        .collect::<Result<Vec<usize>, String>>()?;
    Ok(ApiResponse { status, message, data: Vec::new(), not_found })
}

#[test]
fn envelope_parse() {
    let envelope = parse_envelope("{\"cod\":200,\"message\":\"\",\"found\":[],\"notFound\":[]}")
        .unwrap();
    assert_eq!(envelope.status, 200);
    assert_eq!(envelope.message, "");
    assert!(envelope.data.is_empty());
    assert!(envelope.not_found.is_empty());
}

#[test]
fn envelope_parse_with_not_found() {
    let envelope =
        parse_envelope("{\"cod\":200,\"message\":\"ok\",\"found\":[],\"notFound\":[123,456]}")
            .unwrap();
    assert_eq!(envelope.status, 200);
    assert_eq!(envelope.message, "ok");
    assert_eq!(envelope.not_found, vec![123, 456]);
}

#[test]
fn dates_render_iso8601_zero_padded() {
    assert_eq!(Date::new(2022, 1, 2).unwrap().iso8601(), "2022-01-02");
    assert_eq!(Date::new(999, 12, 31).unwrap().iso8601(), "0999-12-31");
    assert_eq!(Date::new(2024, 5, 17).unwrap().iso8601(), "2024-05-17");
}

#[test]
fn date_validity_follows_the_calendar() {
    assert!(Date::new(2024, 2, 29).is_some());
    assert!(Date::new(2023, 2, 29).is_none());
    assert!(Date::new(2000, 2, 29).is_some());
    assert!(Date::new(1900, 2, 29).is_none());
    assert!(Date::new(2022, 4, 31).is_none());
    assert!(Date::new(2022, 13, 1).is_none());
    assert!(Date::new(2022, 0, 1).is_none());
    assert!(Date::new(2022, 1, 0).is_none());
    assert!(Date::new(10000, 1, 1).is_none());
    assert!(Date::new(9999, 12, 31).is_some());
}
