use fred_rs::client::series_observation_outcome;
use fred_rs::decode::decode_observation_response;
use fred_rs::error::ClientError;

#[test]
fn two_observations_decode_in_order() {
    let body = "{\"observations\":[\
        {\"date\":\"1929-01-01\",\"value\":\"1120.076\"},\
        {\"date\":\"1930-01-01\",\"value\":\"1070.213\"}]}";
    let resp = decode_observation_response(body).unwrap();
    assert_eq!(resp.observations.len(), 2);
    assert_eq!(resp.observations[0].date, "1929-01-01");
    assert_eq!(resp.observations[0].value, "1120.076");
    assert_eq!(resp.observations[1].date, "1930-01-01");
    assert_eq!(resp.observations[1].value, "1070.213");
    assert!(resp.count.is_none());
    assert!(resp.realtime_start.is_none());
}

#[test]
fn full_envelope_decodes() {
    let body = "{\"realtime_start\":\"2024-01-01\",\"realtime_end\":\"2024-01-01\",\
        \"observation_start\":\"1776-07-04\",\"observation_end\":\"9999-12-31\",\
        \"units\":\"lin\",\"output_type\":1,\"file_type\":\"json\",\
        \"order_by\":\"observation_date\",\"sort_order\":\"asc\",\
        \"count\":1,\"offset\":0,\"limit\":100000,\
        \"observations\":[{\"realtime_start\":\"2024-01-01\",\
        \"realtime_end\":\"2024-01-01\",\"date\":\"1929-01-01\",\
        \"value\":\".\"}]}";
    let resp = decode_observation_response(body).unwrap();
    assert_eq!(resp.realtime_start.as_deref(), Some("2024-01-01"));
    assert_eq!(resp.units.as_deref(), Some("lin"));
    assert_eq!(resp.output_type, Some(1));
    assert_eq!(resp.count, Some(1));
    assert_eq!(resp.offset, Some(0));
    assert_eq!(resp.limit, Some(100000));
    assert_eq!(resp.observations.len(), 1);
    assert_eq!(resp.observations[0].realtime_start.as_deref(), Some("2024-01-01"));
    assert_eq!(resp.observations[0].value, ".");
}

#[test]
fn sentinel_value_stays_a_string() {
    let body = "{\"observations\":[{\"date\":\"1929-01-01\",\"value\":\".\"}]}";
    let resp = decode_observation_response(body).unwrap();
    assert_eq!(resp.observations[0].value, ".");
}

#[test]
fn empty_observation_array_decodes() {
    let body = "{\"observations\":[]}";
    let resp = decode_observation_response(body).unwrap();
    assert!(resp.observations.is_empty());
}

#[test]
fn invalid_json_yields_decode_error() {
    let result = decode_observation_response("not json at all {");
    assert!(matches!(result, Err(ClientError::DecodeError(_))));
}

#[test]
fn missing_observations_member_yields_decode_error() {
    let result = decode_observation_response("{\"count\":1}");
    assert!(matches!(result, Err(ClientError::DecodeError(_))));
}

#[test]
fn non_array_observations_yields_decode_error() {
    let result = decode_observation_response("{\"observations\":7}");
    assert!(matches!(result, Err(ClientError::DecodeError(_))));
}

#[test]
fn observation_missing_value_yields_decode_error() {
    let body = "{\"observations\":[{\"date\":\"1929-01-01\"}]}";
    let result = decode_observation_response(body);
    assert!(matches!(result, Err(ClientError::DecodeError(_))));
}

#[test]
fn observation_with_numeric_value_yields_decode_error() {
    let body = "{\"observations\":[{\"date\":\"1929-01-01\",\"value\":7}]}";
    let result = decode_observation_response(body);
    assert!(matches!(result, Err(ClientError::DecodeError(_))));
}

#[test]
fn mistyped_metadata_yields_decode_error() {
    let body = "{\"count\":\"one\",\"observations\":[]}";
    let result = decode_observation_response(body);
    assert!(matches!(result, Err(ClientError::DecodeError(_))));
}

#[test]
fn top_level_array_yields_decode_error() {
    let result = decode_observation_response("[1,2,3]");
    assert!(matches!(result, Err(ClientError::DecodeError(_))));
}

#[test]
fn decoded_body_round_trips_through_outcome() {
    let body = "{\"observations\":[{\"date\":\"1929-01-01\",\"value\":\"1120.076\"}]}";
    let resp = series_observation_outcome(Ok(body.to_string())).unwrap();
    assert_eq!(resp.observations[0].value, "1120.076");
}
