use fred_rs::client::FredClient;
use fred_rs::client::base_url;
use fred_rs::client::series_observation_outcome;
use fred_rs::error::ClientError;
use fred_rs::series::ObservationBuilder;
use fred_rs::series::ObservationFrequency;
use fred_rs::series::ObservationUnits;

#[test]
fn missing_credential_yields_configuration_error() {
    let result = FredClient::new(None);
    assert!(matches!(result, Err(ClientError::ConfigurationError)));
}

#[test]
fn present_credential_yields_client() {
    let client = FredClient::new(Some("abc123".to_string())).unwrap();
    assert_eq!(client.api_key, "abc123");
    assert_eq!(client.url_base, base_url());
}

#[test]
fn probe_url_is_the_category_lookup() {
    let client = FredClient::new(Some("abc123".to_string())).unwrap();
    assert_eq!(
        client.probe_url(),
        "https://api.stlouisfed.org/fred/category?category_id=125&api_key=abc123&file_type=json"
    );
}

#[test]
fn observation_url_without_options() {
    let client = FredClient::new(Some("abc123".to_string())).unwrap();
    assert_eq!(
        client.observation_url("GNPCA", None),
        "https://api.stlouisfed.org/fred/series/observations?\
         series_id=GNPCA&api_key=abc123&file_type=json"
    );
}

#[test]
fn observation_url_appends_rendered_fragment() {
    let client = FredClient::new(Some("abc123".to_string())).unwrap();
    let builder = ObservationBuilder::new()
        .observation_start("2000-01-01")
        .units(ObservationUnits::PCH)
        .frequency(ObservationFrequency::M);
    let url = client.observation_url("UNRATE", Some(&builder));
    assert_eq!(
        url,
        "https://api.stlouisfed.org/fred/series/observations?\
         series_id=UNRATE&api_key=abc123&file_type=json\
         &observation_start=2000-01-01&units=pch&frequency=m"
    );
    assert_eq!(url.matches("observation_start=2000-01-01").count(), 1);
    assert_eq!(url.matches("units=pch").count(), 1);
    assert_eq!(url.matches("frequency=m").count(), 1);
}

#[test]
fn transport_failure_yields_transport_error() {
    let result = series_observation_outcome(Err("connection refused".to_string()));
    match result {
        Err(ClientError::TransportError(cause)) => {
            assert_eq!(cause, "connection refused");
        },
        _ => panic!("expected a transport error"),
    }
}

#[test]
fn error_messages_name_the_kind_and_cause() {
    assert_eq!(
        ClientError::ConfigurationError.message(),
        "configuration error: FRED_API_KEY not found."
    );
    assert_eq!(
        ClientError::TransportInitError("bad timeout".to_string()).message(),
        "transport initialization error: bad timeout"
    );
    assert_eq!(
        ClientError::TransportError("timed out".to_string()).message(),
        "transport error: timed out"
    );
    assert_eq!(
        ClientError::DecodeError("bad body".to_string()).message(),
        "decode error: bad body"
    );
}
