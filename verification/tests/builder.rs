use fred_rs::encode::percent_encode;
use fred_rs::series::ObservationBuilder;
use fred_rs::series::ObservationFrequency;
use fred_rs::series::ObservationUnits;
use fred_rs::series::SortOrder;
use fred_rs::series::AggregationMethod;
use fred_rs::series::OutputType;

#[test]
fn empty_builder_renders_empty() {
    let b = ObservationBuilder::new();
    assert_eq!(b.options(), "");
}

#[test]
fn empty_fragment_leaves_url_well_formed() {
    let b = ObservationBuilder::new();
    let mut url = String::from("https://api.stlouisfed.org/fred/series/observations?series_id=GNPCA&api_key=k&file_type=json");
    let before = url.clone();
    url.push_str(b.options().as_str());
    assert_eq!(url, before);
    assert!(!url.ends_with('&'));
}

#[test]
fn render_is_pure() {
    let b = ObservationBuilder::new()
        .observation_start("2000-01-01")
        .units(ObservationUnits::PCH);
    let first = b.options();
    let second = b.options();
    assert_eq!(first, second);
    assert_eq!(first.as_bytes(), second.as_bytes());
}

#[test]
fn last_write_wins() {
    let b = ObservationBuilder::new()
        .observation_start("2000-01-01")
        .observation_start("2001-02-03");
    let fragment = b.options();
    assert_eq!(fragment, "&observation_start=2001-02-03");
    assert_eq!(fragment.matches("observation_start").count(), 1);
}

#[test]
fn last_write_wins_for_enums() {
    let b = ObservationBuilder::new()
        .units(ObservationUnits::LIN)
        .units(ObservationUnits::PCH);
    assert_eq!(b.options(), "&units=pch");
}

#[test]
fn fragment_has_each_pair_once_independent_of_call_order() {
    let first = ObservationBuilder::new()
        .observation_start("2000-01-01")
        .units(ObservationUnits::PCH)
        .frequency(ObservationFrequency::M)
        .options();
    let second = ObservationBuilder::new()
        .frequency(ObservationFrequency::M)
        .units(ObservationUnits::PCH)
        .observation_start("2000-01-01")
        .options();
    assert_eq!(first, "&observation_start=2000-01-01&units=pch&frequency=m");
    assert_eq!(second, first);
    assert_eq!(first.matches("observation_start=2000-01-01").count(), 1);
    assert_eq!(first.matches("units=pch").count(), 1);
    assert_eq!(first.matches("frequency=m").count(), 1);
}

#[test]
fn all_options_render_in_declaration_order() {
    let fragment = ObservationBuilder::new()
        .vintage_dates("2001-01-01,2002-01-01")
        .offset(20)
        .limit(100)
        .output_type(OutputType::RealtimePeriod)
        .aggregation_method(AggregationMethod::EndOfPeriod)
        .frequency(ObservationFrequency::Q)
        .units(ObservationUnits::LIN)
        .observation_end("2010-12-31")
        .observation_start("2000-01-01")
        .sort_order(SortOrder::Descending)
        .realtime_end("2024-01-02")
        .realtime_start("2024-01-01")
        .options();
    assert_eq!(
        fragment,
        "&realtime_start=2024-01-01&realtime_end=2024-01-02&limit=100&offset=20\
         &sort_order=desc\
         &observation_start=2000-01-01&observation_end=2010-12-31&units=lin\
         &frequency=q&aggregation_method=eop&output_type=1\
         &vintage_dates=2001-01-01%2C2002-01-01"
    );
}

#[test]
fn free_form_values_are_percent_encoded() {
    let fragment = ObservationBuilder::new()
        .observation_start("2000 01:01")
        .options();
    assert_eq!(fragment, "&observation_start=2000%2001%3A01");
}

#[test]
fn unreserved_characters_pass_through() {
    let fragment = ObservationBuilder::new()
        .vintage_dates("Az09-._~")
        .options();
    assert_eq!(fragment, "&vintage_dates=Az09-._~");
}

#[test]
fn multibyte_characters_are_encoded_per_utf8_byte() {
    let fragment = ObservationBuilder::new()
        .vintage_dates("caf\u{e9}")
        .options();
    assert_eq!(fragment, "&vintage_dates=caf%C3%A9");
}

#[test]
fn counts_render_in_decimal() {
    assert_eq!(ObservationBuilder::new().limit(0).options(), "&limit=0");
    assert_eq!(ObservationBuilder::new().limit(7).options(), "&limit=7");
    assert_eq!(ObservationBuilder::new().offset(105).options(), "&offset=105");
    assert_eq!(
        ObservationBuilder::new().limit(u64::MAX).options(),
        "&limit=18446744073709551615"
    );
}

#[test]
fn percent_encode_matches_documented_escapes() {
    assert_eq!(percent_encode(""), "");
    assert_eq!(percent_encode("2000-01-01"), "2000-01-01");
    assert_eq!(percent_encode("a b&c=d"), "a%20b%26c%3Dd");
    assert_eq!(percent_encode("100%"), "100%25");
}
