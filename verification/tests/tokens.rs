use fred_rs::series::AggregationMethod;
use fred_rs::series::ObservationFrequency;
use fred_rs::series::ObservationUnits;
use fred_rs::series::OutputType;
use fred_rs::series::SortOrder;

#[test]
fn units_tokens_are_canonical() {
    let table = [
        (ObservationUnits::LIN, "lin"),
        (ObservationUnits::CHG, "chg"),
        (ObservationUnits::CH1, "ch1"),
        (ObservationUnits::PCH, "pch"),
        (ObservationUnits::PC1, "pc1"),
        (ObservationUnits::PCA, "pca"),
        (ObservationUnits::CCH, "cch"),
        (ObservationUnits::CCA, "cca"),
        (ObservationUnits::LOG, "log"),
    ];
    for (member, token) in table {
        assert_eq!(member.token(), token);
        assert!(!member.token().is_empty());
    }
}

#[test]
fn frequency_tokens_are_canonical() {
    let table = [
        (ObservationFrequency::D, "d"),
        (ObservationFrequency::W, "w"),
        (ObservationFrequency::BW, "bw"),
        (ObservationFrequency::M, "m"),
        (ObservationFrequency::Q, "q"),
        (ObservationFrequency::SA, "sa"),
        (ObservationFrequency::A, "a"),
        (ObservationFrequency::WEF, "wef"),
        (ObservationFrequency::WETH, "weth"),
        (ObservationFrequency::WEW, "wew"),
        (ObservationFrequency::WETU, "wetu"),
        (ObservationFrequency::WEM, "wem"),
        (ObservationFrequency::WESU, "wesu"),
        (ObservationFrequency::WESA, "wesa"),
        (ObservationFrequency::BWEW, "bwew"),
        (ObservationFrequency::BWEM, "bwem"),
    ];
    for (member, token) in table {
        assert_eq!(member.token(), token);
        assert!(!member.token().is_empty());
    }
}

#[test]
fn sort_order_tokens_are_canonical() {
    assert_eq!(SortOrder::Ascending.token(), "asc");
    assert_eq!(SortOrder::Descending.token(), "desc");
}

#[test]
fn aggregation_method_tokens_are_canonical() {
    assert_eq!(AggregationMethod::Average.token(), "avg");
    assert_eq!(AggregationMethod::Sum.token(), "sum");
    assert_eq!(AggregationMethod::EndOfPeriod.token(), "eop");
}

#[test]
fn output_type_tokens_are_canonical() {
    assert_eq!(OutputType::RealtimePeriod.token(), "1");
    assert_eq!(OutputType::VintageDateAll.token(), "2");
    assert_eq!(OutputType::VintageDateNew.token(), "3");
    assert_eq!(OutputType::InitialReleaseOnly.token(), "4");
}
