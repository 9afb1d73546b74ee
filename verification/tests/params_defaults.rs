//! The customary default configurations of the indicator catalogue.

use mesa_filters::fixed::Fx;
use mesa_filters::indicators::apo::ApoParams;
use mesa_filters::moving_averages::ehlers_itrend::EhlersITrendParams;
use mesa_filters::moving_averages::mama::MamaParams;
use mesa_filters::moving_averages::swma::SwmaParams;
use mesa_filters::moving_averages::trendflex::TrendFlexParams;
use mesa_filters::moving_averages::trima::TrimaParams;

#[test]
fn test_apo_params_with_default_params() {
    let default_params = ApoParams::default();
    assert_eq!(default_params.short_period, Some(10));
    assert_eq!(default_params.long_period, Some(20));
}

#[test]
fn test_ehlers_itrend_with_default_params() {
    let default_params = EhlersITrendParams::default();
    assert_eq!(
        default_params.warmup_bars,
        Some(12),
        "Expected default warmup_bars to be 12"
    );
    assert_eq!(
        default_params.max_dc_period,
        Some(50),
        "Expected default max_dc_period to be 50"
    );
}

#[test]
fn test_swma_params_with_default_params() {
    let default_params = SwmaParams::default();
    assert_eq!(default_params.period, Some(5));
}

#[test]
fn test_trendflex_params_with_default_params() {
    let params = TrendFlexParams::default();
    assert_eq!(params.period, Some(20));
}

#[test]
fn test_trima_params_with_default_params() {
    let default_params = TrimaParams::default();
    assert_eq!(default_params.period, Some(14));
}

#[test]
fn test_mama_params_with_default_params() {
    let default_params = MamaParams::with_default_params();
    assert_eq!(
        default_params.fast_limit,
        Some(Fx::from_bits(0.5f64.to_bits()).unwrap())
    );
    assert_eq!(
        default_params.slow_limit,
        Some(Fx::from_bits(0.05f64.to_bits()).unwrap())
    );
}

#[test]
fn test_more_catalogue_defaults() {
    assert_eq!(
        mesa_filters::indicators::adosc::AdoscParams::default().short_period,
        Some(3)
    );
    assert_eq!(
        mesa_filters::indicators::adx::AdxParams::default().period,
        Some(14)
    );
    assert_eq!(
        mesa_filters::indicators::alligator::AlligatorParams::default().jaw_period,
        Some(13)
    );
    assert_eq!(
        mesa_filters::indicators::ao::AoParams::default().long_period,
        Some(34)
    );
    assert_eq!(
        mesa_filters::indicators::dema::DemaParams::default().period,
        Some(30)
    );
    assert_eq!(
        mesa_filters::indicators::donchian::DonchianParams::default().period,
        Some(20)
    );
    assert_eq!(
        mesa_filters::indicators::highpass::HighPassParams::default().period,
        Some(48)
    );
    assert_eq!(
        mesa_filters::indicators::tema::TemaParams::default().period,
        Some(9)
    );
    assert_eq!(
        mesa_filters::indicators::trima::TrimaParams::default().period,
        Some(14)
    );
    assert_eq!(
        mesa_filters::indicators::wilders::WildersParams::default().period,
        Some(5)
    );
    assert_eq!(
        mesa_filters::indicators::wma::WmaParams::default().period,
        Some(30)
    );
    assert_eq!(
        mesa_filters::moving_averages::cwma::CwmaParams::default().period,
        Some(14)
    );
    assert_eq!(
        mesa_filters::moving_averages::vwma::VwmaParams::default().period,
        Some(20)
    );
}
