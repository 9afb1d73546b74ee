//! Behaviour of the adaptive average pair and the instantaneous
//! trendline: determinism, length invariance, constant-input
//! stability, and the rejection of short inputs and bad limits.

use mesa_filters::fixed::Fx;
use mesa_filters::moving_averages::ehlers_itrend::{
    ehlers_itrend, EhlersITrendError, EhlersITrendInput, EhlersITrendParams,
};
use mesa_filters::moving_averages::mama::{
    calculate_mama_fama, mama, MamaError, MamaInput, MamaParams,
};

fn fx(x: f64) -> Fx {
    Fx::from_bits(x.to_bits()).unwrap()
}

fn fx_series(xs: &[f64]) -> Vec<Fx> {
    xs.iter().map(|&x| fx(x)).collect()
}

fn wavy_series(n: usize) -> Vec<Fx> {
    // A deterministic, non-constant price path.
    let mut out = Vec::new();
    let mut level: f64 = 100.0;
    for i in 0..n {
        let step = ((i * 37 + 11) % 23) as f64 - 11.0;
        level += step * 0.75;
        out.push(fx(level));
    }
    out
}

#[test]
fn test_mama_with_insufficient_data() {
    let input_data = fx_series(&[100.0; 9]);
    let params = MamaParams {
        fast_limit: Some(fx(0.5)),
        slow_limit: Some(fx(0.05)),
    };
    let input = MamaInput::from_slice(&input_data, params);
    let result = mama(&input);
    assert!(result.is_err());
    assert!(matches!(
        result,
        Err(MamaError::NotEnoughData {
            needed: 10,
            found: 9
        })
    ));
}

#[test]
fn test_mama_very_small_data_set() {
    let input_data = fx_series(&[42.0; 10]);
    let params = MamaParams::with_default_params();
    let input = MamaInput::from_slice(&input_data, params);
    let result = mama(&input).expect("Should handle minimal data length");
    assert_eq!(result.mama_values.len(), input_data.len());
    assert_eq!(result.fama_values.len(), input_data.len());
}

#[test]
fn test_mama_determinism() {
    let data = wavy_series(64);
    let first = mama(&MamaInput::from_slice(&data, MamaParams::with_default_params()))
        .expect("first call failed");
    let second = mama(&MamaInput::from_slice(&data, MamaParams::with_default_params()))
        .expect("second call failed");
    assert_eq!(first.mama_values, second.mama_values);
    assert_eq!(first.fama_values, second.fama_values);
}

#[test]
fn test_mama_length_invariance() {
    let data = wavy_series(57);
    let out = mama(&MamaInput::from_slice(&data, MamaParams::with_default_params()))
        .expect("mama failed");
    assert_eq!(out.mama_values.len(), 57);
    assert_eq!(out.fama_values.len(), 57);
}

#[test]
fn test_mama_first_value_is_first_price() {
    // Both averages start from the first price exactly.
    let data = wavy_series(24);
    let out = mama(&MamaInput::from_slice(&data, MamaParams::with_default_params()))
        .expect("mama failed");
    assert_eq!(out.mama_values[0], data[0]);
    assert_eq!(out.fama_values[0], data[0]);
}

#[test]
fn test_mama_constant_input_stability() {
    let data = fx_series(&[42.0; 40]);
    let out = mama(&MamaInput::from_slice(&data, MamaParams::with_default_params()))
        .expect("mama failed");
    for i in 0..40 {
        assert_eq!(out.mama_values[i], fx(42.0), "mama diverged at {}", i);
        assert_eq!(out.fama_values[i], fx(42.0), "fama diverged at {}", i);
    }
}

#[test]
fn test_mama_rejects_zero_fast_limit() {
    let data = fx_series(&[100.0; 16]);
    let params = MamaParams {
        fast_limit: Some(fx(0.0)),
        slow_limit: Some(fx(0.05)),
    };
    let result = mama(&MamaInput::from_slice(&data, params));
    assert!(matches!(result, Err(MamaError::InvalidFastLimit { .. })));
}

#[test]
fn test_mama_rejects_nan_fast_limit_at_conversion() {
    // A NaN cannot enter the fixed-point domain at all: the
    // conversion that guards the library boundary refuses it.
    assert!(Fx::from_bits(f64::NAN.to_bits()).is_none());
    assert!(Fx::from_bits(f64::INFINITY.to_bits()).is_none());
    assert!(Fx::from_bits(f64::NEG_INFINITY.to_bits()).is_none());
}

#[test]
fn test_mama_rejects_zero_slow_limit() {
    let data = fx_series(&[100.0; 16]);
    let params = MamaParams {
        fast_limit: Some(fx(0.5)),
        slow_limit: Some(fx(0.0)),
    };
    let result = mama(&MamaInput::from_slice(&data, params));
    assert!(matches!(result, Err(MamaError::InvalidSlowLimit { .. })));
}

#[test]
fn test_mama_rejects_fast_limit_above_one() {
    // The adaptive coefficient is a smoothing weight, so a limit
    // beyond one is refused as invalid.
    let data = fx_series(&[100.0; 16]);
    let params = MamaParams {
        fast_limit: Some(fx(2.0)),
        slow_limit: Some(fx(0.05)),
    };
    let result = mama(&MamaInput::from_slice(&data, params));
    assert!(matches!(result, Err(MamaError::InvalidFastLimit { .. })));
}

#[test]
fn test_calculate_mama_fama_matches_mama() {
    let data = wavy_series(48);
    let out = mama(&MamaInput::from_slice(&data, MamaParams::with_default_params()))
        .expect("mama failed");
    let pair = calculate_mama_fama(&data, fx(0.5), fx(0.05)).expect("pair failed");
    assert_eq!(pair.0, out.mama_values);
    assert_eq!(pair.1, out.fama_values);
}

#[test]
fn test_ehlers_itrend_with_no_data() {
    let data: Vec<Fx> = Vec::new();
    let input = EhlersITrendInput::from_slice(
        &data,
        EhlersITrendParams {
            warmup_bars: Some(12),
            max_dc_period: Some(50),
        },
    );
    let result = ehlers_itrend(&input);
    assert!(result.is_err(), "Should error out on empty data");
    assert!(matches!(result, Err(EhlersITrendError::EmptyInputData)));
}

#[test]
fn test_ehlers_itrend_small_data_for_warmup() {
    let data = fx_series(&[42.0; 5]);
    let input = EhlersITrendInput::from_slice(
        &data,
        EhlersITrendParams {
            warmup_bars: Some(12),
            max_dc_period: Some(50),
        },
    );
    let result = ehlers_itrend(&input);
    assert!(
        result.is_err(),
        "Should error if warmup_bars >= data length"
    );
    assert!(matches!(
        result,
        Err(EhlersITrendError::NotEnoughDataForWarmup {
            warmup_bars: 12,
            length: 5
        })
    ));
}

#[test]
fn test_ehlers_itrend_very_small_data_set() {
    let data = fx_series(&[42.0]);
    let input = EhlersITrendInput::from_slice(
        &data,
        EhlersITrendParams {
            warmup_bars: Some(0),
            max_dc_period: Some(50),
        },
    );
    let result = ehlers_itrend(&input).expect("Trendline failed for very small data set");
    assert_eq!(result.values.len(), data.len(), "Result length mismatch");
}

#[test]
fn test_ehlers_itrend_length_invariance() {
    let data = wavy_series(70);
    let out = ehlers_itrend(&EhlersITrendInput::from_slice(
        &data,
        EhlersITrendParams::default(),
    ))
    .expect("trendline failed");
    assert_eq!(out.values.len(), 70);
}

#[test]
fn test_ehlers_itrend_determinism() {
    let data = wavy_series(70);
    let first = ehlers_itrend(&EhlersITrendInput::from_slice(
        &data,
        EhlersITrendParams::default(),
    ))
    .expect("first call failed");
    let second = ehlers_itrend(&EhlersITrendInput::from_slice(
        &data,
        EhlersITrendParams::default(),
    ))
    .expect("second call failed");
    assert_eq!(first.values, second.values);
}

#[test]
fn test_ehlers_itrend_constant_input_stability() {
    let data = fx_series(&[42.0; 30]);
    let out = ehlers_itrend(&EhlersITrendInput::from_slice(
        &data,
        EhlersITrendParams::default(),
    ))
    .expect("trendline failed");
    for i in 0..30 {
        assert_eq!(out.values[i], fx(42.0), "trendline diverged at {}", i);
    }
}

#[test]
fn test_ehlers_itrend_warmup_passthrough() {
    // During warm-up the raw price is handed through unchanged.
    let data = wavy_series(20);
    let out = ehlers_itrend(&EhlersITrendInput::from_slice(
        &data,
        EhlersITrendParams {
            warmup_bars: Some(12),
            max_dc_period: Some(50),
        },
    ))
    .expect("trendline failed");
    for i in 0..12 {
        assert_eq!(out.values[i], data[i], "warm-up altered sample {}", i);
    }
}

#[test]
fn test_engine_exact_values_on_mixed_series() {
    // A short non-constant integer series with the exact raw
    // outputs the recurrences give; any change to a stage of the
    // engine shows up here bit for bit.
    let prices: [i64; 16] = [
        100, 104, 97, 101, 109, 95, 92, 103, 110, 99, 96, 105, 112, 101, 98, 107,
    ];
    let data: Vec<Fx> = prices.iter().map(|&p| Fx::from_int(p).unwrap()).collect();

    let out = mama(&MamaInput::from_slice(&data, MamaParams::with_default_params()))
        .expect("mama failed");
    let expected_mama: [i128; 16] = [
        26843545600,
        27380416512,
        27313307652,
        27212644354,
        28236054529,
        26868711425,
        26760078958,
        27204465463,
        27320637190,
        26947873667,
        26358838722,
        26450182924,
        26630912320,
        26871446688,
        26843208090,
        27782900941,
    ];
    let expected_fama: [i128; 16] = [
        26843545600,
        26977763328,
        26986151935,
        27042775039,
        27341094911,
        27222999040,
        27211426039,
        27209685895,
        27212459677,
        27146313175,
        26949444562,
        26936963022,
        26929311755,
        26914845489,
        26913054555,
        27130516151,
    ];
    for i in 0..16 {
        assert_eq!(out.mama_values[i].raw(), expected_mama[i], "mama at {}", i);
        assert_eq!(out.fama_values[i].raw(), expected_fama[i], "fama at {}", i);
    }

    let trend = ehlers_itrend(&EhlersITrendInput::from_slice(
        &data,
        EhlersITrendParams {
            warmup_bars: Some(4),
            max_dc_period: Some(50),
        },
    ))
    .expect("trendline failed");
    let expected_trend: [i128; 16] = [
        26843545600,
        27917287424,
        26038239232,
        27111981056,
        27147772450,
        27170142071,
        26995659024,
        26908417501,
        27021160393,
        26933471477,
        26917365350,
        27160299437,
        27520002948,
        27749067871,
        27655115461,
        27655115461,
    ];
    for i in 0..16 {
        assert_eq!(trend.values[i].raw(), expected_trend[i], "trend at {}", i);
    }
}
