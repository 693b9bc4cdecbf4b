use ohm::band::TempCoeff;
use ohm::resistance::Resistance;

#[test]
fn percent_error_is_raw_times_tolerance() {
    // 100 ohms at 5%: the allowed deviation is 5 ohms
    let r = Resistance::new(10_000, 500, None);
    assert_eq!(r.percent_error(), 5_000_000); // millionths of an ohm
    assert_eq!(r.percent_error() as f64 / 1_000_000.0, 5.0);
}

#[test]
fn bounds_straddle_the_nominal_value() {
    // 100 ohms at 5%
    let r = Resistance::new(10_000, 500, None);
    assert_eq!(r.minimum(), 95_000_000); // 95 ohms in millionths
    assert_eq!(r.maximum(), 105_000_000); // 105 ohms in millionths
    assert_eq!(r.minimum() as f64 / 1_000_000.0, 95.0);
    assert_eq!(r.maximum() as f64 / 1_000_000.0, 105.0);
}

#[test]
fn default_tolerance_spans_twenty_percent() {
    // 100 ohms at the 20% default of a 3-band code
    let r = Resistance::new(10_000, 2_000, None);
    assert_eq!(r.minimum() as f64 / 1_000_000.0, 80.0);
    assert_eq!(r.maximum() as f64 / 1_000_000.0, 120.0);
}

#[test]
fn fractional_tolerance_stays_exact() {
    // 100 ohms at 0.05% (Grey): the deviation is exactly 0.05 ohms
    let r = Resistance::new(10_000, 5, None);
    assert_eq!(r.percent_error(), 50_000);
    assert_eq!(r.minimum(), 99_950_000);
    assert_eq!(r.maximum(), 100_050_000);
}

#[test]
fn construction_keeps_every_field() {
    let r = Resistance::new(27_400, 200, Some(TempCoeff::Black));
    assert_eq!(r.raw, 27_400);
    assert_eq!(r.tol, 200);
    assert_eq!(r.temp, Some(TempCoeff::Black));
}

#[test]
fn largest_code_stays_within_bounds() {
    // 999 under a White multiplier at the 20% default: the largest value any
    // code can express, whose maximum bound must still not overflow
    let r = Resistance::new(99_900_000_000_000, 2_000, None);
    assert_eq!(r.maximum(), 999_000_000_000_000_000 + 199_800_000_000_000_000);
}
