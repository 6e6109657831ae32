use vehicle_bridge::units::{heading_rate_nano, urad_to_mdeg, SCALAR_LIMIT};

#[test]
fn urad_to_mdeg_zero() {
    assert_eq!(urad_to_mdeg(0), 0);
}

#[test]
fn urad_to_mdeg_quarter_pi() {
    // pi/4 radians = 785398 microradians; 44.999 degrees after truncation.
    assert_eq!(urad_to_mdeg(785_398), 44_999);
    assert_eq!(urad_to_mdeg(-785_398), -44_999);
}

#[test]
fn urad_to_mdeg_matches_float_conversion() {
    // The fixed-point conversion agrees with the floating-point
    // radians-to-degrees conversion within a millidegree.
    for urad in [1i64, 17_453, 785_398, 3_141_593, 10_000_000] {
        let exact_mdeg = (urad as f64 * 1e-6).to_degrees() * 1e3;
        let got = urad_to_mdeg(urad) as f64;
        assert!((got - exact_mdeg).abs() < 1.0, "urad={urad} got={got} exact={exact_mdeg}");
    }
}

#[test]
fn urad_to_mdeg_largest_magnitude() {
    // The largest admitted angle converts without overflow.
    assert_eq!(urad_to_mdeg(SCALAR_LIMIT), 57_295_780_000);
    assert_eq!(urad_to_mdeg(-SCALAR_LIMIT), -57_295_780_000);
}

#[test]
fn heading_rate_unit_wheel_angle() {
    // One degree of wheel angle (1000 millidegrees) maps to -0.00866 of
    // heading rate, i.e. -8660000 nano-units.
    assert_eq!(heading_rate_nano(1000), -8_660_000);
    assert!((heading_rate_nano(1000) as f64 * 1e-9 - (-0.00866)).abs() < 1e-12);
}

#[test]
fn heading_rate_sign_inverted() {
    assert_eq!(heading_rate_nano(-2500), 21_650_000);
    assert_eq!(heading_rate_nano(0), 0);
}
