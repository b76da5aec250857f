

#[test]
fn hz_to_nanosec_period() {
    assert_eq!(chinchilib::hz_to_nanosec_period(60), 16_666_666);
    assert_eq!(chinchilib::hz_to_nanosec_period(1), 1_000_000_000);
}

#[test]
fn period_of_zero_hz_saturates() {
    assert_eq!(chinchilib::hz_to_nanosec_period(0), u64::MAX);
}

#[test]
fn period_matches_float_formula_for_every_rate() {
    for hz in 1..=u16::MAX {
        let nano_period = 1.0 / hz as f64 * 1_000_000_000.0;
        assert_eq!(chinchilib::hz_to_nanosec_period(hz), nano_period as u64, "hz = {}", hz);
    }
}

#[test]
fn period_of_fastest_rate() {
    assert_eq!(chinchilib::hz_to_nanosec_period(65535), 15_259);
    assert_eq!(chinchilib::hz_to_nanosec_period(3), 333_333_333);
}
