use video_prep::cost::estimate_cost;
use video_prep::cost::COST_RATE_PER_MINUTE_NANO_USD;
use video_prep::cost::COST_WARNING_THRESHOLD_NANO_USD;

#[test]
fn estimates_twenty_minutes_at_twelve_cents() {
    // 1200 seconds at 0.006 USD per minute is 0.12 USD
    let c = estimate_cost(1_200_000).expect("estimate should succeed");
    assert_eq!(c.rate_per_minute_nano_usd, COST_RATE_PER_MINUTE_NANO_USD);
    assert_eq!(c.duration_ms, 1_200_000);
    assert_eq!(c.total_cost_nano_usd, 120_000_000);
    assert_eq!(c.formatted_cost, "$0.12 USD");
    assert_eq!(c.warning_threshold_nano_usd, COST_WARNING_THRESHOLD_NANO_USD);
    assert!(!c.exceeds_warning_threshold);
}

#[test]
fn flags_warning_exactly_at_threshold() {
    // 50,000 seconds cost exactly 5 USD, the warning threshold
    let c = estimate_cost(50_000_000).expect("estimate should succeed");
    assert_eq!(c.total_cost_nano_usd, 5_000_000_000);
    assert_eq!(c.formatted_cost, "$5.00 USD");
    assert!(c.exceeds_warning_threshold);
}

#[test]
fn does_not_flag_warning_just_below_threshold() {
    let c = estimate_cost(49_999_999).expect("estimate should succeed");
    assert!(c.total_cost_nano_usd < 5_000_000_000);
    assert!(!c.exceeds_warning_threshold);
}

#[test]
fn formats_cost_rounding_half_up() {
    // 55 seconds cost 0.0055 USD, which rounds up to a whole cent
    let c = estimate_cost(55_000).expect("estimate should succeed");
    assert_eq!(c.formatted_cost, "$0.01 USD");
    // 44 seconds cost 0.0044 USD, which rounds down to zero cents
    let c = estimate_cost(44_000).expect("estimate should succeed");
    assert_eq!(c.formatted_cost, "$0.00 USD");
}

#[test]
fn estimate_is_monotone_on_samples() {
    let mut last: u128 = 0;
    for duration in [1u64, 60_000, 600_000, 3_600_000, 50_000_000, 100_000_000] {
        let c = estimate_cost(duration).expect("estimate should succeed");
        assert!(c.total_cost_nano_usd >= last);
        last = c.total_cost_nano_usd;
    }
}

#[test]
fn rejects_zero_duration_estimate() {
    let err = estimate_cost(0).unwrap_err();
    assert_eq!(err, "Duration must be a positive number of seconds.");
}
