use eureka_notify::ocean::{Route, RouteTier, TimePeriod, ROUTE_PERIOD_SECS};

#[test]
fn route_at_the_epoch_is_slot_88() {
    // voyage = 88 + 0; slot 88 of the pattern is the Rhotano night route.
    assert_eq!(Route::from_datetime(0), Route::RhotanoNight);
}

#[test]
fn route_where_the_voyage_count_wraps_to_slot_zero() {
    // 56 cycles after the epoch the voyage count is 144, slot 0: the
    // Bloodbrine day route.
    assert_eq!(Route::from_datetime(56 * 7200), Route::BloodbrineDay);
}

#[test]
fn route_one_cycle_after_the_epoch_is_slot_89() {
    assert_eq!(Route::from_datetime(7200), Route::BloodbrineDay);
}

#[test]
fn route_is_constant_within_a_two_hour_window() {
    assert_eq!(Route::from_datetime(7199), Route::from_datetime(0));
    assert_eq!(Route::from_datetime(7200 + 7199), Route::from_datetime(7200));
}

#[test]
fn route_schedule_repeats_every_twelve_days() {
    for t in [0u64, 1, 7200, 123_456, 1_700_000_000] {
        assert_eq!(Route::from_datetime(t), Route::from_datetime(t + ROUTE_PERIOD_SECS));
    }
}

#[test]
fn the_twelve_slots_after_slot_zero_follow_the_base_order() {
    let expected = [
        Route::BloodbrineDay,
        Route::RothlytDay,
        Route::MerlthorDay,
        Route::RhotanoDay,
        Route::BloodbrineSunset,
        Route::RothlytSunset,
        Route::MerlthorSunset,
        Route::RhotanoSunset,
        Route::BloodbrineNight,
        Route::RothlytNight,
        Route::MerlthorNight,
        Route::RhotanoNight,
    ];
    for (i, want) in expected.iter().enumerate() {
        assert_eq!(Route::from_datetime((56 + i as u64) * 7200), *want);
    }
}

#[test]
fn route_names_match_the_reference_pairings() {
    assert_eq!(Route::BloodbrineDay.to_name(), "Crab / Seafaring Toad");
    assert_eq!(Route::RhotanoNight.to_name(), "Jellyfish");
    assert_eq!(Route::MerlthorNight.to_name(), "Octopodes");
    assert_eq!(Route::RothlytSunset.to_name(), "Hafgufa / Placodus");
}

#[test]
fn route_tiers_match_the_reference_grouping() {
    assert_eq!(Route::BloodbrineDay.tier(), RouteTier::Best);
    assert_eq!(Route::RothlytDay.tier(), RouteTier::Best);
    assert_eq!(Route::RhotanoDay.tier(), RouteTier::Best);
    assert_eq!(Route::RhotanoNight.tier(), RouteTier::Best);
    assert_eq!(Route::RothlytSunset.tier(), RouteTier::VeryGood);
    assert_eq!(Route::MerlthorSunset.tier(), RouteTier::VeryGood);
    assert_eq!(Route::RothlytNight.tier(), RouteTier::VeryGood);
    assert_eq!(Route::MerlthorNight.tier(), RouteTier::VeryGood);
    assert_eq!(Route::BloodbrineNight.tier(), RouteTier::Good);
    assert_eq!(Route::MerlthorDay.tier(), RouteTier::Bad);
    assert_eq!(Route::BloodbrineSunset.tier(), RouteTier::Bad);
    assert_eq!(Route::RhotanoSunset.tier(), RouteTier::Bad);
}

#[test]
fn route_time_periods_follow_the_names() {
    assert_eq!(Route::BloodbrineDay.time_period(), TimePeriod::Day);
    assert_eq!(Route::RothlytSunset.time_period(), TimePeriod::Sunset);
    assert_eq!(Route::MerlthorNight.time_period(), TimePeriod::Night);
}
