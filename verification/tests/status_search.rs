use eureka_notify::data::{
    EorzeaData, MapInfo, MapInfoMap, WeatherName, WeatherNameInner, WeatherNameMap, WeatherRate,
    WeatherRateMap,
};
use eureka_notify::datetime_eorzea::DateTimeEorzea;
use eureka_notify::status::{
    cassie_status, crab_status, find_condition_run, find_future_condition, find_next_condition,
    find_past_condition, hotbox_status, offensive_status, skoll_status, status_is_next_cycle,
    Direction, WeatherCondition,
};
use eureka_notify::weather::{ConfigError, EorzeaMap};

fn name_record(en: &str) -> WeatherName {
    WeatherName {
        name: WeatherNameInner {
            en: en.to_owned(),
            ja: String::new(),
            de: String::new(),
            fr: String::new(),
        },
    }
}

fn zone_record(name: &str, id: usize, weather_rate: usize) -> MapInfo {
    MapInfo { name: name.to_owned(), id, zone: 0, territory: 0, scale: 100, weather_rate }
}

/// Synthetic reference data.  The generator's rate indices at the cycle
/// boundaries 0, 28800, 57600, ... begin 56, 12, 0, 64, 48, 36, 0, 28, 72,
/// 81, 37, 25, 1, 1, 45, 97, ...; the thresholds below slice them into
/// known weather sequences.
fn sample_data() -> EorzeaData {
    let names = WeatherNameMap(vec![
        (1, name_record("Fog")),
        (2, name_record("Fair Skies")),
        (3, name_record("Snow")),
        (4, name_record("Blizzards")),
        (5, name_record("Umbral Wind")),
    ]);
    let rates = WeatherRateMap(vec![
        // Pagos: Fog below 50, Blizzards from 50 below 80, Fair Skies above.
        (10, vec![
            WeatherRate { rate: 50, weather_id: 1 },
            WeatherRate { rate: 80, weather_id: 4 },
            WeatherRate { rate: 100, weather_id: 2 },
        ]),
        // Pyros: Snow below 50, Blizzards from 50 below 80, Fair Skies above.
        (11, vec![
            WeatherRate { rate: 50, weather_id: 3 },
            WeatherRate { rate: 80, weather_id: 4 },
            WeatherRate { rate: 100, weather_id: 2 },
        ]),
        // Hydatos: Snow below 50, Fair Skies above.
        (12, vec![
            WeatherRate { rate: 50, weather_id: 3 },
            WeatherRate { rate: 100, weather_id: 2 },
        ]),
    ]);
    let map_info = MapInfoMap(vec![
        zone_record("Eureka Pagos", 701, 10),
        zone_record("Eureka Pyros", 795, 11),
        zone_record("Eureka Hydatos", 827, 12),
    ]);
    EorzeaData { map_info, rates, names }
}

const CYCLE: u64 = 28800;

#[test]
fn direction_next_steps_one_cycle() {
    let t = DateTimeEorzea::from_timestamp(CYCLE);
    assert_eq!(Direction::Future.next(t).timestamp(), 2 * CYCLE);
    assert_eq!(Direction::Past.next(t).timestamp(), 0);
}

#[test]
fn crab_future_reports_the_next_fog_cycle() {
    // Index 56 at cycle 0 is not Fog; cycle 1 (index 12) is.
    let data = sample_data();
    let r = crab_status(&data, DateTimeEorzea::from_timestamp(0), Direction::Future);
    assert_eq!(r, Ok(Some(DateTimeEorzea::from_timestamp(CYCLE))));
}

#[test]
fn crab_future_skips_the_run_the_start_sits_in() {
    // Cycles 1 and 2 are Fog; starting inside that run reports the next
    // separate occurrence at cycle 4, not the current one.
    let data = sample_data();
    let r = crab_status(&data, DateTimeEorzea::from_timestamp(CYCLE), Direction::Future);
    assert_eq!(r, Ok(Some(DateTimeEorzea::from_timestamp(4 * CYCLE))));
}

#[test]
fn crab_future_results_strictly_increase_under_iteration() {
    let data = sample_data();
    let start = DateTimeEorzea::from_timestamp(0);
    let t1 = crab_status(&data, start, Direction::Future).unwrap().unwrap();
    let t2 = crab_status(&data, t1, Direction::Future).unwrap().unwrap();
    let t3 = crab_status(&data, t2, Direction::Future).unwrap().unwrap();
    assert!(start.timestamp() < t1.timestamp());
    assert!(t1.timestamp() < t2.timestamp());
    assert!(t2.timestamp() < t3.timestamp());
}

#[test]
fn crab_past_reports_the_most_recent_fog_cycle() {
    // Cycle 3 (index 64) is not Fog; the most recent Fog is cycle 2.
    let data = sample_data();
    let r = crab_status(&data, DateTimeEorzea::from_timestamp(3 * CYCLE), Direction::Past);
    assert_eq!(r, Ok(Some(DateTimeEorzea::from_timestamp(2 * CYCLE))));
}

#[test]
fn crab_past_reports_a_currently_active_condition() {
    let data = sample_data();
    let r = crab_status(&data, DateTimeEorzea::from_timestamp(CYCLE), Direction::Past);
    assert_eq!(r, Ok(Some(DateTimeEorzea::from_timestamp(CYCLE))));
}

#[test]
fn crab_past_runs_out_before_the_epoch() {
    // Cycle 0 (index 56) is not Fog and nothing lies before it.
    let data = sample_data();
    let r = crab_status(&data, DateTimeEorzea::from_timestamp(0), Direction::Past);
    assert_eq!(r, Ok(None));
}

#[test]
fn cassie_future_finds_blizzards_in_pagos() {
    // Cycle 0 (index 56) is Blizzards already: skip it, then the next
    // Blizzards cycle is cycle 3 (index 64).
    let data = sample_data();
    let r = cassie_status(&data, DateTimeEorzea::from_timestamp(0), Direction::Future);
    assert_eq!(r, Ok(Some(DateTimeEorzea::from_timestamp(3 * CYCLE))));
}

#[test]
fn skoll_matches_cassie_on_equal_rate_tables() {
    // Pyros shares the Blizzards band with Pagos, so the searches agree.
    let data = sample_data();
    let a = skoll_status(&data, DateTimeEorzea::from_timestamp(0), Direction::Future);
    let b = cassie_status(&data, DateTimeEorzea::from_timestamp(0), Direction::Future);
    assert_eq!(a, b);
    let p = skoll_status(&data, DateTimeEorzea::from_timestamp(0), Direction::Past);
    assert_eq!(p, Ok(Some(DateTimeEorzea::from_timestamp(0))));
}

#[test]
fn hotbox_finds_the_first_long_run() {
    // Hotbox weather holds below index 80.  Cycle 9 (index 81) breaks the
    // opening run, so the first run beginning after the start opens at
    // cycle 10 and lasts 5 cycles (indices 37, 25, 1, 1, 45; 97 ends it).
    let data = sample_data();
    let r = hotbox_status(&data, DateTimeEorzea::from_timestamp(0));
    assert_eq!(r, Ok(Some((DateTimeEorzea::from_timestamp(10 * CYCLE), 5))));
}

#[test]
fn offensive_finds_a_two_cycle_snow_run() {
    // Snow holds below index 50: cycles 1 and 2 (indices 12, 0) match,
    // cycle 3 (index 64) does not.
    let data = sample_data();
    let r = offensive_status(&data, DateTimeEorzea::from_timestamp(0));
    assert_eq!(r, Ok(Some((DateTimeEorzea::from_timestamp(CYCLE), 2))));
}

#[test]
fn run_search_skips_single_cycle_occurrences() {
    // From cycle 14 the Snow flags run B A B A B B A B B A A: the single
    // occurrences at cycles 16, 18 and 21 are skipped; the run reported
    // starts at cycle 24 and spans 2 cycles.
    let data = sample_data();
    let r = offensive_status(&data, DateTimeEorzea::from_timestamp(14 * CYCLE));
    assert_eq!(r, Ok(Some((DateTimeEorzea::from_timestamp(24 * CYCLE), 2))));
    if let Ok(Some((_, count))) = r {
        assert!(count >= 2);
    }
}

#[test]
fn unknown_zone_is_reported() {
    let mut data = sample_data();
    data.map_info = MapInfoMap(vec![]);
    let r = crab_status(&data, DateTimeEorzea::from_timestamp(0), Direction::Future);
    assert_eq!(r, Err(ConfigError::UnknownZone));
}

#[test]
fn empty_rate_sequence_is_reported_as_invalid() {
    // The zone record exists but its rate group is missing, so the zone
    // resolves with an empty rate sequence and the search refuses it.
    let mut data = sample_data();
    data.rates = WeatherRateMap(vec![]);
    let r = crab_status(&data, DateTimeEorzea::from_timestamp(0), Direction::Future);
    assert_eq!(r, Err(ConfigError::InvalidRateTable));
}

#[test]
fn rate_table_not_reaching_100_is_reported_as_invalid() {
    let mut data = sample_data();
    data.rates = WeatherRateMap(vec![(10, vec![WeatherRate { rate: 50, weather_id: 1 }])]);
    let r = crab_status(&data, DateTimeEorzea::from_timestamp(0), Direction::Future);
    assert_eq!(r, Err(ConfigError::InvalidRateTable));
}

#[test]
fn unnamed_weather_id_is_reported_as_invalid() {
    let mut data = sample_data();
    data.rates = WeatherRateMap(vec![(10, vec![WeatherRate { rate: 100, weather_id: 9 }])]);
    let r = crab_status(&data, DateTimeEorzea::from_timestamp(0), Direction::Future);
    assert_eq!(r, Err(ConfigError::InvalidRateTable));
}

#[test]
fn zone_level_searches_agree_with_the_statuses() {
    let data = sample_data();
    let zone = EorzeaMap::from_name("Eureka Pagos", &data.map_info, &data.rates).unwrap();
    let start = DateTimeEorzea::from_timestamp(0);
    let next = find_next_condition(&zone, &data.names, WeatherCondition::Fog, start);
    assert_eq!(next, Some(DateTimeEorzea::from_timestamp(CYCLE)));
    let future = find_future_condition(&zone, &data.names, WeatherCondition::Fog, start);
    assert_eq!(future, Some(DateTimeEorzea::from_timestamp(CYCLE)));
    let past = find_past_condition(&zone, &data.names, WeatherCondition::Fog, start);
    assert_eq!(past, None);
    let run = find_condition_run(&zone, &data.names, WeatherCondition::Fog, start);
    assert_eq!(run, Some((DateTimeEorzea::from_timestamp(CYCLE), 2)));
}

#[test]
fn find_next_reports_a_matching_start_inclusively() {
    // Unlike the Future mode, the plain forward scan may return the start
    // itself when the condition already holds there.
    let data = sample_data();
    let zone = EorzeaMap::from_name("Eureka Pagos", &data.map_info, &data.rates).unwrap();
    let start = DateTimeEorzea::from_timestamp(CYCLE);
    let next = find_next_condition(&zone, &data.names, WeatherCondition::Fog, start);
    assert_eq!(next, Some(start));
}

#[test]
fn status_is_next_cycle_compares_against_the_following_boundary() {
    let now = DateTimeEorzea::from_timestamp(0);
    assert!(status_is_next_cycle(&Some(DateTimeEorzea::from_timestamp(CYCLE)), now));
    assert!(!status_is_next_cycle(&Some(DateTimeEorzea::from_timestamp(2 * CYCLE)), now));
    assert!(!status_is_next_cycle(&None, now));
}

#[test]
fn searches_report_exhaustion_at_the_end_of_the_range() {
    // Less than one cycle of room remains, so whichever weather holds
    // there, no later cycle exists for the run search, and a condition
    // failing at the last reachable cycle exhausts the forward scan.
    let data = sample_data();
    let zone = EorzeaMap::from_name("Eureka Pagos", &data.map_info, &data.rates).unwrap();
    let near_end = DateTimeEorzea::from_timestamp(u64::MAX - 1000);
    let run = find_condition_run(&zone, &data.names, WeatherCondition::Fog, near_end);
    assert_eq!(run, None);
    // The rate index there is 25: Fog holds, Blizzards does not.
    let next = find_next_condition(&zone, &data.names, WeatherCondition::Blizzards, near_end);
    assert_eq!(next, None);
    let next_fog = find_next_condition(&zone, &data.names, WeatherCondition::Fog, near_end);
    assert_eq!(next_fog, Some(near_end));
    let future_fog = find_future_condition(&zone, &data.names, WeatherCondition::Fog, near_end);
    assert_eq!(future_fog, None);
}
