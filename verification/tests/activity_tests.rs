//! Activity scoring and sleep analysis. The library keeps scores in
//! thousandths of a percent; the helpers below move between that scale and
//! plain percentages.

use patient_monitor::activity::{
    calculate_activity_score, get_activity_level, get_rest_quality, ActivityLevel,
};

fn score_percent(motion: u64, total: u64) -> f64 {
    calculate_activity_score(motion, total) as f64 / 1000.0
}

fn level_of(score_percent: f64) -> ActivityLevel {
    get_activity_level((score_percent * 1000.0).round() as u128)
}

fn quality_of(score_percent: f64) -> String {
    get_rest_quality((score_percent * 1000.0).round() as u128)
}

#[test]
fn test_activity_score_zero_motion() {
    let score = score_percent(0, 100);
    assert_eq!(score, 0.0);
}

#[test]
fn test_activity_score_all_motion() {
    let score = score_percent(100, 100);
    assert_eq!(score, 100.0);
}

#[test]
fn test_activity_score_half_motion() {
    let score = score_percent(50, 100);
    assert_eq!(score, 50.0);
}

#[test]
fn test_activity_score_quarter_motion() {
    let score = score_percent(25, 100);
    assert_eq!(score, 25.0);
}

#[test]
fn test_activity_score_zero_readings() {
    let score = score_percent(0, 0);
    assert_eq!(score, 0.0);
}

#[test]
fn test_activity_score_more_motion_than_total() {
    let score = score_percent(150, 100);
    assert_eq!(score, 150.0);
}

#[test]
fn test_activity_score_precision() {
    let score = score_percent(33, 100);
    assert_eq!(score, 33.0);

    let score2 = score_percent(1, 3);
    assert!((score2 - 33.333).abs() < 0.01);
}

#[test]
fn test_deep_sleep_level() {
    assert_eq!(level_of(0.0), ActivityLevel::DeepSleep);
    assert_eq!(level_of(10.0), ActivityLevel::DeepSleep);
    assert_eq!(level_of(19.9), ActivityLevel::DeepSleep);
}

#[test]
fn test_light_sleep_level() {
    assert_eq!(level_of(20.0), ActivityLevel::LightSleep);
    assert_eq!(level_of(30.0), ActivityLevel::LightSleep);
    assert_eq!(level_of(39.9), ActivityLevel::LightSleep);
}

#[test]
fn test_restless_level() {
    assert_eq!(level_of(40.0), ActivityLevel::Restless);
    assert_eq!(level_of(50.0), ActivityLevel::Restless);
    assert_eq!(level_of(59.9), ActivityLevel::Restless);
}

#[test]
fn test_active_level() {
    assert_eq!(level_of(60.0), ActivityLevel::Active);
    assert_eq!(level_of(80.0), ActivityLevel::Active);
    assert_eq!(level_of(100.0), ActivityLevel::Active);
}

#[test]
fn test_activity_level_boundaries() {
    assert_eq!(level_of(19.999), ActivityLevel::DeepSleep);
    assert_eq!(level_of(20.0), ActivityLevel::LightSleep);
    assert_eq!(level_of(39.999), ActivityLevel::LightSleep);
    assert_eq!(level_of(40.0), ActivityLevel::Restless);
    assert_eq!(level_of(59.999), ActivityLevel::Restless);
    assert_eq!(level_of(60.0), ActivityLevel::Active);
}

#[test]
fn test_excellent_rest_quality() {
    assert_eq!(quality_of(0.0), "Excellent");
    assert_eq!(quality_of(15.0), "Excellent");
}

#[test]
fn test_good_rest_quality() {
    assert_eq!(quality_of(20.0), "Good");
    assert_eq!(quality_of(35.0), "Good");
}

#[test]
fn test_fair_rest_quality() {
    assert_eq!(quality_of(40.0), "Fair");
    assert_eq!(quality_of(55.0), "Fair");
}

#[test]
fn test_poor_rest_quality() {
    assert_eq!(quality_of(60.0), "Poor");
    assert_eq!(quality_of(100.0), "Poor");
}

#[test]
fn test_full_analysis_deep_sleep() {
    let motion_readings = 10;
    let total_readings = 100;

    let score = score_percent(motion_readings, total_readings);
    let level = level_of(score);
    let quality = quality_of(score);

    assert_eq!(score, 10.0);
    assert_eq!(level, ActivityLevel::DeepSleep);
    assert_eq!(quality, "Excellent");
}

#[test]
fn test_full_analysis_restless_night() {
    let motion_readings = 45;
    let total_readings = 100;

    let score = score_percent(motion_readings, total_readings);
    let level = level_of(score);
    let quality = quality_of(score);

    assert_eq!(score, 45.0);
    assert_eq!(level, ActivityLevel::Restless);
    assert_eq!(quality, "Fair");
}

#[test]
fn test_full_analysis_active_patient() {
    let motion_readings = 75;
    let total_readings = 100;

    let score = score_percent(motion_readings, total_readings);
    let level = level_of(score);
    let quality = quality_of(score);

    assert_eq!(score, 75.0);
    assert_eq!(level, ActivityLevel::Active);
    assert_eq!(quality, "Poor");
}

#[test]
fn test_single_reading_with_motion() {
    let score = score_percent(1, 1);
    assert_eq!(score, 100.0);
    assert_eq!(level_of(score), ActivityLevel::Active);
}

#[test]
fn test_single_reading_without_motion() {
    let score = score_percent(0, 1);
    assert_eq!(score, 0.0);
    assert_eq!(level_of(score), ActivityLevel::DeepSleep);
}

#[test]
fn test_large_number_of_readings() {
    let score = score_percent(5000, 10000);
    assert_eq!(score, 50.0);
    assert_eq!(level_of(score), ActivityLevel::Restless);
}
