//! Fall detection and inactivity alert decisions.

use patient_monitor::alert::{detect_alert, AlertType};

#[test]
fn test_fall_detected_with_motion_and_loud_sound() {
    let alert = detect_alert(true, 200, 150, 0, 300);
    assert_eq!(alert, AlertType::Fall);
}

#[test]
fn test_no_fall_when_sound_below_threshold() {
    let alert = detect_alert(true, 100, 150, 0, 300);
    assert_eq!(alert, AlertType::NoAlert);
}

#[test]
fn test_no_fall_when_no_motion() {
    let alert = detect_alert(false, 200, 150, 10, 300);
    assert_eq!(alert, AlertType::NoAlert);
}

#[test]
fn test_fall_detected_at_exact_threshold() {
    let alert = detect_alert(true, 151, 150, 0, 300);
    assert_eq!(alert, AlertType::Fall);
}

#[test]
fn test_no_fall_at_exact_threshold() {
    let alert = detect_alert(true, 150, 150, 0, 300);
    assert_eq!(alert, AlertType::NoAlert);
}

#[test]
fn test_inactivity_alert_after_threshold() {
    let alert = detect_alert(false, 30, 150, 301, 300);
    assert_eq!(alert, AlertType::Inactivity);
}

#[test]
fn test_no_inactivity_before_threshold() {
    let alert = detect_alert(false, 30, 150, 299, 300);
    assert_eq!(alert, AlertType::NoAlert);
}

#[test]
fn test_no_inactivity_at_exact_threshold() {
    let alert = detect_alert(false, 30, 150, 300, 300);
    assert_eq!(alert, AlertType::NoAlert);
}

#[test]
fn test_inactivity_with_custom_threshold() {
    let alert = detect_alert(false, 20, 150, 61, 60);
    assert_eq!(alert, AlertType::Inactivity);
}

#[test]
fn test_fall_takes_priority_over_inactivity() {
    let alert = detect_alert(true, 200, 150, 0, 300);
    assert_eq!(alert, AlertType::Fall);
}

#[test]
fn test_zero_sound_level() {
    let alert = detect_alert(true, 0, 150, 0, 300);
    assert_eq!(alert, AlertType::NoAlert);
}

#[test]
fn test_very_high_sound_level() {
    let alert = detect_alert(true, 1000, 150, 0, 300);
    assert_eq!(alert, AlertType::Fall);
}

#[test]
fn test_long_inactivity_period() {
    let alert = detect_alert(false, 10, 150, 3600, 300);
    assert_eq!(alert, AlertType::Inactivity);
}

#[test]
fn test_zero_inactivity_threshold() {
    let alert = detect_alert(false, 10, 150, 1, 0);
    assert_eq!(alert, AlertType::Inactivity);
}
