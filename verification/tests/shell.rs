use cap_engine::geometry::{min_dim, monitor_intersects, to_pixels};
use cap_engine::migrations::{pending_versions, run, schema_version_from, SCHEMA_VERSION};
use cap_engine::platform::{
    haptic_pattern_code, haptic_time_code, GlassEffectStyle, HapticPattern, HapticPerformanceTime,
};
use cap_engine::store::Store;
use cap_engine::window_ids::{EditorWindowIds, ScreenshotEditorWindowIds};

#[test]
fn store_keys_are_stable() {
    assert_eq!(Store::GeneralSettings.key(), "general_settings");
    assert_eq!(Store::Auth.key(), "auth");
    assert_eq!(Store::Presets.key(), "presets");
    assert_eq!(Store::RecordingSettings.key(), "recording_settings");
    assert_eq!(Store::Hotkeys.key(), "hotkeys");
}

#[test]
fn run_applies_no_builtin_migrations() {
    assert_eq!(run(0).unwrap(), 0);
    assert_eq!(run(SCHEMA_VERSION).unwrap(), 0);
}

#[test]
fn pending_migrations_are_sorted_ascending() {
    let registered = vec![3u32, 1, 5, 2];
    assert_eq!(pending_versions(&registered, 1), vec![2, 3, 5]);
    assert_eq!(pending_versions(&registered, 0), vec![1, 2, 3, 5]);
    assert_eq!(pending_versions(&registered, 5), Vec::<u32>::new());
    assert_eq!(pending_versions(&Vec::new(), 0), Vec::<u32>::new());
}

#[test]
fn stored_schema_versions_decode_with_a_zero_default() {
    assert_eq!(schema_version_from(None), 0);
    assert_eq!(schema_version_from(Some(1)), 1);
    assert_eq!(schema_version_from(Some(u64::from(u32::MAX) + 6)), 5);
}

#[test]
fn duplicate_migration_versions_are_kept() {
    let registered = vec![2u32, 2, 3];
    assert_eq!(pending_versions(&registered, 1), vec![2, 2, 3]);
}

#[test]
fn haptic_codes_match_the_native_constants() {
    assert_eq!(haptic_pattern_code(HapticPattern::Alignment), 0);
    assert_eq!(haptic_pattern_code(HapticPattern::LevelChange), 1);
    assert_eq!(haptic_pattern_code(HapticPattern::Generic), 2);
    assert_eq!(haptic_time_code(HapticPerformanceTime::Default), 0);
    assert_eq!(haptic_time_code(HapticPerformanceTime::Now), 1);
    assert_eq!(haptic_time_code(HapticPerformanceTime::DrawCompleted), 2);
}

#[test]
fn platform_defaults() {
    assert_eq!(HapticPattern::default(), HapticPattern::Generic);
    assert_eq!(HapticPerformanceTime::default(), HapticPerformanceTime::Now);
    assert_eq!(GlassEffectStyle::default(), GlassEffectStyle::Regular);
}

#[test]
fn editor_window_ids_are_stable_per_path() {
    let mut ids = EditorWindowIds::new();
    let a = String::from("/projects/a.cap");
    let b = String::from("/projects/b.cap");
    assert_eq!(ids.id_for_path(&a), 0);
    assert_eq!(ids.id_for_path(&b), 1);
    assert_eq!(ids.id_for_path(&a), 0, "a path keeps its id");
    assert_eq!(ids.id_for_path(&b), 1);
    assert_eq!(ids.counter, 2);
}

#[test]
fn screenshot_editor_ids_count_independently() {
    let mut editors = EditorWindowIds::new();
    let mut screenshots = ScreenshotEditorWindowIds::new();
    let p = String::from("/shots/s.png");
    assert_eq!(editors.id_for_path(&p), 0);
    assert_eq!(screenshots.id_for_path(&p), 0);
    assert_eq!(screenshots.id_for_path(&String::from("/shots/t.png")), 1);
    assert_eq!(editors.counter, 1);
    assert_eq!(screenshots.counter, 2);
}

#[test]
fn normalized_to_pixel_scaling_is_exact() {
    assert_eq!(to_pixels(100_000, 1080), 108_000_000);
    assert_eq!(to_pixels(0, 1080), 0);
    assert_eq!(to_pixels(1_000_000, 1920), 1_920_000_000);
    assert_eq!(to_pixels(u32::MAX, u32::MAX), u32::MAX as u64 * u32::MAX as u64);
    assert_eq!(min_dim(1920, 1080), 1080);
    assert_eq!(min_dim(720, 1280), 720);
}

#[test]
fn window_monitor_intersection_checks_all_corners() {
    // Monitor spans [0, 1920) x [0, 1080).
    assert!(monitor_intersects(0, 0, 1920, 1080, 100, 100, 200, 200));
    // Only the bottom-right corner reaches into the monitor.
    assert!(monitor_intersects(0, 0, 1920, 1080, -50, -50, 60, 60));
    // Entirely off to the left.
    assert!(!monitor_intersects(0, 0, 1920, 1080, -500, 100, 200, 200));
    // Touching only at the excluded right edge.
    assert!(!monitor_intersects(0, 0, 1920, 1080, 1920, 0, 100, 100));
}
