use cap_engine::window_labels::CapWindowDef;

#[test]
fn fixed_labels_parse_to_their_windows() {
    let cases = [
        ("setup", CapWindowDef::Setup),
        ("main", CapWindowDef::Main),
        ("settings", CapWindowDef::Settings),
        ("camera", CapWindowDef::Camera),
        ("capture-area", CapWindowDef::CaptureArea),
        ("in-progress-recording", CapWindowDef::RecordingControls),
        ("recordings-overlay", CapWindowDef::RecordingsOverlay),
        ("upgrade", CapWindowDef::Upgrade),
        ("mode-select", CapWindowDef::ModeSelect),
        ("debug", CapWindowDef::Debug),
    ];
    for (label, def) in cases {
        assert_eq!(CapWindowDef::from_label(label).unwrap(), def, "{label}");
    }
}

#[test]
fn parameterized_labels_parse_their_ids() {
    assert_eq!(
        CapWindowDef::from_label("editor-5").unwrap(),
        CapWindowDef::Editor { id: 5 }
    );
    assert_eq!(
        CapWindowDef::from_label("editor-007").unwrap(),
        CapWindowDef::Editor { id: 7 }
    );
    assert_eq!(
        CapWindowDef::from_label("screenshot-editor-12").unwrap(),
        CapWindowDef::ScreenshotEditor { id: 12 }
    );
    assert_eq!(
        CapWindowDef::from_label("window-capture-occluder-3").unwrap(),
        CapWindowDef::WindowCaptureOccluder { screen_id: String::from("3") }
    );
    assert_eq!(
        CapWindowDef::from_label("target-select-overlay-main-display").unwrap(),
        CapWindowDef::TargetSelectOverlay { display_id: String::from("main-display") }
    );
}

#[test]
fn unknown_labels_are_refused_with_their_name() {
    for label in ["", "setups", "Main", "editor", "editor_5", "oddball"] {
        let err = CapWindowDef::from_label(label).unwrap_err();
        assert_eq!(err, format!("unknown window label: {label}"));
    }
}

#[test]
fn editor_labels_need_a_numeric_id_that_fits() {
    assert!(CapWindowDef::from_label("editor-").is_err());
    assert!(CapWindowDef::from_label("editor-x").is_err());
    assert!(CapWindowDef::from_label("editor-1x").is_err());
    assert!(CapWindowDef::from_label("editor--1").is_err());
    assert!(CapWindowDef::from_label("editor-+1").is_err());
    assert_eq!(
        CapWindowDef::from_label("editor-4294967295").unwrap(),
        CapWindowDef::Editor { id: u32::MAX }
    );
    assert!(CapWindowDef::from_label("editor-4294967296").is_err());
    assert!(CapWindowDef::from_label("screenshot-editor-99999999999").is_err());
}

#[test]
fn labels_round_trip() {
    let defs = [
        CapWindowDef::Setup,
        CapWindowDef::Main,
        CapWindowDef::Settings,
        CapWindowDef::Camera,
        CapWindowDef::CaptureArea,
        CapWindowDef::RecordingControls,
        CapWindowDef::RecordingsOverlay,
        CapWindowDef::Upgrade,
        CapWindowDef::ModeSelect,
        CapWindowDef::Debug,
        CapWindowDef::Editor { id: 0 },
        CapWindowDef::Editor { id: 42 },
        CapWindowDef::ScreenshotEditor { id: 9000 },
        CapWindowDef::WindowCaptureOccluder { screen_id: String::from("1") },
        CapWindowDef::TargetSelectOverlay { display_id: String::from("built-in") },
    ];
    for def in defs {
        let label = def.label();
        assert_eq!(CapWindowDef::from_label(&label).unwrap(), def, "{label}");
    }
}

#[test]
fn editor_labels_format_their_ids() {
    assert_eq!(CapWindowDef::Editor { id: 42 }.label(), "editor-42");
    assert_eq!(CapWindowDef::ScreenshotEditor { id: 0 }.label(), "screenshot-editor-0");
    assert_eq!(
        CapWindowDef::WindowCaptureOccluder { screen_id: String::from("7") }.label(),
        "window-capture-occluder-7"
    );
    assert_eq!(
        CapWindowDef::TargetSelectOverlay { display_id: String::from("dp-1") }.label(),
        "target-select-overlay-dp-1"
    );
    assert_eq!(CapWindowDef::RecordingControls.label(), "in-progress-recording");
}

#[test]
fn titles_and_chrome_flags_match_their_windows() {
    assert_eq!(CapWindowDef::Setup.title(), "Cap Setup");
    assert_eq!(CapWindowDef::Editor { id: 1 }.title(), "Cap Editor");
    assert_eq!(CapWindowDef::Main.title(), "Cap");
    assert_eq!(CapWindowDef::Upgrade.title(), "Cap");
    assert!(CapWindowDef::Main.activates_dock());
    assert!(!CapWindowDef::Camera.activates_dock());
    assert!(CapWindowDef::Camera.undecorated());
    assert!(!CapWindowDef::Settings.undecorated());
    assert!(CapWindowDef::RecordingControls.disables_window_buttons());
    assert!(!CapWindowDef::Main.disables_window_buttons());
    assert!(CapWindowDef::Settings.disables_fullscreen());
    assert!(!CapWindowDef::Main.disables_fullscreen());
    assert!(CapWindowDef::Main.conforms_to_solarium());
    assert!(!CapWindowDef::Setup.conforms_to_solarium());
}
