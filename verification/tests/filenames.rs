use cap_engine::decimal::u64_to_string;
use cap_engine::file_names::ensure_unique_filename;
use cap_engine::project_names::{is_project_filename_uuid, plan_project_rename, rename_target};

const UUID_NAME: &str = "a1b2c3d4-e5f6-7890-abcd-ef1234567890.cap";

#[test]
fn uuid_project_names_are_recognized() {
    assert!(is_project_filename_uuid(UUID_NAME));
    assert!(is_project_filename_uuid("00000000-0000-0000-0000-000000000000.cap"));
    assert!(is_project_filename_uuid("ABCDEF01-2345-6789-abcd-ef0123456789.cap"));
}

#[test]
fn non_uuid_project_names_are_rejected() {
    // wrong length
    assert!(!is_project_filename_uuid("a1b2c3d4-e5f6-7890-abcd-ef123456789.cap"));
    assert!(!is_project_filename_uuid(""));
    // wrong suffix
    assert!(!is_project_filename_uuid("a1b2c3d4-e5f6-7890-abcd-ef1234567890.mp4"));
    // dash out of place
    assert!(!is_project_filename_uuid("a1b2c3d-4e5f6-7890-abcd-ef1234567890.cap"));
    // non-hex character
    assert!(!is_project_filename_uuid("g1b2c3d4-e5f6-7890-abcd-ef1234567890.cap"));
    // dash where a hex digit belongs
    assert!(!is_project_filename_uuid("a1b2c3d4-e5f6-7890-abcd--f1234567890.cap"));
    // a pretty name of the right length
    assert!(!is_project_filename_uuid("My Recording From Last Tuesday A.cap.cap"));
}

#[test]
fn free_names_are_kept() {
    let existing = vec![String::from("other.cap")];
    assert_eq!(ensure_unique_filename("demo.cap", &existing).unwrap(), "demo.cap");
}

#[test]
fn taken_names_are_numbered_before_the_extension() {
    let existing = vec![String::from("demo.cap")];
    assert_eq!(ensure_unique_filename("demo.cap", &existing).unwrap(), "demo (1).cap");

    let existing = vec![
        String::from("document.pdf"),
        String::from("document (1).pdf"),
        String::from("document (2).pdf"),
    ];
    assert_eq!(ensure_unique_filename("document.pdf", &existing).unwrap(), "document (3).pdf");
}

#[test]
fn names_without_extension_are_numbered_at_the_end() {
    let existing = vec![String::from("notes")];
    assert_eq!(ensure_unique_filename("notes", &existing).unwrap(), "notes (1)");
}

#[test]
fn hidden_files_keep_their_leading_dot() {
    let existing = vec![String::from(".config")];
    assert_eq!(ensure_unique_filename(".config", &existing).unwrap(), ".config (1)");
}

#[test]
fn only_the_last_extension_moves() {
    let existing = vec![String::from("archive.tar.gz")];
    assert_eq!(ensure_unique_filename("archive.tar.gz", &existing).unwrap(), "archive.tar (1).gz");
}

#[test]
fn too_many_conflicts_is_an_error() {
    let mut existing = vec![String::from("busy.cap")];
    for i in 1..=1000u32 {
        existing.push(format!("busy ({i}).cap"));
    }
    let err = ensure_unique_filename("busy.cap", &existing).unwrap_err();
    assert_eq!(err, "Too many filename conflicts, unable to create unique filename");
}

#[test]
fn decimal_rendering_is_exact() {
    assert_eq!(u64_to_string(0), "0");
    assert_eq!(u64_to_string(7), "7");
    assert_eq!(u64_to_string(42), "42");
    assert_eq!(u64_to_string(1000), "1000");
    assert_eq!(u64_to_string(u64::MAX), "18446744073709551615");
}

#[test]
fn rename_targets_get_the_cap_suffix() {
    assert_eq!(rename_target("My Video").unwrap(), "My Video.cap");
    assert_eq!(rename_target("My Video.cap").unwrap(), "My Video.cap");
}

#[test]
fn unusable_sanitized_names_are_errors() {
    let err = rename_target("").unwrap_err();
    assert_eq!(err, "Sanitized filename is invalid: ''");
    let err = rename_target("   ").unwrap_err();
    assert_eq!(err, "Sanitized filename is invalid: '   '");
    let err = rename_target("-").unwrap_err();
    assert_eq!(err, "Sanitized filename is invalid: '-'");
}

#[test]
fn unicode_whitespace_names_are_errors() {
    // The sanitizer passes these spaces through; the blank test must still
    // catch them, as trimming would.
    let err = rename_target("\u{00A0}").unwrap_err();
    assert_eq!(err, "Sanitized filename is invalid: '\u{00A0}'");
    assert!(rename_target("\u{2003}\u{00A0} \u{3000}").is_err());
    assert!(rename_target("\u{202F}\u{205F}\u{2028}\u{2029}\u{1680}").is_err());
    // Whitespace inside an otherwise real name stays usable.
    assert_eq!(rename_target("a\u{00A0}b").unwrap(), "a\u{00A0}b.cap");
}

#[test]
fn pretty_names_of_bare_unicode_whitespace_are_errors() {
    let existing: Vec<String> = vec![];
    let err = plan_project_rename(UUID_NAME, "\u{00A0}", &existing).unwrap_err();
    assert_eq!(err, "Sanitized filename is invalid: '\u{00A0}'");
}

#[test]
fn non_uuid_directories_need_no_migration() {
    let existing: Vec<String> = vec![];
    assert_eq!(plan_project_rename("My Video.cap", "whatever", &existing).unwrap(), None);
}

#[test]
fn uuid_directories_are_renamed_to_the_sanitized_pretty_name() {
    // '/' is illegal in a filename and must be replaced by '-'; a plan that
    // handed the pretty name through unsanitized would keep the slash.
    let existing: Vec<String> = vec![];
    let planned = plan_project_rename(UUID_NAME, "My/Video", &existing).unwrap();
    assert_eq!(planned, Some(String::from("My-Video.cap")));
}

#[test]
fn renames_avoid_existing_names() {
    let existing = vec![String::from("My Video.cap")];
    let planned = plan_project_rename(UUID_NAME, "My Video", &existing).unwrap();
    assert_eq!(planned, Some(String::from("My Video (1).cap")));
}

#[test]
fn pretty_names_that_sanitize_away_are_errors() {
    let existing: Vec<String> = vec![];
    let err = plan_project_rename(UUID_NAME, "", &existing).unwrap_err();
    assert_eq!(err, "Sanitized filename is invalid: ''");
    // "..." is a reserved name; with '-' as the replacement it collapses to
    // a lone dash, which cannot name a project either.
    let err = plan_project_rename(UUID_NAME, "...", &existing).unwrap_err();
    assert_eq!(err, "Sanitized filename is invalid: '-'");
}

#[test]
fn pretty_names_keeping_their_own_cap_suffix() {
    let existing: Vec<String> = vec![];
    let planned = plan_project_rename(UUID_NAME, "Video.cap", &existing).unwrap();
    assert_eq!(planned, Some(String::from("Video.cap")));
}
