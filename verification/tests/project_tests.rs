use scorm_builder::archive::validate_entry_path;
use scorm_builder::project::{
    extract_project_id, get_media_path, get_metadata_path, is_duplicate_media_file, AppSettings,
};

#[test]
fn test_extract_project_id() {
    assert_eq!(extract_project_id("TestProject_1234567890.scormproj"), "1234567890");
    assert_eq!(extract_project_id("1234567890.scormproj"), "1234567890");
    assert_eq!(extract_project_id("1234567890"), "1234567890");
}

#[test]
fn test_extract_from_underscore_pattern() {
    // Test the standard format: ProjectName_1234567890.scormproj
    assert_eq!(extract_project_id("TestProject_1234567890.scormproj"), "1234567890");
    assert_eq!(extract_project_id("My_Cool_Project_9876543210.scormproj"), "9876543210");
}

#[test]
fn test_extract_from_numeric_only() {
    // Test numeric-only format: 1234567890.scormproj
    assert_eq!(extract_project_id("1234567890.scormproj"), "1234567890");
}

#[test]
fn test_extract_from_full_path() {
    // Test with full paths
    assert_eq!(
        extract_project_id("C:\\projects\\TestProject_1234567890.scormproj"),
        "1234567890"
    );
    assert_eq!(
        extract_project_id("/home/user/projects/MyProject_9876543210.scormproj"),
        "9876543210"
    );
}

#[test]
fn test_plain_project_id() {
    // Test when it's already just an ID
    assert_eq!(extract_project_id("1234567890"), "1234567890");
}

#[test]
fn test_invalid_formats() {
    // Test formats that can't be parsed - should return as-is
    assert_eq!(extract_project_id("NotAProject.scormproj"), "NotAProject.scormproj");
    assert_eq!(
        extract_project_id("Project_NotNumeric.scormproj"),
        "Project_NotNumeric.scormproj"
    );
}

#[test]
fn test_validate_project_path() {
    // The full check needs the projects directory on disk; the archive
    // entry-path validation logic is tested separately here.
    assert!(validate_entry_path("pages/topic-1.html"));
    assert!(!validate_entry_path("/etc/passwd"));
    assert!(!validate_entry_path("../escape.txt"));
}

#[test]
fn test_duplicate_media_names() {
    assert!(is_duplicate_media_file("audio-0-1.json"));
    assert!(is_duplicate_media_file("caption-2-1.bin"));
    assert!(!is_duplicate_media_file("audio-1.json"));
    assert!(!is_duplicate_media_file("image-0.bin"));
    assert!(!is_duplicate_media_file("plainname"));
}

#[test]
fn test_media_storage_paths() {
    assert_eq!(get_media_path("1234", "audio-0"), "1234/media/audio-0.bin");
    assert_eq!(get_metadata_path("1234", "audio-0"), "1234/media/audio-0.json");
}

#[test]
fn test_app_settings_default() {
    let s = AppSettings::default();
    assert!(s.projects_directory.is_none());
    assert_eq!(s.recent_projects_count, Some(10));
}
