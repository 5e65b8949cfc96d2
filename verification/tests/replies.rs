use isometry_desktop::reply::{
    app_data_dir_failure, create_dir_failure, open_report, save_report, write_failure,
};

#[test]
fn app_data_dir_failure_leads_with_the_failed_lookup() {
    assert_eq!(
        app_data_dir_failure("unknown path"),
        "Failed to get app data directory: unknown path"
    );
}

#[test]
fn create_dir_failure_leads_with_the_failed_creation() {
    assert_eq!(
        create_dir_failure("Permission denied (os error 13)"),
        "Failed to create app data directory: Permission denied (os error 13)"
    );
}

#[test]
fn write_failure_leads_with_the_failed_write() {
    assert_eq!(
        write_failure("No space left on device (os error 28)"),
        "Failed to write test file: No space left on device (os error 28)"
    );
}

#[test]
fn open_report_names_the_directory() {
    assert_eq!(
        open_report("/home/ada/.local/share/isometry"),
        "File dialog would open here. App data directory: /home/ada/.local/share/isometry"
    );
}

#[test]
fn save_report_names_the_file() {
    assert_eq!(
        save_report("/home/ada/.local/share/isometry/test-isometry-file.txt"),
        "Test file saved to: /home/ada/.local/share/isometry/test-isometry-file.txt"
    );
}

#[test]
fn an_empty_value_leaves_the_lead_alone() {
    assert_eq!(app_data_dir_failure(""), "Failed to get app data directory: ");
    assert_eq!(create_dir_failure(""), "Failed to create app data directory: ");
    assert_eq!(write_failure(""), "Failed to write test file: ");
    assert_eq!(open_report(""), "File dialog would open here. App data directory: ");
    assert_eq!(save_report(""), "Test file saved to: ");
}

#[test]
fn a_value_is_kept_character_for_character() {
    let dir = "C:\\Users\\Zoë\\AppData\\Roaming\\isométrie 数据";
    let text = open_report(dir);
    assert!(text.ends_with(dir));
    assert_eq!(
        text.chars().count(),
        "File dialog would open here. App data directory: ".chars().count() + dir.chars().count()
    );
}

#[test]
fn the_failures_of_different_steps_read_differently() {
    let cause = "boom";
    assert_ne!(app_data_dir_failure(cause), create_dir_failure(cause));
    assert_ne!(create_dir_failure(cause), write_failure(cause));
    assert_ne!(app_data_dir_failure(cause), write_failure(cause));
}
