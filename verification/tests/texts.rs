use repo_backup::archive::saving_path;
use repo_backup::error::BackupError;
use repo_backup::text::{decimal_string, failure_line, saved_line, summary_message};

#[test]
fn decimal_of_small_numbers() {
    assert_eq!(decimal_string(0), "0");
    assert_eq!(decimal_string(7), "7");
    assert_eq!(decimal_string(9), "9");
    assert_eq!(decimal_string(10), "10");
    assert_eq!(decimal_string(100), "100");
    assert_eq!(decimal_string(12345), "12345");
}

#[test]
fn decimal_agrees_with_std() {
    let samples = [0u64, 1, 19, 99, 101, 1000, 909090, 4294967295, 4294967296, u64::MAX];
    for n in samples {
        assert_eq!(decimal_string(n), n.to_string());
    }
    assert_eq!(decimal_string(u64::MAX), "18446744073709551615");
}

#[test]
fn summary_message_names_both_counts() {
    assert_eq!(
        summary_message(1, 1),
        "Downloaded 1 repositories and saved them. Could not download 1 repositories."
    );
    assert_eq!(
        summary_message(0, 0),
        "Downloaded 0 repositories and saved them. Could not download 0 repositories."
    );
    assert_eq!(
        summary_message(120, 3),
        "Downloaded 120 repositories and saved them. Could not download 3 repositories."
    );
}

#[test]
fn failure_line_names_repository_and_cause() {
    assert_eq!(
        failure_line("tool", "HTTP status 500"),
        "Error downloading repo: tool. Err: HTTP status 500"
    );
    assert_eq!(failure_line("", ""), "Error downloading repo: . Err: ");
}

#[test]
fn saved_line_names_the_path() {
    assert_eq!(saved_line("./backups/tool.zip"), "Saved zip at ./backups/tool.zip");
}

#[test]
fn saving_path_is_directory_name_and_extension() {
    assert_eq!(saving_path("tool", "./backups"), "./backups/tool.zip");
    assert_eq!(saving_path("a.b", "/var/out"), "/var/out/a.b.zip");
    assert_eq!(saving_path("", ""), "/.zip");
    assert_eq!(saving_path("tool", "out/"), "out//tool.zip");
}

#[test]
fn error_messages() {
    assert_eq!(BackupError::Config { detail: "no token".to_string() }.message(), "no token");
    assert_eq!(BackupError::Transport { detail: "timed out".to_string() }.message(), "timed out");
    assert_eq!(BackupError::HttpStatus { code: 500 }.message(), "HTTP status 500");
    assert_eq!(BackupError::HttpStatus { code: 404 }.message(), "HTTP status 404");
    assert_eq!(BackupError::Decode { detail: "missing field".to_string() }.message(), "missing field");
    assert_eq!(BackupError::Io { detail: "disk full".to_string() }.message(), "disk full");
}

#[test]
fn errors_can_be_cloned() {
    let errors = vec![
        BackupError::Config { detail: "a".to_string() },
        BackupError::Transport { detail: "b".to_string() },
        BackupError::HttpStatus { code: 418 },
        BackupError::Decode { detail: "c".to_string() },
        BackupError::Io { detail: "d".to_string() },
    ];
    for error in errors {
        assert_eq!(error.clone(), error);
    }
}
