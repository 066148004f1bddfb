use sandbox_research::profile::{truncate_chars, ValidationError};
use sandbox_research::status::{error_text, FailStatus};
use sandbox_research::text::{chars_of, decimal, string_of};
use sandbox_research::{Profile, Status, APP_NAME};

#[test]
fn new_profile_is_idle() {
    let p = Profile::new(7, "Powershell", "This profile is used for testing", "powershell.exe -noprofile");
    assert_eq!(p.id, 7);
    assert_eq!(p.name, "Powershell");
    assert_eq!(p.description, "This profile is used for testing");
    assert_eq!(p.command, "powershell.exe -noprofile");
    assert!(!p.is_running);
    assert_eq!(p.pid, 0);
}

#[test]
fn default_profile_has_placeholders() {
    let p = Profile::default();
    assert_eq!(p.name, "New Profile");
    assert_eq!(p.description, "<No description>");
    assert_eq!(p.command, "cmd.exe");
    assert!(!p.is_running);
    assert_eq!(p.pid, 0);
}

#[test]
fn default_profile_validates() {
    let mut p = Profile::default();
    assert!(p.validate().is_empty());
}

#[test]
fn validate_reports_short_name_and_command() {
    let mut p = Profile::new(1, "ab", "", "a.ex");
    assert_eq!(p.validate(), vec![ValidationError::NameTooShort, ValidationError::CommandTooShort]);
}

#[test]
fn validate_reports_short_name_only() {
    let mut p = Profile::new(1, "", "d", "b.exe");
    assert_eq!(p.validate(), vec![ValidationError::NameTooShort]);
}

#[test]
fn validate_reports_short_command_only() {
    let mut p = Profile::new(1, "abc", "d", "");
    assert_eq!(p.validate(), vec![ValidationError::CommandTooShort]);
}

#[test]
fn validate_accepts_minimal_profile() {
    let mut p = Profile::new(1, "abc", "", "b.exe");
    assert!(p.validate().is_empty());
    assert_eq!(p.name, "abc");
    assert_eq!(p.command, "b.exe");
}

#[test]
fn validate_counts_characters_not_bytes() {
    // three characters, six bytes
    let mut p = Profile::new(1, "ééé", "", "ü.exe");
    assert!(p.validate().is_empty());
    let mut q = Profile::new(1, "éé", "", "üü.x");
    assert_eq!(q.validate(), vec![ValidationError::NameTooShort, ValidationError::CommandTooShort]);
}

#[test]
fn validate_truncates_name_and_description() {
    let long_name: String = std::iter::repeat('n').take(600).collect();
    let long_desc: String = std::iter::repeat('é').take(3000).collect();
    let mut p = Profile::new(9, &long_name, &long_desc, "cmd.exe");
    p.is_running = true;
    p.pid = 44;
    assert!(p.validate().is_empty());
    assert_eq!(p.name.chars().count(), 512);
    assert_eq!(p.description.chars().count(), 2048);
    assert!(p.description.chars().all(|c| c == 'é'));
    assert_eq!(p.id, 9);
    assert!(p.is_running);
    assert_eq!(p.pid, 44);
}

#[test]
fn validate_keeps_limits_exactly() {
    let name: String = std::iter::repeat('x').take(512).collect();
    let mut p = Profile::new(1, &name, "", "cmd.exe");
    p.validate();
    assert_eq!(p.name, name);
}

#[test]
fn validate_twice_changes_nothing() {
    let long_name: String = std::iter::repeat('a').take(700).collect();
    let mut p = Profile::new(1, &long_name, "x", "c");
    let first = p.validate();
    let name = p.name.clone();
    let desc = p.description.clone();
    let second = p.validate();
    assert_eq!(first, second);
    assert_eq!(p.name, name);
    assert_eq!(p.description, desc);
}

#[test]
fn truncate_chars_keeps_prefix() {
    assert_eq!(truncate_chars("héllo", 2), "hé");
    assert_eq!(truncate_chars("héllo", 10), "héllo");
    assert_eq!(truncate_chars("", 0), "");
}

#[test]
fn duplicate_copies_every_field() {
    let mut p = Profile::new(3, "name", "desc", "cmd.exe");
    p.pid = 12;
    p.is_running = true;
    let q = p.duplicate();
    assert_eq!(q.id, 3);
    assert_eq!(q.name, "name");
    assert_eq!(q.description, "desc");
    assert_eq!(q.command, "cmd.exe");
    assert!(q.is_running);
    assert_eq!(q.pid, 12);
}

#[test]
fn validation_error_messages() {
    assert_eq!(ValidationError::NameTooShort.message(), "Profile name is too short (at least 3 characters)");
    assert_eq!(
        ValidationError::CommandTooShort.message(),
        "Command is invalid (minimum viable example would be \"b.exe\")"
    );
}

#[test]
fn status_messages() {
    assert_eq!(Status::ProcessSpawnFailed("calc".to_string()).message(), "Failed to spawn process: calc");
    assert_eq!(Status::ProcessStopFailed("calc".to_string()).message(), "Failed to stop process: calc");
    assert_eq!(Status::NoSuchProfile(42).message(), "No such profile exist (internal ID: 42)");
    assert_eq!(Status::NoSuchProfile(0).message(), "No such profile exist (internal ID: 0)");
    assert_eq!(Status::ConnectionFailed.message(), "Failed to connect to server");
    assert_eq!(Status::ResponseError.message(), "Server replied with error");
    assert_eq!(Status::ThreadError.message(), "Thread panicked");
    assert_eq!(Status::EmptyError.message(), "Last error message was not set");
}

#[test]
fn error_dialogue_text() {
    assert_eq!(error_text(None), "Last error message was not set");
    assert_eq!(error_text(Some(Status::ThreadError)), "Thread panicked");
}

#[test]
fn fail_status_messages() {
    assert_eq!(FailStatus::ConnectionFailed.message(), "Failed to connect to server");
    assert_eq!(FailStatus::ResponseError.message(), "Server replied with error");
    assert_eq!(FailStatus::ThreadError.message(), "Thread panicked");
}

#[test]
fn decimal_formats_like_display() {
    for n in [0u32, 7, 10, 99, 100, 4096, 65535, u32::MAX] {
        assert_eq!(decimal(n), n.to_string());
    }
}

#[test]
fn chars_round_trip() {
    let v = chars_of("a€b");
    assert_eq!(v, vec!['a', '€', 'b']);
    assert_eq!(string_of(&v), "a€b");
}

#[test]
fn app_name() {
    assert_eq!(APP_NAME, "The Box");
}
