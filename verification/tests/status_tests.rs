use git_pilot::status::{parse_status_output, StatusParseError};

#[test]
fn parses_staged_and_unstaged_files() {
    let output = b"M  src/main.rs\0 M Cargo.toml\0?? notes.txt\0";
    let status = parse_status_output(output).expect("status parses");

    assert_eq!(status.files.len(), 3);
    assert_eq!(status.files[0].path, "Cargo.toml");
    assert!(status.files[0].unstaged);
    assert_eq!(status.files[1].path, "notes.txt");
    assert!(status.files[1].untracked);
    assert_eq!(status.files[2].path, "src/main.rs");
    assert!(status.files[2].staged);
}

#[test]
fn parses_renamed_entries_with_target_path() {
    let output = b"R  old.txt\0new.txt\0";
    let status = parse_status_output(output).expect("status parses");

    assert_eq!(status.files.len(), 1);
    assert_eq!(status.files[0].path, "new.txt");
}

#[test]
fn short_entry_is_refused() {
    let r = parse_status_output(b"M \0");
    assert_eq!(r.unwrap_err(), StatusParseError::UnexpectedEntry);
    assert_eq!(StatusParseError::UnexpectedEntry.message(), "unexpected git status entry");
}

#[test]
fn rename_without_target_is_refused() {
    let r = parse_status_output(b"R  old.txt\0");
    assert_eq!(r.unwrap_err(), StatusParseError::MissingRenameTarget);
    assert_eq!(
        StatusParseError::MissingRenameTarget.message(),
        "missing renamed target path in git status output"
    );
}

#[test]
fn status_codes_and_flags() {
    let status = parse_status_output(b"MM both.rs\0A  added.rs\0").unwrap();
    assert_eq!(status.files[0].path, "added.rs");
    assert_eq!(status.files[0].status_code, "A ");
    assert!(status.files[0].staged && !status.files[0].unstaged);
    assert_eq!(status.files[1].status_code, "MM");
    assert!(status.files[1].staged && status.files[1].unstaged);
    assert!(!status.is_clean());
    assert!(parse_status_output(b"").unwrap().is_clean());
}

#[test]
fn invalid_utf8_paths_are_decoded_lossily() {
    let status = parse_status_output(b"?? bad\xffname\0").unwrap();
    assert_eq!(status.files[0].path, "bad\u{FFFD}name");
}
