use pneuma::host_environment::{
    configure_startup_environment, host_environment_file_path, parse_host_environment,
    runtime_directory_path, session_bus_address_for, DEFAULT_HOST_ENVIRONMENT_FILE,
};

fn pairs(entries: &[(&str, &str)]) -> Vec<(String, String)> {
    entries.iter().map(|(n, v)| ((*n).to_owned(), (*v).to_owned())).collect()
}

#[test]
fn parse_ignores_comments_blank_lines_and_surrounding_whitespace() {
    let entries = parse_host_environment(
        "\n# full comment\n  \n  NAME = value  \nEMPTY=\nWITH=equals=sign#not a comment\n",
    )
    .unwrap();

    assert_eq!(
        entries,
        vec![
            ("NAME".to_owned(), "value".to_owned()),
            ("EMPTY".to_owned(), String::new()),
            ("WITH".to_owned(), "equals=sign#not a comment".to_owned()),
        ]
    );
}

#[test]
fn parse_reports_the_line_of_a_missing_separator() {
    let error = parse_host_environment("FIRST=1\nSECOND\n").unwrap_err();

    assert_eq!(error, "invalid host environment entry on line 2: expected NAME=VALUE");
}

#[test]
fn parse_reports_empty_and_invalid_variable_names() {
    assert_eq!(
        parse_host_environment("=value\n").unwrap_err(),
        "invalid host environment entry on line 1: empty variable name"
    );
    assert_eq!(
        parse_host_environment("1NAME=value\n").unwrap_err(),
        "invalid host environment entry on line 1: invalid variable name `1NAME`"
    );
    assert_eq!(
        parse_host_environment("WITH-DASH=value\n").unwrap_err(),
        "invalid host environment entry on line 1: invalid variable name `WITH-DASH`"
    );
}

#[test]
fn parse_rejects_nul_bytes_in_values() {
    assert_eq!(
        parse_host_environment("NAME=value\0suffix\n").unwrap_err(),
        "invalid host environment entry on line 1: NUL byte in value"
    );
}

#[test]
fn parse_rejects_duplicates_with_both_line_numbers() {
    assert_eq!(
        parse_host_environment("NAME=first\nOTHER=x\nNAME=second\n").unwrap_err(),
        "duplicate host environment variable `NAME` on lines 1 and 3"
    );
}

#[test]
fn parse_numbers_lines_past_nine_and_accepts_windows_line_endings() {
    let mut content = String::new();
    for _ in 0..11 {
        content.push_str("# comment\r\n");
    }
    content.push_str("BROKEN\r\n");
    assert_eq!(
        parse_host_environment(&content).unwrap_err(),
        "invalid host environment entry on line 12: expected NAME=VALUE"
    );
    assert_eq!(
        parse_host_environment("A=1\r\n_B2=two\r\n").unwrap(),
        pairs(&[("A", "1"), ("_B2", "two")])
    );
    assert_eq!(parse_host_environment("").unwrap(), Vec::new());
}

#[test]
fn file_entries_never_override_the_caller_and_runtime_paths_follow_the_uid() {
    let caller = pairs(&[("HOME", "/home/deploy"), ("KEEP", "caller")]);
    let assignments = configure_startup_environment(
        Some("KEEP=file\nNEW=value\n"),
        &caller,
        1000,
    )
    .unwrap();
    assert_eq!(
        assignments,
        pairs(&[
            ("NEW", "value"),
            ("XDG_RUNTIME_DIR", "/run/user/1000"),
            ("DBUS_SESSION_BUS_ADDRESS", "unix:path=/run/user/1000/bus"),
            ("PNEUMA_QUADLET_DIR", "/home/deploy/.config/containers/systemd"),
        ])
    );
}

#[test]
fn a_configured_quadlet_directory_is_kept_and_an_unresolvable_one_is_refused() {
    let caller = pairs(&[("PNEUMA_QUADLET_DIR", "/srv/quadlets")]);
    assert_eq!(
        configure_startup_environment(None, &caller, 0).unwrap(),
        pairs(&[
            ("XDG_RUNTIME_DIR", "/run/user/0"),
            ("DBUS_SESSION_BUS_ADDRESS", "unix:path=/run/user/0/bus"),
        ])
    );
    assert_eq!(
        configure_startup_environment(None, &pairs(&[("HOME", "")]), 0).unwrap_err(),
        "either HOME or PNEUMA_QUADLET_DIR must be set to a nonempty value"
    );
    assert_eq!(
        configure_startup_environment(Some("HOME=/root\n"), &Vec::new(), 0).unwrap(),
        pairs(&[
            ("HOME", "/root"),
            ("XDG_RUNTIME_DIR", "/run/user/0"),
            ("DBUS_SESSION_BUS_ADDRESS", "unix:path=/run/user/0/bus"),
            ("PNEUMA_QUADLET_DIR", "/root/.config/containers/systemd"),
        ])
    );
    assert_eq!(
        configure_startup_environment(Some("BAD\n"), &Vec::new(), 0).unwrap_err(),
        "invalid host environment entry on line 1: expected NAME=VALUE"
    );
}

#[test]
fn runtime_paths_and_the_environment_file_location() {
    assert_eq!(runtime_directory_path(4242), "/run/user/4242");
    assert_eq!(session_bus_address_for("/run/user/7"), "unix:path=/run/user/7/bus");
    assert_eq!(host_environment_file_path(None), DEFAULT_HOST_ENVIRONMENT_FILE);
    assert_eq!(host_environment_file_path(Some("")), "/etc/pneuma/environment");
    assert_eq!(host_environment_file_path(Some("/tmp/env")), "/tmp/env");
}
