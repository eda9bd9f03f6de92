use pneuma::domain::git::{is_remote_git_location, ApplicationSource, CommitSha, RelativeManifestPath};

fn manifest_path() -> RelativeManifestPath {
    RelativeManifestPath::new("deploy/pneuma.toml").expect("test path is valid")
}

#[test]
fn classifies_locations_by_transport_prefix() {
    assert!(is_remote_git_location("https://example.test/application.git"));
    assert!(is_remote_git_location("git@example.test:team/application.git"));
    assert!(!is_remote_git_location("/srv/checkouts/application"));
    assert!(!is_remote_git_location("."));
    assert!(!is_remote_git_location(""));
    assert!(!is_remote_git_location(" https://example.test/application.git"));
}

#[test]
fn builds_a_remote_source_preserving_the_supplied_fields() {
    let source = ApplicationSource::new(
        "https://example.test/application.git",
        Some("main".to_owned()),
        manifest_path(),
    )
    .expect("remote source is valid");
    assert_eq!(source.repository_url(), "https://example.test/application.git");
    assert_eq!(source.default_branch(), Some("main"));
    assert_eq!(source.manifest_path().as_str(), "deploy/pneuma.toml");
}

#[test]
fn rejects_local_paths_and_untrimmed_locations() {
    for location in [
        "",
        "/srv/checkouts/application",
        "/srv/checkouts/application ",
        ".",
        "git@example.test:team/application.git ",
    ] {
        let error = ApplicationSource::new(location, None, manifest_path()).unwrap_err();
        assert_eq!(error.repository_url, location, "{location:?}");
    }
}

#[test]
fn relative_manifest_paths_stay_relative_and_inside_the_checkout() {
    assert!(RelativeManifestPath::new("pneuma.toml").is_ok());
    assert!(RelativeManifestPath::new("deploy/pneuma.toml").is_ok());
    for invalid in ["", "/etc/pneuma.toml", "../pneuma.toml", "deploy/../pneuma.toml"] {
        assert!(RelativeManifestPath::new(invalid).is_err(), "{invalid:?}");
    }
}

#[test]
fn commit_identities_are_full_lowercase_hex_sha1s() {
    assert!(CommitSha::new(&"0123abcdef".repeat(4)).is_ok());
    for invalid in ["", "short", &"A".repeat(40), &format!("{}g", "a".repeat(39)), &"a".repeat(41)] {
        assert!(CommitSha::new(invalid).is_err(), "{invalid:?}");
    }
}

#[test]
fn rejected_locations_and_paths_explain_themselves() {
    let error = ApplicationSource::new(".", None, manifest_path()).unwrap_err();
    assert_eq!(error.message(), "invalid application source `.`: expected a remote Git URL");
    let error = RelativeManifestPath::new("../x").unwrap_err();
    assert_eq!(error.message(), "invalid relative manifest path `../x`");
    let error = CommitSha::new("short").unwrap_err();
    assert_eq!(error.message(), "invalid commit SHA `short`");
}
