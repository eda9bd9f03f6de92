use pneuma::domain::identity::{
    is_valid_catalog_name, ApplicationId, DeploymentId, ReleaseId, RuntimeInstanceId, SystemId,
};
use pneuma::domain::system::SystemName;

fn valid_id(seed: u8) -> String {
    format!("{seed:032x}")
}

#[test]
fn accepts_the_current_store_generated_format() {
    for value in [valid_id(0), valid_id(255), "a".repeat(32)] {
        assert!(ApplicationId::new(&value).is_ok(), "{value:?}");
    }
}

#[test]
fn rejects_text_outside_the_current_identifier_format() {
    for value in [
        "",
        "app",
        "legacy value/with punctuation",
        &"A".repeat(32),
        &format!("{}g", "a".repeat(31)),
        &"a".repeat(31),
        &"a".repeat(33),
    ] {
        let error = ApplicationId::new(value).unwrap_err();
        assert_eq!(error.value, value);
        assert_eq!(
            error.message(),
            format!(
                "invalid entity identifier `{value}`: expected 32 lowercase hexadecimal characters"
            )
        );
    }
}

#[test]
fn every_identifier_kind_validates_the_same_format() {
    for value in ["app", "sys 001", "rel#7", "dep 42", "runtime_1"] {
        assert!(SystemId::new(value).is_err(), "{value:?}");
        assert!(ReleaseId::new(value).is_err(), "{value:?}");
        assert!(DeploymentId::new(value).is_err(), "{value:?}");
        assert!(RuntimeInstanceId::new(value).is_err(), "{value:?}");
    }
    let value = valid_id(1);
    assert!(SystemId::new(&value).is_ok());
    assert!(ReleaseId::new(&value).is_ok());
    assert!(DeploymentId::new(&value).is_ok());
    assert!(RuntimeInstanceId::new(&value).is_ok());
}

#[test]
fn identifiers_display_their_validated_text() {
    let value = valid_id(2);
    let application_id = ApplicationId::new(&value).unwrap();
    assert_eq!(application_id.as_str(), value);
    assert_eq!(application_id.as_str().to_string(), value);
}

#[test]
fn catalog_names_are_lowercase_alphanumeric_with_inner_hyphens() {
    let longest_allowed = format!("a{}b", "c".repeat(61));
    assert_eq!(longest_allowed.len(), 63);
    for valid in ["a", "team-system", longest_allowed.as_str()] {
        assert!(is_valid_catalog_name(valid), "{valid:?}");
    }

    let too_long = format!("{longest_allowed}c");
    assert_eq!(too_long.len(), 64);
    for invalid in [
        "",
        "Team",
        "team system",
        "team_system",
        "-team",
        "team-",
        "team.system",
        too_long.as_str(),
    ] {
        assert!(!is_valid_catalog_name(invalid), "{invalid:?}");
    }
}

#[test]
fn accepts_catalog_names_within_the_shared_rule() {
    assert!(SystemName::new("a").is_ok());
    assert!(SystemName::new("team-system").is_ok());
    let longest_allowed = format!("a{}b", "c".repeat(61));
    assert_eq!(longest_allowed.len(), 63);
    assert!(SystemName::new(&longest_allowed).is_ok());
}

#[test]
fn rejects_names_outside_the_shared_rule() {
    let too_long = format!("{}c", "a".repeat(63));
    assert_eq!(too_long.len(), 64);
    for invalid in [
        "",
        "Team",
        "team system",
        "team_system",
        "-team",
        "team-",
        "team.system",
        too_long.as_str(),
    ] {
        assert!(SystemName::new(invalid).is_err(), "{invalid:?}");
    }
}

#[test]
fn invalid_system_names_name_the_rejected_text() {
    let error = SystemName::new("Team").unwrap_err();
    assert_eq!(error.message(), "invalid system name `Team`");
}
